//! Keyboard keys the display backend can report (US layout). The
//! control loop reads four of them as behavior toggles and as the
//! start-capture trigger; the rest are carried for completeness.

use vstd::prelude::*;

verus! {

/// Keyboard keys (US keyboard layout).
#[allow(non_camel_case_types)]
#[derive(Clone, Copy, Debug, PartialEq, Eq, Structural)]
pub enum KeyboardKeys {
    /// Used for no key pressed
    KEY_NULL,
    /// Key: '
    KEY_APOSTROPHE,
    /// Key: ,
    KEY_COMMA,
    /// Key: -
    KEY_MINUS,
    /// Key: .
    KEY_PERIOD,
    /// Key: /
    KEY_SLASH,
    /// Key: 0
    KEY_ZERO,
    /// Key: 1
    KEY_ONE,
    /// Key: 2
    KEY_TWO,
    /// Key: 3
    KEY_THREE,
    /// Key: 4
    KEY_FOUR,
    /// Key: 5
    KEY_FIVE,
    /// Key: 6
    KEY_SIX,
    /// Key: 7
    KEY_SEVEN,
    /// Key: 8
    KEY_EIGHT,
    /// Key: 9
    KEY_NINE,
    /// Key: ;
    KEY_SEMICOLON,
    /// Key: =
    KEY_EQUAL,
    /// Key: A | a
    KEY_A,
    /// Key: B | b
    KEY_B,
    /// Key: C | c
    KEY_C,
    /// Key: D | d
    KEY_D,
    /// Key: E | e
    KEY_E,
    /// Key: F | f
    KEY_F,
    /// Key: G | g
    KEY_G,
    /// Key: H | h
    KEY_H,
    /// Key: I | i
    KEY_I,
    /// Key: J | j
    KEY_J,
    /// Key: K | k
    KEY_K,
    /// Key: L | l
    KEY_L,
    /// Key: M | m
    KEY_M,
    /// Key: N | n
    KEY_N,
    /// Key: O | o
    KEY_O,
    /// Key: P | p
    KEY_P,
    /// Key: Q | q
    KEY_Q,
    /// Key: R | r
    KEY_R,
    /// Key: S | s
    KEY_S,
    /// Key: T | t
    KEY_T,
    /// Key: U | u
    KEY_U,
    /// Key: V | v
    KEY_V,
    /// Key: W | w
    KEY_W,
    /// Key: X | x
    KEY_X,
    /// Key: Y | y
    KEY_Y,
    /// Key: Z | z
    KEY_Z,
    /// Key: [
    KEY_LEFT_BRACKET,
    /// Key: '\'
    KEY_BACKSLASH,
    /// Key: ]
    KEY_RIGHT_BRACKET,
    /// Key: `
    KEY_GRAVE,
    /// Key: Space
    KEY_SPACE,
    /// Key: Esc
    KEY_ESCAPE,
    /// Key: Enter
    KEY_ENTER,
    /// Key: Tab
    KEY_TAB,
    /// Key: Backspace
    KEY_BACKSPACE,
    /// Key: Ins
    KEY_INSERT,
    /// Key: Del
    KEY_DELETE,
    /// Key: Cursor right
    KEY_RIGHT,
    /// Key: Cursor left
    KEY_LEFT,
    /// Key: Cursor down
    KEY_DOWN,
    /// Key: Cursor up
    KEY_UP,
    /// Key: Page up
    KEY_PAGE_UP,
    /// Key: Page down
    KEY_PAGE_DOWN,
    /// Key: Home
    KEY_HOME,
    /// Key: End
    KEY_END,
    /// Key: Caps lock
    KEY_CAPS_LOCK,
    /// Key: Scroll lock
    KEY_SCROLL_LOCK,
    /// Key: Num lock
    KEY_NUM_LOCK,
    /// Key: Print screen
    KEY_PRINT_SCREEN,
    /// Key: Pause
    KEY_PAUSE,
    /// Key: F1
    KEY_F1,
    /// Key: F2
    KEY_F2,
    /// Key: F3
    KEY_F3,
    /// Key: F4
    KEY_F4,
    /// Key: F5
    KEY_F5,
    /// Key: F6
    KEY_F6,
    /// Key: F7
    KEY_F7,
    /// Key: F8
    KEY_F8,
    /// Key: F9
    KEY_F9,
    /// Key: F10
    KEY_F10,
    /// Key: F11
    KEY_F11,
    /// Key: F12
    KEY_F12,
    /// Key: Shift left
    KEY_LEFT_SHIFT,
    /// Key: Control left
    KEY_LEFT_CONTROL,
    /// Key: Alt left
    KEY_LEFT_ALT,
    /// Key: Super left
    KEY_LEFT_SUPER,
    /// Key: Shift right
    KEY_RIGHT_SHIFT,
    /// Key: Control right
    KEY_RIGHT_CONTROL,
    /// Key: Alt right
    KEY_RIGHT_ALT,
    /// Key: Super right
    KEY_RIGHT_SUPER,
    /// Key: KB menu
    KEY_KB_MENU,
    /// Key: Keypad 0
    KEY_KP_0,
    /// Key: Keypad 1
    KEY_KP_1,
    /// Key: Keypad 2
    KEY_KP_2,
    /// Key: Keypad 3
    KEY_KP_3,
    /// Key: Keypad 4
    KEY_KP_4,
    /// Key: Keypad 5
    KEY_KP_5,
    /// Key: Keypad 6
    KEY_KP_6,
    /// Key: Keypad 7
    KEY_KP_7,
    /// Key: Keypad 8
    KEY_KP_8,
    /// Key: Keypad 9
    KEY_KP_9,
    /// Key: Keypad .
    KEY_KP_DECIMAL,
    /// Key: Keypad /
    KEY_KP_DIVIDE,
    /// Key: Keypad *
    KEY_KP_MULTIPLY,
    /// Key: Keypad -
    KEY_KP_SUBTRACT,
    /// Key: Keypad +
    KEY_KP_ADD,
    /// Key: Keypad Enter
    KEY_KP_ENTER,
    /// Key: Keypad =
    KEY_KP_EQUAL,
    /// Key: Android back button
    KEY_BACK,
    /// Key: Android menu button
    KEY_MENU,
    /// Key: Android volume up button
    KEY_VOLUME_UP,
    /// Key: Android volume down button
    KEY_VOLUME_DOWN,
}

} // verus!
