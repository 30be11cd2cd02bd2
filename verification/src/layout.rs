//! Display options and on-screen placement: the render loop's behavior
//! toggles, the fill-vs-fit scale of the preview on the screen, and the
//! centered position it is drawn at. Positions and scales are exact
//! integers in thousandths of a pixel.

use vstd::prelude::*;

use crate::keys::KeyboardKeys;

verus! {

/// Show the debug overlay (memory, screen size, frame rate).
pub const SHOW_DEBUG_INFO: u32 = 1;

/// Scale the preview to cover the screen instead of fitting inside it.
pub const FILL: u32 = 2;

/// Show the built-in still image instead of the live preview.
pub const SHOW_DEBUG_IMAGE: u32 = 4;

/// One option flag flipped.
pub fn toggle_option(options: u32, flag: u32) -> (r: u32)
    ensures
        r == options ^ flag,
{
    options ^ flag
}

/// Whether an option flag is set.
pub fn option_set(options: u32, flag: u32) -> (r: bool)
    ensures
        r == ((options & flag) != 0),
{
    options & flag != 0
}

/// What a recognized key press does to the display options, and whether
/// it is the start-capture trigger.
pub open spec fn spec_apply_key(options: u32, key: KeyboardKeys) -> (u32, bool) {
    match key {
        KeyboardKeys::KEY_F => (options ^ FILL, false),
        KeyboardKeys::KEY_D => (options ^ SHOW_DEBUG_INFO, false),
        KeyboardKeys::KEY_I => (options ^ SHOW_DEBUG_IMAGE, false),
        KeyboardKeys::KEY_C => (options, true),
        _ => (options, false),
    }
}

/// Routes one pressed key: toggles the option it names, or reports the
/// start-capture trigger; every other key changes nothing.
pub fn apply_key(options: u32, key: &KeyboardKeys) -> (r: (u32, bool))
    ensures
        r == spec_apply_key(options, *key),
{
    match key {
        KeyboardKeys::KEY_F => (options ^ FILL, false),
        KeyboardKeys::KEY_D => (options ^ SHOW_DEBUG_INFO, false),
        KeyboardKeys::KEY_I => (options ^ SHOW_DEBUG_IMAGE, false),
        KeyboardKeys::KEY_C => (options, true),
        _ => (options, false),
    }
}

/// The scale a texture is drawn at, in thousandths: the screen-to-texture
/// width and height ratios, taking the larger in fill mode (the image
/// covers the screen) and the smaller in fit mode (the image fits inside
/// it).
pub open spec fn spec_scale_milli(
    screen_w: u32,
    screen_h: u32,
    tex_w: u32,
    tex_h: u32,
    fill: bool,
) -> int {
    let sx = 1000 * screen_w as int / tex_w as int;
    let sy = 1000 * screen_h as int / tex_h as int;
    if fill {
        if sx >= sy {
            sx
        } else {
            sy
        }
    } else {
        if sx <= sy {
            sx
        } else {
            sy
        }
    }
}

/// The centered offset of a texture extent `tex` drawn at `scale_milli`
/// on a screen extent `screen`: half the leftover space, in thousandths
/// of a pixel, negative when the scaled texture overflows the screen
/// (rounded toward zero).
pub open spec fn spec_centered_offset_milli(screen: u32, tex: u32, scale_milli: int) -> int {
    let leftover = 1000 * screen as int - tex as int * scale_milli;
    if leftover >= 0 {
        leftover / 2
    } else {
        -((-leftover) / 2)
    }
}

/// Computes the fill-or-fit scale, in thousandths.
pub fn compute_scale_milli(screen_w: u32, screen_h: u32, tex_w: u32, tex_h: u32, fill: bool) -> (r:
    u64)
    requires
        tex_w > 0,
        tex_h > 0,
    ensures
        r as int == spec_scale_milli(screen_w, screen_h, tex_w, tex_h, fill),
        r <= 1000 * screen_w as u64 || r <= 1000 * screen_h as u64,
{
    let sx: u64 = 1000 * screen_w as u64 / tex_w as u64;
    let sy: u64 = 1000 * screen_h as u64 / tex_h as u64;
    proof {
        assert(sx as int <= 1000 * screen_w as int) by (nonlinear_arith)
            requires
                sx as int == 1000 * screen_w as int / tex_w as int,
                tex_w >= 1,
        ;
        assert(sy as int <= 1000 * screen_h as int) by (nonlinear_arith)
            requires
                sy as int == 1000 * screen_h as int / tex_h as int,
                tex_h >= 1,
        ;
    }
    if fill {
        if sx >= sy {
            sx
        } else {
            sy
        }
    } else {
        if sx <= sy {
            sx
        } else {
            sy
        }
    }
}

/// Computes the centered offset for one axis, in thousandths of a pixel.
/// The extents are bounded so that every product stays well inside the
/// machine's integer range.
pub fn centered_offset_milli(screen: u32, tex: u32, scale_milli: u64) -> (r: i64)
    requires
        screen <= 1_000_000,
        tex <= 1_000_000,
        scale_milli <= 1_000_000_000,
    ensures
        r as int == spec_centered_offset_milli(screen, tex, scale_milli as int),
{
    proof {
        assert(0 <= (tex as int) * (scale_milli as int) <= 1_000_000_000_000_000) by (
        nonlinear_arith)
            requires
                0 <= tex as int <= 1_000_000,
                0 <= scale_milli as int <= 1_000_000_000,
        ;
    }
    let scaled: u64 = tex as u64 * scale_milli;
    let full: u64 = 1000 * screen as u64;
    if full >= scaled {
        ((full - scaled) / 2) as i64
    } else {
        -(((scaled - full) / 2) as i64)
    }
}

} // verus!
