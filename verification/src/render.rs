//! The per-tick render logic, expressed as plain draw commands.
//!
//! The control loop builds each frame's visual as a list of
//! `DrawCommand` values on a `Canvas`; the display backend then executes
//! the list. The canvas enforces the backend's draw-call bracket: every
//! command is recorded between `begin_frame` and `end_frame`.

use vstd::prelude::*;

use crate::color::Color;
use crate::kiosk::State;
use crate::kiosk::elapsed_ms;
use crate::layout::SHOW_DEBUG_IMAGE;
use crate::layout::compute_scale_milli;
use crate::layout::centered_offset_milli;
use crate::layout::option_set;
use crate::layout::spec_centered_offset_milli;
use crate::layout::spec_scale_milli;
use crate::texture::DisplayTexture;

verus! {

/// One draw call for the display backend. Positions, radii and scales
/// suffixed `_milli` are in thousandths of a pixel.
#[derive(Clone, Copy, Debug, PartialEq, Eq, Structural)]
pub enum DrawCommand {
    /// Fill the whole frame with one color.
    ClearBackground { color: Color },
    /// Draw the texture named by `id`, unscaled, its top-left corner at
    /// the pixel position `x`, `y`.
    DrawTexture { id: u32, x: i32, y: i32, tint: Color },
    /// Draw the texture named by `id`, rotated and scaled, its top-left
    /// corner at the given position.
    DrawTextureScaled {
        id: u32,
        x_milli: i64,
        y_milli: i64,
        rotation_milli: i64,
        scale_milli: u64,
        tint: Color,
    },
    /// Draw a ring centered at the given position.
    DrawRing {
        cx_milli: i64,
        cy_milli: i64,
        inner_milli: u64,
        outer_milli: u64,
        start_deg: i32,
        end_deg: i32,
        segments: u32,
        color: Color,
    },
    /// Draw the countdown's whole-second count as text at a pixel
    /// position; the backend renders the decimal digits.
    DrawCountdownSeconds { seconds: u64, x: i32, y: i32, font_size: u32, color: Color },
}

/// The commands of one frame under construction, and whether the
/// backend's draw bracket is currently open.
pub struct Canvas {
    pub in_frame: bool,
    pub cmds: Vec<DrawCommand>,
}

impl Canvas {
    /// A canvas with no frame in progress.
    pub fn new() -> (c: Canvas)
        ensures
            !c.in_frame,
            c.cmds@ == Seq::<DrawCommand>::empty(),
    {
        Canvas { in_frame: false, cmds: Vec::new() }
    }

    /// Opens the draw bracket for a new frame, starting from an empty
    /// command list.
    pub fn begin_frame(&mut self)
        requires
            !old(self).in_frame,
        ensures
            final(self).in_frame,
            final(self).cmds@ == Seq::<DrawCommand>::empty(),
    {
        self.in_frame = true;
        self.cmds = Vec::new();
    }

    /// Closes the draw bracket; the recorded commands stay for the
    /// backend to execute.
    pub fn end_frame(&mut self)
        requires
            old(self).in_frame,
        ensures
            !final(self).in_frame,
            final(self).cmds@ == old(self).cmds@,
    {
        self.in_frame = false;
    }

    /// Records a whole-frame clear.
    pub fn clear_background(&mut self, color: Color)
        requires
            old(self).in_frame,
        ensures
            final(self).in_frame,
            final(self).cmds@ == old(self).cmds@.push(DrawCommand::ClearBackground { color }),
    {
        self.cmds.push(DrawCommand::ClearBackground { color });
    }

    /// Records an unscaled draw of a texture at a pixel position.
    pub fn draw_texture(&mut self, texture: &DisplayTexture, x: i32, y: i32, tint: Color)
        requires
            old(self).in_frame,
        ensures
            final(self).in_frame,
            final(self).cmds@ == old(self).cmds@.push(
                DrawCommand::DrawTexture { id: texture.id, x, y, tint },
            ),
    {
        self.cmds.push(DrawCommand::DrawTexture { id: texture.id, x, y, tint });
    }

    /// Records a rotated, scaled draw of a texture.
    pub fn draw_texture_scaled(
        &mut self,
        texture: &DisplayTexture,
        x_milli: i64,
        y_milli: i64,
        rotation_milli: i64,
        scale_milli: u64,
        tint: Color,
    )
        requires
            old(self).in_frame,
        ensures
            final(self).in_frame,
            final(self).cmds@ == old(self).cmds@.push(
                DrawCommand::DrawTextureScaled {
                    id: texture.id,
                    x_milli,
                    y_milli,
                    rotation_milli,
                    scale_milli,
                    tint,
                },
            ),
    {
        self.cmds.push(
            DrawCommand::DrawTextureScaled {
                id: texture.id,
                x_milli,
                y_milli,
                rotation_milli,
                scale_milli,
                tint,
            },
        );
    }

    /// Records a ring draw.
    pub fn draw_ring(
        &mut self,
        cx_milli: i64,
        cy_milli: i64,
        inner_milli: u64,
        outer_milli: u64,
        start_deg: i32,
        end_deg: i32,
        segments: u32,
        color: Color,
    )
        requires
            old(self).in_frame,
        ensures
            final(self).in_frame,
            final(self).cmds@ == old(self).cmds@.push(
                DrawCommand::DrawRing {
                    cx_milli,
                    cy_milli,
                    inner_milli,
                    outer_milli,
                    start_deg,
                    end_deg,
                    segments,
                    color,
                },
            ),
    {
        self.cmds.push(
            DrawCommand::DrawRing {
                cx_milli,
                cy_milli,
                inner_milli,
                outer_milli,
                start_deg,
                end_deg,
                segments,
                color,
            },
        );
    }

    /// Records the countdown's second count as a text draw.
    pub fn draw_countdown_seconds(
        &mut self,
        seconds: u64,
        x: i32,
        y: i32,
        font_size: u32,
        color: Color,
    )
        requires
            old(self).in_frame,
        ensures
            final(self).in_frame,
            final(self).cmds@ == old(self).cmds@.push(
                DrawCommand::DrawCountdownSeconds { seconds, x, y, font_size, color },
            ),
    {
        self.cmds.push(DrawCommand::DrawCountdownSeconds { seconds, x, y, font_size, color });
    }

    /// The recorded commands, for the backend to execute.
    pub fn commands(&self) -> (r: &Vec<DrawCommand>)
        ensures
            r@ == self.cmds@,
    {
        &self.cmds
    }
}

/// Runs one frame's drawing: opens the draw bracket on the canvas,
/// applies the given drawing function, then closes the bracket.
pub fn draw<F: FnOnce(Canvas) -> Canvas>(canvas: Canvas, f: F) -> (r: Canvas)
    requires
        !canvas.in_frame,
        forall|c: Canvas|
            c.in_frame && c.cmds@ == Seq::<DrawCommand>::empty() ==> call_requires(f, (c,)),
        forall|c: Canvas, out: Canvas| #[trigger] call_ensures(f, (c,), out) ==> out.in_frame,
    ensures
        !r.in_frame,
        exists|begun: Canvas, mid: Canvas|
            {
                &&& begun.in_frame
                &&& begun.cmds@ == Seq::<DrawCommand>::empty()
                &&& #[trigger] call_ensures(f, (begun,), mid)
                &&& r.cmds@ == mid.cmds@
            },
{
    let mut c = canvas;
    c.begin_frame();
    let ghost begun = c;
    let c2 = f(c);
    let ghost mid = c2;
    let mut c2 = c2;
    c2.end_frame();
    proof {
        assert(begun.in_frame && begun.cmds@ == Seq::<DrawCommand>::empty());
        assert(call_ensures(f, (begun,), mid));
        assert(c2.cmds@ == mid.cmds@);
    }
    c2
}

/// Where the preview and the countdown's visual elements go on screen.
pub struct SceneLayout {
    /// Top-left corner of the scaled preview, in thousandths of a pixel.
    pub x_milli: i64,
    pub y_milli: i64,
    /// The preview's fill-or-fit scale, in thousandths.
    pub scale_milli: u64,
    /// Center of the idle ring, in thousandths of a pixel.
    pub ring_cx_milli: i64,
    pub ring_cy_milli: i64,
    /// Top-left corner of the countdown digits, in pixels.
    pub text_x: i32,
    pub text_y: i32,
}

/// Computes the frame's layout: the preview scaled by fill-or-fit and
/// centered, the idle ring centered near the bottom edge, the countdown
/// digits just left and up of the screen center.
pub fn compute_layout(screen_w: u32, screen_h: u32, tex_w: u32, tex_h: u32, fill: bool) -> (lay:
    SceneLayout)
    requires
        0 < tex_w <= 1_000_000,
        0 < tex_h <= 1_000_000,
        screen_w <= 1_000_000,
        screen_h <= 1_000_000,
    ensures
        lay.scale_milli as int == spec_scale_milli(screen_w, screen_h, tex_w, tex_h, fill),
        lay.x_milli as int == spec_centered_offset_milli(screen_w, tex_w, lay.scale_milli as int),
        lay.y_milli as int == spec_centered_offset_milli(screen_h, tex_h, lay.scale_milli as int),
        lay.ring_cx_milli == 500 * screen_w as i64,
        lay.ring_cy_milli == 1000 * screen_h as i64 - 80_000,
        lay.text_x as int == screen_w as int / 2 - 50,
        lay.text_y as int == screen_h as int / 2 - 50,
{
    let scale_milli = compute_scale_milli(screen_w, screen_h, tex_w, tex_h, fill);
    let x_milli = centered_offset_milli(screen_w, tex_w, scale_milli);
    let y_milli = centered_offset_milli(screen_h, tex_h, scale_milli);
    SceneLayout {
        x_milli,
        y_milli,
        scale_milli,
        ring_cx_milli: 500 * screen_w as i64,
        ring_cy_milli: 1000 * screen_h as i64 - 80_000,
        text_x: (screen_w / 2) as i32 - 50,
        text_y: (screen_h / 2) as i32 - 50,
    }
}

/// The commands one tick draws for a state: always a white clear first;
/// in `Idle` the scaled preview and the idle ring; in `Countdown` the
/// scaled preview and the elapsed whole seconds; in `Presenting` the
/// still, unscaled at the origin; nothing else in the transient states
/// (`Capturing` issues its command through the state machine, `Waiting`
/// draws nothing new, `Startup` is left on the first tick before any
/// drawing). With the debug-image override on, the shown texture is
/// additionally drawn unscaled at the origin.
pub open spec fn spec_scene(
    s: State,
    now: u64,
    lay: SceneLayout,
    shown: DisplayTexture,
    options: u32,
) -> Seq<DrawCommand> {
    let white = Color { r: 255, g: 255, b: 255, a: 255 };
    let red = Color { r: 230, g: 41, b: 55, a: 255 };
    let base = seq![DrawCommand::ClearBackground { color: white }];
    let scene = match s {
        State::Startup => base,
        State::Idle => base + seq![
            DrawCommand::DrawTextureScaled {
                id: shown.id,
                x_milli: lay.x_milli,
                y_milli: lay.y_milli,
                rotation_milli: 0,
                scale_milli: lay.scale_milli,
                tint: white,
            },
            DrawCommand::DrawRing {
                cx_milli: lay.ring_cx_milli,
                cy_milli: lay.ring_cy_milli,
                inner_milli: 30_000,
                outer_milli: 40_000,
                start_deg: 0,
                end_deg: 360,
                segments: 360,
                color: white,
            },
        ],
        State::Countdown { started_at } => base + seq![
            DrawCommand::DrawTextureScaled {
                id: shown.id,
                x_milli: lay.x_milli,
                y_milli: lay.y_milli,
                rotation_milli: 0,
                scale_milli: lay.scale_milli,
                tint: white,
            },
            DrawCommand::DrawCountdownSeconds {
                seconds: (elapsed_ms(started_at, now) / 1000) as u64,
                x: lay.text_x,
                y: lay.text_y,
                font_size: 100,
                color: red,
            },
        ],
        State::Capturing => base,
        State::Waiting => base,
        State::Presenting { texture, started_at } => base + seq![
            DrawCommand::DrawTexture { id: texture.id, x: 0, y: 0, tint: white },
        ],
    };
    if options & SHOW_DEBUG_IMAGE != 0 {
        scene + seq![DrawCommand::DrawTexture { id: shown.id, x: 0, y: 0, tint: white }]
    } else {
        scene
    }
}

/// Records one tick's visual for the current state onto the canvas:
/// exactly the commands `spec_scene` lists, appended in order.
pub fn render_scene(
    canvas: &mut Canvas,
    state: &State,
    now: u64,
    lay: &SceneLayout,
    shown: &DisplayTexture,
    options: u32,
)
    requires
        old(canvas).in_frame,
    ensures
        final(canvas).in_frame,
        final(canvas).cmds@ == old(canvas).cmds@ + spec_scene(*state, now, *lay, *shown, options),
{
    let white = Color::white();
    let red = Color::red();
    canvas.clear_background(white);
    match state {
        State::Startup => {},
        State::Idle => {
            canvas.draw_texture_scaled(shown, lay.x_milli, lay.y_milli, 0, lay.scale_milli, white);
            canvas.draw_ring(
                lay.ring_cx_milli,
                lay.ring_cy_milli,
                30_000,
                40_000,
                0,
                360,
                360,
                white,
            );
        },
        State::Countdown { started_at } => {
            canvas.draw_texture_scaled(shown, lay.x_milli, lay.y_milli, 0, lay.scale_milli, white);
            let seconds: u64 = if now >= *started_at {
                (now - *started_at) / 1000
            } else {
                0
            };
            canvas.draw_countdown_seconds(seconds, lay.text_x, lay.text_y, 100, red);
        },
        State::Capturing => {},
        State::Waiting => {},
        State::Presenting { texture, started_at: _ } => {
            canvas.draw_texture(texture, 0, 0, white);
        },
    }
    if option_set(options, SHOW_DEBUG_IMAGE) {
        canvas.draw_texture(shown, 0, 0, white);
    }
    proof {
        assert(canvas.cmds@ =~= old(canvas).cmds@ + spec_scene(*state, now, *lay, *shown, options));
    }
}

} // verus!
