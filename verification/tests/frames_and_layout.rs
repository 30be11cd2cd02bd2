//! Tests of frame construction, the fixed preprocessing transforms, the
//! display options and the on-screen layout.

use photo_kiosk::Canvas;
use photo_kiosk::Color;
use photo_kiosk::DrawCommand;
use photo_kiosk::Frame;
use photo_kiosk::KioskError;
use photo_kiosk::KioskState;
use photo_kiosk::PixelFormat;
use photo_kiosk::State;
use photo_kiosk::DisplayTexture;
use photo_kiosk::frame::get_new_display_frame;
use photo_kiosk::frame::get_new_record_frame;
use photo_kiosk::layout::FILL;
use photo_kiosk::layout::SHOW_DEBUG_IMAGE;
use photo_kiosk::layout::SHOW_DEBUG_INFO;
use photo_kiosk::layout::apply_key;
use photo_kiosk::layout::compute_scale_milli;
use photo_kiosk::layout::centered_offset_milli;
use photo_kiosk::layout::option_set;
use photo_kiosk::layout::toggle_option;
use photo_kiosk::keys::KeyboardKeys;
use photo_kiosk::render::compute_layout;
use photo_kiosk::render::render_scene;

#[test]
fn frame_new_accepts_only_matching_rgb_buffers() {
    let ok = Frame::new(2, 1, PixelFormat::PIXELFORMAT_UNCOMPRESSED_R8G8B8, vec![0; 6]);
    assert!(ok.is_ok());
    let short = Frame::new(2, 1, PixelFormat::PIXELFORMAT_UNCOMPRESSED_R8G8B8, vec![0; 5]);
    assert_eq!(short.unwrap_err(), KioskError::UnsupportedPixelFormat);
    let gray = Frame::new(2, 1, PixelFormat::PIXELFORMAT_UNCOMPRESSED_GRAYSCALE, vec![0; 6]);
    assert_eq!(gray.unwrap_err(), KioskError::UnsupportedPixelFormat);
}

#[test]
fn mirror_reverses_each_row() {
    // One row of three pixels A B C, each pixel three bytes.
    let pixels = vec![
        1, 2, 3, // A
        4, 5, 6, // B
        7, 8, 9, // C
    ];
    let frame = Frame::new(3, 1, PixelFormat::PIXELFORMAT_UNCOMPRESSED_R8G8B8, pixels).unwrap();
    let mirrored = frame.mirror_horizontal();
    assert_eq!(mirrored.pixels, vec![7, 8, 9, 4, 5, 6, 1, 2, 3]);
    // Two rows stay independent.
    let pixels = vec![
        1, 1, 1, 2, 2, 2, // row 0: A B
        3, 3, 3, 4, 4, 4, // row 1: C D
    ];
    let frame = Frame::new(2, 2, PixelFormat::PIXELFORMAT_UNCOMPRESSED_R8G8B8, pixels).unwrap();
    let mirrored = frame.mirror_horizontal();
    assert_eq!(mirrored.pixels, vec![2, 2, 2, 1, 1, 1, 4, 4, 4, 3, 3, 3]);
}

#[test]
fn channel_reorder_swaps_blue_and_red() {
    let pixels = vec![10, 20, 30, 40, 50, 60];
    let frame = Frame::new(2, 1, PixelFormat::PIXELFORMAT_UNCOMPRESSED_R8G8B8, pixels).unwrap();
    let reordered = frame.bgr_to_rgb();
    assert_eq!(reordered.pixels, vec![30, 20, 10, 60, 50, 40]);
}

#[test]
fn display_frame_is_mirrored_then_reordered() {
    // One row, two pixels, blue-green-red byte order from the camera.
    let pixels = vec![
        1, 2, 3, // left pixel
        4, 5, 6, // right pixel
    ];
    let frame = Frame::new(2, 1, PixelFormat::PIXELFORMAT_UNCOMPRESSED_R8G8B8, pixels).unwrap();
    let ready = get_new_display_frame(Some(frame)).unwrap().unwrap();
    // Mirrored: right pixel first; reordered: red-green-blue per pixel.
    assert_eq!(ready.pixels, vec![6, 5, 4, 3, 2, 1]);
    assert_eq!((ready.width, ready.height), (2, 1));
}

#[test]
fn display_frame_passes_an_empty_read_through() {
    assert!(matches!(get_new_display_frame(None), Ok(None)));
    assert!(matches!(get_new_record_frame(None), Ok(None)));
}

#[test]
fn display_frame_rejects_an_ill_formed_frame() {
    let bad = Frame {
        width: 2,
        height: 2,
        format: PixelFormat::PIXELFORMAT_UNCOMPRESSED_R8G8B8,
        pixels: vec![0; 5],
    };
    assert!(matches!(
        get_new_display_frame(Some(bad)),
        Err(KioskError::UnsupportedPixelFormat)
    ));
}

#[test]
fn record_frame_is_mirrored_only() {
    let pixels = vec![1, 2, 3, 4, 5, 6];
    let frame = Frame::new(2, 1, PixelFormat::PIXELFORMAT_UNCOMPRESSED_R8G8B8, pixels).unwrap();
    let ready = get_new_record_frame(Some(frame)).unwrap().unwrap();
    assert_eq!(ready.pixels, vec![4, 5, 6, 1, 2, 3]);
}

#[test]
fn option_toggles_flip_exactly_one_flag() {
    let mut options = FILL;
    options = toggle_option(options, SHOW_DEBUG_INFO);
    assert!(option_set(options, FILL));
    assert!(option_set(options, SHOW_DEBUG_INFO));
    options = toggle_option(options, FILL);
    assert!(!option_set(options, FILL));
    assert!(option_set(options, SHOW_DEBUG_INFO));
}

#[test]
fn keys_route_to_their_toggles_and_the_trigger() {
    let options = 0;
    assert_eq!(apply_key(options, &KeyboardKeys::KEY_F), (FILL, false));
    assert_eq!(apply_key(options, &KeyboardKeys::KEY_D), (SHOW_DEBUG_INFO, false));
    assert_eq!(apply_key(options, &KeyboardKeys::KEY_I), (SHOW_DEBUG_IMAGE, false));
    assert_eq!(apply_key(options, &KeyboardKeys::KEY_C), (0, true));
    assert_eq!(apply_key(options, &KeyboardKeys::KEY_Q), (0, false));
}

#[test]
fn fill_takes_the_larger_ratio_and_fit_the_smaller() {
    // Screen 1024 x 600, texture 1024 x 576: ratios 1.0 and 1.041...
    let fill = compute_scale_milli(1024, 600, 1024, 576, true);
    assert_eq!(fill, 1041); // 600 * 1000 / 576
    let fit = compute_scale_milli(1024, 600, 1024, 576, false);
    assert_eq!(fit, 1000);
}

#[test]
fn centered_offset_splits_the_leftover_space() {
    // Texture 1024 wide at scale 1.0 on a 1280-wide screen: 128 px each side.
    assert_eq!(centered_offset_milli(1280, 1024, 1000), 128_000);
    // Overflowing the screen gives a negative offset.
    assert_eq!(centered_offset_milli(1024, 1024, 1041), -20_992);
}

#[test]
fn layout_places_ring_and_countdown_text() {
    let lay = compute_layout(1024, 600, 1024, 576, true);
    assert_eq!(lay.scale_milli, 1041);
    assert_eq!(lay.ring_cx_milli, 512_000);
    assert_eq!(lay.ring_cy_milli, 520_000);
    assert_eq!((lay.text_x, lay.text_y), (462, 250));
}

#[test]
fn color_unpacks_from_rgba_word() {
    let c = Color::from(0x11223344);
    assert_eq!((c.r, c.g, c.b, c.a), (0x11, 0x22, 0x33, 0x44));
    let white = Color::from(0xffffffff);
    assert_eq!((white.r, white.g, white.b, white.a), (255, 255, 255, 255));
}

#[test]
fn idle_scene_draws_preview_and_ring() {
    let frame = Frame::new(
        2,
        1,
        PixelFormat::PIXELFORMAT_UNCOMPRESSED_R8G8B8,
        vec![0; 6],
    )
    .unwrap();
    let texture = DisplayTexture::from_frame(&frame, 3);
    let lay = compute_layout(1024, 600, 2, 1, true);
    let mut machine = KioskState::new();
    machine.poll(0);
    assert!(matches!(machine.state, State::Idle));
    let mut canvas = Canvas::new();
    canvas.begin_frame();
    render_scene(&mut canvas, &machine.state, 0, &lay, &texture, 0);
    canvas.end_frame();
    let cmds = canvas.commands();
    assert_eq!(cmds.len(), 3);
    assert!(matches!(cmds[0], DrawCommand::ClearBackground { .. }));
    assert!(matches!(cmds[1], DrawCommand::DrawTextureScaled { id: 3, .. }));
    assert!(matches!(cmds[2], DrawCommand::DrawRing { .. }));
}

#[test]
fn countdown_scene_shows_elapsed_whole_seconds() {
    let frame = Frame::new(
        2,
        1,
        PixelFormat::PIXELFORMAT_UNCOMPRESSED_R8G8B8,
        vec![0; 6],
    )
    .unwrap();
    let texture = DisplayTexture::from_frame(&frame, 3);
    let lay = compute_layout(1024, 600, 2, 1, false);
    let mut machine = KioskState::new();
    machine.poll(0);
    machine.trigger_countdown(1_000);
    let mut canvas = Canvas::new();
    canvas.begin_frame();
    render_scene(&mut canvas, &machine.state, 4_500, &lay, &texture, 0);
    canvas.end_frame();
    let cmds = canvas.commands();
    assert_eq!(cmds.len(), 3);
    match cmds[2] {
        DrawCommand::DrawCountdownSeconds { seconds, font_size, .. } => {
            assert_eq!(seconds, 3);
            assert_eq!(font_size, 100);
        }
        _ => panic!("expected the countdown's second count"),
    }
}

#[test]
fn debug_image_override_adds_an_unscaled_draw() {
    let frame = Frame::new(
        2,
        1,
        PixelFormat::PIXELFORMAT_UNCOMPRESSED_R8G8B8,
        vec![0; 6],
    )
    .unwrap();
    let texture = DisplayTexture::from_frame(&frame, 8);
    let lay = compute_layout(1024, 600, 2, 1, false);
    let mut machine = KioskState::new();
    machine.poll(0);
    let mut canvas = Canvas::new();
    canvas.begin_frame();
    render_scene(&mut canvas, &machine.state, 0, &lay, &texture, SHOW_DEBUG_IMAGE);
    canvas.end_frame();
    let cmds = canvas.commands();
    assert_eq!(cmds.len(), 4);
    assert!(matches!(cmds[3], DrawCommand::DrawTexture { id: 8, x: 0, y: 0, .. }));
}

#[test]
fn draw_brackets_the_frame() {
    let canvas = Canvas::new();
    let canvas = photo_kiosk::render::draw(canvas, |mut inside: Canvas| {
        inside.clear_background(Color::white());
        inside
    });
    assert!(!canvas.in_frame);
    assert_eq!(canvas.commands().len(), 1);
}

#[test]
fn snapshot_frame_is_an_exact_copy() {
    let mut slot = photo_kiosk::WebcamFrame::new(Frame::empty());
    let pixels = vec![9, 8, 7, 6, 5, 4];
    let frame = Frame::new(2, 1, PixelFormat::PIXELFORMAT_UNCOMPRESSED_R8G8B8, pixels).unwrap();
    slot.publish(frame, 16);
    let (copy, _) = slot.snapshot();
    assert_eq!(copy.pixels, vec![9, 8, 7, 6, 5, 4]);
    assert!(matches!(copy.format, PixelFormat::PIXELFORMAT_UNCOMPRESSED_R8G8B8));
}
