//! Tests of the frame buffer slot and of the image/texture resource
//! bridge.

use photo_kiosk::Backing;
use photo_kiosk::DisplayTexture;
use photo_kiosk::Frame;
use photo_kiosk::Image;
use photo_kiosk::KioskError;
use photo_kiosk::PixelFormat;
use photo_kiosk::ReleaseAction;
use photo_kiosk::WebcamFrame;

fn rgb_frame(width: u32, height: u32, byte: u8) -> Frame {
    let pixels = vec![byte; (3 * width * height) as usize];
    Frame::new(width, height, PixelFormat::PIXELFORMAT_UNCOMPRESSED_R8G8B8, pixels).unwrap()
}

#[test]
fn snapshot_returns_the_most_recent_publish() {
    let mut slot = WebcamFrame::new(Frame::empty());
    for byte in 0u8..25 {
        let frame = rgb_frame(3, 2, byte);
        slot.publish(frame, 33);
        let (seen, _) = slot.snapshot();
        assert_eq!(seen.width, 3);
        assert_eq!(seen.height, 2);
        assert_eq!(seen.pixels, vec![byte; 18]);
    }
}

#[test]
fn ten_publishes_at_a_tenth_of_a_second_average_to_ten() {
    let mut slot = WebcamFrame::new(Frame::empty());
    for _ in 0..10 {
        slot.publish(rgb_frame(1, 1, 0), 100);
    }
    let (_, rate) = slot.snapshot();
    assert_eq!(rate, 10);
}

#[test]
fn rate_is_zero_while_the_mean_duration_is_zero() {
    let slot = WebcamFrame::new(Frame::empty());
    assert_eq!(slot.avg_fps(), 0);
}

#[test]
fn early_rate_still_counts_the_initial_zeros() {
    let mut slot = WebcamFrame::new(Frame::empty());
    // Two publishes of 100 ms each: the other eight ring entries are
    // still the initial zeros, so the mean is 20 ms and the rate 50.
    slot.publish(rgb_frame(1, 1, 0), 100);
    slot.publish(rgb_frame(1, 1, 0), 100);
    assert_eq!(slot.avg_fps(), 50);
}

#[test]
fn rate_rounds_to_nearest() {
    let mut slot = WebcamFrame::new(Frame::empty());
    // A total of 800 ms over the ring: 10000 / 800 = 12.5, rounded 13.
    slot.publish(rgb_frame(1, 1, 0), 800);
    assert_eq!(slot.avg_fps(), 13);
    // Nine more pushes of 800 ms: total 8000 ms, 10000 / 8000 rounds to 1.
    for _ in 0..9 {
        slot.publish(rgb_frame(1, 1, 0), 800);
    }
    assert_eq!(slot.avg_fps(), 1);
}

#[test]
fn update_keeps_dimensions_while_contents_change() {
    let frame_a = rgb_frame(2, 2, 7);
    let mut texture = DisplayTexture::from_frame(&frame_a, 5);
    assert_eq!((texture.width, texture.height), (2, 2));
    let frame_b = rgb_frame(2, 2, 200);
    let updated = texture.update(&frame_b);
    assert!(updated.is_ok());
    assert_eq!((texture.width, texture.height), (2, 2));
    assert_eq!(texture.id, 5);
}

#[test]
fn update_rejects_mismatched_dimensions() {
    let frame_a = rgb_frame(2, 2, 7);
    let mut texture = DisplayTexture::from_frame(&frame_a, 5);
    let wrong = rgb_frame(3, 2, 7);
    let rejected = texture.update(&wrong);
    assert_eq!(rejected, Err(KioskError::DimensionMismatch));
    assert_eq!((texture.width, texture.height), (2, 2));
}

#[test]
fn update_with_an_empty_frame_changes_nothing() {
    let frame_a = rgb_frame(2, 2, 7);
    let mut texture = DisplayTexture::from_frame(&frame_a, 5);
    let empty = Frame::empty();
    assert!(texture.update(&empty).is_ok());
    assert_eq!((texture.width, texture.height), (2, 2));
}

#[test]
fn release_consumes_the_texture() {
    let frame = rgb_frame(2, 2, 7);
    let texture = DisplayTexture::from_frame(&frame, 9);
    let id = texture.release();
    assert_eq!(id, 9);
    // `texture` is consumed above: a second `texture.release()` call
    // does not compile, which is the point of the ownership design.
}

#[test]
fn owned_image_release_frees_nothing_external() {
    let image = Image::from_frame(rgb_frame(2, 1, 3));
    assert!(matches!(image.backing, Backing::Owned { .. }));
    let action = image.release();
    assert!(matches!(action, ReleaseAction::Dropped));
}

#[test]
fn borrowed_image_release_names_exactly_its_owner() {
    let image = Image::borrowed(10, 20, PixelFormat::PIXELFORMAT_UNCOMPRESSED_R8G8B8, 314);
    assert_eq!((image.width, image.height), (10, 20));
    let action = image.release();
    match action {
        ReleaseAction::FreeExternal { handle } => assert_eq!(handle, 314),
        ReleaseAction::Dropped => panic!("a borrowed backing must be torn down by its owner"),
    }
}

#[test]
fn texture_from_owned_image_keeps_dimensions() {
    let image = Image::from_frame(rgb_frame(6, 4, 2));
    let texture = DisplayTexture::from_image(&image, 77);
    assert_eq!((texture.width, texture.height), (6, 4));
    assert_eq!(texture.id, 77);
}
