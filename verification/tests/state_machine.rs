//! Tests of the kiosk state machine's transition table.

use photo_kiosk::Commands;
use photo_kiosk::DisplayTexture;
use photo_kiosk::Frame;
use photo_kiosk::Image;
use photo_kiosk::KioskState;
use photo_kiosk::PixelFormat;
use photo_kiosk::State;
use photo_kiosk::WorkerDirective;
use photo_kiosk::kiosk::worker_directive;

fn rgb_frame(width: u32, height: u32, byte: u8) -> Frame {
    let pixels = vec![byte; (3 * width * height) as usize];
    Frame::new(width, height, PixelFormat::PIXELFORMAT_UNCOMPRESSED_R8G8B8, pixels).unwrap()
}

#[test]
fn startup_becomes_idle_on_first_tick() {
    let mut machine = KioskState::new();
    assert!(matches!(machine.state, State::Startup));
    let eff = machine.poll(123);
    assert!(matches!(machine.state, State::Idle));
    assert!(eff.command.is_none());
    assert!(eff.released.is_none());
}

#[test]
fn idle_never_reaches_countdown_without_trigger() {
    let mut machine = KioskState::new();
    machine.poll(0);
    assert!(matches!(machine.state, State::Idle));
    // However much time passes, ticks alone keep the machine idle.
    for now in [1u64, 10_000, 3_600_000, u64::MAX] {
        let eff = machine.poll(now);
        assert!(matches!(machine.state, State::Idle));
        assert!(eff.command.is_none());
        assert!(eff.released.is_none());
    }
}

#[test]
fn trigger_starts_countdown_at_now() {
    let mut machine = KioskState::new();
    machine.poll(0);
    let released = machine.trigger_countdown(777);
    assert!(released.is_none());
    assert!(matches!(machine.state, State::Countdown { started_at: 777 }));
}

#[test]
fn countdown_holds_through_five_seconds_then_captures() {
    let mut machine = KioskState::new();
    machine.poll(0);
    machine.trigger_countdown(1_000);
    // Queried anywhere in [t0, t0 + 5s] the state is still Countdown.
    for now in [1_000u64, 1_001, 3_500, 5_999, 6_000] {
        machine.poll(now);
        assert!(matches!(machine.state, State::Countdown { started_at: 1_000 }));
    }
    // The first tick observed after t0 + 5s captures, and the tick that
    // sees Capturing issues exactly one Capture command and waits.
    let eff = machine.poll(6_001);
    assert!(matches!(machine.state, State::Capturing));
    assert!(eff.command.is_none());
    let eff = machine.poll(6_002);
    assert!(matches!(machine.state, State::Waiting));
    assert_eq!(eff.command, Some(Commands::Capture));
    let eff = machine.poll(6_003);
    assert!(matches!(machine.state, State::Waiting));
    assert!(eff.command.is_none());
}

#[test]
fn waiting_presents_posted_result_with_its_dimensions() {
    let mut machine = KioskState::new();
    machine.poll(0);
    machine.trigger_countdown(0);
    machine.poll(5_001);
    machine.poll(5_002);
    assert!(matches!(machine.state, State::Waiting));
    // A result posted before the next tick: built from the captured
    // image, presented by the very next delivery.
    let still = rgb_frame(4, 3, 9);
    let image = Image::from_frame(still);
    let texture = DisplayTexture::from_image(&image, 42);
    let rejected = machine.deliver_result(texture, 6_000);
    assert!(rejected.is_none());
    match &machine.state {
        State::Presenting { texture, started_at } => {
            assert_eq!(*started_at, 6_000);
            assert_eq!(texture.width, 4);
            assert_eq!(texture.height, 3);
            assert_eq!(texture.id, 42);
        }
        _ => panic!("expected Presenting"),
    }
}

#[test]
fn result_outside_waiting_is_handed_back() {
    let mut machine = KioskState::new();
    machine.poll(0);
    assert!(matches!(machine.state, State::Idle));
    let frame = rgb_frame(2, 2, 1);
    let texture = DisplayTexture::from_frame(&frame, 7);
    let rejected = machine.deliver_result(texture, 50);
    let rejected = rejected.expect("an idle machine must not consume a result");
    assert_eq!(rejected.id, 7);
    assert!(matches!(machine.state, State::Idle));
}

#[test]
fn presenting_reverts_to_idle_exactly_after_five_seconds_and_releases_once() {
    let mut machine = KioskState::new();
    machine.poll(0);
    machine.trigger_countdown(0);
    machine.poll(5_001);
    machine.poll(5_002);
    let frame = rgb_frame(2, 2, 3);
    let texture = DisplayTexture::from_frame(&frame, 11);
    machine.deliver_result(texture, 10_000);
    // Up to and including t0 + 5s the still stays on show and nothing
    // is released.
    for now in [10_000u64, 12_345, 15_000] {
        let eff = machine.poll(now);
        assert!(matches!(machine.state, State::Presenting { .. }));
        assert!(eff.released.is_none());
    }
    // The first tick after t0 + 5s reverts to Idle and hands the
    // texture out for release, exactly once.
    let eff = machine.poll(15_001);
    assert!(matches!(machine.state, State::Idle));
    let released = eff.released.expect("leaving Presenting must release the texture");
    assert_eq!(released.id, 11);
    let freed_id = released.release();
    assert_eq!(freed_id, 11);
    // Later ticks have nothing left to release.
    let eff = machine.poll(20_002);
    assert!(eff.released.is_none());
    assert!(matches!(machine.state, State::Idle));
}

#[test]
fn trigger_during_presenting_hands_the_still_back() {
    let mut machine = KioskState::new();
    machine.poll(0);
    machine.trigger_countdown(0);
    machine.poll(5_001);
    machine.poll(5_002);
    let frame = rgb_frame(2, 2, 3);
    let texture = DisplayTexture::from_frame(&frame, 13);
    machine.deliver_result(texture, 6_000);
    let released = machine.trigger_countdown(7_000);
    assert_eq!(released.expect("the presented texture must come back").id, 13);
    assert!(matches!(machine.state, State::Countdown { started_at: 7_000 }));
}

#[test]
fn unreachable_worker_degrades_to_idle() {
    let mut machine = KioskState::new();
    machine.poll(0);
    machine.trigger_countdown(0);
    machine.poll(5_001);
    let eff = machine.poll(5_002);
    assert_eq!(eff.command, Some(Commands::Capture));
    assert!(matches!(machine.state, State::Waiting));
    // The send failed: instead of hanging in Waiting forever, fall back.
    machine.capture_unavailable();
    assert!(matches!(machine.state, State::Idle));
    // In other states the fallback changes nothing.
    machine.trigger_countdown(9_000);
    machine.capture_unavailable();
    assert!(matches!(machine.state, State::Countdown { started_at: 9_000 }));
}

#[test]
fn worker_directive_follows_drained_command() {
    assert_eq!(worker_directive(Some(Commands::Stop)), WorkerDirective::Exit);
    assert_eq!(worker_directive(Some(Commands::Capture)), WorkerDirective::CaptureStill);
    assert_eq!(worker_directive(None), WorkerDirective::PreviewOnly);
}
