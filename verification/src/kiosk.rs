//! The kiosk state machine: the lifecycle from idle preview through
//! countdown, capture and presentation, advanced once per control-loop
//! tick from the elapsed wall-clock time and the results arriving from
//! the capture worker. It never blocks; time and results are handed in
//! as plain values. `Presenting` exclusively owns the still's texture
//! until the state transitions away, at which point the texture is
//! handed out to be released exactly once.

use vstd::prelude::*;

use crate::image::Image;
use crate::texture::DisplayTexture;

verus! {

/// How long the countdown runs before a capture, in milliseconds.
pub const COUNTDOWN_MS: u64 = 5000;

/// How long a captured still stays on show, in milliseconds.
pub const PRESENT_MS: u64 = 5000;

/// Commands the control loop sends to the capture worker.
#[derive(Clone, Copy, Debug, PartialEq, Eq, Structural)]
pub enum Commands {
    /// Shut the worker down.
    Stop,
    /// Take one high-resolution still and post it on the result channel.
    Capture,
}

/// The kiosk's lifecycle states. Exactly one is active at a time.
pub enum State {
    /// Initial state, left on the first tick.
    Startup,
    /// Live preview; leaves only on the external start-capture trigger.
    Idle,
    /// Counting down since `started_at` (milliseconds of wall-clock time).
    Countdown { started_at: u64 },
    /// Transient: the tick seeing this state issues one capture command.
    Capturing,
    /// A capture was requested; awaiting the worker's result.
    Waiting,
    /// Showing the captured still; owns its texture until leaving.
    Presenting { texture: DisplayTexture, started_at: u64 },
}

impl State {
    /// The initial state.
    pub fn new() -> (s: State)
        ensures
            s == State::Startup,
    {
        State::Startup
    }
}

/// Milliseconds elapsed from `start` to `now`, zero if time ran backwards.
pub open spec fn elapsed_ms(start: u64, now: u64) -> int {
    if now >= start {
        now - start
    } else {
        0
    }
}

/// The state one tick at time `now` leads to.
pub open spec fn spec_poll_state(s: State, now: u64) -> State {
    match s {
        State::Startup => State::Idle,
        State::Idle => State::Idle,
        State::Countdown { started_at } => if elapsed_ms(started_at, now) > COUNTDOWN_MS {
            State::Capturing
        } else {
            s
        },
        State::Capturing => State::Waiting,
        State::Waiting => State::Waiting,
        State::Presenting { texture, started_at } => if elapsed_ms(started_at, now) > PRESENT_MS {
            State::Idle
        } else {
            s
        },
    }
}

/// The command a tick issues: exactly one `Capture` per entry into
/// `Capturing`, and nothing otherwise.
pub open spec fn spec_poll_command(s: State) -> Option<Commands> {
    if s is Capturing {
        Some(Commands::Capture)
    } else {
        None
    }
}

/// The texture a tick hands out for release: the presented still's,
/// exactly when the tick leaves `Presenting`.
pub open spec fn spec_poll_released(s: State, now: u64) -> Option<DisplayTexture> {
    match s {
        State::Presenting { texture, started_at } => if elapsed_ms(started_at, now) > PRESENT_MS {
            Some(texture)
        } else {
            None
        },
        _ => None,
    }
}

/// The texture a state owns, if any.
pub open spec fn spec_presented_texture(s: State) -> Option<DisplayTexture> {
    match s {
        State::Presenting { texture, started_at } => Some(texture),
        _ => None,
    }
}

/// What one `poll` produces besides the next state: at most one command
/// for the capture worker, and ownership of the texture the machine just
/// stopped presenting, to be released exactly once by the caller.
pub struct PollEffect {
    pub command: Option<Commands>,
    pub released: Option<DisplayTexture>,
}

/// The kiosk's current lifecycle state.
pub struct KioskState {
    pub state: State,
}

impl KioskState {
    /// A fresh machine in `Startup`.
    pub fn new() -> (r: KioskState)
        ensures
            r.state == State::Startup,
    {
        KioskState { state: State::new() }
    }

    /// One control-loop tick: advances the state from the elapsed
    /// wall-clock time alone and reports the side effects the caller
    /// must carry out. Never blocks.
    pub fn poll(&mut self, now: u64) -> (eff: PollEffect)
        ensures
            final(self).state == spec_poll_state(old(self).state, now),
            eff.command == spec_poll_command(old(self).state),
            eff.released == spec_poll_released(old(self).state, now),
    {
        let mut st = State::Idle;
        core::mem::swap(&mut self.state, &mut st);
        match st {
            State::Startup => PollEffect { command: None, released: None },
            State::Idle => PollEffect { command: None, released: None },
            State::Countdown { started_at } => {
                if now >= started_at && now - started_at > COUNTDOWN_MS {
                    self.state = State::Capturing;
                } else {
                    self.state = State::Countdown { started_at };
                }
                PollEffect { command: None, released: None }
            },
            State::Capturing => {
                self.state = State::Waiting;
                PollEffect { command: Some(Commands::Capture), released: None }
            },
            State::Waiting => {
                self.state = State::Waiting;
                PollEffect { command: None, released: None }
            },
            State::Presenting { texture, started_at } => {
                if now >= started_at && now - started_at > PRESENT_MS {
                    PollEffect { command: None, released: Some(texture) }
                } else {
                    self.state = State::Presenting { texture, started_at };
                    PollEffect { command: None, released: None }
                }
            },
        }
    }

    /// The external start-capture trigger: begins a countdown at `now`
    /// from whatever state the kiosk is in. If a still was on show, its
    /// texture is handed back for release.
    pub fn trigger_countdown(&mut self, now: u64) -> (released: Option<DisplayTexture>)
        ensures
            final(self).state == (State::Countdown { started_at: now }),
            released == spec_presented_texture(old(self).state),
    {
        let mut st = State::Countdown { started_at: now };
        core::mem::swap(&mut self.state, &mut st);
        match st {
            State::Presenting { texture, started_at: _ } => Some(texture),
            _ => None,
        }
    }

    /// Consumes a result from the capture worker. In `Waiting` the still
    /// goes on show at `now`; in any other state the result is not
    /// consumed and its texture is handed back to the caller.
    pub fn deliver_result(&mut self, texture: DisplayTexture, now: u64) -> (rejected: Option<
        DisplayTexture,
    >)
        ensures
            old(self).state is Waiting ==> final(self).state == (State::Presenting {
                texture,
                started_at: now,
            }) && rejected is None,
            !(old(self).state is Waiting) ==> final(self).state == old(self).state && rejected
                == Some(texture),
    {
        let waiting = match &self.state {
            State::Waiting => true,
            _ => false,
        };
        if waiting {
            self.state = State::Presenting { texture, started_at: now };
            None
        } else {
            Some(texture)
        }
    }

    /// The capture worker could not be reached while a capture was
    /// underway: fall back to `Idle` rather than hang in `Waiting`
    /// forever. In every other state this changes nothing.
    pub fn capture_unavailable(&mut self)
        ensures
            (old(self).state is Capturing || old(self).state is Waiting) ==> final(self).state
                == State::Idle,
            !(old(self).state is Capturing || old(self).state is Waiting) ==> final(self).state
                == old(self).state,
    {
        let stuck = match &self.state {
            State::Capturing => true,
            State::Waiting => true,
            _ => false,
        };
        if stuck {
            self.state = State::Idle;
        }
    }
}

/// What the capture worker does with the command it drained this
/// iteration, if any.
#[derive(Clone, Copy, Debug, PartialEq, Eq, Structural)]
pub enum WorkerDirective {
    /// `Stop` arrived: leave the loop.
    Exit,
    /// `Capture` arrived: take one high-resolution still, post it on the
    /// result channel, then run the preview read as usual.
    CaptureStill,
    /// No command pending: run only the preview read.
    PreviewOnly,
}

/// The capture worker's decision for one iteration, from the command it
/// drained without blocking.
pub fn worker_directive(cmd: Option<Commands>) -> (d: WorkerDirective)
    ensures
        cmd == Some(Commands::Stop) ==> d == WorkerDirective::Exit,
        cmd == Some(Commands::Capture) ==> d == WorkerDirective::CaptureStill,
        cmd is None ==> d == WorkerDirective::PreviewOnly,
{
    match cmd {
        Some(Commands::Stop) => WorkerDirective::Exit,
        Some(Commands::Capture) => WorkerDirective::CaptureStill,
        None => WorkerDirective::PreviewOnly,
    }
}

/// `Idle` never advances by the passage of time alone: a tick at any
/// time leaves it in `Idle` with no command and no release; only the
/// external start-capture trigger leaves `Idle`.
pub proof fn lemma_idle_needs_trigger(now: u64)
    ensures
        spec_poll_state(State::Idle, now) == State::Idle,
        spec_poll_command(State::Idle) is None,
        spec_poll_released(State::Idle, now) is None,
{
}

/// From `Countdown` entered at `t0`: the state stays `Countdown` at
/// every queried time up to five seconds after `t0`, becomes `Capturing`
/// on the first tick after that, and the tick that sees `Capturing`
/// issues exactly one capture command and waits.
pub proof fn lemma_countdown_window(t0: u64, now: u64)
    ensures
        elapsed_ms(t0, now) <= COUNTDOWN_MS ==> spec_poll_state(
            State::Countdown { started_at: t0 },
            now,
        ) == (State::Countdown { started_at: t0 }),
        elapsed_ms(t0, now) > COUNTDOWN_MS ==> spec_poll_state(
            State::Countdown { started_at: t0 },
            now,
        ) == State::Capturing,
        spec_poll_state(State::Capturing, now) == State::Waiting,
        spec_poll_command(State::Capturing) == Some(Commands::Capture),
{
}

/// A result posted while the machine waits is presented on the very
/// next tick's delivery: the new state shows exactly the posted texture,
/// whose dimensions are the posted image's.
pub proof fn lemma_waiting_presents_posted_image(img: Image, texture: DisplayTexture, now: u64)
    requires
        texture.width == img.width,
        texture.height == img.height,
    ensures
        ({
            let s = State::Presenting { texture, started_at: now };
            &&& spec_presented_texture(s) == Some(texture)
            &&& spec_presented_texture(s)->0.width == img.width
            &&& spec_presented_texture(s)->0.height == img.height
        }),
{
}

/// `Presenting` entered at `t0` reverts to `Idle` exactly once more
/// than five seconds have elapsed, and exactly that tick hands the
/// presented texture out for release — only once, since the state no
/// longer owns it afterwards.
pub proof fn lemma_presenting_reverts(texture: DisplayTexture, t0: u64, now: u64)
    ensures
        elapsed_ms(t0, now) <= PRESENT_MS ==> spec_poll_state(
            State::Presenting { texture, started_at: t0 },
            now,
        ) == (State::Presenting { texture, started_at: t0 }) && spec_poll_released(
            State::Presenting { texture, started_at: t0 },
            now,
        ) is None,
        elapsed_ms(t0, now) > PRESENT_MS ==> spec_poll_state(
            State::Presenting { texture, started_at: t0 },
            now,
        ) == State::Idle && spec_poll_released(
            State::Presenting { texture, started_at: t0 },
            now,
        ) == Some(texture),
        spec_presented_texture(spec_poll_state(State::Presenting { texture, started_at: t0 }, now))
            is Some <==> elapsed_ms(t0, now) <= PRESENT_MS,
{
}

} // verus!
