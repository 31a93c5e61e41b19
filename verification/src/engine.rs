//! Contains the `Engine` type, which manages all resources to do with the
//! game engine, and calls the functions defined in the `Application` trait.
//!
//! The engine is a four-state machine — `Created`, `Running`, `Quitting`,
//! `Terminated` — driven one frame at a time: [`Engine::start`] performs the
//! one-time setup and the `on_create` callback, and each [`Engine::step`]
//! runs one frame (clock, best-effort FPS title, `on_update`, event drain,
//! input refresh, present). Both return `None` while the loop should keep
//! going and `Some(result)` once the engine has shut down; the caller simply
//! repeats `step` until it gets `Some`. On every path that leaves the loop
//! the `on_quit` callback runs exactly once, in the single transition from
//! `Quitting` to `Terminated`.

pub mod fps;

use vstd::prelude::*;

verus! {

use crate::canvas::Canvas;
use crate::engine::fps::FpsCounter;
use crate::input::{input_initialized, input_refreshed, InputState, RawInput};
use crate::{Application, ApplicationResult, CallbackError};

/// The lifecycle state of the main loop.
#[derive(Clone, Copy, Debug, PartialEq, Eq, Structural)]
pub enum LoopState {
    /// Constructed; the loop has not started.
    Created,
    /// Setup succeeded and frames are being processed.
    Running,
    /// A stop was requested; the shutdown callback has not run yet.
    Quitting,
    /// The shutdown callback has run; the engine is finished.
    Terminated,
}

/// One event drained from the windowing system's queue each frame.
#[derive(Clone, Copy, Debug, PartialEq, Eq, Structural)]
pub enum Event {
    /// The window's close button was clicked.
    Quit,
    /// Any other event; the engine ignores it.
    Other,
}

/// The time one frame took, as a tick count plus the tick rate, so that a
/// consumer can convert it to seconds (`ticks / ticks_per_second`).
#[derive(Clone, Copy, Debug, PartialEq, Eq, Structural)]
pub struct Elapsed {
    /// Performance-counter ticks since the previous frame.
    pub ticks: u64,
    /// Performance-counter ticks per second; at least 1.
    pub ticks_per_second: u64,
}

/// The timing and event capability: the narrow interface through which the
/// engine reaches the platform's performance counter, event queue and raw
/// input, without knowing how any of them is implemented.
pub trait Platform {
    /// The current reading of the monotonic performance counter.
    fn now_ticks(&mut self) -> u64;

    /// How many ticks the performance counter advances per second.
    fn ticks_per_second(&mut self) -> u64;

    /// Drain and return the events that arrived since the previous call.
    fn poll_events(&mut self) -> Vec<Event>;

    /// Read the current raw state of the input devices.
    fn read_input(&mut self) -> RawInput;
}

/// The character of a single decimal digit.
pub open spec fn digit_char(d: nat) -> char {
    if d == 0 {
        '0'
    } else if d == 1 {
        '1'
    } else if d == 2 {
        '2'
    } else if d == 3 {
        '3'
    } else if d == 4 {
        '4'
    } else if d == 5 {
        '5'
    } else if d == 6 {
        '6'
    } else if d == 7 {
        '7'
    } else if d == 8 {
        '8'
    } else {
        '9'
    }
}

/// The decimal rendering of a number, most significant digit first, with no
/// leading zeroes (zero itself renders as `"0"`).
pub open spec fn decimal_digits(n: nat) -> Seq<char>
    decreases n,
{
    if n < 10 {
        seq![digit_char(n)]
    } else {
        decimal_digits(n / 10) + seq![digit_char(n % 10)]
    }
}

/// The window title shown while the FPS display is enabled: the configured
/// title, then the rate in parentheses, e.g. `"My Game (60 FPS)"`.
pub open spec fn fps_title_text(title: Seq<char>, fps: u64) -> Seq<char> {
    title + " ("@ + decimal_digits(fps as nat) + " FPS)"@
}

/// The one-character string of a single decimal digit.
fn digit_str(d: u64) -> (s: &'static str)
    requires
        d < 10,
    ensures
        s@ == seq![digit_char(d as nat)],
{
    let s: &'static str = match d {
        0 => "0",
        1 => "1",
        2 => "2",
        3 => "3",
        4 => "4",
        5 => "5",
        6 => "6",
        7 => "7",
        8 => "8",
        _ => "9",
    };
    proof {
        reveal_strlit("0");
        reveal_strlit("1");
        reveal_strlit("2");
        reveal_strlit("3");
        reveal_strlit("4");
        reveal_strlit("5");
        reveal_strlit("6");
        reveal_strlit("7");
        reveal_strlit("8");
        reveal_strlit("9");
        assert(s@ =~= seq![digit_char(d as nat)]);
    }
    s
}

/// Render a number in decimal.
fn decimal_string(n: u64) -> (s: String)
    ensures
        s@ == decimal_digits(n as nat),
    decreases n,
{
    if n < 10 {
        String::from_str(digit_str(n))
    } else {
        let mut s = decimal_string(n / 10);
        s.append(digit_str(n % 10));
        s
    }
}

/// Renders the window title shown while the FPS display is enabled.
fn fps_title(title: &str, fps: u64) -> (r: String)
    ensures
        r@ == fps_title_text(title@, fps),
{
    let mut r = String::from_str(title);
    r.append(" (");
    let digits = decimal_string(fps);
    r.append(digits.as_str());
    r.append(" FPS)");
    r
}

/// The main game engine, which manages the frame clock, the input state and
/// the loop lifecycle, and calls the [`Application`] callbacks.
pub struct Engine {
    /// Title of the window.
    pub title: String,
    /// Width (in pixels) of the window.
    pub width: u32,
    /// Height (in pixels) of the window.
    pub height: u32,
    /// Whether the FPS should be calculated and displayed in the titlebar of
    /// the window.
    pub show_fps: bool,
    /// Where the loop stands in its lifecycle.
    state: LoopState,
    /// The frame clock; created afresh when the loop starts.
    clock: FpsCounter,
    /// The input state handed to the callbacks, refreshed once per frame.
    input: InputState,
    /// A callback error waiting to be surfaced when the loop finishes.
    pending_error: Option<CallbackError>,
    /// How many times the shutdown callback has run. It is maintained at
    /// `on_quit`'s single call site, so the contracts can state that the
    /// callback runs exactly once per loop.
    quit_calls: Ghost<nat>,
}

/// The frame clock after one frame that read the counter value `now`: the
/// clock advances by [`FpsCounter::spec_updated`], and when the FPS display
/// is on and the advanced clock has a full second accumulated with at least
/// one rate sample, the averaging window is closed ([`FpsCounter::reset_average`]'s
/// effect).
pub open spec fn clock_after_frame(clock: FpsCounter, show_fps: bool, now: u64) -> FpsCounter {
    let stepped = clock.spec_updated(now);
    if show_fps && stepped.time_acc >= stepped.freq && stepped.fps_count > 0 {
        FpsCounter {
            freq: stepped.freq,
            last: stepped.last,
            now: stepped.now,
            time_acc: (stepped.time_acc - stepped.freq) as u64,
            fps_acc: 0,
            fps_count: 0,
        }
    } else {
        stepped
    }
}

/// Whether a drained batch of events contains a window-close request.
fn close_requested(events: &Vec<Event>) -> (b: bool)
    ensures
        b == exists|i: int| 0 <= i < events@.len() && events@[i] == Event::Quit,
{
    let mut found = false;
    let mut i: usize = 0;
    while i < events.len()
        invariant
            i <= events.len(),
            found == exists|j: int| 0 <= j < i && events@[j] == Event::Quit,
        decreases events.len() - i,
    {
        match events[i] {
            Event::Quit => {
                found = true;
                assert(events@[i as int] == Event::Quit);
            },
            Event::Other => {
                assert(events@[i as int] != Event::Quit);
            },
        }
        i = i + 1;
    }
    found
}

impl Engine {
    /// An engine is well formed when its frame clock is.
    pub open spec fn wf(self) -> bool {
        self.spec_clock().wf()
    }

    /// The window title, as the contracts speak of it.
    pub closed spec fn spec_title(self) -> String {
        self.title
    }

    /// The window width, as the contracts speak of it.
    pub closed spec fn spec_width(self) -> u32 {
        self.width
    }

    /// The window height, as the contracts speak of it.
    pub closed spec fn spec_height(self) -> u32 {
        self.height
    }

    /// Whether the FPS display is enabled, as the contracts speak of it.
    pub closed spec fn spec_show_fps(self) -> bool {
        self.show_fps
    }

    /// Holds when the two engines agree on the configuration fields, which
    /// `start` and `step` never change.
    pub open spec fn same_config(self, other: Engine) -> bool {
        &&& self.spec_title() == other.spec_title()
        &&& self.spec_width() == other.spec_width()
        &&& self.spec_height() == other.spec_height()
        &&& self.spec_show_fps() == other.spec_show_fps()
    }

    /// The lifecycle state the engine is in.
    pub closed spec fn lifecycle(self) -> LoopState {
        self.state
    }

    /// The frame clock, as the contracts speak of it.
    pub closed spec fn spec_clock(self) -> FpsCounter {
        self.clock
    }

    /// The input state handed to the callbacks, as the contracts speak of it.
    pub closed spec fn spec_input(self) -> InputState {
        self.input
    }

    /// The callback error waiting to be surfaced when the loop finishes.
    pub closed spec fn spec_pending_error(self) -> Option<CallbackError> {
        self.pending_error
    }

    /// How many times the shutdown callback has run.
    pub closed spec fn spec_quit_calls(self) -> nat {
        self.quit_calls@
    }

    /// The lifecycle state the engine is in; a driver repeats `step` while
    /// this is `Running`, though the `None`/`Some` protocol of `start` and
    /// `step` already carries the same information.
    pub fn state(&self) -> (s: LoopState)
        ensures
            s == self.lifecycle(),
    {
        self.state
    }

    /// Create a new engine in the `Created` state, with the FPS display
    /// enabled.
    ///
    /// # Parameters
    /// * `title`: Title of the window.
    /// * `width`: Width (in pixels) of the window.
    /// * `height`: Height (in pixels) of the window.
    pub fn new(title: String, width: u32, height: u32) -> (e: Engine)
        ensures
            e.spec_title() == title,
            e.spec_width() == width,
            e.spec_height() == height,
            e.spec_show_fps() == true,
            e.lifecycle() == LoopState::Created,
            e.spec_pending_error() is None,
            e.spec_quit_calls() == 0,
            e.wf(),
    {
        let raw = RawInput {
            keys: Vec::new(),
            mouse_buttons: Vec::new(),
            mouse_x: 0,
            mouse_y: 0,
        };
        Engine {
            title,
            width,
            height,
            show_fps: true,
            state: LoopState::Created,
            clock: FpsCounter::new(1, 0),
            input: InputState::new(&raw),
            pending_error: None,
            quit_calls: Ghost(0),
        }
    }

    /// Start the loop: set up the frame clock from the platform's counter,
    /// take the first raw input snapshot, and run the `on_create` callback.
    ///
    /// Returns `None` when the engine entered `Running` and frames should now
    /// be processed with [`Engine::step`]; returns `Some(result)` when
    /// `on_create` requested a stop or failed, in which case `on_quit` has
    /// already run, the engine is `Terminated`, and `result` is the loop's
    /// overall outcome.
    pub fn start<A: Application<C>, C: Canvas, P: Platform>(
        &mut self,
        app: &mut A,
        canvas: &mut C,
        platform: &mut P,
    ) -> (r: Option<Result<(), CallbackError>>)
        requires
            old(self).lifecycle() == LoopState::Created,
        ensures
            final(self).wf(),
            final(self).same_config(*old(self)),
            (r is None) <==> (final(self).lifecycle() == LoopState::Running),
            (r is Some) <==> (final(self).lifecycle() == LoopState::Terminated),
            r is None ==> final(self).spec_quit_calls() == old(self).spec_quit_calls() && final(self).spec_pending_error() == old(self).spec_pending_error(),
            r is Some ==> final(self).spec_quit_calls() == old(self).spec_quit_calls() + 1 && final(self).spec_pending_error() is None,
            exists|frequency: u64, now: u64|
                frequency >= 1 && final(self).spec_clock() == #[trigger] FpsCounter::spec_new(
                    frequency,
                    now,
                ),
            exists|raw: RawInput| #[trigger] input_initialized(raw, final(self).spec_input()),
    {
        self.state = LoopState::Running;
        let reported = platform.ticks_per_second();
        let freq = if reported >= 1 {
            reported
        } else {
            1
        };
        let now = platform.now_ticks();
        self.clock = FpsCounter::new(freq, now);
        let raw = platform.read_input();
        self.input = InputState::new(&raw);
        proof {
            assert(freq >= 1 && self.clock == FpsCounter::spec_new(freq, now));
            assert(input_initialized(raw, self.input));
        }
        let outcome = app.on_create(canvas, &self.input);
        if self.absorb_callback_result(outcome) {
            Some(self.finish::<A, C>(app))
        } else {
            None
        }
    }

    /// Process one frame: advance the frame clock, refresh the window title
    /// with the smoothed FPS once per second (best-effort — a title failure
    /// is discarded), run the `on_update` callback, drain pending events,
    /// refresh the input state from a fresh raw snapshot, and present the
    /// surface.
    ///
    /// Returns `None` while the loop should continue; returns `Some(result)`
    /// once the engine shut down — because `on_update` requested a stop or
    /// failed, or a close event arrived — in which case `on_quit` has already
    /// run and the engine is `Terminated`. A callback error is surfaced as
    /// the loop's outcome; otherwise the outcome is `on_quit`'s own result.
    pub fn step<A: Application<C>, C: Canvas, P: Platform>(
        &mut self,
        app: &mut A,
        canvas: &mut C,
        platform: &mut P,
    ) -> (r: Option<Result<(), CallbackError>>)
        requires
            old(self).lifecycle() == LoopState::Running,
            old(self).wf(),
        ensures
            final(self).wf(),
            final(self).same_config(*old(self)),
            (r is None) <==> (final(self).lifecycle() == LoopState::Running),
            (r is Some) <==> (final(self).lifecycle() == LoopState::Terminated),
            r is None ==> final(self).spec_quit_calls() == old(self).spec_quit_calls() && final(self).spec_pending_error() == old(self).spec_pending_error(),
            r is Some ==> final(self).spec_quit_calls() == old(self).spec_quit_calls() + 1 && final(self).spec_pending_error() is None,
            exists|now: u64|
                final(self).spec_clock() == #[trigger] clock_after_frame(
                    old(self).spec_clock(),
                    old(self).spec_show_fps(),
                    now,
                ),
            r is None ==> exists|raw: RawInput| #[trigger] input_refreshed(
                old(self).spec_input(),
                raw,
                final(self).spec_input(),
            ),
            r is Some ==> final(self).spec_input() == old(self).spec_input(),
    {
        let now = platform.now_ticks();
        let elapsed_ticks = self.clock.update(now);

        if self.show_fps && self.clock.time_acc >= self.clock.freq && self.clock.fps_count > 0 {
            let f = self.clock.fps();
            let title = fps_title(self.title.as_str(), f);
            // Title updates are best-effort: a failure is discarded here and
            // never aborts the loop.
            let _ = canvas.set_title(title.as_str());
            self.clock.reset_average();
        }
        proof {
            assert(self.clock == clock_after_frame(old(self).spec_clock(), old(self).spec_show_fps(), now));
        }

        let elapsed = Elapsed { ticks: elapsed_ticks, ticks_per_second: self.clock.freq };
        let outcome = app.on_update(canvas, &self.input, elapsed);
        if self.absorb_callback_result(outcome) {
            return Some(self.finish::<A, C>(app));
        }

        let events = platform.poll_events();
        if close_requested(&events) {
            self.state = LoopState::Quitting;
            return Some(self.finish::<A, C>(app));
        }

        let raw = platform.read_input();
        self.input.update(&raw);

        canvas.present();
        proof {
            assert(input_refreshed(old(self).spec_input(), raw, self.spec_input()));
        }
        None
    }

    /// The per-frame decision on a callback's result: `Ok(true)` means keep
    /// running and changes nothing, `Ok(false)` requests a stop, and an
    /// error requests a stop with the error recorded so that `finish`
    /// surfaces it when the loop ends.
    fn absorb_callback_result(&mut self, outcome: ApplicationResult) -> (stop: bool)
        requires
            old(self).lifecycle() == LoopState::Running,
        ensures
            final(self).same_config(*old(self)),
            final(self).spec_clock() == old(self).spec_clock(),
            final(self).spec_input() == old(self).spec_input(),
            final(self).spec_quit_calls() == old(self).spec_quit_calls(),
            outcome == Ok::<bool, CallbackError>(true) ==> !stop && *final(self) == *old(self),
            outcome == Ok::<bool, CallbackError>(false) ==> stop && final(self).state
                == LoopState::Quitting && final(self).spec_pending_error() == old(self).spec_pending_error(),
            outcome matches Err(e) ==> stop && final(self).lifecycle() == LoopState::Quitting && final(self).spec_pending_error() == Some(e),
            stop <==> final(self).lifecycle() == LoopState::Quitting,
            !stop ==> *final(self) == *old(self),
    {
        match outcome {
            Ok(true) => false,
            Ok(false) => {
                self.state = LoopState::Quitting;
                true
            },
            Err(e) => {
                self.pending_error = Some(e);
                self.state = LoopState::Quitting;
                true
            },
        }
    }

    /// The single `Quitting` to `Terminated` transition: run the `on_quit`
    /// callback — this is its only call site, and `quit_calls` counts it, so
    /// it runs exactly once per loop — and surface a pending callback error
    /// in preference to `on_quit`'s own result.
    fn finish<A: Application<C>, C>(&mut self, app: &mut A) -> (r: Result<(), CallbackError>)
        requires
            old(self).lifecycle() == LoopState::Quitting,
            old(self).wf(),
        ensures
            final(self).wf(),
            final(self).same_config(*old(self)),
            final(self).lifecycle() == LoopState::Terminated,
            final(self).spec_pending_error() is None,
            final(self).spec_clock() == old(self).spec_clock(),
            final(self).spec_input() == old(self).spec_input(),
            final(self).spec_quit_calls() == old(self).spec_quit_calls() + 1,
            old(self).spec_pending_error() matches Some(e) ==> r == Err::<(), CallbackError>(e),
    {
        let quit_result = app.on_quit();
        self.quit_calls = Ghost(self.quit_calls@ + 1);
        self.state = LoopState::Terminated;
        match self.pending_error.take() {
            Some(e) => Err(e),
            None => quit_result,
        }
    }
}

} // verus!
