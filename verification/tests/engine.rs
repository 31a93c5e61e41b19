use audio_game_engine::canvas::{Canvas, Point};
use audio_game_engine::engine::{Elapsed, Event, LoopState, Platform};
use audio_game_engine::input::{InputState, RawInput};
use audio_game_engine::{Application, ApplicationResult, CallbackError, Engine};

struct FakeCanvas {
    titles: Vec<String>,
    presents: usize,
}

impl FakeCanvas {
    fn new() -> Self {
        FakeCanvas { titles: Vec::new(), presents: 0 }
    }
}

impl Canvas for FakeCanvas {
    fn present(&mut self) {
        self.presents += 1;
    }

    fn set_title(&mut self, title: &str) -> Result<(), String> {
        self.titles.push(title.to_string());
        Ok(())
    }

    fn draw_points(&mut self, _points: &Vec<Point>) -> Result<(), String> {
        Ok(())
    }

    fn draw_lines(&mut self, _lines: &Vec<(Point, Point)>) -> Result<(), String> {
        Ok(())
    }
}

struct FakePlatform {
    now: u64,
    tick_step: u64,
    freq: u64,
    polls: usize,
    quit_on_poll: Option<usize>,
    keys: Vec<(u64, bool)>,
}

impl FakePlatform {
    fn new(freq: u64, tick_step: u64) -> Self {
        FakePlatform { now: 0, tick_step, freq, polls: 0, quit_on_poll: None, keys: Vec::new() }
    }
}

impl Platform for FakePlatform {
    fn now_ticks(&mut self) -> u64 {
        self.now += self.tick_step;
        self.now
    }

    fn ticks_per_second(&mut self) -> u64 {
        self.freq
    }

    fn poll_events(&mut self) -> Vec<Event> {
        let i = self.polls;
        self.polls += 1;
        if self.quit_on_poll == Some(i) {
            vec![Event::Other, Event::Quit, Event::Other]
        } else {
            vec![Event::Other]
        }
    }

    fn read_input(&mut self) -> RawInput {
        RawInput {
            keys: self.keys.clone(),
            mouse_buttons: Vec::new(),
            mouse_x: 0,
            mouse_y: 0,
        }
    }
}

struct CountingApp {
    creates: usize,
    updates: usize,
    quits: usize,
    create_result: ApplicationResult,
    stop_on_update: Option<usize>,
    error_on_update: Option<usize>,
    quit_result: Result<(), CallbackError>,
}

impl CountingApp {
    fn new() -> Self {
        CountingApp {
            creates: 0,
            updates: 0,
            quits: 0,
            create_result: Ok(true),
            stop_on_update: None,
            error_on_update: None,
            quit_result: Ok(()),
        }
    }
}

impl<C> Application<C> for CountingApp {
    fn on_create(&mut self, _canvas: &mut C, _input: &InputState) -> ApplicationResult {
        self.creates += 1;
        self.create_result.clone()
    }

    fn on_update(&mut self, _canvas: &mut C, _input: &InputState, _elapsed: Elapsed) -> ApplicationResult {
        self.updates += 1;
        if self.error_on_update == Some(self.updates) {
            return Err(CallbackError { message: String::from("update failed") });
        }
        if self.stop_on_update == Some(self.updates) {
            return Ok(false);
        }
        Ok(true)
    }

    fn on_quit(&mut self) -> Result<(), CallbackError> {
        self.quits += 1;
        self.quit_result.clone()
    }
}

fn run_loop<A: Application<FakeCanvas>>(
    app: &mut A,
    canvas: &mut FakeCanvas,
    platform: &mut FakePlatform,
) -> Result<(), CallbackError> {
    let mut engine = Engine::new(String::from("Test App"), 640, 480);
    assert!(matches!(engine.state(), LoopState::Created));
    let mut outcome = engine.start(app, canvas, platform);
    let mut frames = 0;
    while outcome.is_none() {
        assert!(matches!(engine.state(), LoopState::Running));
        outcome = engine.step(app, canvas, platform);
        frames += 1;
        assert!(frames < 1000, "the loop did not stop");
    }
    assert!(matches!(engine.state(), LoopState::Terminated));
    outcome.unwrap()
}

/// A loop whose `on_update` requests a stop on its second call invokes
/// `on_create` once, `on_update` exactly twice, `on_quit` exactly once, and
/// returns the result of `on_quit`.
#[test]
fn test_stop_on_second_update() {
    let mut app = CountingApp::new();
    app.stop_on_update = Some(2);
    app.quit_result = Err(CallbackError { message: String::from("quit failed") });
    let mut canvas = FakeCanvas::new();
    let mut platform = FakePlatform::new(1000, 1);
    let outcome = run_loop(&mut app, &mut canvas, &mut platform);
    assert_eq!(app.creates, 1);
    assert_eq!(app.updates, 2);
    assert_eq!(app.quits, 1);
    assert_eq!(outcome, Err(CallbackError { message: String::from("quit failed") }));
}

/// A close event arriving mid-loop runs `on_quit` before the loop returns,
/// even though `on_update` keeps requesting "continue".
#[test]
fn test_close_event_runs_quit() {
    let mut app = CountingApp::new();
    let mut canvas = FakeCanvas::new();
    let mut platform = FakePlatform::new(1000, 1);
    platform.quit_on_poll = Some(1);
    let outcome = run_loop(&mut app, &mut canvas, &mut platform);
    assert_eq!(outcome, Ok(()));
    assert_eq!(app.creates, 1);
    assert_eq!(app.updates, 2);
    assert_eq!(app.quits, 1);
    // The frame that saw the close event never presented; the one before did.
    assert_eq!(canvas.presents, 1);
}

/// `on_create` requesting a stop ends the loop before any frame: no
/// `on_update` call, one `on_quit` call.
#[test]
fn test_stop_on_create() {
    let mut app = CountingApp::new();
    app.create_result = Ok(false);
    let mut canvas = FakeCanvas::new();
    let mut platform = FakePlatform::new(1000, 1);
    let outcome = run_loop(&mut app, &mut canvas, &mut platform);
    assert_eq!(outcome, Ok(()));
    assert_eq!(app.creates, 1);
    assert_eq!(app.updates, 0);
    assert_eq!(app.quits, 1);
    assert_eq!(canvas.presents, 0);
}

/// An error from `on_create` still runs `on_quit` once, and the original
/// error is the loop's outcome.
#[test]
fn test_create_error_still_quits() {
    let mut app = CountingApp::new();
    app.create_result = Err(CallbackError { message: String::from("create failed") });
    let mut canvas = FakeCanvas::new();
    let mut platform = FakePlatform::new(1000, 1);
    let outcome = run_loop(&mut app, &mut canvas, &mut platform);
    assert_eq!(outcome, Err(CallbackError { message: String::from("create failed") }));
    assert_eq!(app.quits, 1);
    assert_eq!(app.updates, 0);
}

/// An error from `on_update` still runs `on_quit` once; the update error is
/// surfaced in preference to `on_quit`'s own result.
#[test]
fn test_update_error_still_quits() {
    let mut app = CountingApp::new();
    app.error_on_update = Some(3);
    app.quit_result = Err(CallbackError { message: String::from("quit failed") });
    let mut canvas = FakeCanvas::new();
    let mut platform = FakePlatform::new(1000, 1);
    let outcome = run_loop(&mut app, &mut canvas, &mut platform);
    assert_eq!(outcome, Err(CallbackError { message: String::from("update failed") }));
    assert_eq!(app.updates, 3);
    assert_eq!(app.quits, 1);
}

/// With the FPS display enabled, each full second of accumulated frame time
/// refreshes the window title with the smoothed rate.
#[test]
fn test_fps_title_updates() {
    let mut app = CountingApp::new();
    app.stop_on_update = Some(3);
    let mut canvas = FakeCanvas::new();
    // 10 ticks per second, 10 ticks per frame: every frame closes a window
    // with a single sample of 1 frame per second.
    let mut platform = FakePlatform::new(10, 10);
    let outcome = run_loop(&mut app, &mut canvas, &mut platform);
    assert_eq!(outcome, Ok(()));
    assert_eq!(canvas.titles.len(), 3);
    assert_eq!(canvas.titles[0], "Test App (1 FPS)");
}

/// The title renders multi-digit rates in full decimal.
#[test]
fn test_fps_title_two_digits() {
    let mut app = CountingApp::new();
    app.stop_on_update = Some(30);
    let mut canvas = FakeCanvas::new();
    // 1000 ticks per second, 40 ticks per frame: 25 frames per second, so
    // the first full second ends after 25 frames with a mean rate of 25.
    let mut platform = FakePlatform::new(1000, 40);
    let outcome = run_loop(&mut app, &mut canvas, &mut platform);
    assert_eq!(outcome, Ok(()));
    assert_eq!(canvas.titles[0], "Test App (25 FPS)");
}

struct InputCheckApp {
    updates: usize,
}

impl<C> Application<C> for InputCheckApp {
    fn on_update(&mut self, _canvas: &mut C, input: &InputState, _elapsed: Elapsed) -> ApplicationResult {
        self.updates += 1;
        if self.updates == 1 {
            // First frame: the key appeared in the initial snapshot, so the
            // creation edge is still visible.
            assert_eq!(input.keyboard.pressed(5), Ok(true));
            assert_eq!(input.keyboard.held(5), Ok(true));
            Ok(true)
        } else {
            // The refresh after the first frame re-fed the same raw value:
            // the edge is gone, the key is still held.
            assert_eq!(input.keyboard.pressed(5), Ok(false));
            assert_eq!(input.keyboard.held(5), Ok(true));
            Ok(false)
        }
    }
}

/// The input state is refreshed once per frame from a fresh raw snapshot,
/// so edges settle while held state persists.
#[test]
fn test_input_refreshed_each_frame() {
    let mut app = InputCheckApp { updates: 0 };
    let mut canvas = FakeCanvas::new();
    let mut platform = FakePlatform::new(1000, 1);
    platform.keys = vec![(5, true)];
    let outcome = run_loop(&mut app, &mut canvas, &mut platform);
    assert_eq!(outcome, Ok(()));
    assert_eq!(app.updates, 2);
}

/// A new engine starts in the `Created` state with the FPS display enabled
/// and the configuration it was given.
#[test]
fn test_engine_new_configuration() {
    let engine = Engine::new(String::from("Window Title"), 640, 480);
    assert!(matches!(engine.state(), LoopState::Created));
    assert!(engine.show_fps);
    assert_eq!(engine.title, "Window Title");
    assert_eq!(engine.width, 640);
    assert_eq!(engine.height, 480);
}
