//! A minimal game-engine core: edge-detecting button state for keyboard and
//! mouse input, a tick-based frame clock with a smoothed frames-per-second
//! average, a midpoint-circle rasterizer, and the main-loop state machine
//! that sequences an application's setup, per-frame update and shutdown
//! callbacks.
//!
//! The windowing system, event source and timer are reached only through the
//! narrow [`canvas::Canvas`] and [`engine::Platform`] capability traits, so
//! the core itself stays independent of any particular backend.

pub mod canvas;
pub mod engine;
pub mod input;
pub mod keyboard;

pub use canvas::Point;
pub use engine::Engine;

use vstd::prelude::*;

verus! {

use crate::input::InputState;

/// An error produced by an [`Application`] callback, carried through the main
/// loop and surfaced to the caller as the loop's outcome.
#[derive(Clone, Debug, PartialEq, Eq)]
pub struct CallbackError {
    /// Human-readable description of what went wrong.
    pub message: String,
}

/// The return type of [`Application::on_create`] and [`Application::on_update`]:
/// `Ok(true)` to keep running, `Ok(false)` to stop, `Err` to stop with an error.
pub type ApplicationResult = Result<bool, CallbackError>;

/// An application using this framework.
///
/// Implement this trait on a type of your choice and hand an instance to the
/// [`Engine`][engine::Engine]; the engine drives the three callbacks.
pub trait Application<C> {
    /// Called once at the start of the program.
    ///
    /// `canvas` is the draw target, `input` the state of the input devices.
    /// Returning `Ok(false)` or `Err` stops the loop before the first frame.
    fn on_create(&mut self, _canvas: &mut C, _input: &InputState) -> ApplicationResult {
        Ok(true)
    }

    /// Called once per frame.
    ///
    /// `elapsed` is the time since the previous frame, in timer ticks
    /// together with the tick rate. Returning `Ok(false)` or `Err` stops the
    /// loop.
    fn on_update(
        &mut self,
        _canvas: &mut C,
        _input: &InputState,
        _elapsed: engine::Elapsed,
    ) -> ApplicationResult {
        Ok(true)
    }

    /// Called exactly once when the loop shuts down, on every exit path.
    /// Its result becomes the loop's outcome unless a callback error is
    /// already pending. Does nothing by default.
    fn on_quit(&mut self) -> Result<(), CallbackError> {
        Ok(())
    }
}

} // verus!
