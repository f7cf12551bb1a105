//! The thin application layer's decisions: its startup error, its window
//! configuration, and the rule that turns a window event into the next
//! state of the event loop. The windowing plumbing itself lives outside
//! the library and only feeds plain observations into these functions.

use vstd::prelude::*;

verus! {

/// The error surfaced when the application cannot start.
#[derive(Clone, Copy, Debug, PartialEq, Eq, Structural)]
pub enum ApplicationError {
    /// The application was constructed a second time in one process.
    AlreadyInitialized,
}

impl ApplicationError {
    /// The diagnostic text of the error.
    pub fn message(&self) -> (r: &'static str)
        ensures
            r@ == "Application already got initialized!"@,
    {
        match self {
            ApplicationError::AlreadyInitialized => "Application already got initialized!",
        }
    }
}

/// The initial placement of the application's window.
pub struct ApplicationConfig {
    pub start_pos_x: u32,
    pub start_pos_y: u32,
    pub start_width: u32,
    pub start_height: u32,
}

/// Whether the application may be constructed, given whether one was
/// already constructed in this process: a second construction is refused.
pub fn check_first_initialization(already_initialized: bool) -> (r: Result<(), ApplicationError>)
    ensures
        r is Ok <==> !already_initialized,
        already_initialized ==> r == Result::<(), ApplicationError>::Err(
            ApplicationError::AlreadyInitialized,
        ),
{
    if already_initialized {
        Err(ApplicationError::AlreadyInitialized)
    } else {
        Ok(())
    }
}

/// What the event loop does after handling one event.
#[derive(Clone, Copy, Debug, PartialEq, Eq, Structural)]
pub enum FlowDirective {
    /// Keep polling for further events.
    Poll,
    /// Leave the event loop.
    Exit,
}

/// The one decision the event loop makes: it exits exactly when the event
/// is a close request addressed to the application's own window, and keeps
/// polling on every other event.
pub fn event_flow_directive(close_requested: bool, own_window: bool) -> (r: FlowDirective)
    ensures
        r == (if close_requested && own_window {
            FlowDirective::Exit
        } else {
            FlowDirective::Poll
        }),
{
    if close_requested && own_window {
        FlowDirective::Exit
    } else {
        FlowDirective::Poll
    }
}

} // verus!
