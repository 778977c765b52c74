//! What the dispatchers ask of the engine's controller.
//!
//! A dispatcher does not call the engine. It says which command the operation comes to, and
//! whoever holds the controller carries the command out and reads the outcome off
//! [`delegated`].

use vstd::prelude::*;
use crate::error::Error;
use crate::window::WindowLevel;

verus! {

/// A command for the engine's controller.
#[derive(Clone, Debug, PartialEq, Eq)]
pub enum EngineCommand {
    SetTitle(String),
    SetMaximized(bool),
    SetMinimized(bool),
    SetVisible(bool),
    SetWindowLevel(WindowLevel),
    SetFullscreen(bool),
    Focus,
    StartDragging,
    ExecuteScript(String),
    Reload,
}

/// What a dispatcher returns for what the engine returned: the value, or, whatever went wrong
/// in the engine, the one failure that says the command did not get through.
pub fn delegated<X, Failure>(outcome: Result<X, Failure>) -> (r: Result<X, Error>)
    ensures
        r == (match outcome {
            Ok(x) => Ok::<X, Error>(x),
            Err(_) => Err::<X, Error>(Error::FailedToSendMessage),
        }),
{
    match outcome {
        Ok(x) => Ok(x),
        Err(_) => Err(Error::FailedToSendMessage),
    }
}

/// The position that a dispatcher reports when the engine knows none, as it does where the
/// display server keeps positions to itself: the top-left corner.
pub open spec fn spec_position_or_origin(position: Option<(i32, i32)>) -> (i32, i32) {
    match position {
        Some(p) => p,
        None => (0, 0),
    }
}

/// What a dispatcher reports for the position that the engine returned.
pub fn delegated_position<Failure>(outcome: Result<Option<(i32, i32)>, Failure>) -> (r: Result<
    (i32, i32),
    Error,
>)
    ensures
        r == (match outcome {
            Ok(position) => Ok::<(i32, i32), Error>(spec_position_or_origin(position)),
            Err(_) => Err::<(i32, i32), Error>(Error::FailedToSendMessage),
        }),
{
    match outcome {
        Ok(Some(position)) => Ok(position),
        Ok(None) => Ok((0, 0)),
        Err(_) => Err(Error::FailedToSendMessage),
    }
}

/// What is left to do about the engine of a window that has been destroyed.
#[derive(Clone, Copy, Debug, PartialEq, Eq, Structural)]
pub enum EngineDisposal {
    /// Nobody holds the controller any more: the engine went with it.
    Released,
    /// Somebody still holds the controller, which is a leak. The engine is shut down all the
    /// same: an engine that runs on without a window is worse than a noisy end.
    ForceTerminate,
}

/// What is left to do about the engine of a destroyed window, given whether anybody still
/// holds its controller once the registry has let go of it and the subscribers are dropped.
pub fn engine_disposal(still_held: bool) -> (r: EngineDisposal)
    ensures
        r == if still_held {
            EngineDisposal::ForceTerminate
        } else {
            EngineDisposal::Released
        },
{
    if still_held {
        EngineDisposal::ForceTerminate
    } else {
        EngineDisposal::Released
    }
}

} // verus!
