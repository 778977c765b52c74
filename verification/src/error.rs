//! What can go wrong in the runtime.

use vstd::prelude::*;

verus! {

/// A failure of the runtime. None of them is retried.
#[derive(Clone, Copy, Debug, PartialEq, Eq, Structural)]
pub enum Error {
    /// The request to create a window was malformed or asked for what is not supported.
    CreateWindow,
    /// The owning thread no longer receives commands, or the engine did not take one.
    FailedToSendMessage,
    /// The owning thread went away before it answered.
    FailedToReceiveMessage,
}

/// A setting was given a second time.
#[derive(Clone, Copy, Debug, PartialEq, Eq, Structural)]
pub enum ConfigError {
    AlreadySet,
}

} // verus!
