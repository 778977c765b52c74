//! What crosses from any thread to the owning thread, and what the owning thread tells the
//! host in return.

use vstd::prelude::*;

verus! {

/// Identifies a window. Window identifiers and webview identifiers are counted apart.
pub type WindowId = u32;

/// Identifies a webview.
pub type WebviewId = u32;

/// Identifies one subscription to a window's events.
pub type WindowEventId = u32;

/// A command for the owning thread. `F` is a task that needs nothing, `G` a task that needs
/// the event loop, and `T` an event of the host's own.
#[derive(Debug, PartialEq)]
pub enum Message<F, G, T> {
    Task(F),
    /// Run task with the event loop at hand.
    TaskWithEventLoop(G),
    /// Close the window unless somebody objects.
    CloseWindow(WindowId),
    /// Close the window without asking.
    DestroyWindow(WindowId),
    /// Leave the loop with this code unless the host objects.
    RequestExit(i32),
    UserEvent(T),
}

impl<F, G, T: Clone> Message<F, G, T> {
    /// A second copy of a user event. The other commands cannot be copied: a task runs once,
    /// and a request to close or exit is answered once.
    pub fn try_clone(&self) -> (r: Option<Self>)
        ensures
            r is Some <==> self is UserEvent,
            r matches Some(copy) ==> copy is UserEvent && cloned(
                self->UserEvent_0,
                copy->UserEvent_0,
            ),
    {
        match self {
            Message::UserEvent(event) => Some(Message::UserEvent(event.clone())),
            _ => None,
        }
    }
}

/// What happened to a window.
#[derive(Clone, Copy, Debug, PartialEq, Eq, Structural)]
pub enum WindowEvent {
    /// Somebody asked to close the window; whoever is told may object.
    CloseRequested,
    /// The window is gone.
    Destroyed,
}

/// What the host can answer when it is asked whether the loop may end.
#[derive(Clone, Copy, Debug, PartialEq, Eq, Structural)]
pub enum ExitRequestedEventAction {
    Prevent,
}

/// What the event loop tells the host.
#[derive(Clone, Debug, PartialEq)]
pub enum RunEvent<T> {
    /// The loop has started.
    Ready,
    /// The loop woke up to poll.
    Resumed,
    /// Everything that was pending has been handled.
    MainEventsCleared,
    WindowEvent { label: String, event: WindowEvent },
    /// The loop is about to end; the host may object.
    ExitRequested { code: Option<i32> },
    UserEvent(T),
    /// The loop has ended.
    Exit,
}

/// Whether any of the answers to a close request objects to it.
pub open spec fn spec_close_vetoed(signals: Seq<bool>) -> bool {
    signals.contains(true)
}

/// Whether any of the answers to a close request objects to it.
pub fn close_vetoed(signals: &Vec<bool>) -> (r: bool)
    ensures
        r == spec_close_vetoed(signals@),
{
    let mut i: usize = 0;
    while i < signals.len()
        invariant
            i <= signals.len(),
            forall|k: int| 0 <= k < i ==> !signals@[k],
        decreases signals.len() - i,
    {
        if signals[i] {
            return true;
        }
        i += 1;
    }
    false
}

/// Whether the host's answer to an exit request objects to it. No answer is no objection.
pub open spec fn spec_exit_prevented(answer: Option<ExitRequestedEventAction>) -> bool {
    match answer {
        Some(ExitRequestedEventAction::Prevent) => true,
        None => false,
    }
}

/// Whether the host's answer to an exit request objects to it.
pub fn exit_prevented(answer: Option<ExitRequestedEventAction>) -> (r: bool)
    ensures
        r == spec_exit_prevented(answer),
{
    match answer {
        Some(ExitRequestedEventAction::Prevent) => true,
        None => false,
    }
}

} // verus!
