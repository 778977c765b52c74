//! Getting a command to the thread that owns the event loop.
//!
//! Commands may come from any thread. A [`DispatcherMainThreadContext`] knows which thread
//! owns the loop and decides, for each command, whether it runs here and now or has to go
//! through the channel.

use vstd::prelude::*;
use crate::error::Error;
use crate::message::Message;

verus! {

/// Stands for a thread. Two tokens are equal exactly when they stand for the same thread.
#[derive(Clone, Copy, Debug, PartialEq, Eq, Structural)]
pub struct ThreadToken(pub u64);

/// What may be touched on the owning thread only: the event loop's own context, kept together
/// with the token of the thread that owns it. Every access names the calling thread and is
/// refused to any other.
pub struct DispatcherMainThreadContext<E> {
    main_thread_id: ThreadToken,
    window_target: E,
}

impl<E> DispatcherMainThreadContext<E> {
    /// The thread that owns the event loop.
    pub closed spec fn owner(&self) -> ThreadToken {
        self.main_thread_id
    }

    /// The event loop's context.
    pub closed spec fn target(&self) -> E {
        self.window_target
    }

    /// Binds the event loop's context to the thread that owns it.
    pub fn new(main_thread_id: ThreadToken, window_target: E) -> (r: Self)
        ensures
            r.owner() == main_thread_id,
            r.target() == window_target,
    {
        DispatcherMainThreadContext { main_thread_id, window_target }
    }

    /// The thread that owns the event loop.
    pub fn main_thread_id(&self) -> (r: ThreadToken)
        ensures
            r == self.owner(),
    {
        self.main_thread_id
    }

    /// The event loop's context, for the owning thread and for no other.
    pub fn window_target(&self, current_thread: ThreadToken) -> (r: Option<&E>)
        ensures
            r is Some <==> current_thread == self.owner(),
            r matches Some(target) ==> *target == self.target(),
    {
        if current_thread == self.main_thread_id {
            Some(&self.window_target)
        } else {
            None
        }
    }
}

/// What became of a command that was to run on the owning thread.
#[derive(Debug, PartialEq)]
pub enum Routed<F, G, T> {
    /// The caller is the owning thread and the task has run.
    Ran,
    /// The command has to go through the channel to the owning thread.
    Enqueue(Message<F, G, T>),
}

/// What became of a call that was to run on the owning thread.
#[derive(Debug, PartialEq)]
pub enum RoutedCall<X, G> {
    /// The caller is the owning thread; the call has run and returned this.
    Returned(X),
    /// The call has to go through the channel to the owning thread.
    Enqueue(G),
}

/// Where a command goes: a task runs at once if the caller is the owning thread; anything
/// else, and any command from another thread, goes through the channel.
pub open spec fn spec_runs_inline<F, G, T>(on_main_thread: bool, message: Message<F, G, T>) -> bool {
    on_main_thread && (message is Task || message is TaskWithEventLoop)
}

/// What the caller gets when the channel did, or did not, take a command.
pub fn sent<X>(taken: Result<(), X>) -> (r: Result<(), Error>)
    ensures
        r == (match taken {
            Ok(_) => Ok::<(), Error>(()),
            Err(_) => Err::<(), Error>(Error::FailedToSendMessage),
        }),
{
    match taken {
        Ok(_) => Ok(()),
        Err(_) => Err(Error::FailedToSendMessage),
    }
}

/// What a blocked caller gets: the reply, or a failure if the channel did not take the call or
/// the owning thread went away before it replied.
pub fn received<X>(taken: bool, reply: Option<X>) -> (r: Result<X, Error>)
    ensures
        !taken ==> r == Err::<X, Error>(Error::FailedToSendMessage),
        taken ==> r == (match reply {
            Some(x) => Ok::<X, Error>(x),
            None => Err::<X, Error>(Error::FailedToReceiveMessage),
        }),
{
    if !taken {
        return Err(Error::FailedToSendMessage);
    }
    match reply {
        Some(x) => Ok(x),
        None => Err(Error::FailedToReceiveMessage),
    }
}

impl<E> DispatcherMainThreadContext<E> {
    /// Whether `current_thread` is the owning thread.
    pub open spec fn spec_is_main_thread(&self, current_thread: ThreadToken) -> bool {
        current_thread == self.owner()
    }

    /// Whether `routed` is what routing `message` from `current_thread` comes to. A task from
    /// the owning thread has run; anything else is handed back as it came.
    pub open spec fn spec_routed<F: FnOnce(), G: FnOnce(&E), T>(
        &self,
        current_thread: ThreadToken,
        message: Message<F, G, T>,
        routed: Routed<F, G, T>,
    ) -> bool {
        if spec_runs_inline(self.spec_is_main_thread(current_thread), message) {
            &&& routed is Ran
            &&& message matches Message::Task(task) ==> task.ensures((), ())
            &&& message matches Message::TaskWithEventLoop(task) ==> task.ensures(
                (&self.target(),),
                (),
            )
        } else {
            routed == Routed::Enqueue(message)
        }
    }

    /// Whether `current_thread` is the owning thread.
    pub fn is_main_thread(&self, current_thread: ThreadToken) -> (r: bool)
        ensures
            r == self.spec_is_main_thread(current_thread),
    {
        current_thread == self.main_thread_id
    }

    /// Routes a command. Called from the owning thread, a task runs here and now, before this
    /// returns, and never touches the channel; that keeps a callback on the owning thread from
    /// waiting for itself. Every other command comes back to be sent through the channel.
    pub fn send_message<F: FnOnce(), G: FnOnce(&E), T>(
        &self,
        current_thread: ThreadToken,
        message: Message<F, G, T>,
    ) -> (r: Routed<F, G, T>)
        requires
            self.spec_is_main_thread(current_thread) ==> (message matches Message::Task(task)
                ==> task.requires(())),
            self.spec_is_main_thread(current_thread) ==> (message matches Message::TaskWithEventLoop(
                task,
            ) ==> task.requires((&self.target(),))),
        ensures
            self.spec_routed(current_thread, message, r),
    {
        match self.window_target(current_thread) {
            Some(window_target) => match message {
                Message::Task(task) => {
                    task();
                    Routed::Ran
                },
                Message::TaskWithEventLoop(task) => {
                    task(window_target);
                    Routed::Ran
                },
                other => Routed::Enqueue(other),
            },
            None => Routed::Enqueue(message),
        }
    }

    /// Run a task on the main thread. Called from the owning thread, the task has run when this
    /// returns; from any other thread it comes back, to be sent through the channel as a
    /// [`Message::Task`], and is not waited for.
    pub fn run_on_main_thread<F: FnOnce()>(&self, current_thread: ThreadToken, f: F) -> (r:
        RoutedCall<(), F>)
        requires
            self.spec_is_main_thread(current_thread) ==> f.requires(()),
        ensures
            self.spec_is_main_thread(current_thread) ==> r is Returned && f.ensures((), ()),
            !self.spec_is_main_thread(current_thread) ==> r == RoutedCall::<(), F>::Enqueue(f),
    {
        if self.is_main_thread(current_thread) {
            f();
            RoutedCall::Returned(())
        } else {
            RoutedCall::Enqueue(f)
        }
    }

    /// Run a task on the main thread and hand back what it returns. From another thread the
    /// task comes back: the caller sends it through the channel, waits for the reply and
    /// reads the outcome off [`received`].
    pub fn run_on_main_thread_with_event_loop<X, G: FnOnce(&E) -> X>(
        &self,
        current_thread: ThreadToken,
        f: G,
    ) -> (r: RoutedCall<X, G>)
        requires
            self.spec_is_main_thread(current_thread) ==> f.requires((&self.target(),)),
        ensures
            self.spec_is_main_thread(current_thread) ==> (r matches RoutedCall::Returned(x)
                && f.ensures((&self.target(),), x)),
            !self.spec_is_main_thread(current_thread) ==> r == RoutedCall::<X, G>::Enqueue(f),
    {
        match self.window_target(current_thread) {
            Some(window_target) => RoutedCall::Returned(f(window_target)),
            None => RoutedCall::Enqueue(f),
        }
    }
}

} // verus!
