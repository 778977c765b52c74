//! The dispatch context, the window registry and the event loop's decisions.
//!
//! One thread owns the event loop, the windows and the engine. A [`RuntimeContext`] is the
//! state that all dispatchers share: it knows which thread that is, counts identifiers, and
//! keeps the registry of live windows. A [`VersoRuntime`] holds the context together with the
//! loop's control flow and decides, event by event, what the loop does next.
//!
//! What only the outside world can do (send a command through the channel, ask a subscriber
//! whether a window may close, start an engine) is handed back to the caller as a value that
//! says what to do, and the answer comes in through the next call.

use vstd::prelude::*;
use vstd::string::*;
use std::collections::HashMap;
use crate::dispatch::{DispatcherMainThreadContext, Routed, RoutedCall, ThreadToken};
use crate::error::Error;
use crate::ids::{lemma_ids_strictly_increase, spec_counter_after, spec_nth_id, IdGenerator};
use crate::message::{
    exit_prevented, spec_close_vetoed, close_vetoed, spec_exit_prevented,
    ExitRequestedEventAction, Message, RunEvent, WebviewId, WindowEvent, WindowEventId, WindowId,
};
use crate::uri::UriConvention;
use crate::webview::VersoWebviewDispatcher;
use crate::window::{Theme, VersoSettings, VersoWindowBuilder, VersoWindowDispatcher, Window};

verus! {

broadcast use vstd::std_specs::hash::group_hash_axioms;

/// The state that all dispatchers share.
pub struct RuntimeContext<C, L, E> {
    windows: HashMap<WindowId, Window<C, L>>,
    prefered_theme: Option<Theme>,
    // This must only be used on main thread
    main_thread: DispatcherMainThreadContext<E>,
    convention: UriConvention,
    next_window_id: IdGenerator,
    next_webview_id: IdGenerator,
    next_window_event_id: IdGenerator,
    next_webview_event_id: IdGenerator,
}

/// What a [`RuntimeContext`] holds.
pub struct RuntimeContextView<C, L, E> {
    /// The registry: the live windows by identifier.
    pub windows: Map<WindowId, Window<C, L>>,
    pub prefered_theme: Option<Theme>,
    pub main_thread: DispatcherMainThreadContext<E>,
    pub convention: UriConvention,
    /// The identifier that the next window gets.
    pub next_window_id: u32,
    pub next_webview_id: u32,
    pub next_window_event_id: u32,
    pub next_webview_event_id: u32,
}

impl<C, L, E> View for RuntimeContext<C, L, E> {
    type V = RuntimeContextView<C, L, E>;

    closed spec fn view(&self) -> RuntimeContextView<C, L, E> {
        RuntimeContextView {
            windows: self.windows@,
            prefered_theme: self.prefered_theme,
            main_thread: self.main_thread,
            convention: self.convention,
            next_window_id: self.next_window_id@,
            next_webview_id: self.next_webview_id@,
            next_window_event_id: self.next_window_event_id@,
            next_webview_event_id: self.next_webview_event_id@,
        }
    }
}

impl<C, L, E> RuntimeContext<C, L, E> {
    /// A context with no windows, owned by the thread that `main_thread` names.
    pub fn new(main_thread: DispatcherMainThreadContext<E>, convention: UriConvention) -> (r: Self)
        ensures
            r@ == (RuntimeContextView {
                windows: Map::<WindowId, Window<C, L>>::empty(),
                prefered_theme: None,
                main_thread,
                convention,
                next_window_id: 0,
                next_webview_id: 0,
                next_window_event_id: 0,
                next_webview_event_id: 0,
            }),
    {
        RuntimeContext {
            windows: HashMap::new(),
            prefered_theme: None,
            main_thread,
            convention,
            next_window_id: IdGenerator::new(),
            next_webview_id: IdGenerator::new(),
            next_window_event_id: IdGenerator::new(),
            next_webview_event_id: IdGenerator::new(),
        }
    }

    /// Whether `current_thread` is the owning thread.
    pub open spec fn spec_is_main_thread(&self, current_thread: ThreadToken) -> bool {
        self@.main_thread.spec_is_main_thread(current_thread)
    }

    /// What is bound to the owning thread. Routing goes by this alone, so a caller that
    /// shares the context under a lock can route through a copy of it without the lock.
    pub fn main_thread(&self) -> (r: &DispatcherMainThreadContext<E>)
        ensures
            *r == self@.main_thread,
    {
        &self.main_thread
    }

    /// Whether `current_thread` is the owning thread.
    pub fn is_main_thread(&self, current_thread: ThreadToken) -> (r: bool)
        ensures
            r == self.spec_is_main_thread(current_thread),
    {
        self.main_thread.is_main_thread(current_thread)
    }

    /// Routes a command. Called from the owning thread, a task runs here and now, before this
    /// returns, and never touches the channel; that keeps a callback on the owning thread from
    /// waiting for itself. Every other command comes back to be sent through the channel.
    pub fn send_message<F: FnOnce(), G: FnOnce(&E), T>(
        &self,
        current_thread: ThreadToken,
        message: Message<F, G, T>,
    ) -> (r: Routed<F, G, T>)
        requires
            self.spec_is_main_thread(current_thread) ==> (message matches Message::Task(task)
                ==> task.requires(())),
            self.spec_is_main_thread(current_thread) ==> (message matches Message::TaskWithEventLoop(
                task,
            ) ==> task.requires((&self@.main_thread.target(),))),
        ensures
            self@.main_thread.spec_routed(current_thread, message, r),
    {
        self.main_thread.send_message(current_thread, message)
    }

    /// Run a task on the main thread. Called from the owning thread, the task has run when this
    /// returns; from any other thread it comes back, to be sent through the channel as a
    /// [`Message::Task`], and is not waited for.
    pub fn run_on_main_thread<F: FnOnce()>(&self, current_thread: ThreadToken, f: F) -> (r:
        RoutedCall<(), F>)
        requires
            self.spec_is_main_thread(current_thread) ==> f.requires(()),
        ensures
            self.spec_is_main_thread(current_thread) ==> r is Returned && f.ensures((), ()),
            !self.spec_is_main_thread(current_thread) ==> r == RoutedCall::<(), F>::Enqueue(f),
    {
        self.main_thread.run_on_main_thread(current_thread, f)
    }

    /// Run a task on the main thread and hand back what it returns. From another thread the
    /// task comes back: the caller sends it through the channel, waits for the reply and
    /// reads the outcome off [`received`](crate::dispatch::received).
    pub fn run_on_main_thread_with_event_loop<X, G: FnOnce(&E) -> X>(
        &self,
        current_thread: ThreadToken,
        f: G,
    ) -> (r: RoutedCall<X, G>)
        requires
            self.spec_is_main_thread(current_thread) ==> f.requires(
                (&self@.main_thread.target(),),
            ),
        ensures
            self.spec_is_main_thread(current_thread) ==> (r matches RoutedCall::Returned(x)
                && f.ensures((&self@.main_thread.target(),), x)),
            !self.spec_is_main_thread(current_thread) ==> r == RoutedCall::<X, G>::Enqueue(f),
    {
        self.main_thread.run_on_main_thread_with_event_loop(current_thread, f)
    }

    pub fn next_window_id(&mut self) -> (id: WindowId)
        ensures
            id == old(self)@.next_window_id,
            final(self)@ == (RuntimeContextView {
                next_window_id: spec_counter_after(old(self)@.next_window_id),
                ..old(self)@
            }),
    {
        self.next_window_id.next()
    }

    pub fn next_webview_id(&mut self) -> (id: WebviewId)
        ensures
            id == old(self)@.next_webview_id,
            final(self)@ == (RuntimeContextView {
                next_webview_id: spec_counter_after(old(self)@.next_webview_id),
                ..old(self)@
            }),
    {
        self.next_webview_id.next()
    }

    pub fn next_window_event_id(&mut self) -> (id: WindowEventId)
        ensures
            id == old(self)@.next_window_event_id,
            final(self)@ == (RuntimeContextView {
                next_window_event_id: spec_counter_after(old(self)@.next_window_event_id),
                ..old(self)@
            }),
    {
        self.next_window_event_id.next()
    }

    /// Subscribes `handler` to the events of a window whose subscribers are `listeners`. The
    /// subscription gets the next identifier, under which the handler is then found.
    pub fn subscribe<H>(
        &mut self,
        listeners: &mut HashMap<WindowEventId, H>,
        handler: H,
    ) -> (id: WindowEventId)
        ensures
            id == old(self)@.next_window_event_id,
            final(self)@ == (RuntimeContextView {
                next_window_event_id: spec_counter_after(old(self)@.next_window_event_id),
                ..old(self)@
            }),
            final(listeners)@ == old(listeners)@.insert(id, handler),
    {
        let id = self.next_window_event_id();
        listeners.insert(id, handler);
        id
    }

    pub fn next_webview_event_id(&mut self) -> (id: WindowEventId)
        ensures
            id == old(self)@.next_webview_event_id,
            final(self)@ == (RuntimeContextView {
                next_webview_event_id: spec_counter_after(old(self)@.next_webview_event_id),
                ..old(self)@
            }),
    {
        self.next_webview_event_id.next()
    }
}

/// The webview that a window is to show.
#[derive(Clone, Debug, PartialEq)]
pub struct PendingWebview {
    /// Where the webview starts.
    pub url: String,
    /// Scripts to run in every page before its own.
    pub initialization_scripts: Vec<String>,
    /// The names of the custom protocols that have a handler.
    pub uri_scheme_protocols: Vec<String>,
    pub use_https_scheme: bool,
}

/// A window that is to be created.
#[derive(Clone, Debug, PartialEq)]
pub struct PendingWindow<N> {
    pub label: String,
    pub window_builder: VersoWindowBuilder<N>,
    /// The content. A window without content cannot be created.
    pub webview: Option<PendingWebview>,
}

/// All that is needed to start the engine for a new window. The window is not registered yet:
/// once the engine runs, [`RuntimeContext::register_window`] does that.
#[derive(Clone, Debug, PartialEq)]
pub struct WindowLaunch<N> {
    pub window_id: WindowId,
    pub webview_id: WebviewId,
    pub label: String,
    pub window_builder: VersoWindowBuilder<N>,
    pub url: String,
    pub user_scripts: Vec<String>,
    pub custom_protocols: Vec<String>,
    pub use_https_scheme: bool,
    /// How requests for the custom protocols will be addressed.
    pub convention: UriConvention,
}

impl<N> WindowLaunch<N> {
    /// The command that the engine's close-request hook sends when the user asks to close the
    /// window: close this window unless somebody objects.
    pub fn close_requested<F, G, T>(&self) -> (r: Message<F, G, T>)
        ensures
            r == Message::<F, G, T>::CloseWindow(self.window_id),
    {
        Message::CloseWindow(self.window_id)
    }
}

/// The webview half of a [`DetachedWindow`].
#[derive(Clone, Debug, PartialEq)]
pub struct DetachedWebview<C> {
    pub label: String,
    pub dispatcher: VersoWebviewDispatcher<C>,
}

/// A webview together with the scheme its window reports.
#[derive(Clone, Debug, PartialEq)]
pub struct DetachedWindowWebview<C> {
    pub webview: DetachedWebview<C>,
    pub use_https_scheme: bool,
}

/// A window that exists, with the handles to drive it.
#[derive(Clone, Debug, PartialEq)]
pub struct DetachedWindow<C, L> {
    pub id: WindowId,
    pub label: String,
    pub dispatcher: VersoWindowDispatcher<C, L>,
    pub webview: Option<DetachedWindowWebview<C>>,
}

/// Whether the `url` crate's parser accepts `text` as an absolute URL.
pub uninterp spec fn url_parses(text: Seq<char>) -> bool;

#[verifier::external_type_specification]
#[verifier::external_body]
pub struct ExUrl(url::Url);

#[verifier::external_type_specification]
#[verifier::external_body]
pub struct ExUrlParseError(url::ParseError);

/// Calls `url::Url::parse`. The parser reads nothing but `text`, so whether it accepts is a
/// fixed property of `text`, which the contract names [`url_parses`]. Nothing is claimed
/// about the parsed value.
#[verifier::external_body]
fn parse_url(text: &str) -> (r: Result<url::Url, url::ParseError>)
    ensures
        r is Ok <==> url_parses(text@),
{
    url::Url::parse(text)
}

/// Whether a pending window can be created: it has content, and the content's address is a URL.
pub open spec fn spec_can_create<N>(pending: PendingWindow<N>) -> bool {
    pending.webview matches Some(webview) && url_parses(webview.url@)
}

/// `builder` with the runtime's preferred theme where it asks for none itself.
pub open spec fn spec_with_prefered_theme<N>(
    builder: VersoWindowBuilder<N>,
    prefered_theme: Option<Theme>,
) -> VersoWindowBuilder<N> {
    if builder.verso_builder.theme is None {
        VersoWindowBuilder {
            verso_builder: VersoSettings { theme: prefered_theme, ..builder.verso_builder },
            ..builder
        }
    } else {
        builder
    }
}

/// The launch of a window with this label, builder and content, from a context that stands
/// at `before`.
pub open spec fn spec_launch<C, L, E, N>(
    before: RuntimeContextView<C, L, E>,
    label: String,
    window_builder: VersoWindowBuilder<N>,
    webview: PendingWebview,
) -> WindowLaunch<N> {
    WindowLaunch {
        window_id: before.next_window_id,
        webview_id: before.next_webview_id,
        label,
        window_builder: spec_with_prefered_theme(window_builder, before.prefered_theme),
        url: webview.url,
        user_scripts: webview.initialization_scripts,
        custom_protocols: webview.uri_scheme_protocols,
        use_https_scheme: webview.use_https_scheme,
        convention: before.convention,
    }
}

/// The context after a launch: one window identifier and one webview identifier are taken.
pub open spec fn spec_after_launch<C, L, E>(before: RuntimeContextView<C, L, E>) -> RuntimeContextView<
    C,
    L,
    E,
> {
    RuntimeContextView {
        next_window_id: spec_counter_after(before.next_window_id),
        next_webview_id: spec_counter_after(before.next_webview_id),
        ..before
    }
}

/// What a close or destroy request comes to.
#[derive(Debug, PartialEq)]
pub enum CloseStep<C, L> {
    /// The window is not in the registry. Nothing happens and nobody is told.
    Ignored,
    /// The window's subscribers and the host are to be asked whether it may close. Their
    /// answers go to [`RuntimeContext::resolve_close_request`]. Until then the window lives.
    VetoSolicited { id: WindowId, label: String, on_window_event_listeners: L },
    /// Somebody objected. The window lives on as before.
    Vetoed,
    /// The window is out of the registry, and what the registry held of it is handed over.
    /// If no window is left, `exit_requested` is set, and the host is to be asked whether the
    /// loop may end.
    Destroyed { window: Window<C, L>, exit_requested: bool },
}

/// One thing to do in carrying out a [`CloseStep`].
#[derive(Clone, Copy, Debug, PartialEq, Eq, Structural)]
pub enum CloseEffect {
    /// Tell every subscriber of the window that its close is requested, and collect what they
    /// answer.
    AskSubscribers,
    /// Tell the host that the window's close is requested, and collect what it answers.
    AskHost,
    /// Tell the host that the window is destroyed.
    TellDestroyed,
    /// Drop the window's subscribers. They may hold the window's handles, and while they do,
    /// nothing of the window can go.
    ClearSubscribers,
    /// See whether anything still holds the engine's controller, and act on
    /// [`engine_disposal`](crate::engine::engine_disposal).
    DisposeEngine,
    /// Ask the host whether the loop may end, with the event that
    /// [`CloseStep::exit_request`] gives, and take its answer to
    /// [`VersoRuntime::resolve_exit_request`].
    RequestExit,
}

impl<C, L> CloseStep<C, L> {
    /// What is to be done in carrying out this step, in this order.
    pub open spec fn spec_effects(self) -> Seq<CloseEffect> {
        match self {
            CloseStep::Ignored => Seq::empty(),
            CloseStep::Vetoed => Seq::empty(),
            CloseStep::VetoSolicited { .. } => seq![
                CloseEffect::AskSubscribers,
                CloseEffect::AskHost,
            ],
            CloseStep::Destroyed { exit_requested, .. } => if exit_requested {
                seq![
                    CloseEffect::TellDestroyed,
                    CloseEffect::ClearSubscribers,
                    CloseEffect::DisposeEngine,
                    CloseEffect::RequestExit,
                ]
            } else {
                seq![
                    CloseEffect::TellDestroyed,
                    CloseEffect::ClearSubscribers,
                    CloseEffect::DisposeEngine,
                ]
            },
        }
    }

    /// What is to be done in carrying out this step, in this order.
    pub fn effects(&self) -> (r: Vec<CloseEffect>)
        ensures
            r@ == self.spec_effects(),
    {
        let mut effects: Vec<CloseEffect> = Vec::new();
        match self {
            CloseStep::Ignored => {},
            CloseStep::Vetoed => {},
            CloseStep::VetoSolicited { .. } => {
                effects.push(CloseEffect::AskSubscribers);
                effects.push(CloseEffect::AskHost);
            },
            CloseStep::Destroyed { exit_requested, .. } => {
                effects.push(CloseEffect::TellDestroyed);
                effects.push(CloseEffect::ClearSubscribers);
                effects.push(CloseEffect::DisposeEngine);
                if *exit_requested {
                    effects.push(CloseEffect::RequestExit);
                }
            },
        }
        effects
    }

    /// How many `Destroyed` events this step fires.
    pub open spec fn spec_destroyed_events(self) -> nat {
        if self is Destroyed {
            1
        } else {
            0
        }
    }

    /// How many `ExitRequested` events this step fires.
    pub open spec fn spec_exit_requests(self) -> nat {
        if self matches CloseStep::Destroyed { exit_requested, .. } && exit_requested {
            1
        } else {
            0
        }
    }

    /// How many times this step has subscribers asked.
    pub open spec fn spec_solicitations(self) -> nat {
        if self is VetoSolicited {
            1
        } else {
            0
        }
    }

    /// What this step asks the host about the loop, if anything: when the last window has
    /// gone, whether the loop may end, with no exit code of anybody's choosing.
    pub fn exit_request<T>(&self) -> (r: Option<RunEvent<T>>)
        ensures
            r == (if self.spec_exit_requests() == 1 {
                Some(RunEvent::<T>::ExitRequested { code: None })
            } else {
                None
            }),
    {
        match self {
            CloseStep::Destroyed { exit_requested, .. } => if *exit_requested {
                Some(RunEvent::ExitRequested { code: None })
            } else {
                None
            },
            _ => None,
        }
    }

    /// What this step tells the host about the window, if anything.
    pub fn window_event(&self) -> (r: Option<(&str, WindowEvent)>)
        ensures
            match *self {
                CloseStep::VetoSolicited { label, .. } => r matches Some((l, event)) && l@
                    == label@ && event == WindowEvent::CloseRequested,
                CloseStep::Destroyed { window, .. } => r matches Some((l, event)) && l@
                    == window.label@ && event == WindowEvent::Destroyed,
                _ => r is None,
            },
    {
        match self {
            CloseStep::VetoSolicited { label, .. } => Some(
                (label.as_str(), WindowEvent::CloseRequested),
            ),
            CloseStep::Destroyed { window, .. } => Some(
                (window.label.as_str(), WindowEvent::Destroyed),
            ),
            _ => None,
        }
    }
}

/// The context with window `id` out of the registry.
pub open spec fn spec_without_window<C, L, E>(
    before: RuntimeContextView<C, L, E>,
    id: WindowId,
) -> RuntimeContextView<C, L, E> {
    RuntimeContextView { windows: before.windows.remove(id), ..before }
}

/// Whether `step` is what destroying window `id` of `before` comes to, and `after` the context
/// that it leaves.
pub open spec fn spec_destroys<C, L, E>(
    before: RuntimeContextView<C, L, E>,
    after: RuntimeContextView<C, L, E>,
    id: WindowId,
    step: CloseStep<C, L>,
) -> bool {
    &&& after == spec_without_window(before, id)
    &&& step matches CloseStep::Destroyed { window, exit_requested }
    &&& window == before.windows[id]
    &&& exit_requested == after.windows.dom().is_empty()
}

/// Whether `step` is what settling a close request for window `id` comes to, when the answers
/// were `signals`, and `after` the context that it leaves.
pub open spec fn spec_close_resolved<C, L, E>(
    before: RuntimeContextView<C, L, E>,
    after: RuntimeContextView<C, L, E>,
    id: WindowId,
    signals: Seq<bool>,
    step: CloseStep<C, L>,
) -> bool {
    if !before.windows.contains_key(id) {
        step is Ignored && after == before
    } else if spec_close_vetoed(signals) {
        step is Vetoed && after == before
    } else {
        spec_destroys(before, after, id, step)
    }
}

/// Whether `step` is what a close request for window `id` comes to, and `after` the context
/// that it leaves.
pub open spec fn spec_close_requested<C, L: Clone, E>(
    before: RuntimeContextView<C, L, E>,
    after: RuntimeContextView<C, L, E>,
    id: WindowId,
    force: bool,
    step: CloseStep<C, L>,
) -> bool {
    if !before.windows.contains_key(id) {
        step is Ignored && after == before
    } else if force {
        spec_destroys(before, after, id, step)
    } else {
        &&& after == before
        &&& step matches CloseStep::VetoSolicited { id: asked, label, on_window_event_listeners }
        &&& asked == id
        &&& label == before.windows[id].label
        &&& cloned(before.windows[id].on_window_event_listeners, on_window_event_listeners)
    }
}

impl<C, L, E> RuntimeContext<C, L, E> {
    /// The theme that windows get when their builder asks for none.
    pub fn prefered_theme(&self) -> (r: Option<Theme>)
        ensures
            r == self@.prefered_theme,
    {
        self.prefered_theme
    }

    /// Sets the theme that windows get when their builder asks for none. The windows that
    /// exist are not touched here: the caller passes the theme on to each of their engines.
    pub fn set_theme(&mut self, theme: Option<Theme>)
        ensures
            final(self)@ == (RuntimeContextView { prefered_theme: theme, ..old(self)@ }),
    {
        self.prefered_theme = theme;
    }

    /// How custom protocols are addressed.
    pub fn convention(&self) -> (r: UriConvention)
        ensures
            r == self@.convention,
    {
        self.convention
    }

    /// Whether window `id` is in the registry.
    pub fn has_window(&self, id: WindowId) -> (r: bool)
        ensures
            r == self@.windows.contains_key(id),
    {
        self.windows.contains_key(&id)
    }

    /// The window `id`, if it is in the registry.
    pub fn window(&self, id: WindowId) -> (r: Option<&Window<C, L>>)
        ensures
            r is Some <==> self@.windows.contains_key(id),
            r matches Some(window) ==> *window == self@.windows[id],
    {
        self.windows.get(&id)
    }

    /// The registry.
    pub fn windows(&self) -> (r: &HashMap<WindowId, Window<C, L>>)
        ensures
            r@ == self@.windows,
    {
        &self.windows
    }

    /// How many windows are in the registry.
    pub fn window_count(&self) -> (r: usize)
        ensures
            r == self@.windows.dom().len(),
    {
        self.windows.len()
    }

    /// Takes the identifiers for a new window and puts together what its engine is started
    /// with. The builder gets the runtime's preferred theme if it asks for none.
    pub fn launch_window<N>(
        &mut self,
        label: String,
        window_builder: VersoWindowBuilder<N>,
        webview: PendingWebview,
    ) -> (launch: WindowLaunch<N>)
        ensures
            launch == spec_launch(old(self)@, label, window_builder, webview),
            final(self)@ == spec_after_launch(old(self)@),
    {
        let window_id = self.next_window_id();
        let webview_id = self.next_webview_id();
        let mut window_builder = window_builder;
        if window_builder.get_theme().is_none() {
            window_builder = window_builder.theme(self.prefered_theme);
        }
        WindowLaunch {
            window_id,
            webview_id,
            label,
            window_builder,
            url: webview.url,
            user_scripts: webview.initialization_scripts,
            custom_protocols: webview.uri_scheme_protocols,
            use_https_scheme: webview.use_https_scheme,
            convention: self.convention,
        }
    }

    /// Begins the creation of a window.
    ///
    /// Only a window with a webview can be created, and the webview's address has to be a URL:
    /// anything else is refused with [`Error::CreateWindow`], and then nothing has changed,
    /// no identifier is taken. Otherwise the result says how to start the engine, with the
    /// identifiers that the window and its webview will have.
    pub fn create_window<N>(&mut self, pending: PendingWindow<N>) -> (r: Result<
        WindowLaunch<N>,
        Error,
    >)
        ensures
            r is Ok <==> spec_can_create(pending),
            r is Err ==> r == Err::<WindowLaunch<N>, Error>(Error::CreateWindow) && final(self)@
                == old(self)@,
            r matches Ok(launch) ==> launch == spec_launch(
                old(self)@,
                pending.label,
                pending.window_builder,
                pending.webview->0,
            ) && final(self)@ == spec_after_launch(old(self)@),
    {
        let label = pending.label;
        let pending_webview = match pending.webview {
            Some(webview) => webview,
            None => {
                return Err(Error::CreateWindow);
            },
        };
        match parse_url(pending_webview.url.as_str()) {
            Ok(_) => {},
            Err(_) => {
                return Err(Error::CreateWindow);
            },
        }
        Ok(self.launch_window(label, pending.window_builder, pending_webview))
    }

    /// Creating a webview apart from its window is not supported.
    pub fn create_webview(&self) -> (r: Result<(), Error>)
        ensures
            r == Err::<(), Error>(Error::CreateWindow),
    {
        Err(Error::CreateWindow)
    }
}

/// Whether `after` is `before` with one window more: `window_id` was not in the registry and
/// now is, under `label`, sharing `webview` and `listeners`, and nothing else has changed.
pub open spec fn spec_registered<C: Clone, L: Clone, E>(
    before: RuntimeContextView<C, L, E>,
    after: RuntimeContextView<C, L, E>,
    window_id: WindowId,
    label: String,
    webview: C,
    listeners: L,
) -> bool {
    &&& !before.windows.contains_key(window_id)
    &&& after.windows.contains_key(window_id)
    &&& after.windows[window_id].label == label
    &&& cloned(webview, after.windows[window_id].webview)
    &&& cloned(listeners, after.windows[window_id].on_window_event_listeners)
    &&& after == (RuntimeContextView {
        windows: before.windows.insert(window_id, after.windows[window_id]),
        ..before
    })
    &&& after.windows.dom().len() == before.windows.dom().len() + 1
}

/// Whether `detached` bundles the handles of the window `window_id` with the webview
/// `webview_id`, which share `webview` and `listeners`.
pub open spec fn spec_detached<C: Clone, L>(
    detached: DetachedWindow<C, L>,
    window_id: WindowId,
    webview_id: WebviewId,
    label: String,
    webview: C,
    listeners: L,
) -> bool {
    &&& detached.id == window_id
    &&& detached.label == label
    &&& detached.dispatcher.id == window_id
    &&& cloned(webview, detached.dispatcher.webview)
    &&& detached.dispatcher.on_window_event_listeners == listeners
    &&& detached.webview matches Some(window_webview)
    &&& !window_webview.use_https_scheme
    &&& window_webview.webview.label == label
    &&& window_webview.webview.dispatcher.id == webview_id
    &&& window_webview.webview.dispatcher.webview == webview
}

impl<C: Clone, L: Clone, E> RuntimeContext<C, L, E> {
    /// Ends the creation of a window.
    ///
    /// `engine` holds the controller of the engine that was started and the window's
    /// subscribers, or `None` if the engine could not be started or would not take the
    /// runtime's interceptors. In that case the window is refused with
    /// [`Error::CreateWindow`] and the registry stays as it is. So it is where the registry
    /// already holds a window under `window_id`: a live window is never replaced. Otherwise
    /// the window enters the registry under `window_id`, which grows by that one entry, and
    /// the result bundles the handles that drive it; registry and handles share the
    /// controller and the subscribers.
    pub fn register_window(
        &mut self,
        window_id: WindowId,
        webview_id: WebviewId,
        label: String,
        engine: Option<(C, L)>,
    ) -> (r: Result<DetachedWindow<C, L>, Error>)
        ensures
            r is Ok <==> engine is Some && !old(self)@.windows.contains_key(window_id),
            r is Err ==> r == Err::<DetachedWindow<C, L>, Error>(Error::CreateWindow)
                && final(self)@ == old(self)@,
            r matches Ok(detached) ==> {
                &&& engine matches Some((webview, listeners))
                &&& spec_detached(detached, window_id, webview_id, label, webview, listeners)
                &&& spec_registered(
                    old(self)@,
                    final(self)@,
                    window_id,
                    label,
                    webview,
                    listeners,
                )
            },
    {
        let (webview, on_window_event_listeners) = match engine {
            Some(engine) => engine,
            None => {
                return Err(Error::CreateWindow);
            },
        };
        if self.windows.contains_key(&window_id) {
            return Err(Error::CreateWindow);
        }
        let window = Window {
            label: label.clone(),
            webview: webview.clone(),
            on_window_event_listeners: on_window_event_listeners.clone(),
        };
        self.windows.insert(window_id, window);
        Ok(
            DetachedWindow {
                id: window_id,
                label: label.clone(),
                dispatcher: VersoWindowDispatcher {
                    id: window_id,
                    webview: webview.clone(),
                    on_window_event_listeners,
                },
                webview: Some(
                    DetachedWindowWebview {
                        webview: DetachedWebview {
                            label,
                            dispatcher: VersoWebviewDispatcher { id: webview_id, webview },
                        },
                        use_https_scheme: false,
                    },
                ),
            },
        )
    }
}

impl<C, L, E> RuntimeContext<C, L, E> {
    /// Takes window `id` out of the registry, which holds it.
    fn destroy_window(&mut self, id: WindowId) -> (r: CloseStep<C, L>)
        requires
            old(self)@.windows.contains_key(id),
        ensures
            spec_destroys(old(self)@, final(self)@, id, r),
    {
        match self.windows.remove(&id) {
            Some(window) => {
                let exit_requested = self.windows.is_empty();
                CloseStep::Destroyed { window, exit_requested }
            },
            None => CloseStep::Ignored,
        }
    }

    /// Settles a close request with the answers that the window's subscribers and the host
    /// gave. If any of them objects, the window lives on and nothing has changed. Otherwise
    /// the window is destroyed. A window that is no longer in the registry is passed over.
    pub fn resolve_close_request(&mut self, id: WindowId, signals: &Vec<bool>) -> (r: CloseStep<
        C,
        L,
    >)
        ensures
            spec_close_resolved(old(self)@, final(self)@, id, signals@, r),
    {
        if !self.windows.contains_key(&id) {
            return CloseStep::Ignored;
        }
        if close_vetoed(signals) {
            return CloseStep::Vetoed;
        }
        self.destroy_window(id)
    }
}

impl<C, L: Clone, E> RuntimeContext<C, L, E> {
    /// Handles a request to close window `id`.
    ///
    /// A window that is not in the registry is passed over in silence: the request may have
    /// been under way while the window went. With `force` the window is destroyed at once.
    /// Without it the window stays, and the result names the subscribers that are to be asked,
    /// with the host, whether it may close.
    pub fn handle_close_window_request(&mut self, id: WindowId, force: bool) -> (r: CloseStep<
        C,
        L,
    >)
        ensures
            spec_close_requested(old(self)@, final(self)@, id, force, r),
    {
        let (label, on_window_event_listeners) = match self.windows.get(&id) {
            Some(window) => (window.label.clone(), window.on_window_event_listeners.clone()),
            None => {
                return CloseStep::Ignored;
            },
        };
        if !force {
            return CloseStep::VetoSolicited { id, label, on_window_event_listeners };
        }
        self.destroy_window(id)
    }
}

/// Whether the event loop goes on waiting for events or ends.
#[derive(Clone, Copy, Debug, PartialEq, Eq, Structural)]
pub enum ControlFlow {
    /// The loop runs, and sleeps until the next event.
    Wait,
    /// The loop ends. There is no way back.
    Exit,
}

/// What the event loop brings.
#[derive(Debug, PartialEq)]
pub enum LoopEvent<F, G, T> {
    /// The loop has started.
    Init,
    /// The loop woke up to poll.
    Poll,
    /// Everything that was pending has been handled.
    MainEventsCleared,
    /// The loop has ended.
    LoopDestroyed,
    /// A command came through the channel.
    UserEvent(Message<F, G, T>),
    /// Anything else. The runtime has no use for it.
    Other,
}

/// What the loop is to do about an event.
#[derive(Debug, PartialEq)]
pub enum Reaction<F, G, T, C, L> {
    Nothing,
    /// A closure to run.
    RunTask(F),
    /// A closure to run with the event loop at hand.
    RunTaskWithEventLoop(G),
    /// Tell the host.
    Callback(RunEvent<T>),
    /// Carry out this step of closing a window.
    Close(CloseStep<C, L>),
    /// Ask the host whether the loop may end, and take its answer to
    /// [`VersoRuntime::resolve_exit_request`].
    ExitSolicited { code: Option<i32> },
}

/// The control flow after the host has answered an exit request: the loop ends unless the
/// host objects, and a loop that has ended stays ended.
pub open spec fn spec_flow_after_exit_answer(
    flow: ControlFlow,
    answer: Option<ExitRequestedEventAction>,
) -> ControlFlow {
    if spec_exit_prevented(answer) {
        flow
    } else {
        ControlFlow::Exit
    }
}

/// Whether `reaction` is what the loop is to do about `event`, and `after` the context that
/// it leaves.
pub open spec fn spec_reacts<F, G, T, C, L: Clone, E>(
    before: RuntimeContextView<C, L, E>,
    after: RuntimeContextView<C, L, E>,
    event: LoopEvent<F, G, T>,
    reaction: Reaction<F, G, T, C, L>,
) -> bool {
    match event {
        LoopEvent::Init => after == before && reaction == Reaction::<F, G, T, C, L>::Callback(
            RunEvent::Ready,
        ),
        LoopEvent::Poll => after == before && reaction == Reaction::<F, G, T, C, L>::Callback(
            RunEvent::Resumed,
        ),
        LoopEvent::MainEventsCleared => after == before && reaction == Reaction::<
            F,
            G,
            T,
            C,
            L,
        >::Callback(RunEvent::MainEventsCleared),
        LoopEvent::LoopDestroyed => after == before && reaction == Reaction::<
            F,
            G,
            T,
            C,
            L,
        >::Callback(RunEvent::Exit),
        LoopEvent::UserEvent(Message::Task(task)) => after == before && reaction == Reaction::<
            F,
            G,
            T,
            C,
            L,
        >::RunTask(task),
        LoopEvent::UserEvent(Message::TaskWithEventLoop(task)) => after == before && reaction
            == Reaction::<F, G, T, C, L>::RunTaskWithEventLoop(task),
        LoopEvent::UserEvent(Message::CloseWindow(id)) => reaction matches Reaction::Close(step)
            && spec_close_requested(before, after, id, false, step),
        LoopEvent::UserEvent(Message::DestroyWindow(id)) => reaction matches Reaction::Close(
            step,
        ) && spec_close_requested(before, after, id, true, step),
        LoopEvent::UserEvent(Message::RequestExit(code)) => after == before && reaction
            == Reaction::<F, G, T, C, L>::ExitSolicited { code: Some(code) },
        LoopEvent::UserEvent(Message::UserEvent(event)) => after == before && reaction
            == Reaction::<F, G, T, C, L>::Callback(RunEvent::UserEvent(event)),
        LoopEvent::Other => after == before && reaction is Nothing,
    }
}

/// The runtime: the shared context, and the control flow of the loop that drives it.
pub struct VersoRuntime<C, L, E> {
    pub context: RuntimeContext<C, L, E>,
    pub control_flow: ControlFlow,
}

impl<C, L, E> VersoRuntime<C, L, E> {
    /// A runtime whose loop runs, with no windows, owned by the thread `main_thread_id`.
    pub fn init(main_thread_id: ThreadToken, window_target: E, convention: UriConvention) -> (r:
        Self)
        ensures
            r.control_flow == ControlFlow::Wait,
            r.context@ == (RuntimeContextView {
                windows: Map::<WindowId, Window<C, L>>::empty(),
                prefered_theme: None,
                main_thread: r.context@.main_thread,
                convention,
                next_window_id: 0,
                next_webview_id: 0,
                next_window_event_id: 0,
                next_webview_event_id: 0,
            }),
            r.context@.main_thread.owner() == main_thread_id,
            r.context@.main_thread.target() == window_target,
    {
        let main_thread = DispatcherMainThreadContext::new(main_thread_id, window_target);
        VersoRuntime {
            context: RuntimeContext::new(main_thread, convention),
            control_flow: ControlFlow::Wait,
        }
    }

    /// Settles an exit request with the host's answer, and says whether the loop ends.
    /// Without an objection it does, whether or not windows are left; with one it runs on,
    /// be it without a single window.
    pub fn resolve_exit_request(&mut self, answer: Option<ExitRequestedEventAction>) -> (exit:
        bool)
        ensures
            exit == !spec_exit_prevented(answer),
            final(self).control_flow == spec_flow_after_exit_answer(old(self).control_flow, answer),
            final(self).context == old(self).context,
    {
        let should_prevent = exit_prevented(answer);
        if !should_prevent {
            self.control_flow = ControlFlow::Exit;
        }
        !should_prevent
    }
}

impl<C, L: Clone, E> VersoRuntime<C, L, E> {
    /// Handles one event of the loop, on the owning thread.
    ///
    /// A request to close or destroy a window is taken as far as it goes without asking
    /// anybody. For everything else the result says what to run, whom to tell or whom to ask.
    /// Tasks come back to be run by the caller, who by then has let go of the runtime, so that
    /// a task is free to use it. The control flow is not touched: only the answer to an exit
    /// request ends the loop.
    pub fn handle_event<F, G, T>(&mut self, event: LoopEvent<F, G, T>) -> (r: Reaction<
        F,
        G,
        T,
        C,
        L,
    >)
        ensures
            spec_reacts(old(self).context@, final(self).context@, event, r),
            final(self).control_flow == old(self).control_flow,
    {
        match event {
            LoopEvent::Init => Reaction::Callback(RunEvent::Ready),
            LoopEvent::Poll => Reaction::Callback(RunEvent::Resumed),
            LoopEvent::MainEventsCleared => Reaction::Callback(RunEvent::MainEventsCleared),
            LoopEvent::LoopDestroyed => Reaction::Callback(RunEvent::Exit),
            LoopEvent::UserEvent(user_event) => match user_event {
                Message::Task(task) => Reaction::RunTask(task),
                Message::TaskWithEventLoop(task) => Reaction::RunTaskWithEventLoop(task),
                Message::CloseWindow(id) => Reaction::Close(
                    self.context.handle_close_window_request(id, false),
                ),
                Message::DestroyWindow(id) => Reaction::Close(
                    self.context.handle_close_window_request(id, true),
                ),
                Message::RequestExit(code) => Reaction::ExitSolicited { code: Some(code) },
                Message::UserEvent(user_event) => Reaction::Callback(
                    RunEvent::UserEvent(user_event),
                ),
            },
            LoopEvent::Other => Reaction::Nothing,
        }
    }
}

/// The identifier of the window that is launched after `n` others, from a context that stands
/// at `before`.
pub open spec fn spec_window_id_after<C, L, E>(before: RuntimeContextView<C, L, E>, n: nat) -> WindowId {
    spec_nth_id(before.next_window_id, n)
}

/// A launch gives its window the identifier that is next in line, and moves every later
/// launch up by one.
pub proof fn lemma_launch_takes_the_next_window_id<C, L, E, N>(
    before: RuntimeContextView<C, L, E>,
    label: String,
    window_builder: VersoWindowBuilder<N>,
    webview: PendingWebview,
    n: nat,
)
    ensures
        spec_launch(before, label, window_builder, webview).window_id == spec_window_id_after(
            before,
            0,
        ),
        spec_window_id_after(spec_after_launch(before), n) == spec_window_id_after(
            before,
            n + 1,
        ),
{
}

/// Destroying a window gives its identifier to no later window: the counter stays where it is.
pub proof fn lemma_destroy_keeps_the_window_ids<C, L, E>(
    before: RuntimeContextView<C, L, E>,
    id: WindowId,
    n: nat,
)
    ensures
        spec_window_id_after(spec_without_window(before, id), n) == spec_window_id_after(
            before,
            n,
        ),
{
}

/// Window identifiers are pairwise distinct and strictly increasing: of any two launches, the
/// later gets the larger identifier. This holds up to the ceiling of the 32-bit counter.
pub proof fn lemma_window_ids_are_unique<C, L, E>(
    before: RuntimeContextView<C, L, E>,
    earlier: nat,
    later: nat,
)
    requires
        earlier < later,
        before.next_window_id + later <= u32::MAX,
    ensures
        spec_window_id_after(before, earlier) < spec_window_id_after(before, later),
{
    lemma_ids_strictly_increase(before.next_window_id, earlier, later);
}

/// Whether the counter of window identifiers is ahead of the registry: every window in the
/// registry has an identifier below the one that comes next. A context starts so and stays
/// so until the counter reaches its ceiling.
pub open spec fn spec_counter_is_ahead<C, L, E>(view: RuntimeContextView<C, L, E>) -> bool {
    forall|id: WindowId| #[trigger] view.windows.contains_key(id) ==> id < view.next_window_id
}

/// While the counter is ahead, the identifier that a launch takes is new to the registry, so
/// that the registration of the window is not refused on its account.
pub proof fn lemma_launch_is_new_to_the_registry<C, L, E, N>(
    before: RuntimeContextView<C, L, E>,
    label: String,
    window_builder: VersoWindowBuilder<N>,
    webview: PendingWebview,
)
    requires
        spec_counter_is_ahead(before),
    ensures
        !spec_after_launch(before).windows.contains_key(
            spec_launch(before, label, window_builder, webview).window_id,
        ),
{
}

/// The counter stays ahead through a launch and the registration of its window, below the
/// ceiling of the counter.
pub proof fn lemma_counter_stays_ahead<C: Clone, L: Clone, E>(
    before: RuntimeContextView<C, L, E>,
    after: RuntimeContextView<C, L, E>,
    label: String,
    webview: C,
    listeners: L,
)
    requires
        spec_counter_is_ahead(before),
        before.next_window_id < u32::MAX,
        spec_registered(
            spec_after_launch(before),
            after,
            before.next_window_id,
            label,
            webview,
            listeners,
        ),
    ensures
        spec_counter_is_ahead(after),
{
}

/// The counter stays ahead when a window is closed or destroyed, whatever comes of it.
pub proof fn lemma_close_keeps_the_counter_ahead<C, L: Clone, E>(
    before: RuntimeContextView<C, L, E>,
    after: RuntimeContextView<C, L, E>,
    id: WindowId,
    force: bool,
    signals: Seq<bool>,
    step: CloseStep<C, L>,
)
    requires
        spec_counter_is_ahead(before),
        spec_close_requested(before, after, id, force, step) || spec_close_resolved(
            before,
            after,
            id,
            signals,
            step,
        ),
    ensures
        spec_counter_is_ahead(after),
{
}

/// After the last window has closed and the host has objected to the exit, the loop runs on
/// with an empty registry, and a window can be created as ever: whether the request is taken
/// depends on the request alone, its registration is not refused, the registry then holds
/// the new window and no other, and the new window's identifier is greater than that of the
/// window that closed.
pub proof fn lemma_creation_after_vetoed_exit<C: Clone, L: Clone, E, N>(
    before: RuntimeContextView<C, L, E>,
    closed: RuntimeContextView<C, L, E>,
    created: RuntimeContextView<C, L, E>,
    id: WindowId,
    signals: Seq<bool>,
    step: CloseStep<C, L>,
    pending: PendingWindow<N>,
    webview: C,
    listeners: L,
)
    requires
        before.windows.dom() == set![id],
        spec_counter_is_ahead(before),
        !spec_close_vetoed(signals),
        spec_close_resolved(before, closed, id, signals, step),
        spec_can_create(pending),
    ensures
        step.spec_exit_requests() == 1,
        spec_flow_after_exit_answer(ControlFlow::Wait, Some(ExitRequestedEventAction::Prevent))
            == ControlFlow::Wait,
        closed.windows == Map::<WindowId, Window<C, L>>::empty(),
        ({
            let launch = spec_launch(
                closed,
                pending.label,
                pending.window_builder,
                pending.webview->0,
            );
            &&& launch.window_id > id
            &&& !spec_after_launch(closed).windows.contains_key(launch.window_id)
            &&& spec_registered(
                spec_after_launch(closed),
                created,
                launch.window_id,
                pending.label,
                webview,
                listeners,
            ) ==> created.windows.dom() == set![launch.window_id]
        }),
{
    assert(before.windows.contains_key(id));
    lemma_exit_on_empty(before, closed, id, signals, step);
    let launch = spec_launch(closed, pending.label, pending.window_builder, pending.webview->0);
    if spec_registered(
        spec_after_launch(closed),
        created,
        launch.window_id,
        pending.label,
        webview,
        listeners,
    ) {
        assert(created.windows.dom() =~= set![launch.window_id]);
    }
}

/// A close request that meets an objection leaves the window in the registry, and no
/// `Destroyed` event is fired. One that meets none takes the window out, and exactly one
/// `Destroyed` event is fired.
pub proof fn lemma_veto_decides_close<C, L, E>(
    before: RuntimeContextView<C, L, E>,
    after: RuntimeContextView<C, L, E>,
    id: WindowId,
    signals: Seq<bool>,
    step: CloseStep<C, L>,
)
    requires
        before.windows.contains_key(id),
        spec_close_resolved(before, after, id, signals, step),
    ensures
        spec_close_vetoed(signals) ==> after.windows.contains_key(id) && after == before
            && step.spec_destroyed_events() == 0 && step.spec_exit_requests() == 0,
        !spec_close_vetoed(signals) ==> !after.windows.contains_key(id)
            && step.spec_destroyed_events() == 1,
{
}

/// Closing or destroying a window that the registry does not hold changes nothing: no
/// subscriber is asked, no event is fired, and there is no failure to report.
pub proof fn lemma_unknown_window_is_passed_over<C, L: Clone, E>(
    before: RuntimeContextView<C, L, E>,
    after: RuntimeContextView<C, L, E>,
    id: WindowId,
    force: bool,
    step: CloseStep<C, L>,
)
    requires
        !before.windows.contains_key(id),
        spec_close_requested(before, after, id, force, step),
    ensures
        after == before,
        step is Ignored,
        step.spec_solicitations() == 0,
        step.spec_destroyed_events() == 0,
        step.spec_exit_requests() == 0,
{
}

/// The same holds when answers arrive for a window that has gone in the meantime.
pub proof fn lemma_unknown_window_is_not_resolved<C, L, E>(
    before: RuntimeContextView<C, L, E>,
    after: RuntimeContextView<C, L, E>,
    id: WindowId,
    signals: Seq<bool>,
    step: CloseStep<C, L>,
)
    requires
        !before.windows.contains_key(id),
        spec_close_resolved(before, after, id, signals, step),
    ensures
        after == before,
        step is Ignored,
        step.spec_destroyed_events() == 0,
        step.spec_exit_requests() == 0,
{
}

/// When the last window closes without objection, the host is asked exactly once whether the
/// loop may end. If it objects, the loop runs on with an empty registry, and whether a window
/// can be created depends, as ever, on the request alone.
pub proof fn lemma_exit_on_empty<C, L, E>(
    before: RuntimeContextView<C, L, E>,
    after: RuntimeContextView<C, L, E>,
    id: WindowId,
    signals: Seq<bool>,
    step: CloseStep<C, L>,
)
    requires
        before.windows.dom() == set![id],
        !spec_close_vetoed(signals),
        spec_close_resolved(before, after, id, signals, step),
    ensures
        step.spec_exit_requests() == 1,
        step.spec_destroyed_events() == 1,
        after.windows == Map::<WindowId, Window<C, L>>::empty(),
        spec_flow_after_exit_answer(ControlFlow::Wait, Some(ExitRequestedEventAction::Prevent))
            == ControlFlow::Wait,
        spec_flow_after_exit_answer(ControlFlow::Wait, None) == ControlFlow::Exit,
{
}

/// While other windows are left, closing one asks nothing of the host about the loop.
pub proof fn lemma_no_exit_while_windows_are_left<C, L, E>(
    before: RuntimeContextView<C, L, E>,
    after: RuntimeContextView<C, L, E>,
    id: WindowId,
    other: WindowId,
    signals: Seq<bool>,
    step: CloseStep<C, L>,
)
    requires
        before.windows.contains_key(id),
        before.windows.contains_key(other),
        other != id,
        spec_close_resolved(before, after, id, signals, step),
    ensures
        step.spec_exit_requests() == 0,
        after.windows.contains_key(other),
{
}

} // verus!
