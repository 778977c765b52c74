use std::cell::Cell;
use std::rc::Rc;

use tauri_runtime_verso::dispatch::{
    received, sent, DispatcherMainThreadContext, Routed, RoutedCall, ThreadToken,
};
use tauri_runtime_verso::error::Error;
use std::collections::HashMap;

use tauri_runtime_verso::message::{
    ExitRequestedEventAction, Message, RunEvent, WindowEvent,
};
use tauri_runtime_verso::runtime::{
    CloseEffect, CloseStep, ControlFlow, LoopEvent, PendingWebview, PendingWindow, Reaction, RuntimeContext,
    VersoRuntime, WindowLaunch,
};
use tauri_runtime_verso::uri::UriConvention;
use tauri_runtime_verso::window::{Theme, VersoWindowBuilder, Window};
use tauri_runtime_verso::VersoConfig;

type Controller = Rc<Cell<u32>>;
type Listeners = Rc<Cell<usize>>;
type Context = RuntimeContext<Controller, Listeners, &'static str>;
type Runtime = VersoRuntime<Controller, Listeners, &'static str>;
type Task = Box<dyn FnOnce()>;
type TaskWithEventLoop = Box<dyn FnOnce(&&'static str)>;
type Command = Message<Task, TaskWithEventLoop, String>;

const MAIN: ThreadToken = ThreadToken(1);
const WORKER: ThreadToken = ThreadToken(2);

fn context() -> Context {
    RuntimeContext::new(
        DispatcherMainThreadContext::new(MAIN, "event loop"),
        UriConvention::DirectScheme,
    )
}

fn runtime() -> Runtime {
    VersoRuntime::init(MAIN, "event loop", UriConvention::DirectScheme)
}

fn builder() -> VersoWindowBuilder<i64> {
    VersoWindowBuilder::new(&VersoConfig::new())
}

fn webview(url: &str) -> PendingWebview {
    PendingWebview {
        url: String::from(url),
        initialization_scripts: vec![String::from("init()")],
        uri_scheme_protocols: vec![String::from("tauri"), String::from("ipc")],
        use_https_scheme: true,
    }
}

fn pending(label: &str) -> PendingWindow<i64> {
    PendingWindow {
        label: String::from(label),
        window_builder: builder(),
        webview: Some(webview("tauri://localhost/index.html")),
    }
}

fn open(context: &mut Context, label: &str) -> u32 {
    let launch = context.create_window(pending(label)).unwrap();
    let engine = Some((Rc::new(Cell::new(launch.window_id)), Rc::new(Cell::new(0))));
    context
        .register_window(launch.window_id, launch.webview_id, launch.label, engine)
        .unwrap()
        .id
}

#[test]
fn identifier_uniqueness() {
    let mut context = context();
    let mut ids = Vec::new();
    for n in 0..50 {
        ids.push(open(&mut context, &format!("window-{n}")));
        if n % 3 == 0 {
            let last = *ids.last().unwrap();
            context.handle_close_window_request(last, true);
        }
    }
    for pair in ids.windows(2) {
        assert!(pair[0] < pair[1]);
    }
}

#[test]
fn identifier_counters_are_independent() {
    let mut context = context();
    assert_eq!(context.next_window_id(), 0);
    assert_eq!(context.next_window_id(), 1);
    assert_eq!(context.next_webview_id(), 0);
    assert_eq!(context.next_window_event_id(), 0);
    assert_eq!(context.next_window_event_id(), 1);
    assert_eq!(context.next_window_event_id(), 2);
    assert_eq!(context.next_webview_event_id(), 0);
    assert_eq!(context.next_window_id(), 2);
    assert_eq!(context.next_webview_id(), 1);
}

#[test]
fn owning_thread_reentrancy() {
    let context = context();
    let counter = Rc::new(Cell::new(0));
    let seen = counter.clone();
    let routed = context.run_on_main_thread(MAIN, move || seen.set(seen.get() + 1));
    assert_eq!(counter.get(), 1);
    assert!(matches!(routed, RoutedCall::Returned(())));
}

#[test]
fn task_from_another_thread_is_enqueued_not_run() {
    let context = context();
    let counter = Rc::new(Cell::new(0));
    let seen = counter.clone();
    let routed = context.run_on_main_thread(WORKER, move || seen.set(seen.get() + 1));
    assert_eq!(counter.get(), 0);
    match routed {
        RoutedCall::Enqueue(task) => {
            task();
            assert_eq!(counter.get(), 1);
        }
        RoutedCall::Returned(()) => panic!("the task ran on a thread that does not own the loop"),
    }
}

#[test]
fn blocking_call_returns_at_once_on_the_owning_thread() {
    let context = context();
    let routed = context.run_on_main_thread_with_event_loop(MAIN, |target: &&'static str| {
        target.len()
    });
    assert!(matches!(routed, RoutedCall::Returned(10)));
}

#[test]
fn blocking_call_from_another_thread_is_enqueued() {
    let context = context();
    let routed = context.run_on_main_thread_with_event_loop(WORKER, |target: &&'static str| {
        target.len()
    });
    match routed {
        RoutedCall::Enqueue(call) => assert_eq!(call(&"abc"), 3),
        RoutedCall::Returned(_) => panic!("the call ran on a thread that does not own the loop"),
    }
}

#[test]
fn send_message_runs_tasks_on_the_owning_thread() {
    let context = context();
    let counter = Rc::new(Cell::new(0));
    let seen = counter.clone();
    let task: Task = Box::new(move || seen.set(seen.get() + 1));
    let routed = context.send_message::<Task, TaskWithEventLoop, String>(MAIN, Message::Task(task));
    assert!(matches!(routed, Routed::Ran));
    assert_eq!(counter.get(), 1);

    let seen = counter.clone();
    let task: TaskWithEventLoop = Box::new(move |target| seen.set(seen.get() + target.len()));
    let routed = context
        .send_message::<Task, TaskWithEventLoop, String>(MAIN, Message::TaskWithEventLoop(task));
    assert!(matches!(routed, Routed::Ran));
    assert_eq!(counter.get(), 11);
}

#[test]
fn send_message_enqueues_everything_else() {
    let context = context();
    let counter = Rc::new(Cell::new(0));
    let seen = counter.clone();
    let task: Task = Box::new(move || seen.set(seen.get() + 1));
    let routed =
        context.send_message::<Task, TaskWithEventLoop, String>(WORKER, Message::Task(task));
    assert!(matches!(routed, Routed::Enqueue(Message::Task(_))));
    assert_eq!(counter.get(), 0);

    for current in [MAIN, WORKER] {
        let routed = context
            .send_message::<Task, TaskWithEventLoop, String>(current, Message::CloseWindow(7));
        assert!(matches!(routed, Routed::Enqueue(Message::CloseWindow(7))));
        let routed = context
            .send_message::<Task, TaskWithEventLoop, String>(current, Message::DestroyWindow(8));
        assert!(matches!(routed, Routed::Enqueue(Message::DestroyWindow(8))));
        let routed = context
            .send_message::<Task, TaskWithEventLoop, String>(current, Message::RequestExit(3));
        assert!(matches!(routed, Routed::Enqueue(Message::RequestExit(3))));
        let routed = context.send_message::<Task, TaskWithEventLoop, String>(
            current,
            Message::UserEvent(String::from("e")),
        );
        assert!(matches!(routed, Routed::Enqueue(Message::UserEvent(_))));
    }
}

#[test]
fn routing_needs_no_more_than_the_owning_thread() {
    let main_thread = DispatcherMainThreadContext::new(MAIN, "event loop");
    let counter = Rc::new(Cell::new(0));
    let seen = counter.clone();
    assert!(matches!(
        main_thread.run_on_main_thread(MAIN, move || seen.set(seen.get() + 1)),
        RoutedCall::Returned(())
    ));
    assert_eq!(counter.get(), 1);
    let routed = main_thread
        .send_message::<Task, TaskWithEventLoop, String>(WORKER, Message::RequestExit(0));
    assert!(matches!(routed, Routed::Enqueue(Message::RequestExit(0))));
    let routed = main_thread.run_on_main_thread_with_event_loop(MAIN, |target: &&str| target.len());
    assert!(matches!(routed, RoutedCall::Returned(10)));
    assert!(main_thread.is_main_thread(MAIN));
    assert!(!main_thread.is_main_thread(WORKER));
}

#[test]
fn event_loop_context_is_for_the_owning_thread_only() {
    let main_thread = DispatcherMainThreadContext::new(MAIN, 42u8);
    assert_eq!(main_thread.main_thread_id(), MAIN);
    assert_eq!(main_thread.window_target(MAIN), Some(&42));
    assert_eq!(main_thread.window_target(WORKER), None);
    let context = context();
    assert!(context.is_main_thread(MAIN));
    assert!(!context.is_main_thread(WORKER));
}

#[test]
fn channel_failures_are_reported() {
    assert_eq!(sent::<u8>(Ok(())), Ok(()));
    assert_eq!(sent(Err("receiver is gone")), Err(Error::FailedToSendMessage));
    assert_eq!(received(true, Some(5)), Ok(5));
    assert_eq!(received::<u8>(true, None), Err(Error::FailedToReceiveMessage));
    assert_eq!(received(false, Some(5)), Err(Error::FailedToSendMessage));
    assert_eq!(received::<u8>(false, None), Err(Error::FailedToSendMessage));
}

#[test]
fn window_without_webview_is_refused() {
    let mut context = context();
    let mut request = pending("main");
    request.webview = None;
    assert_eq!(context.create_window(request), Err(Error::CreateWindow));
    assert_eq!(context.next_window_id(), 0);
    assert_eq!(context.next_webview_id(), 0);
    assert_eq!(context.window_count(), 0);
}

#[test]
fn window_with_malformed_url_is_refused() {
    let mut context = context();
    let mut request = pending("main");
    request.webview = Some(webview("not a url"));
    assert_eq!(context.create_window(request), Err(Error::CreateWindow));
    let mut request = pending("main");
    request.webview = Some(webview(""));
    assert_eq!(context.create_window(request), Err(Error::CreateWindow));
    assert_eq!(context.next_window_id(), 0);
    assert_eq!(context.next_webview_id(), 0);
}

#[test]
fn create_window_plans_the_launch() {
    let mut context = context();
    context.next_webview_id();
    let launch = context.create_window(pending("main")).unwrap();
    assert_eq!(
        launch,
        WindowLaunch {
            window_id: 0,
            webview_id: 1,
            label: String::from("main"),
            window_builder: builder(),
            url: String::from("tauri://localhost/index.html"),
            user_scripts: vec![String::from("init()")],
            custom_protocols: vec![String::from("tauri"), String::from("ipc")],
            use_https_scheme: true,
            convention: UriConvention::DirectScheme,
        }
    );
    // The window is not in the registry before its engine runs.
    assert_eq!(context.window_count(), 0);
    assert!(!context.has_window(0));
    let launch = context.create_window(pending("second")).unwrap();
    assert_eq!((launch.window_id, launch.webview_id), (1, 2));
}

#[test]
fn launch_takes_the_prefered_theme_when_the_builder_has_none() {
    let mut context = context();
    assert_eq!(context.prefered_theme(), None);
    context.set_theme(Some(Theme::Dark));
    assert_eq!(context.prefered_theme(), Some(Theme::Dark));
    let launch = context.create_window(pending("a")).unwrap();
    assert_eq!(launch.window_builder.get_theme(), Some(Theme::Dark));

    let mut request = pending("b");
    request.window_builder = builder().theme(Some(Theme::Light));
    let launch = context.create_window(request).unwrap();
    assert_eq!(launch.window_builder.get_theme(), Some(Theme::Light));

    context.set_theme(None);
    let launch = context.launch_window(String::from("c"), builder(), webview("p://x"));
    assert_eq!(launch.window_builder.get_theme(), None);
    assert_eq!(launch.window_id, 2);
}

#[test]
fn engine_that_did_not_start_registers_nothing() {
    let mut context = context();
    let launch = context.create_window(pending("main")).unwrap();
    let outcome =
        context.register_window(launch.window_id, launch.webview_id, launch.label, None);
    assert_eq!(outcome, Err(Error::CreateWindow));
    assert_eq!(context.window_count(), 0);
    // The identifiers are spent all the same.
    assert_eq!(context.next_window_id(), 1);
}

#[test]
fn registered_window_shares_its_engine_with_the_handles() {
    let mut context = context();
    let controller: Controller = Rc::new(Cell::new(0));
    let listeners: Listeners = Rc::new(Cell::new(0));
    let detached = context
        .register_window(4, 9, String::from("main"), Some((controller.clone(), listeners.clone())))
        .unwrap();
    assert_eq!(detached.id, 4);
    assert_eq!(detached.label, "main");
    assert_eq!(detached.dispatcher.id, 4);
    let window_webview = detached.webview.as_ref().unwrap();
    assert_eq!(window_webview.webview.label, "main");
    assert_eq!(window_webview.webview.dispatcher.id, 9);
    assert!(!window_webview.use_https_scheme);
    assert!(context.has_window(4));
    assert_eq!(context.window_count(), 1);
    let registered: &Window<Controller, Listeners> = context.window(4).unwrap();
    assert_eq!(registered.label, "main");
    assert!(context.windows().contains_key(&4));
    assert!(context.window(5).is_none());

    controller.set(17);
    listeners.set(3);
    assert_eq!(registered.webview.get(), 17);
    assert_eq!(registered.on_window_event_listeners.get(), 3);
    assert_eq!(detached.dispatcher.webview.get(), 17);
    assert_eq!(detached.dispatcher.on_window_event_listeners.get(), 3);
    assert_eq!(window_webview.webview.dispatcher.webview.get(), 17);
}

#[test]
fn veto_correctness() {
    let mut context = context();
    let id = open(&mut context, "main");
    let other = open(&mut context, "other");

    let step = context.handle_close_window_request(id, false);
    match &step {
        CloseStep::VetoSolicited { id: asked, label, .. } => {
            assert_eq!(*asked, id);
            assert_eq!(label, "main");
        }
        _ => panic!("subscribers were not asked"),
    }
    assert_eq!(step.window_event(), Some(("main", WindowEvent::CloseRequested)));
    assert!(context.has_window(id));

    let step = context.resolve_close_request(id, &vec![true]);
    assert_eq!(step, CloseStep::Vetoed);
    assert_eq!(step.window_event(), None);
    assert!(context.has_window(id));
    assert_eq!(context.window_count(), 2);

    let step = context.resolve_close_request(id, &vec![false]);
    assert_eq!(step.window_event(), Some(("main", WindowEvent::Destroyed)));
    match step {
        CloseStep::Destroyed { window, exit_requested } => {
            assert_eq!(window.label, "main");
            assert_eq!(window.webview.get(), id);
            assert!(!exit_requested);
        }
        _ => panic!("the window was not destroyed"),
    }
    assert!(!context.has_window(id));
    assert!(context.has_window(other));
    assert_eq!(context.window_count(), 1);
}

#[test]
fn close_without_any_answer_destroys() {
    let mut context = context();
    let id = open(&mut context, "main");
    let step = context.resolve_close_request(id, &Vec::new());
    assert!(matches!(step, CloseStep::Destroyed { exit_requested: true, .. }));
    assert!(!context.has_window(id));
}

#[test]
fn destroy_does_not_ask() {
    let mut context = context();
    let first = open(&mut context, "first");
    let second = open(&mut context, "second");
    let step = context.handle_close_window_request(first, true);
    assert!(matches!(step, CloseStep::Destroyed { exit_requested: false, .. }));
    assert!(!context.has_window(first));
    let step = context.handle_close_window_request(second, true);
    assert!(matches!(step, CloseStep::Destroyed { exit_requested: true, .. }));
    assert_eq!(context.window_count(), 0);
}

#[test]
fn unknown_id_idempotence() {
    let mut context = context();
    let id = open(&mut context, "main");
    for unknown in [id + 1, 99, u32::MAX] {
        assert_eq!(context.handle_close_window_request(unknown, false), CloseStep::Ignored);
        assert_eq!(context.handle_close_window_request(unknown, true), CloseStep::Ignored);
        assert_eq!(context.resolve_close_request(unknown, &vec![false]), CloseStep::Ignored);
        assert_eq!(context.resolve_close_request(unknown, &vec![true]), CloseStep::Ignored);
    }
    assert_eq!(CloseStep::<Controller, Listeners>::Ignored.window_event(), None);
    assert!(context.has_window(id));
    assert_eq!(context.window_count(), 1);

    context.handle_close_window_request(id, true);
    assert_eq!(context.handle_close_window_request(id, true), CloseStep::Ignored);
    assert_eq!(context.handle_close_window_request(id, false), CloseStep::Ignored);
    assert_eq!(context.window_count(), 0);
}

#[test]
fn exit_on_empty() {
    let mut runtime = runtime();
    let id = open(&mut runtime.context, "main");
    let reaction = runtime.handle_event::<Task, TaskWithEventLoop, String>(LoopEvent::UserEvent(
        Message::CloseWindow(id),
    ));
    assert!(matches!(reaction, Reaction::Close(CloseStep::VetoSolicited { .. })));
    let step = runtime.context.resolve_close_request(id, &vec![false, false]);
    assert!(matches!(step, CloseStep::Destroyed { exit_requested: true, .. }));
    assert_eq!(runtime.context.window_count(), 0);

    // The host objects: the loop runs on without a window.
    assert!(!runtime.resolve_exit_request(Some(ExitRequestedEventAction::Prevent)));
    assert_eq!(runtime.control_flow, ControlFlow::Wait);
    assert_eq!(runtime.context.window_count(), 0);

    // And a window can be created again.
    let id = open(&mut runtime.context, "again");
    assert!(runtime.context.has_window(id));
    let reaction = runtime.handle_event::<Task, TaskWithEventLoop, String>(LoopEvent::UserEvent(
        Message::DestroyWindow(id),
    ));
    assert!(matches!(reaction, Reaction::Close(CloseStep::Destroyed { exit_requested: true, .. })));

    // No objection this time: the loop ends.
    assert!(runtime.resolve_exit_request(None));
    assert_eq!(runtime.control_flow, ControlFlow::Exit);
}

#[test]
fn explicit_exit_request_asks_the_host_whatever_windows_there_are() {
    let mut runtime = runtime();
    open(&mut runtime.context, "main");
    let reaction = runtime
        .handle_event::<Task, TaskWithEventLoop, String>(LoopEvent::UserEvent(Message::RequestExit(3)));
    assert!(matches!(reaction, Reaction::ExitSolicited { code: Some(3) }));
    assert_eq!(runtime.control_flow, ControlFlow::Wait);
    assert_eq!(runtime.context.window_count(), 1);
    assert!(runtime.resolve_exit_request(None));
    assert_eq!(runtime.control_flow, ControlFlow::Exit);
    assert_eq!(runtime.context.window_count(), 1);
}

#[test]
fn ended_loop_stays_ended() {
    let mut runtime = runtime();
    assert!(runtime.resolve_exit_request(None));
    assert!(!runtime.resolve_exit_request(Some(ExitRequestedEventAction::Prevent)));
    assert_eq!(runtime.control_flow, ControlFlow::Exit);
}

#[test]
fn loop_events_are_passed_on_to_the_host() {
    let mut runtime = runtime();
    let mut react = |event: LoopEvent<fn(), fn(&&'static str), String>| runtime.handle_event(event);
    assert_eq!(react(LoopEvent::Init), Reaction::Callback(RunEvent::Ready));
    assert_eq!(react(LoopEvent::Poll), Reaction::Callback(RunEvent::Resumed));
    assert_eq!(
        react(LoopEvent::MainEventsCleared),
        Reaction::Callback(RunEvent::MainEventsCleared)
    );
    assert_eq!(react(LoopEvent::LoopDestroyed), Reaction::Callback(RunEvent::Exit));
    assert_eq!(react(LoopEvent::Other), Reaction::Nothing);
    assert_eq!(
        react(LoopEvent::UserEvent(Message::UserEvent(String::from("tick")))),
        Reaction::Callback(RunEvent::UserEvent(String::from("tick")))
    );
    assert_eq!(
        react(LoopEvent::UserEvent(Message::CloseWindow(5))),
        Reaction::Close(CloseStep::Ignored)
    );
    assert_eq!(
        react(LoopEvent::UserEvent(Message::DestroyWindow(5))),
        Reaction::Close(CloseStep::Ignored)
    );
    assert_eq!(runtime.control_flow, ControlFlow::Wait);
}

#[test]
fn loop_hands_tasks_back_to_be_run() {
    let mut runtime = runtime();
    let counter = Rc::new(Cell::new(0));
    let seen = counter.clone();
    let task: Task = Box::new(move || seen.set(seen.get() + 1));
    let reaction = runtime
        .handle_event::<Task, TaskWithEventLoop, String>(LoopEvent::UserEvent(Message::Task(task)));
    assert_eq!(counter.get(), 0);
    match reaction {
        Reaction::RunTask(task) => task(),
        _ => panic!("the task did not come back"),
    }
    assert_eq!(counter.get(), 1);
    let seen = counter.clone();
    let task: TaskWithEventLoop = Box::new(move |target| seen.set(seen.get() + target.len()));
    let reaction = runtime.handle_event::<Task, TaskWithEventLoop, String>(LoopEvent::UserEvent(
        Message::TaskWithEventLoop(task),
    ));
    match reaction {
        Reaction::RunTaskWithEventLoop(task) => task(&"event loop"),
        _ => panic!("the task did not come back"),
    }
    assert_eq!(counter.get(), 11);
}

#[test]
fn webview_apart_from_its_window_is_refused() {
    assert_eq!(context().create_webview(), Err(Error::CreateWindow));
}

#[test]
fn new_runtime_is_empty_and_running() {
    let runtime = runtime();
    assert_eq!(runtime.control_flow, ControlFlow::Wait);
    assert_eq!(runtime.context.window_count(), 0);
    assert_eq!(runtime.context.prefered_theme(), None);
    assert_eq!(runtime.context.convention(), UriConvention::DirectScheme);
    assert!(runtime.context.is_main_thread(MAIN));
}

#[test]
fn close_steps_are_carried_out_in_order() {
    let mut context = context();
    let first = open(&mut context, "first");
    let second = open(&mut context, "second");
    assert_eq!(
        context.handle_close_window_request(first, false).effects(),
        vec![CloseEffect::AskSubscribers, CloseEffect::AskHost]
    );
    assert_eq!(context.resolve_close_request(first, &vec![true]).effects(), vec![]);
    assert_eq!(context.handle_close_window_request(99, false).effects(), vec![]);
    assert_eq!(
        context.resolve_close_request(first, &vec![false]).effects(),
        vec![
            CloseEffect::TellDestroyed,
            CloseEffect::ClearSubscribers,
            CloseEffect::DisposeEngine
        ]
    );
    assert_eq!(
        context.handle_close_window_request(second, true).effects(),
        vec![
            CloseEffect::TellDestroyed,
            CloseEffect::ClearSubscribers,
            CloseEffect::DisposeEngine,
            CloseEffect::RequestExit
        ]
    );
}

#[test]
fn live_window_is_never_replaced() {
    let mut context = context();
    let first: Controller = Rc::new(Cell::new(1));
    let second: Controller = Rc::new(Cell::new(2));
    let listeners: Listeners = Rc::new(Cell::new(0));
    assert!(context
        .register_window(5, 0, String::from("first"), Some((first, listeners.clone())))
        .is_ok());
    assert_eq!(
        context.register_window(5, 1, String::from("second"), Some((second, listeners.clone()))),
        Err(Error::CreateWindow)
    );
    assert_eq!(context.window_count(), 1);
    let held = context.window(5).unwrap();
    assert_eq!(held.label, "first");
    assert_eq!(held.webview.get(), 1);

    // Once the window has gone, its place is free
    context.handle_close_window_request(5, true);
    let third: Controller = Rc::new(Cell::new(3));
    assert!(context
        .register_window(5, 2, String::from("third"), Some((third, listeners)))
        .is_ok());
    assert_eq!(context.window(5).unwrap().label, "third");
}

#[test]
fn registry_grows_by_the_created_window() {
    let mut context = context();
    for n in 0..5 {
        let before = context.window_count();
        let launch = context.create_window(pending("w")).unwrap();
        assert!(!context.has_window(launch.window_id));
        assert_eq!(launch.window_id, n);
        let engine = Some((Rc::new(Cell::new(0)), Rc::new(Cell::new(0))));
        let detached = context
            .register_window(launch.window_id, launch.webview_id, launch.label, engine)
            .unwrap();
        assert_eq!(detached.id, n);
        assert!(context.has_window(n));
        assert_eq!(context.window_count(), before + 1);
    }
}

#[test]
fn last_window_asks_about_the_exit_without_a_code() {
    let mut context = context();
    let first = open(&mut context, "first");
    let second = open(&mut context, "second");
    let step = context.handle_close_window_request(first, false);
    assert_eq!(step.exit_request::<String>(), None);
    let step = context.resolve_close_request(first, &vec![true]);
    assert_eq!(step.exit_request::<String>(), None);
    let step = context.resolve_close_request(first, &vec![]);
    assert_eq!(step.exit_request::<String>(), None);
    let step = context.handle_close_window_request(second, true);
    assert_eq!(step.exit_request::<String>(), Some(RunEvent::ExitRequested { code: None }));
    let step = context.handle_close_window_request(second, true);
    assert_eq!(step.exit_request::<String>(), None);
}

#[test]
fn creation_after_a_vetoed_exit_gets_a_greater_id() {
    let mut runtime = runtime();
    let first = open(&mut runtime.context, "first");
    let step = runtime.context.handle_close_window_request(first, true);
    assert!(step.exit_request::<String>().is_some());
    assert!(!runtime.resolve_exit_request(Some(ExitRequestedEventAction::Prevent)));
    let second = open(&mut runtime.context, "second");
    assert!(second > first);
    assert_eq!(runtime.context.window_count(), 1);
    assert!(runtime.context.has_window(second));
    assert!(!runtime.context.has_window(first));
    assert_eq!(runtime.control_flow, ControlFlow::Wait);
}

#[test]
fn engine_close_hook_asks_to_close_its_window() {
    let mut context = context();
    context.next_window_id();
    let launch = context.create_window(pending("main")).unwrap();
    assert_eq!(
        launch.close_requested::<fn(), fn(&()), String>(),
        Message::CloseWindow(1)
    );
}

#[test]
fn subscription_gets_the_next_event_id() {
    let mut context = context();
    let mut listeners: HashMap<u32, &'static str> = HashMap::new();
    assert_eq!(context.subscribe(&mut listeners, "first"), 0);
    assert_eq!(context.next_window_event_id(), 1);
    assert_eq!(context.subscribe(&mut listeners, "second"), 2);
    let mut others: HashMap<u32, &'static str> = HashMap::new();
    assert_eq!(context.subscribe(&mut others, "third"), 3);
    assert_eq!(listeners.len(), 2);
    assert_eq!(listeners.get(&0), Some(&"first"));
    assert_eq!(listeners.get(&2), Some(&"second"));
    assert_eq!(others.get(&3), Some(&"third"));
    assert_eq!(context.next_window_id(), 0);
}
