use tauri_runtime_verso::message::{
    close_vetoed, exit_prevented, ExitRequestedEventAction, Message,
};

type Task = fn();
type TaskWithEventLoop = fn(&());

#[test]
fn user_event_can_be_copied() {
    let message: Message<Task, TaskWithEventLoop, String> =
        Message::UserEvent(String::from("ping"));
    assert_eq!(message.try_clone(), Some(Message::UserEvent(String::from("ping"))));
}

#[test]
fn other_commands_cannot_be_copied() {
    fn nothing() {}
    fn nothing_with(_: &()) {}
    let commands: Vec<Message<Task, TaskWithEventLoop, String>> = vec![
        Message::Task(nothing),
        Message::TaskWithEventLoop(nothing_with),
        Message::CloseWindow(1),
        Message::DestroyWindow(1),
        Message::RequestExit(0),
    ];
    for command in &commands {
        assert!(command.try_clone().is_none());
    }
}

#[test]
fn any_true_signal_is_a_veto() {
    assert!(!close_vetoed(&vec![]));
    assert!(!close_vetoed(&vec![false]));
    assert!(!close_vetoed(&vec![false, false, false]));
    assert!(close_vetoed(&vec![true]));
    assert!(close_vetoed(&vec![false, true]));
    assert!(close_vetoed(&vec![false, false, true, false]));
}

#[test]
fn exit_is_prevented_only_by_an_answer() {
    assert!(exit_prevented(Some(ExitRequestedEventAction::Prevent)));
    assert!(!exit_prevented(None));
}
