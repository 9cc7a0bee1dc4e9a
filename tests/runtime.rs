use zakaz::mailbox::{BufferSize, MailboxProcessorError, DEFAULT_BUFFER_SIZE};
use zakaz::chart::{ChartAction, ChartMessage};
use zakaz::ib_handler::{IBMessage, IBReply};
use zakaz::runtime::{handle_runtime_message, run_messages, RuntimeInMessage, RuntimeOutMessage, State, System, UIMessage};

#[test]
fn counter_sequence() {
    let msgs = vec![
        RuntimeInMessage::Start,
        RuntimeInMessage::IncrementCounter,
        RuntimeInMessage::IncrementCounter,
        RuntimeInMessage::DecrementCounter,
        RuntimeInMessage::ResetCounter,
        RuntimeInMessage::State,
    ];
    let (state, replies) = run_messages(State::new(0), msgs, 42);
    assert_eq!(replies.len(), 6);
    match &replies[5] {
        RuntimeOutMessage::State(s, at) => {
            assert_eq!(s.counter, 0);
            assert_eq!(s.version, 5);
            assert!(s.is_running);
            assert_eq!(*at, 42);
        },
        _ => panic!("expected a state reply"),
    }
    assert!(matches!(replies[0], RuntimeOutMessage::Started(42)));
    assert_eq!(state.version, 5);
}

#[test]
fn state_replies_follow_send_order() {
    let msgs = vec![
        RuntimeInMessage::IncrementCounter,
        RuntimeInMessage::State,
        RuntimeInMessage::IncrementCounter,
        RuntimeInMessage::State,
        RuntimeInMessage::Error("boom".to_string()),
        RuntimeInMessage::DecrementCounter,
        RuntimeInMessage::State,
    ];
    let (state, replies) = run_messages(State::new(0), msgs, 7);
    let seen: Vec<(i32, u64)> = replies
        .iter()
        .filter_map(|r| match r {
            RuntimeOutMessage::State(s, _) => Some((s.counter, s.version)),
            _ => None,
        })
        .collect();
    assert_eq!(seen, vec![(1, 1), (2, 2), (1, 3)]);
    assert_eq!(state.version, 3);
    assert!(matches!(&replies[4], RuntimeOutMessage::Error(e) if e == "boom"));
}

#[test]
fn new_state_replaces_everything() {
    let replacement = State { version: 9, counter: 3, start_time: 1, is_running: true };
    let (state, reply, ui) = handle_runtime_message(State::new(0), RuntimeInMessage::NewState(replacement), 5);
    assert_eq!((state.version, state.counter, state.is_running), (9, 3, true));
    assert!(matches!(reply, RuntimeOutMessage::Ack));
    assert!(ui.is_empty());
}

#[test]
fn start_and_stop_notify_the_interface() {
    let (state, _, ui) = handle_runtime_message(State::new(0), RuntimeInMessage::Start, 100);
    assert!(state.is_running);
    assert_eq!(state.start_time, 100);
    assert!(matches!(ui[0], UIMessage::RuntimeStarted));
    let (state, _, ui) = handle_runtime_message(state, RuntimeInMessage::Stop, 200);
    assert!(!state.is_running);
    assert_eq!(state.version, 2);
    assert!(matches!(ui[0], UIMessage::RuntimeStopped));
}

#[test]
fn counter_updates_are_sent() {
    let (_, _, ui) = handle_runtime_message(State::new(0), RuntimeInMessage::DecrementCounter, 0);
    assert!(matches!(ui.as_slice(), [UIMessage::UpdateCounter(-1)]));
}

#[test]
fn buffer_size_defaults() {
    assert_eq!(BufferSize::Default.unwrap_or(DEFAULT_BUFFER_SIZE), 1000);
    assert_eq!(BufferSize::Size(8).unwrap_or(DEFAULT_BUFFER_SIZE), 8);
}

#[test]
fn mailbox_errors_carry_text() {
    assert_eq!(MailboxProcessorError::closed().message(), "the mailbox channel is closed send back nothing");
}

#[test]
fn version_stays_at_its_maximum() {
    let top = State { version: u64::MAX, counter: 0, start_time: 0, is_running: false };
    let (state, _, _) = handle_runtime_message(top, RuntimeInMessage::IncrementCounter, 0);
    assert_eq!(state.version, u64::MAX);
}

#[test]
fn system_routes_broker_and_chart_requests() {
    let mut system = System::new(0);
    let (reply, ui) = system.handle(RuntimeInMessage::IB(IBMessage::GetAllTemplates), 1);
    assert!(matches!(reply, RuntimeOutMessage::IB(IBReply::Templates(ref t)) if t.is_empty()));
    assert!(ui.is_empty());
    let (reply, _) = system.handle(RuntimeInMessage::Chart(ChartMessage::UpdateChart { symbol: "AAPL".to_string() }), 1);
    assert!(matches!(reply, RuntimeOutMessage::Chart(ChartAction::ReportError(_))));
    let (reply, _) = system.handle(RuntimeInMessage::IncrementCounter, 1);
    assert!(matches!(reply, RuntimeOutMessage::Ack));
    assert_eq!((system.state.counter, system.state.version), (1, 1));
    let (_, reply, _) = handle_runtime_message(State::new(0), RuntimeInMessage::IB(IBMessage::GetConnectionStatus), 0);
    assert!(matches!(reply, RuntimeOutMessage::Unhandled));
}
