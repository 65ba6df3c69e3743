use ag_ui_client::agent::{AgentStateMutation, RunAgentParams};
use ag_ui_client::error::AgUiClientError;
use ag_ui_client::event::{
    BaseEvent, Event, RunFinishedEvent, StateDeltaEvent, StateSnapshotEvent, TextMessageContentEvent,
    TextMessageEndEvent, TextMessageStartEvent, ToolCallArgsEvent, ToolCallStartEvent,
};
use ag_ui_client::handler::{fresh_message_id, message_ids, EventHandler, Notification};
use ag_ui_client::types::{Message, MessageId, Role, RunId, ThreadId, ToolCallId};
use serde_json::Value;

fn json(s: &str) -> Value {
    serde_json::from_str(s).unwrap()
}

fn content(id: MessageId, delta: &str) -> Event {
    Event::TextMessageContent(TextMessageContentEvent::new(id, delta.to_string()).unwrap())
}

/// Runs one event through the reducer without subscribers.
fn step(h: &mut EventHandler, e: &Event) -> Result<Vec<Notification>, AgUiClientError> {
    let current = h.apply_default(e)?;
    let merged = h.merge_mutations(current, &Vec::new());
    Ok(h.apply_mutation(merged))
}

#[test]
fn text_message_stream_yields_one_new_assistant_message() {
    let mut h = EventHandler::new(Vec::new(), json("{}"));
    let initial = message_ids(&Vec::new());
    let id = MessageId::random();
    step(&mut h, &Event::TextMessageStart(TextMessageStartEvent::new(id))).unwrap();
    step(&mut h, &content(id, "He")).unwrap();
    step(&mut h, &content(id, "llo")).unwrap();
    step(
        &mut h,
        &Event::TextMessageEnd(TextMessageEndEvent { base: BaseEvent::empty(), message_id: id }),
    )
    .unwrap();
    let r = h.finish(&initial);
    assert_eq!(r.new_messages.len(), 1);
    assert_eq!(r.new_messages[0].role(), Role::Assistant);
    assert_eq!(*r.new_messages[0].id(), id);
    assert_eq!(r.new_messages[0].content(), Some("Hello"));
}

#[test]
fn state_delta_replace_applies() {
    let mut h = EventHandler::new(Vec::new(), json(r#"{"counter":0}"#));
    let e = Event::StateDelta(StateDeltaEvent {
        base: BaseEvent::empty(),
        delta: vec![json(r#"{"op":"replace","path":"/counter","value":5}"#)],
    });
    let notes = step(&mut h, &e).unwrap();
    assert_eq!(h.state, json(r#"{"counter":5}"#));
    assert_eq!(notes, vec![Notification::StateChanged]);
}

#[test]
fn state_delta_with_missing_path_is_execution_error_and_keeps_state() {
    let mut h = EventHandler::new(Vec::new(), json(r#"{"counter":0}"#));
    let e = Event::StateDelta(StateDeltaEvent {
        base: BaseEvent::empty(),
        delta: vec![
            json(r#"{"op":"replace","path":"/counter","value":5}"#),
            json(r#"{"op":"replace","path":"/missing","value":1}"#),
        ],
    });
    let r = h.apply_default(&e);
    assert!(matches!(r, Err(AgUiClientError::Execution { .. })));
    assert_eq!(h.state, json(r#"{"counter":0}"#));
}

#[test]
fn state_delta_with_malformed_operation_is_json_error() {
    let mut h = EventHandler::new(Vec::new(), json(r#"{"counter":0}"#));
    let e = Event::StateDelta(StateDeltaEvent {
        base: BaseEvent::empty(),
        delta: vec![json(r#"{"op":"frobnicate","path":"/counter"}"#)],
    });
    assert!(matches!(h.apply_default(&e), Err(AgUiClientError::Json(_))));
    assert_eq!(h.state, json(r#"{"counter":0}"#));
}

#[test]
fn state_snapshot_replaces_state() {
    let mut h = EventHandler::new(Vec::new(), json(r#"{"a":1}"#));
    let e = Event::StateSnapshot(StateSnapshotEvent { base: BaseEvent::empty(), snapshot: json(r#"{"b":2}"#) });
    let notes = step(&mut h, &e).unwrap();
    assert_eq!(h.state, json(r#"{"b":2}"#));
    assert_eq!(notes, vec![Notification::StateChanged]);
}

#[test]
fn run_finished_without_result_gives_no_output() {
    let mut h = EventHandler::new(Vec::new(), json("{}"));
    let e = Event::RunFinished(RunFinishedEvent {
        base: BaseEvent::empty(),
        thread_id: ThreadId::random(),
        run_id: RunId::random(),
        result: None,
    });
    step(&mut h, &e).unwrap();
    let r = h.finish(&Vec::new());
    assert!(r.result.is_none());
}

#[test]
fn run_finished_with_result_records_it() {
    let mut h = EventHandler::new(Vec::new(), json("{}"));
    let e = Event::RunFinished(RunFinishedEvent {
        base: BaseEvent::empty(),
        thread_id: ThreadId::random(),
        run_id: RunId::random(),
        result: Some(json(r#"{"ok":true}"#)),
    });
    step(&mut h, &e).unwrap();
    assert_eq!(h.finish(&Vec::new()).result, Some(json(r#"{"ok":true}"#)));
}

#[test]
fn stop_propagation_blocks_later_mutations() {
    let mut h = EventHandler::new(Vec::new(), json(r#"{"v":0}"#));
    let first = AgentStateMutation { messages: None, state: Some(json(r#"{"v":1}"#)), stop_propagation: true };
    let second = AgentStateMutation { messages: None, state: Some(json(r#"{"v":2}"#)), stop_propagation: false };
    let merged = h.merge_mutations(AgentStateMutation::default(), &vec![first, second]);
    assert_eq!(merged.state, Some(json(r#"{"v":1}"#)));
    assert!(merged.stop_propagation);
    assert_eq!(h.state, json(r#"{"v":1}"#));
}

#[test]
fn later_mutations_win_without_stop() {
    let mut h = EventHandler::new(Vec::new(), json(r#"{"v":0}"#));
    let first = AgentStateMutation { messages: None, state: Some(json(r#"{"v":1}"#)), stop_propagation: false };
    let second = AgentStateMutation { messages: None, state: Some(json(r#"{"v":2}"#)), stop_propagation: false };
    let merged = h.merge_mutations(AgentStateMutation::default(), &vec![first, second]);
    assert_eq!(merged.state, Some(json(r#"{"v":2}"#)));
    assert!(!merged.stop_propagation);
    assert_eq!(h.state, json(r#"{"v":2}"#));
}

#[test]
fn new_message_notified_once_and_never_for_initial_ids() {
    let old = Message::new_user("hello");
    let old_id = *old.id();
    let mut h = EventHandler::new(vec![old.clone()], json("{}"));
    let newer = Message::new_assistant("hi");
    let new_id = *newer.id();
    let m = AgentStateMutation { messages: Some(vec![old.clone(), newer.clone()]), state: None, stop_propagation: false };
    let notes = h.apply_mutation(m);
    assert_eq!(notes, vec![Notification::NewMessage(1), Notification::MessagesChanged]);
    assert!(h.seen.contains(&old_id) && h.seen.contains(&new_id));
    let again = AgentStateMutation { messages: Some(vec![old, newer]), state: None, stop_propagation: false };
    assert_eq!(h.apply_mutation(again), vec![Notification::MessagesChanged]);
}

#[test]
fn tool_calls_of_new_assistant_message_are_notified() {
    let mut h = EventHandler::new(Vec::new(), json("{}"));
    let parent = MessageId::random();
    let start = |name: &str| {
        Event::ToolCallStart(ToolCallStartEvent {
            base: BaseEvent::empty(),
            tool_call_id: ToolCallId(format!("call_{name}")),
            tool_call_name: name.to_string(),
            parent_message_id: Some(parent),
        })
    };
    // No message yet: a new assistant message keyed by the parent id holds the call.
    let notes = step(&mut h, &start("a")).unwrap();
    assert_eq!(
        notes,
        vec![Notification::NewMessage(0), Notification::NewToolCall(0, 0), Notification::MessagesChanged]
    );
    assert_eq!(*h.messages[0].id(), parent);
    // The parent is the last message: the call is attached to it.
    let notes = step(&mut h, &start("b")).unwrap();
    assert_eq!(notes, vec![Notification::MessagesChanged]);
    assert_eq!(h.messages.len(), 1);
    assert_eq!(h.messages[0].tool_calls().unwrap().len(), 2);
    let args = |d: &str| {
        Event::ToolCallArgs(ToolCallArgsEvent {
            base: BaseEvent::empty(),
            tool_call_id: ToolCallId("call_b".to_string()),
            delta: d.to_string(),
        })
    };
    step(&mut h, &args("{\"x\":")).unwrap();
    step(&mut h, &args("1}")).unwrap();
    let last = h.last_tool_call().unwrap();
    assert_eq!(last.function.name, "b");
    assert_eq!(last.function.arguments, "{\"x\":1}");
    assert_eq!(last.call_type, "function");
}

#[test]
fn tool_call_with_other_parent_opens_new_message() {
    let first = Message::new_assistant("x");
    let mut h = EventHandler::new(vec![first], json("{}"));
    let e = Event::ToolCallStart(ToolCallStartEvent {
        base: BaseEvent::empty(),
        tool_call_id: ToolCallId("call_1".to_string()),
        tool_call_name: "f".to_string(),
        parent_message_id: None,
    });
    step(&mut h, &e).unwrap();
    assert_eq!(h.messages.len(), 2);
    assert_eq!(h.messages[1].tool_calls().unwrap()[0].function.name, "f");
}

#[test]
fn content_delta_without_messages_changes_nothing() {
    let mut h = EventHandler::new(Vec::new(), json("{}"));
    let notes = step(&mut h, &content(MessageId::random(), "x")).unwrap();
    assert!(notes.is_empty());
    assert!(h.messages.is_empty());
    assert_eq!(h.text_message_buffer(), "");
}

#[test]
fn params_build_run_input() {
    let params = RunAgentParams::new().user("hi".to_string()).with_run_id(RunId(7));
    let input = params.to_input(ThreadId(9));
    assert_eq!(input.run_id, RunId(7));
    assert_eq!(input.thread_id, ThreadId(9));
    assert_eq!(input.messages.len(), 1);
    assert_eq!(input.messages[0].content(), Some("hi"));
    assert_eq!(input.state, Value::Null);
}

#[test]
fn arguments_without_open_tool_call_change_nothing() {
    let mut h = EventHandler::new(vec![Message::new_user("q")], json("{}"));
    let e = Event::ToolCallArgs(ToolCallArgsEvent {
        base: BaseEvent::empty(),
        tool_call_id: ToolCallId("call_x".to_string()),
        delta: "{}".to_string(),
    });
    let notes = step(&mut h, &e).unwrap();
    assert!(notes.is_empty());
    assert!(h.last_tool_call().is_none());
    assert_eq!(h.messages.len(), 1);
}

#[test]
fn content_delta_extends_last_message_of_any_role() {
    let mut h = EventHandler::new(vec![Message::new_user("ab")], json("{}"));
    let notes = step(&mut h, &content(MessageId::random(), "c")).unwrap();
    assert_eq!(notes, vec![Notification::MessagesChanged]);
    assert_eq!(h.messages[0].content(), Some("abc"));
    assert_eq!(h.text_message_buffer(), "abc");
}

#[test]
fn initial_messages_are_not_returned_as_new() {
    let initial = vec![Message::new_user("q")];
    let ids = message_ids(&initial);
    let mut h = EventHandler::new(initial, json("{}"));
    let id = MessageId::random();
    step(&mut h, &Event::TextMessageStart(TextMessageStartEvent::new(id))).unwrap();
    let r = h.finish(&ids);
    assert_eq!(r.new_messages.len(), 1);
    assert_eq!(*r.new_messages[0].id(), id);
    assert_eq!(r.new_messages[0].content(), Some(""));
}

#[test]
fn subscriber_message_replacement_is_applied_and_announced() {
    let mut h = EventHandler::new(Vec::new(), json("{}"));
    let id = MessageId::random();
    let current = h.apply_default(&Event::TextMessageStart(TextMessageStartEvent::new(id))).unwrap();
    let extra = Message::new_system("injected");
    let extra_id = *extra.id();
    let proposal = AgentStateMutation {
        messages: Some(vec![extra]),
        state: None,
        stop_propagation: false,
    };
    let merged = h.merge_mutations(current, &vec![proposal]);
    assert_eq!(h.messages.len(), 1);
    assert_eq!(*h.messages[0].id(), extra_id);
    let notes = h.apply_mutation(merged);
    assert_eq!(notes, vec![Notification::NewMessage(0), Notification::MessagesChanged]);
}

#[test]
fn fresh_id_is_not_taken() {
    let ms = vec![Message::new_user("a"), Message::new_user("b")];
    let id = fresh_message_id(&ms);
    assert!(ms.iter().all(|m| *m.id() != id));
    let taken = vec![
        Message::User { id: MessageId(0), content: String::new(), name: None },
        Message::User { id: MessageId(1), content: String::new(), name: None },
    ];
    let id = fresh_message_id(&taken);
    assert!(taken.iter().all(|m| *m.id() != id));
}

#[test]
fn tool_message_helpers_make_call_ids() {
    let m = Message::new_tool("r");
    match m {
        Message::Tool { tool_call_id, error, .. } => {
            assert_eq!(tool_call_id.0.len(), 13);
            assert!(tool_call_id.0.starts_with("call_"));
            assert!(error.is_none());
        }
        _ => panic!("expected a tool message"),
    }
    match Message::new_user("u") {
        Message::User { name, .. } => assert!(name.is_none()),
        _ => panic!("expected a user message"),
    }
}
