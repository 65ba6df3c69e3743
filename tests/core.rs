use ag_ui_client::http::{bearer_value, status_error, status_is_success, supported_scheme};
use ag_ui_client::error::{AgUiClientError, AgUiError, TransportFailure};
use ag_ui_client::event::{EventType, EventValidationError, TextMessageContentEvent, TextMessageStartEvent};
use ag_ui_client::types::{
    AssistantMessage, Context, DeveloperMessage, FunctionCall, Message, MessageId, Role,
    SystemMessage, Tool, ToolCall, ToolCallId, ToolMessage, UserMessage,
};

#[test]
fn test_tool_call_random() {
    let id = ToolCallId::random();
    assert_eq!(id.0.len(), 5 + 8);
    assert!(id.0.starts_with("call_"));
    assert!(id.0[5..].chars().all(|c| c.is_ascii_hexdigit() && !c.is_ascii_uppercase()));
}

#[test]
fn test_message_types() {
    let dev_msg = DeveloperMessage::new(MessageId::random(), "dev content".to_string())
        .with_name("dev".to_string());
    assert_eq!(dev_msg.role, Role::Developer);
    assert_eq!(dev_msg.name, Some("dev".to_string()));

    let sys_msg = SystemMessage::new(MessageId::random(), "sys content".to_string())
        .with_name("sys".to_string());
    assert_eq!(sys_msg.role, Role::System);

    let user_msg = UserMessage::new(MessageId::random(), "user content".to_string())
        .with_name("user".to_string());
    assert_eq!(user_msg.role, Role::User);

    let tool_msg = ToolMessage::new(
        MessageId::random(),
        "result".to_string(),
        ToolCallId::random(),
    )
    .with_error("error".to_string());
    assert_eq!(tool_msg.role, Role::Tool);
    assert_eq!(tool_msg.error, Some("error".to_string()));
}

#[test]
fn test_tool_call_creation() {
    let function_call = FunctionCall {
        name: "test_function".to_string(),
        arguments: "{}".to_string(),
    };

    let tool_call = ToolCall::new(ToolCallId::random(), function_call);
    assert_eq!(tool_call.call_type, "function");
}

#[test]
fn test_assistant_message_builder() {
    let msg = AssistantMessage::new(MessageId::random())
        .with_content("Hello".to_string())
        .with_name("Assistant".to_string());

    assert_eq!(msg.content, Some("Hello".to_string()));
    assert_eq!(msg.name, Some("Assistant".to_string()));
}

#[test]
fn test_context_and_tool() {
    let context = Context::new("test desc".to_string(), "test value".to_string());
    assert_eq!(context.description, "test desc");

    let tool = Tool::new(
        "test_tool".to_string(),
        "tool desc".to_string(),
        serde_json::from_str(r#"{"type": "object"}"#).unwrap(),
    );
    assert_eq!(tool.name, "test_tool");
}

#[test]
fn test_agui_error() {
    let error = AgUiError::new("test error");
    assert_eq!(error.to_string(), "AG-UI Error: test error");
}

#[test]
fn status_retryability() {
    let status = |s: u16| AgUiClientError::HttpStatus { status: s, context: String::new() };
    assert!(status(500).is_retryable());
    assert!(status(429).is_retryable());
    assert!(status(503).is_retryable());
    assert!(status(599).is_retryable());
    assert!(!status(404).is_retryable());
    assert!(!status(400).is_retryable());
    assert!(!status(600).is_retryable());
    assert!(!status(499).is_retryable());
}

#[test]
fn transport_and_other_errors_retryability() {
    let t = |f: TransportFailure| AgUiClientError::HttpTransport { failure: f, message: String::new() };
    assert!(t(TransportFailure::Connect).is_retryable());
    assert!(t(TransportFailure::Timeout).is_retryable());
    assert!(t(TransportFailure::Request).is_retryable());
    assert!(!t(TransportFailure::Other).is_retryable());
    assert!(!AgUiClientError::config("bad".to_string()).is_retryable());
    assert!(AgUiClientError::config("bad".to_string()).is_user_input());
    assert!(!AgUiClientError::exec("x".to_string()).is_retryable());
    assert!(!AgUiClientError::exec("x".to_string()).is_user_input());
    assert!(!AgUiClientError::SseParse { message: String::new() }.is_retryable());
    assert!(!AgUiClientError::Subscriber { message: String::new() }.is_retryable());
    let json_err = serde_json::from_str::<serde_json::Value>("{").unwrap_err();
    assert!(!AgUiClientError::Json(json_err).is_retryable());
}

#[test]
fn message_accessors_by_role() {
    let id = MessageId::random();
    let m = Message::new(Role::Assistant, id, "hi");
    assert_eq!(*m.id(), id);
    assert_eq!(m.role(), Role::Assistant);
    assert_eq!(m.content(), Some("hi"));
    assert!(m.tool_calls().is_none());
    let t = Message::new_tool("out");
    assert_eq!(t.role(), Role::Tool);
    assert_eq!(t.content(), Some("out"));
    match &t {
        Message::Tool { tool_call_id, .. } => assert!(tool_call_id.as_str().starts_with("call_")),
        _ => panic!("expected a tool message"),
    }
    assert_eq!(Message::new_user("u").role(), Role::User);
    assert_eq!(Message::new_system("s").role(), Role::System);
    assert_eq!(Message::new_developer("d").role(), Role::Developer);
    let empty = Message::Assistant { id, content: None, name: None, tool_calls: None };
    assert_eq!(empty.content(), None);
}

#[test]
fn content_event_validation() {
    let id = MessageId::random();
    assert!(matches!(
        TextMessageContentEvent::new(id, String::new()),
        Err(EventValidationError::EmptyDelta)
    ));
    let e = TextMessageContentEvent::new(id, "x".to_string()).unwrap();
    assert_eq!(e.delta, "x");
    assert!(e.validate().is_ok());
    let s = TextMessageStartEvent::new(id);
    assert_eq!(s.role, Role::Assistant);
    assert_eq!(s.message_id, id);
    let _ = EventType::TextMessageStart;
}

#[test]
fn http_status_and_scheme_rules() {
    assert!(status_is_success(200));
    assert!(status_is_success(204));
    assert!(!status_is_success(301));
    assert!(!status_is_success(500));
    assert!(supported_scheme("http"));
    assert!(supported_scheme("https"));
    assert!(!supported_scheme("ftp"));
    assert!(!supported_scheme("httpx"));
    assert_eq!(bearer_value("tok"), "Bearer tok");
    let long = "é".repeat(600);
    match status_error(503, &long) {
        AgUiClientError::HttpStatus { status, context } => {
            assert_eq!(status, 503);
            assert_eq!(context.chars().count(), 512);
            assert!(context.chars().all(|c| c == 'é'));
        }
        _ => panic!("expected a status error"),
    }
    match status_error(404, "short") {
        AgUiClientError::HttpStatus { context, .. } => assert_eq!(context, "short"),
        _ => panic!("expected a status error"),
    }
}
