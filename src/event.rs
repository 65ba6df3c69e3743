//! The closed set of protocol events.
use vstd::prelude::*;
use vstd::string::*;
use crate::types::{Message, MessageId, Role, RunId, ThreadId, ToolCallId};

verus! {

/// The kind of an event.
#[derive(Debug, Clone, Copy, PartialEq, Eq, Structural)]
pub enum EventType {
    TextMessageStart,
    TextMessageContent,
    TextMessageEnd,
    TextMessageChunk,
    ThinkingTextMessageStart,
    ThinkingTextMessageContent,
    ThinkingTextMessageEnd,
    ToolCallStart,
    ToolCallArgs,
    ToolCallEnd,
    ToolCallResult,
    ToolCallChunk,
    ThinkingStart,
    ThinkingEnd,
    StateSnapshot,
    StateDelta,
    MessagesSnapshot,
    Raw,
    Custom,
    RunStarted,
    RunFinished,
    RunError,
    StepStarted,
    StepFinished,
}

/// Fields common to all events: an optional timestamp and the raw payload.
#[derive(Debug, Clone, PartialEq)]
pub struct BaseEvent {
    pub timestamp: Option<serde_json::Number>,
    pub raw_event: Option<serde_json::Value>,
}

impl BaseEvent {
    /// No timestamp and no raw payload.
    pub fn empty() -> (r: BaseEvent)
        ensures
            r.timestamp is None,
            r.raw_event is None,
    {
        BaseEvent { timestamp: None, raw_event: None }
    }
}

/// Event indicating the start of a text message.
#[derive(Debug, Clone, PartialEq)]
pub struct TextMessageStartEvent {
    pub base: BaseEvent,
    pub message_id: MessageId,
    pub role: Role,
}

/// Event containing a piece of text message content.
#[derive(Debug, Clone, PartialEq)]
pub struct TextMessageContentEvent {
    pub base: BaseEvent,
    pub message_id: MessageId,
    pub delta: String,
}

/// Event indicating the end of a text message.
#[derive(Debug, Clone, PartialEq)]
pub struct TextMessageEndEvent {
    pub base: BaseEvent,
    pub message_id: MessageId,
}

/// Event carrying start, content and end information of a text message at once.
#[derive(Debug, Clone, PartialEq)]
pub struct TextMessageChunkEvent {
    pub base: BaseEvent,
    pub message_id: Option<MessageId>,
    pub role: Role,
    pub delta: Option<String>,
}

/// Event indicating the start of a thinking text message.
#[derive(Debug, Clone, PartialEq)]
pub struct ThinkingTextMessageStartEvent {
    pub base: BaseEvent,
}

/// Event containing a piece of a thinking text message.
#[derive(Debug, Clone, PartialEq)]
pub struct ThinkingTextMessageContentEvent {
    pub base: BaseEvent,
    pub delta: String,
}

/// Event indicating the end of a thinking text message.
#[derive(Debug, Clone, PartialEq)]
pub struct ThinkingTextMessageEndEvent {
    pub base: BaseEvent,
}

/// Event indicating the start of a tool call.
#[derive(Debug, Clone, PartialEq)]
pub struct ToolCallStartEvent {
    pub base: BaseEvent,
    pub tool_call_id: ToolCallId,
    pub tool_call_name: String,
    pub parent_message_id: Option<MessageId>,
}

/// Event containing a piece of tool call arguments.
#[derive(Debug, Clone, PartialEq)]
pub struct ToolCallArgsEvent {
    pub base: BaseEvent,
    pub tool_call_id: ToolCallId,
    pub delta: String,
}

/// Event indicating the end of a tool call.
#[derive(Debug, Clone, PartialEq)]
pub struct ToolCallEndEvent {
    pub base: BaseEvent,
    pub tool_call_id: ToolCallId,
}

/// Event containing the result of a tool call.
#[derive(Debug, Clone, PartialEq)]
pub struct ToolCallResultEvent {
    pub base: BaseEvent,
    pub message_id: MessageId,
    pub tool_call_id: ToolCallId,
    pub content: String,
    pub role: Role,
}

/// Event carrying start, arguments and end information of a tool call at once.
#[derive(Debug, Clone, PartialEq)]
pub struct ToolCallChunkEvent {
    pub base: BaseEvent,
    pub tool_call_id: Option<ToolCallId>,
    pub tool_call_name: Option<String>,
    pub parent_message_id: Option<MessageId>,
    pub delta: Option<String>,
}

/// Event indicating the start of a thinking step.
#[derive(Debug, Clone, PartialEq)]
pub struct ThinkingStartEvent {
    pub base: BaseEvent,
    pub title: Option<String>,
}

/// Event indicating the end of a thinking step.
#[derive(Debug, Clone, PartialEq)]
pub struct ThinkingEndEvent {
    pub base: BaseEvent,
}

/// Event containing a complete snapshot of the state.
#[derive(Debug, Clone, PartialEq)]
pub struct StateSnapshotEvent {
    pub base: BaseEvent,
    pub snapshot: serde_json::Value,
}

/// Event containing JSON Patch (RFC 6902) operations to apply to the state.
#[derive(Debug, Clone, PartialEq)]
pub struct StateDeltaEvent {
    pub base: BaseEvent,
    pub delta: Vec<serde_json::Value>,
}

/// Event containing a snapshot of all messages.
#[derive(Debug, Clone, PartialEq)]
pub struct MessagesSnapshotEvent {
    pub base: BaseEvent,
    pub messages: Vec<Message>,
}

/// Event wrapping an event of an external source.
#[derive(Debug, Clone, PartialEq)]
pub struct RawEvent {
    pub base: BaseEvent,
    pub event: serde_json::Value,
    pub source: Option<String>,
}

/// Application-specific event with a name and a value.
#[derive(Debug, Clone, PartialEq)]
pub struct CustomEvent {
    pub base: BaseEvent,
    pub name: String,
    pub value: serde_json::Value,
}

/// Event indicating that a run has started.
#[derive(Debug, Clone, PartialEq)]
pub struct RunStartedEvent {
    pub base: BaseEvent,
    pub thread_id: ThreadId,
    pub run_id: RunId,
}

/// Event indicating that a run has finished, with an optional result.
#[derive(Debug, Clone, PartialEq)]
pub struct RunFinishedEvent {
    pub base: BaseEvent,
    pub thread_id: ThreadId,
    pub run_id: RunId,
    pub result: Option<serde_json::Value>,
}

/// Event indicating that a run has failed.
#[derive(Debug, Clone, PartialEq)]
pub struct RunErrorEvent {
    pub base: BaseEvent,
    pub message: String,
    pub code: Option<String>,
}

/// Event indicating that a named step has started.
#[derive(Debug, Clone, PartialEq)]
pub struct StepStartedEvent {
    pub base: BaseEvent,
    pub step_name: String,
}

/// Event indicating that a named step has finished.
#[derive(Debug, Clone, PartialEq)]
pub struct StepFinishedEvent {
    pub base: BaseEvent,
    pub step_name: String,
}

/// An event of the protocol.
#[derive(Debug, Clone, PartialEq)]
pub enum Event {
    TextMessageStart(TextMessageStartEvent),
    TextMessageContent(TextMessageContentEvent),
    TextMessageEnd(TextMessageEndEvent),
    TextMessageChunk(TextMessageChunkEvent),
    ThinkingTextMessageStart(ThinkingTextMessageStartEvent),
    ThinkingTextMessageContent(ThinkingTextMessageContentEvent),
    ThinkingTextMessageEnd(ThinkingTextMessageEndEvent),
    ToolCallStart(ToolCallStartEvent),
    ToolCallArgs(ToolCallArgsEvent),
    ToolCallEnd(ToolCallEndEvent),
    ToolCallResult(ToolCallResultEvent),
    ToolCallChunk(ToolCallChunkEvent),
    ThinkingStart(ThinkingStartEvent),
    ThinkingEnd(ThinkingEndEvent),
    StateSnapshot(StateSnapshotEvent),
    StateDelta(StateDeltaEvent),
    MessagesSnapshot(MessagesSnapshotEvent),
    Raw(RawEvent),
    Custom(CustomEvent),
    RunStarted(RunStartedEvent),
    RunFinished(RunFinishedEvent),
    RunError(RunErrorEvent),
    StepStarted(StepStartedEvent),
    StepFinished(StepFinishedEvent),
}

/// The kind of an event.
pub open spec fn kind_of(e: Event) -> EventType {
    match e {
        Event::TextMessageStart(_) => EventType::TextMessageStart,
        Event::TextMessageContent(_) => EventType::TextMessageContent,
        Event::TextMessageEnd(_) => EventType::TextMessageEnd,
        Event::TextMessageChunk(_) => EventType::TextMessageChunk,
        Event::ThinkingTextMessageStart(_) => EventType::ThinkingTextMessageStart,
        Event::ThinkingTextMessageContent(_) => EventType::ThinkingTextMessageContent,
        Event::ThinkingTextMessageEnd(_) => EventType::ThinkingTextMessageEnd,
        Event::ToolCallStart(_) => EventType::ToolCallStart,
        Event::ToolCallArgs(_) => EventType::ToolCallArgs,
        Event::ToolCallEnd(_) => EventType::ToolCallEnd,
        Event::ToolCallResult(_) => EventType::ToolCallResult,
        Event::ToolCallChunk(_) => EventType::ToolCallChunk,
        Event::ThinkingStart(_) => EventType::ThinkingStart,
        Event::ThinkingEnd(_) => EventType::ThinkingEnd,
        Event::StateSnapshot(_) => EventType::StateSnapshot,
        Event::StateDelta(_) => EventType::StateDelta,
        Event::MessagesSnapshot(_) => EventType::MessagesSnapshot,
        Event::Raw(_) => EventType::Raw,
        Event::Custom(_) => EventType::Custom,
        Event::RunStarted(_) => EventType::RunStarted,
        Event::RunFinished(_) => EventType::RunFinished,
        Event::RunError(_) => EventType::RunError,
        Event::StepStarted(_) => EventType::StepStarted,
        Event::StepFinished(_) => EventType::StepFinished,
    }
}

/// The fields common to all events, of an event.
pub open spec fn base_of(e: Event) -> BaseEvent {
    match e {
        Event::TextMessageStart(x) => x.base,
        Event::TextMessageContent(x) => x.base,
        Event::TextMessageEnd(x) => x.base,
        Event::TextMessageChunk(x) => x.base,
        Event::ThinkingTextMessageStart(x) => x.base,
        Event::ThinkingTextMessageContent(x) => x.base,
        Event::ThinkingTextMessageEnd(x) => x.base,
        Event::ToolCallStart(x) => x.base,
        Event::ToolCallArgs(x) => x.base,
        Event::ToolCallEnd(x) => x.base,
        Event::ToolCallResult(x) => x.base,
        Event::ToolCallChunk(x) => x.base,
        Event::ThinkingStart(x) => x.base,
        Event::ThinkingEnd(x) => x.base,
        Event::StateSnapshot(x) => x.base,
        Event::StateDelta(x) => x.base,
        Event::MessagesSnapshot(x) => x.base,
        Event::Raw(x) => x.base,
        Event::Custom(x) => x.base,
        Event::RunStarted(x) => x.base,
        Event::RunFinished(x) => x.base,
        Event::RunError(x) => x.base,
        Event::StepStarted(x) => x.base,
        Event::StepFinished(x) => x.base,
    }
}

impl Event {
    /// The kind of the event.
    pub fn event_type(&self) -> (r: EventType)
        ensures
            r == kind_of(*self),
    {
        match self {
            Event::TextMessageStart(_) => EventType::TextMessageStart,
            Event::TextMessageContent(_) => EventType::TextMessageContent,
            Event::TextMessageEnd(_) => EventType::TextMessageEnd,
            Event::TextMessageChunk(_) => EventType::TextMessageChunk,
            Event::ThinkingTextMessageStart(_) => EventType::ThinkingTextMessageStart,
            Event::ThinkingTextMessageContent(_) => EventType::ThinkingTextMessageContent,
            Event::ThinkingTextMessageEnd(_) => EventType::ThinkingTextMessageEnd,
            Event::ToolCallStart(_) => EventType::ToolCallStart,
            Event::ToolCallArgs(_) => EventType::ToolCallArgs,
            Event::ToolCallEnd(_) => EventType::ToolCallEnd,
            Event::ToolCallResult(_) => EventType::ToolCallResult,
            Event::ToolCallChunk(_) => EventType::ToolCallChunk,
            Event::ThinkingStart(_) => EventType::ThinkingStart,
            Event::ThinkingEnd(_) => EventType::ThinkingEnd,
            Event::StateSnapshot(_) => EventType::StateSnapshot,
            Event::StateDelta(_) => EventType::StateDelta,
            Event::MessagesSnapshot(_) => EventType::MessagesSnapshot,
            Event::Raw(_) => EventType::Raw,
            Event::Custom(_) => EventType::Custom,
            Event::RunStarted(_) => EventType::RunStarted,
            Event::RunFinished(_) => EventType::RunFinished,
            Event::RunError(_) => EventType::RunError,
            Event::StepStarted(_) => EventType::StepStarted,
            Event::StepFinished(_) => EventType::StepFinished,
        }
    }

    /// The fields common to all events.
    pub fn base(&self) -> (r: &BaseEvent)
        ensures
            *r == base_of(*self),
    {
        match self {
            Event::TextMessageStart(e) => &e.base,
            Event::TextMessageContent(e) => &e.base,
            Event::TextMessageEnd(e) => &e.base,
            Event::TextMessageChunk(e) => &e.base,
            Event::ThinkingTextMessageStart(e) => &e.base,
            Event::ThinkingTextMessageContent(e) => &e.base,
            Event::ThinkingTextMessageEnd(e) => &e.base,
            Event::ToolCallStart(e) => &e.base,
            Event::ToolCallArgs(e) => &e.base,
            Event::ToolCallEnd(e) => &e.base,
            Event::ToolCallResult(e) => &e.base,
            Event::ToolCallChunk(e) => &e.base,
            Event::ThinkingStart(e) => &e.base,
            Event::ThinkingEnd(e) => &e.base,
            Event::StateSnapshot(e) => &e.base,
            Event::StateDelta(e) => &e.base,
            Event::MessagesSnapshot(e) => &e.base,
            Event::Raw(e) => &e.base,
            Event::Custom(e) => &e.base,
            Event::RunStarted(e) => &e.base,
            Event::RunFinished(e) => &e.base,
            Event::RunError(e) => &e.base,
            Event::StepStarted(e) => &e.base,
            Event::StepFinished(e) => &e.base,
        }
    }
}

/// Validation failures when building events.
#[derive(Debug, Clone, PartialEq, Eq)]
pub enum EventValidationError {
    /// A delta must not be empty.
    EmptyDelta,
    /// The event is malformed.
    InvalidFormat(String),
}

impl TextMessageContentEvent {
    /// A content event must carry a non-empty delta.
    pub fn validate(&self) -> (r: Result<(), EventValidationError>)
        ensures
            r is Ok <==> self.delta@.len() > 0,
            r is Err ==> r == Err::<(), EventValidationError>(EventValidationError::EmptyDelta),
    {
        if self.delta.as_str().unicode_len() == 0 {
            return Err(EventValidationError::EmptyDelta);
        }
        Ok(())
    }

    pub fn new(message_id: MessageId, delta: String) -> (r: Result<
        TextMessageContentEvent,
        EventValidationError,
    >)
        ensures
            match r {
                Ok(e) => delta@.len() > 0 && e.message_id == message_id && e.delta == delta
                    && e.base.timestamp is None && e.base.raw_event is None,
                Err(err) => delta@.len() == 0 && err == EventValidationError::EmptyDelta,
            },
    {
        let event = TextMessageContentEvent { base: BaseEvent::empty(), message_id, delta };
        match event.validate() {
            Ok(()) => Ok(event),
            Err(e) => Err(e),
        }
    }
}

impl TextMessageStartEvent {
    /// The start of an assistant message.
    pub fn new(message_id: MessageId) -> (r: TextMessageStartEvent)
        ensures
            r.message_id == message_id,
            r.role == Role::Assistant,
            r.base.timestamp is None,
            r.base.raw_event is None,
    {
        TextMessageStartEvent { base: BaseEvent::empty(), message_id, role: Role::Assistant }
    }

    pub fn with_raw_event(self, raw_event: serde_json::Value) -> (r: TextMessageStartEvent)
        ensures
            r == (TextMessageStartEvent {
                base: BaseEvent { raw_event: Some(raw_event), ..self.base },
                ..self
            }),
    {
        TextMessageStartEvent { base: BaseEvent { raw_event: Some(raw_event), ..self.base }, ..self }
    }
}

} // verus!
