//! Identifiers, messages, tool calls and the other values of a conversation.
use vstd::prelude::*;
use vstd::string::*;
use crate::text::push_char;

verus! {

/// Relies on `uuid::Uuid::new_v4`: a random version-4 UUID, as its 128-bit value.
/// Nothing is promised of the value.
#[verifier::external_body]
fn random_uuid_value() -> (r: u128) {
    uuid::Uuid::new_v4().as_u128()
}

/// An agent id: a 128-bit UUID value.
#[derive(Debug, Clone, Copy, PartialEq, Eq, Hash, Structural)]
pub struct AgentId(pub u128);

/// A thread id: a 128-bit UUID value.
#[derive(Debug, Clone, Copy, PartialEq, Eq, Hash, Structural)]
pub struct ThreadId(pub u128);

/// A run id: a 128-bit UUID value.
#[derive(Debug, Clone, Copy, PartialEq, Eq, Hash, Structural)]
pub struct RunId(pub u128);

/// A message id: a 128-bit UUID value.
#[derive(Debug, Clone, Copy, PartialEq, Eq, Hash, Structural)]
pub struct MessageId(pub u128);

impl AgentId {
    /// A fresh random id.
    pub fn random() -> (r: AgentId) {
        AgentId(random_uuid_value())
    }
}

impl ThreadId {
    /// A fresh random id.
    pub fn random() -> (r: ThreadId) {
        ThreadId(random_uuid_value())
    }
}

impl RunId {
    /// A fresh random id.
    pub fn random() -> (r: RunId) {
        RunId(random_uuid_value())
    }
}

impl MessageId {
    /// A fresh random id.
    pub fn random() -> (r: MessageId) {
        MessageId(random_uuid_value())
    }
}

/// A tool call id, of the form `call_` followed by eight lower-case hex digits
/// when made here; any text when received.
#[derive(Debug, Clone, PartialEq, Eq, Hash)]
pub struct ToolCallId(pub String);

pub open spec fn tool_call_prefix() -> Seq<char> {
    seq!['c', 'a', 'l', 'l', '_']
}

/// A lower-case hexadecimal digit.
pub open spec fn is_lower_hex(c: char) -> bool {
    (48 <= c as u32 && c as u32 <= 57) || (97 <= c as u32 && c as u32 <= 102)
}

/// The form of a tool call id made here: `call_` and eight lower-case hex digits.
pub open spec fn generated_tool_call_id(t: Seq<char>) -> bool {
    &&& t.len() == 13
    &&& t.subrange(0, 5) == tool_call_prefix()
    &&& forall|j: int| 5 <= j < 13 ==> is_lower_hex(#[trigger] t[j])
}

/// The lower-case hex digit of a value below 16.
pub open spec fn hex_digit(d: u32) -> char {
    if d < 10 {
        ((d + 48) as u8) as char
    } else {
        ((d + 87) as u8) as char
    }
}

fn hex_digit_exec(d: u32) -> (c: char)
    requires
        d < 16,
    ensures
        c == hex_digit(d),
        is_lower_hex(c),
{
    if d < 10 {
        ((d + 48) as u8) as char
    } else {
        ((d + 87) as u8) as char
    }
}

impl ToolCallId {
    /// A fresh id: `call_` and the first eight hex digits of a random UUID.
    pub fn random() -> (r: ToolCallId)
        ensures
            generated_tool_call_id(r.0@),
    {
        let top = (random_uuid_value() >> 96u32) as u32;
        let mut s = String::from_str("call_");
        proof {
            reveal_strlit("call_");
        }
        let mut i: u32 = 0;
        while i < 8
            invariant
                i <= 8,
                s@.len() == 5 + i,
                s@.subrange(0, 5) == tool_call_prefix(),
                forall|j: int| 5 <= j < s@.len() ==> is_lower_hex(#[trigger] s@[j]),
            decreases 8 - i,
        {
            let sh: u32 = (7 - i) * 4;
            let d = (top >> sh) & 15u32;
            assert(d < 16) by (bit_vector)
                requires
                    d == (top >> sh) & 15u32,
            ;
            let ghost before = s@;
            push_char(&mut s, hex_digit_exec(d));
            assert(s@.subrange(0, 5) =~= before.subrange(0, 5));
            i = i + 1;
        }
        ToolCallId(s)
    }

    pub fn as_str(&self) -> (r: &str)
        ensures
            r@ == self.0@,
    {
        self.0.as_str()
    }
}

/// The function that a tool call invokes, with its raw argument text.
#[derive(Debug, Clone, PartialEq)]
pub struct FunctionCall {
    pub name: String,
    pub arguments: String,
}

/// The role of a message's author.
#[derive(Debug, Clone, Copy, PartialEq, Eq, Structural)]
pub enum Role {
    Developer,
    System,
    Assistant,
    User,
    Tool,
}

impl Role {
    pub fn developer() -> (r: Role)
        ensures
            r == Role::Developer,
    {
        Role::Developer
    }

    pub fn system() -> (r: Role)
        ensures
            r == Role::System,
    {
        Role::System
    }

    pub fn assistant() -> (r: Role)
        ensures
            r == Role::Assistant,
    {
        Role::Assistant
    }

    pub fn user() -> (r: Role)
        ensures
            r == Role::User,
    {
        Role::User
    }

    pub fn tool() -> (r: Role)
        ensures
            r == Role::Tool,
    {
        Role::Tool
    }
}

/// A tool call made by the model: its id, the call kind (`function`) and the
/// function with its argument text, accumulated from deltas.
#[derive(Debug, Clone, PartialEq)]
pub struct ToolCall {
    pub id: ToolCallId,
    pub call_type: String,
    pub function: FunctionCall,
}

pub open spec fn function_kind() -> Seq<char> {
    seq!['f', 'u', 'n', 'c', 't', 'i', 'o', 'n']
}

/// The text of a tool call's fields.
pub struct ToolCallModel {
    pub id: Seq<char>,
    pub call_type: Seq<char>,
    pub name: Seq<char>,
    pub arguments: Seq<char>,
}

impl View for ToolCall {
    type V = ToolCallModel;

    open spec fn view(&self) -> ToolCallModel {
        ToolCallModel {
            id: self.id.0@,
            call_type: self.call_type@,
            name: self.function.name@,
            arguments: self.function.arguments@,
        }
    }
}

/// The models of a list of tool calls.
pub open spec fn calls_view(v: Seq<ToolCall>) -> Seq<ToolCallModel> {
    v.map_values(|t: ToolCall| t@)
}

impl ToolCall {
    pub fn new(id: ToolCallId, function: FunctionCall) -> (r: ToolCall)
        ensures
            r.id == id,
            r.call_type@ == function_kind(),
            r.function == function,
    {
        proof {
            reveal_strlit("function");
        }
        ToolCall { id, call_type: String::from_str("function"), function }
    }

    /// An exact copy.
    pub fn duplicate(&self) -> (r: ToolCall)
        ensures
            r == *self,
    {
        ToolCall {
            id: ToolCallId(self.id.0.clone()),
            call_type: self.call_type.clone(),
            function: FunctionCall {
                name: self.function.name.clone(),
                arguments: self.function.arguments.clone(),
            },
        }
    }
}

/// A message with a basic optional content.
#[derive(Debug, Clone, PartialEq)]
pub struct BaseMessage {
    pub id: MessageId,
    pub role: Role,
    pub content: Option<String>,
    pub name: Option<String>,
}

/// A developer message.
#[derive(Debug, Clone, PartialEq)]
pub struct DeveloperMessage {
    pub id: MessageId,
    pub role: Role,
    pub content: String,
    pub name: Option<String>,
}

impl DeveloperMessage {
    pub fn new(id: MessageId, content: String) -> (r: DeveloperMessage)
        ensures
            r == (DeveloperMessage { id, role: Role::Developer, content, name: None }),
    {
        DeveloperMessage { id, role: Role::Developer, content, name: None }
    }

    pub fn with_name(self, name: String) -> (r: DeveloperMessage)
        ensures
            r == (DeveloperMessage { name: Some(name), ..self }),
    {
        DeveloperMessage { name: Some(name), ..self }
    }
}

/// A system message.
#[derive(Debug, Clone, PartialEq)]
pub struct SystemMessage {
    pub id: MessageId,
    pub role: Role,
    pub content: String,
    pub name: Option<String>,
}

impl SystemMessage {
    pub fn new(id: MessageId, content: String) -> (r: SystemMessage)
        ensures
            r == (SystemMessage { id, role: Role::System, content, name: None }),
    {
        SystemMessage { id, role: Role::System, content, name: None }
    }

    pub fn with_name(self, name: String) -> (r: SystemMessage)
        ensures
            r == (SystemMessage { name: Some(name), ..self }),
    {
        SystemMessage { name: Some(name), ..self }
    }
}

/// An assistant message.
#[derive(Debug, Clone, PartialEq)]
pub struct AssistantMessage {
    pub id: MessageId,
    pub role: Role,
    pub content: Option<String>,
    pub name: Option<String>,
    pub tool_calls: Option<Vec<ToolCall>>,
}

impl AssistantMessage {
    pub fn new(id: MessageId) -> (r: AssistantMessage)
        ensures
            r == (AssistantMessage {
                id,
                role: Role::Assistant,
                content: None,
                name: None,
                tool_calls: None,
            }),
    {
        AssistantMessage { id, role: Role::Assistant, content: None, name: None, tool_calls: None }
    }

    pub fn with_content(self, content: String) -> (r: AssistantMessage)
        ensures
            r == (AssistantMessage { content: Some(content), ..self }),
    {
        AssistantMessage { content: Some(content), ..self }
    }

    pub fn with_name(self, name: String) -> (r: AssistantMessage)
        ensures
            r == (AssistantMessage { name: Some(name), ..self }),
    {
        AssistantMessage { name: Some(name), ..self }
    }

    pub fn with_tool_calls(self, tool_calls: Vec<ToolCall>) -> (r: AssistantMessage)
        ensures
            r == (AssistantMessage { tool_calls: Some(tool_calls), ..self }),
    {
        AssistantMessage { tool_calls: Some(tool_calls), ..self }
    }
}

/// A user message.
#[derive(Debug, Clone, PartialEq)]
pub struct UserMessage {
    pub id: MessageId,
    pub role: Role,
    pub content: String,
    pub name: Option<String>,
}

impl UserMessage {
    pub fn new(id: MessageId, content: String) -> (r: UserMessage)
        ensures
            r == (UserMessage { id, role: Role::User, content, name: None }),
    {
        UserMessage { id, role: Role::User, content, name: None }
    }

    pub fn with_name(self, name: String) -> (r: UserMessage)
        ensures
            r == (UserMessage { name: Some(name), ..self }),
    {
        UserMessage { name: Some(name), ..self }
    }
}

/// The result of a tool call.
#[derive(Debug, Clone, PartialEq)]
pub struct ToolMessage {
    pub id: MessageId,
    pub content: String,
    pub role: Role,
    pub tool_call_id: ToolCallId,
    pub error: Option<String>,
}

impl ToolMessage {
    pub fn new(id: MessageId, content: String, tool_call_id: ToolCallId) -> (r: ToolMessage)
        ensures
            r == (ToolMessage { id, content, role: Role::Tool, tool_call_id, error: None }),
    {
        ToolMessage { id, content, role: Role::Tool, tool_call_id, error: None }
    }

    pub fn with_error(self, error: String) -> (r: ToolMessage)
        ensures
            r == (ToolMessage { error: Some(error), ..self }),
    {
        ToolMessage { error: Some(error), ..self }
    }
}

/// A message of the conversation, by role.
#[derive(Debug, Clone, PartialEq)]
pub enum Message {
    Developer { id: MessageId, content: String, name: Option<String> },
    System { id: MessageId, content: String, name: Option<String> },
    Assistant {
        id: MessageId,
        content: Option<String>,
        name: Option<String>,
        tool_calls: Option<Vec<ToolCall>>,
    },
    User { id: MessageId, content: String, name: Option<String> },
    Tool { id: MessageId, content: String, tool_call_id: ToolCallId, error: Option<String> },
}

/// The content of a message, field by field; the variant shows in `role`, and
/// fields that a variant does not have are `None`.
pub struct MessageModel {
    pub role: Role,
    pub id: MessageId,
    pub content: Option<Seq<char>>,
    pub name: Option<Seq<char>>,
    pub tool_calls: Option<Seq<ToolCallModel>>,
    pub tool_call_id: Option<Seq<char>>,
    pub error: Option<Seq<char>>,
}

pub open spec fn opt_view(o: Option<String>) -> Option<Seq<char>> {
    match o {
        Some(s) => Some(s@),
        None => None,
    }
}

pub open spec fn opt_calls_view(o: Option<Vec<ToolCall>>) -> Option<Seq<ToolCallModel>> {
    match o {
        Some(v) => Some(calls_view(v@)),
        None => None,
    }
}

impl View for Message {
    type V = MessageModel;

    open spec fn view(&self) -> MessageModel {
        match *self {
            Message::Developer { id, content, name } => MessageModel {
                role: Role::Developer,
                id,
                content: Some(content@),
                name: opt_view(name),
                tool_calls: None,
                tool_call_id: None,
                error: None,
            },
            Message::System { id, content, name } => MessageModel {
                role: Role::System,
                id,
                content: Some(content@),
                name: opt_view(name),
                tool_calls: None,
                tool_call_id: None,
                error: None,
            },
            Message::Assistant { id, content, name, tool_calls } => MessageModel {
                role: Role::Assistant,
                id,
                content: opt_view(content),
                name: opt_view(name),
                tool_calls: opt_calls_view(tool_calls),
                tool_call_id: None,
                error: None,
            },
            Message::User { id, content, name } => MessageModel {
                role: Role::User,
                id,
                content: Some(content@),
                name: opt_view(name),
                tool_calls: None,
                tool_call_id: None,
                error: None,
            },
            Message::Tool { id, content, tool_call_id, error } => MessageModel {
                role: Role::Tool,
                id,
                content: Some(content@),
                name: None,
                tool_calls: None,
                tool_call_id: Some(tool_call_id.0@),
                error: opt_view(error),
            },
        }
    }
}

/// The models of a list of messages.
pub open spec fn msgs_view(ms: Seq<Message>) -> Seq<MessageModel> {
    ms.map_values(|m: Message| m@)
}

/// A copy of a list of tool calls, call for call.
pub fn duplicate_tool_calls(v: &Vec<ToolCall>) -> (r: Vec<ToolCall>)
    ensures
        calls_view(r@) == calls_view(v@),
{
    let mut r: Vec<ToolCall> = Vec::new();
    let mut i: usize = 0;
    while i < v.len()
        invariant
            i <= v@.len(),
            r@.len() == i,
            forall|k: int| 0 <= k < i ==> (#[trigger] r@[k])@ == v@[k]@,
        decreases v@.len() - i,
    {
        r.push(v[i].duplicate());
        i = i + 1;
    }
    assert(calls_view(r@) =~= calls_view(v@));
    r
}

fn duplicate_opt_string(o: &Option<String>) -> (r: Option<String>)
    ensures
        r == *o,
{
    match o {
        Some(s) => Some(s.clone()),
        None => None,
    }
}

/// A copy of a list of messages, message for message.
pub fn duplicate_messages(v: &Vec<Message>) -> (r: Vec<Message>)
    ensures
        msgs_view(r@) == msgs_view(v@),
{
    let mut r: Vec<Message> = Vec::new();
    let mut i: usize = 0;
    while i < v.len()
        invariant
            i <= v@.len(),
            r@.len() == i,
            forall|k: int| 0 <= k < i ==> (#[trigger] r@[k])@ == v@[k]@,
        decreases v@.len() - i,
    {
        r.push(v[i].duplicate());
        i = i + 1;
    }
    assert(msgs_view(r@) =~= msgs_view(v@));
    r
}

impl Message {
    /// A message of the given role, id and content. A tool message gets a fresh
    /// tool call id; an assistant message holds the content and no tool calls.
    pub fn new(role: Role, id: MessageId, content: &str) -> (r: Message)
        ensures
            r@.role == role,
            r@.id == id,
            r@.content == Some(content@),
            r@.name is None,
            r@.tool_calls is None,
            r@.error is None,
            role == Role::Tool <==> r@.tool_call_id is Some,
            role == Role::Tool ==> generated_tool_call_id(r@.tool_call_id->0),
    {
        let content = String::from_str(content);
        match role {
            Role::Developer => Message::Developer { id, content, name: None },
            Role::System => Message::System { id, content, name: None },
            Role::Assistant => Message::Assistant {
                id,
                content: Some(content),
                name: None,
                tool_calls: None,
            },
            Role::User => Message::User { id, content, name: None },
            Role::Tool => Message::Tool {
                id,
                content,
                tool_call_id: ToolCallId::random(),
                error: None,
            },
        }
    }

    /// A user message with a random id and no name.
    pub fn new_user(content: &str) -> (r: Message)
        ensures
            r@.role == Role::User,
            r@.content == Some(content@),
            r@.name is None,
            r@.tool_calls is None,
            r@.error is None,
            r@.tool_call_id is None,
    {
        Self::new(Role::User, MessageId::random(), content)
    }

    /// A tool message with a random id and a fresh tool call id.
    pub fn new_tool(content: &str) -> (r: Message)
        ensures
            r@.role == Role::Tool,
            r@.content == Some(content@),
            r@.name is None,
            r@.tool_calls is None,
            r@.error is None,
            r@.tool_call_id is Some && generated_tool_call_id(r@.tool_call_id->0),
    {
        Self::new(Role::Tool, MessageId::random(), content)
    }

    /// A system message with a random id and no name.
    pub fn new_system(content: &str) -> (r: Message)
        ensures
            r@.role == Role::System,
            r@.content == Some(content@),
            r@.name is None,
            r@.tool_calls is None,
            r@.error is None,
            r@.tool_call_id is None,
    {
        Self::new(Role::System, MessageId::random(), content)
    }

    /// An assistant message with a random id, no name and no tool calls.
    pub fn new_assistant(content: &str) -> (r: Message)
        ensures
            r@.role == Role::Assistant,
            r@.content == Some(content@),
            r@.name is None,
            r@.tool_calls is None,
            r@.error is None,
            r@.tool_call_id is None,
    {
        Self::new(Role::Assistant, MessageId::random(), content)
    }

    /// A developer message with a random id and no name.
    pub fn new_developer(content: &str) -> (r: Message)
        ensures
            r@.role == Role::Developer,
            r@.content == Some(content@),
            r@.name is None,
            r@.tool_calls is None,
            r@.error is None,
            r@.tool_call_id is None,
    {
        Self::new(Role::Developer, MessageId::random(), content)
    }

    pub fn id(&self) -> (r: &MessageId)
        ensures
            *r == self@.id,
    {
        match self {
            Message::Developer { id, .. } => id,
            Message::System { id, .. } => id,
            Message::Assistant { id, .. } => id,
            Message::User { id, .. } => id,
            Message::Tool { id, .. } => id,
        }
    }

    pub fn role(&self) -> (r: Role)
        ensures
            r == self@.role,
    {
        match self {
            Message::Developer { .. } => Role::Developer,
            Message::System { .. } => Role::System,
            Message::Assistant { .. } => Role::Assistant,
            Message::User { .. } => Role::User,
            Message::Tool { .. } => Role::Tool,
        }
    }

    pub fn content(&self) -> (r: Option<&str>)
        ensures
            match r {
                Some(s) => self@.content == Some(s@),
                None => self@.content is None,
            },
    {
        match self {
            Message::Developer { content, .. } => Some(content.as_str()),
            Message::System { content, .. } => Some(content.as_str()),
            Message::User { content, .. } => Some(content.as_str()),
            Message::Tool { content, .. } => Some(content.as_str()),
            Message::Assistant { content, .. } => match content {
                Some(c) => Some(c.as_str()),
                None => None,
            },
        }
    }

    pub fn tool_calls(&self) -> (r: Option<&[ToolCall]>)
        ensures
            match r {
                Some(s) => self@.tool_calls == Some(calls_view(s@)),
                None => self@.tool_calls is None,
            },
    {
        match self {
            Message::Assistant { tool_calls, .. } => match tool_calls {
                Some(v) => Some(v.as_slice()),
                None => None,
            },
            _ => None,
        }
    }

    pub fn id_mut(&mut self) -> (r: &mut MessageId)
        ensures
            *r == old(self)@.id,
            final(self)@ == (MessageModel { id: *final(r), ..old(self)@ }),
    {
        match self {
            Message::Developer { id, .. } => id,
            Message::System { id, .. } => id,
            Message::Assistant { id, .. } => id,
            Message::User { id, .. } => id,
            Message::Tool { id, .. } => id,
        }
    }

    /// The content, for editing; an assistant message without content first gets
    /// empty content.
    pub fn content_mut(&mut self) -> (r: Option<&mut String>)
        ensures
            r is Some,
            (*r->0)@ == match old(self)@.content {
                Some(c) => c,
                None => Seq::<char>::empty(),
            },
            final(self)@ == (MessageModel { content: Some((*final(r->0))@), ..old(self)@ }),
    {
        match self {
            Message::Developer { content, .. } => Some(content),
            Message::System { content, .. } => Some(content),
            Message::User { content, .. } => Some(content),
            Message::Tool { content, .. } => Some(content),
            Message::Assistant { content, .. } => {
                if content.is_none() {
                    *content = Some(String::new());
                }
                match content {
                    Some(c) => Some(c),
                    None => None,
                }
            },
        }
    }

    /// The tool calls of an assistant message, for editing (absent tool calls first
    /// become an empty list); `None` for other roles.
    pub fn tool_calls_mut(&mut self) -> (r: Option<&mut Vec<ToolCall>>)
        ensures
            (r is Some) == (old(self)@.role == Role::Assistant),
            r is Some ==> calls_view((*r->0)@) == match old(self)@.tool_calls {
                Some(v) => v,
                None => Seq::<ToolCallModel>::empty(),
            },
            r is Some ==> final(self)@ == (MessageModel {
                tool_calls: Some(calls_view((*final(r->0))@)),
                ..old(self)@
            }),
            r is None ==> final(self)@ == old(self)@,
    {
        match self {
            Message::Assistant { tool_calls, .. } => {
                if tool_calls.is_none() {
                    *tool_calls = Some(Vec::new());
                    assert(calls_view(Seq::<ToolCall>::empty()) =~= Seq::<ToolCallModel>::empty());
                }
                match tool_calls {
                    Some(v) => Some(v),
                    None => None,
                }
            },
            _ => None,
        }
    }

    /// A copy with the same content.
    pub fn duplicate(&self) -> (r: Message)
        ensures
            r@ == self@,
    {
        match self {
            Message::Developer { id, content, name } => Message::Developer {
                id: *id,
                content: content.clone(),
                name: duplicate_opt_string(name),
            },
            Message::System { id, content, name } => Message::System {
                id: *id,
                content: content.clone(),
                name: duplicate_opt_string(name),
            },
            Message::Assistant { id, content, name, tool_calls } => Message::Assistant {
                id: *id,
                content: duplicate_opt_string(content),
                name: duplicate_opt_string(name),
                tool_calls: match tool_calls {
                    Some(v) => Some(duplicate_tool_calls(v)),
                    None => None,
                },
            },
            Message::User { id, content, name } => Message::User {
                id: *id,
                content: content.clone(),
                name: duplicate_opt_string(name),
            },
            Message::Tool { id, content, tool_call_id, error } => Message::Tool {
                id: *id,
                content: content.clone(),
                tool_call_id: ToolCallId(tool_call_id.0.clone()),
                error: duplicate_opt_string(error),
            },
        }
    }
}

/// A context item handed to the agent.
#[derive(Debug, Clone, PartialEq, Eq)]
pub struct Context {
    /// A description of the context item.
    pub description: String,
    /// The value of the context item.
    pub value: String,
}

impl Context {
    pub fn new(description: String, value: String) -> (r: Context)
        ensures
            r == (Context { description, value }),
    {
        Context { description, value }
    }

    /// An exact copy.
    pub fn duplicate(&self) -> (r: Context)
        ensures
            r == *self,
    {
        Context { description: self.description.clone(), value: self.value.clone() }
    }
}

/// A tool that the agent may call, with a JSON schema of its parameters.
#[derive(Debug, Clone, PartialEq, Eq)]
pub struct Tool {
    /// The tool name.
    pub name: String,
    /// The tool description.
    pub description: String,
    /// The tool parameters.
    pub parameters: serde_json::Value,
}

impl Tool {
    pub fn new(name: String, description: String, parameters: serde_json::Value) -> (r: Tool)
        ensures
            r == (Tool { name, description, parameters }),
    {
        Tool { name, description, parameters }
    }

    /// An exact copy.
    pub fn duplicate(&self) -> (r: Tool)
        ensures
            r == *self,
    {
        Tool {
            name: self.name.clone(),
            description: self.description.clone(),
            parameters: self.parameters.clone(),
        }
    }
}

/// A copy of a list of tools.
pub fn duplicate_tools(v: &Vec<Tool>) -> (r: Vec<Tool>)
    ensures
        r@ == v@,
{
    let mut r: Vec<Tool> = Vec::new();
    let mut i: usize = 0;
    while i < v.len()
        invariant
            i <= v@.len(),
            r@ == v@.subrange(0, i as int),
        decreases v@.len() - i,
    {
        r.push(v[i].duplicate());
        assert(r@ =~= v@.subrange(0, i as int + 1));
        i = i + 1;
    }
    assert(v@.subrange(0, v@.len() as int) =~= v@);
    r
}

/// A copy of a list of context items.
pub fn duplicate_contexts(v: &Vec<Context>) -> (r: Vec<Context>)
    ensures
        r@ == v@,
{
    let mut r: Vec<Context> = Vec::new();
    let mut i: usize = 0;
    while i < v.len()
        invariant
            i <= v@.len(),
            r@ == v@.subrange(0, i as int),
        decreases v@.len() - i,
    {
        r.push(v[i].duplicate());
        assert(r@ =~= v@.subrange(0, i as int + 1));
        i = i + 1;
    }
    assert(v@.subrange(0, v@.len() as int) =~= v@);
    r
}

/// The request of one run: thread and run ids, state, the full message history,
/// the tool catalogue, context items and forwarded properties.
#[derive(Debug, Clone, PartialEq)]
pub struct RunAgentInput {
    pub thread_id: ThreadId,
    pub run_id: RunId,
    pub state: serde_json::Value,
    pub messages: Vec<Message>,
    pub tools: Vec<Tool>,
    pub context: Vec<Context>,
    pub forwarded_props: serde_json::Value,
}

impl RunAgentInput {
    pub fn new(
        thread_id: ThreadId,
        run_id: RunId,
        state: serde_json::Value,
        messages: Vec<Message>,
        tools: Vec<Tool>,
        context: Vec<Context>,
        forwarded_props: serde_json::Value,
    ) -> (r: RunAgentInput)
        ensures
            r == (RunAgentInput {
                thread_id,
                run_id,
                state,
                messages,
                tools,
                context,
                forwarded_props,
            }),
    {
        RunAgentInput { thread_id, run_id, state, messages, tools, context, forwarded_props }
    }
}

} // verus!
