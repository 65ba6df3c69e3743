//! Values exchanged around a run: mutations proposed by subscribers, the run's
//! result, its input and configuration.
use vstd::prelude::*;
use crate::json::json_null;
use crate::types::{
    duplicate_contexts, duplicate_messages, duplicate_tools, msgs_view, AgentId, Context, Message,
    MessageId, MessageModel, RunAgentInput, RunId, ThreadId, Tool,
};

verus! {

/// A change proposed by a subscriber: replacement messages, replacement state,
/// and whether the mutations after it are to be ignored.
#[derive(Debug, Clone)]
pub struct AgentStateMutation {
    pub messages: Option<Vec<Message>>,
    pub state: Option<serde_json::Value>,
    pub stop_propagation: bool,
}

/// The content of a mutation.
pub struct MutationModel {
    pub messages: Option<Seq<MessageModel>>,
    pub state: Option<serde_json::Value>,
    pub stop: bool,
}

pub open spec fn opt_msgs_view(o: Option<Vec<Message>>) -> Option<Seq<MessageModel>> {
    match o {
        Some(v) => Some(msgs_view(v@)),
        None => None,
    }
}

impl View for AgentStateMutation {
    type V = MutationModel;

    open spec fn view(&self) -> MutationModel {
        MutationModel {
            messages: opt_msgs_view(self.messages),
            state: self.state,
            stop: self.stop_propagation,
        }
    }
}

impl AgentStateMutation {
    /// No change, and propagation continues.
    pub fn default() -> (r: AgentStateMutation)
        ensures
            r.messages is None,
            r.state is None,
            !r.stop_propagation,
    {
        AgentStateMutation { messages: None, state: None, stop_propagation: false }
    }
}

/// The outcome of a run: the result payload of `RunFinished` (`None` when there
/// was none), the messages that the run introduced, and the final state.
#[derive(Debug, Clone)]
pub struct RunAgentResult {
    pub result: Option<serde_json::Value>,
    pub new_messages: Vec<Message>,
    pub new_state: serde_json::Value,
}

/// Configuration of an agent.
#[derive(Debug, Clone)]
pub struct AgentConfig {
    pub agent_id: Option<AgentId>,
    pub description: Option<String>,
    pub thread_id: Option<ThreadId>,
    pub initial_messages: Option<Vec<Message>>,
    pub initial_state: Option<serde_json::Value>,
    pub debug: Option<bool>,
}

impl AgentConfig {
    /// Nothing configured.
    pub fn default() -> (r: AgentConfig)
        ensures
            r.agent_id is None,
            r.description is None,
            r.thread_id is None,
            r.initial_messages is None,
            r.initial_state is None,
            r.debug is None,
    {
        AgentConfig {
            agent_id: None,
            description: None,
            thread_id: None,
            initial_messages: None,
            initial_state: None,
            debug: None,
        }
    }
}

/// Parameters of one run, built up by the caller.
#[derive(Debug, Clone)]
pub struct RunAgentParams {
    pub run_id: Option<RunId>,
    pub tools: Vec<Tool>,
    pub context: Vec<Context>,
    pub forwarded_props: serde_json::Value,
    pub messages: Vec<Message>,
    pub state: serde_json::Value,
}

impl RunAgentParams {
    /// No run id, tools, context or messages; null state and forwarded properties.
    pub fn new() -> (r: RunAgentParams)
        ensures
            r.run_id is None,
            r.tools@.len() == 0,
            r.context@.len() == 0,
            r.messages@.len() == 0,
    {
        RunAgentParams {
            run_id: None,
            tools: Vec::new(),
            context: Vec::new(),
            forwarded_props: json_null(),
            messages: Vec::new(),
            state: json_null(),
        }
    }

    pub fn with_run_id(self, run_id: RunId) -> (r: RunAgentParams)
        ensures
            r == (RunAgentParams { run_id: Some(run_id), ..self }),
    {
        RunAgentParams { run_id: Some(run_id), ..self }
    }

    pub fn add_tool(self, tool: Tool) -> (r: RunAgentParams)
        ensures
            r.tools@ == self.tools@.push(tool),
            r.run_id == self.run_id && r.context == self.context && r.messages == self.messages,
            r.state == self.state && r.forwarded_props == self.forwarded_props,
    {
        let mut p = self;
        p.tools.push(tool);
        p
    }

    pub fn add_context(self, ctx: Context) -> (r: RunAgentParams)
        ensures
            r.context@ == self.context@.push(ctx),
            r.run_id == self.run_id && r.tools == self.tools && r.messages == self.messages,
            r.state == self.state && r.forwarded_props == self.forwarded_props,
    {
        let mut p = self;
        p.context.push(ctx);
        p
    }

    pub fn with_forwarded_props(self, props: serde_json::Value) -> (r: RunAgentParams)
        ensures
            r == (RunAgentParams { forwarded_props: props, ..self }),
    {
        RunAgentParams { forwarded_props: props, ..self }
    }

    pub fn with_state(self, state: serde_json::Value) -> (r: RunAgentParams)
        ensures
            r == (RunAgentParams { state, ..self }),
    {
        RunAgentParams { state, ..self }
    }

    pub fn add_message(self, msg: Message) -> (r: RunAgentParams)
        ensures
            r.messages@ == self.messages@.push(msg),
            r.run_id == self.run_id && r.tools == self.tools && r.context == self.context,
            r.state == self.state && r.forwarded_props == self.forwarded_props,
    {
        let mut p = self;
        p.messages.push(msg);
        p
    }

    /// Adds a user message with a random id and the given content.
    pub fn user(self, content: String) -> (r: RunAgentParams)
        ensures
            r.messages@.len() == self.messages@.len() + 1,
            r.messages@.subrange(0, self.messages@.len() as int) == self.messages@,
            r.messages@.last() matches Message::User { content: c, name, .. } && c == content
                && name is None,
            r.run_id == self.run_id && r.tools == self.tools && r.context == self.context,
            r.state == self.state && r.forwarded_props == self.forwarded_props,
    {
        let mut p = self;
        p.messages.push(Message::User { id: MessageId::random(), content, name: None });
        assert(p.messages@.subrange(0, self.messages@.len() as int) =~= self.messages@);
        p
    }

    /// The input of a run of these parameters in the given thread: the run id is
    /// the one set, or a fresh one; state, messages, tools, context and forwarded
    /// properties are copied.
    pub fn to_input(&self, thread_id: ThreadId) -> (r: RunAgentInput)
        ensures
            r.thread_id == thread_id,
            self.run_id matches Some(id) ==> r.run_id == id,
            r.state == self.state,
            msgs_view(r.messages@) == msgs_view(self.messages@),
            r.tools@ == self.tools@,
            r.context@ == self.context@,
            r.forwarded_props == self.forwarded_props,
    {
        RunAgentInput {
            thread_id,
            run_id: match self.run_id {
                Some(id) => id,
                None => RunId::random(),
            },
            state: self.state.clone(),
            messages: duplicate_messages(&self.messages),
            tools: duplicate_tools(&self.tools),
            context: duplicate_contexts(&self.context),
            forwarded_props: self.forwarded_props.clone(),
        }
    }
}

} // verus!
