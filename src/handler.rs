//! The run reducer: it owns the canonical messages and state of one run, applies
//! each event's default rule, merges the mutations that subscribers propose, and
//! decides which notifications a change calls for.
use vstd::prelude::*;
use vstd::string::*;
use crate::agent::{AgentStateMutation, MutationModel, RunAgentResult};
use crate::error::AgUiClientError;
use crate::event::{Event, ToolCallStartEvent};
use crate::json::{apply_patch, decode_patch, decoded_ops, describe_patch_error, patched};
use crate::types::{
    calls_view, duplicate_messages, function_kind, msgs_view, FunctionCall, Message, MessageId,
    MessageModel, Role, ToolCall, ToolCallId, ToolCallModel,
};

verus! {

// ---------------------------------------------------------------------------
// Default rules, on models

/// A message after text is appended to its content (absent content counts as empty).
pub open spec fn with_content_appended(m: MessageModel, d: Seq<char>) -> MessageModel {
    MessageModel {
        content: Some(
            match m.content {
                Some(c) => c + d,
                None => d,
            },
        ),
        ..m
    }
}

/// An assistant message with the given id, content and tool calls.
pub open spec fn assistant_model(
    id: MessageId,
    content: Option<Seq<char>>,
    calls: Option<Seq<ToolCallModel>>,
) -> MessageModel {
    MessageModel {
        role: Role::Assistant,
        id,
        content,
        name: None,
        tool_calls: calls,
        tool_call_id: None,
        error: None,
    }
}

/// The tool call that a start event opens, with empty arguments.
pub open spec fn started_call(e: ToolCallStartEvent) -> ToolCallModel {
    ToolCallModel {
        id: e.tool_call_id.0@,
        call_type: function_kind(),
        name: e.tool_call_name@,
        arguments: seq![],
    }
}

/// A message with one more tool call at the end.
pub open spec fn with_call(m: MessageModel, t: ToolCallModel) -> MessageModel {
    MessageModel {
        tool_calls: Some(
            match m.tool_calls {
                Some(v) => v.push(t),
                None => seq![t],
            },
        ),
        ..m
    }
}

/// The start event names the last message, an assistant message, as parent.
pub open spec fn attaches_to_last(ms: Seq<MessageModel>, e: ToolCallStartEvent) -> bool {
    ms.len() > 0 && ms.last().role == Role::Assistant && e.parent_message_id == Some(ms.last().id)
}

/// The last message is an assistant message with at least one tool call.
pub open spec fn has_open_call(ms: Seq<MessageModel>) -> bool {
    ms.len() > 0 && ms.last().role == Role::Assistant && ms.last().tool_calls is Some
        && ms.last().tool_calls->0.len() > 0
}

/// A message whose last tool call has its arguments extended.
pub open spec fn with_args_appended(m: MessageModel, d: Seq<char>) -> MessageModel {
    let v = m.tool_calls->0;
    let t = v.last();
    MessageModel {
        tool_calls: Some(v.update(v.len() - 1, ToolCallModel { arguments: t.arguments + d, ..t })),
        ..m
    }
}

/// The messages after the default rule of an event, or `None` when the rule leaves
/// them alone. `fresh` is the id that a new message gets when the event names none.
pub open spec fn default_messages(ms: Seq<MessageModel>, e: Event, fresh: MessageId) -> Option<
    Seq<MessageModel>,
> {
    match e {
        Event::TextMessageStart(s) => Some(
            ms.push(assistant_model(s.message_id, Some(seq![]), None)),
        ),
        Event::TextMessageContent(c) => if ms.len() > 0 {
            Some(ms.update(ms.len() - 1, with_content_appended(ms.last(), c.delta@)))
        } else {
            None
        },
        Event::ToolCallStart(s) => if attaches_to_last(ms, s) {
            Some(ms.update(ms.len() - 1, with_call(ms.last(), started_call(s))))
        } else {
            Some(
                ms.push(
                    assistant_model(
                        match s.parent_message_id {
                            Some(p) => p,
                            None => fresh,
                        },
                        None,
                        Some(seq![started_call(s)]),
                    ),
                ),
            )
        },
        Event::ToolCallArgs(a) => if has_open_call(ms) {
            Some(ms.update(ms.len() - 1, with_args_appended(ms.last(), a.delta@)))
        } else {
            None
        },
        _ => None,
    }
}

/// The state after the default rule of an event: `Ok(None)` when the rule leaves it
/// alone, `Err(true)` when the patch operations do not decode, `Err(false)` when
/// the patch does not apply.
pub open spec fn default_state(state: serde_json::Value, e: Event) -> Result<
    Option<serde_json::Value>,
    bool,
> {
    match e {
        Event::StateSnapshot(s) => Ok(Some(s.snapshot)),
        Event::StateDelta(d) => match decoded_ops(d.delta@) {
            None => Err(true),
            Some(ops) => match patched(state, ops) {
                None => Err(false),
                Some(s2) => Ok(Some(s2)),
            },
        },
        _ => Ok(None),
    }
}

// ---------------------------------------------------------------------------
// Editing single messages

/// Appends text to the content of a message; absent content becomes the text.
pub fn append_content(m: &mut Message, delta: &str)
    ensures
        final(m)@ == with_content_appended(old(m)@, delta@),
{
    match m {
        Message::Developer { content, .. } => content.append(delta),
        Message::System { content, .. } => content.append(delta),
        Message::User { content, .. } => content.append(delta),
        Message::Tool { content, .. } => content.append(delta),
        Message::Assistant { content, .. } => match content {
            Some(c) => c.append(delta),
            None => {
                *content = Some(String::from_str(delta));
            },
        },
    }
}

/// Adds a tool call at the end of an assistant message's tool calls.
fn attach_call(m: &mut Message, t: ToolCall)
    requires
        old(m)@.role == Role::Assistant,
    ensures
        final(m)@ == with_call(old(m)@, t@),
{
    match m {
        Message::Assistant { tool_calls, .. } => match tool_calls {
            Some(v) => {
                let ghost before = calls_view(v@);
                v.push(t);
                assert(calls_view(v@) =~= before.push(t@));
            },
            None => {
                let mut v: Vec<ToolCall> = Vec::new();
                v.push(t);
                assert(calls_view(v@) =~= seq![t@]);
                *tool_calls = Some(v);
            },
        },
        _ => {},
    }
}

/// Appends text to the arguments of the last tool call of an assistant message.
fn append_arguments(m: &mut Message, delta: &str)
    requires
        old(m)@.role == Role::Assistant,
        old(m)@.tool_calls is Some,
        old(m)@.tool_calls->0.len() > 0,
    ensures
        final(m)@ == with_args_appended(old(m)@, delta@),
{
    match m {
        Message::Assistant { tool_calls, .. } => match tool_calls {
            Some(v) => {
                let ghost before = calls_view(v@);
                let k = v.len() - 1;
                v[k].function.arguments.append(delta);
                let ghost t = before.last();
                assert(calls_view(v@) =~= before.update(
                    before.len() - 1,
                    ToolCallModel { arguments: t.arguments + delta@, ..t },
                ));
            },
            None => {},
        },
        _ => {},
    }
}

/// The tool call that a start event opens.
fn started_tool_call(e: &ToolCallStartEvent) -> (r: ToolCall)
    ensures
        r@ == started_call(*e),
{
    proof {
        reveal_strlit("function");
    }
    let call_type = String::from_str("function");
    assert(call_type@ =~= function_kind());
    let arguments = String::new();
    assert(arguments@ =~= seq![]);
    ToolCall {
        id: ToolCallId(e.tool_call_id.0.clone()),
        call_type,
        function: FunctionCall { name: e.tool_call_name.clone(), arguments },
    }
}

// ---------------------------------------------------------------------------
// The reducer

/// The canonical messages, state and result of one run, and the ids of all
/// messages observed so far (those of the input, then each new one).
pub struct EventHandler {
    pub messages: Vec<Message>,
    pub state: serde_json::Value,
    pub result: Option<serde_json::Value>,
    pub seen: Vec<MessageId>,
}

pub struct HandlerModel {
    pub messages: Seq<MessageModel>,
    pub state: serde_json::Value,
    pub result: Option<serde_json::Value>,
    pub seen: Seq<MessageId>,
}

impl View for EventHandler {
    type V = HandlerModel;

    open spec fn view(&self) -> HandlerModel {
        HandlerModel {
            messages: msgs_view(self.messages@),
            state: self.state,
            result: self.result,
            seen: self.seen@,
        }
    }
}

/// The ids of a list of message models, in order.
pub open spec fn model_ids(ms: Seq<MessageModel>) -> Seq<MessageId> {
    ms.map_values(|m: MessageModel| m.id)
}

/// Among `0..=n` some value is not the id of any of `n` messages.
proof fn lemma_absent_id(ids: Seq<MessageId>)
    requires
        ids.len() < u128::MAX,
    ensures
        exists|k: u128| k <= ids.len() && !ids.contains(MessageId(k)),
{
    broadcast use vstd::seq_lib::seq_to_set_is_finite;
    let n = ids.len() as int;
    if forall|k: u128| k <= ids.len() ==> #[trigger] ids.contains(MessageId(k)) {
        let vals = ids.map_values(|x: MessageId| x.0 as int);
        let range = vstd::set_lib::set_int_range(0, n + 1);
        assert(range.subset_of(vals.to_set())) by {
            assert forall|i: int| range.contains(i) implies vals.to_set().contains(i) by {
                let k = i as u128;
                assert(ids.contains(MessageId(k)));
                let j = choose|j: int| 0 <= j < ids.len() && ids[j] == MessageId(k);
                assert(vals[j] == i);
            }
        }
        vstd::set_lib::lemma_int_range(0, n + 1);
        vals.lemma_cardinality_of_set();
        vstd::set_lib::lemma_len_subset(range, vals.to_set());
    }
}

/// An id that no message of the list has: a random one, or when that one is
/// taken, the smallest value that is free.
pub fn fresh_message_id(ms: &Vec<Message>) -> (r: MessageId)
    ensures
        !model_ids(msgs_view(ms@)).contains(r),
{
    let ids = message_ids(ms);
    let candidate = MessageId::random();
    if !contains_id(&ids, candidate) {
        return candidate;
    }
    let n = ids.len();
    proof {
        assert(ids@.len() == n);
        lemma_absent_id(ids@);
    }
    let mut c: u128 = 0;
    while contains_id(&ids, MessageId(c))
        invariant
            c <= n,
            ids@ == model_ids(msgs_view(ms@)),
            exists|k: u128| c <= k <= n && !ids@.contains(MessageId(k)),
            forall|k: u128| k < c ==> #[trigger] ids@.contains(MessageId(k)),
        decreases n - c,
    {
        let ghost k = choose|k: u128| c <= k <= n && !ids@.contains(MessageId(k));
        assert(k != c);
        c = c + 1;
    }
    MessageId(c)
}

impl EventHandler {
    /// A handler for a run that starts from the given messages and state.
    pub fn new(messages: Vec<Message>, state: serde_json::Value) -> (r: EventHandler)
        ensures
            r@.messages == msgs_view(messages@),
            r@.state == state,
            r@.result is None,
            r@.seen == model_ids(msgs_view(messages@)),
    {
        let mut seen: Vec<MessageId> = Vec::new();
        let mut i: usize = 0;
        while i < messages.len()
            invariant
                i <= messages@.len(),
                seen@ == model_ids(msgs_view(messages@)).subrange(0, i as int),
            decreases messages@.len() - i,
        {
            seen.push(*messages[i].id());
            assert(seen@ =~= model_ids(msgs_view(messages@)).subrange(0, i as int + 1));
            i = i + 1;
        }
        assert(model_ids(msgs_view(messages@)).subrange(0, messages@.len() as int) =~= model_ids(
            msgs_view(messages@),
        ));
        EventHandler { messages, state, result: None, seen }
    }

    /// Applies the default rule of an event to the canonical messages and state,
    /// and returns the change it made as a mutation: the new messages when they
    /// changed, the new state when it changed, and no stop.
    ///
    /// `TextMessageStart` appends an empty assistant message; `TextMessageContent`
    /// appends to the content of the last message; `ToolCallStart` adds a tool call
    /// with empty arguments to the last message when that is the assistant message
    /// it names as parent, and otherwise appends a new assistant message, keyed by
    /// the parent id or, when none is named, an id that no message of the list has,
    /// that holds the tool call; `ToolCallArgs`
    /// appends to the arguments of the last tool call of the last message;
    /// `StateSnapshot` replaces the state; `StateDelta` applies its JSON Patch to a
    /// copy of the state, which replaces the state only when every operation
    /// succeeds; `RunFinished` records its result. Operations that do not decode
    /// give a `Json` error, a patch that does not apply an `Execution` error, and
    /// either leaves everything as it was.
    pub fn apply_default(&mut self, event: &Event) -> (r: Result<
        AgentStateMutation,
        AgUiClientError,
    >)
        ensures
            final(self)@.seen == old(self)@.seen,
            match default_state(old(self)@.state, *event) {
                Err(undecodable) => {
                    &&& final(self)@ == old(self)@
                    &&& if undecodable {
                        r matches Err(AgUiClientError::Json(_))
                    } else {
                        r matches Err(AgUiClientError::Execution { .. })
                    }
                },
                Ok(new_state) => {
                    &&& r is Ok
                    &&& r->Ok_0@.state == new_state
                    &&& !r->Ok_0@.stop
                    &&& final(self)@.state == match new_state {
                        Some(s) => s,
                        None => old(self)@.state,
                    }
                    &&& exists|fresh: MessageId|
                        {
                            let dm = #[trigger] default_messages(
                                old(self)@.messages,
                                *event,
                                fresh,
                            );
                            &&& !model_ids(old(self)@.messages).contains(fresh)
                            &&& r->Ok_0@.messages == dm
                            &&& final(self)@.messages == match dm {
                                Some(ms) => ms,
                                None => old(self)@.messages,
                            }
                        }
                    &&& final(self)@.result == match *event {
                        Event::RunFinished(f) => f.result,
                        _ => old(self)@.result,
                    }
                },
            },
    {
        let mut current = AgentStateMutation::default();
        let ghost old_ms = self@.messages;
        let ghost mut fresh: MessageId = MessageId(0);
        let len_now = self.messages.len();
        proof {
            assert(model_ids(old_ms).len() == len_now);
            lemma_absent_id(model_ids(old_ms));
            let k = choose|k: u128| k <= old_ms.len() && !model_ids(old_ms).contains(MessageId(k));
            fresh = MessageId(k);
        }
        match event {
            Event::TextMessageStart(e) => {
                let m = Message::Assistant {
                    id: e.message_id,
                    content: Some(String::new()),
                    name: None,
                    tool_calls: None,
                };
                self.messages.push(m);
                assert(msgs_view(self.messages@) =~= old_ms.push(
                    assistant_model(e.message_id, Some(seq![]), None),
                ));
                current.messages = Some(duplicate_messages(&self.messages));
            },
            Event::TextMessageContent(e) => {
                let n = self.messages.len();
                if n > 0 {
                    append_content(&mut self.messages[n - 1], e.delta.as_str());
                    assert(msgs_view(self.messages@) =~= old_ms.update(
                        n - 1,
                        with_content_appended(old_ms.last(), e.delta@),
                    ));
                    current.messages = Some(duplicate_messages(&self.messages));
                }
            },
            Event::ToolCallStart(e) => {
                let t = started_tool_call(e);
                let n = self.messages.len();
                let attach = n > 0 && match &self.messages[n - 1] {
                    Message::Assistant { id, .. } => match e.parent_message_id {
                        Some(p) => *id == p,
                        None => false,
                    },
                    _ => false,
                };
                if attach {
                    attach_call(&mut self.messages[n - 1], t);
                    assert(msgs_view(self.messages@) =~= old_ms.update(
                        n - 1,
                        with_call(old_ms.last(), started_call(*e)),
                    ));
                } else {
                    let id = match e.parent_message_id {
                        Some(p) => p,
                        None => {
                            let f = fresh_message_id(&self.messages);
                            proof {
                                fresh = f;
                            }
                            f
                        },
                    };
                    let mut calls: Vec<ToolCall> = Vec::new();
                    calls.push(t);
                    assert(calls_view(calls@) =~= seq![started_call(*e)]);
                    self.messages.push(
                        Message::Assistant { id, content: None, name: None, tool_calls: Some(calls) },
                    );
                    assert(msgs_view(self.messages@) =~= old_ms.push(
                        assistant_model(id, None, Some(seq![started_call(*e)])),
                    ));
                }
                current.messages = Some(duplicate_messages(&self.messages));
            },
            Event::ToolCallArgs(e) => {
                let n = self.messages.len();
                let open = n > 0 && match &self.messages[n - 1] {
                    Message::Assistant { tool_calls, .. } => match tool_calls {
                        Some(v) => v.len() > 0,
                        None => false,
                    },
                    _ => false,
                };
                if open {
                    append_arguments(&mut self.messages[n - 1], e.delta.as_str());
                    assert(msgs_view(self.messages@) =~= old_ms.update(
                        n - 1,
                        with_args_appended(old_ms.last(), e.delta@),
                    ));
                    current.messages = Some(duplicate_messages(&self.messages));
                }
            },
            Event::StateSnapshot(e) => {
                self.state = e.snapshot.clone();
                current.state = Some(e.snapshot.clone());
            },
            Event::StateDelta(e) => {
                let ops = match decode_patch(&e.delta) {
                    Ok(ops) => ops,
                    Err(err) => {
                        return Err(AgUiClientError::Json(err));
                    },
                };
                let mut doc = self.state.clone();
                match apply_patch(&mut doc, &ops) {
                    Ok(()) => {},
                    Err(err) => {
                        let mut message = String::from_str("Failed to apply state patch: ");
                        message.append(describe_patch_error(&err).as_str());
                        return Err(AgUiClientError::Execution { message });
                    },
                }
                self.state = doc.clone();
                current.state = Some(doc);
            },
            Event::RunFinished(e) => {
                self.result = match &e.result {
                    Some(v) => Some(v.clone()),
                    None => None,
                };
            },
            _ => {},
        }
        assert(default_messages(old_ms, *event, fresh) == current@.messages);
        Ok(current)
    }
}

// ---------------------------------------------------------------------------
// Merging mutations

/// A mutation recorded into the merge: its replacements win over earlier ones.
pub open spec fn record(acc: MutationModel, m: MutationModel) -> MutationModel {
    MutationModel {
        messages: if m.messages is Some {
            m.messages
        } else {
            acc.messages
        },
        state: if m.state is Some {
            m.state
        } else {
            acc.state
        },
        stop: m.stop,
    }
}

/// The merge of mutations in order, starting from `acc`: each is recorded until
/// one asks to stop, and none after that one counts.
pub open spec fn merge_all(acc: MutationModel, muts: Seq<MutationModel>) -> MutationModel
    decreases muts.len(),
{
    if muts.len() == 0 {
        acc
    } else {
        let a = merge_all(acc, muts.drop_last());
        if a.stop {
            a
        } else {
            record(a, muts.last())
        }
    }
}

/// The models of a list of mutations.
pub open spec fn muts_view(v: Seq<AgentStateMutation>) -> Seq<MutationModel> {
    v.map_values(|m: AgentStateMutation| m@)
}

/// Once the merge has stopped, further mutations change nothing.
pub proof fn lemma_merge_stopped(acc: MutationModel, s: Seq<MutationModel>, tail: Seq<MutationModel>)
    requires
        merge_all(acc, s).stop,
    ensures
        merge_all(acc, s + tail) == merge_all(acc, s),
    decreases tail.len(),
{
    if tail.len() == 0 {
        assert(s + tail =~= s);
    } else {
        assert((s + tail).drop_last() =~= s + tail.drop_last());
        lemma_merge_stopped(acc, s, tail.drop_last());
    }
}

/// A mutation that asks to stop propagation blocks every later mutation of the
/// same event: whatever follows it, the merge is the merge up to it.
pub proof fn lemma_stop_propagation_blocks_later(
    acc: MutationModel,
    muts: Seq<MutationModel>,
    k: int,
    tail: Seq<MutationModel>,
)
    requires
        0 <= k < muts.len(),
        muts[k].stop,
    ensures
        merge_all(acc, muts.subrange(0, k + 1) + tail) == merge_all(acc, muts.subrange(0, k + 1)),
{
    let s = muts.subrange(0, k + 1);
    assert(s.drop_last() =~= muts.subrange(0, k));
    assert(s.last() == muts[k]);
    lemma_merge_stopped(acc, s, tail);
}

// ---------------------------------------------------------------------------
// Notifications

/// A notification that a change calls for; indices point into the new message list.
#[derive(Debug, Clone, Copy, PartialEq, Eq, Structural)]
pub enum Notification {
    /// The message at this index has an id not observed before.
    NewMessage(usize),
    /// Tool call `.1` of the new assistant message at index `.0`.
    NewToolCall(usize, usize),
    /// The message list was replaced.
    MessagesChanged,
    /// The state was replaced.
    StateChanged,
}

/// One notification for each tool call of the message at index `i`.
pub open spec fn call_notes(i: int, n: int) -> Seq<Notification> {
    Seq::new(n as nat, |j: int| Notification::NewToolCall(i as usize, j as usize))
}

/// The tool-call notifications that a new message brings.
pub open spec fn calls_of_new(i: int, m: MessageModel) -> Seq<Notification> {
    if m.role == Role::Assistant && m.tool_calls is Some {
        call_notes(i, m.tool_calls->0.len() as int)
    } else {
        seq![]
    }
}

/// The notifications for new messages of a list, and the ids observed after it:
/// a message whose id was not observed yet is announced, then its tool calls, and
/// its id counts as observed from then on.
pub open spec fn new_message_notes(seen: Seq<MessageId>, ms: Seq<MessageModel>) -> (
    Seq<Notification>,
    Seq<MessageId>,
)
    decreases ms.len(),
{
    if ms.len() == 0 {
        (seq![], seen)
    } else {
        let (notes, seen1) = new_message_notes(seen, ms.drop_last());
        let i = ms.len() - 1;
        let m = ms.last();
        if seen1.contains(m.id) {
            (notes, seen1)
        } else {
            (notes.push(Notification::NewMessage(i as usize)) + calls_of_new(i, m), seen1.push(m.id))
        }
    }
}

/// The notifications that applying a mutation calls for, and the ids observed after.
pub open spec fn mutation_notes(seen: Seq<MessageId>, m: MutationModel) -> (
    Seq<Notification>,
    Seq<MessageId>,
) {
    let (a, seen1) = match m.messages {
        Some(ms) => {
            let (n, s1) = new_message_notes(seen, ms);
            (n.push(Notification::MessagesChanged), s1)
        },
        None => (seq![], seen),
    };
    (
        if m.state is Some {
            a.push(Notification::StateChanged)
        } else {
            a
        },
        seen1,
    )
}

/// Whether an id occurs in a list.
fn contains_id(v: &Vec<MessageId>, id: MessageId) -> (r: bool)
    ensures
        r == v@.contains(id),
{
    let mut i: usize = 0;
    while i < v.len()
        invariant
            i <= v@.len(),
            forall|k: int| 0 <= k < i ==> v@[k] != id,
        decreases v@.len() - i,
    {
        if v[i] == id {
            assert(v@[i as int] == id);
            return true;
        }
        i = i + 1;
    }
    false
}

/// Membership in the notes after one new message: a new-message notification is
/// either an earlier one or the one for that message.
proof fn lemma_new_notes_membership(
    np: Seq<Notification>,
    last: usize,
    calls: Seq<Notification>,
    i: usize,
)
    requires
        forall|k: int| 0 <= k < calls.len() ==> (#[trigger] calls[k]) is NewToolCall,
    ensures
        (np.push(Notification::NewMessage(last)) + calls).contains(Notification::NewMessage(i))
            <==> (np.contains(Notification::NewMessage(i)) || i == last),
{
    let notes = np.push(Notification::NewMessage(last)) + calls;
    let x = Notification::NewMessage(i);
    if notes.contains(x) {
        let k = choose|k: int| 0 <= k < notes.len() && notes[k] == x;
        if k < np.len() {
            assert(np[k] == x);
        } else if k > np.len() {
            assert(calls[k - np.len() - 1] == x);
        }
    }
    if np.contains(x) {
        let k = choose|k: int| 0 <= k < np.len() && np[k] == x;
        assert(notes[k] == x);
    }
    if i == last {
        assert(notes[np.len() as int] == x);
    }
}

/// Announcements of new messages happen exactly once per id, and never for an id
/// observed before: the observed ids only grow, every id of the list is observed
/// afterwards, an announced message has an id not observed before, every id that
/// becomes observed is announced, and no two announcements share an id.
pub proof fn lemma_new_message_once(seen: Seq<MessageId>, ms: Seq<MessageModel>)
    requires
        ms.len() <= usize::MAX,
    ensures
        ({
            let (notes, seen1) = new_message_notes(seen, ms);
            &&& seen.len() <= seen1.len()
            &&& seen1.subrange(0, seen.len() as int) == seen
            &&& forall|i: int| 0 <= i < ms.len() ==> #[trigger] seen1.contains(ms[i].id)
            &&& forall|i: usize| #[trigger]
                notes.contains(Notification::NewMessage(i)) ==> i < ms.len() && !seen.contains(
                    ms[i as int].id,
                )
            &&& forall|x: MessageId| #[trigger]
                seen1.contains(x) && !seen.contains(x) ==> exists|j: usize|
                    j < ms.len() && ms[j as int].id == x && #[trigger] notes.contains(
                        Notification::NewMessage(j),
                    )
            &&& forall|i: usize, j: usize|
                #[trigger] notes.contains(Notification::NewMessage(i)) && #[trigger] notes.contains(
                    Notification::NewMessage(j),
                ) && ms[i as int].id == ms[j as int].id ==> i == j
        }),
    decreases ms.len(),
{
    let (notes, seen1) = new_message_notes(seen, ms);
    if ms.len() == 0 {
        assert(seen.subrange(0, seen.len() as int) =~= seen);
        assert forall|i: usize| !notes.contains(Notification::NewMessage(i)) by {}
    } else {
        let p = ms.drop_last();
        lemma_new_message_once(seen, p);
        let (np, sp) = new_message_notes(seen, p);
        let last = p.len();
        let m = ms.last();
        assert forall|i: int| 0 <= i < p.len() implies ms[i] == p[i] by {}
        if sp.contains(m.id) {
            assert(notes == np && seen1 == sp);
            assert forall|i: int| 0 <= i < ms.len() implies #[trigger] seen1.contains(ms[i].id) by {
                if i < p.len() {
                    assert(sp.contains(p[i].id));
                }
            }
            assert forall|x: MessageId| #[trigger]
                seen1.contains(x) && !seen.contains(x) implies exists|j: usize|
                j < ms.len() && ms[j as int].id == x && #[trigger] notes.contains(
                    Notification::NewMessage(j),
                ) by {
                let j = choose|j: usize|
                    j < p.len() && p[j as int].id == x && #[trigger] np.contains(
                        Notification::NewMessage(j),
                    );
                assert(ms[j as int] == p[j as int]);
            }
        } else {
            let calls = calls_of_new(last as int, m);
            assert(notes == np.push(Notification::NewMessage(last as usize)) + calls);
            assert(seen1 == sp.push(m.id));
            assert forall|k: int| 0 <= k < calls.len() implies (#[trigger] calls[k]) is NewToolCall by {}
            assert forall|i: usize| #[trigger]
                notes.contains(Notification::NewMessage(i)) <==> (np.contains(
                    Notification::NewMessage(i),
                ) || i == last as usize) by {
                lemma_new_notes_membership(np, last as usize, calls, i);
            }
            assert(seen1.subrange(0, seen.len() as int) =~= sp.subrange(0, seen.len() as int));
            assert(!seen.contains(m.id)) by {
                if seen.contains(m.id) {
                    let k = choose|k: int| 0 <= k < seen.len() && seen[k] == m.id;
                    assert(sp.subrange(0, seen.len() as int)[k] == m.id);
                    assert(sp[k] == m.id);
                }
            }
            assert forall|i: int| 0 <= i < ms.len() implies #[trigger] seen1.contains(ms[i].id) by {
                if i < p.len() {
                    assert(sp.contains(p[i].id));
                    let k = choose|k: int| 0 <= k < sp.len() && sp[k] == p[i].id;
                    assert(seen1[k] == p[i].id);
                } else {
                    assert(seen1[sp.len() as int] == m.id);
                }
            }
            assert forall|x: MessageId| #[trigger]
                seen1.contains(x) && !seen.contains(x) implies exists|j: usize|
                j < ms.len() && ms[j as int].id == x && #[trigger] notes.contains(
                    Notification::NewMessage(j),
                ) by {
                let k = choose|k: int| 0 <= k < seen1.len() && seen1[k] == x;
                if k < sp.len() {
                    assert(sp[k] == x);
                    assert(sp.contains(x));
                    let j = choose|j: usize|
                        j < p.len() && p[j as int].id == x && #[trigger] np.contains(
                            Notification::NewMessage(j),
                        );
                    assert(ms[j as int] == p[j as int]);
                    assert(notes.contains(Notification::NewMessage(j)));
                } else {
                    assert(x == m.id);
                    assert(notes.contains(Notification::NewMessage(last as usize)));
                    assert(ms[last as int] == m);
                }
            }
            assert forall|i: usize, j: usize|
                #[trigger] notes.contains(Notification::NewMessage(i)) && #[trigger] notes.contains(
                    Notification::NewMessage(j),
                ) && ms[i as int].id == ms[j as int].id implies i == j by {
                if i != j {
                    if i == last as usize {
                        assert(np.contains(Notification::NewMessage(j)));
                        assert(sp.contains(p[j as int].id));
                    } else if j == last as usize {
                        assert(np.contains(Notification::NewMessage(i)));
                        assert(sp.contains(p[i as int].id));
                    } else {
                        assert(np.contains(Notification::NewMessage(i)));
                        assert(np.contains(Notification::NewMessage(j)));
                    }
                }
            }
        }
    }
}

impl EventHandler {
    /// Merges the mutations of one event into the change made by its default rule.
    ///
    /// In order, each mutation's message and state replacements are applied to the
    /// canonical messages and state at once and recorded into the merged
    /// mutation; a mutation that asks to stop is the last one considered.
    pub fn merge_mutations(
        &mut self,
        current: AgentStateMutation,
        mutations: &Vec<AgentStateMutation>,
    ) -> (r: AgentStateMutation)
        requires
            !current.stop_propagation,
            current@.messages is Some ==> current@.messages == Some(old(self)@.messages),
            current@.state is Some ==> current@.state == Some(old(self)@.state),
        ensures
            r@ == merge_all(current@, muts_view(mutations@)),
            final(self)@.messages == match r@.messages {
                Some(ms) => ms,
                None => old(self)@.messages,
            },
            final(self)@.state == match r@.state {
                Some(s) => s,
                None => old(self)@.state,
            },
            final(self)@.result == old(self)@.result,
            final(self)@.seen == old(self)@.seen,
    {
        let ghost h0 = self@;
        let ghost mv = muts_view(mutations@);
        let mut acc = current;
        let mut i: usize = 0;
        while i < mutations.len() && !acc.stop_propagation
            invariant
                i <= mutations@.len(),
                mv == muts_view(mutations@),
                acc@ == merge_all(current@, mv.subrange(0, i as int)),
                self@.messages == match acc@.messages {
                    Some(ms) => ms,
                    None => h0.messages,
                },
                self@.state == match acc@.state {
                    Some(s) => s,
                    None => h0.state,
                },
                self@.result == h0.result,
                self@.seen == h0.seen,
            decreases mutations@.len() - i,
        {
            proof {
                let s = mv.subrange(0, i as int + 1);
                assert(s.drop_last() =~= mv.subrange(0, i as int));
                assert(s.last() == mutations@[i as int]@);
            }
            let m = &mutations[i];
            match &m.messages {
                Some(ms) => {
                    self.messages = duplicate_messages(ms);
                    acc.messages = Some(duplicate_messages(ms));
                },
                None => {},
            }
            match &m.state {
                Some(st) => {
                    self.state = st.clone();
                    acc.state = Some(st.clone());
                },
                None => {},
            }
            acc.stop_propagation = m.stop_propagation;
            i = i + 1;
        }
        proof {
            if i < mutations@.len() {
                lemma_merge_stopped(current@, mv.subrange(0, i as int), mv.subrange(i as int, mv.len() as int));
                assert(mv.subrange(0, i as int) + mv.subrange(i as int, mv.len() as int) =~= mv);
            } else {
                assert(mv.subrange(0, i as int) =~= mv);
            }
        }
        acc
    }

    /// Applies a merged mutation and returns the notifications that it calls for, in
    /// order: for a message replacement, each message whose id was not observed
    /// before (followed by the tool calls of such an assistant message), then one
    /// messages-changed notification; for a state replacement, one state-changed
    /// notification. Ids announced count as observed from then on.
    pub fn apply_mutation(&mut self, mutation: AgentStateMutation) -> (r: Vec<Notification>)
        ensures
            (r@, final(self)@.seen) == mutation_notes(old(self)@.seen, mutation@),
            final(self)@.messages == match mutation@.messages {
                Some(ms) => ms,
                None => old(self)@.messages,
            },
            final(self)@.state == match mutation@.state {
                Some(s) => s,
                None => old(self)@.state,
            },
            final(self)@.result == old(self)@.result,
    {
        let mut notes: Vec<Notification> = Vec::new();
        let ghost seen0 = self@.seen;
        let ghost h0 = self@;
        match mutation.messages {
            Some(ms) => {
                let mut i: usize = 0;
                while i < ms.len()
                    invariant
                        i <= ms@.len(),
                        self@.messages == h0.messages,
                        self@.state == h0.state,
                        self@.result == h0.result,
                        (notes@, self@.seen) == new_message_notes(
                            seen0,
                            msgs_view(ms@).subrange(0, i as int),
                        ),
                    decreases ms@.len() - i,
                {
                    let ghost sub = msgs_view(ms@).subrange(0, i as int + 1);
                    proof {
                        assert(sub.drop_last() =~= msgs_view(ms@).subrange(0, i as int));
                    }
                    let id = *ms[i].id();
                    if !contains_id(&self.seen, id) {
                        notes.push(Notification::NewMessage(i));
                        let ghost before = notes@;
                        match &ms[i] {
                            Message::Assistant { tool_calls, .. } => match tool_calls {
                                Some(calls) => {
                                    let mut j: usize = 0;
                                    while j < calls.len()
                                        invariant
                                            j <= calls@.len(),
                                            notes@ == before + call_notes(i as int, j as int),
                                        decreases calls@.len() - j,
                                    {
                                        notes.push(Notification::NewToolCall(i, j));
                                        assert(notes@ =~= before + call_notes(
                                            i as int,
                                            j as int + 1,
                                        ));
                                        j = j + 1;
                                    }
                                },
                                None => {
                                    assert(notes@ =~= before + seq![]);
                                },
                            },
                            _ => {
                                assert(notes@ =~= before + seq![]);
                            },
                        }
                        self.seen.push(id);
                    }
                    i = i + 1;
                }
                assert(msgs_view(ms@).subrange(0, ms@.len() as int) =~= msgs_view(ms@));
                notes.push(Notification::MessagesChanged);
                self.messages = ms;
            },
            None => {},
        }
        match mutation.state {
            Some(st) => {
                self.state = st;
                notes.push(Notification::StateChanged);
            },
            None => {},
        }
        notes
    }
}

// ---------------------------------------------------------------------------
// The end of a run

/// The messages whose ids are not among the given ones, in order.
pub open spec fn introduced(ms: Seq<MessageModel>, initial: Seq<MessageId>) -> Seq<MessageModel>
    decreases ms.len(),
{
    if ms.len() == 0 {
        seq![]
    } else {
        let p = introduced(ms.drop_last(), initial);
        if initial.contains(ms.last().id) {
            p
        } else {
            p.push(ms.last())
        }
    }
}

/// The ids of a list of messages.
pub fn message_ids(ms: &Vec<Message>) -> (r: Vec<MessageId>)
    ensures
        r@ == model_ids(msgs_view(ms@)),
{
    let mut r: Vec<MessageId> = Vec::new();
    let mut i: usize = 0;
    while i < ms.len()
        invariant
            i <= ms@.len(),
            r@ == model_ids(msgs_view(ms@)).subrange(0, i as int),
        decreases ms@.len() - i,
    {
        r.push(*ms[i].id());
        assert(r@ =~= model_ids(msgs_view(ms@)).subrange(0, i as int + 1));
        i = i + 1;
    }
    assert(model_ids(msgs_view(ms@)).subrange(0, ms@.len() as int) =~= model_ids(msgs_view(ms@)));
    r
}

impl EventHandler {
    /// The messages that the run introduced: those whose ids are not among the
    /// ids of the run's input, in order.
    pub fn new_messages(&self, initial_ids: &Vec<MessageId>) -> (r: Vec<Message>)
        ensures
            msgs_view(r@) == introduced(self@.messages, initial_ids@),
    {
        let mut r: Vec<Message> = Vec::new();
        let mut i: usize = 0;
        while i < self.messages.len()
            invariant
                i <= self.messages@.len(),
                msgs_view(r@) == introduced(msgs_view(self.messages@).subrange(0, i as int), initial_ids@),
            decreases self.messages@.len() - i,
        {
            let ghost sub = msgs_view(self.messages@).subrange(0, i as int + 1);
            proof {
                assert(sub.drop_last() =~= msgs_view(self.messages@).subrange(0, i as int));
            }
            if !contains_id(initial_ids, *self.messages[i].id()) {
                let ghost before = msgs_view(r@);
                r.push(self.messages[i].duplicate());
                assert(msgs_view(r@) =~= before.push(self.messages@[i as int]@));
            }
            i = i + 1;
        }
        assert(msgs_view(self.messages@).subrange(0, self.messages@.len() as int) =~= msgs_view(
            self.messages@,
        ));
        r
    }

    /// The outcome of the run: its result, the messages it introduced relative to
    /// the input's ids, and the final state.
    pub fn finish(self, initial_ids: &Vec<MessageId>) -> (r: RunAgentResult)
        ensures
            r.result == self@.result,
            msgs_view(r.new_messages@) == introduced(self@.messages, initial_ids@),
            r.new_state == self@.state,
    {
        let new_messages = self.new_messages(initial_ids);
        RunAgentResult { result: self.result, new_messages, new_state: self.state }
    }

    /// The content of the last message, or empty text when there is none.
    pub fn text_message_buffer(&self) -> (r: String)
        ensures
            r@ == if self@.messages.len() > 0 && self@.messages.last().content is Some {
                self@.messages.last().content->0
            } else {
                seq![]
            },
    {
        let n = self.messages.len();
        if n == 0 {
            return String::new();
        }
        match self.messages[n - 1].content() {
            Some(c) => String::from_str(c),
            None => String::new(),
        }
    }

    /// The last tool call of the last message, when that is an assistant message
    /// with tool calls.
    pub fn last_tool_call(&self) -> (r: Option<&ToolCall>)
        ensures
            match r {
                Some(t) => has_open_call(self@.messages) && t@ == self@.messages.last().tool_calls->0.last(),
                None => !has_open_call(self@.messages),
            },
    {
        let n = self.messages.len();
        if n == 0 {
            return None;
        }
        match &self.messages[n - 1] {
            Message::Assistant { tool_calls, .. } => match tool_calls {
                Some(v) => {
                    if v.len() == 0 {
                        None
                    } else {
                        Some(&v[v.len() - 1])
                    }
                },
                None => None,
            },
            _ => None,
        }
    }
}

} // verus!
