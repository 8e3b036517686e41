//! The turn engine: one conversation, driven event by event.
//!
//! The engine owns the history, the approvals and the cancellation flag. It
//! never reads a stream, asks the user or runs a tool itself: it is told what
//! happened and answers with what is to be done next. Whatever happens, every
//! tool call that the model issued finds its result in the history by the
//! time the turn is over, and a turn whose first request fails or is
//! interrupted leaves the history as it was.

use crate::domain::message::{
    answer_each, call_models, message_models, result_items, result_models, Message, MessageModel,
    ToolCall, ToolCallModel, ToolResult, ToolResultModel,
};
use crate::domain::debug::{DebugEvent, DebugEventPayload};
use crate::session::confirm::{Answer, Confirmation, PermissionRecord};
use crate::text;
use crate::tools::tool_call::{first_missing, known_tool, required_members, AgxToolCall};
use vstd::prelude::*;

verus! {

/// The most requests that one turn may send to the model.
pub const MAX_ROUND_TRIPS: usize = 30;

/// Where a turn stands.
#[derive(Clone, Copy, Debug, PartialEq, Eq, Structural)]
pub enum Phase {
    /// No turn is running.
    Idle,
    /// A reply of the model is being read.
    Streaming,
    /// The user is being asked about a tool call.
    Confirming,
    /// A tool call is running.
    Executing,
}

/// How a turn ended.
#[derive(Clone, Copy, Debug, PartialEq, Eq, Structural)]
pub enum TurnEnd {
    /// The model answered and asked for no tool.
    Completed,
    /// The user refused a tool call.
    Rejected,
    /// The user interrupted the turn.
    Interrupted,
    /// The reply of the model could not be read to its end.
    Failed,
    /// The turn used up its requests to the model.
    CapReached,
}

/// What is to be done next.
#[derive(Clone, Copy, Debug, PartialEq, Eq, Structural)]
pub enum TurnAction {
    /// Send a request to the model and read the reply. While a prompt waits
    /// outside the history (see [`TurnEngine::waiting_prompt`]) it is what is
    /// sent, with the history as the conversation so far. While none waits,
    /// the last message of the history is sent, with the messages before it
    /// as the conversation so far.
    Stream,
    /// Go on reading the reply.
    Continue,
    /// Show the pending tool call to the user and ask.
    Confirm,
    /// Run the pending tool call. `save_approvals` says whether the approved
    /// commands changed and are to be saved first.
    Execute { save_approvals: bool },
    /// The turn is over.
    Done(TurnEnd),
    /// Nothing: the event does not fit where the turn stands.
    Ignored,
}

/// One item of the model's reply as it streams in.
#[derive(Debug)]
pub enum StreamItem {
    /// A piece of the answer.
    Text(String),
    /// A piece of the model's reasoning.
    Reasoning(String),
    /// A request to run a tool.
    ToolCall(ToolCall),
    /// The reply is complete.
    Completed,
}

/// What observers are told when an item of the model's reply arrives, at
/// `timestamp_millis`, while `response` is the text that has arrived so far.
/// A tool call and a piece of reasoning are told as they are. Text is not
/// told piece by piece: when the reply is complete the whole text is told,
/// where there is any, and then that the reply is complete.
pub fn stream_events(timestamp_millis: i64, item: &StreamItem, response: &str) -> (events: Vec<
    DebugEvent,
>)
    ensures
        forall|i: int| 0 <= i < events@.len() ==> events@[i].timestamp_millis == timestamp_millis,
        match *item {
            StreamItem::Text(_) => events@.len() == 0,
            StreamItem::Reasoning(r) => {
                &&& events@.len() == 1
                &&& events@[0].payload matches DebugEventPayload::Reasoning { reasoning }
                &&& reasoning@ == r@
            },
            StreamItem::ToolCall(c) => {
                &&& events@.len() == 1
                &&& events@[0].payload matches DebugEventPayload::ToolCall { tool_call }
                &&& tool_call@ == c@
            },
            StreamItem::Completed => if response@.len() == 0 {
                &&& events@.len() == 1
                &&& events@[0].payload is StreamComplete
            } else {
                &&& events@.len() == 2
                &&& events@[0].payload matches DebugEventPayload::AssistantText { text }
                &&& text@ == response@
                &&& events@[1].payload is StreamComplete
            },
        },
{
    let mut events: Vec<DebugEvent> = Vec::new();
    match item {
        StreamItem::Text(_) => {},
        StreamItem::Reasoning(r) => {
            events.push(DebugEvent::reasoning(timestamp_millis, r.clone()));
        },
        StreamItem::ToolCall(c) => {
            events.push(DebugEvent::tool_call(timestamp_millis, c.duplicate()));
        },
        StreamItem::Completed => {
            if response.unicode_len() > 0 {
                events.push(DebugEvent::assistant_text(timestamp_millis, response));
            }
            events.push(DebugEvent::stream_complete(timestamp_millis));
        },
    }
    events
}

/// The result of a call that the user refused.
pub open spec fn rejected_text() -> Seq<char> {
    "user rejected"@
}

/// The result of a call that was never reached.
pub open spec fn skipped_text() -> Seq<char> {
    "skipped because a previous tool call was rejected/cancelled"@
}

/// The result of a call that the user interrupted.
pub open spec fn interrupted_text() -> Seq<char> {
    "tool call interrupted by user"@
}

/// The result that files `text` under the ids of `call`.
pub open spec fn result_for(call: ToolCallModel, text: Seq<char>) -> ToolResultModel {
    ToolResultModel { id: call.id, call_id: call.call_id, text }
}

/// Why `call` cannot be understood, in words; `None` where it can.
pub open spec fn parse_failure(call: ToolCall) -> Option<Seq<char>> {
    if !known_tool(call.name@) {
        Some("unknown tool: "@ + call.name@)
    } else {
        match first_missing(call.arguments@, required_members(call.name@), 0) {
            Some(key) => Some("invalid arguments: "@ + ("missing text field `"@ + key + "`"@)),
            None => None,
        }
    }
}

/// The result of `call` where it is turned down before the user or any tool
/// sees it: the call cannot be understood, or its arguments do not pass the
/// tool's validation. `None` where the call goes on to the user or to the tool.
pub open spec fn refusal(call: ToolCall) -> Option<Seq<char>> {
    match parse_failure(call) {
        Some(why) => Some("failed to parse tool call: "@ + why),
        None => {
            let typed = choose|typed: AgxToolCall| typed.reads(call);
            match typed.validated() {
                Err(why) => Some("error: "@ + why),
                Ok(()) => None,
            }
        },
    }
}

/// The position of the first call of `batch`, from position `from` on, that
/// is not turned down at once; the length of the batch where there is none.
pub open spec fn first_open(batch: Seq<ToolCall>, from: int) -> int
    decreases batch.len() - from,
{
    if from < 0 || from >= batch.len() {
        batch.len() as int
    } else if refusal(batch[from]) is None {
        from
    } else {
        first_open(batch, from + 1)
    }
}

/// The results of the calls of `batch` from position `from` up to, not
/// including, position `to`, each of them turned down at once.
pub open spec fn refusals(batch: Seq<ToolCall>, from: int, to: int) -> Seq<ToolResultModel> {
    Seq::new(
        (to - from) as nat,
        |i: int| result_for(batch[from + i]@, refusal(batch[from + i])->Some_0),
    )
}

/// The results of a batch that is closed while a call is in flight: the
/// results `before`, then `text` for the call in flight, then the mark of a
/// skipped call for each call behind it.
pub open spec fn closing(before: Seq<ToolResultModel>, calls: Seq<ToolCallModel>, text: Seq<char>)
    -> Seq<ToolResultModel> {
    Seq::new(
        calls.len(),
        |i: int|
            if i < before.len() {
                before[i]
            } else if i == before.len() {
                result_for(calls[i], text)
            } else {
                result_for(calls[i], skipped_text())
            },
    )
}

/// The user message in which the user says `text`.
pub open spec fn prompt_message(text: Seq<char>) -> MessageModel {
    MessageModel::User { content: seq![crate::domain::message::UserContentModel::Text(text)] }
}

/// The history once the prompt that waits outside it, where one does, has
/// gone into it.
pub open spec fn with_prompt(history: Seq<MessageModel>, prompt: Option<Seq<char>>) -> Seq<
    MessageModel,
> {
    match prompt {
        Some(text) => history.push(prompt_message(text)),
        None => history,
    }
}

/// The user message that brings `results`.
pub open spec fn results_message(results: Seq<ToolResultModel>) -> MessageModel {
    MessageModel::User { content: result_items(results) }
}

/// Two typed calls that hold what the same call says are valid or invalid
/// alike.
pub proof fn lemma_reads_fixes_validity(a: AgxToolCall, b: AgxToolCall, call: ToolCall)
    requires
        a.reads(call),
        b.reads(call),
    ensures
        a.validated() == b.validated(),
{
    crate::tools::tool_call::lemma_tool_names_differ();
}

/// A call that was understood is turned down at once exactly where its
/// arguments are not valid.
pub proof fn lemma_refusal_of_typed(typed: AgxToolCall, call: ToolCall)
    requires
        typed.reads(call),
        parse_failure(call) is None,
    ensures
        refusal(call) == match typed.validated() {
            Err(why) => Some("error: "@ + why),
            Ok(()) => None::<Seq<char>>,
        },
{
    let chosen = choose|t: AgxToolCall| t.reads(call);
    lemma_reads_fixes_validity(typed, chosen, call);
}

/// Whether every message's tool results answer, one for one, the tool calls
/// of the message before it. A message without tool results follows a
/// message without tool calls.
pub open spec fn linked(h: Seq<MessageModel>) -> bool {
    &&& h.len() > 0 ==> h[0].results().len() == 0
    &&& forall|k: int| 0 < k < h.len() ==> answer_each((#[trigger] h[k]).results(), h[k - 1].calls())
}

/// Whether no tool call of the history waits for its result.
pub open spec fn settled(h: Seq<MessageModel>) -> bool {
    &&& linked(h)
    &&& h.len() > 0 ==> h.last().calls().len() == 0
}

/// The number of tool calls in `h`.
pub open spec fn request_count(h: Seq<MessageModel>) -> nat
    decreases h.len(),
{
    if h.len() == 0 {
        0
    } else {
        request_count(h.drop_last()) + h.last().calls().len()
    }
}

/// The number of tool results in `h`.
pub open spec fn result_count(h: Seq<MessageModel>) -> nat
    decreases h.len(),
{
    if h.len() == 0 {
        0
    } else {
        result_count(h.drop_last()) + h.last().results().len()
    }
}

/// In a linked history the tool calls that have no result yet are those of
/// the last message.
pub proof fn lemma_linked_counts(h: Seq<MessageModel>)
    requires
        linked(h),
    ensures
        request_count(h) == result_count(h) + if h.len() == 0 {
            0
        } else {
            h.last().calls().len()
        },
    decreases h.len(),
{
    if h.len() > 0 {
        let before = h.drop_last();
        assert(linked(before)) by {
            assert forall|k: int| 0 < k < before.len() implies answer_each(
                (#[trigger] before[k]).results(),
                before[k - 1].calls(),
            ) by {
                assert(before[k] == h[k]);
                assert(before[k - 1] == h[k - 1]);
            }
            if before.len() > 0 {
                assert(before[0] == h[0]);
            }
        }
        lemma_linked_counts(before);
        if before.len() > 0 {
            let k = h.len() - 1;
            assert(answer_each(h[k].results(), h[k - 1].calls()));
            assert(before.last() == h[k - 1]);
        }
    }
}

/// In a history in which no tool call waits for its result, there are as
/// many tool results as tool calls.
pub proof fn lemma_settled_counts(h: Seq<MessageModel>)
    requires
        settled(h),
    ensures
        request_count(h) == result_count(h),
{
    lemma_linked_counts(h);
}

/// A linked history stays linked when a message is added whose tool results
/// answer the tool calls of the last message.
pub proof fn lemma_linked_push(h: Seq<MessageModel>, m: MessageModel)
    requires
        linked(h),
        h.len() == 0 ==> m.results().len() == 0,
        h.len() > 0 ==> answer_each(m.results(), h.last().calls()),
    ensures
        linked(h.push(m)),
{
    let g = h.push(m);
    assert forall|k: int| 0 < k < g.len() implies answer_each(
        (#[trigger] g[k]).results(),
        g[k - 1].calls(),
    ) by {
        if k < h.len() {
            assert(g[k] == h[k]);
            assert(g[k - 1] == h[k - 1]);
        } else {
            assert(g[k] == m);
            assert(g[k - 1] == h.last());
        }
    }
    if h.len() > 0 {
        assert(g[0] == h[0]);
    }
}

/// The engine of one conversation.
#[derive(Debug)]
pub struct TurnEngine {
    history: Vec<Message>,
    permissions: PermissionRecord,
    cancelled: bool,
    phase: Phase,
    round_trips: usize,
    prompt: Option<String>,
    response: String,
    batch: Vec<ToolCall>,
    results: Vec<ToolResult>,
    current: Option<AgxToolCall>,
}

impl TurnEngine {
    /// The history, message by message.
    pub closed spec fn history_now(self) -> Seq<MessageModel> {
        message_models(self.history@)
    }

    /// Where the turn stands.
    pub closed spec fn phase_now(self) -> Phase {
        self.phase
    }

    /// The tool calls of the reply that is being read or worked off, in the
    /// order in which they arrived.
    pub closed spec fn batch_now(self) -> Seq<ToolCall> {
        self.batch@
    }

    /// The results of the calls of the batch that are done with, in order.
    pub closed spec fn results_now(self) -> Seq<ToolResultModel> {
        result_models(self.results@)
    }

    /// The text of the reply that is being read, as far as it has arrived.
    pub closed spec fn response_now(self) -> Seq<char> {
        self.response@
    }

    /// The prompt that the user submitted and that is not in the history
    /// yet: it waits there while the first reply of the turn is read, and
    /// goes into the history when that reply is complete.
    pub closed spec fn prompt_now(self) -> Option<Seq<char>> {
        text::opt_view(self.prompt)
    }

    /// The tool call that waits for the user or runs.
    pub closed spec fn pending(self) -> Option<AgxToolCall> {
        self.current
    }

    /// Whether the user has interrupted and no new turn has begun since.
    pub closed spec fn cancel_pending(self) -> bool {
        self.cancelled
    }

    /// The number of requests that the turn has sent to the model.
    pub closed spec fn round_trips_now(self) -> nat {
        self.round_trips as nat
    }

    /// What the user has approved for good.
    pub closed spec fn permissions_now(self) -> PermissionRecord {
        self.permissions
    }

    /// What holds of the engine between any two events. The history is
    /// linked throughout. While no turn runs, no tool call waits for its
    /// result. While a batch is worked off, the calls that wait are those of
    /// the batch, the results so far answer its first calls one for one, and
    /// the pending call is the next of them and is valid. A prompt waits
    /// outside the history only while the first reply of a turn is read.
    /// The cancellation flag is only ever set while no turn runs.
    pub closed spec fn wf(self) -> bool {
        let h = message_models(self.history@);
        let calls = call_models(self.batch@);
        let results = result_models(self.results@);
        &&& linked(h)
        &&& self.cancelled ==> self.phase is Idle
        &&& self.prompt is Some ==> self.phase is Streaming
        &&& match self.phase {
            Phase::Idle => {
                &&& h.len() > 0 ==> h.last().calls().len() == 0
                &&& self.batch@.len() == 0
                &&& self.results@.len() == 0
                &&& self.current is None
            },
            Phase::Streaming => {
                &&& h.len() > 0 ==> h.last().calls().len() == 0
                &&& self.prompt is None ==> h.len() > 0
                &&& self.results@.len() == 0
                &&& self.current is None
                &&& 1 <= self.round_trips <= MAX_ROUND_TRIPS
            },
            Phase::Confirming | Phase::Executing => {
                &&& h.len() > 0
                &&& h.last().calls() == calls
                &&& results.len() < calls.len()
                &&& answer_each(results, calls.take(results.len() as int))
                &&& self.current matches Some(typed)
                &&& typed.reads(self.batch@[results.len() as int])
                &&& typed.validated() is Ok
                &&& 1 <= self.round_trips <= MAX_ROUND_TRIPS
            },
        }
    }

    /// Whether the engine stands as it does after a batch was taken up with
    /// the results `before` in hand: `history`, `batch`, `record` and `trips`
    /// are the history, the batch, the approvals and the count of requests
    /// at that point, and `action` is what the engine answered.
    ///
    /// The calls that are turned down at once get their results one after
    /// the other. At the first call that is not turned down the engine
    /// stops: the call is pending, and it is to be confirmed where it
    /// changes something that the approvals do not cover, and to be run in
    /// every other case. Where no such call is left, the results go into the
    /// history as one user message; they are sent to the model where the
    /// turn has requests left, and the turn ends where it has none.
    pub open spec fn resumed(
        self,
        history: Seq<MessageModel>,
        batch: Seq<ToolCall>,
        before: Seq<ToolResultModel>,
        record: PermissionRecord,
        trips: nat,
        action: TurnAction,
    ) -> bool {
        let stop = first_open(batch, before.len() as int);
        let results = before + refusals(batch, before.len() as int, stop);
        &&& self.permissions_now() == record
        &&& !self.cancel_pending()
        &&& self.prompt_now() is None
        &&& if stop < batch.len() {
            &&& self.history_now() == history
            &&& self.batch_now() == batch
            &&& self.results_now() == results
            &&& self.round_trips_now() == trips
            &&& self.pending() matches Some(typed)
            &&& typed.reads(batch[stop])
            &&& typed.validated() is Ok
            &&& if typed.mutates() && !record.permits(typed) {
                action == TurnAction::Confirm && self.phase_now() == Phase::Confirming
            } else {
                action == (TurnAction::Execute { save_approvals: false }) && self.phase_now()
                    == Phase::Executing
            }
        } else {
            &&& self.history_now() == history.push(results_message(results))
            &&& if trips < MAX_ROUND_TRIPS {
                &&& action == TurnAction::Stream
                &&& self.phase_now() == Phase::Streaming
                &&& self.round_trips_now() == trips + 1
                &&& self.response_now().len() == 0
                &&& self.batch_now().len() == 0
            } else {
                &&& action == TurnAction::Done(TurnEnd::CapReached)
                &&& self.phase_now() == Phase::Idle
            }
        }
    }

    /// An engine with an empty history, no turn running, and the approvals
    /// of `permissions`.
    pub fn new(permissions: PermissionRecord) -> (engine: TurnEngine)
        ensures
            engine.wf(),
            engine.phase_now() == Phase::Idle,
            engine.history_now().len() == 0,
            engine.permissions_now() == permissions,
            engine.prompt_now() is None,
            !engine.cancel_pending(),
    {
        TurnEngine {
            history: Vec::new(),
            permissions,
            cancelled: false,
            phase: Phase::Idle,
            round_trips: 0,
            prompt: None,
            response: String::new(),
            batch: Vec::new(),
            results: Vec::new(),
            current: None,
        }
    }

    /// The history.
    pub fn history(&self) -> (h: &Vec<Message>)
        ensures
            message_models(h@) == self.history_now(),
    {
        &self.history
    }

    /// Where the turn stands.
    pub fn phase(&self) -> (p: Phase)
        ensures
            p == self.phase_now(),
    {
        self.phase
    }

    /// What the user has approved for good.
    pub fn permissions(&self) -> (p: &PermissionRecord)
        ensures
            *p == self.permissions_now(),
    {
        &self.permissions
    }

    /// Whether the user has interrupted and no new turn has begun since.
    pub fn is_cancelled(&self) -> (c: bool)
        ensures
            c == self.cancel_pending(),
    {
        self.cancelled
    }

    /// The tool call that waits for the user or runs.
    pub fn pending_call(&self) -> (call: &Option<AgxToolCall>)
        ensures
            *call == self.pending(),
    {
        &self.current
    }

    /// The request of the model behind the pending call: the call of the
    /// batch that the engine has stopped at.
    pub fn pending_request(&self) -> (call: Option<&ToolCall>)
        requires
            self.wf(),
        ensures
            match self.phase_now() {
                Phase::Confirming | Phase::Executing => call matches Some(c) && *c
                    == self.batch_now()[self.results_now().len() as int],
                _ => call is None,
            },
    {
        match self.phase {
            Phase::Confirming | Phase::Executing => Some(&self.batch[self.results.len()]),
            _ => None,
        }
    }

    /// What observers are told when the pending call has come to `text`:
    /// the result, filed under the ids of the call. To be asked before the
    /// result is handed to the engine. While no call is pending there is
    /// nothing to tell.
    pub fn result_event(&self, timestamp_millis: i64, text: &str) -> (event: Option<DebugEvent>)
        requires
            self.wf(),
        ensures
            match self.phase_now() {
                Phase::Confirming | Phase::Executing => {
                    &&& event matches Some(e)
                    &&& e.timestamp_millis == timestamp_millis
                    &&& e.payload matches DebugEventPayload::ToolResult(r)
                    &&& r@ == result_for(
                        self.batch_now()[self.results_now().len() as int]@,
                        text@,
                    )
                },
                _ => event is None,
            },
    {
        match self.pending_request() {
            Some(call) => {
                let result = call.result(text::owned(text));
                Some(DebugEvent::tool_result(timestamp_millis, &result))
            },
            None => None,
        }
    }

    /// What observers are told when the user interrupts, at
    /// `timestamp_millis`. To be asked before the interrupt is handed to the
    /// engine. While a reply is being read they are told of the
    /// interruption. While a call waits or runs they are told its result,
    /// which says that it was interrupted, and then of the interruption.
    /// While no turn runs there is nothing to tell.
    pub fn interrupt_events(&self, timestamp_millis: i64) -> (events: Vec<DebugEvent>)
        requires
            self.wf(),
        ensures
            forall|i: int|
                0 <= i < events@.len() ==> events@[i].timestamp_millis == timestamp_millis,
            match self.phase_now() {
                Phase::Idle => events@.len() == 0,
                Phase::Streaming => events@.len() == 1 && events@[0].payload is Interrupted,
                Phase::Confirming | Phase::Executing => {
                    &&& events@.len() == 2
                    &&& events@[0].payload matches DebugEventPayload::ToolResult(r)
                    &&& r@ == result_for(
                        self.batch_now()[self.results_now().len() as int]@,
                        interrupted_text(),
                    )
                    &&& events@[1].payload is Interrupted
                },
            },
    {
        let mut events: Vec<DebugEvent> = Vec::new();
        match self.phase {
            Phase::Idle => {},
            Phase::Streaming => {
                events.push(DebugEvent::interrupted(timestamp_millis));
            },
            _ => {
                match self.result_event(timestamp_millis, "tool call interrupted by user") {
                    Some(e) => {
                        events.push(e);
                    },
                    None => {},
                }
                events.push(DebugEvent::interrupted(timestamp_millis));
            },
        }
        events
    }

    /// The prompt that waits outside the history while the first reply of a
    /// turn is read. While it waits, it is what is to be sent to the model,
    /// with the whole history as the conversation so far. While none waits,
    /// the last message of the history is what is to be sent, with the
    /// messages before it as the conversation so far.
    pub fn waiting_prompt(&self) -> (p: &Option<String>)
        ensures
            text::opt_view(*p) == self.prompt_now(),
    {
        &self.prompt
    }

    /// The text of the reply that is being read, as far as it has arrived.
    pub fn response_text(&self) -> (t: &str)
        ensures
            t@ == self.response_now(),
    {
        self.response.as_str()
    }

    /// Forgets the conversation, where no turn is running; the approvals
    /// stay. While a turn runs nothing happens.
    pub fn start_new_session(&mut self) -> (done: bool)
        requires
            old(self).wf(),
        ensures
            final(self).wf(),
            done == (old(self).phase_now() == Phase::Idle),
            done ==> final(self).history_now().len() == 0 && final(self).phase_now() == Phase::Idle
                && final(self).permissions_now() == old(self).permissions_now(),
            !done ==> *final(self) == *old(self),
    {
        match self.phase {
            Phase::Idle => {
                self.history = Vec::new();
                true
            },
            _ => false,
        }
    }

    /// The user submits `prompt`: a turn begins. The cancellation flag is
    /// cleared and the prompt is to be sent to the model, with the history
    /// as the conversation so far. The prompt does not go into the history
    /// yet: it waits until the reply is complete, so that a request that
    /// fails or is interrupted leaves the history as it was before the turn.
    /// While a turn runs the prompt is ignored.
    pub fn submit(&mut self, prompt: &str) -> (action: TurnAction)
        requires
            old(self).wf(),
        ensures
            final(self).wf(),
            old(self).phase_now() == Phase::Idle ==> {
                &&& action == TurnAction::Stream
                &&& final(self).phase_now() == Phase::Streaming
                &&& final(self).history_now() == old(self).history_now()
                &&& final(self).prompt_now() == Some(prompt@)
                &&& !final(self).cancel_pending()
                &&& final(self).round_trips_now() == 1
                &&& final(self).response_now().len() == 0
                &&& final(self).batch_now().len() == 0
                &&& final(self).permissions_now() == old(self).permissions_now()
            },
            old(self).phase_now() != Phase::Idle ==> action == TurnAction::Ignored && *final(self)
                == *old(self),
    {
        match self.phase {
            Phase::Idle => {},
            _ => {
                return TurnAction::Ignored;
            },
        }
        self.prompt = Some(text::owned(prompt));
        self.cancelled = false;
        self.round_trips = 1;
        self.response = String::new();
        self.phase = Phase::Streaming;
        TurnAction::Stream
    }

    /// Puts the results of a batch that is done with into the history, and
    /// goes on to the model where the turn has requests left.
    fn finish_batch(&mut self) -> (action: TurnAction)
        requires
            linked(message_models(old(self).history@)),
            old(self).history@.len() > 0,
            message_models(old(self).history@).last().calls() == call_models(old(self).batch@),
            old(self).results@.len() == old(self).batch@.len(),
            answer_each(result_models(old(self).results@), call_models(old(self).batch@)),
            !old(self).cancelled,
            old(self).prompt is None,
            1 <= old(self).round_trips <= MAX_ROUND_TRIPS,
        ensures
            final(self).wf(),
            final(self).history_now() == old(self).history_now().push(
                results_message(old(self).results_now()),
            ),
            final(self).permissions_now() == old(self).permissions_now(),
            !final(self).cancel_pending(),
            final(self).prompt_now() is None,
            if old(self).round_trips_now() < MAX_ROUND_TRIPS {
                &&& action == TurnAction::Stream
                &&& final(self).phase_now() == Phase::Streaming
                &&& final(self).round_trips_now() == old(self).round_trips_now() + 1
                &&& final(self).response_now().len() == 0
                &&& final(self).batch_now().len() == 0
            } else {
                &&& action == TurnAction::Done(TurnEnd::CapReached)
                &&& final(self).phase_now() == Phase::Idle
            },
    {
        let message = Message::tool_results(&self.results);
        let ghost before = message_models(self.history@);
        proof {
            lemma_linked_push(before, message@);
        }
        self.history.push(message);
        assert(message_models(self.history@) =~= before.push(message@));
        self.batch = Vec::new();
        self.results = Vec::new();
        self.current = None;
        self.response = String::new();
        if self.round_trips < MAX_ROUND_TRIPS {
            self.round_trips += 1;
            self.phase = Phase::Streaming;
            TurnAction::Stream
        } else {
            self.phase = Phase::Idle;
            TurnAction::Done(TurnEnd::CapReached)
        }
    }

    /// Takes the batch up where it stands: gives every call that is turned
    /// down at once its result, and stops at the first call that has to go
    /// to the user or to its tool.
    fn advance(&mut self) -> (action: TurnAction)
        requires
            linked(message_models(old(self).history@)),
            old(self).history@.len() > 0,
            message_models(old(self).history@).last().calls() == call_models(old(self).batch@),
            old(self).results@.len() <= old(self).batch@.len(),
            answer_each(
                result_models(old(self).results@),
                call_models(old(self).batch@).take(old(self).results@.len() as int),
            ),
            !old(self).cancelled,
            old(self).prompt is None,
            1 <= old(self).round_trips <= MAX_ROUND_TRIPS,
        ensures
            final(self).wf(),
            final(self).resumed(
                old(self).history_now(),
                old(self).batch_now(),
                old(self).results_now(),
                old(self).permissions_now(),
                old(self).round_trips_now(),
                action,
            ),
    {
        let ghost before = result_models(self.results@);
        let ghost start = self.results@.len() as int;
        let ghost batch = self.batch@;
        assert(before + refusals(batch, start, start) =~= before);
        loop
            invariant
                self.history == old(self).history,
                self.batch == old(self).batch,
                self.permissions == old(self).permissions,
                self.round_trips == old(self).round_trips,
                !self.cancelled,
                self.prompt is None,
                batch == self.batch@,
                before == result_models(old(self).results@),
                start == before.len(),
                linked(message_models(self.history@)),
                self.history@.len() > 0,
                message_models(self.history@).last().calls() == call_models(self.batch@),
                1 <= self.round_trips <= MAX_ROUND_TRIPS,
                start <= self.results@.len() <= self.batch@.len(),
                answer_each(
                    result_models(self.results@),
                    call_models(self.batch@).take(self.results@.len() as int),
                ),
                result_models(self.results@) == before + refusals(
                    batch,
                    start,
                    self.results@.len() as int,
                ),
                first_open(batch, start) == first_open(batch, self.results@.len() as int),
            decreases self.batch@.len() - self.results@.len(),
        {
            let i = self.results.len();
            if i == self.batch.len() {
                assert(call_models(self.batch@).take(i as int) == call_models(self.batch@));
                return self.finish_batch();
            }
            let ghost so_far = result_models(self.results@);
            let ghost call = self.batch@[i as int];
            assert(call_models(self.batch@)[i as int] == call@);
            let refused: Option<String> = match AgxToolCall::try_from(&self.batch[i]) {
                Err(e) => {
                    Some(text::concat("failed to parse tool call: ", e.message().as_str()))
                },
                Ok(typed) => {
                    proof {
                        lemma_refusal_of_typed(typed, call);
                    }
                    match typed.validate() {
                        Err(why) => Some(text::concat("error: ", why.as_str())),
                        Ok(()) => {
                            let decision = self.permissions.check(&typed);
                            self.current = Some(typed);
                            match decision {
                                Some(_) => {
                                    self.phase = Phase::Executing;
                                    return TurnAction::Execute { save_approvals: false };
                                },
                                None => {
                                    self.phase = Phase::Confirming;
                                    return TurnAction::Confirm;
                                },
                            }
                        },
                    }
                },
            };
            match refused {
                Some(words) => {
                    assert(refusal(call) == Some(words@));
                    let result = self.batch[i].result(words);
                    assert(result@ == result_for(call@, words@));
                    self.results.push(result);
                    proof {
                        assert(result_models(self.results@) =~= so_far.push(result@));
                        assert(before + refusals(batch, start, i + 1) =~= (before + refusals(
                            batch,
                            start,
                            i as int,
                        )).push(result@));
                        assert(call_models(self.batch@).take(i + 1) =~= call_models(
                            self.batch@,
                        ).take(i as int).push(call@));
                    }
                },
                None => {
                    return TurnAction::Ignored;
                },
            }
        }
    }
}

/// Gives the call in flight `text` as its result, and marks every call
/// behind it as skipped.
fn close_batch(batch: &Vec<ToolCall>, results: &mut Vec<ToolResult>, text: String)
    requires
        old(results)@.len() < batch@.len(),
    ensures
        result_models(final(results)@) == closing(
            result_models(old(results)@),
            call_models(batch@),
            text@,
        ),
{
    let ghost before = result_models(results@);
    let ghost calls = call_models(batch@);
    let at = results.len();
    let first = batch[at].result(text);
    assert(calls[at as int] == batch@[at as int]@);
    assert(first@ == result_for(calls[at as int], text@));
    results.push(first);
    assert(result_models(results@) =~= before.push(first@));
    while results.len() < batch.len()
        invariant
            at < results@.len() <= batch@.len(),
            before.len() == at,
            calls == call_models(batch@),
            result_models(results@).take(at as int) == before,
            result_models(results@)[at as int] == result_for(calls[at as int], text@),
            forall|i: int|
                at < i < results@.len() ==> #[trigger] result_models(results@)[i] == result_for(
                    calls[i],
                    skipped_text(),
                ),
        decreases batch@.len() - results@.len(),
    {
        let i = results.len();
        let ghost so_far = result_models(results@);
        let skipped = batch[i].result(
            text::owned("skipped because a previous tool call was rejected/cancelled"),
        );
        assert(calls[i as int] == batch@[i as int]@);
        assert(skipped@ == result_for(calls[i as int], skipped_text()));
        results.push(skipped);
        assert(result_models(results@) =~= so_far.push(skipped@));
        assert(result_models(results@).take(at as int) =~= so_far.take(at as int));
    }
    assert(result_models(results@) =~= closing(before, calls, text@));
}

/// The results of a closed batch answer its calls one for one.
pub proof fn lemma_closing_answers(
    before: Seq<ToolResultModel>,
    calls: Seq<ToolCallModel>,
    text: Seq<char>,
)
    requires
        before.len() < calls.len(),
        answer_each(before, calls.take(before.len() as int)),
    ensures
        answer_each(closing(before, calls, text), calls),
{
    let all = closing(before, calls, text);
    assert forall|i: int| 0 <= i < calls.len() implies (#[trigger] all[i]).answers(calls[i]) by {
        if i < before.len() {
            assert(before[i].answers(calls.take(before.len() as int)[i]));
        }
    }
}

impl TurnEngine {
    /// Ends the turn while a call is in flight: the call gets `text` as its
    /// result, the calls behind it are marked as skipped, and the results go
    /// into the history.
    fn end_batch(&mut self, text: String)
        requires
            old(self).wf(),
            old(self).phase == Phase::Confirming || old(self).phase == Phase::Executing,
        ensures
            final(self).wf(),
            final(self).phase_now() == Phase::Idle,
            final(self).history_now() == old(self).history_now().push(
                results_message(
                    closing(old(self).results_now(), call_models(old(self).batch_now()), text@),
                ),
            ),
            final(self).permissions_now() == old(self).permissions_now(),
            final(self).cancel_pending() == old(self).cancel_pending(),
    {
        proof {
            lemma_closing_answers(
                result_models(self.results@),
                call_models(self.batch@),
                text@,
            );
        }
        close_batch(&self.batch, &mut self.results, text);
        let message = Message::tool_results(&self.results);
        let ghost before = message_models(self.history@);
        proof {
            lemma_linked_push(before, message@);
        }
        self.history.push(message);
        assert(message_models(self.history@) =~= before.push(message@));
        self.batch = Vec::new();
        self.results = Vec::new();
        self.current = None;
        self.response = String::new();
        self.phase = Phase::Idle;
    }

    /// An item of the model's reply arrived. Text is added to the reply,
    /// reasoning is passed over, a tool call joins the batch; each of these
    /// leaves the reply to be read on. When the reply is complete the turn's
    /// exchange is committed: the prompt that waited outside the history,
    /// where one did, goes into it, and then, where the reply holds text or
    /// tool calls, one assistant message with the text and then the calls.
    /// Without tool calls the turn is then over; with tool calls the batch
    /// is taken up (see [`TurnEngine::resumed`]). While no reply is being
    /// read the item is ignored.
    pub fn on_stream_item(&mut self, item: StreamItem) -> (action: TurnAction)
        requires
            old(self).wf(),
        ensures
            final(self).wf(),
            old(self).phase_now() != Phase::Streaming ==> action == TurnAction::Ignored && *final(self) == *old(self),
            old(self).phase_now() == Phase::Streaming ==> match item {
                StreamItem::Text(fragment) => {
                    &&& action == TurnAction::Continue
                    &&& final(self).response_now() == old(self).response_now() + fragment@
                    &&& final(self).history_now() == old(self).history_now()
                    &&& final(self).prompt_now() == old(self).prompt_now()
                    &&& final(self).batch_now() == old(self).batch_now()
                    &&& final(self).phase_now() == Phase::Streaming
                    &&& final(self).permissions_now() == old(self).permissions_now()
                    &&& final(self).round_trips_now() == old(self).round_trips_now()
                    &&& final(self).cancel_pending() == old(self).cancel_pending()
                },
                StreamItem::Reasoning(_) => action == TurnAction::Continue && *final(self) == *old(self),
                StreamItem::ToolCall(call) => {
                    &&& action == TurnAction::Continue
                    &&& final(self).batch_now() == old(self).batch_now().push(call)
                    &&& final(self).response_now() == old(self).response_now()
                    &&& final(self).history_now() == old(self).history_now()
                    &&& final(self).prompt_now() == old(self).prompt_now()
                    &&& final(self).phase_now() == Phase::Streaming
                    &&& final(self).permissions_now() == old(self).permissions_now()
                    &&& final(self).round_trips_now() == old(self).round_trips_now()
                    &&& final(self).cancel_pending() == old(self).cancel_pending()
                },
                StreamItem::Completed => {
                    let reply = MessageModel::Assistant {
                        content: crate::domain::message::reply_items(
                            old(self).response_now(),
                            call_models(old(self).batch_now()),
                        ),
                    };
                    let asked = with_prompt(old(self).history_now(), old(self).prompt_now());
                    let committed = if old(self).response_now().len() == 0 && old(self).batch_now().len() == 0 {
                        asked
                    } else {
                        asked.push(reply)
                    };
                    if old(self).batch_now().len() == 0 {
                        &&& action == TurnAction::Done(TurnEnd::Completed)
                        &&& final(self).phase_now() == Phase::Idle
                        &&& final(self).history_now() == committed
                        &&& final(self).prompt_now() is None
                        &&& final(self).permissions_now() == old(self).permissions_now()
                    } else {
                        final(self).resumed(
                            committed,
                            old(self).batch_now(),
                            Seq::empty(),
                            old(self).permissions_now(),
                            old(self).round_trips_now(),
                            action,
                        )
                    }
                },
            },
    {
        match self.phase {
            Phase::Streaming => {},
            _ => {
                return TurnAction::Ignored;
            },
        }
        match item {
            StreamItem::Text(fragment) => {
                self.response = text::concat(self.response.as_str(), fragment.as_str());
                TurnAction::Continue
            },
            StreamItem::Reasoning(_) => TurnAction::Continue,
            StreamItem::ToolCall(call) => {
                self.batch.push(call);
                TurnAction::Continue
            },
            StreamItem::Completed => {
                let mut waiting: Option<String> = None;
                core::mem::swap(&mut self.prompt, &mut waiting);
                match waiting {
                    Some(said) => {
                        let prompt = Message::user_text(said);
                        let ghost before = message_models(self.history@);
                        proof {
                            lemma_linked_push(before, prompt@);
                        }
                        self.history.push(prompt);
                        assert(message_models(self.history@) =~= before.push(prompt@));
                    },
                    None => {},
                }
                if self.response.as_str().unicode_len() > 0 || self.batch.len() > 0 {
                    let reply = Message::assistant(self.response.as_str(), &self.batch);
                    let ghost before = message_models(self.history@);
                    proof {
                        lemma_linked_push(before, reply@);
                    }
                    self.history.push(reply);
                    assert(message_models(self.history@) =~= before.push(reply@));
                }
                if self.batch.len() == 0 {
                    self.response = String::new();
                    self.phase = Phase::Idle;
                    TurnAction::Done(TurnEnd::Completed)
                } else {
                    assert(call_models(self.batch@).take(0) =~= Seq::<ToolCallModel>::empty());
                    self.advance()
                }
            },
        }
    }

    /// The reply of the model broke off. The turn is over, and what had
    /// arrived of the reply is dropped. The history stays as it is. Where
    /// the request was the first of its turn, the prompt that waited is
    /// dropped too, so the history is the one from before the turn and the
    /// user may submit again. Where the request was a later one, its prompt
    /// was the results of the batch before it; those are in the history
    /// already and stay there, so that every call keeps its result. While
    /// no reply is being read nothing happens.
    pub fn on_stream_failed(&mut self) -> (action: TurnAction)
        requires
            old(self).wf(),
        ensures
            final(self).wf(),
            old(self).phase_now() != Phase::Streaming ==> action == TurnAction::Ignored && *final(self) == *old(self),
            old(self).phase_now() == Phase::Streaming ==> {
                &&& action == TurnAction::Done(TurnEnd::Failed)
                &&& final(self).phase_now() == Phase::Idle
                &&& final(self).history_now() == old(self).history_now()
                &&& final(self).prompt_now() is None
                &&& final(self).permissions_now() == old(self).permissions_now()
                &&& final(self).cancel_pending() == old(self).cancel_pending()
            },
    {
        match self.phase {
            Phase::Streaming => {},
            _ => {
                return TurnAction::Ignored;
            },
        }
        self.prompt = None;
        self.batch = Vec::new();
        self.response = String::new();
        self.phase = Phase::Idle;
        TurnAction::Done(TurnEnd::Failed)
    }

    /// The user answered the question about the pending call.
    ///
    /// A yes lets the call run. Always lets it run too, after calls like it
    /// have been approved for good. A no ends the turn: the call is filed as
    /// rejected, the calls behind it as skipped, and nothing more goes to
    /// the model. Feedback is filed as the result of the call, the calls
    /// behind it are filed as skipped, and the results go to the model where
    /// the turn has requests left. While no question is open the answer is
    /// ignored.
    pub fn on_answer(&mut self, answer: Answer) -> (action: TurnAction)
        requires
            old(self).wf(),
        ensures
            final(self).wf(),
            old(self).phase_now() != Phase::Confirming ==> action == TurnAction::Ignored && *final(self) == *old(self),
            old(self).phase_now() == Phase::Confirming ==> match answer {
                Answer::Yes => {
                    &&& action == (TurnAction::Execute { save_approvals: false })
                    &&& final(self).phase_now() == Phase::Executing
                    &&& final(self).pending() == old(self).pending()
                    &&& final(self).history_now() == old(self).history_now()
                    &&& final(self).batch_now() == old(self).batch_now()
                    &&& final(self).results_now() == old(self).results_now()
                    &&& final(self).permissions_now() == old(self).permissions_now()
                    &&& final(self).round_trips_now() == old(self).round_trips_now()
                },
                Answer::Always => {
                    &&& action matches TurnAction::Execute { save_approvals }
                    &&& old(self).pending() matches Some(typed)
                    &&& old(self).permissions_now().granted(
                        typed,
                        final(self).permissions_now(),
                        save_approvals,
                    )
                    &&& final(self).phase_now() == Phase::Executing
                    &&& final(self).pending() == old(self).pending()
                    &&& final(self).history_now() == old(self).history_now()
                    &&& final(self).batch_now() == old(self).batch_now()
                    &&& final(self).results_now() == old(self).results_now()
                    &&& final(self).round_trips_now() == old(self).round_trips_now()
                },
                Answer::No => {
                    &&& action == TurnAction::Done(TurnEnd::Rejected)
                    &&& final(self).phase_now() == Phase::Idle
                    &&& final(self).history_now() == old(self).history_now().push(
                        results_message(
                            closing(
                                old(self).results_now(),
                                call_models(old(self).batch_now()),
                                rejected_text(),
                            ),
                        ),
                    )
                    &&& final(self).permissions_now() == old(self).permissions_now()
                },
                Answer::Feedback(words) => {
                    &&& final(self).history_now() == old(self).history_now().push(
                        results_message(
                            closing(
                                old(self).results_now(),
                                call_models(old(self).batch_now()),
                                "user rejected tool call with feedback: "@ + words@,
                            ),
                        ),
                    )
                    &&& final(self).permissions_now() == old(self).permissions_now()
                    &&& if old(self).round_trips_now() < MAX_ROUND_TRIPS {
                        &&& action == TurnAction::Stream
                        &&& final(self).phase_now() == Phase::Streaming
                        &&& final(self).round_trips_now() == old(self).round_trips_now() + 1
                    } else {
                        &&& action == TurnAction::Done(TurnEnd::CapReached)
                        &&& final(self).phase_now() == Phase::Idle
                    }
                },
            },
    {
        match self.phase {
            Phase::Confirming => {},
            _ => {
                return TurnAction::Ignored;
            },
        }
        let (confirmation, save_approvals) = match &self.current {
            Some(typed) => self.permissions.confirm(typed, answer),
            None => (Confirmation::Rejected, false),
        };
        match confirmation {
            Confirmation::Approved => {
                self.phase = Phase::Executing;
                TurnAction::Execute { save_approvals }
            },
            Confirmation::AutoApproved => {
                self.phase = Phase::Executing;
                TurnAction::Execute { save_approvals }
            },
            Confirmation::Rejected => {
                self.end_batch(text::owned("user rejected"));
                TurnAction::Done(TurnEnd::Rejected)
            },
            Confirmation::FeedbackProvided(words) => {
                let said = text::concat("user rejected tool call with feedback: ", words.as_str());
                proof {
                    lemma_closing_answers(
                        result_models(self.results@),
                        call_models(self.batch@),
                        said@,
                    );
                }
                close_batch(&self.batch, &mut self.results, said);
                self.finish_batch()
            },
        }
    }

    /// No preview of the pending call could be made; `why` says why. The
    /// call gets `tool call failed: ` and the reason as its result, and the
    /// batch is taken up behind it (see [`TurnEngine::resumed`]). While no
    /// question is open nothing happens.
    pub fn on_preview_failed(&mut self, why: &str) -> (action: TurnAction)
        requires
            old(self).wf(),
        ensures
            final(self).wf(),
            old(self).phase_now() != Phase::Confirming ==> action == TurnAction::Ignored && *final(self) == *old(self),
            old(self).phase_now() == Phase::Confirming ==> final(self).resumed(
                old(self).history_now(),
                old(self).batch_now(),
                old(self).results_now().push(
                    result_for(
                        old(self).batch_now()[old(self).results_now().len() as int]@,
                        "tool call failed: "@ + why@,
                    ),
                ),
                old(self).permissions_now(),
                old(self).round_trips_now(),
                action,
            ),
    {
        match self.phase {
            Phase::Confirming => {},
            _ => {
                return TurnAction::Ignored;
            },
        }
        self.file_result(text::concat("tool call failed: ", why))
    }

    /// The pending call ran; `output` is what goes back to the model: the
    /// tool's result, or the words of its error. It is filed as the result
    /// of the call, and the batch is taken up behind it (see
    /// [`TurnEngine::resumed`]). While no call runs nothing happens.
    pub fn on_finished(&mut self, output: String) -> (action: TurnAction)
        requires
            old(self).wf(),
        ensures
            final(self).wf(),
            old(self).phase_now() != Phase::Executing ==> action == TurnAction::Ignored && *final(self) == *old(self),
            old(self).phase_now() == Phase::Executing ==> final(self).resumed(
                old(self).history_now(),
                old(self).batch_now(),
                old(self).results_now().push(
                    result_for(
                        old(self).batch_now()[old(self).results_now().len() as int]@,
                        output@,
                    ),
                ),
                old(self).permissions_now(),
                old(self).round_trips_now(),
                action,
            ),
    {
        match self.phase {
            Phase::Executing => {},
            _ => {
                return TurnAction::Ignored;
            },
        }
        self.file_result(output)
    }

    /// Files `text` as the result of the pending call and takes the batch up
    /// behind it.
    fn file_result(&mut self, text: String) -> (action: TurnAction)
        requires
            old(self).wf(),
            old(self).phase == Phase::Confirming || old(self).phase == Phase::Executing,
        ensures
            final(self).wf(),
            final(self).resumed(
                old(self).history_now(),
                old(self).batch_now(),
                old(self).results_now().push(
                    result_for(
                        old(self).batch_now()[old(self).results_now().len() as int]@,
                        text@,
                    ),
                ),
                old(self).permissions_now(),
                old(self).round_trips_now(),
                action,
            ),
    {
        let i = self.results.len();
        let ghost so_far = result_models(self.results@);
        let ghost call = self.batch@[i as int];
        assert(call_models(self.batch@)[i as int] == call@);
        let result = self.batch[i].result(text);
        assert(result@ == result_for(call@, text@));
        self.results.push(result);
        proof {
            assert(result_models(self.results@) =~= so_far.push(result@));
            assert(call_models(self.batch@).take(i + 1) =~= call_models(self.batch@).take(
                i as int,
            ).push(call@));
        }
        self.current = None;
        self.advance()
    }

    /// The user interrupted.
    ///
    /// While a reply is being read the turn is dropped: nothing of the reply
    /// goes into the history, and neither does a prompt that waited outside
    /// it, so an interrupt of the first request of a turn leaves the history
    /// as it was before the turn. The results that a later request was to
    /// bring to the model are in the history already and stay there, so that
    /// every call keeps its result. While a tool call waits or runs it is filed as
    /// interrupted, the calls behind it as skipped, the results go into the
    /// history, and nothing more goes to the model. Either way the turn is
    /// over and the cancellation flag is set until the next turn begins.
    /// While no turn runs the interrupt has nothing to stop: the flag is set
    /// where it was not, and that is all.
    pub fn on_interrupt(&mut self) -> (action: TurnAction)
        requires
            old(self).wf(),
        ensures
            final(self).wf(),
            final(self).cancel_pending(),
            final(self).phase_now() == Phase::Idle,
            final(self).prompt_now() is None,
            final(self).permissions_now() == old(self).permissions_now(),
            match old(self).phase_now() {
                Phase::Idle => action == TurnAction::Ignored && final(self).history_now() == old(self).history_now(),
                Phase::Streaming => action == TurnAction::Done(TurnEnd::Interrupted) && final(self).history_now() == old(self).history_now(),
                Phase::Confirming | Phase::Executing => {
                    &&& action == TurnAction::Done(TurnEnd::Interrupted)
                    &&& final(self).history_now() == old(self).history_now().push(
                        results_message(
                            closing(
                                old(self).results_now(),
                                call_models(old(self).batch_now()),
                                interrupted_text(),
                            ),
                        ),
                    )
                },
            },
    {
        match self.phase {
            Phase::Idle => {
                self.cancelled = true;
                TurnAction::Ignored
            },
            Phase::Streaming => {
                self.prompt = None;
                self.batch = Vec::new();
                self.response = String::new();
                self.phase = Phase::Idle;
                self.cancelled = true;
                TurnAction::Done(TurnEnd::Interrupted)
            },
            _ => {
                self.end_batch(text::owned("tool call interrupted by user"));
                self.cancelled = true;
                TurnAction::Done(TurnEnd::Interrupted)
            },
        }
    }
}


/// A turn whose first request fails or is interrupted leaves no trace in the
/// history: while the prompt waits outside the history, no tool call of the
/// history waits for its result, exactly as while no turn runs.
pub proof fn lemma_waiting_prompt_leaves_history_settled(engine: TurnEngine)
    requires
        engine.wf(),
        engine.prompt_now() is Some,
    ensures
        engine.phase_now() == Phase::Streaming,
        settled(engine.history_now()),
{
}

/// Whatever the user has approved, the call that the engine asks about or
/// hands out to be run is valid for its tool. For a command that
/// means: it is not blank, and it holds no entry of the deny-list.
pub proof fn lemma_pending_call_is_valid(engine: TurnEngine)
    requires
        engine.wf(),
        engine.phase_now() == Phase::Confirming || engine.phase_now() == Phase::Executing,
    ensures
        engine.pending() matches Some(typed) && typed.validated() is Ok,
        engine.pending() matches Some(AgxToolCall::RunCmd { args }) ==> !text::is_blank(
            args.command@,
        ) && crate::tools::run_cmd::first_blocked(args.command@) is None,
{
}

/// While no turn runs, every tool call of the history has its result: the
/// history is settled, and holds as many tool results as tool calls.
pub proof fn lemma_idle_history_is_answered(engine: TurnEngine)
    requires
        engine.wf(),
        engine.phase_now() == Phase::Idle,
    ensures
        settled(engine.history_now()),
        request_count(engine.history_now()) == result_count(engine.history_now()),
{
    lemma_settled_counts(engine.history_now());
}

} // verus!
