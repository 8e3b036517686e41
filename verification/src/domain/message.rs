//! The conversation: messages of the user and of the assistant, and the tool
//! calls and tool results that they carry.

use crate::text;
use vstd::prelude::*;

verus! {

/// A request of the model to run a tool.
#[derive(Debug)]
pub struct ToolCall {
    /// The id under which the result is filed.
    pub id: String,
    /// A second id that some backends send along.
    pub call_id: Option<String>,
    /// The name of the tool.
    pub name: String,
    /// The arguments, as the text of a JSON value.
    pub arguments: String,
}

/// What a [`ToolCall`] is in contracts.
pub struct ToolCallModel {
    pub id: Seq<char>,
    pub call_id: Option<Seq<char>>,
    pub name: Seq<char>,
    pub arguments: Seq<char>,
}

impl View for ToolCall {
    type V = ToolCallModel;

    open spec fn view(&self) -> ToolCallModel {
        ToolCallModel {
            id: self.id@,
            call_id: text::opt_view(self.call_id),
            name: self.name@,
            arguments: self.arguments@,
        }
    }
}

/// The outcome of one tool call, filed under the call's ids.
#[derive(Debug)]
pub struct ToolResult {
    pub id: String,
    pub call_id: Option<String>,
    pub text: String,
}

/// What a [`ToolResult`] is in contracts.
pub struct ToolResultModel {
    pub id: Seq<char>,
    pub call_id: Option<Seq<char>>,
    pub text: Seq<char>,
}

impl View for ToolResult {
    type V = ToolResultModel;

    open spec fn view(&self) -> ToolResultModel {
        ToolResultModel { id: self.id@, call_id: text::opt_view(self.call_id), text: self.text@ }
    }
}

/// One item of a user message.
#[derive(Debug)]
pub enum UserContent {
    Text(String),
    ToolResult(ToolResult),
}

/// What a [`UserContent`] is in contracts.
pub enum UserContentModel {
    Text(Seq<char>),
    ToolResult(ToolResultModel),
}

impl View for UserContent {
    type V = UserContentModel;

    open spec fn view(&self) -> UserContentModel {
        match self {
            UserContent::Text(t) => UserContentModel::Text(t@),
            UserContent::ToolResult(r) => UserContentModel::ToolResult(r@),
        }
    }
}

/// One item of an assistant message.
#[derive(Debug)]
pub enum AssistantContent {
    Text(String),
    ToolCall(ToolCall),
    Reasoning(String),
}

/// What an [`AssistantContent`] is in contracts.
pub enum AssistantContentModel {
    Text(Seq<char>),
    ToolCall(ToolCallModel),
    Reasoning(Seq<char>),
}

impl View for AssistantContent {
    type V = AssistantContentModel;

    open spec fn view(&self) -> AssistantContentModel {
        match self {
            AssistantContent::Text(t) => AssistantContentModel::Text(t@),
            AssistantContent::ToolCall(c) => AssistantContentModel::ToolCall(c@),
            AssistantContent::Reasoning(r) => AssistantContentModel::Reasoning(r@),
        }
    }
}

/// One message of the conversation.
#[derive(Debug)]
#[allow(inconsistent_fields)]
pub enum Message {
    User { content: Vec<UserContent> },
    Assistant { content: Vec<AssistantContent> },
}

/// What a [`Message`] is in contracts.
#[allow(inconsistent_fields)]
pub enum MessageModel {
    User { content: Seq<UserContentModel> },
    Assistant { content: Seq<AssistantContentModel> },
}

impl View for Message {
    type V = MessageModel;

    open spec fn view(&self) -> MessageModel {
        match self {
            Message::User { content } => MessageModel::User {
                content: content@.map_values(|c: UserContent| c@),
            },
            Message::Assistant { content } => MessageModel::Assistant {
                content: content@.map_values(|c: AssistantContent| c@),
            },
        }
    }
}

/// The models of the tool calls in `calls`, in order.
pub open spec fn call_models(calls: Seq<ToolCall>) -> Seq<ToolCallModel> {
    calls.map_values(|c: ToolCall| c@)
}

/// The models of the tool results in `results`, in order.
pub open spec fn result_models(results: Seq<ToolResult>) -> Seq<ToolResultModel> {
    results.map_values(|r: ToolResult| r@)
}

/// The models of the messages in `messages`, in order.
pub open spec fn message_models(messages: Seq<Message>) -> Seq<MessageModel> {
    messages.map_values(|m: Message| m@)
}

/// The tool calls among the items of an assistant message, in order.
pub open spec fn calls_among(content: Seq<AssistantContentModel>) -> Seq<ToolCallModel>
    decreases content.len(),
{
    if content.len() == 0 {
        Seq::empty()
    } else {
        match content.last() {
            AssistantContentModel::ToolCall(c) => calls_among(content.drop_last()).push(c),
            _ => calls_among(content.drop_last()),
        }
    }
}

/// The tool results among the items of a user message, in order.
pub open spec fn results_among(content: Seq<UserContentModel>) -> Seq<ToolResultModel>
    decreases content.len(),
{
    if content.len() == 0 {
        Seq::empty()
    } else {
        match content.last() {
            UserContentModel::ToolResult(r) => results_among(content.drop_last()).push(r),
            _ => results_among(content.drop_last()),
        }
    }
}

impl MessageModel {
    /// The tool calls that the message issues: those of an assistant message,
    /// none for a user message.
    pub open spec fn calls(self) -> Seq<ToolCallModel> {
        match self {
            MessageModel::Assistant { content } => calls_among(content),
            MessageModel::User { .. } => Seq::empty(),
        }
    }

    /// The tool results that the message brings: those of a user message,
    /// none for an assistant message.
    pub open spec fn results(self) -> Seq<ToolResultModel> {
        match self {
            MessageModel::User { content } => results_among(content),
            MessageModel::Assistant { .. } => Seq::empty(),
        }
    }
}

impl ToolResultModel {
    /// Whether the result is filed under the ids of `call`.
    pub open spec fn answers(self, call: ToolCallModel) -> bool {
        self.id == call.id && self.call_id == call.call_id
    }
}

/// Whether `results` answer `calls` one for one: as many results as calls,
/// the result at each position filed under the ids of the call at that
/// position.
pub open spec fn answer_each(results: Seq<ToolResultModel>, calls: Seq<ToolCallModel>) -> bool {
    &&& results.len() == calls.len()
    &&& forall|i: int| 0 <= i < calls.len() ==> (#[trigger] results[i]).answers(calls[i])
}

impl ToolCall {
    /// A copy of the call.
    pub fn duplicate(&self) -> (copy: ToolCall)
        ensures
            copy@ == self@,
    {
        ToolCall {
            id: self.id.clone(),
            call_id: text::cloned_opt(&self.call_id),
            name: self.name.clone(),
            arguments: self.arguments.clone(),
        }
    }

    /// The result that files `text` under the ids of this call.
    pub fn result(&self, text: String) -> (result: ToolResult)
        ensures
            result@.answers(self@),
            result@.text == text@,
    {
        ToolResult { id: self.id.clone(), call_id: text::cloned_opt(&self.call_id), text }
    }
}

impl ToolResult {
    /// A copy of the result.
    pub fn duplicate(&self) -> (copy: ToolResult)
        ensures
            copy@ == self@,
    {
        ToolResult {
            id: self.id.clone(),
            call_id: text::cloned_opt(&self.call_id),
            text: self.text.clone(),
        }
    }
}

/// The items of a user message that brings `results`, in order.
pub open spec fn result_items(results: Seq<ToolResultModel>) -> Seq<UserContentModel> {
    results.map_values(|r: ToolResultModel| UserContentModel::ToolResult(r))
}

/// The items of an assistant message that issues `calls`, in order.
pub open spec fn call_items(calls: Seq<ToolCallModel>) -> Seq<AssistantContentModel> {
    calls.map_values(|c: ToolCallModel| AssistantContentModel::ToolCall(c))
}

/// The items of the assistant message that holds `text`, where it is not
/// empty, and then `calls`.
pub open spec fn reply_items(text: Seq<char>, calls: Seq<ToolCallModel>) -> Seq<
    AssistantContentModel,
> {
    if text.len() == 0 {
        call_items(calls)
    } else {
        seq![AssistantContentModel::Text(text)] + call_items(calls)
    }
}

/// The results among the items made of `results` are `results`.
pub proof fn lemma_results_among_items(results: Seq<ToolResultModel>)
    ensures
        results_among(result_items(results)) == results,
    decreases results.len(),
{
    if results.len() > 0 {
        lemma_results_among_items(results.drop_last());
        assert(result_items(results).drop_last() == result_items(results.drop_last()));
        assert(results.drop_last().push(results.last()) == results);
    }
}

/// The calls among the items of a reply are the calls that it was made of.
pub proof fn lemma_calls_among_items(text: Seq<char>, calls: Seq<ToolCallModel>)
    ensures
        calls_among(reply_items(text, calls)) == calls,
        calls_among(call_items(calls)) == calls,
    decreases calls.len(),
{
    let head = seq![AssistantContentModel::Text(text)];
    if calls.len() > 0 {
        lemma_calls_among_items(text, calls.drop_last());
        assert(call_items(calls).drop_last() == call_items(calls.drop_last()));
        assert((head + call_items(calls)).drop_last() == head + call_items(calls.drop_last()));
        assert(calls.drop_last().push(calls.last()) == calls);
    } else {
        assert(head + call_items(calls) == head);
        assert(head.drop_last() == Seq::<AssistantContentModel>::empty());
        reveal_with_fuel(calls_among, 2);
    }
}

impl Message {
    /// The message in which the user says `text`.
    pub fn user_text(text: String) -> (m: Message)
        ensures
            m@ == (MessageModel::User { content: seq![UserContentModel::Text(text@)] }),
            m@.calls().len() == 0,
            m@.results().len() == 0,
    {
        let mut content: Vec<UserContent> = Vec::new();
        content.push(UserContent::Text(text));
        let m = Message::User { content };
        proof {
            assert(m@ == (MessageModel::User { content: seq![UserContentModel::Text(text@)] })) by {
                assert(content@.map_values(|c: UserContent| c@) =~= seq![
                    UserContentModel::Text(text@),
                ]);
            }
            reveal_with_fuel(results_among, 2);
        }
        m
    }

    /// The user message that brings `results` back to the model.
    pub fn tool_results(results: &Vec<ToolResult>) -> (m: Message)
        ensures
            m@ == (MessageModel::User { content: result_items(result_models(results@)) }),
            m@.results() == result_models(results@),
            m@.calls().len() == 0,
    {
        let mut content: Vec<UserContent> = Vec::new();
        let mut i: usize = 0;
        while i < results.len()
            invariant
                i <= results.len(),
                content@.map_values(|c: UserContent| c@) == result_items(
                    result_models(results@).take(i as int),
                ),
            decreases results.len() - i,
        {
            let ghost before = content@.map_values(|c: UserContent| c@);
            content.push(UserContent::ToolResult(results[i].duplicate()));
            assert(content@.map_values(|c: UserContent| c@) =~= before.push(
                UserContentModel::ToolResult(results@[i as int]@),
            ));
            assert(result_items(result_models(results@).take(i + 1)) =~= result_items(
                result_models(results@).take(i as int),
            ).push(UserContentModel::ToolResult(results@[i as int]@)));
            i += 1;
        }
        assert(result_models(results@).take(results.len() as int) == result_models(results@));
        proof {
            lemma_results_among_items(result_models(results@));
        }
        Message::User { content }
    }

    /// The assistant message that holds `text`, where it is not empty, and
    /// then `calls`.
    pub fn assistant(text: &str, calls: &Vec<ToolCall>) -> (m: Message)
        ensures
            m@ == (MessageModel::Assistant { content: reply_items(text@, call_models(calls@)) }),
            m@.calls() == call_models(calls@),
            m@.results().len() == 0,
    {
        let mut content: Vec<AssistantContent> = Vec::new();
        if text.unicode_len() > 0 {
            content.push(AssistantContent::Text(crate::text::owned(text)));
        }
        let ghost head = content@.map_values(|c: AssistantContent| c@);
        let mut i: usize = 0;
        assert(call_items(call_models(calls@).take(0)) =~= Seq::<AssistantContentModel>::empty());
        assert(head + Seq::<AssistantContentModel>::empty() =~= head);
        while i < calls.len()
            invariant
                i <= calls.len(),
                content@.map_values(|c: AssistantContent| c@) == head + call_items(
                    call_models(calls@).take(i as int),
                ),
            decreases calls.len() - i,
        {
            let ghost before = content@.map_values(|c: AssistantContent| c@);
            content.push(AssistantContent::ToolCall(calls[i].duplicate()));
            assert(content@.map_values(|c: AssistantContent| c@) =~= before.push(
                AssistantContentModel::ToolCall(calls@[i as int]@),
            ));
            assert(call_items(call_models(calls@).take(i + 1)) =~= call_items(
                call_models(calls@).take(i as int),
            ).push(AssistantContentModel::ToolCall(calls@[i as int]@)));
            i += 1;
        }
        assert(call_models(calls@).take(calls.len() as int) == call_models(calls@));
        proof {
            lemma_calls_among_items(text@, call_models(calls@));
            if text@.len() == 0 {
                assert(head + call_items(call_models(calls@)) =~= call_items(call_models(calls@)));
            } else {
                assert(head =~= seq![AssistantContentModel::Text(text@)]);
            }
        }
        Message::Assistant { content }
    }
}

/// A short description of a message, for logs and listings.
pub trait MessageExt {
    /// What [`MessageExt::summary`] returns.
    spec fn summary_text(&self) -> Seq<char>;

    /// The description of the message.
    fn summary(&self) -> (s: String)
        ensures
            s@ == self.summary_text(),
    ;
}

impl MessageExt for Message {
    /// A user message is described by its first item: `text: ` and the text,
    /// or `tool_result: id=` and the id; one without items is `other`. An
    /// assistant message is `assistant`.
    open spec fn summary_text(&self) -> Seq<char> {
        match self {
            Message::User { content } => if content.len() == 0 {
                "other"@
            } else {
                match content[0] {
                    UserContent::Text(t) => "text: "@ + t@,
                    UserContent::ToolResult(r) => "tool_result: id="@ + r.id@,
                }
            },
            Message::Assistant { .. } => "assistant"@,
        }
    }

    fn summary(&self) -> (s: String) {
        match self {
            Message::User { content } => {
                if content.len() == 0 {
                    text::owned("other")
                } else {
                    match &content[0] {
                        UserContent::Text(t) => text::concat("text: ", t.as_str()),
                        UserContent::ToolResult(r) => text::concat(
                            "tool_result: id=",
                            r.id.as_str(),
                        ),
                    }
                }
            },
            Message::Assistant { .. } => text::owned("assistant"),
        }
    }
}

} // verus!
