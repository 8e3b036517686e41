//! The events that observers of a session see.

use crate::domain::message::{Message, ToolCall, ToolResult};
use crate::text;
use vstd::prelude::*;

verus! {

/// An event: what happened, and when. The time is in milliseconds since the
/// start of 1970, in UTC.
#[derive(Debug)]
pub struct DebugEvent {
    pub timestamp_millis: i64,
    pub payload: DebugEventPayload,
}

/// What happened.
#[derive(Debug)]
#[allow(inconsistent_fields)]
pub enum DebugEventPayload {
    LlmRequest { prompt: Message, history: Vec<Message> },
    AssistantText { text: String },
    ToolCall { tool_call: ToolCall },
    Reasoning { reasoning: String },
    ToolResult(ToolResult),
    StreamComplete,
    TurnComplete { history: Vec<Message> },
    Interrupted,
    NewSession,
}

impl DebugEventPayload {
    /// What [`DebugEventPayload::kind`] returns.
    pub open spec fn kind_text(self) -> Seq<char> {
        match self {
            DebugEventPayload::LlmRequest { .. } => "llm_request"@,
            DebugEventPayload::AssistantText { .. } => "assistant_text"@,
            DebugEventPayload::ToolCall { .. } => "tool_call"@,
            DebugEventPayload::Reasoning { .. } => "reasoning"@,
            DebugEventPayload::ToolResult(_) => "tool_result"@,
            DebugEventPayload::StreamComplete => "stream_complete"@,
            DebugEventPayload::TurnComplete { .. } => "turn_complete"@,
            DebugEventPayload::Interrupted => "interrupted"@,
            DebugEventPayload::NewSession => "new_session"@,
        }
    }

    /// The word by which the event's kind is told apart when it is written
    /// out.
    pub fn kind(&self) -> (k: &'static str)
        ensures
            k@ == self.kind_text(),
    {
        match self {
            DebugEventPayload::LlmRequest { .. } => "llm_request",
            DebugEventPayload::AssistantText { .. } => "assistant_text",
            DebugEventPayload::ToolCall { .. } => "tool_call",
            DebugEventPayload::Reasoning { .. } => "reasoning",
            DebugEventPayload::ToolResult(_) => "tool_result",
            DebugEventPayload::StreamComplete => "stream_complete",
            DebugEventPayload::TurnComplete { .. } => "turn_complete",
            DebugEventPayload::Interrupted => "interrupted",
            DebugEventPayload::NewSession => "new_session",
        }
    }
}

impl DebugEvent {
    /// The event that holds `payload`, stamped with `timestamp_millis`.
    pub fn new(timestamp_millis: i64, payload: DebugEventPayload) -> (e: DebugEvent)
        ensures
            e.timestamp_millis == timestamp_millis,
            e.payload == payload,
    {
        DebugEvent { timestamp_millis, payload }
    }

    /// A request went to the model.
    pub fn llm_request(timestamp_millis: i64, prompt: Message, history: Vec<Message>) -> (e:
        DebugEvent)
        ensures
            e.timestamp_millis == timestamp_millis,
            e.payload == (DebugEventPayload::LlmRequest { prompt, history }),
    {
        DebugEvent::new(timestamp_millis, DebugEventPayload::LlmRequest { prompt, history })
    }

    /// The assistant said `text`.
    pub fn assistant_text(timestamp_millis: i64, text: &str) -> (e: DebugEvent)
        ensures
            e.timestamp_millis == timestamp_millis,
            e.payload matches DebugEventPayload::AssistantText { text: t } && t@ == text@,
    {
        DebugEvent::new(
            timestamp_millis,
            DebugEventPayload::AssistantText { text: text::owned(text) },
        )
    }

    /// The model asked for a tool.
    pub fn tool_call(timestamp_millis: i64, tool_call: ToolCall) -> (e: DebugEvent)
        ensures
            e.timestamp_millis == timestamp_millis,
            e.payload == (DebugEventPayload::ToolCall { tool_call }),
    {
        DebugEvent::new(timestamp_millis, DebugEventPayload::ToolCall { tool_call })
    }

    /// The model reasoned.
    pub fn reasoning(timestamp_millis: i64, reasoning: String) -> (e: DebugEvent)
        ensures
            e.timestamp_millis == timestamp_millis,
            e.payload == (DebugEventPayload::Reasoning { reasoning }),
    {
        DebugEvent::new(timestamp_millis, DebugEventPayload::Reasoning { reasoning })
    }

    /// A tool call got its result.
    pub fn tool_result(timestamp_millis: i64, result: &ToolResult) -> (e: DebugEvent)
        ensures
            e.timestamp_millis == timestamp_millis,
            e.payload matches DebugEventPayload::ToolResult(r) && r@ == result@,
    {
        DebugEvent::new(timestamp_millis, DebugEventPayload::ToolResult(result.duplicate()))
    }

    /// The reply of the model is complete.
    pub fn stream_complete(timestamp_millis: i64) -> (e: DebugEvent)
        ensures
            e.timestamp_millis == timestamp_millis,
            e.payload is StreamComplete,
    {
        DebugEvent::new(timestamp_millis, DebugEventPayload::StreamComplete)
    }

    /// A turn is over.
    pub fn turn_complete(timestamp_millis: i64, history: Vec<Message>) -> (e: DebugEvent)
        ensures
            e.timestamp_millis == timestamp_millis,
            e.payload == (DebugEventPayload::TurnComplete { history }),
    {
        DebugEvent::new(timestamp_millis, DebugEventPayload::TurnComplete { history })
    }

    /// The user interrupted.
    pub fn interrupted(timestamp_millis: i64) -> (e: DebugEvent)
        ensures
            e.timestamp_millis == timestamp_millis,
            e.payload is Interrupted,
    {
        DebugEvent::new(timestamp_millis, DebugEventPayload::Interrupted)
    }

    /// A new conversation began.
    pub fn new_session(timestamp_millis: i64) -> (e: DebugEvent)
        ensures
            e.timestamp_millis == timestamp_millis,
            e.payload is NewSession,
    {
        DebugEvent::new(timestamp_millis, DebugEventPayload::NewSession)
    }
}

} // verus!
