//! The session event model: a tagged union over JSON records with a
//! catch-all variant, so that records of kinds not known here still decode.

use vstd::prelude::*;
use crate::json::{Json, opt_text};

verus! {

/// A text block of an assistant message.
#[derive(Debug)]
pub struct TextBlock {
    pub text: Option<String>,
}

/// A reasoning block of an assistant message.
#[derive(Debug)]
pub struct ThinkingBlock {
    pub thinking: Option<String>,
    pub signature: Option<String>,
}

/// A tool invocation inside an assistant message; the input is kept as JSON.
#[derive(Debug)]
pub struct ToolUseBlock {
    pub id: Option<String>,
    pub name: Option<String>,
    pub input: Option<Json>,
}

/// The result of a tool invocation; the content is kept as JSON.
#[derive(Debug)]
pub struct ToolResultBlock {
    pub tool_use_id: Option<String>,
    pub content: Option<Json>,
    pub is_error: Option<bool>,
}

/// One block of an assistant message, keyed by its `type` member.
#[derive(Debug)]
pub enum ContentBlock {
    Thinking(ThinkingBlock),
    Text(TextBlock),
    ToolUse(ToolUseBlock),
    ToolResult(ToolResultBlock),
    /// Any block of another kind (signatures, redacted reasoning, later kinds).
    Other,
}

/// What a user said: plain text, or a list of blocks kept as JSON.
#[derive(Debug)]
pub enum UserContent {
    Text(String),
    Blocks(Vec<Json>),
}

impl UserContent {
    /// The plain text, when the content is plain text.
    pub fn as_text(&self) -> (r: Option<&str>)
        ensures
            match r {
                Some(t) => *self matches UserContent::Text(s) && t@ == s@,
                None => *self is Blocks,
            },
    {
        match self {
            UserContent::Text(s) => Some(s.as_str()),
            UserContent::Blocks(_) => None,
        }
    }
}

#[derive(Debug)]
pub struct UserMessage {
    pub role: Option<String>,
    pub content: UserContent,
}

#[derive(Debug)]
pub struct AssistantMessage {
    pub role: Option<String>,
    pub content: Vec<ContentBlock>,
}

#[derive(Debug)]
pub struct SystemEvent {
    pub created_at: Option<String>,
    pub uuid: Option<String>,
    pub subtype: Option<String>,
    pub session_id: Option<String>,
    pub model: Option<String>,
    pub cwd: Option<String>,
    pub claude_code_version: Option<String>,
    pub tools: Option<Vec<String>>,
    pub agents: Option<Vec<String>>,
    pub skills: Option<Vec<String>>,
    pub slash_commands: Option<Vec<String>>,
    pub mcp_servers: Option<Json>,
    pub permission_mode: Option<String>,
    pub fast_mode_state: Option<String>,
    pub output_style: Option<String>,
}

#[derive(Debug)]
pub struct UserEvent {
    pub created_at: Option<String>,
    pub uuid: Option<String>,
    pub session_id: Option<String>,
    pub message: UserMessage,
    pub parent_tool_use_id: Option<String>,
    pub is_replay: Option<bool>,
}

#[derive(Debug)]
pub struct AssistantEvent {
    pub created_at: Option<String>,
    pub uuid: Option<String>,
    pub session_id: Option<String>,
    pub message: AssistantMessage,
}

#[derive(Debug)]
pub struct ToolUseSummaryEvent {
    pub created_at: Option<String>,
    pub uuid: Option<String>,
    pub session_id: Option<String>,
    pub summary: Option<String>,
    pub preceding_tool_use_ids: Option<Vec<String>>,
}

#[derive(Debug)]
pub struct ToolProgressEvent {
    pub created_at: Option<String>,
    pub uuid: Option<String>,
    pub session_id: Option<String>,
    pub tool_name: Option<String>,
    pub tool_use_id: Option<String>,
    pub parent_tool_use_id: Option<String>,
    pub elapsed_time_seconds: Option<u64>,
}

#[derive(Debug)]
pub struct ResultEvent {
    pub created_at: Option<String>,
    pub duration_ms: Option<u64>,
    pub duration_api_ms: Option<u64>,
    pub errors: Option<Vec<String>>,
}

#[derive(Debug)]
pub struct ControlResponseData {
    pub subtype: Option<String>,
}

#[derive(Debug)]
pub struct ControlResponseEvent {
    pub created_at: Option<String>,
    pub response: Option<ControlResponseData>,
}

#[derive(Debug)]
pub struct EnvManagerLogData {
    pub category: Option<String>,
    pub content: Option<String>,
    pub level: Option<String>,
    pub timestamp: Option<String>,
    pub extra: Option<Json>,
}

#[derive(Debug)]
pub struct EnvManagerLogEvent {
    pub created_at: Option<String>,
    pub uuid: Option<String>,
    pub data: Option<EnvManagerLogData>,
}

/// One record of a session's event stream, keyed by its `type` member.
#[derive(Debug)]
pub enum SessionEvent {
    System(SystemEvent),
    User(UserEvent),
    Assistant(AssistantEvent),
    ToolUseSummary(ToolUseSummaryEvent),
    ToolProgress(ToolProgressEvent),
    Result(ResultEvent),
    ControlResponse(ControlResponseEvent),
    EnvManagerLog(EnvManagerLogEvent),
    /// Any record whose `type` is missing or not one of the above.
    Unknown,
}

/// The tag of each variant, as it appears in the `type` member.
pub open spec fn tag_of(e: SessionEvent) -> Seq<char> {
    match e {
        SessionEvent::System(_) => "system"@,
        SessionEvent::User(_) => "user"@,
        SessionEvent::Assistant(_) => "assistant"@,
        SessionEvent::ToolUseSummary(_) => "tool_use_summary"@,
        SessionEvent::ToolProgress(_) => "tool_progress"@,
        SessionEvent::Result(_) => "result"@,
        SessionEvent::ControlResponse(_) => "control_response"@,
        SessionEvent::EnvManagerLog(_) => "env_manager_log"@,
        SessionEvent::Unknown => "unknown"@,
    }
}

/// The tags of the fixed variants.
pub open spec fn is_known_tag(t: Seq<char>) -> bool {
    ||| t == "system"@
    ||| t == "user"@
    ||| t == "assistant"@
    ||| t == "tool_use_summary"@
    ||| t == "tool_progress"@
    ||| t == "result"@
    ||| t == "control_response"@
    ||| t == "env_manager_log"@
}

/// The tag that a record with the given `type` member decodes to.
pub open spec fn decoded_tag(t: Option<Seq<char>>) -> Seq<char> {
    match t {
        Some(s) => if is_known_tag(s) { s } else { "unknown"@ },
        None => "unknown"@,
    }
}

/// The creation timestamp carried by an event, as text.
pub open spec fn created_at_of(e: SessionEvent) -> Option<Seq<char>> {
    match e {
        SessionEvent::System(x) => opt_text(x.created_at),
        SessionEvent::User(x) => opt_text(x.created_at),
        SessionEvent::Assistant(x) => opt_text(x.created_at),
        SessionEvent::ToolUseSummary(x) => opt_text(x.created_at),
        SessionEvent::ToolProgress(x) => opt_text(x.created_at),
        SessionEvent::Result(x) => opt_text(x.created_at),
        SessionEvent::ControlResponse(x) => opt_text(x.created_at),
        SessionEvent::EnvManagerLog(x) => opt_text(x.created_at),
        SessionEvent::Unknown => None,
    }
}

/// Events that belong to the visible conversation.
pub open spec fn is_conversation_event(e: SessionEvent) -> bool {
    e is System || e is User || e is Assistant || e is Result
}

impl SessionEvent {
    /// The variant's tag, equal to the `type` member it decodes from.
    pub fn event_type(&self) -> (r: &'static str)
        ensures
            r@ == tag_of(*self),
    {
        match self {
            SessionEvent::System(_) => "system",
            SessionEvent::User(_) => "user",
            SessionEvent::Assistant(_) => "assistant",
            SessionEvent::ToolUseSummary(_) => "tool_use_summary",
            SessionEvent::ToolProgress(_) => "tool_progress",
            SessionEvent::Result(_) => "result",
            SessionEvent::ControlResponse(_) => "control_response",
            SessionEvent::EnvManagerLog(_) => "env_manager_log",
            SessionEvent::Unknown => "unknown",
        }
    }

    /// The creation timestamp, passed through unparsed.
    pub fn created_at(&self) -> (r: Option<&str>)
        ensures
            match r {
                Some(t) => created_at_of(*self) == Some(t@),
                None => created_at_of(*self) is None,
            },
    {
        let c = match self {
            SessionEvent::System(x) => &x.created_at,
            SessionEvent::User(x) => &x.created_at,
            SessionEvent::Assistant(x) => &x.created_at,
            SessionEvent::ToolUseSummary(x) => &x.created_at,
            SessionEvent::ToolProgress(x) => &x.created_at,
            SessionEvent::Result(x) => &x.created_at,
            SessionEvent::ControlResponse(x) => &x.created_at,
            SessionEvent::EnvManagerLog(x) => &x.created_at,
            SessionEvent::Unknown => {
                return None;
            },
        };
        match c {
            Some(s) => Some(s.as_str()),
            None => None,
        }
    }

    /// Whether the event is part of the conversation (system, user,
    /// assistant and result records) rather than tooling or telemetry.
    pub fn is_conversation(&self) -> (r: bool)
        ensures
            r == is_conversation_event(*self),
    {
        match self {
            SessionEvent::System(_) | SessionEvent::User(_) | SessionEvent::Assistant(_)
            | SessionEvent::Result(_) => true,
            _ => false,
        }
    }
}

} // verus!
