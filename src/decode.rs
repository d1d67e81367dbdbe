//! Decoding of event records from JSON. Decoding never fails: a record of an
//! unrecognised kind becomes the catch-all variant, an absent or ill-typed
//! member becomes an absent field.

use vstd::prelude::*;
use crate::json::{
    Json, str_at, u64_at, bool_at, str_list_at, opt_text, opt_texts, member_or_null,
    get_str, get_u64, get_bool, get_str_list, take_present, take_or_null, present,
};
use crate::events::{
    SessionEvent, ContentBlock, TextBlock, ThinkingBlock, ToolUseBlock, ToolResultBlock,
    UserContent, UserMessage, AssistantMessage, SystemEvent, UserEvent, AssistantEvent,
    ToolUseSummaryEvent, ToolProgressEvent, ResultEvent, ControlResponseEvent,
    ControlResponseData, EnvManagerLogEvent, EnvManagerLogData, tag_of, decoded_tag,
};
use crate::text::str_eq;

verus! {

/// `b` is the block that the JSON value `j` decodes to.
pub open spec fn block_decoded(b: ContentBlock, j: Json) -> bool {
    let t = str_at(j, "type"@);
    if t == Some("thinking"@) {
        &&& b matches ContentBlock::Thinking(x)
        &&& opt_text(x.thinking) == str_at(j, "thinking"@)
        &&& opt_text(x.signature) == str_at(j, "signature"@)
    } else if t == Some("text"@) {
        &&& b matches ContentBlock::Text(x)
        &&& opt_text(x.text) == str_at(j, "text"@)
    } else if t == Some("tool_use"@) {
        &&& b matches ContentBlock::ToolUse(x)
        &&& opt_text(x.id) == str_at(j, "id"@)
        &&& opt_text(x.name) == str_at(j, "name"@)
        &&& x.input == present(j, "input"@)
    } else if t == Some("tool_result"@) {
        &&& b matches ContentBlock::ToolResult(x)
        &&& opt_text(x.tool_use_id) == str_at(j, "tool_use_id"@)
        &&& x.content == present(j, "content"@)
        &&& x.is_error == bool_at(j, "is_error"@)
    } else {
        b is Other
    }
}

/// Decodes one block of an assistant message.
pub fn decode_block(j: Json) -> (r: ContentBlock)
    ensures
        block_decoded(r, j),
{
    let tag = match get_str(&j, "type") {
        Some(t) => t,
        None => {
            return ContentBlock::Other;
        },
    };
    if str_eq(tag.as_str(), "thinking") {
        ContentBlock::Thinking(
            ThinkingBlock { thinking: get_str(&j, "thinking"), signature: get_str(&j, "signature") },
        )
    } else if str_eq(tag.as_str(), "text") {
        ContentBlock::Text(TextBlock { text: get_str(&j, "text") })
    } else if str_eq(tag.as_str(), "tool_use") {
        let id = get_str(&j, "id");
        let name = get_str(&j, "name");
        ContentBlock::ToolUse(ToolUseBlock { id, name, input: take_present(j, "input") })
    } else if str_eq(tag.as_str(), "tool_result") {
        let tool_use_id = get_str(&j, "tool_use_id");
        let is_error = get_bool(&j, "is_error");
        ContentBlock::ToolResult(
            ToolResultBlock { tool_use_id, content: take_present(j, "content"), is_error },
        )
    } else {
        ContentBlock::Other
    }
}

/// `bs` are the blocks that the elements of `items` decode to, in order.
pub open spec fn blocks_decoded(bs: Seq<ContentBlock>, items: Seq<Json>) -> bool {
    &&& bs.len() == items.len()
    &&& forall|k: int| 0 <= k < items.len() ==> block_decoded(#[trigger] bs[k], items[k])
}

/// Decodes a list of blocks, keeping their order.
pub fn decode_blocks(items: Vec<Json>) -> (r: Vec<ContentBlock>)
    ensures
        blocks_decoded(r@, items@),
{
    let ghost orig = items@;
    let mut rest = items;
    let mut out: Vec<ContentBlock> = Vec::new();
    while rest.len() > 0
        invariant
            out@.len() + rest@.len() == orig.len(),
            rest@ == orig.subrange(out@.len() as int, orig.len() as int),
            forall|k: int| 0 <= k < out@.len() ==> block_decoded(#[trigger] out@[k], orig[k]),
        decreases rest@.len(),
    {
        let x = rest.remove(0);
        let b = decode_block(x);
        out.push(b);
        assert(rest@ =~= orig.subrange(out@.len() as int, orig.len() as int));
    }
    out
}

/// The list that a JSON value stands for as a block list: an array's
/// elements, and nothing for any other value.
pub open spec fn array_items(j: Json) -> Seq<Json> {
    match j {
        Json::Array(items) => items@,
        _ => Seq::empty(),
    }
}

/// `c` is the user content that `j` decodes to: a string is plain text;
/// anything else is taken as a list of blocks.
pub open spec fn user_content_decoded(c: UserContent, j: Json) -> bool {
    match j {
        Json::Str(s) => c matches UserContent::Text(t) && t@ == s@,
        _ => c matches UserContent::Blocks(b) && b@ == array_items(j),
    }
}

/// Decodes the content of a user message, trying plain text first.
pub fn decode_user_content(j: Json) -> (r: UserContent)
    ensures
        user_content_decoded(r, j),
{
    match j {
        Json::Str(s) => UserContent::Text(s),
        Json::Array(items) => UserContent::Blocks(items),
        _ => UserContent::Blocks(Vec::new()),
    }
}

/// `m` is the user message that `j` decodes to.
pub open spec fn user_message_decoded(m: UserMessage, j: Json) -> bool {
    &&& opt_text(m.role) == str_at(j, "role"@)
    &&& user_content_decoded(m.content, member_or_null(j, "content"@))
}

/// Decodes a user message; an absent message has no role and no blocks.
pub fn decode_user_message(j: Json) -> (r: UserMessage)
    ensures
        user_message_decoded(r, j),
{
    let role = get_str(&j, "role");
    UserMessage { role, content: decode_user_content(take_or_null(j, "content")) }
}

/// `m` is the assistant message that `j` decodes to.
pub open spec fn assistant_message_decoded(m: AssistantMessage, j: Json) -> bool {
    &&& opt_text(m.role) == str_at(j, "role"@)
    &&& blocks_decoded(m.content@, array_items(member_or_null(j, "content"@)))
}

/// Decodes an assistant message; content that is not an array has no blocks.
pub fn decode_assistant_message(j: Json) -> (r: AssistantMessage)
    ensures
        assistant_message_decoded(r, j),
{
    let role = get_str(&j, "role");
    let items = match take_or_null(j, "content") {
        Json::Array(items) => items,
        _ => Vec::new(),
    };
    AssistantMessage { role, content: decode_blocks(items) }
}

pub open spec fn system_decoded(x: SystemEvent, j: Json) -> bool {
    &&& opt_text(x.created_at) == str_at(j, "created_at"@)
    &&& opt_text(x.uuid) == str_at(j, "uuid"@)
    &&& opt_text(x.subtype) == str_at(j, "subtype"@)
    &&& opt_text(x.session_id) == str_at(j, "session_id"@)
    &&& opt_text(x.model) == str_at(j, "model"@)
    &&& opt_text(x.cwd) == str_at(j, "cwd"@)
    &&& opt_text(x.claude_code_version) == str_at(j, "claude_code_version"@)
    &&& opt_texts(x.tools) == str_list_at(j, "tools"@)
    &&& opt_texts(x.agents) == str_list_at(j, "agents"@)
    &&& opt_texts(x.skills) == str_list_at(j, "skills"@)
    &&& opt_texts(x.slash_commands) == str_list_at(j, "slash_commands"@)
    &&& x.mcp_servers == present(j, "mcp_servers"@)
    &&& opt_text(x.permission_mode) == str_at(j, "permissionMode"@)
    &&& opt_text(x.fast_mode_state) == str_at(j, "fast_mode_state"@)
    &&& opt_text(x.output_style) == str_at(j, "output_style"@)
}

fn decode_system(j: Json) -> (r: SystemEvent)
    ensures
        system_decoded(r, j),
{
    let created_at = get_str(&j, "created_at");
    let uuid = get_str(&j, "uuid");
    let subtype = get_str(&j, "subtype");
    let session_id = get_str(&j, "session_id");
    let model = get_str(&j, "model");
    let cwd = get_str(&j, "cwd");
    let claude_code_version = get_str(&j, "claude_code_version");
    let tools = get_str_list(&j, "tools");
    let agents = get_str_list(&j, "agents");
    let skills = get_str_list(&j, "skills");
    let slash_commands = get_str_list(&j, "slash_commands");
    let permission_mode = get_str(&j, "permissionMode");
    let fast_mode_state = get_str(&j, "fast_mode_state");
    let output_style = get_str(&j, "output_style");
    let mcp_servers = take_present(j, "mcp_servers");
    SystemEvent {
        created_at,
        uuid,
        subtype,
        session_id,
        model,
        cwd,
        claude_code_version,
        tools,
        agents,
        skills,
        slash_commands,
        mcp_servers,
        permission_mode,
        fast_mode_state,
        output_style,
    }
}

pub open spec fn user_decoded(x: UserEvent, j: Json) -> bool {
    &&& opt_text(x.created_at) == str_at(j, "created_at"@)
    &&& opt_text(x.uuid) == str_at(j, "uuid"@)
    &&& opt_text(x.session_id) == str_at(j, "session_id"@)
    &&& user_message_decoded(x.message, member_or_null(j, "message"@))
    &&& opt_text(x.parent_tool_use_id) == str_at(j, "parent_tool_use_id"@)
    &&& x.is_replay == bool_at(j, "isReplay"@)
}

fn decode_user(j: Json) -> (r: UserEvent)
    ensures
        user_decoded(r, j),
{
    let created_at = get_str(&j, "created_at");
    let uuid = get_str(&j, "uuid");
    let session_id = get_str(&j, "session_id");
    let parent_tool_use_id = get_str(&j, "parent_tool_use_id");
    let is_replay = get_bool(&j, "isReplay");
    let message = decode_user_message(take_or_null(j, "message"));
    UserEvent { created_at, uuid, session_id, message, parent_tool_use_id, is_replay }
}

pub open spec fn assistant_decoded(x: AssistantEvent, j: Json) -> bool {
    &&& opt_text(x.created_at) == str_at(j, "created_at"@)
    &&& opt_text(x.uuid) == str_at(j, "uuid"@)
    &&& opt_text(x.session_id) == str_at(j, "session_id"@)
    &&& assistant_message_decoded(x.message, member_or_null(j, "message"@))
}

fn decode_assistant(j: Json) -> (r: AssistantEvent)
    ensures
        assistant_decoded(r, j),
{
    let created_at = get_str(&j, "created_at");
    let uuid = get_str(&j, "uuid");
    let session_id = get_str(&j, "session_id");
    let message = decode_assistant_message(take_or_null(j, "message"));
    AssistantEvent { created_at, uuid, session_id, message }
}

pub open spec fn tool_use_summary_decoded(x: ToolUseSummaryEvent, j: Json) -> bool {
    &&& opt_text(x.created_at) == str_at(j, "created_at"@)
    &&& opt_text(x.uuid) == str_at(j, "uuid"@)
    &&& opt_text(x.session_id) == str_at(j, "session_id"@)
    &&& opt_text(x.summary) == str_at(j, "summary"@)
    &&& opt_texts(x.preceding_tool_use_ids) == str_list_at(j, "preceding_tool_use_ids"@)
}

pub open spec fn tool_progress_decoded(x: ToolProgressEvent, j: Json) -> bool {
    &&& opt_text(x.created_at) == str_at(j, "created_at"@)
    &&& opt_text(x.uuid) == str_at(j, "uuid"@)
    &&& opt_text(x.session_id) == str_at(j, "session_id"@)
    &&& opt_text(x.tool_name) == str_at(j, "tool_name"@)
    &&& opt_text(x.tool_use_id) == str_at(j, "tool_use_id"@)
    &&& opt_text(x.parent_tool_use_id) == str_at(j, "parent_tool_use_id"@)
    &&& x.elapsed_time_seconds == u64_at(j, "elapsed_time_seconds"@)
}

pub open spec fn result_decoded(x: ResultEvent, j: Json) -> bool {
    &&& opt_text(x.created_at) == str_at(j, "created_at"@)
    &&& x.duration_ms == u64_at(j, "duration_ms"@)
    &&& x.duration_api_ms == u64_at(j, "duration_api_ms"@)
    &&& opt_texts(x.errors) == str_list_at(j, "errors"@)
}

pub open spec fn control_response_decoded(x: ControlResponseEvent, j: Json) -> bool {
    &&& opt_text(x.created_at) == str_at(j, "created_at"@)
    &&& match present(j, "response"@) {
        Some(v) => x.response matches Some(d) && opt_text(d.subtype) == str_at(v, "subtype"@),
        None => x.response is None,
    }
}

fn decode_control_response(j: Json) -> (r: ControlResponseEvent)
    ensures
        control_response_decoded(r, j),
{
    let created_at = get_str(&j, "created_at");
    let response = match take_present(j, "response") {
        Some(v) => Some(ControlResponseData { subtype: get_str(&v, "subtype") }),
        None => None,
    };
    ControlResponseEvent { created_at, response }
}

pub open spec fn env_data_decoded(d: EnvManagerLogData, v: Json) -> bool {
    &&& opt_text(d.category) == str_at(v, "category"@)
    &&& opt_text(d.content) == str_at(v, "content"@)
    &&& opt_text(d.level) == str_at(v, "level"@)
    &&& opt_text(d.timestamp) == str_at(v, "timestamp"@)
    &&& d.extra == present(v, "extra"@)
}

pub open spec fn env_manager_log_decoded(x: EnvManagerLogEvent, j: Json) -> bool {
    &&& opt_text(x.created_at) == str_at(j, "created_at"@)
    &&& opt_text(x.uuid) == str_at(j, "uuid"@)
    &&& match present(j, "data"@) {
        Some(v) => x.data matches Some(d) && env_data_decoded(d, v),
        None => x.data is None,
    }
}

fn decode_env_data(v: Json) -> (r: EnvManagerLogData)
    ensures
        env_data_decoded(r, v),
{
    let category = get_str(&v, "category");
    let content = get_str(&v, "content");
    let level = get_str(&v, "level");
    let timestamp = get_str(&v, "timestamp");
    EnvManagerLogData { category, content, level, timestamp, extra: take_present(v, "extra") }
}

fn decode_env_manager_log(j: Json) -> (r: EnvManagerLogEvent)
    ensures
        env_manager_log_decoded(r, j),
{
    let created_at = get_str(&j, "created_at");
    let uuid = get_str(&j, "uuid");
    let data = match take_present(j, "data") {
        Some(v) => Some(decode_env_data(v)),
        None => None,
    };
    EnvManagerLogEvent { created_at, uuid, data }
}

/// `e` is the event that the record `j` decodes to: its variant is chosen by
/// the `type` member, and its fields are the members of `j`.
pub open spec fn event_decoded(e: SessionEvent, j: Json) -> bool {
    &&& tag_of(e) == decoded_tag(str_at(j, "type"@))
    &&& match e {
        SessionEvent::System(x) => system_decoded(x, j),
        SessionEvent::User(x) => user_decoded(x, j),
        SessionEvent::Assistant(x) => assistant_decoded(x, j),
        SessionEvent::ToolUseSummary(x) => tool_use_summary_decoded(x, j),
        SessionEvent::ToolProgress(x) => tool_progress_decoded(x, j),
        SessionEvent::Result(x) => result_decoded(x, j),
        SessionEvent::ControlResponse(x) => control_response_decoded(x, j),
        SessionEvent::EnvManagerLog(x) => env_manager_log_decoded(x, j),
        SessionEvent::Unknown => true,
    }
}

/// Decodes one event record. This never fails: a record whose `type` is
/// missing or unrecognised decodes to `Unknown`.
pub fn decode_event(j: Json) -> (r: SessionEvent)
    ensures
        event_decoded(r, j),
{
    proof {
        reveal_strlit("system");
        reveal_strlit("user");
        reveal_strlit("assistant");
        reveal_strlit("tool_use_summary");
        reveal_strlit("tool_progress");
        reveal_strlit("result");
        reveal_strlit("control_response");
        reveal_strlit("env_manager_log");
        reveal_strlit("unknown");
    }
    let tag = match get_str(&j, "type") {
        Some(t) => t,
        None => {
            return SessionEvent::Unknown;
        },
    };
    let t = tag.as_str();
    if str_eq(t, "system") {
        SessionEvent::System(decode_system(j))
    } else if str_eq(t, "user") {
        SessionEvent::User(decode_user(j))
    } else if str_eq(t, "assistant") {
        SessionEvent::Assistant(decode_assistant(j))
    } else if str_eq(t, "tool_use_summary") {
        let created_at = get_str(&j, "created_at");
        let uuid = get_str(&j, "uuid");
        let session_id = get_str(&j, "session_id");
        let summary = get_str(&j, "summary");
        let preceding_tool_use_ids = get_str_list(&j, "preceding_tool_use_ids");
        SessionEvent::ToolUseSummary(
            ToolUseSummaryEvent { created_at, uuid, session_id, summary, preceding_tool_use_ids },
        )
    } else if str_eq(t, "tool_progress") {
        SessionEvent::ToolProgress(
            ToolProgressEvent {
                created_at: get_str(&j, "created_at"),
                uuid: get_str(&j, "uuid"),
                session_id: get_str(&j, "session_id"),
                tool_name: get_str(&j, "tool_name"),
                tool_use_id: get_str(&j, "tool_use_id"),
                parent_tool_use_id: get_str(&j, "parent_tool_use_id"),
                elapsed_time_seconds: get_u64(&j, "elapsed_time_seconds"),
            },
        )
    } else if str_eq(t, "result") {
        SessionEvent::Result(
            ResultEvent {
                created_at: get_str(&j, "created_at"),
                duration_ms: get_u64(&j, "duration_ms"),
                duration_api_ms: get_u64(&j, "duration_api_ms"),
                errors: get_str_list(&j, "errors"),
            },
        )
    } else if str_eq(t, "control_response") {
        SessionEvent::ControlResponse(decode_control_response(j))
    } else if str_eq(t, "env_manager_log") {
        SessionEvent::EnvManagerLog(decode_env_manager_log(j))
    } else {
        SessionEvent::Unknown
    }
}

} // verus!
