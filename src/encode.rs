//! Encoding of events back into JSON records: a record that decoding turns
//! back into the same event.

use vstd::prelude::*;
use crate::json::{
    Json, str_at, opt_text, member_from, all_strings, string_texts, texts,
    member_or_null,
};
use crate::events::{
    SessionEvent, ContentBlock, UserContent, UserMessage, AssistantMessage, SystemEvent, UserEvent,
    AssistantEvent, ToolUseSummaryEvent, ToolProgressEvent, ResultEvent, ControlResponseEvent,
    EnvManagerLogEvent, tag_of, created_at_of, is_conversation_event, is_known_tag,
};
use crate::decode::{
    event_decoded, block_decoded, user_message_decoded, assistant_message_decoded,
    system_decoded, user_decoded, assistant_decoded, tool_use_summary_decoded,
    tool_progress_decoded, result_decoded, control_response_decoded, env_manager_log_decoded,
    array_items,
};

verus! {

/// The member names used here, told apart by their length and first letters.
proof fn lemma_key_shapes()
    ensures
        "type"@.len() == 4 && "type"@[0] == 't' && "type"@[1] == 'y',
        "created_at"@.len() == 10 && "created_at"@[0] == 'c',
        "uuid"@.len() == 4 && "uuid"@[0] == 'u',
        "subtype"@.len() == 7 && "subtype"@[0] == 's',
        "session_id"@.len() == 10 && "session_id"@[0] == 's',
        "model"@.len() == 5 && "model"@[0] == 'm',
        "cwd"@.len() == 3 && "cwd"@[0] == 'c',
        "claude_code_version"@.len() == 19,
        "tools"@.len() == 5 && "tools"@[0] == 't',
        "agents"@.len() == 6 && "agents"@[0] == 'a',
        "skills"@.len() == 6 && "skills"@[0] == 's',
        "slash_commands"@.len() == 14 && "slash_commands"@[0] == 's',
        "mcp_servers"@.len() == 11 && "mcp_servers"@[0] == 'm',
        "permissionMode"@.len() == 14 && "permissionMode"@[0] == 'p',
        "fast_mode_state"@.len() == 15 && "fast_mode_state"@[0] == 'f',
        "output_style"@.len() == 12 && "output_style"@[0] == 'o',
        "message"@.len() == 7 && "message"@[0] == 'm',
        "parent_tool_use_id"@.len() == 18,
        "isReplay"@.len() == 8 && "isReplay"@[0] == 'i',
        "role"@.len() == 4 && "role"@[0] == 'r',
        "content"@.len() == 7 && "content"@[0] == 'c',
        "thinking"@.len() == 8 && "thinking"@[0] == 't',
        "signature"@.len() == 9 && "signature"@[0] == 's',
        "text"@.len() == 4 && "text"@[0] == 't' && "text"@[1] == 'e',
        "id"@.len() == 2 && "id"@[0] == 'i',
        "name"@.len() == 4 && "name"@[0] == 'n',
        "input"@.len() == 5 && "input"@[0] == 'i',
        "tool_use_id"@.len() == 11 && "tool_use_id"@[0] == 't',
        "is_error"@.len() == 8 && "is_error"@[0] == 'i',
        "summary"@.len() == 7 && "summary"@[0] == 's',
        "preceding_tool_use_ids"@.len() == 22,
        "tool_name"@.len() == 9 && "tool_name"@[0] == 't',
        "elapsed_time_seconds"@.len() == 20,
        "duration_ms"@.len() == 11 && "duration_ms"@[0] == 'd',
        "duration_api_ms"@.len() == 15 && "duration_api_ms"@[0] == 'd',
        "errors"@.len() == 6 && "errors"@[0] == 'e',
        "response"@.len() == 8 && "response"@[0] == 'r',
        "data"@.len() == 4 && "data"@[0] == 'd',
        "category"@.len() == 8 && "category"@[0] == 'c',
        "level"@.len() == 5 && "level"@[0] == 'l',
        "timestamp"@.len() == 9 && "timestamp"@[0] == 't',
        "extra"@.len() == 5 && "extra"@[0] == 'e',
{
    reveal_strlit("type");
    reveal_strlit("created_at");
    reveal_strlit("uuid");
    reveal_strlit("subtype");
    reveal_strlit("session_id");
    reveal_strlit("model");
    reveal_strlit("cwd");
    reveal_strlit("claude_code_version");
    reveal_strlit("tools");
    reveal_strlit("agents");
    reveal_strlit("skills");
    reveal_strlit("slash_commands");
    reveal_strlit("mcp_servers");
    reveal_strlit("permissionMode");
    reveal_strlit("fast_mode_state");
    reveal_strlit("output_style");
    reveal_strlit("message");
    reveal_strlit("parent_tool_use_id");
    reveal_strlit("isReplay");
    reveal_strlit("role");
    reveal_strlit("content");
    reveal_strlit("thinking");
    reveal_strlit("signature");
    reveal_strlit("text");
    reveal_strlit("id");
    reveal_strlit("name");
    reveal_strlit("input");
    reveal_strlit("tool_use_id");
    reveal_strlit("is_error");
    reveal_strlit("summary");
    reveal_strlit("preceding_tool_use_ids");
    reveal_strlit("tool_name");
    reveal_strlit("elapsed_time_seconds");
    reveal_strlit("duration_ms");
    reveal_strlit("duration_api_ms");
    reveal_strlit("errors");
    reveal_strlit("response");
    reveal_strlit("data");
    reveal_strlit("category");
    reveal_strlit("level");
    reveal_strlit("timestamp");
    reveal_strlit("extra");
}

fn key(k: &str) -> (r: String)
    ensures
        r@ == k@,
{
    String::from_str(k)
}

fn opt_str_json(v: Option<String>) -> (r: Json)
    ensures
        match v {
            Some(s) => r == Json::Str(s),
            None => r is Null,
        },
{
    match v {
        Some(s) => Json::Str(s),
        None => Json::Null,
    }
}

fn opt_u64_json(v: Option<u64>) -> (r: Json)
    ensures
        match v {
            Some(n) => r == Json::UInt(n),
            None => r is Null,
        },
{
    match v {
        Some(n) => Json::UInt(n),
        None => Json::Null,
    }
}

fn opt_bool_json(v: Option<bool>) -> (r: Json)
    ensures
        match v {
            Some(b) => r == Json::Bool(b),
            None => r is Null,
        },
{
    match v {
        Some(b) => Json::Bool(b),
        None => Json::Null,
    }
}

fn opt_json(v: Option<Json>) -> (r: Json)
    ensures
        match v {
            Some(j) => r == j,
            None => r is Null,
        },
{
    match v {
        Some(j) => j,
        None => Json::Null,
    }
}

fn opt_list_json(v: Option<Vec<String>>) -> (r: Json)
    ensures
        match v {
            Some(items) => r matches Json::Array(a) && all_strings(a@) && string_texts(a@) == texts(
                items@,
            ),
            None => r is Null,
        },
{
    match v {
        Some(items) => {
            let ghost orig = items@;
            let mut rest = items;
            let mut out: Vec<Json> = Vec::new();
            while rest.len() > 0
                invariant
                    out@.len() + rest@.len() == orig.len(),
                    rest@ == orig.subrange(out@.len() as int, orig.len() as int),
                    all_strings(out@),
                    string_texts(out@) == texts(orig.subrange(0, out@.len() as int)),
                decreases rest@.len(),
            {
                let ghost before = out@;
                let s = rest.remove(0);
                let ghost sv = s@;
                out.push(Json::Str(s));
                assert(orig[before.len() as int]@ == sv);
                assert(orig.subrange(0, out@.len() as int) =~= orig.subrange(0, before.len() as int).push(
                    orig[before.len() as int],
                ));
                assert(string_texts(out@) =~= string_texts(before).push(sv));
                assert(texts(orig.subrange(0, out@.len() as int)) =~= texts(
                    orig.subrange(0, before.len() as int),
                ).push(sv));
                assert(string_texts(out@) =~= texts(orig.subrange(0, out@.len() as int)));
                assert(rest@ =~= orig.subrange(out@.len() as int, orig.len() as int));
            }
            assert(orig.subrange(0, orig.len() as int) =~= orig);
            Json::Array(out)
        },
        None => Json::Null,
    }
}

/// A payload kept as JSON that is not `null`; a `null` payload reads back as absent.
pub open spec fn not_null_payload(v: Option<Json>) -> bool {
    v != Some(Json::Null)
}

/// No payload of the block is a `null` value.
pub open spec fn block_payloads_ok(b: ContentBlock) -> bool {
    match b {
        ContentBlock::ToolUse(t) => not_null_payload(t.input),
        ContentBlock::ToolResult(t) => not_null_payload(t.content),
        _ => true,
    }
}

/// No payload of the event is a `null` value, so encoding loses nothing.
pub open spec fn payloads_ok(e: SessionEvent) -> bool {
    match e {
        SessionEvent::System(x) => not_null_payload(x.mcp_servers),
        SessionEvent::Assistant(x) => forall|k: int|
            0 <= k < x.message.content@.len() ==> block_payloads_ok(#[trigger] x.message.content@[k]),
        SessionEvent::EnvManagerLog(x) => x.data matches Some(d) ==> not_null_payload(d.extra),
        _ => true,
    }
}

/// Encodes one block of an assistant message.
pub fn encode_block(b: ContentBlock) -> (r: Json)
    ensures
        block_payloads_ok(b) ==> block_decoded(b, r),
{
    let ghost b0 = b;
    let mut m: Vec<(String, Json)> = Vec::new();
    match b {
        ContentBlock::Thinking(x) => {
            m.push((key("type"), Json::Str(key("thinking"))));
            m.push((key("thinking"), opt_str_json(x.thinking)));
            m.push((key("signature"), opt_str_json(x.signature)));
        },
        ContentBlock::Text(x) => {
            m.push((key("type"), Json::Str(key("text"))));
            m.push((key("text"), opt_str_json(x.text)));
        },
        ContentBlock::ToolUse(x) => {
            m.push((key("type"), Json::Str(key("tool_use"))));
            m.push((key("id"), opt_str_json(x.id)));
            m.push((key("name"), opt_str_json(x.name)));
            m.push((key("input"), opt_json(x.input)));
        },
        ContentBlock::ToolResult(x) => {
            m.push((key("type"), Json::Str(key("tool_result"))));
            m.push((key("tool_use_id"), opt_str_json(x.tool_use_id)));
            m.push((key("content"), opt_json(x.content)));
            m.push((key("is_error"), opt_bool_json(x.is_error)));
        },
        ContentBlock::Other => {
            m.push((key("type"), Json::Str(key("other"))));
        },
    }
    proof {
        lemma_key_shapes();
        reveal_strlit("thinking");
        reveal_strlit("text");
        reveal_strlit("tool_use");
        reveal_strlit("tool_result");
        reveal_strlit("other");
        assert("thinking"@.len() == 8 && "thinking"@[1] == 'h');
        assert("tool_use"@.len() == 8 && "tool_use"@[1] == 'o');
        assert("text"@.len() == 4);
        assert("tool_result"@.len() == 11);
        assert("other"@.len() == 5);
        reveal_with_fuel(member_from, 5);
    }
    Json::Object(m)
}

fn encode_user_message(msg: UserMessage) -> (r: Json)
    ensures
        user_message_decoded(msg, r),
{
    let mut m: Vec<(String, Json)> = Vec::new();
    m.push((key("role"), opt_str_json(msg.role)));
    let content = match msg.content {
        UserContent::Text(s) => Json::Str(s),
        UserContent::Blocks(items) => Json::Array(items),
    };
    m.push((key("content"), content));
    proof {
        lemma_key_shapes();
        reveal_with_fuel(member_from, 3);
    }
    Json::Object(m)
}

fn encode_assistant_message(msg: AssistantMessage) -> (r: Json)
    ensures
        (forall|k: int|
            0 <= k < msg.content@.len() ==> block_payloads_ok(#[trigger] msg.content@[k]))
            ==> assistant_message_decoded(msg, r),
{
    let ghost orig = msg.content@;
    let mut m: Vec<(String, Json)> = Vec::new();
    m.push((key("role"), opt_str_json(msg.role)));
    let mut blocks = msg.content;
    let mut out: Vec<Json> = Vec::new();
    while blocks.len() > 0
        invariant
            out@.len() + blocks@.len() == orig.len(),
            blocks@ == orig.subrange(out@.len() as int, orig.len() as int),
            forall|k: int|
                0 <= k < out@.len() ==> (block_payloads_ok(orig[k]) ==> block_decoded(
                    orig[k],
                    #[trigger] out@[k],
                )),
        decreases blocks@.len(),
    {
        let b = blocks.remove(0);
        out.push(encode_block(b));
        assert(blocks@ =~= orig.subrange(out@.len() as int, orig.len() as int));
    }
    let ghost items = out@;
    m.push((key("content"), Json::Array(out)));
    proof {
        lemma_key_shapes();
        reveal_with_fuel(member_from, 3);
        assert(array_items(member_or_null(Json::Object(m), "content"@)) == items);
    }
    Json::Object(m)
}

fn encode_system(x: SystemEvent) -> (r: Json)
    ensures
        str_at(r, "type"@) == Some("system"@),
        str_at(r, "created_at"@) == opt_text(x.created_at),
        not_null_payload(x.mcp_servers) ==> system_decoded(x, r),
{
    let mut m: Vec<(String, Json)> = Vec::new();
    m.push((key("type"), Json::Str(key("system"))));
    m.push((key("created_at"), opt_str_json(x.created_at)));
    m.push((key("uuid"), opt_str_json(x.uuid)));
    m.push((key("subtype"), opt_str_json(x.subtype)));
    m.push((key("session_id"), opt_str_json(x.session_id)));
    m.push((key("model"), opt_str_json(x.model)));
    m.push((key("cwd"), opt_str_json(x.cwd)));
    m.push((key("claude_code_version"), opt_str_json(x.claude_code_version)));
    m.push((key("tools"), opt_list_json(x.tools)));
    m.push((key("agents"), opt_list_json(x.agents)));
    m.push((key("skills"), opt_list_json(x.skills)));
    m.push((key("slash_commands"), opt_list_json(x.slash_commands)));
    m.push((key("mcp_servers"), opt_json(x.mcp_servers)));
    m.push((key("permissionMode"), opt_str_json(x.permission_mode)));
    m.push((key("fast_mode_state"), opt_str_json(x.fast_mode_state)));
    m.push((key("output_style"), opt_str_json(x.output_style)));
    proof {
        lemma_key_shapes();
        reveal_with_fuel(member_from, 17);
    }
    Json::Object(m)
}

fn encode_user(x: UserEvent) -> (r: Json)
    ensures
        str_at(r, "type"@) == Some("user"@),
        str_at(r, "created_at"@) == opt_text(x.created_at),
        user_decoded(x, r),
{
    let mut m: Vec<(String, Json)> = Vec::new();
    m.push((key("type"), Json::Str(key("user"))));
    m.push((key("created_at"), opt_str_json(x.created_at)));
    m.push((key("uuid"), opt_str_json(x.uuid)));
    m.push((key("session_id"), opt_str_json(x.session_id)));
    m.push((key("message"), encode_user_message(x.message)));
    m.push((key("parent_tool_use_id"), opt_str_json(x.parent_tool_use_id)));
    m.push((key("isReplay"), opt_bool_json(x.is_replay)));
    proof {
        lemma_key_shapes();
        reveal_with_fuel(member_from, 8);
    }
    Json::Object(m)
}

fn encode_assistant(x: AssistantEvent) -> (r: Json)
    ensures
        str_at(r, "type"@) == Some("assistant"@),
        str_at(r, "created_at"@) == opt_text(x.created_at),
        (forall|k: int|
            0 <= k < x.message.content@.len() ==> block_payloads_ok(#[trigger] x.message.content@[k]))
            ==> assistant_decoded(x, r),
{
    let mut m: Vec<(String, Json)> = Vec::new();
    m.push((key("type"), Json::Str(key("assistant"))));
    m.push((key("created_at"), opt_str_json(x.created_at)));
    m.push((key("uuid"), opt_str_json(x.uuid)));
    m.push((key("session_id"), opt_str_json(x.session_id)));
    m.push((key("message"), encode_assistant_message(x.message)));
    proof {
        lemma_key_shapes();
        reveal_with_fuel(member_from, 6);
    }
    Json::Object(m)
}

fn encode_tool_use_summary(x: ToolUseSummaryEvent) -> (r: Json)
    ensures
        str_at(r, "type"@) == Some("tool_use_summary"@),
        str_at(r, "created_at"@) == opt_text(x.created_at),
        tool_use_summary_decoded(x, r),
{
    let mut m: Vec<(String, Json)> = Vec::new();
    m.push((key("type"), Json::Str(key("tool_use_summary"))));
    m.push((key("created_at"), opt_str_json(x.created_at)));
    m.push((key("uuid"), opt_str_json(x.uuid)));
    m.push((key("session_id"), opt_str_json(x.session_id)));
    m.push((key("summary"), opt_str_json(x.summary)));
    m.push((key("preceding_tool_use_ids"), opt_list_json(x.preceding_tool_use_ids)));
    proof {
        lemma_key_shapes();
        reveal_with_fuel(member_from, 7);
    }
    Json::Object(m)
}

fn encode_tool_progress(x: ToolProgressEvent) -> (r: Json)
    ensures
        str_at(r, "type"@) == Some("tool_progress"@),
        str_at(r, "created_at"@) == opt_text(x.created_at),
        tool_progress_decoded(x, r),
{
    let mut m: Vec<(String, Json)> = Vec::new();
    m.push((key("type"), Json::Str(key("tool_progress"))));
    m.push((key("created_at"), opt_str_json(x.created_at)));
    m.push((key("uuid"), opt_str_json(x.uuid)));
    m.push((key("session_id"), opt_str_json(x.session_id)));
    m.push((key("tool_name"), opt_str_json(x.tool_name)));
    m.push((key("tool_use_id"), opt_str_json(x.tool_use_id)));
    m.push((key("parent_tool_use_id"), opt_str_json(x.parent_tool_use_id)));
    m.push((key("elapsed_time_seconds"), opt_u64_json(x.elapsed_time_seconds)));
    proof {
        lemma_key_shapes();
        reveal_with_fuel(member_from, 9);
    }
    Json::Object(m)
}

fn encode_result(x: ResultEvent) -> (r: Json)
    ensures
        str_at(r, "type"@) == Some("result"@),
        str_at(r, "created_at"@) == opt_text(x.created_at),
        result_decoded(x, r),
{
    let mut m: Vec<(String, Json)> = Vec::new();
    m.push((key("type"), Json::Str(key("result"))));
    m.push((key("created_at"), opt_str_json(x.created_at)));
    m.push((key("duration_ms"), opt_u64_json(x.duration_ms)));
    m.push((key("duration_api_ms"), opt_u64_json(x.duration_api_ms)));
    m.push((key("errors"), opt_list_json(x.errors)));
    proof {
        lemma_key_shapes();
        reveal_with_fuel(member_from, 6);
    }
    Json::Object(m)
}

fn encode_control_response(x: ControlResponseEvent) -> (r: Json)
    ensures
        str_at(r, "type"@) == Some("control_response"@),
        str_at(r, "created_at"@) == opt_text(x.created_at),
        control_response_decoded(x, r),
{
    let ghost x0 = x;
    let response = match x.response {
        Some(d) => {
            let mut o: Vec<(String, Json)> = Vec::new();
            o.push((key("subtype"), opt_str_json(d.subtype)));
            proof {
                lemma_key_shapes();
                reveal_with_fuel(member_from, 2);
            }
            Json::Object(o)
        },
        None => Json::Null,
    };
    let mut m: Vec<(String, Json)> = Vec::new();
    m.push((key("type"), Json::Str(key("control_response"))));
    m.push((key("created_at"), opt_str_json(x.created_at)));
    m.push((key("response"), response));
    proof {
        lemma_key_shapes();
        reveal_with_fuel(member_from, 4);
    }
    Json::Object(m)
}

fn encode_env_manager_log(x: EnvManagerLogEvent) -> (r: Json)
    ensures
        str_at(r, "type"@) == Some("env_manager_log"@),
        str_at(r, "created_at"@) == opt_text(x.created_at),
        (x.data matches Some(d) ==> not_null_payload(d.extra)) ==> env_manager_log_decoded(x, r),
{
    let data = match x.data {
        Some(d) => {
            let mut o: Vec<(String, Json)> = Vec::new();
            o.push((key("category"), opt_str_json(d.category)));
            o.push((key("content"), opt_str_json(d.content)));
            o.push((key("level"), opt_str_json(d.level)));
            o.push((key("timestamp"), opt_str_json(d.timestamp)));
            o.push((key("extra"), opt_json(d.extra)));
            proof {
                lemma_key_shapes();
                reveal_with_fuel(member_from, 6);
            }
            Json::Object(o)
        },
        None => Json::Null,
    };
    let mut m: Vec<(String, Json)> = Vec::new();
    m.push((key("type"), Json::Str(key("env_manager_log"))));
    m.push((key("created_at"), opt_str_json(x.created_at)));
    m.push((key("uuid"), opt_str_json(x.uuid)));
    m.push((key("data"), data));
    proof {
        lemma_key_shapes();
        reveal_with_fuel(member_from, 5);
    }
    Json::Object(m)
}

/// Encodes an event as a JSON record with all its fields, absent ones as
/// `null`. Decoding the record gives back the same event, unless a JSON
/// payload of it is itself `null` (which reads back as absent).
pub fn encode_event(e: SessionEvent) -> (r: Json)
    ensures
        str_at(r, "type"@) == Some(tag_of(e)),
        str_at(r, "created_at"@) == created_at_of(e),
        payloads_ok(e) ==> event_decoded(e, r),
{
    proof {
        lemma_tag_shapes();
    }
    match e {
        SessionEvent::System(x) => encode_system(x),
        SessionEvent::User(x) => encode_user(x),
        SessionEvent::Assistant(x) => encode_assistant(x),
        SessionEvent::ToolUseSummary(x) => encode_tool_use_summary(x),
        SessionEvent::ToolProgress(x) => encode_tool_progress(x),
        SessionEvent::Result(x) => encode_result(x),
        SessionEvent::ControlResponse(x) => encode_control_response(x),
        SessionEvent::EnvManagerLog(x) => encode_env_manager_log(x),
        SessionEvent::Unknown => {
            let mut m: Vec<(String, Json)> = Vec::new();
            m.push((key("type"), Json::Str(key("unknown"))));
            proof {
                lemma_key_shapes();
                reveal_with_fuel(member_from, 2);
            }
            Json::Object(m)
        },
    }
}

proof fn lemma_tag_shapes()
    ensures
        "system"@.len() == 6 && "system"@[0] == 's',
        "user"@.len() == 4,
        "assistant"@.len() == 9,
        "tool_use_summary"@.len() == 16 && "tool_use_summary"@[0] == 't',
        "tool_progress"@.len() == 13,
        "result"@.len() == 6 && "result"@[0] == 'r',
        "control_response"@.len() == 16 && "control_response"@[0] == 'c',
        "env_manager_log"@.len() == 15,
        "unknown"@.len() == 7,
{
    reveal_strlit("system");
    reveal_strlit("user");
    reveal_strlit("assistant");
    reveal_strlit("tool_use_summary");
    reveal_strlit("tool_progress");
    reveal_strlit("result");
    reveal_strlit("control_response");
    reveal_strlit("env_manager_log");
    reveal_strlit("unknown");
}

/// Distinct variants carry distinct tags.
proof fn lemma_tags_distinct(a: SessionEvent, b: SessionEvent)
    requires
        tag_of(a) == tag_of(b),
    ensures
        a is System <==> b is System,
        a is User <==> b is User,
        a is Assistant <==> b is Assistant,
        a is ToolUseSummary <==> b is ToolUseSummary,
        a is ToolProgress <==> b is ToolProgress,
        a is Result <==> b is Result,
        a is ControlResponse <==> b is ControlResponse,
        a is EnvManagerLog <==> b is EnvManagerLog,
        a is Unknown <==> b is Unknown,
{
    lemma_tag_shapes();
    assert(tag_of(a).len() == tag_of(b).len());
    assert(tag_of(a)[0] == tag_of(b)[0]);
}

/// A record whose `type` member is missing or is not the tag of a fixed
/// variant decodes to `Unknown`: its tag is `"unknown"`, it has no creation
/// timestamp, and it is not a conversation event.
pub proof fn lemma_unrecognised_tag_is_unknown(j: Json, e: SessionEvent)
    requires
        event_decoded(e, j),
        !(str_at(j, "type"@) matches Some(t) && is_known_tag(t)),
    ensures
        e is Unknown,
        tag_of(e) == "unknown"@,
        created_at_of(e) is None,
        !is_conversation_event(e),
{
    lemma_tag_shapes();
}

/// Decoding an encoded event of a fixed variant gives back an event with the
/// same tag and the same creation timestamp.
pub proof fn lemma_round_trip(e: SessionEvent, j: Json, d: SessionEvent)
    requires
        !(e is Unknown),
        str_at(j, "type"@) == Some(tag_of(e)),
        str_at(j, "created_at"@) == created_at_of(e),
        event_decoded(d, j),
    ensures
        tag_of(d) == tag_of(e),
        created_at_of(d) == created_at_of(e),
{
    lemma_tag_shapes();
    assert(is_known_tag(tag_of(e)));
    lemma_tags_distinct(d, e);
}

} // verus!
