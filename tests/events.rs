use teleport_reader::decode::decode_event;
use teleport_reader::encode::encode_event;
use teleport_reader::events::{
    AssistantEvent, AssistantMessage, ContentBlock, EnvManagerLogData, EnvManagerLogEvent,
    SessionEvent, TextBlock, ToolUseBlock, ToolUseSummaryEvent, UserContent, UserEvent,
    UserMessage,
};
use teleport_reader::json::Json;
use teleport_reader::json_text::to_json_string;
use teleport_reader::paginate::decode_events_page;
use teleport_reader::search::{event_contains_text, filter_events, in_time_range, EventFilter};
use teleport_reader::search::is_within;
use teleport_reader::timefmt::{parse_timestamp, Instant};

fn conv(v: serde_json::Value) -> Json {
    match v {
        serde_json::Value::Null => Json::Null,
        serde_json::Value::Bool(b) => Json::Bool(b),
        serde_json::Value::Number(n) => {
            if let Some(u) = n.as_u64() {
                Json::UInt(u)
            } else if let Some(i) = n.as_i64() {
                Json::Int(i)
            } else {
                Json::Decimal(n.to_string())
            }
        }
        serde_json::Value::String(s) => Json::Str(s),
        serde_json::Value::Array(a) => Json::Array(a.into_iter().map(conv).collect()),
        serde_json::Value::Object(m) => Json::Object(m.into_iter().map(|(k, v)| (k, conv(v))).collect()),
    }
}

fn j(text: &str) -> Json {
    conv(serde_json::from_str(text).unwrap())
}

fn make_user_event(text: &str) -> SessionEvent {
    SessionEvent::User(UserEvent {
        created_at: None,
        uuid: None,
        session_id: None,
        message: UserMessage { role: None, content: UserContent::Text(text.to_string()) },
        parent_tool_use_id: None,
        is_replay: None,
    })
}

fn make_assistant_event(text: &str) -> SessionEvent {
    SessionEvent::Assistant(AssistantEvent {
        created_at: None,
        uuid: None,
        session_id: None,
        message: AssistantMessage {
            role: None,
            content: vec![ContentBlock::Text(TextBlock { text: Some(text.to_string()) })],
        },
    })
}

fn make_summary_event(summary: &str) -> SessionEvent {
    SessionEvent::ToolUseSummary(ToolUseSummaryEvent {
        created_at: None,
        uuid: None,
        session_id: None,
        summary: Some(summary.to_string()),
        preceding_tool_use_ids: None,
    })
}

#[test]
fn search_user_event_matches() {
    let event = make_user_event("Hello World");
    assert!(event_contains_text(&event, "hello"));
    assert!(event_contains_text(&event, "WORLD"));
    assert!(!event_contains_text(&event, "missing"));
}

#[test]
fn search_assistant_event_matches() {
    let event = make_assistant_event("Here is the answer");
    assert!(event_contains_text(&event, "answer"));
    assert!(!event_contains_text(&event, "question"));
}

#[test]
fn search_tool_summary_matches() {
    let event = make_summary_event("Read 3 files and edited main.rs");
    assert!(event_contains_text(&event, "main.rs"));
    assert!(!event_contains_text(&event, "cargo.toml"));
}

#[test]
fn search_case_insensitive() {
    let event = make_user_event("CamelCase mixed TEXT");
    assert!(event_contains_text(&event, "camelcase"));
    assert!(event_contains_text(&event, "MIXED"));
    assert!(event_contains_text(&event, "text"));
}

#[test]
fn search_upper_case_needle_finds_lower_case_text() {
    let event = make_user_event("hello world");
    assert!(event_contains_text(&event, "HELLO"));
}

#[test]
fn search_unknown_event_returns_false() {
    assert!(!event_contains_text(&SessionEvent::Unknown, "anything"));
}

#[test]
fn search_tool_use_by_name() {
    let event = SessionEvent::Assistant(AssistantEvent {
        created_at: None,
        uuid: None,
        session_id: None,
        message: AssistantMessage {
            role: None,
            content: vec![ContentBlock::ToolUse(ToolUseBlock {
                id: None,
                name: Some("Bash".to_string()),
                input: Some(j(r#"{"command": "cargo test"}"#)),
            })],
        },
    });
    assert!(event_contains_text(&event, "Bash"));
    assert!(event_contains_text(&event, "cargo test"));
    assert!(!event_contains_text(&event, "npm"));
}

#[test]
fn search_env_manager_log() {
    let event = SessionEvent::EnvManagerLog(EnvManagerLogEvent {
        created_at: None,
        uuid: None,
        data: Some(EnvManagerLogData {
            category: None,
            content: Some("Installing dependencies...".to_string()),
            level: None,
            timestamp: None,
            extra: None,
        }),
    });
    assert!(event_contains_text(&event, "dependencies"));
    assert!(!event_contains_text(&event, "compiling"));
}

#[test]
fn search_skips_block_content_of_user_messages() {
    let e = decode_event(j(r#"{"type":"user","message":{"content":[{"type":"text","text":"hidden"}]}}"#));
    assert!(!event_contains_text(&e, "hidden"));
}

#[test]
fn search_tool_result_content_as_json_text() {
    let e = decode_event(j(
        r#"{"type":"assistant","message":{"content":[{"type":"tool_result","content":"line \"quoted\""}]}}"#,
    ));
    assert!(event_contains_text(&e, r#"\"quoted\""#));
    assert!(event_contains_text(&e, "LINE"));
}

#[test]
fn search_system_subtype() {
    let e = decode_event(j(r#"{"type":"system","subtype":"init"}"#));
    assert!(event_contains_text(&e, "INIT"));
    assert!(!event_contains_text(&e, "model"));
}

#[test]
fn deserialize_system_event() {
    let e = decode_event(j(
        r#"{"type":"system","created_at":"2025-01-01T00:00:00Z","subtype":"init","model":"sonnet-model","cwd":"/tmp"}"#,
    ));
    assert_eq!(e.event_type(), "system");
    assert_eq!(e.created_at(), Some("2025-01-01T00:00:00Z"));
    match e {
        SessionEvent::System(s) => {
            assert_eq!(s.subtype.as_deref(), Some("init"));
            assert_eq!(s.model.as_deref(), Some("sonnet-model"));
            assert_eq!(s.cwd.as_deref(), Some("/tmp"));
        }
        _ => panic!("Expected System variant"),
    }
}

#[test]
fn deserialize_user_event_text_content() {
    let e = decode_event(j(
        r#"{"type":"user","created_at":"2025-01-01T00:00:00Z","message":{"role":"user","content":"Hello, world!"}}"#,
    ));
    assert_eq!(e.event_type(), "user");
    match e {
        SessionEvent::User(u) => {
            assert_eq!(u.message.role.as_deref(), Some("user"));
            assert_eq!(u.message.content.as_text(), Some("Hello, world!"));
        }
        _ => panic!("Expected User variant"),
    }
}

#[test]
fn deserialize_user_event_blocks_content() {
    let e = decode_event(j(
        r#"{"type":"user","message":{"role":"user","content":[{"type":"text","text":"block content"}]}}"#,
    ));
    match e {
        SessionEvent::User(u) => match u.message.content {
            UserContent::Blocks(b) => {
                assert_eq!(b.len(), 1);
                assert_eq!(to_json_string(&b[0]), r#"{"text":"block content","type":"text"}"#);
            }
            _ => panic!("Expected Blocks variant"),
        },
        _ => panic!("Expected User variant"),
    }
}

#[test]
fn deserialize_assistant_event_with_content_blocks() {
    let e = decode_event(j(r#"{
        "type":"assistant","created_at":"2025-01-01T00:00:00Z",
        "message":{"role":"assistant","content":[
            {"type":"thinking","thinking":"Let me think..."},
            {"type":"text","text":"Here is my answer."},
            {"type":"tool_use","id":"tu_1","name":"Bash","input":{"command":"ls"}},
            {"type":"tool_result","tool_use_id":"tu_1","content":"file.txt","is_error":false},
            {"type":"redacted_thinking","data":"xyz"}
        ]}}"#));
    assert!(e.is_conversation());
    match e {
        SessionEvent::Assistant(a) => {
            assert_eq!(a.message.content.len(), 5);
            assert!(matches!(&a.message.content[0], ContentBlock::Thinking(t) if t.thinking.as_deref() == Some("Let me think...")));
            assert!(matches!(&a.message.content[1], ContentBlock::Text(t) if t.text.as_deref() == Some("Here is my answer.")));
            match &a.message.content[2] {
                ContentBlock::ToolUse(t) => {
                    assert_eq!(t.name.as_deref(), Some("Bash"));
                    assert_eq!(to_json_string(t.input.as_ref().unwrap()), r#"{"command":"ls"}"#);
                }
                _ => panic!("Expected ToolUse"),
            }
            assert!(matches!(&a.message.content[3], ContentBlock::ToolResult(t) if t.is_error == Some(false)));
            assert!(matches!(&a.message.content[4], ContentBlock::Other));
        }
        _ => panic!("Expected Assistant variant"),
    }
}

#[test]
fn deserialize_tool_progress_event() {
    let e = decode_event(j(r#"{"type":"tool_progress","tool_name":"Bash","elapsed_time_seconds":5}"#));
    assert_eq!(e.event_type(), "tool_progress");
    assert!(!e.is_conversation());
    match e {
        SessionEvent::ToolProgress(p) => {
            assert_eq!(p.tool_name.as_deref(), Some("Bash"));
            assert_eq!(p.elapsed_time_seconds, Some(5));
        }
        _ => panic!("Expected ToolProgress variant"),
    }
}

#[test]
fn deserialize_result_event() {
    let e = decode_event(j(
        r#"{"type":"result","created_at":"2025-01-01T00:00:00Z","duration_ms":15000,"duration_api_ms":12000}"#,
    ));
    assert!(e.is_conversation());
    match e {
        SessionEvent::Result(r) => {
            assert_eq!(r.duration_ms, Some(15000));
            assert_eq!(r.duration_api_ms, Some(12000));
        }
        _ => panic!("Expected Result variant"),
    }
}

#[test]
fn deserialize_control_response_event() {
    let e = decode_event(j(
        r#"{"type":"control_response","created_at":"2025-01-01T00:00:00Z","response":{"subtype":"resume"}}"#,
    ));
    match e {
        SessionEvent::ControlResponse(c) => {
            assert_eq!(c.response.unwrap().subtype.as_deref(), Some("resume"));
        }
        _ => panic!("Expected ControlResponse variant"),
    }
}

#[test]
fn deserialize_env_manager_log_event() {
    let e = decode_event(j(
        r#"{"type":"env_manager_log","created_at":"2025-01-01T00:00:00Z","data":{"category":"setup","content":"Installing deps...","level":"info"}}"#,
    ));
    match e {
        SessionEvent::EnvManagerLog(l) => {
            let d = l.data.unwrap();
            assert_eq!(d.category.as_deref(), Some("setup"));
            assert_eq!(d.content.as_deref(), Some("Installing deps..."));
            assert_eq!(d.level.as_deref(), Some("info"));
        }
        _ => panic!("Expected EnvManagerLog variant"),
    }
}

#[test]
fn deserialize_unknown_event_type() {
    let e = decode_event(j(r#"{"type":"future_event_type","some_field":"value"}"#));
    assert!(matches!(e, SessionEvent::Unknown));
    assert_eq!(e.event_type(), "unknown");
    assert_eq!(e.created_at(), None);
    assert!(!e.is_conversation());
}

#[test]
fn event_without_type_is_unknown() {
    let e = decode_event(j(r#"{"created_at":"2025-01-01T00:00:00Z"}"#));
    assert!(matches!(e, SessionEvent::Unknown));
    let e = decode_event(j(r#"[1, 2]"#));
    assert!(matches!(e, SessionEvent::Unknown));
}

#[test]
fn ill_typed_members_become_absent() {
    let e = decode_event(j(r#"{"type":"tool_progress","tool_name":7,"elapsed_time_seconds":"5"}"#));
    match e {
        SessionEvent::ToolProgress(p) => {
            assert_eq!(p.tool_name, None);
            assert_eq!(p.elapsed_time_seconds, None);
        }
        _ => panic!("Expected ToolProgress variant"),
    }
}

#[test]
fn session_event_roundtrip() {
    let e = decode_event(j(
        r#"{"type":"user","created_at":"2025-01-01T00:00:00Z","uuid":"evt_123","message":{"role":"user","content":"test roundtrip"}}"#,
    ));
    let back = decode_event(encode_event(e));
    assert_eq!(back.event_type(), "user");
    assert_eq!(back.created_at(), Some("2025-01-01T00:00:00Z"));
}

#[test]
fn every_fixed_variant_round_trips() {
    for tag in [
        "system",
        "user",
        "assistant",
        "tool_use_summary",
        "tool_progress",
        "result",
        "control_response",
        "env_manager_log",
    ] {
        let text = format!(r#"{{"type":"{tag}","created_at":"2025-03-04T05:06:07Z"}}"#);
        let back = decode_event(encode_event(decode_event(j(&text))));
        assert_eq!(back.event_type(), tag);
        assert_eq!(back.created_at(), Some("2025-03-04T05:06:07Z"));
    }
}

#[test]
fn deserialize_mixed_event_list() {
    let page = decode_events_page(j(r#"{"data":[
        {"type":"system","subtype":"init","model":"opus"},
        {"type":"user","message":{"content":"hi"}},
        {"type":"assistant","message":{"content":[{"type":"text","text":"hello"}]}},
        {"type":"tool_use_summary","summary":"Read file"},
        {"type":"tool_progress","tool_name":"Bash","elapsed_time_seconds":3},
        {"type":"result","duration_ms":5000},
        {"type":"control_response","response":{"subtype":"ack"}},
        {"type":"env_manager_log","data":{"level":"warn","content":"slow"}},
        {"type":"never_seen_before"}
    ],"has_more":false}"#))
    .unwrap();
    assert_eq!(page.data.len(), 9);
    let types: Vec<&str> = page.data.iter().map(|e| e.event_type()).collect();
    assert_eq!(
        types,
        vec![
            "system",
            "user",
            "assistant",
            "tool_use_summary",
            "tool_progress",
            "result",
            "control_response",
            "env_manager_log",
            "unknown"
        ]
    );
    assert_eq!(page.has_more, Some(false));
}

#[test]
fn deserialize_events_response_with_pagination() {
    let page = decode_events_page(j(
        r#"{"data":[{"type":"system","subtype":"init"},{"type":"user","message":{"content":"x"}}],"first_id":"evt_first","last_id":"evt_last","has_more":true}"#,
    ))
    .unwrap();
    assert_eq!(page.data.len(), 2);
    assert_eq!(page.first_id.as_deref(), Some("evt_first"));
    assert_eq!(page.last_id.as_deref(), Some("evt_last"));
    assert_eq!(page.has_more, Some(true));
}

#[test]
fn events_page_without_data_is_refused() {
    assert!(decode_events_page(j(r#"{"has_more":true}"#)).is_err());
    assert!(decode_events_page(j(r#"{"data":{}}"#)).is_err());
}

#[test]
fn json_text_escapes_like_json() {
    let v = j(r#"{"a":"x\ny\"z\\","b":[1,-2,2.5,null,true,false],"c":"\u0001"}"#);
    assert_eq!(to_json_string(&v), r#"{"a":"x\ny\"z\\","b":[1,-2,2.5,null,true,false],"c":"\u0001"}"#);
}

#[test]
fn time_range_keeps_unparseable_and_absent_timestamps() {
    let after = parse_timestamp("2025-01-01T00:00:00Z");
    let before = parse_timestamp("2025-01-02T00:00:00Z");
    assert!(in_time_range(None, after, before));
    assert!(in_time_range(Some("garbage"), after, before));
    assert!(in_time_range(Some("2025-01-01T12:00:00Z"), after, before));
    assert!(!in_time_range(Some("2024-12-31T23:59:59Z"), after, before));
    assert!(!in_time_range(Some("2025-01-02T00:00:01Z"), after, before));
    assert!(in_time_range(Some("2025-01-02T00:00:00Z"), after, before));
}

#[test]
fn filter_combines_predicates_in_order() {
    let events = vec![
        decode_event(j(r#"{"type":"user","created_at":"2025-01-01T10:00:00Z","message":{"content":"Deploy now"}}"#)),
        decode_event(j(r#"{"type":"tool_progress","tool_name":"deploy"}"#)),
        decode_event(j(r#"{"type":"assistant","message":{"content":[{"type":"text","text":"deploying"}]}}"#)),
        decode_event(j(r#"{"type":"user","created_at":"2020-01-01T10:00:00Z","message":{"content":"deploy old"}}"#)),
        decode_event(j(r#"{"type":"user","message":{"content":"unrelated"}}"#)),
    ];
    let f = EventFilter {
        event_type: None,
        conversation_only: true,
        search: Some("DEPLOY".to_string()),
        after: parse_timestamp("2024-01-01T00:00:00Z"),
        before: None,
    };
    assert_eq!(filter_events(&events, &f), vec![0, 2]);
    let g = EventFilter { event_type: Some("user".to_string()), conversation_only: false, search: None, after: None, before: None };
    assert_eq!(filter_events(&events, &g), vec![0, 3, 4]);
    let none = EventFilter { event_type: None, conversation_only: false, search: None, after: None, before: None };
    assert_eq!(filter_events(&events, &none), vec![0, 1, 2, 3, 4]);
}

#[test]
fn deserialize_tool_use_summary_event() {
    let event = decode_event(j(
        r#"{"type":"tool_use_summary","created_at":"2025-01-01T00:00:00Z","summary":"Read 3 files and edited 1","preceding_tool_use_ids":["tu_1","tu_2"]}"#,
    ));
    assert_eq!(event.event_type(), "tool_use_summary");
    assert!(!event.is_conversation());
    if let SessionEvent::ToolUseSummary(e) = &event {
        assert_eq!(e.summary.as_deref(), Some("Read 3 files and edited 1"));
        assert_eq!(e.preceding_tool_use_ids.as_ref().unwrap(), &["tu_1", "tu_2"]);
    } else {
        panic!("Expected ToolUseSummary variant");
    }
}

#[test]
fn deserialize_events_response_no_more() {
    let resp = decode_events_page(j(r#"{"data":[],"has_more":false}"#)).unwrap();
    assert!(resp.data.is_empty());
    assert_eq!(resp.has_more, Some(false));
    assert!(resp.last_id.is_none());
}

#[test]
fn content_block_thinking_empty() {
    let block = teleport_reader::decode::decode_block(j(r#"{"type":"thinking","thinking":""}"#));
    if let ContentBlock::Thinking(t) = &block {
        assert_eq!(t.thinking.as_deref(), Some(""));
    } else {
        panic!("Expected Thinking variant");
    }
}

#[test]
fn content_block_tool_use_with_input() {
    let block = teleport_reader::decode::decode_block(j(
        r#"{"type":"tool_use","id":"tu_42","name":"Read","input":{"file_path":"/tmp/test.rs"}}"#,
    ));
    if let ContentBlock::ToolUse(t) = &block {
        assert_eq!(t.id.as_deref(), Some("tu_42"));
        assert_eq!(t.name.as_deref(), Some("Read"));
        assert!(t.input.is_some());
    } else {
        panic!("Expected ToolUse variant");
    }
}

#[test]
fn user_content_text_variant() {
    let content = teleport_reader::decode::decode_user_content(j(r#""plain text message""#));
    assert_eq!(content.as_text(), Some("plain text message"));
}

#[test]
fn user_content_blocks_variant() {
    let content = teleport_reader::decode::decode_user_content(j(r#"[{"type":"text","text":"hi"}]"#));
    assert!(content.as_text().is_none());
}

#[test]
fn deserialize_logline() {
    let log = teleport_reader::loglines::decode_logline(j(r#"{
        "type":"user","subtype":"message","content":"hello","timestamp":"2025-01-01T00:00:00Z",
        "gitBranch":"main","sessionId":"session_01abc","cwd":"/home/user","isMeta":false,
        "isSidechain":false,"slug":"test-slug","unknownField":"should be captured"}"#));
    assert_eq!(log.log_type.as_deref(), Some("user"));
    assert_eq!(log.subtype.as_deref(), Some("message"));
    assert_eq!(log.content.as_deref(), Some("hello"));
    assert_eq!(log.git_branch.as_deref(), Some("main"));
    assert_eq!(log.is_meta, Some(false));
    assert!(log.extra.iter().any(|(k, _)| k == "unknownField"));
    assert_eq!(log.extra.len(), 1);
}

#[test]
fn deserialize_logline_minimal() {
    let log = teleport_reader::loglines::decode_logline(j("{}"));
    assert!(log.log_type.is_none());
    assert!(log.content.is_none());
    assert!(log.extra.is_empty());
}

#[test]
fn logline_keeps_compact_metadata_apart() {
    let log = teleport_reader::loglines::decode_logline(j(r#"{"compactMetadata":{"a":1},"zeta":2,"alpha":3}"#));
    assert_eq!(to_json_string(log.compact_metadata.as_ref().unwrap()), r#"{"a":1}"#);
    let names: Vec<&str> = log.extra.iter().map(|(k, _)| k.as_str()).collect();
    assert_eq!(names, vec!["alpha", "zeta"]);
}

#[test]
fn deserialize_ingress_response() {
    let resp = teleport_reader::loglines::decode_loglines(j(
        r#"{"loglines":[{"type":"system","content":"init"},{"type":"user","content":"hi"}]}"#,
    ))
    .unwrap();
    assert_eq!(resp.loglines.len(), 2);
}

#[test]
fn session_event_roundtrip_through_text() {
    let e = decode_event(j(
        r#"{"type":"user","created_at":"2025-01-01T00:00:00Z","uuid":"evt_123","message":{"role":"user","content":"test roundtrip"}}"#,
    ));
    let text = to_json_string(&encode_event(e));
    let back = decode_event(j(&text));
    assert_eq!(back.event_type(), "user");
    assert_eq!(back.created_at(), Some("2025-01-01T00:00:00Z"));
}

#[test]
fn counts_by_type_follow_the_fixed_order() {
    let events = vec![
        decode_event(j(r#"{"type":"user","message":{"content":"a"}}"#)),
        decode_event(j(r#"{"type":"user","message":{"content":"b"}}"#)),
        decode_event(j(r#"{"type":"mystery"}"#)),
        decode_event(j(r#"{"type":"result"}"#)),
    ];
    let counts = teleport_reader::summary::count_by_type(&events);
    assert_eq!(counts, vec![0, 2, 0, 0, 0, 1, 0, 0, 1]);
    assert_eq!(teleport_reader::summary::kind_tag(1), "user");
    assert_eq!(teleport_reader::summary::kind_tag(8), "unknown");
}

#[test]
fn system_event_round_trips_all_fields() {
    let e = decode_event(j(
        r#"{"type":"system","created_at":"t0","uuid":"u1","subtype":"init","tools":["Bash","Read"],"mcp_servers":[{"name":"x"}],"permissionMode":"plan"}"#,
    ));
    let back = decode_event(encode_event(e));
    match back {
        SessionEvent::System(s) => {
            assert_eq!(s.created_at.as_deref(), Some("t0"));
            assert_eq!(s.uuid.as_deref(), Some("u1"));
            assert_eq!(s.subtype.as_deref(), Some("init"));
            assert_eq!(s.tools, Some(vec!["Bash".to_string(), "Read".to_string()]));
            assert_eq!(to_json_string(s.mcp_servers.as_ref().unwrap()), r#"[{"name":"x"}]"#);
            assert_eq!(s.permission_mode.as_deref(), Some("plan"));
            assert_eq!(s.model, None);
        }
        _ => panic!("Expected System variant"),
    }
}

#[test]
fn assistant_blocks_round_trip() {
    let e = decode_event(j(r#"{"type":"assistant","message":{"role":"assistant","content":[
        {"type":"thinking","thinking":"hmm","signature":"sig"},
        {"type":"tool_use","id":"tu_1","name":"Bash","input":{"command":"ls"}},
        {"type":"tool_result","tool_use_id":"tu_1","content":"ok","is_error":true},
        {"type":"mystery"}]}}"#));
    let back = decode_event(j(&to_json_string(&encode_event(e))));
    match back {
        SessionEvent::Assistant(a) => {
            assert_eq!(a.message.role.as_deref(), Some("assistant"));
            assert_eq!(a.message.content.len(), 4);
            assert!(matches!(&a.message.content[0], ContentBlock::Thinking(t) if t.signature.as_deref() == Some("sig")));
            assert!(matches!(&a.message.content[1], ContentBlock::ToolUse(t) if t.id.as_deref() == Some("tu_1")));
            assert!(matches!(&a.message.content[2], ContentBlock::ToolResult(t) if t.is_error == Some(true)));
            assert!(matches!(&a.message.content[3], ContentBlock::Other));
        }
        _ => panic!("Expected Assistant variant"),
    }
}

#[test]
fn bounds_are_inclusive_and_absent_instants_pass() {
    let a = Some(Instant { secs: 10, nanos: 0 });
    let b = Some(Instant { secs: 20, nanos: 5 });
    assert!(is_within(None, a, b));
    assert!(is_within(Some(Instant { secs: 10, nanos: 0 }), a, b));
    assert!(is_within(Some(Instant { secs: 20, nanos: 5 }), a, b));
    assert!(!is_within(Some(Instant { secs: 20, nanos: 6 }), a, b));
    assert!(!is_within(Some(Instant { secs: 9, nanos: 999_999_999 }), a, b));
    assert!(is_within(Some(Instant { secs: -5, nanos: 0 }), None, b));
}

#[test]
fn type_rows_most_frequent_first() {
    let events = vec![
        decode_event(j(r#"{"type":"result"}"#)),
        decode_event(j(r#"{"type":"user","message":{"content":"a"}}"#)),
        decode_event(j(r#"{"type":"tool_use_summary","summary":"s"}"#)),
        decode_event(j(r#"{"type":"user","message":{"content":[]}}"#)),
        decode_event(j(r#"{"type":"tool_use_summary"}"#)),
        decode_event(j(r#"{"type":"user","message":{"content":"b"}}"#)),
    ];
    assert_eq!(teleport_reader::summary::type_rows(&events), vec![(1, 3), (3, 2), (5, 1)]);
    assert_eq!(teleport_reader::summary::summary_positions(&events), vec![2]);
    assert_eq!(teleport_reader::summary::user_text_positions(&events), vec![1, 5]);
}
