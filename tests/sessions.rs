use teleport_reader::json::Json;
use teleport_reader::sessions::{decode_session, decode_sessions_list, filter_sessions, SessionFilter};
use teleport_reader::timefmt::parse_date_filter;

fn conv(v: serde_json::Value) -> Json {
    match v {
        serde_json::Value::Null => Json::Null,
        serde_json::Value::Bool(b) => Json::Bool(b),
        serde_json::Value::Number(n) => {
            if let Some(u) = n.as_u64() {
                Json::UInt(u)
            } else if let Some(i) = n.as_i64() {
                Json::Int(i)
            } else {
                Json::Decimal(n.to_string())
            }
        }
        serde_json::Value::String(s) => Json::Str(s),
        serde_json::Value::Array(a) => Json::Array(a.into_iter().map(conv).collect()),
        serde_json::Value::Object(m) => Json::Object(m.into_iter().map(|(k, v)| (k, conv(v))).collect()),
    }
}

fn j(text: &str) -> Json {
    conv(serde_json::from_str(text).unwrap())
}

#[test]
fn deserialize_session_minimal() {
    let s = decode_session(j(r#"{"id":"session_01abc"}"#)).unwrap();
    assert_eq!(s.id, "session_01abc");
    assert!(s.title.is_none());
    assert!(s.session_status.is_none());
    assert!(s.session_context.is_none());
}

#[test]
fn deserialize_session_full() {
    let s = decode_session(j(r#"{
        "id":"session_01xyz","title":"My session","session_status":"running","type":"remote",
        "created_at":"2025-01-01T00:00:00Z","updated_at":"2025-01-01T01:00:00Z","environment_id":"env_01",
        "session_context":{"model":"sonnet-model","cwd":"/home/user",
            "sources":[{"type":"git","url":"https://github.com/user/repo","revision":"abc123"}],
            "outcomes":[{"type":"git","git_info":{"type":"push","repo":"user/repo","branches":["main","feature"]}}]}}"#))
    .unwrap();
    assert_eq!(s.title.as_deref(), Some("My session"));
    assert_eq!(s.session_status.as_deref(), Some("running"));
    assert_eq!(s.session_type.as_deref(), Some("remote"));
    let ctx = s.session_context.unwrap();
    assert_eq!(ctx.model.as_deref(), Some("sonnet-model"));
    let sources = ctx.sources.unwrap();
    assert_eq!(sources.len(), 1);
    assert_eq!(sources[0].url.as_deref(), Some("https://github.com/user/repo"));
    let outcomes = ctx.outcomes.unwrap();
    let git = outcomes[0].git_info.as_ref().unwrap();
    assert_eq!(git.repo.as_deref(), Some("user/repo"));
    assert_eq!(git.branches.as_ref().unwrap(), &vec!["main".to_string(), "feature".to_string()]);
}

#[test]
fn session_without_id_is_refused() {
    assert!(decode_session(j(r#"{"title":"x"}"#)).is_none());
}

#[test]
fn deserialize_sessions_list_response() {
    let resp = decode_sessions_list(j(r#"{"data":[{"id":"s1"},{"id":"s2","title":"Second"}]}"#)).unwrap();
    assert_eq!(resp.data.len(), 2);
    assert_eq!(resp.data[0].id, "s1");
    assert_eq!(resp.data[1].title.as_deref(), Some("Second"));
}

#[test]
fn filter_sessions_by_status_dates_and_limit() {
    let v = decode_sessions_list(j(r#"{"data":[
        {"id":"s0","session_status":"running","created_at":"2025-02-01T00:00:00Z"},
        {"id":"s1","session_status":"idle","created_at":"2025-02-01T00:00:00Z"},
        {"id":"s2","session_status":"running","created_at":"2024-02-01T00:00:00Z"},
        {"id":"s3","session_status":"running"},
        {"id":"s4","session_status":"running","created_at":"not a date"},
        {"id":"s5","session_status":"running","created_at":"2025-03-01T00:00:00Z"}
    ]}"#))
    .unwrap()
    .data;
    let f = SessionFilter {
        status: Some("running".to_string()),
        after: Some(parse_date_filter("2025-01-01").unwrap()),
        before: None,
        limit: 20,
    };
    assert_eq!(filter_sessions(&v, &f), vec![0, 3, 4, 5]);
    let f = SessionFilter { status: None, after: None, before: None, limit: 2 };
    assert_eq!(filter_sessions(&v, &f), vec![0, 1]);
    let f = SessionFilter { status: None, after: None, before: None, limit: 0 };
    assert!(filter_sessions(&v, &f).is_empty());
}

#[test]
fn session_roundtrip() {
    let s = decode_session(j(
        r#"{"id":"session_01test","title":"Test Session","session_status":"completed","type":"remote","created_at":"2025-01-01T00:00:00Z"}"#,
    ))
    .unwrap();
    let text = teleport_reader::json_text::to_json_string(&teleport_reader::sessions::encode_session(s));
    let back = decode_session(j(&text)).unwrap();
    assert_eq!(back.id, "session_01test");
    assert_eq!(back.title.as_deref(), Some("Test Session"));
}

#[test]
fn session_listing_refuses_a_record_without_id() {
    assert!(matches!(
        decode_sessions_list(j(r#"{"data":[{"id":"s1"},{"title":"no id"}]}"#)),
        Err(teleport_reader::sessions::ListError::BadSession(1))
    ));
    assert!(matches!(decode_sessions_list(j(r#"{"items":[]}"#)), Err(teleport_reader::sessions::ListError::NotAList)));
}
