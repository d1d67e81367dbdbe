use teleport_reader::credentials::{
    decode_credentials, decode_profile, load_credentials, CredentialError, CredentialSource,
    FileLookup, StoreLookup,
};
use teleport_reader::json::Json;
use teleport_reader::transport::{check_status, request_headers, ApiError, Request};

fn conv(v: serde_json::Value) -> Json {
    match v {
        serde_json::Value::Null => Json::Null,
        serde_json::Value::Bool(b) => Json::Bool(b),
        serde_json::Value::Number(n) => {
            if let Some(u) = n.as_u64() {
                Json::UInt(u)
            } else if let Some(i) = n.as_i64() {
                Json::Int(i)
            } else {
                Json::Decimal(n.to_string())
            }
        }
        serde_json::Value::String(s) => Json::Str(s),
        serde_json::Value::Array(a) => Json::Array(a.into_iter().map(conv).collect()),
        serde_json::Value::Object(m) => Json::Object(m.into_iter().map(|(k, v)| (k, conv(v))).collect()),
    }
}

fn j(text: &str) -> Json {
    conv(serde_json::from_str(text).unwrap())
}

const GOOD: &str = r#"{"claudeAiOauth":{"accessToken":"tok_abc","refreshToken":"ref_xyz","expiresAt":1700000000,"scopes":["read","write"],"subscriptionType":"pro","rateLimitTier":"tier1"}}"#;

#[test]
fn deserialize_oauth_credentials() {
    let creds = decode_credentials(&j(GOOD)).unwrap();
    assert_eq!(creds.claude_ai_oauth.access_token, "tok_abc");
    assert_eq!(creds.claude_ai_oauth.expires_at, 1700000000);
    assert_eq!(creds.claude_ai_oauth.scopes, vec!["read", "write"]);
}

#[test]
fn deserialize_oauth_credentials_ignores_extra_fields() {
    let creds = decode_credentials(&j(
        r#"{"claudeAiOauth":{"accessToken":"tok","expiresAt":0,"scopes":[],"refreshToken":"ignored","subscriptionType":"pro","rateLimitTier":"tier1"}}"#,
    ))
    .unwrap();
    assert_eq!(creds.claude_ai_oauth.access_token, "tok");
}

#[test]
fn oauth_token_debug_redacts_secrets() {
    let creds = decode_credentials(&j(
        r#"{"claudeAiOauth":{"accessToken":"super_secret_token","expiresAt":9999999999,"scopes":["read"]}}"#,
    ))
    .unwrap();
    let debug_output = creds.redacted();
    assert!(!debug_output.contains("super_secret_token"));
    assert!(debug_output.contains("[REDACTED]"));
    assert_eq!(
        creds.claude_ai_oauth.redacted(),
        r#"OAuthToken { access_token: "[REDACTED]", expires_at: 9999999999, scopes: ["read"] }"#
    );
}

#[test]
fn credentials_missing_members_are_refused() {
    assert!(decode_credentials(&j(r#"{"claudeAiOauth":{"accessToken":"t","scopes":[]}}"#)).is_none());
    assert!(decode_credentials(&j(r#"{"other":{}}"#)).is_none());
    assert!(decode_credentials(&j(r#"{"claudeAiOauth":{"accessToken":"t","expiresAt":1,"scopes":[1]}}"#)).is_none());
}

#[test]
fn deserialize_profile_response() {
    let p = decode_profile(&j(r#"{"organization":{"uuid":"org-123"},"account":{"uuid":"acc-456","display_name":"Test"}}"#)).unwrap();
    assert_eq!(p.organization.uuid, "org-123");
}

#[test]
fn profile_response_ignores_extra_fields() {
    let p = decode_profile(&j(r#"{"organization":{"uuid":"org-1","name":"Acme"},"account":{},"some_future_field":1}"#)).unwrap();
    assert_eq!(p.organization.uuid, "org-1");
    assert!(decode_profile(&j(r#"{"account":{}}"#)).is_none());
}

#[test]
fn store_is_preferred_over_file() {
    let store = StoreLookup::Found(j(GOOD));
    let file = FileLookup::Found(j(r#"{"claudeAiOauth":{"accessToken":"from_file","expiresAt":1,"scopes":[]}}"#));
    let (c, src) = load_credentials(&store, &file, "/p").unwrap();
    assert_eq!(src, CredentialSource::SecretStore);
    assert_eq!(c.claude_ai_oauth.access_token, "tok_abc");
}

#[test]
fn failed_or_missing_store_falls_back_to_file() {
    for store in [StoreLookup::Unavailable, StoreLookup::Failed, StoreLookup::Found(j(r#"{"x":1}"#))] {
        let file = FileLookup::Found(j(GOOD));
        let (c, src) = load_credentials(&store, &file, "/p").unwrap();
        assert_eq!(src, CredentialSource::File);
        assert_eq!(c.claude_ai_oauth.access_token, "tok_abc");
    }
}

#[test]
fn no_source_gives_no_credentials_naming_the_path() {
    let e = load_credentials(&StoreLookup::Failed, &FileLookup::Missing, "/home/u/.config/.credentials.json")
        .err()
        .unwrap();
    assert_eq!(
        e,
        CredentialError::NoCredentials { store_checked: true, path: "/home/u/.config/.credentials.json".to_string() }
    );
    assert!(e.message().contains("secret store"));
    assert!(e.message().contains("/home/u/.config/.credentials.json"));
    let e = load_credentials(&StoreLookup::Unavailable, &FileLookup::Missing, "/c").err().unwrap();
    assert_eq!(e.message(), "No credentials found at /c. Log in first.");
}

#[test]
fn load_credentials_from_file_missing() {
    let e = load_credentials(&StoreLookup::Unavailable, &FileLookup::Unreadable("denied".to_string()), "/tmp/nonexistent-cta-creds/.credentials.json")
        .err()
        .unwrap();
    assert!(e.message().contains("Failed to read credentials"));
}

#[test]
fn load_credentials_from_file_invalid_json() {
    let e = load_credentials(&StoreLookup::Unavailable, &FileLookup::NotJson, "/x").err().unwrap();
    assert!(e.message().contains("Failed to parse credentials"));
    let e = load_credentials(&StoreLookup::Unavailable, &FileLookup::Found(j("[]")), "/x").err().unwrap();
    assert_eq!(e, CredentialError::Malformed { path: "/x".to_string() });
}

#[test]
fn status_outside_2xx_keeps_status_and_body() {
    assert!(check_status(Request::ListSessions, 200, String::new()).is_ok());
    assert!(check_status(Request::ListSessions, 299, String::new()).is_ok());
    match check_status(Request::Events { session_id: "session_x".to_string(), page: 3 }, 404, "nope".to_string()) {
        Err(e) => {
            assert!(matches!(&e, ApiError::Status { status: 404, .. }));
            assert_eq!(e.message(), "Failed to fetch events for session session_x (page 3): 404 - nope");
        }
        Ok(()) => panic!("expected failure"),
    }
    match check_status(Request::Profile, 401, "expired".to_string()) {
        Err(ApiError::ProfileLookup { status, body }) => {
            assert_eq!(status, 401);
            assert_eq!(body, "expired");
        }
        _ => panic!("expected profile failure"),
    }
}

#[test]
fn headers_carry_token_and_organization() {
    let h = request_headers("tok", "org-1");
    assert_eq!(h[0], ("authorization".to_string(), "Bearer tok".to_string()));
    assert_eq!(h[1], ("x-organization-uuid".to_string(), "org-1".to_string()));
    assert_eq!(h.len(), 5);
}

#[test]
fn credentials_file_path_default() {
    let path = teleport_reader::credentials::credentials_file_path(None, Some("/home/u"), ".conf");
    assert!(path.ends_with(".conf/.credentials.json"));
    assert_eq!(path, "/home/u/.conf/.credentials.json");
}

#[test]
fn credentials_file_path_with_env_override() {
    let path = teleport_reader::credentials::credentials_file_path(Some("/tmp/custom-config"), Some("/home/u"), ".conf");
    assert_eq!(path, "/tmp/custom-config/.credentials.json");
    let path = teleport_reader::credentials::credentials_file_path(Some("/tmp/d/"), None, ".conf");
    assert_eq!(path, "/tmp/d/.credentials.json");
    let path = teleport_reader::credentials::credentials_file_path(None, None, ".conf");
    assert_eq!(path, "./.conf/.credentials.json");
}

#[test]
fn error_messages_name_status_body_and_path() {
    match check_status(Request::Profile, 401, "expired token".to_string()) {
        Err(e) => assert_eq!(e.message(), "Failed to fetch profile (token may be expired): 401 - expired token"),
        Ok(()) => panic!("expected failure"),
    }
    match check_status(Request::GetSession { session_id: "session_x".to_string() }, 404, "gone".to_string()) {
        Err(e) => assert_eq!(e.message(), "Session session_x not found: 404 - gone"),
        Ok(()) => panic!("expected failure"),
    }
    let e = CredentialError::Unreadable { path: "/p".to_string(), reason: "denied".to_string() };
    assert_eq!(e.message(), "Failed to read credentials from /p: denied");
    let e = CredentialError::Malformed { path: "/p".to_string() };
    assert_eq!(e.message(), "Failed to parse credentials JSON from /p");
    assert!(teleport_reader::credentials::needs_file(&StoreLookup::Failed));
    assert!(!teleport_reader::credentials::needs_file(&StoreLookup::Found(j(GOOD))));
}
