//! What every authenticated request carries, and how answers outside the
//! 2xx range become typed failures that keep the status and the body.

use vstd::prelude::*;
use crate::json_text::{decimal, decimal_text};

verus! {

/// The API version header value.
pub const API_VERSION: &'static str = "2023-06-01";

/// The beta-feature header value.
pub const API_BETA: &'static str = "ccr-byoc-2025-07-29";

/// The header pairs of an authenticated request, as text.
pub open spec fn header_texts(h: Seq<(String, String)>) -> Seq<(Seq<char>, Seq<char>)> {
    h.map_values(|p: (String, String)| (p.0@, p.1@))
}

fn pair(name: &str, value: String) -> (r: (String, String))
    ensures
        r.0@ == name@,
        r.1@ == value@,
{
    (String::from_str(name), value)
}

/// The headers of every authenticated request: the bearer token, the
/// organization, the beta flag, the API version and the JSON content type.
pub fn request_headers(access_token: &str, org_uuid: &str) -> (r: Vec<(String, String)>)
    ensures
        header_texts(r@) == seq![
            ("authorization"@, "Bearer "@ + access_token@),
            ("x-organization-uuid"@, org_uuid@),
            ("anthropic-beta"@, API_BETA@),
            ("anthropic-version"@, API_VERSION@),
            ("content-type"@, "application/json"@),
        ],
{
    let mut r: Vec<(String, String)> = Vec::new();
    r.push(pair("authorization", String::from_str("Bearer ").concat(access_token)));
    r.push(pair("x-organization-uuid", String::from_str(org_uuid)));
    r.push(pair("anthropic-beta", String::from_str(API_BETA)));
    r.push(pair("anthropic-version", String::from_str(API_VERSION)));
    r.push(pair("content-type", String::from_str("application/json")));
    assert(header_texts(r@) =~= seq![
        ("authorization"@, "Bearer "@ + access_token@),
        ("x-organization-uuid"@, org_uuid@),
        ("anthropic-beta"@, API_BETA@),
        ("anthropic-version"@, API_VERSION@),
        ("content-type"@, "application/json"@),
    ]);
    r
}

/// The headers of the profile lookup, made before the organization is known.
pub fn profile_headers(access_token: &str) -> (r: Vec<(String, String)>)
    ensures
        header_texts(r@) == seq![
            ("authorization"@, "Bearer "@ + access_token@),
            ("content-type"@, "application/json"@),
        ],
{
    let mut r: Vec<(String, String)> = Vec::new();
    r.push(pair("authorization", String::from_str("Bearer ").concat(access_token)));
    r.push(pair("content-type", String::from_str("application/json")));
    assert(header_texts(r@) =~= seq![
        ("authorization"@, "Bearer "@ + access_token@),
        ("content-type"@, "application/json"@),
    ]);
    r
}

/// Which request an answer belongs to.
#[derive(Debug, Clone)]
pub enum Request {
    Profile,
    ListSessions,
    GetSession { session_id: String },
    /// Page `page` (from one) of a session's events.
    Events { session_id: String, page: usize },
    Loglines { session_id: String },
}

/// A failed request.
#[derive(Debug)]
pub enum ApiError {
    /// The profile lookup was refused; the token may have expired.
    ProfileLookup { status: u16, body: String },
    /// Another request was answered outside the 2xx range.
    Status { request: Request, status: u16, body: String },
}

/// Whether a status code means success.
pub open spec fn is_success(status: u16) -> bool {
    200 <= status <= 299
}

/// Turns an answer's status into success or a typed failure that keeps the
/// status and the body; a refused profile lookup is told apart.
pub fn check_status(request: Request, status: u16, body: String) -> (r: Result<(), ApiError>)
    ensures
        r is Ok <==> is_success(status),
        r matches Err(e) ==> match request {
            Request::Profile => e matches ApiError::ProfileLookup { status: s, body: b } && s == status
                && b@ == body@,
            _ => e matches ApiError::Status { request: q, status: s, body: b } && q == request && s
                == status && b@ == body@,
        },
{
    if 200 <= status && status <= 299 {
        Ok(())
    } else {
        match request {
            Request::Profile => Err(ApiError::ProfileLookup { status, body }),
            _ => Err(ApiError::Status { request, status, body }),
        }
    }
}

/// The opening of the message of a failed request.
pub open spec fn request_head(q: Request) -> Seq<char> {
    match q {
        Request::Profile => "Failed to fetch profile"@,
        Request::ListSessions => "Failed to list sessions"@,
        Request::GetSession { session_id } => "Session "@ + session_id@ + " not found"@,
        Request::Events { session_id, page } => "Failed to fetch events for session "@ + session_id@
            + " (page "@ + decimal(page as nat) + ")"@,
        Request::Loglines { session_id } => "Failed to fetch loglines for session "@ + session_id@,
    }
}

fn request_head_text(q: &Request) -> (r: String)
    ensures
        r@ == request_head(*q),
{
    match q {
        Request::Profile => String::from_str("Failed to fetch profile"),
        Request::ListSessions => String::from_str("Failed to list sessions"),
        Request::GetSession { session_id } => String::from_str("Session ").concat(
            session_id.as_str(),
        ).concat(" not found"),
        Request::Events { session_id, page } => String::from_str(
            "Failed to fetch events for session ",
        ).concat(session_id.as_str()).concat(" (page ").concat(
            decimal_text(*page as u64).as_str(),
        ).concat(")"),
        Request::Loglines { session_id } => String::from_str(
            "Failed to fetch loglines for session ",
        ).concat(session_id.as_str()),
    }
}

impl ApiError {
    /// A message with the request, the session and page where they apply,
    /// the status and the body; a refused profile lookup says that the token
    /// may have expired.
    pub fn message(&self) -> (r: String)
        ensures
            match *self {
                ApiError::ProfileLookup { status, body } => r@
                    == "Failed to fetch profile (token may be expired): "@ + decimal(status as nat)
                    + " - "@ + body@,
                ApiError::Status { request, status, body } => r@ == request_head(request) + ": "@
                    + decimal(status as nat) + " - "@ + body@,
            },
    {
        match self {
            ApiError::ProfileLookup { status, body } => String::from_str(
                "Failed to fetch profile (token may be expired): ",
            ).concat(decimal_text(*status as u64).as_str()).concat(" - ").concat(body.as_str()),
            ApiError::Status { request, status, body } => {
                request_head_text(request).concat(": ").concat(
                    decimal_text(*status as u64).as_str(),
                ).concat(" - ").concat(body.as_str())
            },
        }
    }
}

} // verus!
