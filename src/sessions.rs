//! Sessions: decoding session records and selecting them for a listing.

use vstd::prelude::*;
use crate::json::{
    Json, field, str_at, str_list_at, opt_text, opt_texts, present, get, get_str, get_str_list,
    take_present, take_field, member_from, all_strings, string_texts, texts,
};
use crate::search::{within_range, opt_pair};
use crate::timefmt::Instant;
use crate::search::in_time_range;
use crate::text::str_eq;

verus! {

#[derive(Debug)]
pub struct SessionSource {
    pub source_type: Option<String>,
    pub url: Option<String>,
    pub revision: Option<String>,
}

#[derive(Debug)]
pub struct GitInfo {
    pub git_type: Option<String>,
    pub repo: Option<String>,
    pub branches: Option<Vec<String>>,
}

#[derive(Debug)]
pub struct SessionOutcome {
    pub outcome_type: Option<String>,
    pub git_info: Option<GitInfo>,
}

#[derive(Debug)]
pub struct SessionContext {
    pub model: Option<String>,
    pub cwd: Option<String>,
    pub sources: Option<Vec<SessionSource>>,
    pub outcomes: Option<Vec<SessionOutcome>>,
    pub allowed_tools: Option<Vec<String>>,
    pub disallowed_tools: Option<Vec<String>>,
    pub knowledge_base_ids: Option<Vec<String>>,
}

/// A snapshot of one remote session.
#[derive(Debug)]
pub struct Session {
    pub id: String,
    pub title: Option<String>,
    pub session_status: Option<String>,
    pub session_type: Option<String>,
    pub created_at: Option<String>,
    pub updated_at: Option<String>,
    pub environment_id: Option<String>,
    pub session_context: Option<SessionContext>,
    pub metadata: Option<Json>,
    pub active_mount_paths: Option<Vec<String>>,
}

pub open spec fn source_decoded(s: SessionSource, j: Json) -> bool {
    &&& opt_text(s.source_type) == str_at(j, "type"@)
    &&& opt_text(s.url) == str_at(j, "url"@)
    &&& opt_text(s.revision) == str_at(j, "revision"@)
}

fn decode_source(j: &Json) -> (r: SessionSource)
    ensures
        source_decoded(r, *j),
{
    SessionSource {
        source_type: get_str(j, "type"),
        url: get_str(j, "url"),
        revision: get_str(j, "revision"),
    }
}

pub open spec fn git_info_decoded(g: GitInfo, j: Json) -> bool {
    &&& opt_text(g.git_type) == str_at(j, "type"@)
    &&& opt_text(g.repo) == str_at(j, "repo"@)
    &&& opt_texts(g.branches) == str_list_at(j, "branches"@)
}

pub open spec fn outcome_decoded(o: SessionOutcome, j: Json) -> bool {
    &&& opt_text(o.outcome_type) == str_at(j, "type"@)
    &&& match present(j, "git_info"@) {
        Some(g) => o.git_info matches Some(x) && git_info_decoded(x, g),
        None => o.git_info is None,
    }
}

fn decode_outcome(j: &Json) -> (r: SessionOutcome)
    ensures
        outcome_decoded(r, *j),
{
    let outcome_type = get_str(j, "type");
    let git_info = match get(j, "git_info") {
        Some(Json::Null) | None => None,
        Some(g) => Some(
            GitInfo {
                git_type: get_str(g, "type"),
                repo: get_str(g, "repo"),
                branches: get_str_list(g, "branches"),
            },
        ),
    };
    SessionOutcome { outcome_type, git_info }
}

/// The sources under `key`: one per element when the member is an array.
pub open spec fn sources_decoded(s: Option<Vec<SessionSource>>, j: Json) -> bool {
    match field(j, "sources"@) {
        Some(Json::Array(items)) => s matches Some(v) && v@.len() == items@.len() && forall|k: int|
            0 <= k < items@.len() ==> source_decoded(#[trigger] v@[k], items@[k]),
        _ => s is None,
    }
}

pub open spec fn outcomes_decoded(s: Option<Vec<SessionOutcome>>, j: Json) -> bool {
    match field(j, "outcomes"@) {
        Some(Json::Array(items)) => s matches Some(v) && v@.len() == items@.len() && forall|k: int|
            0 <= k < items@.len() ==> outcome_decoded(#[trigger] v@[k], items@[k]),
        _ => s is None,
    }
}

fn decode_sources(j: &Json) -> (r: Option<Vec<SessionSource>>)
    ensures
        sources_decoded(r, *j),
{
    match get(j, "sources") {
        Some(Json::Array(items)) => {
            let mut out: Vec<SessionSource> = Vec::new();
            let mut i: usize = 0;
            while i < items.len()
                invariant
                    i <= items@.len(),
                    out@.len() == i,
                    forall|k: int| 0 <= k < i ==> source_decoded(#[trigger] out@[k], items@[k]),
                decreases items@.len() - i,
            {
                out.push(decode_source(&items[i]));
                i = i + 1;
            }
            Some(out)
        },
        _ => None,
    }
}

fn decode_outcomes(j: &Json) -> (r: Option<Vec<SessionOutcome>>)
    ensures
        outcomes_decoded(r, *j),
{
    match get(j, "outcomes") {
        Some(Json::Array(items)) => {
            let mut out: Vec<SessionOutcome> = Vec::new();
            let mut i: usize = 0;
            while i < items.len()
                invariant
                    i <= items@.len(),
                    out@.len() == i,
                    forall|k: int| 0 <= k < i ==> outcome_decoded(#[trigger] out@[k], items@[k]),
                decreases items@.len() - i,
            {
                out.push(decode_outcome(&items[i]));
                i = i + 1;
            }
            Some(out)
        },
        _ => None,
    }
}

pub open spec fn context_decoded(c: SessionContext, j: Json) -> bool {
    &&& opt_text(c.model) == str_at(j, "model"@)
    &&& opt_text(c.cwd) == str_at(j, "cwd"@)
    &&& sources_decoded(c.sources, j)
    &&& outcomes_decoded(c.outcomes, j)
    &&& opt_texts(c.allowed_tools) == str_list_at(j, "allowed_tools"@)
    &&& opt_texts(c.disallowed_tools) == str_list_at(j, "disallowed_tools"@)
    &&& opt_texts(c.knowledge_base_ids) == str_list_at(j, "knowledge_base_ids"@)
}

fn decode_context(j: &Json) -> (r: SessionContext)
    ensures
        context_decoded(r, *j),
{
    SessionContext {
        model: get_str(j, "model"),
        cwd: get_str(j, "cwd"),
        sources: decode_sources(j),
        outcomes: decode_outcomes(j),
        allowed_tools: get_str_list(j, "allowed_tools"),
        disallowed_tools: get_str_list(j, "disallowed_tools"),
        knowledge_base_ids: get_str_list(j, "knowledge_base_ids"),
    }
}

/// `s` is the session that the record `j` decodes to.
pub open spec fn session_decoded(s: Session, j: Json) -> bool {
    &&& str_at(j, "id"@) == Some(s.id@)
    &&& opt_text(s.title) == str_at(j, "title"@)
    &&& opt_text(s.session_status) == str_at(j, "session_status"@)
    &&& opt_text(s.session_type) == str_at(j, "type"@)
    &&& opt_text(s.created_at) == str_at(j, "created_at"@)
    &&& opt_text(s.updated_at) == str_at(j, "updated_at"@)
    &&& opt_text(s.environment_id) == str_at(j, "environment_id"@)
    &&& match present(j, "session_context"@) {
        Some(c) => s.session_context matches Some(x) && context_decoded(x, c),
        None => s.session_context is None,
    }
    &&& s.metadata == present(j, "metadata"@)
    &&& opt_texts(s.active_mount_paths) == str_list_at(j, "active_mount_paths"@)
}

/// Decodes a session record; it must carry a string `id`.
pub fn decode_session(j: Json) -> (r: Option<Session>)
    ensures
        r is Some <==> str_at(j, "id"@) is Some,
        r matches Some(s) ==> session_decoded(s, j),
{
    let id = match get_str(&j, "id") {
        Some(id) => id,
        None => {
            return None;
        },
    };
    let title = get_str(&j, "title");
    let session_status = get_str(&j, "session_status");
    let session_type = get_str(&j, "type");
    let created_at = get_str(&j, "created_at");
    let updated_at = get_str(&j, "updated_at");
    let environment_id = get_str(&j, "environment_id");
    let session_context = match get(&j, "session_context") {
        Some(Json::Null) | None => None,
        Some(c) => Some(decode_context(c)),
    };
    let active_mount_paths = get_str_list(&j, "active_mount_paths");
    let metadata = take_present(j, "metadata");
    Some(
        Session {
            id,
            title,
            session_status,
            session_type,
            created_at,
            updated_at,
            environment_id,
            session_context,
            metadata,
            active_mount_paths,
        },
    )
}

/// Why a list of sessions could not be read.
#[derive(Debug, Clone, PartialEq, Eq)]
pub enum ListError {
    /// The answer is not an object with a `data` array.
    NotAList,
    /// The element at this position is not a session record.
    BadSession(usize),
}

/// The session list answer.
#[derive(Debug)]
pub struct SessionsListResponse {
    pub data: Vec<Session>,
}

/// Decodes the session list answer: every element of its `data` array must
/// be a session record.
pub fn decode_sessions_list(j: Json) -> (r: Result<SessionsListResponse, ListError>)
    ensures
        match r {
            Ok(resp) => field(j, "data"@) matches Some(Json::Array(items)) && resp.data@.len() == items@.len()
                && forall|k: int| 0 <= k < items@.len() ==> session_decoded(#[trigger] resp.data@[k], items@[k]),
            Err(ListError::NotAList) => !(field(j, "data"@) matches Some(Json::Array(_))),
            Err(ListError::BadSession(i)) => field(j, "data"@) matches Some(Json::Array(items)) && i
                < items@.len() && str_at(items@[i as int], "id"@) is None,
        },
{
    let items = match take_field(j, "data") {
        Some(Json::Array(items)) => items,
        _ => {
            return Err(ListError::NotAList);
        },
    };
    let ghost orig = items@;
    let mut rest = items;
    let mut out: Vec<Session> = Vec::new();
    while rest.len() > 0
        invariant
            field(j, "data"@) matches Some(Json::Array(its)) && its@ == orig,
            out@.len() + rest@.len() == orig.len(),
            rest@ == orig.subrange(out@.len() as int, orig.len() as int),
            forall|k: int| 0 <= k < out@.len() ==> session_decoded(#[trigger] out@[k], orig[k]),
        decreases rest@.len(),
    {
        let x = rest.remove(0);
        match decode_session(x) {
            Some(s) => out.push(s),
            None => {
                assert(str_at(orig[out@.len() as int], "id"@) is None);
                return Err(ListError::BadSession(out.len()));
            },
        }
        assert(rest@ =~= orig.subrange(out@.len() as int, orig.len() as int));
    }
    Ok(SessionsListResponse { data: out })
}

/// The criteria of a session listing.
#[derive(Debug)]
pub struct SessionFilter {
    pub status: Option<String>,
    pub after: Option<Instant>,
    pub before: Option<Instant>,
    pub limit: usize,
}

/// `s` meets the status and time criteria of `f`.
pub open spec fn session_passes(s: Session, f: SessionFilter) -> bool {
    &&& (f.status matches Some(st) ==> opt_text(s.session_status) == Some(st@))
    &&& within_range(opt_text(s.created_at), opt_pair(f.after), opt_pair(f.before))
}

/// The positions below `n`, in order, of the sessions that meet `f`.
pub open spec fn passing_below(sessions: Seq<Session>, f: SessionFilter, n: int) -> Seq<usize>
    decreases n,
{
    if n <= 0 {
        Seq::empty()
    } else if session_passes(sessions[n - 1], f) {
        passing_below(sessions, f, n - 1).push((n - 1) as usize)
    } else {
        passing_below(sessions, f, n - 1)
    }
}

proof fn lemma_passing_below_grows(sessions: Seq<Session>, f: SessionFilter, n: int, m: int)
    requires
        0 <= n <= m,
    ensures
        passing_below(sessions, f, n).len() <= passing_below(sessions, f, m).len(),
        passing_below(sessions, f, n) == passing_below(sessions, f, m).take(
            passing_below(sessions, f, n).len() as int,
        ),
    decreases m - n,
{
    if n < m {
        lemma_passing_below_grows(sessions, f, n, m - 1);
        let a = passing_below(sessions, f, n);
        let b = passing_below(sessions, f, m - 1);
        let c = passing_below(sessions, f, m);
        if session_passes(sessions[m - 1], f) {
            assert(c.take(a.len() as int) =~= b.take(a.len() as int));
        }
    } else {
        assert(passing_below(sessions, f, n).take(passing_below(sessions, f, n).len() as int)
            =~= passing_below(sessions, f, n));
    }
}

/// The positions, in order, of the first `limit` sessions that meet the
/// status and time criteria.
pub fn filter_sessions(sessions: &Vec<Session>, f: &SessionFilter) -> (r: Vec<usize>)
    ensures
        r@ == passing_below(sessions@, *f, sessions@.len() as int).take(
            if passing_below(sessions@, *f, sessions@.len() as int).len() <= f.limit {
                passing_below(sessions@, *f, sessions@.len() as int).len() as int
            } else {
                f.limit as int
            },
        ),
{
    let mut out: Vec<usize> = Vec::new();
    let mut i: usize = 0;
    while i < sessions.len() && out.len() < f.limit
        invariant
            i <= sessions@.len(),
            out@ == passing_below(sessions@, *f, i as int),
            out@.len() <= f.limit,
        decreases sessions@.len() - i,
    {
        let s = &sessions[i];
        let status_ok = match &f.status {
            Some(st) => match &s.session_status {
                Some(ss) => str_eq(ss.as_str(), st.as_str()),
                None => false,
            },
            None => true,
        };
        let created = match &s.created_at {
            Some(c) => Some(c.as_str()),
            None => None,
        };
        if status_ok && in_time_range(created, f.after, f.before) {
            out.push(i);
        }
        i = i + 1;
        assert(out@ =~= passing_below(sessions@, *f, i as int));
    }
    proof {
        let all = passing_below(sessions@, *f, sessions@.len() as int);
        lemma_passing_below_grows(sessions@, *f, i as int, sessions@.len() as int);
        if i == sessions@.len() {
            assert(all.take(all.len() as int) =~= all);
        }
    }
    out
}

} // verus!

verus! {

/// The member names of session records, told apart by length and first letter.
proof fn lemma_session_key_shapes()
    ensures
        "id"@.len() == 2,
        "title"@.len() == 5,
        "session_status"@.len() == 14 && "session_status"@[0] == 's',
        "type"@.len() == 4 && "type"@[0] == 't',
        "created_at"@.len() == 10 && "created_at"@[0] == 'c',
        "updated_at"@.len() == 10 && "updated_at"@[0] == 'u',
        "environment_id"@.len() == 14 && "environment_id"@[0] == 'e',
        "session_context"@.len() == 15,
        "metadata"@.len() == 8,
        "active_mount_paths"@.len() == 18 && "active_mount_paths"@[0] == 'a',
        "model"@.len() == 5,
        "cwd"@.len() == 3,
        "sources"@.len() == 7,
        "outcomes"@.len() == 8,
        "allowed_tools"@.len() == 13,
        "disallowed_tools"@.len() == 16,
        "knowledge_base_ids"@.len() == 18 && "knowledge_base_ids"@[0] == 'k',
        "url"@.len() == 3,
        "revision"@.len() == 8,
        "git_info"@.len() == 8,
        "repo"@.len() == 4 && "repo"@[0] == 'r',
        "branches"@.len() == 8,
{
    reveal_strlit("id");
    reveal_strlit("title");
    reveal_strlit("session_status");
    reveal_strlit("type");
    reveal_strlit("created_at");
    reveal_strlit("updated_at");
    reveal_strlit("environment_id");
    reveal_strlit("session_context");
    reveal_strlit("metadata");
    reveal_strlit("active_mount_paths");
    reveal_strlit("model");
    reveal_strlit("cwd");
    reveal_strlit("sources");
    reveal_strlit("outcomes");
    reveal_strlit("allowed_tools");
    reveal_strlit("disallowed_tools");
    reveal_strlit("knowledge_base_ids");
    reveal_strlit("url");
    reveal_strlit("revision");
    reveal_strlit("git_info");
    reveal_strlit("repo");
    reveal_strlit("branches");
}

fn text_json(v: Option<String>) -> (r: Json)
    ensures
        match v {
            Some(s) => r == Json::Str(s),
            None => r is Null,
        },
{
    match v {
        Some(s) => Json::Str(s),
        None => Json::Null,
    }
}

fn list_json(v: Option<Vec<String>>) -> (r: Json)
    ensures
        match v {
            Some(items) => r matches Json::Array(a) && all_strings(a@) && string_texts(a@) == texts(
                items@,
            ),
            None => r is Null,
        },
{
    match v {
        Some(items) => {
            let ghost orig = items@;
            let mut rest = items;
            let mut out: Vec<Json> = Vec::new();
            while rest.len() > 0
                invariant
                    out@.len() + rest@.len() == orig.len(),
                    rest@ == orig.subrange(out@.len() as int, orig.len() as int),
                    all_strings(out@),
                    string_texts(out@) == texts(orig.subrange(0, out@.len() as int)),
                decreases rest@.len(),
            {
                let ghost before = out@;
                let s = rest.remove(0);
                let ghost sv = s@;
                out.push(Json::Str(s));
                assert(orig[before.len() as int]@ == sv);
                assert(orig.subrange(0, out@.len() as int) =~= orig.subrange(0, before.len() as int).push(
                    orig[before.len() as int],
                ));
                assert(string_texts(out@) =~= string_texts(before).push(sv));
                assert(texts(orig.subrange(0, out@.len() as int)) =~= texts(
                    orig.subrange(0, before.len() as int),
                ).push(sv));
                assert(rest@ =~= orig.subrange(out@.len() as int, orig.len() as int));
            }
            assert(orig.subrange(0, orig.len() as int) =~= orig);
            Json::Array(out)
        },
        None => Json::Null,
    }
}

fn member(key: &str, value: Json) -> (r: (String, Json))
    ensures
        r.0@ == key@,
        r.1 == value,
{
    (String::from_str(key), value)
}

fn encode_source(s: SessionSource) -> (r: Json)
    ensures
        source_decoded(s, r),
{
    let mut o: Vec<(String, Json)> = Vec::new();
    o.push(member("type", text_json(s.source_type)));
    o.push(member("url", text_json(s.url)));
    o.push(member("revision", text_json(s.revision)));
    proof {
        lemma_session_key_shapes();
        reveal_with_fuel(member_from, 4);
    }
    Json::Object(o)
}

fn encode_outcome(x: SessionOutcome) -> (r: Json)
    ensures
        r is Object,
        outcome_decoded(x, r),
{
    let git = match x.git_info {
        Some(g) => {
            let mut gm: Vec<(String, Json)> = Vec::new();
            gm.push(member("type", text_json(g.git_type)));
            gm.push(member("repo", text_json(g.repo)));
            gm.push(member("branches", list_json(g.branches)));
            proof {
                lemma_session_key_shapes();
                reveal_with_fuel(member_from, 4);
            }
            Json::Object(gm)
        },
        None => Json::Null,
    };
    let mut o: Vec<(String, Json)> = Vec::new();
    o.push(member("type", text_json(x.outcome_type)));
    o.push(member("git_info", git));
    proof {
        lemma_session_key_shapes();
        reveal_with_fuel(member_from, 3);
    }
    Json::Object(o)
}

fn encode_sources(v: Vec<SessionSource>) -> (r: Vec<Json>)
    ensures
        r@.len() == v@.len(),
        forall|k: int| 0 <= k < v@.len() ==> source_decoded(v@[k], #[trigger] r@[k]),
{
    let ghost orig = v@;
    let mut rest = v;
    let mut out: Vec<Json> = Vec::new();
    while rest.len() > 0
        invariant
            out@.len() + rest@.len() == orig.len(),
            rest@ == orig.subrange(out@.len() as int, orig.len() as int),
            forall|k: int| 0 <= k < out@.len() ==> source_decoded(orig[k], #[trigger] out@[k]),
        decreases rest@.len(),
    {
        let s = rest.remove(0);
        out.push(encode_source(s));
        assert(rest@ =~= orig.subrange(out@.len() as int, orig.len() as int));
    }
    out
}

fn encode_outcomes(v: Vec<SessionOutcome>) -> (r: Vec<Json>)
    ensures
        r@.len() == v@.len(),
        forall|k: int| 0 <= k < v@.len() ==> outcome_decoded(v@[k], #[trigger] r@[k]),
{
    let ghost orig = v@;
    let mut rest = v;
    let mut out: Vec<Json> = Vec::new();
    while rest.len() > 0
        invariant
            out@.len() + rest@.len() == orig.len(),
            rest@ == orig.subrange(out@.len() as int, orig.len() as int),
            forall|k: int| 0 <= k < out@.len() ==> outcome_decoded(orig[k], #[trigger] out@[k]),
        decreases rest@.len(),
    {
        let x = rest.remove(0);
        out.push(encode_outcome(x));
        assert(rest@ =~= orig.subrange(out@.len() as int, orig.len() as int));
    }
    out
}

fn encode_context(c: SessionContext) -> (r: Json)
    ensures
        r is Object,
        context_decoded(c, r),
{
    let ghost c0 = c;
    let sources = match c.sources {
        Some(v) => Json::Array(encode_sources(v)),
        None => Json::Null,
    };
    let outcomes = match c.outcomes {
        Some(v) => Json::Array(encode_outcomes(v)),
        None => Json::Null,
    };
    let mut m: Vec<(String, Json)> = Vec::new();
    m.push(member("model", text_json(c.model)));
    m.push(member("cwd", text_json(c.cwd)));
    m.push(member("sources", sources));
    m.push(member("outcomes", outcomes));
    m.push(member("allowed_tools", list_json(c.allowed_tools)));
    m.push(member("disallowed_tools", list_json(c.disallowed_tools)));
    m.push(member("knowledge_base_ids", list_json(c.knowledge_base_ids)));
    proof {
        lemma_session_key_shapes();
        reveal_with_fuel(member_from, 8);
    }
    Json::Object(m)
}

/// Encodes a session as a JSON record with all its fields, absent ones as
/// `null`. Decoding the record gives back the same session, unless its
/// metadata is itself `null` (which reads back as absent).
pub fn encode_session(s: Session) -> (r: Json)
    ensures
        str_at(r, "id"@) == Some(s.id@),
        s.metadata != Some(Json::Null) ==> session_decoded(s, r),
{
    let context = match s.session_context {
        Some(c) => encode_context(c),
        None => Json::Null,
    };
    let metadata = match s.metadata {
        Some(v) => v,
        None => Json::Null,
    };
    let mut m: Vec<(String, Json)> = Vec::new();
    m.push(member("id", Json::Str(s.id)));
    m.push(member("title", text_json(s.title)));
    m.push(member("session_status", text_json(s.session_status)));
    m.push(member("type", text_json(s.session_type)));
    m.push(member("created_at", text_json(s.created_at)));
    m.push(member("updated_at", text_json(s.updated_at)));
    m.push(member("environment_id", text_json(s.environment_id)));
    m.push(member("session_context", context));
    m.push(member("metadata", metadata));
    m.push(member("active_mount_paths", list_json(s.active_mount_paths)));
    proof {
        lemma_session_key_shapes();
        reveal_with_fuel(member_from, 11);
    }
    Json::Object(m)
}

} // verus!
