//! Loglines of the session ingress endpoint: a flat record whose members
//! not named here are kept, in order, as a side map.

use vstd::prelude::*;
use crate::json::{
    Json, field, str_at, bool_at, opt_text, present, member_index, get_str, get_bool,
    take_member, take_field,
};
use crate::text::str_eq;

verus! {

/// One logline.
#[derive(Debug)]
pub struct Logline {
    pub log_type: Option<String>,
    pub subtype: Option<String>,
    pub content: Option<String>,
    pub timestamp: Option<String>,
    pub git_branch: Option<String>,
    pub session_id: Option<String>,
    pub cwd: Option<String>,
    pub level: Option<String>,
    pub is_meta: Option<bool>,
    pub is_sidechain: Option<bool>,
    pub slug: Option<String>,
    pub compact_metadata: Option<Json>,
    /// Every other member, in order.
    pub extra: Vec<(String, Json)>,
}

/// The member names that a logline reads.
pub open spec fn is_logline_key(k: Seq<char>) -> bool {
    ||| k == "type"@
    ||| k == "subtype"@
    ||| k == "content"@
    ||| k == "timestamp"@
    ||| k == "gitBranch"@
    ||| k == "sessionId"@
    ||| k == "cwd"@
    ||| k == "level"@
    ||| k == "isMeta"@
    ||| k == "isSidechain"@
    ||| k == "slug"@
    ||| k == "compactMetadata"@
}

fn is_known_key(k: &str) -> (r: bool)
    ensures
        r == is_logline_key(k@),
{
    str_eq(k, "type") || str_eq(k, "subtype") || str_eq(k, "content") || str_eq(k, "timestamp")
        || str_eq(k, "gitBranch") || str_eq(k, "sessionId") || str_eq(k, "cwd") || str_eq(
        k,
        "level",
    ) || str_eq(k, "isMeta") || str_eq(k, "isSidechain") || str_eq(k, "slug") || str_eq(
        k,
        "compactMetadata",
    )
}

/// The members among the first `n` whose names a logline does not read.
pub open spec fn unknown_members(fields: Seq<(String, Json)>, n: int) -> Seq<(String, Json)>
    decreases n,
{
    if n <= 0 || n > fields.len() {
        Seq::empty()
    } else if is_logline_key(fields[n - 1].0@) {
        unknown_members(fields, n - 1)
    } else {
        unknown_members(fields, n - 1).push(fields[n - 1])
    }
}

/// The members of `j` that a logline does not read, in order.
pub open spec fn extra_members(j: Json) -> Seq<(String, Json)> {
    match j {
        Json::Object(fields) => unknown_members(fields@, fields@.len() as int),
        _ => Seq::empty(),
    }
}

proof fn lemma_unknown_after_remove(fields: Seq<(String, Json)>, i: int, n: int)
    requires
        0 <= i < fields.len(),
        is_logline_key(fields[i].0@),
        0 <= n <= fields.len(),
    ensures
        n <= i ==> unknown_members(fields.remove(i), n) == unknown_members(fields, n),
        n > i ==> unknown_members(fields.remove(i), n - 1) == unknown_members(fields, n),
    decreases n,
{
    if n > 0 {
        lemma_unknown_after_remove(fields, i, n - 1);
        if n - 1 > i {
            assert(fields.remove(i)[n - 2] == fields[n - 1]);
        } else if n - 1 < i {
            assert(fields.remove(i)[n - 1] == fields[n - 1]);
        }
    }
}

/// `l` is the logline that the record `j` decodes to.
pub open spec fn logline_decoded(l: Logline, j: Json) -> bool {
    &&& opt_text(l.log_type) == str_at(j, "type"@)
    &&& opt_text(l.subtype) == str_at(j, "subtype"@)
    &&& opt_text(l.content) == str_at(j, "content"@)
    &&& opt_text(l.timestamp) == str_at(j, "timestamp"@)
    &&& opt_text(l.git_branch) == str_at(j, "gitBranch"@)
    &&& opt_text(l.session_id) == str_at(j, "sessionId"@)
    &&& opt_text(l.cwd) == str_at(j, "cwd"@)
    &&& opt_text(l.level) == str_at(j, "level"@)
    &&& l.is_meta == bool_at(j, "isMeta"@)
    &&& l.is_sidechain == bool_at(j, "isSidechain"@)
    &&& opt_text(l.slug) == str_at(j, "slug"@)
    &&& l.compact_metadata == present(j, "compactMetadata"@)
    &&& l.extra@ == extra_members(j)
}

/// Decodes a logline, keeping unread members.
pub fn decode_logline(j: Json) -> (r: Logline)
    ensures
        logline_decoded(r, j),
{
    let log_type = get_str(&j, "type");
    let subtype = get_str(&j, "subtype");
    let content = get_str(&j, "content");
    let timestamp = get_str(&j, "timestamp");
    let git_branch = get_str(&j, "gitBranch");
    let session_id = get_str(&j, "sessionId");
    let cwd = get_str(&j, "cwd");
    let level = get_str(&j, "level");
    let is_meta = get_bool(&j, "isMeta");
    let is_sidechain = get_bool(&j, "isSidechain");
    let slug = get_str(&j, "slug");
    let mut fields = match j {
        Json::Object(fields) => fields,
        _ => Vec::new(),
    };
    let ghost orig = fields@;
    let compact = take_member(&mut fields, "compactMetadata");
    let compact_metadata = match compact {
        Some(Json::Null) => None,
        other => other,
    };
    proof {
        reveal_strlit("compactMetadata");
        if compact is Some {
            let i = member_index(orig, "compactMetadata"@, 0);
            crate::json::lemma_member_index(orig, "compactMetadata"@, 0);
            lemma_unknown_after_remove(orig, i, orig.len() as int);
        }
    }
    let ghost rest = fields@;
    let total = fields.len();
    let mut extra: Vec<(String, Json)> = Vec::new();
    let mut k: usize = 0;
    while fields.len() > 0
        invariant
            k + fields@.len() == rest.len(),
            rest.len() == total,
            fields@ == rest.subrange(k as int, rest.len() as int),
            extra@ == unknown_members(rest, k as int),
        decreases fields@.len(),
    {
        let m = fields.remove(0);
        assert(m == rest[k as int]);
        if !is_known_key(m.0.as_str()) {
            extra.push(m);
        }
        k = k + 1;
        assert(fields@ =~= rest.subrange(k as int, rest.len() as int));
    }
    Logline {
        log_type,
        subtype,
        content,
        timestamp,
        git_branch,
        session_id,
        cwd,
        level,
        is_meta,
        is_sidechain,
        slug,
        compact_metadata,
        extra,
    }
}

/// The ingress answer.
#[derive(Debug)]
pub struct IngressResponse {
    pub loglines: Vec<Logline>,
}

/// Decodes the ingress answer: its `loglines` array, each element a logline.
pub fn decode_loglines(j: Json) -> (r: Option<IngressResponse>)
    ensures
        match r {
            Some(resp) => field(j, "loglines"@) matches Some(Json::Array(items)) && resp.loglines@.len() == items@.len()
                && forall|k: int| 0 <= k < items@.len() ==> logline_decoded(#[trigger] resp.loglines@[k], items@[k]),
            None => !(field(j, "loglines"@) matches Some(Json::Array(_))),
        },
{
    let items = match take_field(j, "loglines") {
        Some(Json::Array(items)) => items,
        _ => {
            return None;
        },
    };
    let ghost orig = items@;
    let mut rest = items;
    let mut out: Vec<Logline> = Vec::new();
    while rest.len() > 0
        invariant
            out@.len() + rest@.len() == orig.len(),
            rest@ == orig.subrange(out@.len() as int, orig.len() as int),
            forall|k: int| 0 <= k < out@.len() ==> logline_decoded(#[trigger] out@[k], orig[k]),
        decreases rest@.len(),
    {
        let x = rest.remove(0);
        out.push(decode_logline(x));
        assert(rest@ =~= orig.subrange(out@.len() as int, orig.len() as int));
    }
    Some(IngressResponse { loglines: out })
}

} // verus!
