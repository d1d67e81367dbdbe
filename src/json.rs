//! A JSON value held as plain data, with member lookup.
//!
//! Objects keep their members in order; a lookup takes the first member
//! with the given key.

use vstd::prelude::*;
use crate::text::str_eq;

verus! {

/// One JSON value.
#[derive(Debug)]
pub enum Json {
    Null,
    Bool(bool),
    /// A non-negative integer.
    UInt(u64),
    /// A negative integer.
    Int(i64),
    /// Any other number, kept in its source text.
    Decimal(String),
    Str(String),
    Array(Vec<Json>),
    Object(Vec<(String, Json)>),
}

/// The first member of `fields`, at index `i` or later, whose key is `key`.
pub open spec fn member_from(fields: Seq<(String, Json)>, key: Seq<char>, i: int) -> Option<Json>
    decreases fields.len() - i,
{
    if i < 0 || i >= fields.len() {
        None
    } else if fields[i].0@ == key {
        Some(fields[i].1)
    } else {
        member_from(fields, key, i + 1)
    }
}

/// The value under `key` when `j` is an object that has one.
pub open spec fn field(j: Json, key: Seq<char>) -> Option<Json> {
    match j {
        Json::Object(fields) => member_from(fields@, key, 0),
        _ => None,
    }
}

/// The string under `key`, if that member is a string.
pub open spec fn str_at(j: Json, key: Seq<char>) -> Option<Seq<char>> {
    match field(j, key) {
        Some(Json::Str(s)) => Some(s@),
        _ => None,
    }
}

/// The non-negative integer under `key`, if that member is one.
pub open spec fn u64_at(j: Json, key: Seq<char>) -> Option<u64> {
    match field(j, key) {
        Some(Json::UInt(n)) => Some(n),
        _ => None,
    }
}

/// The boolean under `key`, if that member is one.
pub open spec fn bool_at(j: Json, key: Seq<char>) -> Option<bool> {
    match field(j, key) {
        Some(Json::Bool(b)) => Some(b),
        _ => None,
    }
}

/// Every element of `items` is a string.
pub open spec fn all_strings(items: Seq<Json>) -> bool {
    forall|i: int| 0 <= i < items.len() ==> items[i] is Str
}

/// The texts of a sequence of string values.
pub open spec fn string_texts(items: Seq<Json>) -> Seq<Seq<char>> {
    items.map_values(|v: Json| match v {
        Json::Str(s) => s@,
        _ => Seq::empty(),
    })
}

/// The list of strings under `key`, if that member is an array of strings.
pub open spec fn str_list_at(j: Json, key: Seq<char>) -> Option<Seq<Seq<char>>> {
    match field(j, key) {
        Some(Json::Array(items)) => if all_strings(items@) {
            Some(string_texts(items@))
        } else {
            None
        },
        _ => None,
    }
}

/// The views of an optional string.
pub open spec fn opt_text(o: Option<String>) -> Option<Seq<char>> {
    match o {
        Some(s) => Some(s@),
        None => None,
    }
}

/// The views of a list of strings.
pub open spec fn texts(v: Seq<String>) -> Seq<Seq<char>> {
    v.map_values(|s: String| s@)
}

/// The views of an optional list of strings.
pub open spec fn opt_texts(o: Option<Vec<String>>) -> Option<Seq<Seq<char>>> {
    match o {
        Some(v) => Some(texts(v@)),
        None => None,
    }
}

/// Index of the first member of `fields`, at `i` or later, whose key is `key`.
pub open spec fn member_index(fields: Seq<(String, Json)>, key: Seq<char>, i: int) -> int
    decreases fields.len() - i,
{
    if i < 0 || i >= fields.len() {
        -1
    } else if fields[i].0@ == key {
        i
    } else {
        member_index(fields, key, i + 1)
    }
}

pub proof fn lemma_member_index(fields: Seq<(String, Json)>, key: Seq<char>, i: int)
    requires
        0 <= i,
    ensures
        member_index(fields, key, i) == -1 ==> member_from(fields, key, i) is None,
        member_index(fields, key, i) != -1 ==> {
            let k = member_index(fields, key, i);
            &&& i <= k < fields.len()
            &&& fields[k].0@ == key
            &&& member_from(fields, key, i) == Some(fields[k].1)
        },
    decreases fields.len() - i,
{
    if i < fields.len() && fields[i].0@ != key {
        lemma_member_index(fields, key, i + 1);
    }
}

/// Moves out the value of the first member of `fields` with key `key`,
/// leaving the members in order without it.
pub fn take_member(fields: &mut Vec<(String, Json)>, key: &str) -> (r: Option<Json>)
    ensures
        r == member_from(old(fields)@, key@, 0),
        r is None ==> final(fields)@ == old(fields)@,
        r is Some ==> final(fields)@ == old(fields)@.remove(member_index(old(fields)@, key@, 0)),
{
    proof {
        lemma_member_index(fields@, key@, 0);
    }
    let mut i: usize = 0;
    while i < fields.len()
        invariant
            fields@ == old(fields)@,
            i <= fields@.len(),
            member_from(fields@, key@, 0) == member_from(fields@, key@, i as int),
            member_index(fields@, key@, 0) == member_index(fields@, key@, i as int),
        decreases fields@.len() - i,
    {
        if str_eq(fields[i].0.as_str(), key) {
            assert(member_index(fields@, key@, i as int) == i);
            let (_, v) = fields.remove(i);
            return Some(v);
        }
        i = i + 1;
    }
    None
}

/// The member of `j` under `key`, if `j` is an object that has one.
pub fn get<'a>(j: &'a Json, key: &str) -> (r: Option<&'a Json>)
    ensures
        match r {
            Some(v) => field(*j, key@) == Some(*v),
            None => field(*j, key@) is None,
        },
{
    match j {
        Json::Object(fields) => {
            let mut i: usize = 0;
            while i < fields.len()
                invariant
                    i <= fields@.len(),
                    field(*j, key@) == member_from(fields@, key@, 0),
                    member_from(fields@, key@, 0) == member_from(fields@, key@, i as int),
                decreases fields@.len() - i,
            {
                if str_eq(fields[i].0.as_str(), key) {
                    let v = &fields[i].1;
                    assert(member_from(fields@, key@, i as int) == Some(fields@[i as int].1));
                    assert(*v == fields@[i as int].1);
                    return Some(v);
                }
                i = i + 1;
            }
            None
        },
        _ => None,
    }
}

/// The string under `key`.
pub fn get_str(j: &Json, key: &str) -> (r: Option<String>)
    ensures
        opt_text(r) == str_at(*j, key@),
{
    match get(j, key) {
        Some(Json::Str(s)) => Some(s.clone()),
        _ => None,
    }
}

/// The non-negative integer under `key`.
pub fn get_u64(j: &Json, key: &str) -> (r: Option<u64>)
    ensures
        r == u64_at(*j, key@),
{
    match get(j, key) {
        Some(Json::UInt(n)) => Some(*n),
        _ => None,
    }
}

/// The boolean under `key`.
pub fn get_bool(j: &Json, key: &str) -> (r: Option<bool>)
    ensures
        r == bool_at(*j, key@),
{
    match get(j, key) {
        Some(Json::Bool(b)) => Some(*b),
        _ => None,
    }
}

/// The strings of an array of strings, or `None` when some element is not one.
pub fn string_list(items: &Vec<Json>) -> (r: Option<Vec<String>>)
    ensures
        match r {
            Some(v) => all_strings(items@) && texts(v@) == string_texts(items@),
            None => !all_strings(items@),
        },
{
    let mut out: Vec<String> = Vec::new();
    let mut i: usize = 0;
    while i < items.len()
        invariant
            i <= items@.len(),
            all_strings(items@.subrange(0, i as int)),
            texts(out@) == string_texts(items@.subrange(0, i as int)),
        decreases items@.len() - i,
    {
        let ghost before = out@;
        match &items[i] {
            Json::Str(s) => {
                out.push(s.clone());
                assert(items@[i as int] == Json::Str(*s));
                assert(out@ == before.push(*s));
            },
            _ => {
                assert(!(items@[i as int] is Str));
                return None;
            },
        }
        i = i + 1;
        assert(items@.subrange(0, i as int) =~= items@.subrange(0, i - 1).push(items@[i - 1]));
        assert(texts(out@) =~= texts(before).push(out@[i - 1]@));
        assert(texts(out@) =~= string_texts(items@.subrange(0, i as int)));
    }
    assert(items@.subrange(0, i as int) =~= items@);
    Some(out)
}

/// The list of strings under `key`.
pub fn get_str_list(j: &Json, key: &str) -> (r: Option<Vec<String>>)
    ensures
        opt_texts(r) == str_list_at(*j, key@),
{
    match get(j, key) {
        Some(Json::Array(items)) => string_list(items),
        _ => None,
    }
}

/// The member under `key`, or `null` when there is none.
pub open spec fn member_or_null(j: Json, key: Seq<char>) -> Json {
    match field(j, key) {
        Some(v) => v,
        None => Json::Null,
    }
}

/// Moves out the member of `j` under `key`.
pub fn take_field(j: Json, key: &str) -> (r: Option<Json>)
    ensures
        r == field(j, key@),
{
    match j {
        Json::Object(mut fields) => take_member(&mut fields, key),
        _ => None,
    }
}

/// Moves out the member of `j` under `key`, or gives `null` when there is none.
pub fn take_or_null(j: Json, key: &str) -> (r: Json)
    ensures
        r == member_or_null(j, key@),
{
    match take_field(j, key) {
        Some(v) => v,
        None => Json::Null,
    }
}

/// The member under `key`, counting a `null` member as absent.
pub open spec fn present(j: Json, key: Seq<char>) -> Option<Json> {
    match field(j, key) {
        Some(Json::Null) => None,
        other => other,
    }
}

/// Moves out the member of `j` under `key`, counting `null` as absent.
pub fn take_present(j: Json, key: &str) -> (r: Option<Json>)
    ensures
        r == present(j, key@),
{
    match take_field(j, key) {
        Some(Json::Null) => None,
        other => other,
    }
}

} // verus!
