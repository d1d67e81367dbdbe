//! Filtering and case-insensitive search over decoded events.

use vstd::prelude::*;
use crate::json::opt_text;
use crate::text::{is_substring, lower_of, lowercase, contains_text, str_eq};
use crate::json_text::{json_text, to_json_string};
use crate::events::{SessionEvent, ContentBlock, UserContent, tag_of, created_at_of, is_conversation_event};
use crate::timefmt::{Instant, pair_of, earlier, rfc3339_instant, parse_timestamp, is_earlier};

verus! {

/// Some text of `surface` holds `needle` once both are lower-cased.
pub open spec fn text_mentions(surface: Seq<char>, needle_lower: Seq<char>) -> bool {
    is_substring(needle_lower, lower_of(surface))
}

pub open spec fn opt_mentions(surface: Option<Seq<char>>, needle_lower: Seq<char>) -> bool {
    surface matches Some(t) && text_mentions(t, needle_lower)
}

/// The searchable text of a block holds the (lower-cased) needle: its text,
/// its reasoning, a tool's name or JSON input, or a tool result's JSON content.
pub open spec fn block_mentions(b: ContentBlock, needle_lower: Seq<char>) -> bool {
    match b {
        ContentBlock::Text(t) => opt_mentions(opt_text(t.text), needle_lower),
        ContentBlock::Thinking(t) => opt_mentions(opt_text(t.thinking), needle_lower),
        ContentBlock::ToolUse(t) => opt_mentions(opt_text(t.name), needle_lower) || (
        t.input matches Some(v) && text_mentions(json_text(v), needle_lower)),
        ContentBlock::ToolResult(t) => t.content matches Some(v) && text_mentions(
            json_text(v),
            needle_lower,
        ),
        ContentBlock::Other => false,
    }
}

/// The searchable text of an event holds the (lower-cased) needle. Only
/// plain-text user content, assistant blocks, tool summaries, environment
/// log content and system subtypes are searched.
pub open spec fn event_mentions(e: SessionEvent, needle_lower: Seq<char>) -> bool {
    match e {
        SessionEvent::User(x) => x.message.content matches UserContent::Text(s) && text_mentions(
            s@,
            needle_lower,
        ),
        SessionEvent::Assistant(x) => exists|k: int|
            0 <= k < x.message.content@.len() && block_mentions(
                #[trigger] x.message.content@[k],
                needle_lower,
            ),
        SessionEvent::ToolUseSummary(x) => opt_mentions(opt_text(x.summary), needle_lower),
        SessionEvent::EnvManagerLog(x) => x.data matches Some(d) && opt_mentions(
            opt_text(d.content),
            needle_lower,
        ),
        SessionEvent::System(x) => opt_mentions(opt_text(x.subtype), needle_lower),
        _ => false,
    }
}

fn text_holds(surface: &str, needle_lower: &str) -> (r: bool)
    ensures
        r == text_mentions(surface@, needle_lower@),
{
    let l = lowercase(surface);
    contains_text(l.as_str(), needle_lower)
}

fn opt_holds(surface: &Option<String>, needle_lower: &str) -> (r: bool)
    ensures
        r == opt_mentions(opt_text(*surface), needle_lower@),
{
    match surface {
        Some(s) => text_holds(s.as_str(), needle_lower),
        None => false,
    }
}

fn block_holds(b: &ContentBlock, needle_lower: &str) -> (r: bool)
    ensures
        r == block_mentions(*b, needle_lower@),
{
    match b {
        ContentBlock::Text(t) => opt_holds(&t.text, needle_lower),
        ContentBlock::Thinking(t) => opt_holds(&t.thinking, needle_lower),
        ContentBlock::ToolUse(t) => {
            if opt_holds(&t.name, needle_lower) {
                return true;
            }
            match &t.input {
                Some(v) => {
                    let s = to_json_string(v);
                    text_holds(s.as_str(), needle_lower)
                },
                None => false,
            }
        },
        ContentBlock::ToolResult(t) => match &t.content {
            Some(v) => {
                let s = to_json_string(v);
                text_holds(s.as_str(), needle_lower)
            },
            None => false,
        },
        ContentBlock::Other => false,
    }
}

/// Whether the event's searchable text holds `needle`, ignoring case.
pub fn event_contains_text(event: &SessionEvent, needle: &str) -> (r: bool)
    ensures
        r == event_mentions(*event, lower_of(needle@)),
{
    let nl = lowercase(needle);
    event_holds(event, nl.as_str())
}

/// Whether the event's searchable text holds `needle_lower`, an already
/// lower-cased needle.
pub fn event_holds(event: &SessionEvent, needle_lower: &str) -> (r: bool)
    ensures
        r == event_mentions(*event, needle_lower@),
{
    match event {
        SessionEvent::User(x) => match &x.message.content {
            UserContent::Text(s) => text_holds(s.as_str(), needle_lower),
            UserContent::Blocks(_) => false,
        },
        SessionEvent::Assistant(x) => {
            let blocks = &x.message.content;
            let mut i: usize = 0;
            while i < blocks.len()
                invariant
                    i <= blocks@.len(),
                    event_mentions(*event, needle_lower@) == (exists|k: int|
                        0 <= k < blocks@.len() && block_mentions(
                            #[trigger] blocks@[k],
                            needle_lower@,
                        )),
                    forall|k: int| 0 <= k < i ==> !block_mentions(#[trigger] blocks@[k], needle_lower@),
                decreases blocks@.len() - i,
            {
                if block_holds(&blocks[i], needle_lower) {
                    assert(block_mentions(blocks@[i as int], needle_lower@));
                    return true;
                }
                i = i + 1;
            }
            false
        },
        SessionEvent::ToolUseSummary(x) => opt_holds(&x.summary, needle_lower),
        SessionEvent::EnvManagerLog(x) => match &x.data {
            Some(d) => opt_holds(&d.content, needle_lower),
            None => false,
        },
        SessionEvent::System(x) => opt_holds(&x.subtype, needle_lower),
        _ => false,
    }
}

/// Search ignores case: two needles with the same lower-case form match the
/// same events.
pub proof fn lemma_search_ignores_case(e: SessionEvent, a: Seq<char>, b: Seq<char>)
    requires
        lower_of(a) == lower_of(b),
    ensures
        event_mentions(e, lower_of(a)) == event_mentions(e, lower_of(b)),
{
}

/// Whether a timestamp lies within the optional bounds: an event without a
/// timestamp, or whose timestamp does not parse, is always within them.
pub open spec fn within_range(
    created: Option<Seq<char>>,
    after: Option<(i64, u32)>,
    before: Option<(i64, u32)>,
) -> bool {
    match created {
        None => true,
        Some(t) => match rfc3339_instant(t) {
            None => true,
            Some(x) => !(after matches Some(a) && earlier(x, a)) && !(before matches Some(b)
                && earlier(b, x)),
        },
    }
}

pub open spec fn opt_pair(i: Option<Instant>) -> Option<(i64, u32)> {
    match i {
        Some(x) => Some(pair_of(x)),
        None => None,
    }
}

/// Whether an instant lies within the optional bounds: no instant (absent or
/// unparsed timestamp) always does.
pub open spec fn instant_within(x: Option<(i64, u32)>, after: Option<(i64, u32)>, before: Option<(i64, u32)>) -> bool {
    match x {
        None => true,
        Some(x) => !(after matches Some(a) && earlier(x, a)) && !(before matches Some(b) && earlier(b, x)),
    }
}

/// Whether the (parsed) timestamp lies within the optional bounds; a bound is
/// inclusive.
pub fn is_within(x: Option<Instant>, after: Option<Instant>, before: Option<Instant>) -> (r: bool)
    ensures
        r == instant_within(opt_pair(x), opt_pair(after), opt_pair(before)),
{
    let x = match x {
        Some(x) => x,
        None => {
            return true;
        },
    };
    if let Some(a) = after {
        if is_earlier(x, a) {
            return false;
        }
    }
    if let Some(b) = before {
        if is_earlier(b, x) {
            return false;
        }
    }
    true
}

/// Whether text `created` lies within the optional bounds.
pub fn in_time_range(created: Option<&str>, after: Option<Instant>, before: Option<Instant>) -> (r:
    bool)
    ensures
        r == within_range(
            match created {
                Some(t) => Some(t@),
                None => None,
            },
            opt_pair(after),
            opt_pair(before),
        ),
{
    let x = match created {
        Some(t) => parse_timestamp(t),
        None => None,
    };
    is_within(x, after, before)
}

/// A time-range predicate never drops an event whose timestamp is absent or
/// does not parse, whatever the bounds.
pub proof fn lemma_unparsed_time_never_excluded(
    e: SessionEvent,
    after: Option<(i64, u32)>,
    before: Option<(i64, u32)>,
)
    requires
        created_at_of(e) is None || rfc3339_instant(created_at_of(e)->0) is None,
    ensures
        within_range(created_at_of(e), after, before),
{
}

/// The predicates of an event query; absent ones hold of every event.
#[derive(Debug)]
pub struct EventFilter {
    pub event_type: Option<String>,
    pub conversation_only: bool,
    pub search: Option<String>,
    pub after: Option<Instant>,
    pub before: Option<Instant>,
}

/// `e` satisfies every predicate of `f`.
pub open spec fn passes(e: SessionEvent, f: EventFilter) -> bool {
    &&& (f.event_type matches Some(t) ==> tag_of(e) == t@)
    &&& (f.conversation_only ==> is_conversation_event(e))
    &&& (f.search matches Some(s) ==> event_mentions(e, lower_of(s@)))
    &&& within_range(created_at_of(e), opt_pair(f.after), opt_pair(f.before))
}

/// Whether the event satisfies every predicate of the filter.
pub fn event_passes(e: &SessionEvent, f: &EventFilter) -> (r: bool)
    ensures
        r == passes(*e, *f),
{
    if let Some(t) = &f.event_type {
        if !str_eq(e.event_type(), t.as_str()) {
            return false;
        }
    }
    if f.conversation_only && !e.is_conversation() {
        return false;
    }
    if let Some(s) = &f.search {
        if !event_contains_text(e, s.as_str()) {
            return false;
        }
    }
    in_time_range(e.created_at(), f.after, f.before)
}

/// The positions, in order, of the events that satisfy the filter.
pub fn filter_events(events: &Vec<SessionEvent>, f: &EventFilter) -> (r: Vec<usize>)
    ensures
        forall|k: int| 0 <= k < r@.len() ==> r@[k] < events@.len() && passes(events@[r@[k] as int], *f),
        forall|k: int, l: int| 0 <= k < l < r@.len() ==> r@[k] < r@[l],
        forall|i: int| 0 <= i < events@.len() && passes(events@[i], *f) ==> r@.contains(i as usize),
{
    let mut out: Vec<usize> = Vec::new();
    let mut i: usize = 0;
    while i < events.len()
        invariant
            i <= events@.len(),
            forall|k: int| 0 <= k < out@.len() ==> out@[k] < i && passes(events@[out@[k] as int], *f),
            forall|k: int, l: int| 0 <= k < l < out@.len() ==> out@[k] < out@[l],
            forall|j: int| 0 <= j < i && passes(events@[j], *f) ==> out@.contains(j as usize),
        decreases events@.len() - i,
    {
        let ghost before = out@;
        if event_passes(&events[i], f) {
            out.push(i);
            assert(out@[out@.len() - 1] == i);
        }
        assert forall|j: int| 0 <= j < i + 1 && passes(events@[j], *f) implies out@.contains(
            j as usize,
        ) by {
            if j == i {
                assert(out@[out@.len() - 1] == i);
            } else {
                assert(before.contains(j as usize));
                let idx = choose|idx: int| 0 <= idx < before.len() && before[idx] == j as usize;
                assert(out@[idx] == j as usize);
            }
        }
        i = i + 1;
    }
    out
}

} // verus!
