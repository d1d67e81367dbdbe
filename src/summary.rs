//! Statistics over a session's events.

use vstd::prelude::*;
use crate::events::{SessionEvent, UserContent, tag_of};

verus! {

/// The position of each variant in the fixed order of `TYPE_NAMES`.
pub open spec fn kind_index(e: SessionEvent) -> int {
    match e {
        SessionEvent::System(_) => 0,
        SessionEvent::User(_) => 1,
        SessionEvent::Assistant(_) => 2,
        SessionEvent::ToolUseSummary(_) => 3,
        SessionEvent::ToolProgress(_) => 4,
        SessionEvent::Result(_) => 5,
        SessionEvent::ControlResponse(_) => 6,
        SessionEvent::EnvManagerLog(_) => 7,
        SessionEvent::Unknown => 8,
    }
}

/// How many of the first `n` events are of the variant at position `k`.
pub open spec fn count_kind(events: Seq<SessionEvent>, k: int, n: int) -> nat
    decreases n,
{
    if n <= 0 || n > events.len() {
        0
    } else if kind_index(events[n - 1]) == k {
        count_kind(events, k, n - 1) + 1
    } else {
        count_kind(events, k, n - 1)
    }
}

fn kind_of(e: &SessionEvent) -> (r: usize)
    ensures
        r == kind_index(*e),
{
    match e {
        SessionEvent::System(_) => 0,
        SessionEvent::User(_) => 1,
        SessionEvent::Assistant(_) => 2,
        SessionEvent::ToolUseSummary(_) => 3,
        SessionEvent::ToolProgress(_) => 4,
        SessionEvent::Result(_) => 5,
        SessionEvent::ControlResponse(_) => 6,
        SessionEvent::EnvManagerLog(_) => 7,
        SessionEvent::Unknown => 8,
    }
}

/// The tag of the variant at position `k` of the fixed order.
pub fn kind_tag(k: usize) -> (r: &'static str)
    requires
        k < 9,
    ensures
        forall|e: SessionEvent| kind_index(e) == k ==> r@ == tag_of(e),
{
    if k == 0 {
        "system"
    } else if k == 1 {
        "user"
    } else if k == 2 {
        "assistant"
    } else if k == 3 {
        "tool_use_summary"
    } else if k == 4 {
        "tool_progress"
    } else if k == 5 {
        "result"
    } else if k == 6 {
        "control_response"
    } else if k == 7 {
        "env_manager_log"
    } else {
        "unknown"
    }
}

/// The number of events of each variant, in the fixed order of `kind_tag`.
pub fn count_by_type(events: &Vec<SessionEvent>) -> (r: Vec<usize>)
    ensures
        r@.len() == 9,
        forall|k: int| 0 <= k < 9 ==> r@[k] == count_kind(events@, k, events@.len() as int),
{
    let mut counts: Vec<usize> = vec![0, 0, 0, 0, 0, 0, 0, 0, 0];
    let mut i: usize = 0;
    while i < events.len()
        invariant
            i <= events@.len(),
            counts@.len() == 9,
            forall|k: int| 0 <= k < 9 ==> counts@[k] == count_kind(events@, k, i as int),
            forall|k: int| 0 <= k < 9 ==> counts@[k] <= i,
        decreases events@.len() - i,
    {
        let k = kind_of(&events[i]);
        let c = counts[k];
        counts.set(k, c + 1);
        i = i + 1;
    }
    counts
}

/// How many of the first `n` flags are set.
pub open spec fn n_set(t: Seq<bool>, n: int) -> int
    decreases n,
{
    if n <= 0 {
        0
    } else {
        n_set(t, n - 1) + if t[n - 1] {
            1int
        } else {
            0int
        }
    }
}

proof fn lemma_n_set_update(t: Seq<bool>, k: int, n: int)
    requires
        0 <= k < t.len(),
        !t[k],
        0 <= n <= t.len(),
    ensures
        n_set(t.update(k, true), n) == n_set(t, n) + if k < n {
            1int
        } else {
            0int
        },
    decreases n,
{
    if n > 0 {
        lemma_n_set_update(t, k, n - 1);
    }
}

proof fn lemma_n_set_bound(t: Seq<bool>, n: int)
    requires
        0 <= n <= t.len(),
    ensures
        0 <= n_set(t, n) <= n,
        n_set(t, n) == n ==> forall|k: int| 0 <= k < n ==> t[k],
    decreases n,
{
    if n > 0 {
        lemma_n_set_bound(t, n - 1);
    }
}

/// One row per variant that occurs: its position in the fixed order and its
/// count, the most frequent first, ties in the fixed order.
pub fn type_rows(events: &Vec<SessionEvent>) -> (r: Vec<(usize, usize)>)
    ensures
        forall|i: int|
            0 <= i < r@.len() ==> r@[i].0 < 9 && r@[i].1 > 0 && r@[i].1 == count_kind(
                events@,
                r@[i].0 as int,
                events@.len() as int,
            ),
        forall|i: int, j: int| 0 <= i < j < r@.len() ==> r@[i].0 != r@[j].0 && r@[i].1 >= r@[j].1,
        forall|i: int, j: int|
            0 <= i < j < r@.len() && r@[i].1 == r@[j].1 ==> r@[i].0 < r@[j].0,
        forall|k: int|
            0 <= k < 9 && count_kind(events@, k, events@.len() as int) > 0 ==> exists|i: int|
                0 <= i < r@.len() && r@[i].0 == k,
{
    let counts = count_by_type(events);
    let mut taken: Vec<bool> = vec![false, false, false, false, false, false, false, false, false];
    let mut out: Vec<(usize, usize)> = Vec::new();
    assert(n_set(taken@, 9) == 0) by {
        reveal_with_fuel(n_set, 10);
    }
    let mut finished = false;
    while out.len() < 9 && !finished
        invariant
            counts@.len() == 9,
            taken@.len() == 9,
            finished ==> forall|m: int| 0 <= m < 9 ==> taken@[m] || counts@[m] == 0,
            forall|k: int| 0 <= k < 9 ==> counts@[k] == count_kind(events@, k, events@.len() as int),
            n_set(taken@, 9) == out@.len(),
            forall|i: int|
                0 <= i < out@.len() ==> out@[i].0 < 9 && taken@[out@[i].0 as int] && out@[i].1 > 0
                    && out@[i].1 == counts@[out@[i].0 as int],
            forall|i: int, j: int|
                0 <= i < j < out@.len() ==> out@[i].0 != out@[j].0 && out@[i].1 >= out@[j].1,
            forall|i: int, j: int|
                0 <= i < j < out@.len() && out@[i].1 == out@[j].1 ==> out@[i].0 < out@[j].0,
            forall|k: int|
                0 <= k < 9 && #[trigger] taken@[k] ==> exists|i: int|
                    0 <= i < out@.len() && out@[i].0 == k,
            forall|i: int, k: int|
                0 <= i < out@.len() && 0 <= k < 9 && !taken@[k] ==> counts@[k] < out@[i].1 || (
                counts@[k] == out@[i].1 && out@[i].0 < k),
        decreases 2 * (9 - out@.len()) + if finished {
            0int
        } else {
            1int
        },
    {
        let mut best: usize = 9;
        let mut k: usize = 0;
        while k < 9
            invariant
                counts@.len() == 9,
                taken@.len() == 9,
                k <= 9,
                best == 9 || (best < k && !taken@[best as int] && counts@[best as int] > 0),
                best == 9 ==> forall|m: int| 0 <= m < k ==> taken@[m] || counts@[m] == 0,
                best < 9 ==> forall|m: int|
                    0 <= m < k && !taken@[m] && counts@[m] > 0 ==> counts@[m] < counts@[best as int]
                        || (counts@[m] == counts@[best as int] && best <= m),
            decreases 9 - k,
        {
            if !taken[k] && counts[k] > 0 && (best == 9 || counts[k] > counts[best]) {
                best = k;
            }
            k = k + 1;
        }
        if best == 9 {
            finished = true;
            continue;
        }
        let ghost before_taken = taken@;
        let ghost before_out = out@;
        proof {
            lemma_n_set_update(taken@, best as int, 9);
        }
        taken.set(best, true);
        out.push((best, counts[best]));
        assert forall|m: int| 0 <= m < 9 && #[trigger] taken@[m] implies exists|i: int|
            0 <= i < out@.len() && out@[i].0 == m by {
            if m != best {
                assert(before_taken[m]);
                let i = choose|i: int| 0 <= i < before_out.len() && before_out[i].0 == m;
                assert(out@[i] == before_out[i]);
            } else {
                assert(out@[out@.len() - 1].0 == m);
            }
        }
        assert forall|i: int, j: int| 0 <= i < j < out@.len() implies out@[i].0 != out@[j].0
            && out@[i].1 >= out@[j].1 by {
            if j == out@.len() - 1 {
                assert(out@[i] == before_out[i]);
                assert(!before_taken[best as int]);
            }
        }
    }
    proof {
        lemma_n_set_bound(taken@, 9);
        assert forall|k: int|
            0 <= k < 9 && count_kind(events@, k, events@.len() as int) > 0 implies exists|i: int|
            0 <= i < out@.len() && out@[i].0 == k by {
            assert(taken@[k]);
        }
    }
    out
}

/// The positions below `n`, in order, of the events that satisfy `p`.
pub open spec fn positions(events: Seq<SessionEvent>, p: spec_fn(SessionEvent) -> bool, n: int) -> Seq<usize>
    decreases n,
{
    if n <= 0 || n > events.len() {
        Seq::empty()
    } else if p(events[n - 1]) {
        positions(events, p, n - 1).push((n - 1) as usize)
    } else {
        positions(events, p, n - 1)
    }
}

/// A tool summary that carries its summary text.
pub open spec fn has_summary(e: SessionEvent) -> bool {
    e matches SessionEvent::ToolUseSummary(x) && x.summary is Some
}

/// A user event whose content is plain text.
pub open spec fn has_user_text(e: SessionEvent) -> bool {
    e matches SessionEvent::User(x) && x.message.content is Text
}

/// The positions, in order, of the tool summaries that carry a summary.
pub fn summary_positions(events: &Vec<SessionEvent>) -> (r: Vec<usize>)
    ensures
        r@ == positions(events@, |e: SessionEvent| has_summary(e), events@.len() as int),
{
    let mut out: Vec<usize> = Vec::new();
    let mut i: usize = 0;
    while i < events.len()
        invariant
            i <= events@.len(),
            out@ == positions(events@, |e: SessionEvent| has_summary(e), i as int),
        decreases events@.len() - i,
    {
        let hit = match &events[i] {
            SessionEvent::ToolUseSummary(x) => match &x.summary {
                Some(_) => true,
                None => false,
            },
            _ => false,
        };
        if hit {
            out.push(i);
        }
        i = i + 1;
    }
    out
}

/// The positions, in order, of the user events whose content is plain text.
pub fn user_text_positions(events: &Vec<SessionEvent>) -> (r: Vec<usize>)
    ensures
        r@ == positions(events@, |e: SessionEvent| has_user_text(e), events@.len() as int),
{
    let mut out: Vec<usize> = Vec::new();
    let mut i: usize = 0;
    while i < events.len()
        invariant
            i <= events@.len(),
            out@ == positions(events@, |e: SessionEvent| has_user_text(e), i as int),
        decreases events@.len() - i,
    {
        let hit = match &events[i] {
            SessionEvent::User(x) => match &x.message.content {
                UserContent::Text(_) => true,
                UserContent::Blocks(_) => false,
            },
            _ => false,
        };
        if hit {
            out.push(i);
        }
        i = i + 1;
    }
    out
}

} // verus!
