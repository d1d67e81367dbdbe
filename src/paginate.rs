//! Cursor-based pagination over a session's event stream, as a state machine:
//! the caller asks which page to fetch next, fetches it, and hands the page
//! back. Fetching stops when a page does not say that more follow, or when a
//! nonzero cap on the number of events has been reached; the events past the
//! cap on the last page are dropped.

use vstd::prelude::*;
use crate::json::{Json, str_at, bool_at, opt_text};
use crate::events::SessionEvent;
use crate::decode::{decode_event, event_decoded};

verus! {

/// One page of the events endpoint.
#[derive(Debug)]
pub struct EventsResponse {
    pub data: Vec<SessionEvent>,
    pub first_id: Option<String>,
    pub last_id: Option<String>,
    pub has_more: Option<bool>,
}

/// What a page contributes to pagination.
pub struct PageView {
    pub data: Seq<SessionEvent>,
    pub last_id: Option<Seq<char>>,
    pub has_more: Option<bool>,
}

impl View for EventsResponse {
    type V = PageView;

    open spec fn view(&self) -> PageView {
        PageView { data: self.data@, last_id: opt_text(self.last_id), has_more: self.has_more }
    }
}

/// The state of a paginated fetch.
pub struct PagerView {
    /// The cap on the number of events; zero means no cap.
    pub max: nat,
    pub events: Seq<SessionEvent>,
    /// The cursor for the next request; absent for the first.
    pub cursor: Option<Seq<char>>,
    /// How many pages have been fetched.
    pub pages: nat,
    pub done: bool,
}

/// The state before the first request.
pub open spec fn initial(max: nat) -> PagerView {
    PagerView { max, events: Seq::empty(), cursor: None, pages: 0, done: false }
}

/// The state after one more page has arrived.
pub open spec fn after_page(s: PagerView, p: PageView) -> PagerView {
    let all = s.events + p.data;
    let capped = s.max > 0 && all.len() >= s.max;
    PagerView {
        max: s.max,
        events: if capped { all.take(s.max as int) } else { all },
        cursor: p.last_id,
        pages: s.pages + 1,
        done: capped || p.has_more != Some(true),
    }
}

/// The state after offering `pages` in order; pages offered once the fetch
/// is done are never requested.
pub open spec fn run(s: PagerView, pages: Seq<PageView>) -> PagerView
    decreases pages.len(),
{
    if pages.len() == 0 || s.done {
        s
    } else {
        run(after_page(s, pages[0]), pages.drop_first())
    }
}

/// The events of `pages`, in order.
pub open spec fn all_data(pages: Seq<PageView>) -> Seq<SessionEvent>
    decreases pages.len(),
{
    if pages.len() == 0 {
        Seq::empty()
    } else {
        pages[0].data + all_data(pages.drop_first())
    }
}

/// What the caller should do next.
pub enum FetchAction {
    /// Request page number `page` (counted from one), after `after_id` if any.
    Fetch { after_id: Option<String>, page: usize },
    /// The fetch is complete.
    Done,
}

/// A paginated fetch in progress.
pub struct Paginator {
    max_events: usize,
    events: Vec<SessionEvent>,
    cursor: Option<String>,
    pages: usize,
    done: bool,
}

impl View for Paginator {
    type V = PagerView;

    closed spec fn view(&self) -> PagerView {
        PagerView {
            max: self.max_events as nat,
            events: self.events@,
            cursor: opt_text(self.cursor),
            pages: self.pages as nat,
            done: self.done,
        }
    }
}

impl Paginator {
    /// Starts a fetch of at most `max_events` events (zero: all of them).
    pub fn new(max_events: usize) -> (r: Self)
        ensures
            r@ == initial(max_events as nat),
    {
        let r = Paginator { max_events, events: Vec::new(), cursor: None, pages: 0, done: false };
        assert(r@.events =~= Seq::<SessionEvent>::empty());
        r
    }

    /// The next request to make, or `Done`.
    pub fn next_action(&self) -> (r: FetchAction)
        requires
            self@.pages < usize::MAX,
        ensures
            match r {
                FetchAction::Fetch { after_id, page } => {
                    &&& !self@.done
                    &&& opt_text(after_id) == self@.cursor
                    &&& page == self@.pages + 1
                },
                FetchAction::Done => self@.done,
            },
    {
        if self.done {
            FetchAction::Done
        } else {
            let after_id = match &self.cursor {
                Some(c) => Some(c.clone()),
                None => None,
            };
            FetchAction::Fetch { after_id, page: self.pages + 1 }
        }
    }

    /// Takes in the page just fetched.
    pub fn on_page(&mut self, page: EventsResponse)
        requires
            !old(self)@.done,
            old(self)@.pages < usize::MAX,
        ensures
            final(self)@ == after_page(old(self)@, page@),
    {
        let ghost before = self@;
        let EventsResponse { data, first_id: _, last_id, has_more } = page;
        let mut data = data;
        self.events.append(&mut data);
        let capped = self.max_events > 0 && self.events.len() >= self.max_events;
        if capped {
            self.events.truncate(self.max_events);
        }
        self.cursor = last_id;
        self.pages = self.pages + 1;
        self.done = capped || !matches!(has_more, Some(true));
        assert(self@.events =~= after_page(before, page@).events);
    }

    /// How many pages have been taken in.
    pub fn pages_fetched(&self) -> (r: usize)
        ensures
            r == self@.pages,
    {
        self.pages
    }

    /// Whether the fetch is complete.
    pub fn is_done(&self) -> (r: bool)
        ensures
            r == self@.done,
    {
        self.done
    }

    /// The events gathered so far.
    pub fn into_events(self) -> (r: Vec<SessionEvent>)
        ensures
            r@ == self@.events,
    {
        self.events
    }
}

/// Why a page could not be read.
#[derive(Debug, Clone, PartialEq, Eq)]
pub enum PageError {
    /// The page is not an object with a `data` array.
    NotAPage,
}

/// Decodes a page of the events endpoint. It fails only when the envelope is
/// not an object with a `data` array; every record in it decodes.
pub fn decode_events_page(j: Json) -> (r: Result<EventsResponse, PageError>)
    ensures
        match r {
            Ok(p) => {
                &&& crate::json::field(j, "data"@) matches Some(Json::Array(items))
                &&& p.data@.len() == items@.len()
                &&& forall|k: int|
                    0 <= k < items@.len() ==> event_decoded(#[trigger] p.data@[k], items@[k])
                &&& opt_text(p.first_id) == str_at(j, "first_id"@)
                &&& opt_text(p.last_id) == str_at(j, "last_id"@)
                &&& p.has_more == bool_at(j, "has_more"@)
            },
            Err(_) => !(crate::json::field(j, "data"@) matches Some(Json::Array(_))),
        },
{
    let first_id = crate::json::get_str(&j, "first_id");
    let last_id = crate::json::get_str(&j, "last_id");
    let has_more = crate::json::get_bool(&j, "has_more");
    let items = match crate::json::take_field(j, "data") {
        Some(Json::Array(items)) => items,
        _ => {
            return Err(PageError::NotAPage);
        },
    };
    let ghost orig = items@;
    let mut rest = items;
    let mut data: Vec<SessionEvent> = Vec::new();
    while rest.len() > 0
        invariant
            data@.len() + rest@.len() == orig.len(),
            rest@ == orig.subrange(data@.len() as int, orig.len() as int),
            forall|k: int| 0 <= k < data@.len() ==> event_decoded(#[trigger] data@[k], orig[k]),
        decreases rest@.len(),
    {
        let x = rest.remove(0);
        data.push(decode_event(x));
        assert(rest@ =~= orig.subrange(data@.len() as int, orig.len() as int));
    }
    Ok(EventsResponse { data, first_id, last_id, has_more })
}

proof fn lemma_run_capped(s: PagerView, pages: Seq<PageView>)
    requires
        s.max > 0,
        !s.done,
        s.events.len() < s.max,
        (s.events + all_data(pages)).len() >= s.max,
        forall|i: int| 0 <= i < pages.len() - 1 ==> #[trigger] pages[i].has_more == Some(true),
    ensures
        ({
            let r = run(s, pages);
            &&& r.done
            &&& r.events == (s.events + all_data(pages)).take(s.max as int)
            &&& s.pages + 1 <= r.pages <= s.pages + pages.len()
            &&& (s.events + all_data(pages.take(r.pages - s.pages))).len() >= s.max
            &&& (s.events + all_data(pages.take(r.pages - s.pages - 1))).len() < s.max
        }),
    decreases pages.len(),
{
    assert(pages.len() > 0) by {
        if pages.len() == 0 {
            assert(all_data(pages) =~= Seq::<SessionEvent>::empty());
            assert(s.events + all_data(pages) =~= s.events);
        }
    }
    let rest = pages.drop_first();
    let t = after_page(s, pages[0]);
    assert(all_data(pages) == pages[0].data + all_data(rest));
    assert(s.events + all_data(pages) =~= (s.events + pages[0].data) + all_data(rest));
    assert(pages.take(1).drop_first() =~= Seq::<PageView>::empty());
    assert(all_data(pages.take(1)) =~= pages[0].data) by {
        assert(all_data(pages.take(1).drop_first()) =~= Seq::<SessionEvent>::empty());
    }
    assert(pages.take(0) =~= Seq::<PageView>::empty());
    assert(all_data(pages.take(0)) =~= Seq::<SessionEvent>::empty());
    if (s.events + pages[0].data).len() >= s.max {
        assert(t.done);
        assert(run(t, rest) == t);
        assert((s.events + all_data(pages)).take(s.max as int) =~= (s.events
            + pages[0].data).take(s.max as int));
        assert(s.events + all_data(pages.take(1)) =~= s.events + pages[0].data);
        assert(s.events + all_data(pages.take(0)) =~= s.events);
    } else {
        assert(pages.len() > 1);
        assert(pages[0].has_more == Some(true));
        assert(!t.done);
        assert(t.events == s.events + pages[0].data);
        assert forall|i: int| 0 <= i < rest.len() - 1 implies #[trigger] rest[i].has_more == Some(
            true,
        ) by {
            assert(rest[i] == pages[i + 1]);
        }
        lemma_run_capped(t, rest);
        let r = run(t, rest);
        assert(run(s, pages) == r);
        let k = (r.pages - s.pages) as int;
        assert(pages.take(k).drop_first() =~= rest.take(k - 1));
        assert(pages.take(k - 1).drop_first() =~= rest.take(k - 2)) by {
            if k - 1 == 0 {
            }
        }
        assert(all_data(pages.take(k)) == pages[0].data + all_data(rest.take(k - 1)));
        assert(s.events + all_data(pages.take(k)) =~= t.events + all_data(rest.take(k - 1)));
        if k - 1 >= 1 {
            assert(all_data(pages.take(k - 1)) == pages[0].data + all_data(rest.take(k - 2)));
            assert(s.events + all_data(pages.take(k - 1)) =~= t.events + all_data(
                rest.take(k - 2),
            ));
        }
    }
}

/// With a cap of `n > 0` events and pages that together hold at least `n`
/// events, each but the last saying that more follow, the fetch ends with
/// exactly the first `n` events: the tail of the last fetched page is
/// dropped, and no page is requested after the one that reached the cap.
pub proof fn lemma_cap_yields_exactly_n(n: nat, pages: Seq<PageView>)
    requires
        n > 0,
        all_data(pages).len() >= n,
        forall|i: int| 0 <= i < pages.len() - 1 ==> #[trigger] pages[i].has_more == Some(true),
    ensures
        ({
            let r = run(initial(n), pages);
            &&& r.done
            &&& r.events.len() == n
            &&& r.events == all_data(pages).take(n as int)
            &&& 1 <= r.pages <= pages.len()
            &&& all_data(pages.take(r.pages as int)).len() >= n
            &&& all_data(pages.take(r.pages - 1)).len() < n
        }),
{
    let s = initial(n);
    assert(s.events + all_data(pages) =~= all_data(pages));
    lemma_run_capped(s, pages);
    let r = run(s, pages);
    assert(s.events + all_data(pages.take(r.pages as int)) =~= all_data(pages.take(r.pages as int)));
    assert(s.events + all_data(pages.take(r.pages - 1)) =~= all_data(pages.take(r.pages - 1)));
}

/// When the first page does not say that more follow, exactly one page is
/// fetched, whatever the cap.
pub proof fn lemma_single_page_when_no_more(n: nat, pages: Seq<PageView>)
    requires
        pages.len() >= 1,
        pages[0].has_more != Some(true),
    ensures
        run(initial(n), pages).pages == 1,
        run(initial(n), pages).done,
{
    let t = after_page(initial(n), pages[0]);
    assert(t.done);
    assert(run(t, pages.drop_first()) == t);
}

} // verus!
