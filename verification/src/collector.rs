//! The identifier collector: drives the paginated list read, one page at a
//! time, accumulating every matching member identifier before any mutation is
//! issued. An empty page is the sole termination signal; any gateway failure
//! ends the run with that failure and no partial result.
//!
//! The collector is a state machine. The unverified front end issues one HTTP
//! page request per step, at the offset the collector asks for, and hands the
//! decoded result back to [`Collector::on_result`].

use vstd::prelude::*;
use crate::error::FetchIdsError;
use crate::models::MailchimpMember;
use crate::models::member_ids;
use crate::models::member_views;
use crate::models::id_views;

verus! {

/// Where enumeration stands: still requesting pages, finished after an empty
/// page, or stopped by a gateway failure.
pub ghost enum CollectorPhase {
    Running,
    Done,
    Failed(FetchIdsError),
}

/// The ghost image of the collector: the configured page size, every page
/// received so far (one entry per answered request, in request order, each a
/// sequence of member identifiers), and the phase.
pub ghost struct CollectorView {
    pub page_size: int,
    pub pages: Seq<Seq<Seq<char>>>,
    pub phase: CollectorPhase,
}

/// The identifiers accumulated so far: the concatenation of the received
/// pages, in page order.
pub open spec fn collected(v: CollectorView) -> Seq<Seq<char>> {
    v.pages.flatten()
}

/// The offset of the next page request. The offset advances by the page size
/// once per non-empty page; the terminating empty page does not advance it.
pub open spec fn request_offset(v: CollectorView) -> int {
    if v.phase is Done {
        (v.pages.len() - 1) * v.page_size
    } else {
        v.pages.len() * v.page_size
    }
}

/// A fresh collector: no pages yet, first request at offset zero.
pub open spec fn collector_init(page_size: int) -> CollectorView {
    CollectorView { page_size, pages: Seq::empty(), phase: CollectorPhase::Running }
}

/// One step of enumeration: a successful page is recorded (an empty one ends
/// the run), a failure ends the run with that failure. Terminal states
/// absorb further events.
pub open spec fn collector_step(
    v: CollectorView,
    event: Result<Seq<Seq<char>>, FetchIdsError>,
) -> CollectorView {
    if !(v.phase is Running) {
        v
    } else {
        match event {
            Ok(page) => CollectorView {
                pages: v.pages.push(page),
                phase: if page.len() == 0 {
                    CollectorPhase::Done
                } else {
                    CollectorPhase::Running
                },
                ..v
            },
            Err(e) => CollectorView { phase: CollectorPhase::Failed(e), ..v },
        }
    }
}

/// The collector's state after a sequence of page results, oldest first.
pub open spec fn collector_run(
    v: CollectorView,
    events: Seq<Result<Seq<Seq<char>>, FetchIdsError>>,
) -> CollectorView
    decreases events.len(),
{
    if events.len() == 0 {
        v
    } else {
        collector_run(collector_step(v, events.first()), events.drop_first())
    }
}

/// The ghost image of one decoded page result handed to the collector.
pub open spec fn page_event(
    r: Result<Vec<MailchimpMember>, FetchIdsError>,
) -> Result<Seq<Seq<char>>, FetchIdsError> {
    match r {
        Ok(page) => Ok(member_views(page@)),
        Err(e) => Err(e),
    }
}

/// The events of an enumeration whose page requests all succeed: one
/// successful result per page, in request order.
pub open spec fn ok_page_events(pages: Seq<Seq<Seq<char>>>) -> Seq<
    Result<Seq<Seq<char>>, FetchIdsError>,
> {
    pages.map_values(|p: Seq<Seq<char>>| Ok::<Seq<Seq<char>>, FetchIdsError>(p))
}

/// Terminal states absorb events: once enumeration has ended, no further
/// result changes the collector's state.
pub proof fn lemma_run_terminal(
    v: CollectorView,
    events: Seq<Result<Seq<Seq<char>>, FetchIdsError>>,
)
    requires
        !(v.phase is Running),
    ensures
        collector_run(v, events) == v,
    decreases events.len(),
{
    if events.len() > 0 {
        assert(collector_step(v, events.first()) == v);
        lemma_run_terminal(v, events.drop_first());
    }
}

/// Running the collector over a single event is one step.
pub proof fn lemma_run_one(v: CollectorView, event: Result<Seq<Seq<char>>, FetchIdsError>)
    ensures
        collector_run(v, seq![event]) == collector_step(v, event),
{
    let s = seq![event];
    assert(s.first() == event);
    assert(s.drop_first() =~= Seq::<Result<Seq<Seq<char>>, FetchIdsError>>::empty());
    assert(collector_run(collector_step(v, event), s.drop_first()) == collector_step(v, event));
}

/// Running the collector over concatenated event sequences is running it
/// over the first, then the second.
pub proof fn lemma_run_append(
    v: CollectorView,
    e1: Seq<Result<Seq<Seq<char>>, FetchIdsError>>,
    e2: Seq<Result<Seq<Seq<char>>, FetchIdsError>>,
)
    ensures
        collector_run(v, e1 + e2) == collector_run(collector_run(v, e1), e2),
    decreases e1.len(),
{
    if e1.len() == 0 {
        assert(e1 + e2 =~= e2);
    } else {
        assert((e1 + e2).first() == e1.first());
        assert((e1 + e2).drop_first() =~= e1.drop_first() + e2);
        lemma_run_append(collector_step(v, e1.first()), e1.drop_first(), e2);
    }
}

/// Successful non-empty pages keep the collector running and are appended,
/// in order, to its history.
pub proof fn lemma_run_ok_pages(v: CollectorView, pages: Seq<Seq<Seq<char>>>)
    requires
        v.phase is Running,
        forall|i: int| 0 <= i < pages.len() ==> #[trigger] pages[i].len() > 0,
    ensures
        collector_run(v, ok_page_events(pages)) == (CollectorView {
            pages: v.pages + pages,
            ..v
        }),
    decreases pages.len(),
{
    let events = ok_page_events(pages);
    if pages.len() == 0 {
        assert(v.pages + pages =~= v.pages);
        assert(CollectorView { pages: v.pages + pages, ..v } == v);
    } else {
        assert(events.first() == Ok::<Seq<Seq<char>>, FetchIdsError>(pages.first()));
        assert(pages.first().len() > 0);
        let v1 = collector_step(v, events.first());
        assert(v1 == CollectorView { pages: v.pages.push(pages.first()), ..v });
        assert(events.drop_first() =~= ok_page_events(pages.drop_first()));
        assert(forall|i: int|
            0 <= i < pages.drop_first().len() ==> #[trigger] pages.drop_first()[i].len() > 0);
        lemma_run_ok_pages(v1, pages.drop_first());
        assert(v.pages.push(pages.first()) + pages.drop_first() =~= v.pages + pages);
    }
}

/// One full enumeration: for any page size of at least one and any sequence
/// of non-empty pages answered in order and followed by the terminating
/// empty page, the collector ends Done, its history holds exactly one
/// answered request per page (the terminating empty one included), the
/// accumulated identifiers are the concatenation of the non-empty pages, and
/// the request for page number i was issued at offset i times the page size.
pub proof fn lemma_collector_full_enumeration(page_size: int, pages: Seq<Seq<Seq<char>>>)
    requires
        page_size >= 1,
        forall|i: int| 0 <= i < pages.len() ==> #[trigger] pages[i].len() > 0,
    ensures
        ({
            let events = ok_page_events(pages).push(Ok(Seq::empty()));
            let end = collector_run(collector_init(page_size), events);
            &&& end.phase is Done
            &&& end.pages == pages.push(Seq::<Seq<char>>::empty())
            &&& collected(end) == pages.flatten()
            &&& forall|i: int|
                0 <= i <= pages.len() ==> request_offset(
                    collector_run(collector_init(page_size), #[trigger] events.take(i)),
                ) == i * page_size
        }),
{
    broadcast use Seq::group_seq_flatten;

    let init = collector_init(page_size);
    let oks = ok_page_events(pages);
    let events = oks.push(Ok::<Seq<Seq<char>>, FetchIdsError>(Seq::empty()));
    lemma_run_ok_pages(init, pages);
    let mid = collector_run(init, oks);
    assert(mid.pages =~= pages);
    assert(events =~= oks + seq![Ok::<Seq<Seq<char>>, FetchIdsError>(Seq::empty())]);
    lemma_run_append(init, oks, seq![Ok::<Seq<Seq<char>>, FetchIdsError>(Seq::empty())]);
    lemma_run_one(mid, Ok::<Seq<Seq<char>>, FetchIdsError>(Seq::empty()));
    let end = collector_run(init, events);
    assert(end == collector_step(mid, Ok::<Seq<Seq<char>>, FetchIdsError>(Seq::empty())));
    assert(end.pages == pages.push(Seq::<Seq<char>>::empty()));
    assert(collected(end) =~= pages.flatten());
    assert forall|i: int| 0 <= i <= pages.len() implies request_offset(
        collector_run(init, #[trigger] events.take(i)),
    ) == i * page_size by {
        assert(events.take(i) =~= ok_page_events(pages.take(i)));
        assert(forall|j: int| 0 <= j < pages.take(i).len() ==> #[trigger] pages.take(i)[j].len() > 0);
        lemma_run_ok_pages(init, pages.take(i));
        let vi = collector_run(init, events.take(i));
        assert(vi.pages =~= pages.take(i));
        assert(vi.phase is Running);
        assert(request_offset(vi) == i * page_size);
    }
}

/// A failed page request is fatal to enumeration: whatever non-empty pages
/// preceded it and whatever events would follow, the run ends in exactly
/// that failure. [`Collector::into_result`] then surfaces the failure alone:
/// the identifiers accumulated from earlier pages are discarded, never
/// returned partially.
pub proof fn lemma_collector_failure_is_fatal(
    page_size: int,
    pages: Seq<Seq<Seq<char>>>,
    e: FetchIdsError,
    rest: Seq<Result<Seq<Seq<char>>, FetchIdsError>>,
)
    requires
        page_size >= 1,
        forall|i: int| 0 <= i < pages.len() ==> #[trigger] pages[i].len() > 0,
    ensures
        ({
            let events = ok_page_events(pages).push(Err(e)) + rest;
            collector_run(collector_init(page_size), events).phase == CollectorPhase::Failed(e)
        }),
{
    let init = collector_init(page_size);
    let oks = ok_page_events(pages);
    let events = oks.push(Err::<Seq<Seq<char>>, FetchIdsError>(e)) + rest;
    assert(events =~= oks + (seq![Err::<Seq<Seq<char>>, FetchIdsError>(e)] + rest));
    lemma_run_append(init, oks, seq![Err::<Seq<Seq<char>>, FetchIdsError>(e)] + rest);
    lemma_run_ok_pages(init, pages);
    let mid = collector_run(init, oks);
    lemma_run_append(mid, seq![Err::<Seq<Seq<char>>, FetchIdsError>(e)], rest);
    lemma_run_one(mid, Err::<Seq<Seq<char>>, FetchIdsError>(e));
    let failed = collector_run(mid, seq![Err::<Seq<Seq<char>>, FetchIdsError>(e)]);
    assert(failed == collector_step(mid, Err::<Seq<Seq<char>>, FetchIdsError>(e)));
    assert(failed.phase == CollectorPhase::Failed(e));
    lemma_run_terminal(failed, rest);
}

/// Accumulates member identifiers across successive page reads until an
/// empty page is observed or a request fails.
pub struct Collector {
    page_size: usize,
    offset: usize,
    ids: Vec<String>,
    done: bool,
    error: Option<FetchIdsError>,
    pages: Ghost<Seq<Seq<Seq<char>>>>,
}

impl View for Collector {
    type V = CollectorView;

    closed spec fn view(&self) -> CollectorView {
        CollectorView {
            page_size: self.page_size as int,
            pages: self.pages@,
            phase: match self.error {
                Some(e) => CollectorPhase::Failed(e),
                None => if self.done {
                    CollectorPhase::Done
                } else {
                    CollectorPhase::Running
                },
            },
        }
    }
}

impl Collector {
    /// The collector's internal consistency: the accumulated identifiers are
    /// the concatenation of the received pages, the stored offset is the one
    /// the next request must use, and an empty page can only stand last.
    pub closed spec fn inv(&self) -> bool {
        &&& self.page_size >= 1
        &&& id_views(self.ids@) == collected(self@)
        &&& self.offset as int == request_offset(self@)
        &&& (self@.phase is Done ==> self@.pages.len() >= 1 && self@.pages.last().len() == 0)
        &&& (forall|i: int|
            0 <= i < self@.pages.len() && (self@.phase is Done ==> i < self@.pages.len() - 1)
                ==> #[trigger] self@.pages[i].len() > 0)
    }

    /// A fresh collector for the given page size.
    pub fn new(page_size: usize) -> (c: Collector)
        requires
            page_size >= 1,
        ensures
            c.inv(),
            c@ == collector_init(page_size as int),
    {
        let c = Collector {
            page_size,
            offset: 0,
            ids: Vec::new(),
            done: false,
            error: None,
            pages: Ghost(Seq::empty()),
        };
        proof {
            assert(id_views(c.ids@) =~= collected(c@));
            assert(c@ == collector_init(page_size as int));
        }
        c
    }

    /// The offset at which the next page must be requested.
    pub fn next_offset(&self) -> (o: usize)
        requires
            self.inv(),
        ensures
            o as int == request_offset(self@),
    {
        self.offset
    }

    /// The configured page size, to be passed as the request's count.
    pub fn page_size(&self) -> (n: usize)
        ensures
            n as int == self@.page_size,
    {
        self.page_size
    }

    /// Whether the collector still wants another page requested.
    pub fn is_running(&self) -> (r: bool)
        ensures
            r == (self@.phase is Running),
    {
        !self.done && self.error.is_none()
    }

    /// Feeds the collector the decoded result of the page request it asked
    /// for. Returns true when enumeration is over (an empty page was seen or
    /// the request failed).
    pub fn on_result(&mut self, r: Result<Vec<MailchimpMember>, FetchIdsError>) -> (done: bool)
        requires
            old(self).inv(),
            old(self)@.phase is Running,
            // the machine cannot address a page past the end of memory
            (match r {
                Ok(page) => page@.len() == 0 || request_offset(old(self)@) + old(
                    self,
                )@.page_size <= usize::MAX,
                Err(_) => true,
            }),
        ensures
            final(self).inv(),
            final(self)@ == collector_step(old(self)@, page_event(r)),
            done == !(final(self)@.phase is Running),
    {
        broadcast use Seq::group_seq_flatten;

        match r {
            Ok(page) => {
                let ghost page_view = member_views(page@);
                if page.is_empty() {
                    self.done = true;
                    proof {
                        self.pages@ = self.pages@.push(page_view);
                        assert(page_view =~= Seq::<Seq<char>>::empty());
                        assert(collected(self@) =~= old(self)@.pages.flatten() + page_view);
                        assert(collected(self@) =~= id_views(old(self).ids@));
                        assert(self@ == collector_step(old(self)@, page_event(r)));
                    }
                    true
                } else {
                    let mut fresh = member_ids(page);
                    self.ids.append(&mut fresh);
                    self.offset = self.offset + self.page_size;
                    proof {
                        self.pages@ = self.pages@.push(page_view);
                        assert(id_views(self.ids@) =~= id_views(old(self).ids@) + page_view);
                        assert(collected(self@) =~= old(self)@.pages.flatten() + page_view);
                        assert(self@.pages.len() == old(self)@.pages.len() + 1);
                        let ghost k = old(self)@.pages.len() as int;
                        let ghost ps = self@.page_size;
                        assert(k * ps + ps == (k + 1) * ps) by (nonlinear_arith);
                        assert(self.offset as int == request_offset(self@));
                        assert(self@ == collector_step(old(self)@, page_event(r)));
                    }
                    false
                }
            },
            Err(e) => {
                self.error = Some(e);
                proof {
                    assert(self@ == collector_step(old(self)@, page_event(r)));
                }
                true
            },
        }
    }

    /// The result of enumeration: on success every accumulated identifier, in
    /// page order; on failure the gateway's failure alone, with the partial
    /// accumulation discarded.
    pub fn into_result(self) -> (r: Result<Vec<String>, FetchIdsError>)
        requires
            self.inv(),
            !(self@.phase is Running),
        ensures
            (match self@.phase {
                CollectorPhase::Done => r matches Ok(ids) && id_views(ids@)
                    == collected(self@),
                CollectorPhase::Failed(e) => r == Err::<Vec<String>, FetchIdsError>(e),
                CollectorPhase::Running => false,
            }),
    {
        match self.error {
            Some(e) => Err(e),
            None => Ok(self.ids),
        }
    }
}

} // verus!
