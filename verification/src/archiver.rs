//! The bounded archiver: given the materialized identifier set and a
//! concurrency limit, it decides which mutation to launch next and accounts
//! for exactly one outcome per identifier, while never letting more than
//! min(limit, set size) operations be in flight at once.
//!
//! The archiver is the coordinating state machine of a sliding window. The
//! unverified front end owns the task handles: it calls [`Archiver::launch`]
//! until the window is full, performs the mutations, and hands each
//! completion back through [`Archiver::complete`], which releases one slot of
//! the window and records the outcome's identifier as emitted.

use vstd::prelude::*;
use vstd::multiset::Multiset;
use crate::error::ArchiveError;
use crate::models::id_views;

verus! {

/// The per-identifier result of one archive operation: success, a mutation
/// failure (transport-level or remote-reported), or the loss of the task's
/// result by the scheduler. Every variant carries the member's identifier,
/// so each outcome stays independently reportable.
#[derive(Debug, Clone)]
pub enum ArchiveOutcome {
    /// The member was archived.
    Success(String),
    /// The mutation failed; the cause names the member.
    Failure(ArchiveError),
    /// The scheduler could not obtain the task's result; carries the member's
    /// identifier and the scheduler's message.
    Lost(String, String),
}

impl ArchiveOutcome {
    /// The identifier of the member this outcome is about.
    pub open spec fn spec_id(&self) -> Seq<char> {
        match self {
            ArchiveOutcome::Success(id) => id@,
            ArchiveOutcome::Failure(e) => e.spec_id(),
            ArchiveOutcome::Lost(id, _) => id@,
        }
    }

    /// The identifier of the member this outcome is about.
    pub fn identifier(&self) -> (r: &String)
        ensures
            r@ == self.spec_id(),
    {
        match self {
            ArchiveOutcome::Success(id) => id,
            ArchiveOutcome::Failure(ArchiveError::Request(id, _)) => id,
            ArchiveOutcome::Failure(ArchiveError::Mailchimp(id, _)) => id,
            ArchiveOutcome::Lost(id, _) => id,
        }
    }
}

/// How many operations the window admits: the configured limit, or the whole
/// identifier set when that is smaller.
pub open spec fn window_size(cap: int, total: int) -> int {
    if cap <= total {
        cap
    } else {
        total
    }
}

/// The ghost image of the archiver: the configured concurrency limit, the
/// window it induces, the identifiers not yet launched (next launch last),
/// the identifiers launched and unresolved, the multiset of identifiers
/// whose outcomes were emitted, and the multiset of identifiers the archiver
/// was given.
pub ghost struct ArchiverView {
    pub cap: int,
    pub window: int,
    pub pending: Seq<Seq<char>>,
    pub in_flight: Seq<Seq<char>>,
    pub emitted: Multiset<Seq<char>>,
    pub input: Multiset<Seq<char>>,
}

/// Tracks the sliding window of archive operations and accounts for one
/// outcome per identifier.
pub struct Archiver {
    pending: Vec<String>,
    in_flight: Vec<String>,
    window: usize,
    cap: Ghost<int>,
    emitted: Ghost<Multiset<Seq<char>>>,
    input: Ghost<Multiset<Seq<char>>>,
}

impl View for Archiver {
    type V = ArchiverView;

    closed spec fn view(&self) -> ArchiverView {
        ArchiverView {
            cap: self.cap@,
            window: self.window as int,
            pending: id_views(self.pending@),
            in_flight: id_views(self.in_flight@),
            emitted: self.emitted@,
            input: self.input@,
        }
    }
}

fn find_index(v: &Vec<String>, id: &String) -> (r: Option<usize>)
    ensures
        (match r {
            Some(i) => i < v@.len() && v@[i as int]@ == id@,
            None => forall|j: int| 0 <= j < v@.len() ==> #[trigger] v@[j]@ != id@,
        }),
{
    let mut i: usize = 0;
    while i < v.len()
        invariant
            i <= v@.len(),
            forall|j: int| 0 <= j < i ==> #[trigger] v@[j]@ != id@,
        decreases v@.len() - i,
    {
        if v[i].eq(id) {
            return Some(i);
        }
        i = i + 1;
    }
    None
}

impl Archiver {
    /// The archiver's internal consistency: the window is min(limit, set
    /// size), it is never exceeded, and the given identifiers are exactly
    /// the pending ones, the in-flight ones and the emitted ones together.
    pub closed spec fn inv(&self) -> bool {
        &&& self@.cap >= 1
        &&& self@.window == window_size(self@.cap, self@.input.len() as int)
        &&& self@.in_flight.len() <= self@.window
        &&& self@.input == self@.pending.to_multiset().add(self@.in_flight.to_multiset()).add(
            self@.emitted,
        )
    }

    /// A fresh archiver over the materialized identifier set.
    pub fn new(ids: Vec<String>, max_concurrency: usize) -> (a: Archiver)
        requires
            max_concurrency >= 1,
        ensures
            a.inv(),
            a@.cap == max_concurrency as int,
            a@.window == window_size(max_concurrency as int, ids@.len() as int),
            a@.pending == id_views(ids@),
            a@.in_flight == Seq::<Seq<char>>::empty(),
            a@.emitted == Multiset::<Seq<char>>::empty(),
            a@.input == id_views(ids@).to_multiset(),
    {
        broadcast use vstd::seq_lib::group_to_multiset_ensures;

        let window = if max_concurrency <= ids.len() {
            max_concurrency
        } else {
            ids.len()
        };
        let ghost views = id_views(ids@);
        let a = Archiver {
            pending: ids,
            in_flight: Vec::new(),
            window,
            cap: Ghost(max_concurrency as int),
            emitted: Ghost(Multiset::empty()),
            input: Ghost(views.to_multiset()),
        };
        proof {
            assert(a@.in_flight =~= Seq::<Seq<char>>::empty());
            assert(views.to_multiset().len() == views.len());
            assert(a@.input =~= a@.pending.to_multiset().add(
                a@.in_flight.to_multiset(),
            ).add(a@.emitted));
        }
        a
    }

    /// Whether every identifier has been launched and every outcome emitted:
    /// the produced sequence has ended.
    pub fn is_done(&self) -> (r: bool)
        ensures
            r == (self@.pending.len() == 0 && self@.in_flight.len() == 0),
    {
        self.pending.is_empty() && self.in_flight.is_empty()
    }

    /// How many operations are in flight right now.
    pub fn in_flight_count(&self) -> (r: usize)
        ensures
            r == self@.in_flight.len(),
    {
        self.in_flight.len()
    }

    /// How many identifiers await launch.
    pub fn pending_count(&self) -> (r: usize)
        ensures
            r == self@.pending.len(),
    {
        self.pending.len()
    }

    /// The window: how many operations may be in flight at once.
    pub fn window(&self) -> (r: usize)
        ensures
            r == self@.window,
    {
        self.window
    }

    /// Hands out the next identifier to launch a mutation for, if any is
    /// pending and the window has room; otherwise changes nothing. The
    /// identifier moves from pending to in flight.
    pub fn launch(&mut self) -> (r: Option<String>)
        requires
            old(self).inv(),
        ensures
            final(self).inv(),
            final(self)@.cap == old(self)@.cap,
            final(self)@.window == old(self)@.window,
            final(self)@.input == old(self)@.input,
            final(self)@.emitted == old(self)@.emitted,
            (match r {
                Some(id) => old(self)@.pending.len() > 0 && old(self)@.in_flight.len() < old(
                    self,
                )@.window && id@ == old(self)@.pending.last() && final(self)@.pending == old(
                    self,
                )@.pending.drop_last() && final(self)@.in_flight == old(self)@.in_flight.push(id@),
                None => (old(self)@.pending.len() == 0 || old(self)@.in_flight.len() >= old(
                    self,
                )@.window) && final(self)@ == old(self)@,
            }),
    {
        broadcast use vstd::seq_lib::group_to_multiset_ensures;

        if self.in_flight.len() >= self.window {
            return None;
        }
        match self.pending.pop() {
            Some(id) => {
                self.in_flight.push(id.clone());
                proof {
                    let ghost oldp = old(self)@.pending;
                    let ghost oldf = old(self)@.in_flight;
                    assert(self@.pending =~= oldp.drop_last());
                    assert(self@.in_flight =~= oldf.push(id@));
                    assert(oldp.drop_last() =~= oldp.remove(oldp.len() - 1));
                    assert(oldp.remove(oldp.len() - 1).to_multiset() =~= oldp.to_multiset().remove(
                        id@,
                    ));
                    assert(oldp.to_multiset().count(id@) > 0);
                    assert(self@.pending.to_multiset().add(self@.in_flight.to_multiset()).add(
                        self@.emitted,
                    ) =~= oldp.to_multiset().add(oldf.to_multiset()).add(old(self)@.emitted));
                }
                Some(id)
            },
            None => None,
        }
    }

    /// Accepts the outcome of one completed operation. When the outcome's
    /// identifier is in flight, the slot is released, the identifier is
    /// recorded as emitted, and the outcome is handed back for the consumer
    /// — the same way for a success as for a failure, so one member's
    /// failure never blocks the others (see [`lemma_failure_isolated`]). An
    /// outcome for an identifier that is not in flight is refused and
    /// changes nothing.
    pub fn complete(&mut self, outcome: ArchiveOutcome) -> (r: Option<ArchiveOutcome>)
        requires
            old(self).inv(),
        ensures
            final(self).inv(),
            final(self)@.cap == old(self)@.cap,
            final(self)@.window == old(self)@.window,
            final(self)@.input == old(self)@.input,
            final(self)@.pending == old(self)@.pending,
            (if old(self)@.in_flight.contains(outcome.spec_id()) {
                &&& r == Some(outcome)
                &&& complete_accounting(old(self)@, final(self)@, outcome.spec_id())
                &&& final(self)@.in_flight.len() == old(self)@.in_flight.len() - 1
            } else {
                &&& r == None::<ArchiveOutcome>
                &&& final(self)@ == old(self)@
            }),
    {
        broadcast use vstd::seq_lib::group_to_multiset_ensures;

        let found = find_index(&self.in_flight, outcome.identifier());
        match found {
            Some(i) => {
                let ghost oldf = old(self)@.in_flight;
                let _ = self.in_flight.remove(i);
                proof {
                    self.emitted@ = self.emitted@.insert(outcome.spec_id());
                    assert(oldf[i as int] == outcome.spec_id());
                    assert(oldf.contains(outcome.spec_id()));
                    assert(self@.in_flight =~= oldf.remove(i as int));
                    assert(oldf.remove(i as int).to_multiset() =~= oldf.to_multiset().remove(
                        outcome.spec_id(),
                    ));
                    assert(oldf.to_multiset().count(outcome.spec_id()) > 0);
                    assert(self@.pending.to_multiset().add(self@.in_flight.to_multiset()).add(
                        self@.emitted,
                    ) =~= self@.pending.to_multiset().add(oldf.to_multiset()).add(
                        old(self)@.emitted,
                    ));
                }
                Some(outcome)
            },
            None => {
                proof {
                    assert(!old(self)@.in_flight.contains(outcome.spec_id()));
                }
                None
            },
        }
    }
}

/// How accepting one outcome moves the archiver's accounting: nothing else
/// than the completed identifier changes — it leaves the in-flight set and
/// enters the emitted multiset, and the pending identifiers stay as they
/// were. [`Archiver::complete`] guarantees this relation between its states
/// whatever kind of outcome — success or failure — was handed in.
pub open spec fn complete_accounting(pre: ArchiverView, post: ArchiverView, id: Seq<char>) -> bool {
    &&& post.pending == pre.pending
    &&& post.in_flight.to_multiset() == pre.in_flight.to_multiset().remove(id)
    &&& post.emitted == pre.emitted.insert(id)
}

/// A mutation failure for one member is isolated: an accepted outcome —
/// failure and success alike — releases only its own identifier, and every
/// other identifier stays accounted for (pending, in flight, or emitted)
/// exactly as before, so no other member's outcome is lost.
pub proof fn lemma_failure_isolated(pre: ArchiverView, post: ArchiverView, id: Seq<char>)
    requires
        complete_accounting(pre, post, id),
    ensures
        forall|x: Seq<char>|
            x != id ==> post.pending.to_multiset().count(x)
                + post.in_flight.to_multiset().count(x) + post.emitted.count(x)
                == pre.pending.to_multiset().count(x) + pre.in_flight.to_multiset().count(x)
                + pre.emitted.count(x),
{
    assert forall|x: Seq<char>| x != id implies post.pending.to_multiset().count(x)
        + post.in_flight.to_multiset().count(x) + post.emitted.count(x)
        == pre.pending.to_multiset().count(x) + pre.in_flight.to_multiset().count(x)
        + pre.emitted.count(x) by {
        assert(post.in_flight.to_multiset().count(x) == pre.in_flight.to_multiset().count(x));
        assert(post.emitted.count(x) == pre.emitted.count(x));
    }
}

/// The window is never exceeded: at any reachable state, the number of
/// operations in flight is at most min(concurrency limit, identifier count).
pub proof fn lemma_window_bounded(a: &Archiver)
    requires
        a.inv(),
    ensures
        a@.in_flight.len() <= window_size(a@.cap, a@.input.len() as int),
{
}

/// Exactly one outcome per identifier: when the archiver has nothing pending
/// and nothing in flight, the multiset of emitted outcome identifiers equals
/// the multiset of identifiers it was given — no duplicates, no omissions,
/// regardless of completion order and of which outcomes were failures.
pub proof fn lemma_outcomes_cover_input(a: &Archiver)
    requires
        a.inv(),
        a@.pending.len() == 0,
        a@.in_flight.len() == 0,
    ensures
        a@.emitted =~= a@.input,
{
    broadcast use vstd::seq_lib::group_to_multiset_ensures;

    assert(a@.pending =~= Seq::<Seq<char>>::empty());
    assert(a@.in_flight =~= Seq::<Seq<char>>::empty());
    assert(a@.pending.to_multiset().len() == 0);
    assert(a@.in_flight.to_multiset().len() == 0);
    assert(a@.pending.to_multiset() =~= Multiset::<Seq<char>>::empty());
    assert(a@.in_flight.to_multiset() =~= Multiset::<Seq<char>>::empty());
    assert(a@.emitted =~= a@.input);
}

} // verus!
