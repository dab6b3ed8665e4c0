//! The pipeline orchestrator: enumeration runs to completion first, and only
//! a complete identifier set ever reaches the archiver. A collector failure
//! is fatal — the archiver is never constructed, so no mutation can be
//! attempted against a set whose completeness could not be verified.

use vstd::prelude::*;
use vstd::multiset::Multiset;
use crate::archiver::Archiver;
use crate::archiver::window_size;
use crate::error::Error;
use crate::error::FetchIdsError;
use crate::models::id_views;

verus! {

/// Turns the collector's result into the next stage: on success, an archiver
/// over exactly the enumerated identifiers; on failure, that failure as the
/// pipeline's single terminal error, with no archiver and no mutation.
pub fn start_archiver(fetched: Result<Vec<String>, FetchIdsError>, max_concurrency: usize) -> (r:
    Result<Archiver, Error>)
    requires
        max_concurrency >= 1,
    ensures
        (match fetched {
            Ok(ids) => {
                &&& r matches Ok(a)
                &&& a.inv()
                &&& a@.cap == max_concurrency as int
                &&& a@.window == window_size(max_concurrency as int, ids@.len() as int)
                &&& a@.pending == id_views(ids@)
                &&& a@.in_flight == Seq::<Seq<char>>::empty()
                &&& a@.emitted == Multiset::<Seq<char>>::empty()
                &&& a@.input == id_views(ids@).to_multiset()
            },
            Err(e) => r == Err::<Archiver, Error>(Error::FetchIds(e)),
        }),
{
    match fetched {
        Ok(ids) => Ok(Archiver::new(ids, max_concurrency)),
        Err(e) => Err(Error::FetchIds(e)),
    }
}

} // verus!
