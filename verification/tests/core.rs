use mailchimp_list_janitor::archiver::{ArchiveOutcome, Archiver};
use mailchimp_list_janitor::collector::Collector;
use mailchimp_list_janitor::error::{ArchiveError, Error, FetchIdsError};
use mailchimp_list_janitor::models::{MailchimpError, MailchimpMember};
use mailchimp_list_janitor::pipeline::start_archiver;

fn member(id: &str) -> MailchimpMember {
    MailchimpMember { id: id.to_string() }
}

fn remote_error() -> MailchimpError {
    MailchimpError {
        type_tag: "t".to_string(),
        title: "Bad".to_string(),
        status: 400,
        detail: Some("x".to_string()),
        istance: None,
    }
}

/// Drives an archiver to completion, failing the one identifier in
/// `fail_for` (if any) with a remote error; returns every emitted outcome,
/// the log of launched mutations (the mock gateway's record of its calls),
/// and the largest number of operations observed in flight at once.
fn drive(mut a: Archiver, fail_for: Option<&str>) -> (Vec<ArchiveOutcome>, Vec<String>, usize) {
    let mut in_flight: Vec<String> = Vec::new();
    let mut launched: Vec<String> = Vec::new();
    let mut outcomes: Vec<ArchiveOutcome> = Vec::new();
    let mut max_in_flight: usize = 0;
    while !a.is_done() {
        while let Some(id) = a.launch() {
            launched.push(id.clone());
            in_flight.push(id);
            max_in_flight = max_in_flight.max(a.in_flight_count());
        }
        // completion order differs from submission order: resolve the oldest
        // launch first, while launches hand out the newest pending id
        let id = in_flight.remove(0);
        let outcome = if fail_for == Some(id.as_str()) {
            ArchiveOutcome::Failure(ArchiveError::Mailchimp(id, remote_error()))
        } else {
            ArchiveOutcome::Success(id)
        };
        let emitted = a.complete(outcome).expect("completed id should be in flight");
        outcomes.push(emitted);
    }
    (outcomes, launched, max_in_flight)
}

fn outcome_id(o: &ArchiveOutcome) -> &str {
    match o {
        ArchiveOutcome::Success(id) => id,
        ArchiveOutcome::Failure(ArchiveError::Request(id, _)) => id,
        ArchiveOutcome::Failure(ArchiveError::Mailchimp(id, _)) => id,
        ArchiveOutcome::Lost(id, _) => id,
    }
}

#[test]
fn collector_paginates_until_empty_page() {
    let mut c = Collector::new(2);
    assert_eq!(c.page_size(), 2);
    assert!(c.is_running());
    assert_eq!(c.next_offset(), 0);
    assert!(!c.on_result(Ok(vec![member("id1"), member("id2")])));
    assert_eq!(c.next_offset(), 2);
    assert!(!c.on_result(Ok(vec![member("id3"), member("id4")])));
    assert_eq!(c.next_offset(), 4);
    assert!(c.on_result(Ok(vec![])));
    let ids = c.into_result().expect("enumeration should succeed");
    assert_eq!(ids, vec!["id1", "id2", "id3", "id4"]);
}

#[test]
fn collector_accepts_short_non_empty_pages() {
    // a page shorter than the page size does not end enumeration: only an
    // empty page does, and each non-empty page advances the offset by the
    // full page size
    let mut c = Collector::new(3);
    assert!(!c.on_result(Ok(vec![member("a"), member("b"), member("c")])));
    assert!(!c.on_result(Ok(vec![member("d")])));
    assert_eq!(c.next_offset(), 6);
    assert!(c.on_result(Ok(vec![])));
    let ids = c.into_result().expect("enumeration should succeed");
    assert_eq!(ids, vec!["a", "b", "c", "d"]);
}

#[test]
fn collector_page_size_one() {
    let mut c = Collector::new(1);
    assert!(!c.on_result(Ok(vec![member("only")])));
    assert_eq!(c.next_offset(), 1);
    assert!(c.on_result(Ok(vec![])));
    assert_eq!(c.into_result().expect("should succeed"), vec!["only"]);
}

#[test]
fn collector_empty_list() {
    let mut c = Collector::new(100);
    assert!(c.on_result(Ok(vec![])));
    let ids = c.into_result().expect("enumeration should succeed");
    assert!(ids.is_empty());
}

#[test]
fn collector_transport_failure_discards_partial() {
    let mut c = Collector::new(2);
    assert!(!c.on_result(Ok(vec![member("id1"), member("id2")])));
    assert!(c.on_result(Err(FetchIdsError::Request("connection timed out".to_string()))));
    assert!(!c.is_running());
    match c.into_result() {
        Err(FetchIdsError::Request(msg)) => assert_eq!(msg, "connection timed out"),
        Err(_) => panic!("wrong failure kind"),
        Ok(ids) => panic!("partial accumulation must be discarded, got {:?}", ids),
    }
}

#[test]
fn collector_remote_failure_is_fatal() {
    let mut c = Collector::new(2);
    assert!(!c.on_result(Ok(vec![member("id1"), member("id2")])));
    assert!(c.on_result(Err(FetchIdsError::Mailchimp(remote_error()))));
    match c.into_result() {
        Err(FetchIdsError::Mailchimp(e)) => {
            assert_eq!(e.type_tag, "t");
            assert_eq!(e.title, "Bad");
            assert_eq!(e.status, 400);
            assert_eq!(e.detail.as_deref(), Some("x"));
        }
        Err(_) => panic!("wrong failure kind"),
        Ok(_) => panic!("a failed run must not return identifiers"),
    }
}

#[test]
fn archiver_window_is_min_of_limit_and_set() {
    let ids: Vec<String> = vec!["a".to_string(), "b".to_string()];
    let a = Archiver::new(ids, 8);
    assert_eq!(a.window(), 2);
    let many: Vec<String> = (0..20).map(|i| format!("m{}", i)).collect();
    let b = Archiver::new(many, 8);
    assert_eq!(b.window(), 8);
}

#[test]
fn archiver_never_exceeds_window() {
    let ids: Vec<String> = (0..13).map(|i| format!("m{}", i)).collect();
    let a = Archiver::new(ids, 3);
    assert_eq!(a.window(), 3);
    let (outcomes, _, max_in_flight) = drive(a, None);
    assert_eq!(outcomes.len(), 13);
    assert_eq!(max_in_flight, 3);
}

#[test]
fn archiver_full_window_refuses_launch() {
    let ids: Vec<String> = (0..5).map(|i| format!("m{}", i)).collect();
    let mut a = Archiver::new(ids, 2);
    assert!(a.launch().is_some());
    assert!(a.launch().is_some());
    assert!(a.launch().is_none());
    assert_eq!(a.in_flight_count(), 2);
    assert_eq!(a.pending_count(), 3);
}

#[test]
fn archiver_emits_exactly_one_outcome_per_identifier() {
    let ids: Vec<String> = (0..9).map(|i| format!("m{}", i)).collect();
    let a = Archiver::new(ids.clone(), 4);
    let (outcomes, _, _) = drive(a, None);
    let mut seen: Vec<String> = outcomes.iter().map(|o| outcome_id(o).to_string()).collect();
    seen.sort();
    let mut expected = ids;
    expected.sort();
    assert_eq!(seen, expected);
}

#[test]
fn archiver_refuses_outcome_for_unknown_identifier() {
    let ids: Vec<String> = vec!["a".to_string()];
    let mut a = Archiver::new(ids, 8);
    let launched = a.launch().expect("one id is pending");
    assert_eq!(launched, "a");
    let refused = a.complete(ArchiveOutcome::Success("never-launched".to_string()));
    assert!(refused.is_none());
    assert_eq!(a.in_flight_count(), 1);
}

#[test]
fn archiver_accepts_lost_task_outcome() {
    // a scheduler-level loss of a task's result releases the slot the same
    // way a mutation outcome does, and the loss stays attributable
    let ids: Vec<String> = vec!["a".to_string(), "b".to_string()];
    let mut a = Archiver::new(ids, 8);
    let first = a.launch().expect("two ids are pending");
    let second = a.launch().expect("one id is pending");
    let lost = a
        .complete(ArchiveOutcome::Lost(first.clone(), "task aborted".to_string()))
        .expect("the lost task's id is in flight");
    match lost {
        ArchiveOutcome::Lost(id, msg) => {
            assert_eq!(id, first);
            assert_eq!(msg, "task aborted");
        }
        other => panic!("expected a lost-task outcome, got {:?}", other),
    }
    let done = a
        .complete(ArchiveOutcome::Success(second.clone()))
        .expect("the second id is in flight");
    assert_eq!(done.identifier(), &second);
    assert!(a.is_done());
}

#[test]
fn archiver_empty_set_is_done_immediately() {
    let mut a = Archiver::new(Vec::new(), 8);
    assert!(a.is_done());
    assert!(a.launch().is_none());
}

#[test]
fn outcome_identifier_names_the_member() {
    let s = ArchiveOutcome::Success("s1".to_string());
    assert_eq!(s.identifier(), "s1");
    let t = ArchiveOutcome::Failure(ArchiveError::Request("t1".to_string(), "timeout".to_string()));
    assert_eq!(t.identifier(), "t1");
    let m = ArchiveOutcome::Failure(ArchiveError::Mailchimp("m1".to_string(), remote_error()));
    assert_eq!(m.identifier(), "m1");
    let l = ArchiveOutcome::Lost("l1".to_string(), "task aborted".to_string());
    assert_eq!(l.identifier(), "l1");
}

#[test]
fn pipeline_fatal_on_enumeration_failure() {
    let fetched: Result<Vec<String>, FetchIdsError> =
        Err(FetchIdsError::Request("connection refused".to_string()));
    match start_archiver(fetched, 8) {
        Err(Error::FetchIds(FetchIdsError::Request(msg))) => {
            assert_eq!(msg, "connection refused")
        }
        Err(_) => panic!("wrong error kind"),
        Ok(_) => panic!("the archiver must not start after a fetch failure"),
    }
}

#[test]
fn pipeline_starts_archiver_on_success() {
    let fetched: Result<Vec<String>, FetchIdsError> =
        Ok(vec!["a".to_string(), "b".to_string(), "c".to_string()]);
    let a = start_archiver(fetched, 2).expect("a successful fetch starts the archiver");
    assert_eq!(a.pending_count(), 3);
    assert_eq!(a.in_flight_count(), 0);
    assert_eq!(a.window(), 2);
}

#[test]
fn full_run_four_members_all_succeed() {
    // pageSize 2: pages [id1,id2] at offset 0, [id3,id4] at offset 2, [] at 4
    let mut c = Collector::new(2);
    assert_eq!(c.next_offset(), 0);
    assert!(!c.on_result(Ok(vec![member("id1"), member("id2")])));
    assert_eq!(c.next_offset(), 2);
    assert!(!c.on_result(Ok(vec![member("id3"), member("id4")])));
    assert_eq!(c.next_offset(), 4);
    assert!(c.on_result(Ok(vec![])));
    let ids = c.into_result().expect("enumeration should succeed");
    assert_eq!(ids, vec!["id1", "id2", "id3", "id4"]);

    let a = start_archiver(Ok(ids), 8).expect("archiver starts");
    assert_eq!(a.window(), 4);
    let (outcomes, launched, _) = drive(a, None);
    // four mutation calls were issued, one per member
    let mut calls = launched;
    calls.sort();
    assert_eq!(calls, vec!["id1", "id2", "id3", "id4"]);
    assert_eq!(outcomes.len(), 4);
    let mut archived: Vec<String> = outcomes
        .iter()
        .map(|o| match o {
            ArchiveOutcome::Success(id) => id.clone(),
            other => panic!("expected only successes, got {:?}", other),
        })
        .collect();
    archived.sort();
    assert_eq!(archived, vec!["id1", "id2", "id3", "id4"]);
}

#[test]
fn full_run_one_failure_is_isolated() {
    // same setup, but the mutation for id3 reports a 400 with the structured
    // error body; the other three members still succeed
    let mut c = Collector::new(2);
    assert!(!c.on_result(Ok(vec![member("id1"), member("id2")])));
    assert!(!c.on_result(Ok(vec![member("id3"), member("id4")])));
    assert!(c.on_result(Ok(vec![])));
    let ids = c.into_result().expect("enumeration should succeed");

    let a = start_archiver(Ok(ids), 8).expect("archiver starts");
    let (outcomes, launched, _) = drive(a, Some("id3"));
    assert_eq!(launched.len(), 4);
    assert_eq!(outcomes.len(), 4);

    let mut failures = 0;
    let mut successes: Vec<String> = Vec::new();
    for o in &outcomes {
        match o {
            ArchiveOutcome::Failure(ArchiveError::Mailchimp(id, e)) => {
                failures += 1;
                assert_eq!(id, "id3");
                assert_eq!(e.type_tag, "t");
                assert_eq!(e.title, "Bad");
                assert_eq!(e.status, 400);
                assert_eq!(e.detail.as_deref(), Some("x"));
            }
            ArchiveOutcome::Success(id) => successes.push(id.clone()),
            other => panic!("unexpected outcome {:?}", other),
        }
    }
    assert_eq!(failures, 1);
    successes.sort();
    assert_eq!(successes, vec!["id1", "id2", "id4"]);
}
