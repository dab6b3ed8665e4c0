//! The error taxonomy of the pipeline: transport failures, remote-reported
//! failures, and infrastructure failures of the task scheduler.

use vstd::prelude::*;
use crate::models::MailchimpError;

verus! {

/// Why identifier enumeration stopped: the page request could not be
/// exchanged at all, or the remote service reported a structured error.
#[derive(Debug, Clone)]
pub enum FetchIdsError {
    /// A transport-level failure (connection, timeout, decode), described by
    /// the transport's own message.
    Request(String),
    /// A well-formed 4xx response from the remote service.
    Mailchimp(MailchimpError),
}

/// Why archiving one member failed; each variant carries the identifier that
/// was being processed so the failure stays attributable.
#[derive(Debug, Clone)]
pub enum ArchiveError {
    /// A transport-level failure while archiving the named member.
    Request(String, String),
    /// A remote-reported failure while archiving the named member.
    Mailchimp(String, MailchimpError),
}

impl ArchiveError {
    /// The identifier of the member whose archive operation failed.
    pub open spec fn spec_id(&self) -> Seq<char> {
        match self {
            ArchiveError::Request(id, _) => id@,
            ArchiveError::Mailchimp(id, _) => id@,
        }
    }
}

/// A pipeline-level failure: enumeration failed (fatal, nothing is mutated),
/// one archive operation failed, or the scheduler lost a task's result.
#[derive(Debug, Clone)]
pub enum Error {
    FetchIds(FetchIdsError),
    Archive(ArchiveError),
    /// The scheduler could not obtain a launched task's result; carries the
    /// identifier the task was processing and the scheduler's message.
    Join(String, String),
}

} // verus!
