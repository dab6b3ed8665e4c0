//! Core logic for archiving the unsubscribed members of a Mailchimp list.
//!
//! The library holds the decision-making parts of the janitor: the
//! configuration defaults, the offset-pagination collector that enumerates
//! matching member identifiers, the bounded-concurrency archiver that
//! accounts for one outcome per identifier, and the pure request/response
//! helpers of the HTTP gateway. The HTTP exchanges themselves are driven by
//! an unverified front end that feeds plain values into these state machines.

pub mod config;
pub mod decimal;
pub mod error;
pub mod models;
pub mod gateway;
pub mod collector;
pub mod archiver;
pub mod pipeline;
