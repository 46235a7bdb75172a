//! Call tracking for tests: a registry records calls under string keys, and a
//! chain of checks asks afterwards how often a key was called, with which
//! arguments, and what it returned.
//!
//! Every check returns a `Result`, so a failed expectation is a value that
//! names the key and says what was expected and what was seen.

pub mod assertion;
pub mod call;
pub mod failure;
pub mod laws;
pub mod payload;
pub mod shared;
pub mod tracker;

pub use assertion::{Assertion, ChainView, MetaAssertion};
pub use call::{CallInfo, CallLog, CallView, Probe, Slot};
pub use failure::{Failure, FailureKind};
pub use payload::{Comparison, Payload, PayloadView};
pub use shared::SharedTracker;
pub use tracker::Tracker;
