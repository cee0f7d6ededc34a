//! Checks whether a claimed action actually happened.
//!
//! A [`Claim`] pairs a description with a list of [`EvidenceSpec`] items, each
//! an observable condition that holds if the claim is true. The caller asks
//! [`probe_for`] what has to be observed for an item, observes it, and hands the
//! [`Observation`] to a [`Verifier`], which turns every item into an
//! [`EvidenceResult`] and folds the results into one [`Verdict`].

pub mod checks;
pub mod claim;
pub mod digest;
pub mod engine;
pub mod error;
pub mod evidence;
pub mod json;
pub mod json_path;
pub mod observation;
pub mod pattern;
pub mod report;
pub mod text;
pub mod timestamp;
pub mod verdict;

pub use claim::Claim;
pub use engine::Verifier;
pub use error::VerificationError;
pub use evidence::EvidenceSpec;
pub use report::{EvidenceResult, VerificationReport};
pub use timestamp::Timestamp;
pub use verdict::Verdict;
