//! What a custom checker reports when it cannot reach a verdict.

use vstd::prelude::*;
use vstd::std_specs::convert::FromSpecImpl;
use crate::text::{decimal, decimal_text, join2};

verus! {

/// Lets `std::io::Error` stand in signatures and fields, as a value that is
/// carried through and never looked into.
#[verifier::external_type_specification]
#[verifier::external_body]
pub struct ExIoError(std::io::Error);

/// Errors that can occur during verification.
#[derive(Debug)]
pub enum VerificationError {
    /// The evidence was looked for and is not there.
    EvidenceNotFound(String),
    /// The evidence is there and differs from what was expected.
    EvidenceMismatch { expected: String, found: String },
    /// The check gave up after this many seconds.
    Timeout(u64),
    /// Reading or writing failed.
    Io(std::io::Error),
    /// The claim is not built as it should be.
    InvalidClaim(String),
}

/// Calls `to_string` on a `std::io::Error`: its message as the operating
/// system or its maker worded it. Nothing is claimed of the text.
#[verifier::external_body]
fn io_error_text(e: &std::io::Error) -> String {
    e.to_string()
}

impl VerificationError {
    /// The text of the message, for every error but an I/O error, whose
    /// wording is not the library's.
    pub open spec fn message_text(self) -> Seq<char> {
        match self {
            VerificationError::EvidenceNotFound(what) => "Evidence not found: "@ + what@,
            VerificationError::EvidenceMismatch { expected, found } => {
                "Evidence mismatch: expected "@ + expected@ + ", found "@ + found@
            },
            VerificationError::Timeout(seconds) => {
                "Verification timed out after "@ + decimal(seconds as nat) + " seconds"@
            },
            VerificationError::Io(_) => "IO error: "@,
            VerificationError::InvalidClaim(why) => "Invalid claim structure: "@ + why@,
        }
    }

    /// The message of the error. For an I/O error it is `"IO error: "`
    /// followed by the message of that error.
    pub fn message(&self) -> (text: String)
        ensures
            !(self is Io) ==> text@ == self.message_text(),
            self is Io ==> self.message_text().is_prefix_of(text@),
    {
        match self {
            VerificationError::EvidenceNotFound(what) => {
                join2("Evidence not found: ", what.as_str())
            },
            VerificationError::EvidenceMismatch { expected, found } => {
                let mut text = join2("Evidence mismatch: expected ", expected.as_str());
                text.append(", found ");
                text.append(found.as_str());
                text
            },
            VerificationError::Timeout(seconds) => {
                let digits = decimal_text(*seconds);
                let mut text = join2("Verification timed out after ", digits.as_str());
                text.append(" seconds");
                text
            },
            VerificationError::Io(e) => {
                let inner = io_error_text(e);
                join2("IO error: ", inner.as_str())
            },
            VerificationError::InvalidClaim(why) => {
                join2("Invalid claim structure: ", why.as_str())
            },
        }
    }
}

impl From<std::io::Error> for VerificationError {
    fn from(e: std::io::Error) -> (r: VerificationError) {
        VerificationError::Io(e)
    }
}

impl FromSpecImpl<std::io::Error> for VerificationError {
    open spec fn obeys_from_spec() -> bool {
        true
    }

    open spec fn from_spec(e: std::io::Error) -> VerificationError {
        VerificationError::Io(e)
    }
}

} // verus!
