//! The check of each built-in kind of evidence: from the evidence and what
//! was observed to a verdict and a line of detail.
//!
//! A check never fails: whatever went wrong is told by the verdict. An
//! observation of another kind than the evidence asks for, or none at all,
//! means that the check could not be made.

use vstd::prelude::*;
use vstd::seq_lib::{to_multiset_contains, to_multiset_len};
use crate::digest::{hash_hex, sha256_hex};
use crate::evidence::EvidenceSpecView;
use crate::json::{json_debug_text, json_document, json_equal, parse_json, JsonView};
use crate::json_path::{extract_json_path, resolve_path};
use crate::observation::{ModifiedTime, ModifiedTimeView, Observation, ObservationView};
use crate::observation::{probe_of, ProcessOutputView};
use crate::pattern::{compile, is_match, regex_error, regex_finds};
use crate::text::{contains_text, join2, join3, occurs_in, same_text, signed_decimal};
use crate::text::{signed_decimal_text, trim, trimmed};
use crate::timestamp::{parse_rfc3339, rfc3339_instant, utc_display, utc_text, Timestamp};
use crate::verdict::{aggregate, lemma_aggregate_by_contents, Verdict};

verus! {

/// What a check promises: the verdict, and the line of detail, either word
/// for word or by how it starts.
pub struct Finding {
    pub verdict: Verdict,
    pub text: Seq<char>,
    pub exact: bool,
}

impl Finding {
    /// Whether a verdict and a line of detail are what this finding
    /// promises.
    pub open spec fn admits(self, verdict: Verdict, details: Seq<char>) -> bool {
        &&& verdict == self.verdict
        &&& if self.exact {
            details == self.text
        } else {
            self.text.is_prefix_of(details)
        }
    }
}

/// The finding that the evidence is confirmed, with this detail.
pub open spec fn confirmed(text: Seq<char>) -> Finding {
    Finding { verdict: Verdict::Confirmed, text, exact: true }
}

/// The finding that the evidence is refuted, with this detail.
pub open spec fn refuted(text: Seq<char>) -> Finding {
    Finding { verdict: Verdict::Refuted, text, exact: true }
}

/// The finding that the check could not be made, with this detail.
pub open spec fn unverifiable(text: Seq<char>) -> Finding {
    Finding { verdict: Verdict::Unverifiable, text, exact: true }
}

/// The finding where the observation is of another kind than the evidence
/// asks for.
pub open spec fn unobserved() -> Finding {
    unverifiable("No observation fits this evidence"@)
}

/// How an exit code is written out: `Some(1)`, or `None` for a process that
/// did not exit by itself.
pub open spec fn exit_code_text(code: Option<i32>) -> Seq<char> {
    match code {
        Some(code) => "Some("@ + signed_decimal(code as int) + ")"@,
        None => "None"@,
    }
}

/// How an instant is written out: as a date and time in UTC, or in seconds
/// where the date lies outside the calendar.
pub open spec fn instant_text(t: Timestamp) -> Seq<char> {
    match utc_display(t.secs, t.nanos) {
        Some(text) => text,
        None => signed_decimal(t.secs as int) + "s"@,
    }
}

/// The file is there or it is not: whatever kept it from being seen counts
/// as not there.
pub open spec fn file_exists_finding(path: Seq<char>, observed: ObservationView) -> Finding {
    match observed {
        ObservationView::Exists(true) => confirmed("File exists: "@ + path),
        ObservationView::Exists(false) => refuted("File not found: "@ + path),
        _ => unobserved(),
    }
}

/// The path is a directory or it is not.
pub open spec fn directory_exists_finding(path: Seq<char>, observed: ObservationView) -> Finding {
    match observed {
        ObservationView::Exists(true) => confirmed("Directory exists: "@ + path),
        ObservationView::Exists(false) => refuted("Directory not found: "@ + path),
        _ => unobserved(),
    }
}

/// The digest is compared as text, letter for letter.
pub open spec fn file_hash_finding(sha256: Seq<char>, observed: ObservationView) -> Finding {
    match observed {
        ObservationView::Bytes(Ok(bytes)) => if sha256_hex(bytes) == sha256 {
            confirmed("Hash matches"@)
        } else {
            refuted("Hash mismatch: expected "@ + sha256 + ", got "@ + sha256_hex(bytes))
        },
        ObservationView::Bytes(Err(why)) => refuted("Cannot read file: "@ + why),
        _ => unobserved(),
    }
}

/// The substring occurs somewhere in the text of the file or it does not; a
/// file that cannot be read refutes.
pub open spec fn file_contains_finding(substring: Seq<char>, observed: ObservationView) -> Finding {
    match observed {
        ObservationView::Text(Ok(text)) => if occurs_in(substring, text) {
            confirmed("Substring found"@)
        } else {
            refuted("Substring not found"@)
        },
        ObservationView::Text(Err(why)) => refuted("Cannot read file: "@ + why),
        _ => unobserved(),
    }
}

/// A pattern that does not compile cannot be checked, whatever was observed.
pub open spec fn file_matches_finding(pattern: Seq<char>, observed: ObservationView) -> Finding {
    match regex_error(pattern) {
        Some(message) => unverifiable("Invalid regex pattern: "@ + message),
        None => match observed {
            ObservationView::Text(Ok(text)) => if regex_finds(pattern, text) {
                confirmed("Pattern matched"@)
            } else {
                refuted("Pattern not matched"@)
            },
            ObservationView::Text(Err(why)) => refuted("Cannot read file: "@ + why),
            _ => unobserved(),
        },
    }
}

/// A file that is no JSON document and a path that leads nowhere both
/// refute. Where the value differs, the detail goes on with the two values.
pub open spec fn json_path_finding(
    json_path: Seq<char>,
    expected: JsonView,
    observed: ObservationView,
) -> Finding {
    match observed {
        ObservationView::Text(Ok(text)) => match json_document(text) {
            Ok(document) => match resolve_path(document, json_path) {
                Some(actual) => if actual == expected {
                    confirmed("JSON path matches"@)
                } else {
                    Finding {
                        verdict: Verdict::Refuted,
                        text: "JSON path mismatch: expected "@,
                        exact: false,
                    }
                },
                None => refuted("JSON path not found: "@ + json_path),
            },
            Err(message) => refuted("Invalid JSON: "@ + message),
        },
        ObservationView::Text(Err(why)) => refuted("Cannot read file: "@ + why),
        _ => unobserved(),
    }
}

/// A command that cannot be started refutes like one that fails.
pub open spec fn command_finding(observed: ObservationView) -> Finding {
    match observed {
        ObservationView::Process(Ok(output)) => if output.success {
            confirmed("Command succeeded"@)
        } else {
            refuted("Command failed with exit code: "@ + exit_code_text(output.code))
        },
        ObservationView::Process(Err(why)) => refuted("Command error: "@ + why),
        _ => unobserved(),
    }
}

/// The finding where git itself could not be run.
pub open spec fn git_missing(why: Seq<char>) -> Finding {
    unverifiable("Git not available: "@ + why)
}

/// The working tree is clean when git succeeds and reports nothing but
/// white space.
pub open spec fn git_clean_finding(observed: ObservationView) -> Finding {
    match observed {
        ObservationView::Process(Ok(output)) => if !output.success {
            refuted("Not a git repository or git error"@)
        } else if trimmed(output.stdout).len() == 0 {
            confirmed("Working directory is clean"@)
        } else {
            refuted("Uncommitted changes:\n"@ + trimmed(output.stdout))
        },
        ObservationView::Process(Err(why)) => git_missing(why),
        _ => unobserved(),
    }
}

/// The commit exists when git succeeds and names the kind of the object as
/// `commit`.
pub open spec fn git_commit_finding(commit: Seq<char>, observed: ObservationView) -> Finding {
    match observed {
        ObservationView::Process(Ok(output)) => if !output.success {
            refuted("Commit "@ + commit + " not found"@)
        } else if trimmed(output.stdout) == "commit"@ {
            confirmed("Commit "@ + commit + " exists"@)
        } else {
            refuted(commit + " is a "@ + trimmed(output.stdout) + ", not a commit"@)
        },
        ObservationView::Process(Err(why)) => git_missing(why),
        _ => unobserved(),
    }
}

/// The branch exists when git succeeds in resolving it.
pub open spec fn git_branch_finding(branch: Seq<char>, observed: ObservationView) -> Finding {
    match observed {
        ObservationView::Process(Ok(output)) => if output.success {
            confirmed("Branch "@ + branch + " exists"@)
        } else {
            refuted("Branch "@ + branch + " not found"@)
        },
        ObservationView::Process(Err(why)) => git_missing(why),
        _ => unobserved(),
    }
}

/// A date that cannot be read cannot be checked, whatever was observed. A
/// file modified at the very instant of the threshold was not modified
/// after it.
pub open spec fn modified_after_finding(after: Seq<char>, observed: ObservationView) -> Finding {
    match rfc3339_instant(after) {
        Err(message) => unverifiable("Invalid timestamp '"@ + after + "': "@ + message),
        Ok(threshold) => match observed {
            ObservationView::Modified(ModifiedTimeView::At(t)) => if t.later_than(threshold) {
                confirmed("File modified at "@ + instant_text(t))
            } else {
                refuted("File last modified "@ + instant_text(t) + " (before "@ + after + ")"@)
            },
            ObservationView::Modified(ModifiedTimeView::Unknown(why)) => unverifiable(
                "Cannot get modification time: "@ + why,
            ),
            ObservationView::Modified(ModifiedTimeView::NoFile(why)) => refuted(
                "Cannot stat file: "@ + why,
            ),
            _ => unobserved(),
        },
    }
}

/// A variable that is not set refutes.
pub open spec fn env_var_finding(
    name: Seq<char>,
    expected: Seq<char>,
    observed: ObservationView,
) -> Finding {
    match observed {
        ObservationView::Variable(Some(actual)) => if actual == expected {
            confirmed(name + "="@ + expected)
        } else {
            refuted(name + "="@ + actual + " (expected "@ + expected + ")"@)
        },
        ObservationView::Variable(None) => refuted(
            "Environment variable "@ + name + " not set"@,
        ),
        _ => unobserved(),
    }
}

/// What the check of a built-in kind of evidence finds. (A custom check is
/// the business of the checker that is registered for it.)
pub open spec fn builtin_finding(evidence: EvidenceSpecView, observed: ObservationView) -> Finding {
    match evidence {
        EvidenceSpecView::FileExists { path } => file_exists_finding(path, observed),
        EvidenceSpecView::FileWithHash { sha256, .. } => file_hash_finding(sha256, observed),
        EvidenceSpecView::FileContains { substring, .. } => file_contains_finding(
            substring,
            observed,
        ),
        EvidenceSpecView::FileMatchesRegex { pattern, .. } => file_matches_finding(
            pattern,
            observed,
        ),
        EvidenceSpecView::FileJsonPath { json_path, expected, .. } => json_path_finding(
            json_path,
            expected,
            observed,
        ),
        EvidenceSpecView::DirectoryExists { path } => directory_exists_finding(path, observed),
        EvidenceSpecView::CommandSucceeds { .. } => command_finding(observed),
        EvidenceSpecView::GitClean { .. } => git_clean_finding(observed),
        EvidenceSpecView::GitCommitExists { commit, .. } => git_commit_finding(commit, observed),
        EvidenceSpecView::GitBranchExists { branch, .. } => git_branch_finding(branch, observed),
        EvidenceSpecView::FileModifiedAfter { after, .. } => modified_after_finding(
            after,
            observed,
        ),
        EvidenceSpecView::EnvVar { name, expected } => env_var_finding(name, expected, observed),
        EvidenceSpecView::Custom { .. } => unobserved(),
    }
}

/// A file checked against the digest of its own bytes is confirmed.
pub proof fn law_own_digest_confirms(path: Seq<char>, bytes: Seq<u8>)
    ensures
        builtin_finding(
            EvidenceSpecView::FileWithHash { path, sha256: sha256_hex(bytes) },
            ObservationView::Bytes(Ok(bytes)),
        ).verdict == Verdict::Confirmed,
{
}

/// A file checked against its digest with one character changed is
/// refuted, whichever character it is and whatever it is changed to.
pub proof fn law_changed_digest_refutes(path: Seq<char>, bytes: Seq<u8>, at: int, c: char)
    requires
        0 <= at < sha256_hex(bytes).len(),
        c != sha256_hex(bytes)[at],
    ensures
        builtin_finding(
            EvidenceSpecView::FileWithHash { path, sha256: sha256_hex(bytes).update(at, c) },
            ObservationView::Bytes(Ok(bytes)),
        ).verdict == Verdict::Refuted,
{
    assert(sha256_hex(bytes).update(at, c)[at] != sha256_hex(bytes)[at]);
}

/// Whether a piece of evidence is one of the three git checks.
pub open spec fn asks_git(evidence: EvidenceSpecView) -> bool {
    evidence is GitClean || evidence is GitCommitExists || evidence is GitBranchExists
}

/// Where git itself cannot be run, a git check is unverifiable.
pub proof fn law_git_unavailable_is_unverifiable(evidence: EvidenceSpecView, why: Seq<char>)
    requires
        asks_git(evidence),
    ensures
        builtin_finding(evidence, ObservationView::Process(Err(why))).verdict
            == Verdict::Unverifiable,
{
}

/// Where git runs and fails, as it does for a commit or a branch that is
/// not there, a git check is refuted.
pub proof fn law_git_failure_refutes(evidence: EvidenceSpecView, output: ProcessOutputView)
    requires
        asks_git(evidence),
        !output.success,
    ensures
        builtin_finding(evidence, ObservationView::Process(Ok(output))).verdict
            == Verdict::Refuted,
{
}

/// No check of a built-in kind is inconclusive: that verdict is for the
/// claim as a whole.
pub proof fn law_builtin_is_never_inconclusive(
    evidence: EvidenceSpecView,
    observed: ObservationView,
)
    ensures
        builtin_finding(evidence, observed).verdict != Verdict::Inconclusive,
{
}

/// Where nothing has to be observed for a piece of evidence of a built-in
/// kind, what was observed makes no difference to the finding.
pub proof fn law_nothing_to_observe(
    evidence: EvidenceSpecView,
    first: ObservationView,
    second: ObservationView,
)
    requires
        !(evidence is Custom),
        probe_of(evidence) is Nothing,
    ensures
        builtin_finding(evidence, first) == builtin_finding(evidence, second),
{
}

/// The verdicts of the built-in checks on pieces of evidence, each paired
/// with what was observed for it.
pub open spec fn builtin_verdicts(items: Seq<(EvidenceSpecView, ObservationView)>) -> Seq<Verdict> {
    items.map_values(
        |item: (EvidenceSpecView, ObservationView)| builtin_finding(item.0, item.1).verdict,
    )
}

/// Shuffling the evidence of a claim, each piece together with what was
/// observed for it, does not change the verdict on the claim.
pub proof fn law_shuffled_evidence_same_verdict(
    a: Seq<(EvidenceSpecView, ObservationView)>,
    b: Seq<(EvidenceSpecView, ObservationView)>,
)
    requires
        a.to_multiset() == b.to_multiset(),
    ensures
        aggregate(builtin_verdicts(a)) == aggregate(builtin_verdicts(b)),
{
    to_multiset_len(a);
    to_multiset_len(b);
    let va = builtin_verdicts(a);
    let vb = builtin_verdicts(b);
    assert forall|v: Verdict| va.contains(v) == vb.contains(v) by {
        if va.contains(v) {
            let i = choose|i: int| 0 <= i < va.len() && va[i] == v;
            to_multiset_contains(a, a[i]);
            to_multiset_contains(b, a[i]);
            assert(a.contains(a[i]));
            let j = choose|j: int| 0 <= j < b.len() && b[j] == a[i];
            assert(vb[j] == v);
        }
        if vb.contains(v) {
            let i = choose|i: int| 0 <= i < vb.len() && vb[i] == v;
            to_multiset_contains(a, b[i]);
            to_multiset_contains(b, b[i]);
            assert(b.contains(b[i]));
            let j = choose|j: int| 0 <= j < a.len() && a[j] == b[i];
            assert(va[j] == v);
        }
    }
    lemma_aggregate_by_contents(va, vb);
}

fn no_observation() -> (r: (Verdict, String))
    ensures
        unobserved().admits(r.0, r.1@),
{
    (Verdict::Unverifiable, String::from_str("No observation fits this evidence"))
}

/// Checks that a file exists.
pub fn check_file_exists(path: &str, observed: &Observation) -> (r: (Verdict, String))
    ensures
        file_exists_finding(path@, observed@).admits(r.0, r.1@),
{
    match observed {
        Observation::Exists(true) => (Verdict::Confirmed, join2("File exists: ", path)),
        Observation::Exists(false) => (Verdict::Refuted, join2("File not found: ", path)),
        _ => no_observation(),
    }
}

/// Checks that a directory exists.
pub fn check_directory_exists(path: &str, observed: &Observation) -> (r: (Verdict, String))
    ensures
        directory_exists_finding(path@, observed@).admits(r.0, r.1@),
{
    match observed {
        Observation::Exists(true) => (Verdict::Confirmed, join2("Directory exists: ", path)),
        Observation::Exists(false) => (Verdict::Refuted, join2("Directory not found: ", path)),
        _ => no_observation(),
    }
}

/// Checks that the SHA-256 digest of a file is the expected one.
pub fn check_file_hash(sha256: &str, observed: &Observation) -> (r: (Verdict, String))
    ensures
        file_hash_finding(sha256@, observed@).admits(r.0, r.1@),
{
    match observed {
        Observation::Bytes(Ok(contents)) => {
            let actual = hash_hex(contents.as_slice());
            if same_text(actual.as_str(), sha256) {
                (Verdict::Confirmed, String::from_str("Hash matches"))
            } else {
                let mut text = join3("Hash mismatch: expected ", sha256, ", got ");
                text.append(actual.as_str());
                (Verdict::Refuted, text)
            }
        },
        Observation::Bytes(Err(why)) => (
            Verdict::Refuted,
            join2("Cannot read file: ", why.as_str()),
        ),
        _ => no_observation(),
    }
}

/// Checks that a file contains a substring.
pub fn check_file_contains(substring: &str, observed: &Observation) -> (r: (Verdict, String))
    ensures
        file_contains_finding(substring@, observed@).admits(r.0, r.1@),
{
    match observed {
        Observation::Text(Ok(contents)) => {
            if contains_text(contents.as_str(), substring) {
                (Verdict::Confirmed, String::from_str("Substring found"))
            } else {
                (Verdict::Refuted, String::from_str("Substring not found"))
            }
        },
        Observation::Text(Err(why)) => (
            Verdict::Refuted,
            join2("Cannot read file: ", why.as_str()),
        ),
        _ => no_observation(),
    }
}

/// Checks that a regular expression matches somewhere in a file.
pub fn check_file_matches(pattern: &str, observed: &Observation) -> (r: (Verdict, String))
    ensures
        file_matches_finding(pattern@, observed@).admits(r.0, r.1@),
{
    match compile(pattern) {
        Err(message) => (Verdict::Unverifiable, join2("Invalid regex pattern: ", message.as_str())),
        Ok(re) => match observed {
            Observation::Text(Ok(contents)) => {
                if is_match(&re, contents.as_str()) {
                    (Verdict::Confirmed, String::from_str("Pattern matched"))
                } else {
                    (Verdict::Refuted, String::from_str("Pattern not matched"))
                }
            },
            Observation::Text(Err(why)) => (
                Verdict::Refuted,
                join2("Cannot read file: ", why.as_str()),
            ),
            _ => no_observation(),
        },
    }
}

/// Checks that a JSON file holds the expected value where a path leads.
pub fn check_json_path(
    json_path: &str,
    expected: &serde_json::Value,
    observed: &Observation,
) -> (r: (Verdict, String))
    ensures
        json_path_finding(json_path@, crate::json::json_model(*expected), observed@).admits(
            r.0,
            r.1@,
        ),
{
    match observed {
        Observation::Text(Ok(contents)) => match parse_json(contents.as_str()) {
            Ok(document) => match extract_json_path(&document, json_path) {
                Some(actual) => {
                    if json_equal(actual, expected) {
                        (Verdict::Confirmed, String::from_str("JSON path matches"))
                    } else {
                        let wanted = json_debug_text(expected);
                        let got = json_debug_text(actual);
                        let mut text = join3(
                            "JSON path mismatch: expected ",
                            wanted.as_str(),
                            ", got ",
                        );
                        text.append(got.as_str());
                        (Verdict::Refuted, text)
                    }
                },
                None => (Verdict::Refuted, join2("JSON path not found: ", json_path)),
            },
            Err(message) => (Verdict::Refuted, join2("Invalid JSON: ", message.as_str())),
        },
        Observation::Text(Err(why)) => (
            Verdict::Refuted,
            join2("Cannot read file: ", why.as_str()),
        ),
        _ => no_observation(),
    }
}

fn exit_code(code: &Option<i32>) -> (text: String)
    ensures
        text@ == exit_code_text(*code),
{
    match code {
        Some(code) => {
            let digits = signed_decimal_text(*code as i64);
            join3("Some(", digits.as_str(), ")")
        },
        None => String::from_str("None"),
    }
}

/// Checks that a command exited with success.
pub fn check_command(observed: &Observation) -> (r: (Verdict, String))
    ensures
        command_finding(observed@).admits(r.0, r.1@),
{
    match observed {
        Observation::Process(Ok(output)) => {
            if output.success {
                (Verdict::Confirmed, String::from_str("Command succeeded"))
            } else {
                let code = exit_code(&output.code);
                (Verdict::Refuted, join2("Command failed with exit code: ", code.as_str()))
            }
        },
        Observation::Process(Err(why)) => (
            Verdict::Refuted,
            join2("Command error: ", why.as_str()),
        ),
        _ => no_observation(),
    }
}

fn git_not_available(why: &str) -> (r: (Verdict, String))
    ensures
        git_missing(why@).admits(r.0, r.1@),
{
    (Verdict::Unverifiable, join2("Git not available: ", why))
}

/// Checks that a git working tree has no uncommitted changes.
pub fn check_git_clean(observed: &Observation) -> (r: (Verdict, String))
    ensures
        git_clean_finding(observed@).admits(r.0, r.1@),
{
    match observed {
        Observation::Process(Ok(output)) => {
            if !output.success {
                (Verdict::Refuted, String::from_str("Not a git repository or git error"))
            } else {
                let changes = trim(output.stdout.as_str());
                if changes.unicode_len() == 0 {
                    (Verdict::Confirmed, String::from_str("Working directory is clean"))
                } else {
                    (Verdict::Refuted, join2("Uncommitted changes:\n", changes))
                }
            }
        },
        Observation::Process(Err(why)) => git_not_available(why.as_str()),
        _ => no_observation(),
    }
}

/// Checks that a git commit exists.
pub fn check_git_commit(commit: &str, observed: &Observation) -> (r: (Verdict, String))
    ensures
        git_commit_finding(commit@, observed@).admits(r.0, r.1@),
{
    match observed {
        Observation::Process(Ok(output)) => {
            if !output.success {
                (Verdict::Refuted, join3("Commit ", commit, " not found"))
            } else {
                let kind = trim(output.stdout.as_str());
                if same_text(kind, "commit") {
                    (Verdict::Confirmed, join3("Commit ", commit, " exists"))
                } else {
                    let mut text = join3(commit, " is a ", kind);
                    text.append(", not a commit");
                    (Verdict::Refuted, text)
                }
            }
        },
        Observation::Process(Err(why)) => git_not_available(why.as_str()),
        _ => no_observation(),
    }
}

/// Checks that a git branch exists.
pub fn check_git_branch(branch: &str, observed: &Observation) -> (r: (Verdict, String))
    ensures
        git_branch_finding(branch@, observed@).admits(r.0, r.1@),
{
    match observed {
        Observation::Process(Ok(output)) => {
            if output.success {
                (Verdict::Confirmed, join3("Branch ", branch, " exists"))
            } else {
                (Verdict::Refuted, join3("Branch ", branch, " not found"))
            }
        },
        Observation::Process(Err(why)) => git_not_available(why.as_str()),
        _ => no_observation(),
    }
}

fn instant(t: Timestamp) -> (text: String)
    ensures
        text@ == instant_text(t),
{
    match utc_text(t) {
        Some(text) => text,
        None => {
            let seconds = signed_decimal_text(t.secs);
            join2(seconds.as_str(), "s")
        },
    }
}

/// Checks that a file was modified after a date and time.
pub fn check_modified_after(after: &str, observed: &Observation) -> (r: (Verdict, String))
    ensures
        modified_after_finding(after@, observed@).admits(r.0, r.1@),
{
    match parse_rfc3339(after) {
        Err(message) => {
            let mut text = join3("Invalid timestamp '", after, "': ");
            text.append(message.as_str());
            (Verdict::Unverifiable, text)
        },
        Ok(threshold) => match observed {
            Observation::Modified(ModifiedTime::At(t)) => {
                let when = instant(*t);
                if t.is_after(&threshold) {
                    (Verdict::Confirmed, join2("File modified at ", when.as_str()))
                } else {
                    let mut text = join3("File last modified ", when.as_str(), " (before ");
                    text.append(after);
                    text.append(")");
                    (Verdict::Refuted, text)
                }
            },
            Observation::Modified(ModifiedTime::Unknown(why)) => (
                Verdict::Unverifiable,
                join2("Cannot get modification time: ", why.as_str()),
            ),
            Observation::Modified(ModifiedTime::NoFile(why)) => (
                Verdict::Refuted,
                join2("Cannot stat file: ", why.as_str()),
            ),
            _ => no_observation(),
        },
    }
}

/// Checks that an environment variable has the expected value.
pub fn check_env_var(name: &str, expected: &str, observed: &Observation) -> (r: (
    Verdict,
    String,
))
    ensures
        env_var_finding(name@, expected@, observed@).admits(r.0, r.1@),
{
    match observed {
        Observation::Variable(Some(actual)) => {
            if same_text(actual.as_str(), expected) {
                (Verdict::Confirmed, join3(name, "=", expected))
            } else {
                let mut text = join3(name, "=", actual.as_str());
                text.append(" (expected ");
                text.append(expected);
                text.append(")");
                (Verdict::Refuted, text)
            }
        },
        Observation::Variable(None) => (
            Verdict::Refuted,
            join3("Environment variable ", name, " not set"),
        ),
        _ => no_observation(),
    }
}

} // verus!
