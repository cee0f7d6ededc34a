//! The kinds of evidence that can be checked.

use vstd::prelude::*;
use std::collections::HashMap;
use crate::json::{json_clone, json_model, JsonView};

verus! {

/// One observable condition that holds if a claim is true.
///
/// Every kind carries all that its check needs: no check looks at another
/// item.
#[derive(Debug)]
#[allow(inconsistent_fields)]
pub enum EvidenceSpec {
    /// A file should exist at the given path.
    FileExists { path: String },
    /// A file should exist with this SHA-256 digest, in lower-case
    /// hexadecimal.
    FileWithHash { path: String, sha256: String },
    /// A file should contain the given substring.
    FileContains { path: String, substring: String },
    /// A regular expression should match somewhere in a file.
    FileMatchesRegex { path: String, pattern: String },
    /// A JSON file should hold `expected` where `json_path` leads, as in
    /// `.field.nested[0].value`.
    FileJsonPath { path: String, json_path: String, expected: serde_json::Value },
    /// A directory should exist.
    DirectoryExists { path: String },
    /// A command should exit with success.
    CommandSucceeds { command: String, args: Vec<String> },
    /// The git working tree should have no uncommitted changes. The
    /// repository is the current directory unless a path is given.
    GitClean { repo_path: Option<String> },
    /// A commit, named by its full or short hash, should exist.
    GitCommitExists { commit: String, repo_path: Option<String> },
    /// A branch should exist.
    GitBranchExists { branch: String, repo_path: Option<String> },
    /// A file should have been modified after an RFC 3339 date and time.
    FileModifiedAfter { path: String, after: String },
    /// An environment variable should have the expected value.
    EnvVar { name: String, expected: String },
    /// A check of the caller's own, registered under `name`.
    Custom { name: String, params: HashMap<String, String> },
}

/// The mathematical model of an [`EvidenceSpec`].
#[allow(inconsistent_fields)]
pub enum EvidenceSpecView {
    FileExists { path: Seq<char> },
    FileWithHash { path: Seq<char>, sha256: Seq<char> },
    FileContains { path: Seq<char>, substring: Seq<char> },
    FileMatchesRegex { path: Seq<char>, pattern: Seq<char> },
    FileJsonPath { path: Seq<char>, json_path: Seq<char>, expected: JsonView },
    DirectoryExists { path: Seq<char> },
    CommandSucceeds { command: Seq<char>, args: Seq<Seq<char>> },
    GitClean { repo_path: Option<Seq<char>> },
    GitCommitExists { commit: Seq<char>, repo_path: Option<Seq<char>> },
    GitBranchExists { branch: Seq<char>, repo_path: Option<Seq<char>> },
    FileModifiedAfter { path: Seq<char>, after: Seq<char> },
    EnvVar { name: Seq<char>, expected: Seq<char> },
    Custom { name: Seq<char>, params: Map<String, String> },
}

/// The characters of each string of a list.
pub open spec fn texts(strings: Seq<String>) -> Seq<Seq<char>> {
    strings.map_values(|s: String| s@)
}

/// The characters of a string that may be absent.
pub open spec fn optional_text(s: Option<String>) -> Option<Seq<char>> {
    match s {
        Some(s) => Some(s@),
        None => None,
    }
}

impl View for EvidenceSpec {
    type V = EvidenceSpecView;

    open spec fn view(&self) -> EvidenceSpecView {
        match *self {
            EvidenceSpec::FileExists { path } => EvidenceSpecView::FileExists { path: path@ },
            EvidenceSpec::FileWithHash { path, sha256 } => EvidenceSpecView::FileWithHash {
                path: path@,
                sha256: sha256@,
            },
            EvidenceSpec::FileContains { path, substring } => EvidenceSpecView::FileContains {
                path: path@,
                substring: substring@,
            },
            EvidenceSpec::FileMatchesRegex { path, pattern } => EvidenceSpecView::FileMatchesRegex {
                path: path@,
                pattern: pattern@,
            },
            EvidenceSpec::FileJsonPath { path, json_path, expected } => {
                EvidenceSpecView::FileJsonPath {
                    path: path@,
                    json_path: json_path@,
                    expected: json_model(expected),
                }
            },
            EvidenceSpec::DirectoryExists { path } => EvidenceSpecView::DirectoryExists {
                path: path@,
            },
            EvidenceSpec::CommandSucceeds { command, args } => EvidenceSpecView::CommandSucceeds {
                command: command@,
                args: texts(args@),
            },
            EvidenceSpec::GitClean { repo_path } => EvidenceSpecView::GitClean {
                repo_path: optional_text(repo_path),
            },
            EvidenceSpec::GitCommitExists { commit, repo_path } => {
                EvidenceSpecView::GitCommitExists {
                    commit: commit@,
                    repo_path: optional_text(repo_path),
                }
            },
            EvidenceSpec::GitBranchExists { branch, repo_path } => {
                EvidenceSpecView::GitBranchExists {
                    branch: branch@,
                    repo_path: optional_text(repo_path),
                }
            },
            EvidenceSpec::FileModifiedAfter { path, after } => EvidenceSpecView::FileModifiedAfter {
                path: path@,
                after: after@,
            },
            EvidenceSpec::EnvVar { name, expected } => EvidenceSpecView::EnvVar {
                name: name@,
                expected: expected@,
            },
            EvidenceSpec::Custom { name, params } => EvidenceSpecView::Custom {
                name: name@,
                params: params@,
            },
        }
    }
}

/// A copy of a list of strings.
pub fn clone_strings(strings: &Vec<String>) -> (copy: Vec<String>)
    ensures
        copy@ == strings@,
{
    let mut copy: Vec<String> = Vec::new();
    let mut i: usize = 0;
    while i < strings.len()
        invariant
            i <= strings.len(),
            copy@ == strings@.take(i as int),
        decreases strings.len() - i,
    {
        copy.push(strings[i].clone());
        i += 1;
        assert(copy@ =~= strings@.take(i as int));
    }
    assert(strings@.take(strings.len() as int) =~= strings@);
    copy
}

/// A copy of a string that may be absent.
pub fn clone_optional(s: &Option<String>) -> (copy: Option<String>)
    ensures
        copy == *s,
{
    match s {
        Some(s) => Some(s.clone()),
        None => None,
    }
}

impl Clone for EvidenceSpec {
    fn clone(&self) -> (copy: Self)
        ensures
            copy@ == self@,
    {
        match self {
            EvidenceSpec::FileExists { path } => EvidenceSpec::FileExists { path: path.clone() },
            EvidenceSpec::FileWithHash { path, sha256 } => EvidenceSpec::FileWithHash {
                path: path.clone(),
                sha256: sha256.clone(),
            },
            EvidenceSpec::FileContains { path, substring } => EvidenceSpec::FileContains {
                path: path.clone(),
                substring: substring.clone(),
            },
            EvidenceSpec::FileMatchesRegex { path, pattern } => EvidenceSpec::FileMatchesRegex {
                path: path.clone(),
                pattern: pattern.clone(),
            },
            EvidenceSpec::FileJsonPath { path, json_path, expected } => EvidenceSpec::FileJsonPath {
                path: path.clone(),
                json_path: json_path.clone(),
                expected: json_clone(expected),
            },
            EvidenceSpec::DirectoryExists { path } => EvidenceSpec::DirectoryExists {
                path: path.clone(),
            },
            EvidenceSpec::CommandSucceeds { command, args } => EvidenceSpec::CommandSucceeds {
                command: command.clone(),
                args: clone_strings(args),
            },
            EvidenceSpec::GitClean { repo_path } => EvidenceSpec::GitClean {
                repo_path: clone_optional(repo_path),
            },
            EvidenceSpec::GitCommitExists { commit, repo_path } => EvidenceSpec::GitCommitExists {
                commit: commit.clone(),
                repo_path: clone_optional(repo_path),
            },
            EvidenceSpec::GitBranchExists { branch, repo_path } => EvidenceSpec::GitBranchExists {
                branch: branch.clone(),
                repo_path: clone_optional(repo_path),
            },
            EvidenceSpec::FileModifiedAfter { path, after } => EvidenceSpec::FileModifiedAfter {
                path: path.clone(),
                after: after.clone(),
            },
            EvidenceSpec::EnvVar { name, expected } => EvidenceSpec::EnvVar {
                name: name.clone(),
                expected: expected.clone(),
            },
            EvidenceSpec::Custom { name, params } => EvidenceSpec::Custom {
                name: name.clone(),
                params: params.clone(),
            },
        }
    }
}

} // verus!
