//! What has to be observed on the machine for a piece of evidence, and what
//! was observed.
//!
//! The library does not touch the machine. [`probe_for`] says what to look
//! at; the caller looks and reports an [`Observation`].

use vstd::prelude::*;
use crate::evidence::{optional_text, texts, EvidenceSpec, EvidenceSpecView};
use crate::evidence::clone_strings;
use crate::pattern::{compile, regex_error};
use crate::text::join2;
use crate::timestamp::{parse_rfc3339, rfc3339_instant, Timestamp};

verus! {

/// How a process ended, and what it wrote.
#[derive(Debug, PartialEq, Eq)]
pub struct ProcessOutput {
    /// Whether the process exited with success.
    pub success: bool,
    /// The exit code, if the process exited by itself.
    pub code: Option<i32>,
    /// What the process wrote to its standard output, as text.
    pub stdout: String,
}

/// What asking for the time of a file's last modification gave.
#[derive(Debug, PartialEq, Eq)]
pub enum ModifiedTime {
    /// The file was last modified at this instant.
    At(Timestamp),
    /// The file is there, and the time could not be had; with the message of
    /// the error.
    Unknown(String),
    /// The file could not be looked at; with the message of the error.
    NoFile(String),
}

/// What was observed for one piece of evidence. Failures carry the message of
/// the error.
#[derive(Debug, PartialEq, Eq)]
pub enum Observation {
    /// Nothing was observed.
    Nothing,
    /// Whether the path exists (and is a directory, where one was asked
    /// for).
    Exists(bool),
    /// The bytes of a file.
    Bytes(Result<Vec<u8>, String>),
    /// The text of a file.
    Text(Result<String, String>),
    /// The outcome of a process, or why it could not be started.
    Process(Result<ProcessOutput, String>),
    /// The time of a file's last modification.
    Modified(ModifiedTime),
    /// The value of an environment variable, if it is set.
    Variable(Option<String>),
}

/// What to observe for one piece of evidence.
#[derive(Debug, PartialEq, Eq)]
pub enum Probe {
    /// Nothing: the verdict does not depend on the machine.
    Nothing,
    /// Whether the path exists.
    PathExists { path: String },
    /// Whether the path exists and is a directory.
    DirectoryExists { path: String },
    /// The bytes of the file.
    ReadBytes { path: String },
    /// The text of the file.
    ReadText { path: String },
    /// The outcome of running the program with these arguments, with no
    /// shell in between.
    Run { program: String, args: Vec<String> },
    /// The time of the file's last modification.
    ModifiedTime { path: String },
    /// The value of the environment variable.
    Variable { name: String },
}

/// The mathematical model of a [`ProcessOutput`].
pub struct ProcessOutputView {
    pub success: bool,
    pub code: Option<i32>,
    pub stdout: Seq<char>,
}

/// The mathematical model of a [`ModifiedTime`].
pub enum ModifiedTimeView {
    At(Timestamp),
    Unknown(Seq<char>),
    NoFile(Seq<char>),
}

/// The mathematical model of an [`Observation`].
pub enum ObservationView {
    Nothing,
    Exists(bool),
    Bytes(Result<Seq<u8>, Seq<char>>),
    Text(Result<Seq<char>, Seq<char>>),
    Process(Result<ProcessOutputView, Seq<char>>),
    Modified(ModifiedTimeView),
    Variable(Option<Seq<char>>),
}

/// The mathematical model of a [`Probe`].
pub enum ProbeView {
    Nothing,
    PathExists { path: Seq<char> },
    DirectoryExists { path: Seq<char> },
    ReadBytes { path: Seq<char> },
    ReadText { path: Seq<char> },
    Run { program: Seq<char>, args: Seq<Seq<char>> },
    ModifiedTime { path: Seq<char> },
    Variable { name: Seq<char> },
}

impl View for ProcessOutput {
    type V = ProcessOutputView;

    open spec fn view(&self) -> ProcessOutputView {
        ProcessOutputView { success: self.success, code: self.code, stdout: self.stdout@ }
    }
}

impl View for ModifiedTime {
    type V = ModifiedTimeView;

    open spec fn view(&self) -> ModifiedTimeView {
        match *self {
            ModifiedTime::At(t) => ModifiedTimeView::At(t),
            ModifiedTime::Unknown(why) => ModifiedTimeView::Unknown(why@),
            ModifiedTime::NoFile(why) => ModifiedTimeView::NoFile(why@),
        }
    }
}

impl View for Observation {
    type V = ObservationView;

    open spec fn view(&self) -> ObservationView {
        match *self {
            Observation::Nothing => ObservationView::Nothing,
            Observation::Exists(found) => ObservationView::Exists(found),
            Observation::Bytes(Ok(bytes)) => ObservationView::Bytes(Ok(bytes@)),
            Observation::Bytes(Err(why)) => ObservationView::Bytes(Err(why@)),
            Observation::Text(Ok(text)) => ObservationView::Text(Ok(text@)),
            Observation::Text(Err(why)) => ObservationView::Text(Err(why@)),
            Observation::Process(Ok(output)) => ObservationView::Process(Ok(output@)),
            Observation::Process(Err(why)) => ObservationView::Process(Err(why@)),
            Observation::Modified(time) => ObservationView::Modified(time@),
            Observation::Variable(value) => ObservationView::Variable(optional_text(value)),
        }
    }
}

impl View for Probe {
    type V = ProbeView;

    open spec fn view(&self) -> ProbeView {
        match *self {
            Probe::Nothing => ProbeView::Nothing,
            Probe::PathExists { path } => ProbeView::PathExists { path: path@ },
            Probe::DirectoryExists { path } => ProbeView::DirectoryExists { path: path@ },
            Probe::ReadBytes { path } => ProbeView::ReadBytes { path: path@ },
            Probe::ReadText { path } => ProbeView::ReadText { path: path@ },
            Probe::Run { program, args } => ProbeView::Run {
                program: program@,
                args: texts(args@),
            },
            Probe::ModifiedTime { path } => ProbeView::ModifiedTime { path: path@ },
            Probe::Variable { name } => ProbeView::Variable { name: name@ },
        }
    }
}

/// The repository that a git check looks at: the given one, or the current
/// directory.
pub open spec fn repository(repo_path: Option<Seq<char>>) -> Seq<char> {
    match repo_path {
        Some(path) => path,
        None => "."@,
    }
}

/// The git command line that works in `repo_path` and runs `rest`.
pub open spec fn git_in(repo_path: Option<Seq<char>>, rest: Seq<Seq<char>>) -> ProbeView {
    ProbeView::Run { program: "git"@, args: seq!["-C"@, repository(repo_path)] + rest }
}

/// What has to be observed for a piece of evidence.
///
/// A pattern that does not compile, a date that cannot be read and a custom
/// check need no observation.
pub open spec fn probe_of(evidence: EvidenceSpecView) -> ProbeView {
    match evidence {
        EvidenceSpecView::FileExists { path } => ProbeView::PathExists { path },
        EvidenceSpecView::FileWithHash { path, .. } => ProbeView::ReadBytes { path },
        EvidenceSpecView::FileContains { path, .. } => ProbeView::ReadText { path },
        EvidenceSpecView::FileMatchesRegex { path, pattern } => if regex_error(pattern) is Some {
            ProbeView::Nothing
        } else {
            ProbeView::ReadText { path }
        },
        EvidenceSpecView::FileJsonPath { path, .. } => ProbeView::ReadText { path },
        EvidenceSpecView::DirectoryExists { path } => ProbeView::DirectoryExists { path },
        EvidenceSpecView::CommandSucceeds { command, args } => ProbeView::Run {
            program: command,
            args,
        },
        EvidenceSpecView::GitClean { repo_path } => git_in(
            repo_path,
            seq!["status"@, "--porcelain"@],
        ),
        EvidenceSpecView::GitCommitExists { commit, repo_path } => git_in(
            repo_path,
            seq!["cat-file"@, "-t"@, commit],
        ),
        EvidenceSpecView::GitBranchExists { branch, repo_path } => git_in(
            repo_path,
            seq!["rev-parse"@, "--verify"@, "refs/heads/"@ + branch],
        ),
        EvidenceSpecView::FileModifiedAfter { path, after } => if rfc3339_instant(after) is Err {
            ProbeView::Nothing
        } else {
            ProbeView::ModifiedTime { path }
        },
        EvidenceSpecView::EnvVar { name, .. } => ProbeView::Variable { name },
        EvidenceSpecView::Custom { .. } => ProbeView::Nothing,
    }
}

fn git_probe(repo_path: &Option<String>, rest: Vec<String>) -> (probe: Probe)
    ensures
        probe@ == git_in(optional_text(*repo_path), texts(rest@)),
{
    let mut args: Vec<String> = Vec::new();
    args.push(String::from_str("-C"));
    match repo_path {
        Some(path) => args.push(path.clone()),
        None => args.push(String::from_str(".")),
    }
    let ghost tail = rest@;
    let mut rest = rest;
    args.append(&mut rest);
    assert(texts(args@) =~= seq!["-C"@, repository(optional_text(*repo_path))] + texts(tail));
    Probe::Run { program: String::from_str("git"), args }
}

/// Says what has to be observed on the machine for a piece of evidence.
pub fn probe_for(evidence: &EvidenceSpec) -> (probe: Probe)
    ensures
        probe@ == probe_of(evidence@),
{
    match evidence {
        EvidenceSpec::FileExists { path } => Probe::PathExists { path: path.clone() },
        EvidenceSpec::FileWithHash { path, .. } => Probe::ReadBytes { path: path.clone() },
        EvidenceSpec::FileContains { path, .. } => Probe::ReadText { path: path.clone() },
        EvidenceSpec::FileMatchesRegex { path, pattern } => match compile(pattern.as_str()) {
            Ok(_) => Probe::ReadText { path: path.clone() },
            Err(_) => Probe::Nothing,
        },
        EvidenceSpec::FileJsonPath { path, .. } => Probe::ReadText { path: path.clone() },
        EvidenceSpec::DirectoryExists { path } => Probe::DirectoryExists { path: path.clone() },
        EvidenceSpec::CommandSucceeds { command, args } => Probe::Run {
            program: command.clone(),
            args: clone_strings(args),
        },
        EvidenceSpec::GitClean { repo_path } => {
            let mut rest: Vec<String> = Vec::new();
            rest.push(String::from_str("status"));
            rest.push(String::from_str("--porcelain"));
            assert(texts(rest@) =~= seq!["status"@, "--porcelain"@]);
            git_probe(repo_path, rest)
        },
        EvidenceSpec::GitCommitExists { commit, repo_path } => {
            let mut rest: Vec<String> = Vec::new();
            rest.push(String::from_str("cat-file"));
            rest.push(String::from_str("-t"));
            rest.push(commit.clone());
            assert(texts(rest@) =~= seq!["cat-file"@, "-t"@, commit@]);
            git_probe(repo_path, rest)
        },
        EvidenceSpec::GitBranchExists { branch, repo_path } => {
            let mut rest: Vec<String> = Vec::new();
            rest.push(String::from_str("rev-parse"));
            rest.push(String::from_str("--verify"));
            rest.push(join2("refs/heads/", branch.as_str()));
            assert(texts(rest@) =~= seq!["rev-parse"@, "--verify"@, "refs/heads/"@ + branch@]);
            git_probe(repo_path, rest)
        },
        EvidenceSpec::FileModifiedAfter { path, after } => match parse_rfc3339(after.as_str()) {
            Ok(_) => Probe::ModifiedTime { path: path.clone() },
            Err(_) => Probe::Nothing,
        },
        EvidenceSpec::EnvVar { name, .. } => Probe::Variable { name: name.clone() },
        EvidenceSpec::Custom { .. } => Probe::Nothing,
    }
}

} // verus!
