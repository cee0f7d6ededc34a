use did_you_actually_do_that::observation::{probe_for, Probe};
use did_you_actually_do_that::EvidenceSpec;
use std::collections::HashMap;

fn s(text: &str) -> String {
    text.to_string()
}

fn run(program: &str, args: &[&str]) -> Probe {
    Probe::Run { program: s(program), args: args.iter().map(|a| s(a)).collect() }
}

#[test]
fn probes_for_files() {
    assert_eq!(
        probe_for(&EvidenceSpec::FileExists { path: s("/p") }),
        Probe::PathExists { path: s("/p") }
    );
    assert_eq!(
        probe_for(&EvidenceSpec::DirectoryExists { path: s("/d") }),
        Probe::DirectoryExists { path: s("/d") }
    );
    assert_eq!(
        probe_for(&EvidenceSpec::FileWithHash { path: s("/p"), sha256: s("00") }),
        Probe::ReadBytes { path: s("/p") }
    );
    assert_eq!(
        probe_for(&EvidenceSpec::FileContains { path: s("/p"), substring: s("x") }),
        Probe::ReadText { path: s("/p") }
    );
    assert_eq!(
        probe_for(&EvidenceSpec::FileJsonPath {
            path: s("/p"),
            json_path: s(".a"),
            expected: serde_json::Value::Null
        }),
        Probe::ReadText { path: s("/p") }
    );
}

#[test]
fn probe_for_a_pattern_depends_on_the_pattern() {
    assert_eq!(
        probe_for(&EvidenceSpec::FileMatchesRegex { path: s("/p"), pattern: s("a+b") }),
        Probe::ReadText { path: s("/p") }
    );
    assert_eq!(
        probe_for(&EvidenceSpec::FileMatchesRegex { path: s("/p"), pattern: s("a(b") }),
        Probe::Nothing
    );
}

#[test]
fn probe_for_a_modification_time_depends_on_the_date() {
    assert_eq!(
        probe_for(&EvidenceSpec::FileModifiedAfter {
            path: s("/p"),
            after: s("2024-01-01T00:00:00+01:00")
        }),
        Probe::ModifiedTime { path: s("/p") }
    );
    assert_eq!(
        probe_for(&EvidenceSpec::FileModifiedAfter { path: s("/p"), after: s("2024-01-01") }),
        Probe::Nothing
    );
}

#[test]
fn probe_for_a_command() {
    assert_eq!(
        probe_for(&EvidenceSpec::CommandSucceeds {
            command: s("cargo"),
            args: vec![s("test"), s("--all")]
        }),
        run("cargo", &["test", "--all"])
    );
}

#[test]
fn probes_for_git() {
    assert_eq!(
        probe_for(&EvidenceSpec::GitClean { repo_path: None }),
        run("git", &["-C", ".", "status", "--porcelain"])
    );
    assert_eq!(
        probe_for(&EvidenceSpec::GitClean { repo_path: Some(s("/repo")) }),
        run("git", &["-C", "/repo", "status", "--porcelain"])
    );
    assert_eq!(
        probe_for(&EvidenceSpec::GitCommitExists { commit: s("abc123"), repo_path: None }),
        run("git", &["-C", ".", "cat-file", "-t", "abc123"])
    );
    assert_eq!(
        probe_for(&EvidenceSpec::GitBranchExists {
            branch: s("main"),
            repo_path: Some(s("/repo"))
        }),
        run("git", &["-C", "/repo", "rev-parse", "--verify", "refs/heads/main"])
    );
}

#[test]
fn probes_for_the_rest() {
    assert_eq!(
        probe_for(&EvidenceSpec::EnvVar { name: s("HOME"), expected: s("/root") }),
        Probe::Variable { name: s("HOME") }
    );
    assert_eq!(
        probe_for(&EvidenceSpec::Custom { name: s("mine"), params: HashMap::new() }),
        Probe::Nothing
    );
}
