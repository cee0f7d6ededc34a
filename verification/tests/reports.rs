use did_you_actually_do_that::observation::Observation;
use did_you_actually_do_that::report::describe;
use did_you_actually_do_that::{Claim, EvidenceSpec, Timestamp, Verdict, Verifier};
use std::collections::HashMap;

fn claim() -> Claim {
    Claim::new_at("Created the configuration file", Timestamp { secs: 1, nanos: 0 })
}

#[test]
fn summary_of_each_verdict() {
    let verifier = Verifier::new();
    let confirmed = claim().with_evidence(EvidenceSpec::FileExists { path: "/c".to_string() });
    let report = verifier.verify(&confirmed, &vec![Observation::Exists(true)]);
    assert_eq!(report.summary(), "[✓] Created the configuration file - Confirmed");
    let report = verifier.verify(&confirmed, &vec![Observation::Exists(false)]);
    assert_eq!(report.summary(), "[✗] Created the configuration file - Refuted");
    let report = verifier.verify(&claim(), &vec![]);
    assert_eq!(report.summary(), "[⊘] Created the configuration file - Unverifiable");
    let mixed = confirmed.with_evidence(EvidenceSpec::FileExists { path: "/d".to_string() });
    let report = verifier.verify(&mixed, &vec![Observation::Exists(true)]);
    assert_eq!(report.summary(), "[?] Created the configuration file - Inconclusive");
}

#[test]
fn lines_of_a_report() {
    let mut verifier = Verifier::new();
    verifier.register_checker("fine", |_params| Ok(Verdict::Confirmed));
    let claim = claim()
        .with_evidence(EvidenceSpec::FileExists { path: "/c".to_string() })
        .with_evidence(EvidenceSpec::Custom { name: "fine".to_string(), params: HashMap::new() })
        .with_evidence(EvidenceSpec::FileContains {
            path: "/c".to_string(),
            substring: "version".to_string(),
        })
        .with_source("setup-agent");
    let report = verifier.verify(
        &claim,
        &vec![
            Observation::Exists(true),
            Observation::Nothing,
            Observation::Text(Ok("name".to_string())),
        ],
    );
    assert_eq!(
        report.lines(),
        vec![
            "[✗] Created the configuration file - Refuted".to_string(),
            "  Source: setup-agent".to_string(),
            "  ✓ File exists: /c".to_string(),
            "      File exists: /c".to_string(),
            "  ✓ Custom check: fine".to_string(),
            "  ✗ File contains 'version': /c".to_string(),
            "      Substring not found".to_string(),
        ]
    );
}

#[test]
fn lines_without_source_and_evidence() {
    let report = Verifier::new().verify(&claim(), &vec![]);
    assert_eq!(
        report.lines(),
        vec!["[⊘] Created the configuration file - Unverifiable".to_string()]
    );
}

#[test]
fn description_of_each_kind() {
    let s = |text: &str| text.to_string();
    assert_eq!(describe(&EvidenceSpec::FileExists { path: s("/p") }), "File exists: /p");
    assert_eq!(
        describe(&EvidenceSpec::FileWithHash { path: s("/p"), sha256: s("00") }),
        "File hash: /p"
    );
    assert_eq!(
        describe(&EvidenceSpec::FileContains { path: s("/p"), substring: s("x y") }),
        "File contains 'x y': /p"
    );
    assert_eq!(
        describe(&EvidenceSpec::FileMatchesRegex { path: s("/p"), pattern: s("a+") }),
        "File matches 'a+': /p"
    );
    assert_eq!(
        describe(&EvidenceSpec::FileJsonPath {
            path: s("/p"),
            json_path: s(".a[0]"),
            expected: serde_json::Value::Null
        }),
        "JSON path '.a[0]': /p"
    );
    assert_eq!(describe(&EvidenceSpec::DirectoryExists { path: s("/d") }), "Directory exists: /d");
    assert_eq!(
        describe(&EvidenceSpec::CommandSucceeds { command: s("cargo"), args: vec![s("test")] }),
        "Command succeeds: cargo"
    );
    assert_eq!(describe(&EvidenceSpec::GitClean { repo_path: None }), "Git working tree is clean");
    assert_eq!(
        describe(&EvidenceSpec::GitCommitExists { commit: s("abc"), repo_path: None }),
        "Git commit exists: abc"
    );
    assert_eq!(
        describe(&EvidenceSpec::GitBranchExists { branch: s("main"), repo_path: None }),
        "Git branch exists: main"
    );
    assert_eq!(
        describe(&EvidenceSpec::FileModifiedAfter {
            path: s("/p"),
            after: s("2024-01-01T00:00:00Z")
        }),
        "File modified after '2024-01-01T00:00:00Z': /p"
    );
    assert_eq!(
        describe(&EvidenceSpec::EnvVar { name: s("HOME"), expected: s("/root") }),
        "Environment variable: HOME"
    );
    assert_eq!(
        describe(&EvidenceSpec::Custom { name: s("mine"), params: HashMap::new() }),
        "Custom check: mine"
    );
}
