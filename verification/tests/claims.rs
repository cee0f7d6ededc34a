use did_you_actually_do_that::digest::{hash_evidence, hash_hex};
use did_you_actually_do_that::{Claim, EvidenceSpec, Timestamp};

#[test]
fn test_claim_creation() {
    let claim = Claim::new("Created a file")
        .with_evidence(EvidenceSpec::FileExists { path: "/tmp/test.txt".to_string() })
        .with_source("test-agent");

    assert!(!claim.id.is_empty());
    assert_eq!(claim.evidence.len(), 1);
    assert_eq!(claim.source, Some("test-agent".to_string()));
}

#[test]
fn claim_id_is_a_prefix_of_the_digest() {
    let claim = Claim::new_at("Created a file", Timestamp { secs: 1700000000, nanos: 5 });
    assert_eq!(claim.id, "3cbab9d6be6e8074");
    assert_eq!(claim.description, "Created a file");
    assert_eq!(claim.timestamp, Timestamp { secs: 1700000000, nanos: 5 });
    assert!(claim.evidence.is_empty());
    assert_eq!(claim.source, None);
}

#[test]
fn claim_id_for_a_time_before_the_epoch() {
    assert_eq!(Claim::generate_id("neg", -1), "c25d26b60f174173");
}

#[test]
fn claim_id_depends_on_description_and_time() {
    assert_ne!(Claim::generate_id("a", 1), Claim::generate_id("b", 1));
    assert_ne!(Claim::generate_id("a", 1), Claim::generate_id("a", 2));
    assert_eq!(Claim::generate_id("a", 1), Claim::generate_id("a", 1));
}

#[test]
fn new_claim_derives_its_id_from_its_own_time() {
    let claim = Claim::new("Created a file");
    assert_eq!(claim.id, Claim::generate_id("Created a file", claim.timestamp.secs));
    assert_eq!(claim.id.len(), 16);
    assert!(claim.timestamp.secs > 1_600_000_000);
}

#[test]
fn default_id_is_sixteen_hex_digits() {
    let id = Claim::default_id();
    assert_eq!(id.len(), 16);
    assert!(id.chars().all(|c| c.is_ascii_digit() || ('a'..='f').contains(&c)));
}

#[test]
fn evidence_is_kept_in_order() {
    let claim = Claim::new("Two things")
        .with_evidence(EvidenceSpec::FileExists { path: "/a".to_string() })
        .with_source("first")
        .with_evidence(EvidenceSpec::DirectoryExists { path: "/b".to_string() })
        .with_source("second");
    assert_eq!(claim.evidence.len(), 2);
    assert!(matches!(&claim.evidence[0], EvidenceSpec::FileExists { path } if path == "/a"));
    assert!(matches!(&claim.evidence[1], EvidenceSpec::DirectoryExists { path } if path == "/b"));
    assert_eq!(claim.source, Some("second".to_string()));
}

#[test]
fn clone_keeps_everything() {
    let claim = Claim::new_at("Cloned", Timestamp { secs: 7, nanos: 8 })
        .with_evidence(EvidenceSpec::CommandSucceeds {
            command: "true".to_string(),
            args: vec!["-x".to_string(), "y".to_string()],
        })
        .with_evidence(EvidenceSpec::GitClean { repo_path: Some("/r".to_string()) })
        .with_source("me");
    let copy = claim.clone();
    assert_eq!(copy.id, claim.id);
    assert_eq!(copy.description, "Cloned");
    assert_eq!(copy.timestamp, Timestamp { secs: 7, nanos: 8 });
    assert_eq!(copy.source, Some("me".to_string()));
    assert_eq!(format!("{:?}", copy.evidence), format!("{:?}", claim.evidence));
}

#[test]
fn hash_hex_of_known_inputs() {
    assert_eq!(
        hash_hex(b""),
        "e3b0c44298fc1c149afbf4c8996fb92427ae41e4649b934ca495991b7852b855"
    );
    assert_eq!(
        hash_hex(b"hello world"),
        "b94d27b9934d3e08a52e52d7da7dabfac484efe37a5380ee9088f7ace2efcde9"
    );
    assert_eq!(
        hash_hex(&[0, 255, 16]),
        "2da45f2cd1f9c8e69a67abf7a6b26c282533d0a7686787a9533265418680d4d2"
    );
}

#[test]
fn hash_evidence_line() {
    assert_eq!(
        hash_evidence("a.rs", "00ff"),
        "{ \"type\": \"FileWithHash\", \"spec\": { \"path\": \"a.rs\", \"sha256\": \"00ff\" } }"
    );
}
