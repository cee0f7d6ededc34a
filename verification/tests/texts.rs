use did_you_actually_do_that::text::{chars_of, decimal_text, join2, join3, same_text};
use did_you_actually_do_that::text::{signed_decimal_text, trim};
use did_you_actually_do_that::{Timestamp, VerificationError};

#[test]
fn decimal_numerals() {
    assert_eq!(decimal_text(0), "0");
    assert_eq!(decimal_text(7), "7");
    assert_eq!(decimal_text(10), "10");
    assert_eq!(decimal_text(1234567890), "1234567890");
    assert_eq!(decimal_text(u64::MAX), "18446744073709551615");
    assert_eq!(signed_decimal_text(0), "0");
    assert_eq!(signed_decimal_text(-1), "-1");
    assert_eq!(signed_decimal_text(42), "42");
    assert_eq!(signed_decimal_text(i64::MAX), "9223372036854775807");
    assert_eq!(signed_decimal_text(i64::MIN), "-9223372036854775808");
}

#[test]
fn trimming() {
    assert_eq!(trim(""), "");
    assert_eq!(trim("   "), "");
    assert_eq!(trim(" \t\r\n"), "");
    assert_eq!(trim("a"), "a");
    assert_eq!(trim("  a b  "), "a b");
    assert_eq!(trim("\n M src/lib.rs\n?? x\n"), "M src/lib.rs\n?? x");
    assert_eq!(trim("\u{a0}\u{2003}é\u{3000}\u{85}"), "é");
    assert_eq!(trim("\u{200b}x\u{200b}"), "\u{200b}x\u{200b}");
}

#[test]
fn trimming_agrees_with_the_standard_library() {
    for c in (0..=0x3100u32).filter_map(char::from_u32) {
        let padded = format!("{}x{}", c, c);
        assert_eq!(trim(&padded), padded.trim(), "at {:?}", c);
    }
}

#[test]
fn joining_and_comparing() {
    assert_eq!(join2("ab", "cd"), "abcd");
    assert_eq!(join3("a", "", "c"), "ac");
    assert!(same_text("äb", "äb"));
    assert!(!same_text("ab", "abc"));
    assert_eq!(chars_of("äb"), vec!['ä', 'b']);
}

#[test]
fn instants_in_order() {
    let earlier = Timestamp { secs: 10, nanos: 5 };
    let later_nanos = Timestamp { secs: 10, nanos: 6 };
    let later_secs = Timestamp { secs: 11, nanos: 0 };
    assert!(later_nanos.is_after(&earlier));
    assert!(later_secs.is_after(&later_nanos));
    assert!(!earlier.is_after(&earlier));
    assert!(!earlier.is_after(&later_nanos));
    assert!(!later_nanos.is_after(&later_secs));
    assert!(Timestamp { secs: -1, nanos: 0 }.is_after(&Timestamp { secs: -2, nanos: 999 }));
}

#[test]
fn messages_of_errors() {
    assert_eq!(
        VerificationError::EvidenceNotFound("the file".to_string()).message(),
        "Evidence not found: the file"
    );
    assert_eq!(
        VerificationError::EvidenceMismatch { expected: "a".to_string(), found: "b".to_string() }
            .message(),
        "Evidence mismatch: expected a, found b"
    );
    assert_eq!(
        VerificationError::Timeout(30).message(),
        "Verification timed out after 30 seconds"
    );
    assert_eq!(
        VerificationError::InvalidClaim("no evidence".to_string()).message(),
        "Invalid claim structure: no evidence"
    );
    let io = std::io::Error::new(std::io::ErrorKind::NotFound, "nothing there");
    assert_eq!(VerificationError::from(io).message(), "IO error: nothing there");
}

#[test]
fn io_error_converts() {
    let io = std::io::Error::new(std::io::ErrorKind::Other, "broken");
    assert!(matches!(VerificationError::from(io), VerificationError::Io(_)));
}
