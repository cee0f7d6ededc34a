//! SHA-256 digests and their lower-case hexadecimal text.

use vstd::prelude::*;

verus! {

/// The SHA-256 digest of a byte sequence.
pub uninterp spec fn sha256_digest(data: Seq<u8>) -> Seq<u8>;

/// The sixteen lower-case hexadecimal digits, by value.
pub open spec fn hex_digits() -> Seq<char> {
    seq!['0', '1', '2', '3', '4', '5', '6', '7', '8', '9', 'a', 'b', 'c', 'd', 'e', 'f']
}

/// Two lower-case hexadecimal digits for every byte, the high half first.
pub open spec fn hex_text(data: Seq<u8>) -> Seq<char> {
    Seq::new(
        2 * data.len(),
        |i: int|
            if i % 2 == 0 {
                hex_digits()[data[i / 2] as int / 16]
            } else {
                hex_digits()[data[i / 2] as int % 16]
            },
    )
}

/// The hexadecimal text of the SHA-256 digest of `data`: what a content-hash
/// evidence item is compared with.
pub open spec fn sha256_hex(data: Seq<u8>) -> Seq<char> {
    hex_text(sha256_digest(data))
}

/// Calls `sha2::Sha256::digest`. Trusted: the result is the SHA-256 digest of
/// `data`, which depends on `data` alone and is 32 bytes long.
#[verifier::external_body]
pub(crate) fn sha256(data: &[u8]) -> (digest: Vec<u8>)
    ensures
        digest@ == sha256_digest(data@),
        digest@.len() == 32,
{
    <sha2::Sha256 as sha2::Digest>::digest(data).to_vec()
}

/// Calls `hex::encode`. Trusted: the result holds two lower-case hexadecimal
/// digits for every byte of `data`, the high half of the byte first.
#[verifier::external_body]
pub(crate) fn hex_encode(data: &[u8]) -> (text: String)
    ensures
        text@ == hex_text(data@),
{
    hex::encode(data)
}

/// The hexadecimal SHA-256 digest of `data`.
pub fn hash_hex(data: &[u8]) -> (text: String)
    ensures
        text@ == sha256_hex(data@),
        text@.len() == 64,
{
    let digest = sha256(data);
    hex_encode(digest.as_slice())
}

/// The evidence that a file has a digest, written as JSON. The path and the
/// digest stand in it as they are.
pub open spec fn hash_evidence_text(path: Seq<char>, digest: Seq<char>) -> Seq<char> {
    "{ \"type\": \"FileWithHash\", \"spec\": { \"path\": \""@ + path + "\", \"sha256\": \""@
        + digest + "\" } }"@
}

/// Writes the evidence that the file at `path` has the digest `digest`.
pub fn hash_evidence(path: &str, digest: &str) -> (text: String)
    ensures
        text@ == hash_evidence_text(path@, digest@),
{
    let mut text = String::from_str("{ \"type\": \"FileWithHash\", \"spec\": { \"path\": \"");
    text.append(path);
    text.append("\", \"sha256\": \"");
    text.append(digest);
    text.append("\" } }");
    text
}

} // verus!
