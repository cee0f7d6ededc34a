//! A claim: an assertion that something was done, with the evidence that
//! would show it.

use vstd::prelude::*;
use vstd::utf8::encode_utf8;
use crate::digest::{hex_encode, hex_text, sha256, sha256_digest};
use crate::evidence::{clone_optional, optional_text, EvidenceSpec, EvidenceSpecView};
use crate::timestamp::{current_time, Timestamp};

verus! {

/// A claim that some action was performed.
#[derive(Debug)]
pub struct Claim {
    /// Identifies the claim; derived from the description and the time of
    /// creation.
    pub id: String,
    /// What was claimed, in words.
    pub description: String,
    /// When the claim was made.
    pub timestamp: Timestamp,
    /// What should be observable if the claim is true.
    pub evidence: Vec<EvidenceSpec>,
    /// Who or what made the claim.
    pub source: Option<String>,
}

/// The mathematical model of a [`Claim`].
pub struct ClaimView {
    pub id: Seq<char>,
    pub description: Seq<char>,
    pub timestamp: Timestamp,
    pub evidence: Seq<EvidenceSpecView>,
    pub source: Option<Seq<char>>,
}

/// The models of a list of evidence.
pub open spec fn evidence_views(evidence: Seq<EvidenceSpec>) -> Seq<EvidenceSpecView> {
    evidence.map_values(|e: EvidenceSpec| e@)
}

impl View for Claim {
    type V = ClaimView;

    open spec fn view(&self) -> ClaimView {
        ClaimView {
            id: self.id@,
            description: self.description@,
            timestamp: self.timestamp,
            evidence: evidence_views(self.evidence@),
            source: optional_text(self.source),
        }
    }
}

/// The eight bytes of a count of seconds, the lowest first; a negative count
/// in two's complement.
pub open spec fn seconds_bytes(secs: i64) -> Seq<u8> {
    let u = secs as u64;
    seq![
        (u & 0xff) as u8,
        ((u >> 8) & 0xff) as u8,
        ((u >> 16) & 0xff) as u8,
        ((u >> 24) & 0xff) as u8,
        ((u >> 32) & 0xff) as u8,
        ((u >> 40) & 0xff) as u8,
        ((u >> 48) & 0xff) as u8,
        ((u >> 56) & 0xff) as u8,
    ]
}

/// The identifier of a claim: the first eight bytes, in hexadecimal, of the
/// SHA-256 digest of the description in UTF-8 followed by the seconds of the
/// time of creation.
pub open spec fn claim_id(description: Seq<char>, secs: i64) -> Seq<char> {
    hex_text(sha256_digest(encode_utf8(description) + seconds_bytes(secs)).subrange(0, 8))
}

fn seconds_le_bytes(secs: i64) -> (bytes: Vec<u8>)
    ensures
        bytes@ == seconds_bytes(secs),
{
    let u = secs as u64;
    let mut bytes: Vec<u8> = Vec::new();
    bytes.push((u & 0xff) as u8);
    bytes.push(((u >> 8) & 0xff) as u8);
    bytes.push(((u >> 16) & 0xff) as u8);
    bytes.push(((u >> 24) & 0xff) as u8);
    bytes.push(((u >> 32) & 0xff) as u8);
    bytes.push(((u >> 40) & 0xff) as u8);
    bytes.push(((u >> 48) & 0xff) as u8);
    bytes.push(((u >> 56) & 0xff) as u8);
    assert(bytes@ =~= seconds_bytes(secs));
    bytes
}

impl Claim {
    /// Derives the identifier of a claim from its description and the
    /// seconds of its time of creation.
    pub fn generate_id(description: &str, secs: i64) -> (id: String)
        ensures
            id@ == claim_id(description@, secs),
            id@.len() == 16,
    {
        let mut data = description.as_bytes_vec();
        let mut seconds = seconds_le_bytes(secs);
        data.append(&mut seconds);
        let digest = sha256(data.as_slice());
        let head = vstd::slice::slice_subrange(digest.as_slice(), 0, 8);
        hex_encode(head)
    }

    /// A claim made now, with no evidence and no source yet.
    pub fn new(description: &str) -> (claim: Claim)
        ensures
            claim@.description == description@,
            claim@.id == claim_id(description@, claim.timestamp.secs),
            claim@.evidence.len() == 0,
            claim@.source is None,
    {
        Claim::new_at(description, current_time())
    }

    /// A claim made at the given time, with no evidence and no source yet.
    pub fn new_at(description: &str, timestamp: Timestamp) -> (claim: Claim)
        ensures
            claim@ == (ClaimView {
                id: claim_id(description@, timestamp.secs),
                description: description@,
                timestamp,
                evidence: Seq::empty(),
                source: None,
            }),
    {
        let claim = Claim {
            id: Claim::generate_id(description, timestamp.secs),
            description: String::from_str(description),
            timestamp,
            evidence: Vec::new(),
            source: None,
        };
        assert(claim@.evidence =~= Seq::empty());
        claim
    }

    /// The identifier of a claim that comes without one: that of a claim
    /// described as `unnamed-claim` and made now.
    pub fn default_id() -> (id: String)
        ensures
            exists|secs: i64| id@ == claim_id("unnamed-claim"@, secs),
            id@.len() == 16,
    {
        let now = current_time();
        let id = Claim::generate_id("unnamed-claim", now.secs);
        assert(id@ == claim_id("unnamed-claim"@, now.secs));
        id
    }

    /// The claim with one more piece of evidence, after those it has.
    pub fn with_evidence(self, evidence: EvidenceSpec) -> (claim: Claim)
        ensures
            claim@ == (ClaimView { evidence: self@.evidence.push(evidence@), ..self@ }),
    {
        let mut claim = self;
        claim.evidence.push(evidence);
        assert(claim@.evidence =~= self@.evidence.push(evidence@));
        claim
    }

    /// The claim with its source set.
    pub fn with_source(self, source: &str) -> (claim: Claim)
        ensures
            claim@ == (ClaimView { source: Some(source@), ..self@ }),
    {
        let mut claim = self;
        claim.source = Some(String::from_str(source));
        claim
    }
}

/// A copy of a list of evidence.
pub fn clone_evidence(evidence: &Vec<EvidenceSpec>) -> (copy: Vec<EvidenceSpec>)
    ensures
        evidence_views(copy@) == evidence_views(evidence@),
{
    let mut copy: Vec<EvidenceSpec> = Vec::new();
    let mut i: usize = 0;
    while i < evidence.len()
        invariant
            i <= evidence.len(),
            evidence_views(copy@) == evidence_views(evidence@).take(i as int),
        decreases evidence.len() - i,
    {
        let ghost before = copy@;
        let item = evidence[i].clone();
        copy.push(item);
        i += 1;
        assert(evidence_views(copy@) =~= evidence_views(before).push(item@));
        assert(evidence_views(copy@) =~= evidence_views(evidence@).take(i as int));
    }
    assert(evidence_views(evidence@).take(evidence.len() as int) =~= evidence_views(evidence@));
    copy
}

impl Clone for Claim {
    fn clone(&self) -> (copy: Self)
        ensures
            copy@ == self@,
    {
        Claim {
            id: self.id.clone(),
            description: self.description.clone(),
            timestamp: self.timestamp,
            evidence: clone_evidence(&self.evidence),
            source: clone_optional(&self.source),
        }
    }
}

} // verus!
