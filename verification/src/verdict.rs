//! The four-valued outcome of a check, and the rule that folds the outcomes
//! of many checks into one.

use vstd::prelude::*;
use vstd::seq_lib::to_multiset_contains;
use vstd::seq_lib::to_multiset_len;

verus! {

/// The outcome of checking one piece of evidence, or of a whole claim.
#[derive(Debug, Clone, Copy, PartialEq, Eq, Structural)]
pub enum Verdict {
    /// Checked, and the evidence matched.
    Confirmed,
    /// Checked, and the evidence contradicted the claim.
    Refuted,
    /// A mixture of confirmed and unverifiable evidence, with nothing
    /// refuted. No single check gives this verdict.
    Inconclusive,
    /// The check itself could not be carried out.
    Unverifiable,
}

/// Whether every verdict of the sequence is `v`.
pub open spec fn all_are(verdicts: Seq<Verdict>, v: Verdict) -> bool {
    forall|i: int| 0 <= i < verdicts.len() ==> verdicts[i] == v
}

/// The verdict on a claim, from the verdicts on its pieces of evidence.
///
/// No evidence leaves the claim unverifiable. Otherwise the claim is
/// confirmed only if every piece is; a single refuted piece refutes it,
/// whatever the others say; it is unverifiable if every piece is; and what is
/// left, a mixture of confirmed and unverifiable pieces, is inconclusive.
pub open spec fn aggregate(verdicts: Seq<Verdict>) -> Verdict {
    if verdicts.len() == 0 {
        Verdict::Unverifiable
    } else if all_are(verdicts, Verdict::Confirmed) {
        Verdict::Confirmed
    } else if verdicts.contains(Verdict::Refuted) {
        Verdict::Refuted
    } else if all_are(verdicts, Verdict::Unverifiable) {
        Verdict::Unverifiable
    } else {
        Verdict::Inconclusive
    }
}

/// How bad a verdict is for a run over many claims: a refuted claim is
/// worst, then an inconclusive one, then an unverifiable one.
pub open spec fn severity(v: Verdict) -> nat {
    match v {
        Verdict::Confirmed => 0,
        Verdict::Unverifiable => 1,
        Verdict::Inconclusive => 2,
        Verdict::Refuted => 3,
    }
}

/// The worst verdict of a sequence; confirmed if it is empty.
pub open spec fn worst_of(verdicts: Seq<Verdict>) -> Verdict
    decreases verdicts.len(),
{
    if verdicts.len() == 0 {
        Verdict::Confirmed
    } else if severity(verdicts.last()) > severity(worst_of(verdicts.drop_last())) {
        verdicts.last()
    } else {
        worst_of(verdicts.drop_last())
    }
}

impl Verdict {
    /// Only a confirmed verdict can be relied on.
    pub fn is_trustworthy(&self) -> (b: bool)
        ensures
            b == (*self == Verdict::Confirmed),
    {
        matches!(self, Verdict::Confirmed)
    }

    /// The name of the verdict.
    pub open spec fn name_text(self) -> Seq<char> {
        match self {
            Verdict::Confirmed => "Confirmed"@,
            Verdict::Refuted => "Refuted"@,
            Verdict::Inconclusive => "Inconclusive"@,
            Verdict::Unverifiable => "Unverifiable"@,
        }
    }

    /// The name of the verdict.
    pub fn name(&self) -> (s: &'static str)
        ensures
            s@ == self.name_text(),
    {
        match self {
            Verdict::Confirmed => "Confirmed",
            Verdict::Refuted => "Refuted",
            Verdict::Inconclusive => "Inconclusive",
            Verdict::Unverifiable => "Unverifiable",
        }
    }

    /// The mark that stands for the verdict in a report.
    pub open spec fn symbol_text(self) -> Seq<char> {
        match self {
            Verdict::Confirmed => "✓"@,
            Verdict::Refuted => "✗"@,
            Verdict::Inconclusive => "?"@,
            Verdict::Unverifiable => "⊘"@,
        }
    }

    /// The mark that stands for the verdict in a report.
    pub fn symbol(&self) -> (s: &'static str)
        ensures
            s@ == self.symbol_text(),
    {
        match self {
            Verdict::Confirmed => "✓",
            Verdict::Refuted => "✗",
            Verdict::Inconclusive => "?",
            Verdict::Unverifiable => "⊘",
        }
    }

    /// The worse of two verdicts.
    pub fn worse(self, other: Verdict) -> (w: Verdict)
        ensures
            w == worst_of(seq![self, other]),
            w == self || w == other,
            severity(w) >= severity(self),
            severity(w) >= severity(other),
    {
        proof {
            let pair = seq![self, other];
            assert(pair.drop_last() =~= seq![self]);
            assert(seq![self].drop_last() =~= Seq::<Verdict>::empty());
            reveal_with_fuel(worst_of, 3);
        }
        match (self, other) {
            (_, Verdict::Refuted) => Verdict::Refuted,
            (Verdict::Refuted, _) => Verdict::Refuted,
            (_, Verdict::Inconclusive) => Verdict::Inconclusive,
            (Verdict::Inconclusive, _) => Verdict::Inconclusive,
            (_, Verdict::Unverifiable) => Verdict::Unverifiable,
            (Verdict::Unverifiable, _) => Verdict::Unverifiable,
            (Verdict::Confirmed, Verdict::Confirmed) => Verdict::Confirmed,
        }
    }

    /// The exit status of a program that ends on this verdict. It is 0 for
    /// confirmed, 1 for refuted and 2 for inconclusive and unverifiable.
    pub fn exit_code(&self) -> (code: u8)
        ensures
            code == match *self {
                Verdict::Confirmed => 0u8,
                Verdict::Refuted => 1u8,
                Verdict::Inconclusive => 2u8,
                Verdict::Unverifiable => 2u8,
            },
    {
        match self {
            Verdict::Confirmed => 0,
            Verdict::Refuted => 1,
            Verdict::Inconclusive | Verdict::Unverifiable => 2,
        }
    }
}

/// Folds the verdicts on the pieces of evidence into the verdict on the
/// claim.
pub fn aggregate_verdicts(verdicts: &Vec<Verdict>) -> (v: Verdict)
    ensures
        v == aggregate(verdicts@),
{
    if verdicts.len() == 0 {
        return Verdict::Unverifiable;
    }
    let mut all_confirmed = true;
    let mut all_unverifiable = true;
    let mut any_refuted = false;
    let mut i: usize = 0;
    while i < verdicts.len()
        invariant
            i <= verdicts.len(),
            all_confirmed == all_are(verdicts@.take(i as int), Verdict::Confirmed),
            all_unverifiable == all_are(verdicts@.take(i as int), Verdict::Unverifiable),
            any_refuted == verdicts@.take(i as int).contains(Verdict::Refuted),
        decreases verdicts.len() - i,
    {
        let v = verdicts[i];
        let ghost before = verdicts@.take(i as int);
        let ghost after = verdicts@.take(i + 1);
        proof {
            assert(after =~= before.push(v));
            assert(forall|j: int| 0 <= j < before.len() ==> before[j] == after[j]);
            assert(after[i as int] == v);
            if before.contains(Verdict::Refuted) {
                let j = choose|j: int| 0 <= j < before.len() && before[j] == Verdict::Refuted;
                assert(after[j] == Verdict::Refuted);
            }
        }
        all_confirmed = all_confirmed && v == Verdict::Confirmed;
        all_unverifiable = all_unverifiable && v == Verdict::Unverifiable;
        any_refuted = any_refuted || v == Verdict::Refuted;
        i += 1;
    }
    assert(verdicts@.take(verdicts.len() as int) =~= verdicts@);
    if all_confirmed {
        Verdict::Confirmed
    } else if any_refuted {
        Verdict::Refuted
    } else if all_unverifiable {
        Verdict::Unverifiable
    } else {
        Verdict::Inconclusive
    }
}

/// The worst verdict of a run over many claims.
pub fn worst_verdict(verdicts: &Vec<Verdict>) -> (w: Verdict)
    ensures
        w == worst_of(verdicts@),
{
    let mut worst = Verdict::Confirmed;
    let mut i: usize = 0;
    while i < verdicts.len()
        invariant
            i <= verdicts.len(),
            worst == worst_of(verdicts@.take(i as int)),
        decreases verdicts.len() - i,
    {
        proof {
            assert(verdicts@.take(i + 1).drop_last() =~= verdicts@.take(i as int));
        }
        worst = worst.worse(verdicts[i]);
        i += 1;
    }
    assert(verdicts@.take(verdicts.len() as int) =~= verdicts@);
    worst
}

/// The worst verdict of a run is at least as bad as every verdict of the
/// run, and it is one of them unless the run is empty.
pub proof fn lemma_worst_of(verdicts: Seq<Verdict>)
    ensures
        forall|i: int|
            0 <= i < verdicts.len() ==> severity(#[trigger] verdicts[i]) <= severity(
                worst_of(verdicts),
            ),
        verdicts.len() > 0 ==> verdicts.contains(worst_of(verdicts)),
    decreases verdicts.len(),
{
    if verdicts.len() > 0 {
        let front = verdicts.drop_last();
        lemma_worst_of(front);
        assert forall|i: int| 0 <= i < verdicts.len() implies severity(#[trigger] verdicts[i])
            <= severity(worst_of(verdicts)) by {
            if i < front.len() {
                assert(front[i] == verdicts[i]);
            }
        }
        if worst_of(verdicts) == verdicts.last() {
            assert(verdicts[verdicts.len() - 1] == worst_of(verdicts));
        } else {
            let i = choose|i: int| 0 <= i < front.len() && front[i] == worst_of(front);
            assert(verdicts[i] == worst_of(verdicts));
        }
    }
}

/// A run ends well exactly when every claim of it is confirmed.
pub proof fn law_worst_confirmed_needs_all(verdicts: Seq<Verdict>)
    ensures
        worst_of(verdicts) == Verdict::Confirmed <==> all_are(verdicts, Verdict::Confirmed),
{
    lemma_worst_of(verdicts);
    if all_are(verdicts, Verdict::Confirmed) && verdicts.len() > 0 {
        let i = choose|i: int| 0 <= i < verdicts.len() && verdicts[i] == worst_of(verdicts);
    }
    if worst_of(verdicts) == Verdict::Confirmed {
        assert forall|i: int| 0 <= i < verdicts.len() implies verdicts[i]
            == Verdict::Confirmed by {
            assert(severity(verdicts[i]) <= 0);
        }
    }
}

/// A run is refuted exactly when one claim of it is.
pub proof fn law_worst_refuted_needs_one(verdicts: Seq<Verdict>)
    ensures
        worst_of(verdicts) == Verdict::Refuted <==> verdicts.contains(Verdict::Refuted),
{
    lemma_worst_of(verdicts);
    if verdicts.contains(Verdict::Refuted) {
        let i = choose|i: int| 0 <= i < verdicts.len() && verdicts[i] == Verdict::Refuted;
        assert(severity(verdicts[i]) <= severity(worst_of(verdicts)));
    }
}

/// Two sequences of verdicts that are both empty or both not, and that hold
/// the same verdicts, aggregate to the same verdict.
pub proof fn lemma_aggregate_by_contents(a: Seq<Verdict>, b: Seq<Verdict>)
    requires
        (a.len() == 0) == (b.len() == 0),
        forall|v: Verdict| a.contains(v) == b.contains(v),
    ensures
        aggregate(a) == aggregate(b),
{
    assert forall|v: Verdict| all_are(a, v) == all_are(b, v) by {
        lemma_all_are_by_contents(a, v);
        lemma_all_are_by_contents(b, v);
    }
}

/// The verdict on a claim does not depend on the order of its evidence: two
/// sequences that hold the same verdicts, each as often as the other,
/// aggregate to the same verdict.
pub proof fn law_aggregate_ignores_order(a: Seq<Verdict>, b: Seq<Verdict>)
    requires
        a.to_multiset() == b.to_multiset(),
    ensures
        aggregate(a) == aggregate(b),
{
    to_multiset_len(a);
    to_multiset_len(b);
    assert forall|v: Verdict| a.contains(v) == b.contains(v) by {
        to_multiset_contains(a, v);
        to_multiset_contains(b, v);
    }
    lemma_aggregate_by_contents(a, b);
}

/// Every verdict of a sequence is `v` exactly when the sequence holds no
/// other verdict.
pub proof fn lemma_all_are_by_contents(s: Seq<Verdict>, v: Verdict)
    ensures
        all_are(s, v) <==> forall|w: Verdict| s.contains(w) ==> w == v,
{
    if forall|w: Verdict| s.contains(w) ==> w == v {
        assert forall|i: int| 0 <= i < s.len() implies s[i] == v by {
            assert(s.contains(s[i]));
        }
    }
}

/// Refutation is a veto: a sequence that holds one refuted verdict
/// aggregates to refuted, whatever else it holds.
pub proof fn law_refuted_vetoes(verdicts: Seq<Verdict>)
    requires
        verdicts.contains(Verdict::Refuted),
    ensures
        aggregate(verdicts) == Verdict::Refuted,
{
    let i = choose|i: int| 0 <= i < verdicts.len() && verdicts[i] == Verdict::Refuted;
    assert(verdicts[i] != Verdict::Confirmed);
}

/// A claim is confirmed exactly when it has evidence and every piece of it
/// is confirmed.
pub proof fn law_confirmed_needs_all(verdicts: Seq<Verdict>)
    ensures
        aggregate(verdicts) == Verdict::Confirmed <==> verdicts.len() > 0 && all_are(
            verdicts,
            Verdict::Confirmed,
        ),
{
    if verdicts.len() > 0 && !all_are(verdicts, Verdict::Confirmed) {
        if all_are(verdicts, Verdict::Unverifiable) {
        }
    }
}

} // verus!
