//! The verifier: a table of custom checkers, the check of one piece of
//! evidence, and the verification of a whole claim.

use vstd::prelude::*;
use std::collections::HashMap;
use crate::checks::{builtin_finding, check_command, check_directory_exists, check_env_var};
use crate::checks::{check_file_contains, check_file_exists, check_file_hash, check_file_matches};
use crate::checks::{check_git_branch, check_git_clean, check_git_commit, check_json_path};
use crate::checks::check_modified_after;
use crate::claim::Claim;
use crate::error::VerificationError;
use crate::evidence::{optional_text, EvidenceSpec, EvidenceSpecView};
use crate::observation::{Observation, ObservationView};
use crate::report::{result_views, verdicts_of, EvidenceResult, EvidenceResultView};
use crate::report::VerificationReport;
use crate::text::{join2, same_text};
use crate::timestamp::current_time;
use crate::verdict::{aggregate, aggregate_verdicts, Verdict};

verus! {

/// What a custom checker answers: a verdict, or the reason why it has none.
pub type Answer = Result<Verdict, VerificationError>;

/// A custom check, as the table holds it.
trait Checker {
    /// Whether the checker can be called with any parameters.
    spec fn ready(&self) -> bool;

    /// Whether the checker may give this answer for these parameters.
    spec fn may_return(&self, params: Map<String, String>, answer: Answer) -> bool;

    fn check(&self, params: &HashMap<String, String>) -> (answer: Answer)
        requires
            self.ready(),
        ensures
            self.may_return(params@, answer),
    ;
}

/// Whether the function `f` can be called with any parameters.
pub open spec fn accepts_all<F: Fn(&HashMap<String, String>) -> Answer>(f: F) -> bool {
    forall|params: &HashMap<String, String>| call_requires(f, (params,))
}

/// Whether the function `f` may give this answer for parameters that hold
/// `params`.
pub open spec fn may_give<F: Fn(&HashMap<String, String>) -> Answer>(
    f: F,
    params: Map<String, String>,
    answer: Answer,
) -> bool {
    exists|table: &HashMap<String, String>| table@ == params && call_ensures(f, (table,), answer)
}

struct FnChecker<F> {
    f: F,
}

impl<F: Fn(&HashMap<String, String>) -> Answer> Checker for FnChecker<F> {
    spec fn ready(&self) -> bool {
        accepts_all(self.f)
    }

    spec fn may_return(&self, params: Map<String, String>, answer: Answer) -> bool {
        may_give(self.f, params, answer)
    }

    fn check(&self, params: &HashMap<String, String>) -> (answer: Answer) {
        (self.f)(params)
    }
}

/// The table of custom checkers: the entry registered last comes first,
/// and the first entry of a name is the one that counts.
enum Table {
    Empty,
    Entry { name: String, checker: Box<dyn Checker>, rest: Box<Table> },
}

impl Table {
    spec fn all_ready(&self) -> bool
        decreases self,
    {
        match self {
            Table::Empty => true,
            Table::Entry { checker, rest, .. } => checker.ready() && rest.all_ready(),
        }
    }

    spec fn has(&self, name: Seq<char>) -> bool
        decreases self,
    {
        match self {
            Table::Empty => false,
            Table::Entry { name: entry, rest, .. } => entry@ == name || rest.has(name),
        }
    }

    spec fn answers(&self, name: Seq<char>, params: Map<String, String>, answer: Answer) -> bool
        decreases self,
    {
        match self {
            Table::Empty => false,
            Table::Entry { name: entry, checker, rest } => if entry@ == name {
                checker.may_return(params, answer)
            } else {
                rest.answers(name, params, answer)
            },
        }
    }

    /// Asks the checker registered under `name`, if there is one.
    fn ask(&self, name: &str, params: &HashMap<String, String>) -> (r: Option<Answer>)
        requires
            self.all_ready(),
        ensures
            match r {
                Some(answer) => self.has(name@) && self.answers(name@, params@, answer),
                None => !self.has(name@),
            },
        decreases self,
    {
        match self {
            Table::Empty => None,
            Table::Entry { name: entry, checker, rest } => {
                if same_text(entry.as_str(), name) {
                    Some(checker.check(params))
                } else {
                    rest.ask(name, params)
                }
            },
        }
    }
}

/// Checks claims against what was observed.
///
/// A verifier holds nothing but the table of custom checkers, which is
/// filled before claims are verified and only read after that.
pub struct Verifier {
    custom_checkers: Table,
}

/// Whether a verdict and a detail are what an answer of a custom checker
/// leads to: the verdict of the checker without a detail, or no verdict and
/// the message of the error. Of the message of an I/O error only the
/// beginning is fixed.
pub open spec fn answer_fits(answer: Answer, verdict: Verdict, details: Option<Seq<char>>) -> bool {
    match answer {
        Ok(v) => verdict == v && details is None,
        Err(e) => {
            &&& verdict == Verdict::Unverifiable
            &&& details matches Some(text)
            &&& if e is Io {
                e.message_text().is_prefix_of(text)
            } else {
                text == e.message_text()
            }
        },
    }
}

/// Turns the answer of a custom checker into a verdict and a detail.
pub fn custom_outcome(answer: Answer) -> (r: (Verdict, Option<String>))
    ensures
        answer_fits(answer, r.0, optional_text(r.1)),
{
    match answer {
        Ok(v) => (v, None),
        Err(e) => (Verdict::Unverifiable, Some(e.message())),
    }
}

impl Verifier {
    #[verifier::type_invariant]
    spec fn well_formed(self) -> bool {
        self.custom_checkers.all_ready()
    }

    /// Whether a checker is registered under `name`.
    pub closed spec fn is_registered(&self, name: Seq<char>) -> bool {
        self.custom_checkers.has(name)
    }

    /// Whether the checker registered under `name` may give this answer for
    /// these parameters.
    pub closed spec fn may_answer(
        &self,
        name: Seq<char>,
        params: Map<String, String>,
        answer: Answer,
    ) -> bool {
        self.custom_checkers.answers(name, params, answer)
    }

    /// A verifier with no custom checkers.
    pub fn new() -> (fresh: Self)
        ensures
            forall|name: Seq<char>| !fresh.is_registered(name),
    {
        Verifier { custom_checkers: Table::Empty }
    }

    /// Registers a custom checker under a name. A checker registered under
    /// the same name before is replaced; all others stay.
    pub fn register_checker<F>(&mut self, name: &str, checker: F) where
        F: Fn(&HashMap<String, String>) -> Answer + 'static,

        requires
            accepts_all(checker),
        ensures
            forall|other: Seq<char>| #[trigger]
                final(self).is_registered(other) == (other == name@ || old(self).is_registered(
                    other,
                )),
            forall|other: Seq<char>, params: Map<String, String>, answer: Answer| #[trigger]
                final(self).may_answer(other, params, answer) == if other == name@ {
                    may_give(checker, params, answer)
                } else {
                    old(self).may_answer(other, params, answer)
                },
    {
        proof {
            use_type_invariant(&*self);
        }
        let mut rest = Table::Empty;
        core::mem::swap(&mut rest, &mut self.custom_checkers);
        self.custom_checkers = Table::Entry {
            name: String::from_str(name),
            checker: Box::new(FnChecker { f: checker }),
            rest: Box::new(rest),
        };
    }

    /// Whether a verdict and a detail are what the check of custom evidence
    /// may give: what an answer of the registered checker leads to, or, with
    /// no checker of that name, that the evidence cannot be verified.
    pub open spec fn custom_finding(
        &self,
        name: Seq<char>,
        params: Map<String, String>,
        verdict: Verdict,
        details: Option<Seq<char>>,
    ) -> bool {
        if self.is_registered(name) {
            exists|answer: Answer| #[trigger]
                self.may_answer(name, params, answer) && answer_fits(answer, verdict, details)
        } else {
            verdict == Verdict::Unverifiable && details == Some("No checker for: "@ + name)
        }
    }

    /// Whether a result is what the check of a piece of evidence may give.
    ///
    /// The result repeats the evidence. For a built-in kind the verdict and
    /// the detail are those of [`builtin_finding`]; for custom evidence they
    /// come from the registered checker.
    pub open spec fn result_fits(
        &self,
        evidence: EvidenceSpecView,
        observed: ObservationView,
        result: EvidenceResultView,
    ) -> bool {
        &&& result.spec == evidence
        &&& match evidence {
            EvidenceSpecView::Custom { name, params } => self.custom_finding(
                name,
                params,
                result.verdict,
                result.details,
            ),
            _ => result.details matches Some(text) && builtin_finding(evidence, observed).admits(
                result.verdict,
                text,
            ),
        }
    }

    /// Checks custom evidence with the checker registered under `name`.
    pub fn check_custom(&self, name: &str, params: &HashMap<String, String>) -> (r: (
        Verdict,
        Option<String>,
    ))
        ensures
            self.custom_finding(name@, params@, r.0, optional_text(r.1)),
    {
        proof {
            use_type_invariant(self);
        }
        match self.custom_checkers.ask(name, params) {
            Some(answer) => {
                let ghost given = answer;
                let r = custom_outcome(answer);
                assert(self.may_answer(name@, params@, given) && answer_fits(
                    given,
                    r.0,
                    optional_text(r.1),
                ));
                r
            },
            None => (Verdict::Unverifiable, Some(join2("No checker for: ", name))),
        }
    }

    /// Checks a single piece of evidence against what was observed for it.
    ///
    /// The check never fails: a file that is missing, a command that cannot
    /// be started, a pattern that does not compile, a checker that is not
    /// registered all end in a verdict. What has to be observed is told by
    /// [`probe_for`](crate::observation::probe_for); custom evidence is not
    /// observed but handed to its checker.
    pub fn check_evidence(&self, evidence: &EvidenceSpec, observed: &Observation) -> (result:
        EvidenceResult)
        ensures
            self.result_fits(evidence@, observed@, result@),
    {
        let (verdict, details) = match evidence {
            EvidenceSpec::FileExists { path } => found(check_file_exists(path.as_str(), observed)),
            EvidenceSpec::FileWithHash { sha256, .. } => found(
                check_file_hash(sha256.as_str(), observed),
            ),
            EvidenceSpec::FileContains { substring, .. } => found(
                check_file_contains(substring.as_str(), observed),
            ),
            EvidenceSpec::FileMatchesRegex { pattern, .. } => found(
                check_file_matches(pattern.as_str(), observed),
            ),
            EvidenceSpec::FileJsonPath { json_path, expected, .. } => found(
                check_json_path(json_path.as_str(), expected, observed),
            ),
            EvidenceSpec::DirectoryExists { path } => found(
                check_directory_exists(path.as_str(), observed),
            ),
            EvidenceSpec::CommandSucceeds { .. } => found(check_command(observed)),
            EvidenceSpec::GitClean { .. } => found(check_git_clean(observed)),
            EvidenceSpec::GitCommitExists { commit, .. } => found(
                check_git_commit(commit.as_str(), observed),
            ),
            EvidenceSpec::GitBranchExists { branch, .. } => found(
                check_git_branch(branch.as_str(), observed),
            ),
            EvidenceSpec::FileModifiedAfter { after, .. } => found(
                check_modified_after(after.as_str(), observed),
            ),
            EvidenceSpec::EnvVar { name, expected } => found(
                check_env_var(name.as_str(), expected.as_str(), observed),
            ),
            EvidenceSpec::Custom { name, params } => self.check_custom(name.as_str(), params),
        };
        EvidenceResult { spec: evidence.clone(), verdict, details }
    }

    /// Verifies a claim: checks every piece of its evidence, in order,
    /// against the observation at the same place in `observed`, and folds
    /// the verdicts into one.
    ///
    /// A claim without evidence cannot be verified. A piece of evidence for
    /// which `observed` holds nothing is checked as if nothing had been
    /// observed; observations beyond the evidence are not looked at.
    pub fn verify(&self, claim: &Claim, observed: &Vec<Observation>) -> (report: VerificationReport)
        ensures
            report@.claim == claim@,
            report@.evidence_results.len() == claim@.evidence.len(),
            forall|i: int|
                0 <= i < claim@.evidence.len() ==> self.result_fits(
                    claim@.evidence[i],
                    observation_at(observed@, i),
                    #[trigger] report@.evidence_results[i],
                ),
            report@.overall_verdict == aggregate(verdicts_of(report@.evidence_results)),
            claim@.evidence.len() == 0 ==> report@.overall_verdict == Verdict::Unverifiable,
    {
        let nothing = Observation::Nothing;
        let mut results: Vec<EvidenceResult> = Vec::new();
        let mut verdicts: Vec<Verdict> = Vec::new();
        let mut i: usize = 0;
        while i < claim.evidence.len()
            invariant
                i <= claim.evidence.len(),
                nothing@ == ObservationView::Nothing,
                results@.len() == i,
                verdicts@ == verdicts_of(result_views(results@)),
                forall|k: int|
                    0 <= k < i ==> self.result_fits(
                        claim@.evidence[k],
                        observation_at(observed@, k),
                        #[trigger] result_views(results@)[k],
                    ),
            decreases claim.evidence.len() - i,
        {
            let seen = if i < observed.len() {
                &observed[i]
            } else {
                &nothing
            };
            let result = self.check_evidence(&claim.evidence[i], seen);
            let ghost before = results@;
            let ghost added = result@;
            verdicts.push(result.verdict);
            results.push(result);
            proof {
                assert(seen@ == observation_at(observed@, i as int));
                assert(claim@.evidence[i as int] == claim.evidence[i as int]@);
                assert(result_views(results@)[i as int] == added);
                assert forall|k: int| 0 <= k < i + 1 implies self.result_fits(
                    claim@.evidence[k],
                    observation_at(observed@, k),
                    #[trigger] result_views(results@)[k],
                ) by {
                    if k < i {
                        assert(result_views(before)[k] == result_views(results@)[k]);
                    }
                }
                assert(verdicts@ =~= verdicts_of(result_views(results@)));
            }
            i += 1;
        }
        let overall_verdict = aggregate_verdicts(&verdicts);
        VerificationReport {
            claim: claim.clone(),
            evidence_results: results,
            overall_verdict,
            verified_at: current_time(),
        }
    }
}

impl Default for Verifier {
    fn default() -> (fresh: Self)
        ensures
            forall|name: Seq<char>| !fresh.is_registered(name),
    {
        Verifier::new()
    }
}

/// What was observed for the piece of evidence at place `i`: the
/// observation at that place, or nothing where the list is too short.
pub open spec fn observation_at(observed: Seq<Observation>, i: int) -> ObservationView {
    if 0 <= i < observed.len() {
        observed[i]@
    } else {
        ObservationView::Nothing
    }
}

fn found(finding: (Verdict, String)) -> (r: (Verdict, Option<String>))
    ensures
        r.0 == finding.0,
        r.1 == Some(finding.1),
{
    (finding.0, Some(finding.1))
}

} // verus!
