//! The result of checking one piece of evidence, the report on a whole
//! claim, and how a report is written out.

use vstd::prelude::*;
use crate::claim::{Claim, ClaimView};
use crate::evidence::{optional_text, texts, EvidenceSpec, EvidenceSpecView};
use crate::text::{join2, join3};
use crate::timestamp::Timestamp;
use crate::verdict::Verdict;

verus! {

/// The result of checking one piece of evidence.
#[derive(Debug)]
pub struct EvidenceResult {
    /// The evidence that was checked, as it was given.
    pub spec: EvidenceSpec,
    pub verdict: Verdict,
    /// A line for the human reader.
    pub details: Option<String>,
}

/// The report on a claim.
#[derive(Debug)]
pub struct VerificationReport {
    pub claim: Claim,
    /// One result for each piece of evidence of the claim, in its order.
    pub evidence_results: Vec<EvidenceResult>,
    pub overall_verdict: Verdict,
    /// When the verification was completed.
    pub verified_at: Timestamp,
}

/// The mathematical model of an [`EvidenceResult`].
pub struct EvidenceResultView {
    pub spec: EvidenceSpecView,
    pub verdict: Verdict,
    pub details: Option<Seq<char>>,
}

/// The mathematical model of a [`VerificationReport`].
pub struct VerificationReportView {
    pub claim: ClaimView,
    pub evidence_results: Seq<EvidenceResultView>,
    pub overall_verdict: Verdict,
    pub verified_at: Timestamp,
}

impl View for EvidenceResult {
    type V = EvidenceResultView;

    open spec fn view(&self) -> EvidenceResultView {
        EvidenceResultView {
            spec: self.spec@,
            verdict: self.verdict,
            details: optional_text(self.details),
        }
    }
}

/// The models of a list of results.
pub open spec fn result_views(results: Seq<EvidenceResult>) -> Seq<EvidenceResultView> {
    results.map_values(|r: EvidenceResult| r@)
}

/// The verdicts of a list of results.
pub open spec fn verdicts_of(results: Seq<EvidenceResultView>) -> Seq<Verdict> {
    results.map_values(|r: EvidenceResultView| r.verdict)
}

impl View for VerificationReport {
    type V = VerificationReportView;

    open spec fn view(&self) -> VerificationReportView {
        VerificationReportView {
            claim: self.claim@,
            evidence_results: result_views(self.evidence_results@),
            overall_verdict: self.overall_verdict,
            verified_at: self.verified_at,
        }
    }
}

/// What a piece of evidence asks for, in a few words.
pub open spec fn description_of(evidence: EvidenceSpecView) -> Seq<char> {
    match evidence {
        EvidenceSpecView::FileExists { path } => "File exists: "@ + path,
        EvidenceSpecView::FileWithHash { path, .. } => "File hash: "@ + path,
        EvidenceSpecView::FileContains { path, substring } => "File contains '"@ + substring
            + "': "@ + path,
        EvidenceSpecView::FileMatchesRegex { path, pattern } => "File matches '"@ + pattern
            + "': "@ + path,
        EvidenceSpecView::FileJsonPath { path, json_path, .. } => "JSON path '"@ + json_path
            + "': "@ + path,
        EvidenceSpecView::DirectoryExists { path } => "Directory exists: "@ + path,
        EvidenceSpecView::CommandSucceeds { command, .. } => "Command succeeds: "@ + command,
        EvidenceSpecView::GitClean { .. } => "Git working tree is clean"@,
        EvidenceSpecView::GitCommitExists { commit, .. } => "Git commit exists: "@ + commit,
        EvidenceSpecView::GitBranchExists { branch, .. } => "Git branch exists: "@ + branch,
        EvidenceSpecView::FileModifiedAfter { path, after } => "File modified after '"@ + after
            + "': "@ + path,
        EvidenceSpecView::EnvVar { name, .. } => "Environment variable: "@ + name,
        EvidenceSpecView::Custom { name, .. } => "Custom check: "@ + name,
    }
}

/// The line that sums a report up.
pub open spec fn summary_of(report: VerificationReportView) -> Seq<char> {
    "["@ + report.overall_verdict.symbol_text() + "] "@ + report.claim.description + " - "@
        + report.overall_verdict.name_text()
}

/// The lines that one result takes in a report: its mark and what was asked
/// for, then the detail, if there is any.
pub open spec fn result_lines(result: EvidenceResultView) -> Seq<Seq<char>> {
    let head = "  "@ + result.verdict.symbol_text() + " "@ + description_of(result.spec);
    match result.details {
        Some(details) => seq![head, "      "@ + details],
        None => seq![head],
    }
}

/// The lines of a list of results, one result after the other.
pub open spec fn results_lines(results: Seq<EvidenceResultView>) -> Seq<Seq<char>>
    decreases results.len(),
{
    if results.len() == 0 {
        Seq::empty()
    } else {
        results_lines(results.drop_last()) + result_lines(results.last())
    }
}

/// The lines of a whole report: the summary, the source of the claim if it
/// has one, and the results.
pub open spec fn report_lines_of(report: VerificationReportView) -> Seq<Seq<char>> {
    let head = match report.claim.source {
        Some(source) => seq![summary_of(report), "  Source: "@ + source],
        None => seq![summary_of(report)],
    };
    head + results_lines(report.evidence_results)
}

/// Says in a few words what a piece of evidence asks for.
pub fn describe(evidence: &EvidenceSpec) -> (text: String)
    ensures
        text@ == description_of(evidence@),
{
    match evidence {
        EvidenceSpec::FileExists { path } => join2("File exists: ", path.as_str()),
        EvidenceSpec::FileWithHash { path, .. } => join2("File hash: ", path.as_str()),
        EvidenceSpec::FileContains { path, substring } => {
            let mut text = join3("File contains '", substring.as_str(), "': ");
            text.append(path.as_str());
            text
        },
        EvidenceSpec::FileMatchesRegex { path, pattern } => {
            let mut text = join3("File matches '", pattern.as_str(), "': ");
            text.append(path.as_str());
            text
        },
        EvidenceSpec::FileJsonPath { path, json_path, .. } => {
            let mut text = join3("JSON path '", json_path.as_str(), "': ");
            text.append(path.as_str());
            text
        },
        EvidenceSpec::DirectoryExists { path } => join2("Directory exists: ", path.as_str()),
        EvidenceSpec::CommandSucceeds { command, .. } => join2(
            "Command succeeds: ",
            command.as_str(),
        ),
        EvidenceSpec::GitClean { .. } => String::from_str("Git working tree is clean"),
        EvidenceSpec::GitCommitExists { commit, .. } => join2(
            "Git commit exists: ",
            commit.as_str(),
        ),
        EvidenceSpec::GitBranchExists { branch, .. } => join2(
            "Git branch exists: ",
            branch.as_str(),
        ),
        EvidenceSpec::FileModifiedAfter { path, after } => {
            let mut text = join3("File modified after '", after.as_str(), "': ");
            text.append(path.as_str());
            text
        },
        EvidenceSpec::EnvVar { name, .. } => join2("Environment variable: ", name.as_str()),
        EvidenceSpec::Custom { name, .. } => join2("Custom check: ", name.as_str()),
    }
}

impl VerificationReport {
    /// The line that sums the report up: the mark of the verdict, the
    /// description of the claim and the name of the verdict.
    pub fn summary(&self) -> (text: String)
        ensures
            text@ == summary_of(self@),
    {
        let mut text = join3("[", self.overall_verdict.symbol(), "] ");
        text.append(self.claim.description.as_str());
        text.append(" - ");
        text.append(self.overall_verdict.name());
        text
    }

    /// The lines of the report, ready to be printed.
    pub fn lines(&self) -> (lines: Vec<String>)
        ensures
            texts(lines@) == report_lines_of(self@),
    {
        let mut lines: Vec<String> = Vec::new();
        lines.push(self.summary());
        match &self.claim.source {
            Some(source) => {
                lines.push(join2("  Source: ", source.as_str()));
            },
            None => {},
        }
        let ghost head = texts(lines@);
        let ghost results = result_views(self.evidence_results@);
        assert(results_lines(results.take(0)) =~= Seq::<Seq<char>>::empty());
        assert(texts(lines@) =~= head + results_lines(results.take(0)));
        let mut i: usize = 0;
        while i < self.evidence_results.len()
            invariant
                i <= self.evidence_results.len(),
                results == result_views(self.evidence_results@),
                texts(lines@) == head + results_lines(results.take(i as int)),
            decreases self.evidence_results.len() - i,
        {
            let result = &self.evidence_results[i];
            let ghost before = texts(lines@);
            let what = describe(&result.spec);
            let mut line = join3("  ", result.verdict.symbol(), " ");
            line.append(what.as_str());
            lines.push(line);
            match &result.details {
                Some(details) => {
                    lines.push(join2("      ", details.as_str()));
                },
                None => {},
            }
            proof {
                assert(results.take(i + 1).drop_last() =~= results.take(i as int));
                assert(results.take(i + 1).last() == result@);
                assert(texts(lines@) =~= before + result_lines(result@));
            }
            i += 1;
        }
        assert(results.take(self.evidence_results.len() as int) =~= results);
        lines
    }
}

} // verus!
