//! Per-family reports and the aggregate outcome of a run.

use vstd::prelude::*;
use crate::availability::{SelectionResult, SelectionView};
use crate::execution::{ExecutionResult, ExecutionView, ExitStatus, SpawnFailure};

verus! {

/// The model of what became of one invocation.
pub open spec fn result_view(result: Result<ExecutionResult, SpawnFailure>) -> Result<
    ExecutionView,
    SpawnFailure,
> {
    match result {
        Ok(execution) => Ok(execution@),
        Err(failure) => Err(failure),
    }
}

/// Mathematical model of a [`ProgramRun`].
pub struct RunView {
    pub program: SelectionView,
    pub result: Result<ExecutionView, SpawnFailure>,
}

/// One program that was handed out for execution, and what came of it.
#[derive(Debug)]
pub struct ProgramRun {
    /// The program that was chosen.
    pub program: SelectionResult,
    /// How the process ended, or why it could not be started.
    pub result: Result<ExecutionResult, SpawnFailure>,
}

impl View for ProgramRun {
    type V = RunView;

    open spec fn view(&self) -> RunView {
        RunView { program: self.program@, result: result_view(self.result) }
    }
}

impl DeepView for ProgramRun {
    type V = RunView;

    open spec fn deep_view(&self) -> RunView {
        self@
    }
}

/// Mathematical model of a [`FamilyOutcome`].
pub enum OutcomeView {
    UnsupportedEcosystem,
    NoProgramAvailable,
    Ran(Seq<RunView>),
}

/// What happened to one family.
#[derive(Debug)]
pub enum FamilyOutcome {
    /// There is no descriptor table for the detected ecosystem.
    UnsupportedEcosystem,
    /// No candidate of the family resolved on the search path.
    NoProgramAvailable,
    /// The chosen programs were handed out, in this order.
    Ran(Vec<ProgramRun>),
}

impl View for FamilyOutcome {
    type V = OutcomeView;

    open spec fn view(&self) -> OutcomeView {
        match self {
            FamilyOutcome::UnsupportedEcosystem => OutcomeView::UnsupportedEcosystem,
            FamilyOutcome::NoProgramAvailable => OutcomeView::NoProgramAvailable,
            FamilyOutcome::Ran(runs) => OutcomeView::Ran(runs.deep_view()),
        }
    }
}

/// Mathematical model of a [`FamilyUpdateReport`].
pub struct ReportView {
    pub family: Seq<char>,
    pub outcome: OutcomeView,
}

/// The report on one family of a run.
#[derive(Debug)]
pub struct FamilyUpdateReport {
    pub family: String,
    pub outcome: FamilyOutcome,
}

impl View for FamilyUpdateReport {
    type V = ReportView;

    open spec fn view(&self) -> ReportView {
        ReportView { family: self.family@, outcome: self.outcome@ }
    }
}

impl DeepView for FamilyUpdateReport {
    type V = ReportView;

    open spec fn deep_view(&self) -> ReportView {
        self@
    }
}

/// Whether a run started and its process reported success.
pub open spec fn run_succeeded(run: RunView) -> bool {
    run.result matches Ok(execution) && execution.status == ExitStatus::Success
}

/// Whether a family was updated: its programs ran and each reported success.
pub open spec fn report_succeeded(report: ReportView) -> bool {
    match report.outcome {
        OutcomeView::Ran(runs) => forall|i: int|
            0 <= i < runs.len() ==> run_succeeded(#[trigger] runs[i]),
        _ => false,
    }
}

/// Whether every family of a run was updated.
pub open spec fn all_succeeded(reports: Seq<ReportView>) -> bool {
    forall|i: int| 0 <= i < reports.len() ==> report_succeeded(#[trigger] reports[i])
}

impl ProgramRun {
    /// Whether the run started and its process reported success.
    pub fn succeeded(&self) -> (ok: bool)
        ensures
            ok == run_succeeded(self@),
    {
        match &self.result {
            Ok(execution) => execution.succeeded(),
            Err(_) => false,
        }
    }
}

impl FamilyUpdateReport {
    /// Whether the family was updated.
    pub fn succeeded(&self) -> (ok: bool)
        ensures
            ok == report_succeeded(self@),
    {
        match &self.outcome {
            FamilyOutcome::Ran(runs) => {
                let mut i: usize = 0;
                while i < runs.len()
                    invariant
                        i <= runs.len(),
                        self@.outcome == OutcomeView::Ran(runs.deep_view()),
                        forall|j: int| 0 <= j < i ==> run_succeeded(runs[j]@),
                    decreases runs.len() - i,
                {
                    if !runs[i].succeeded() {
                        assert(runs.deep_view()[i as int] == runs[i as int]@);
                        assert(!run_succeeded(self@.outcome->Ran_0[i as int]));
                        return false;
                    }
                    i += 1;
                }
                assert forall|j: int| 0 <= j < runs.deep_view().len() implies run_succeeded(
                    #[trigger] runs.deep_view()[j],
                ) by {
                    assert(runs.deep_view()[j] == runs[j]@);
                }
                true
            },
            _ => false,
        }
    }
}

/// The exit code of a whole run: zero when every family was updated, one
/// otherwise.
pub fn exit_code(reports: &Vec<FamilyUpdateReport>) -> (code: i32)
    ensures
        code == if all_succeeded(reports.deep_view()) {
            0i32
        } else {
            1i32
        },
{
    let mut i: usize = 0;
    while i < reports.len()
        invariant
            i <= reports.len(),
            forall|j: int| 0 <= j < i ==> report_succeeded(reports[j]@),
        decreases reports.len() - i,
    {
        if !reports[i].succeeded() {
            assert(reports.deep_view()[i as int] == reports[i as int]@);
            assert(!report_succeeded(reports.deep_view()[i as int]));
            return 1;
        }
        i += 1;
    }
    assert forall|j: int| 0 <= j < reports.deep_view().len() implies report_succeeded(
        #[trigger] reports.deep_view()[j],
    ) by {
        assert(reports.deep_view()[j] == reports[j]@);
    }
    0
}

} // verus!
