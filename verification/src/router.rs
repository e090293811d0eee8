//! The family router: one family after the other, one report per family.
//!
//! The router is a state machine. It decides what happens next and the caller
//! does the outside work: the router hands out an [`Action`], the caller runs
//! the invocation it names and hands the outcome back. A family that cannot be
//! resolved, or whose program cannot be started, ends in a report entry and
//! the router goes on with the next family.

use vstd::prelude::*;
use crate::descriptor::{DescriptorView, ProgramDescriptor};
use crate::config::name_view;
use crate::availability::{
    first_named, is_probe_of, probe, AvailabilityMap, AvailabilityView, ProgramTable,
    SelectionResult, SelectionView, TableView,
};
use crate::selection::{
    select_both, select_both_spec, select_under, select_under_spec, PreferencePolicy, Selection,
    SelectionPlan,
};
use crate::execution::{
    execute, invocation_of, ExecutionResult, ExecutionView, Invocation, InvocationView,
    SpawnFailure,
};
use crate::report::{
    result_view, FamilyOutcome, FamilyUpdateReport, OutcomeView, ProgramRun, ReportView, RunView,
};

verus! {

/// Mathematical model of a [`FamilyRequest`].
pub enum RequestView {
    Unsupported { family: Seq<char> },
    Single {
        table: TableView,
        preferred: Option<DescriptorView>,
        policy: PreferencePolicy,
    },
    Both { family: Seq<char>, first: TableView, second: TableView },
}

/// What the caller wants done for one family.
#[derive(Debug)]
pub enum FamilyRequest {
    /// The ecosystem was detected or configured, but no descriptor table
    /// exists for it.
    Unsupported { family: String },
    /// Run one program of `table`, `preferred` if it is installed; `policy`
    /// says what to do if it is not. The family is reported under the table's
    /// name.
    Single {
        table: ProgramTable,
        preferred: Option<ProgramDescriptor>,
        policy: PreferencePolicy,
    },
    /// Run one program of each table, the one of `first` first.
    Both { family: String, first: ProgramTable, second: ProgramTable },
}

impl View for FamilyRequest {
    type V = RequestView;

    open spec fn view(&self) -> RequestView {
        match self {
            FamilyRequest::Unsupported { family } => RequestView::Unsupported { family: family@ },
            FamilyRequest::Single { table, preferred, policy } => RequestView::Single {
                table: table@,
                preferred: preferred.deep_view(),
                policy: *policy,
            },
            FamilyRequest::Both { family, first, second } => RequestView::Both {
                family: family@,
                first: first@,
                second: second@,
            },
        }
    }
}

impl DeepView for FamilyRequest {
    type V = RequestView;

    open spec fn deep_view(&self) -> RequestView {
        self@
    }
}

impl RequestView {
    /// The name under which the family is reported.
    pub open spec fn family(self) -> Seq<char> {
        match self {
            RequestView::Unsupported { family } => family,
            RequestView::Single { table, .. } => table.family,
            RequestView::Both { family, .. } => family,
        }
    }

    /// Whether the family is switched off: it has tables and all are empty.
    pub open spec fn is_disabled(self) -> bool {
        match self {
            RequestView::Unsupported { .. } => false,
            RequestView::Single { table, .. } => table.descriptors.len() == 0,
            RequestView::Both { first, second, .. } => first.descriptors.len() == 0
                && second.descriptors.len() == 0,
        }
    }

    /// What the selection policy decides for the family when probing its
    /// tables gave `first` and `second`.
    pub open spec fn selection(self, first: AvailabilityView, second: AvailabilityView) -> Result<
        SelectionPlan,
        Seq<char>,
    > {
        match self {
            RequestView::Unsupported { family } => Err(family),
            RequestView::Single { preferred, policy, .. } => match select_under_spec(
                first,
                preferred,
                policy,
            ) {
                Ok(only) => Ok(SelectionPlan::Single(only)),
                Err(family) => Err(family),
            },
            RequestView::Both { .. } => select_both_spec(first, None, second, None),
        }
    }

    /// Whether `first` and `second` are what probing the family's tables can
    /// yield.
    pub open spec fn probed_by(self, first: AvailabilityView, second: AvailabilityView) -> bool {
        match self {
            RequestView::Unsupported { .. } => true,
            RequestView::Single { table, .. } => is_probe_of(first, table),
            RequestView::Both { first: one, second: other, .. } => is_probe_of(first, one)
                && is_probe_of(second, other),
        }
    }
}

/// The model of the request to run one program of `table`, preferring the
/// first descriptor whose executable is called `preferred` and falling back
/// to the first available one. A name that no descriptor of the table bears
/// is no preference.
pub open spec fn request_for(table: TableView, preferred: Option<Seq<char>>) -> RequestView {
    RequestView::Single {
        table,
        preferred: match preferred {
            Some(name) => first_named(table.descriptors, name),
            None => None,
        },
        policy: PreferencePolicy::FallBack,
    }
}

/// The model of the request to run the first available program of `table`.
pub open spec fn only(table: TableView) -> RequestView {
    RequestView::Single { table, preferred: None, policy: PreferencePolicy::FallBack }
}

impl FamilyRequest {
    /// The request to run the first available program of `table`.
    pub fn only(table: ProgramTable) -> (request: FamilyRequest)
        ensures
            request@ == only(table@),
    {
        FamilyRequest::Single { table, preferred: None, policy: PreferencePolicy::FallBack }
    }

    /// The request to run one program of `table`, preferring the program
    /// that the configuration names, if it names one of the table.
    pub fn single(table: ProgramTable, preferred: &Option<String>) -> (request: FamilyRequest)
        ensures
            request@ == request_for(table@, name_view(*preferred)),
    {
        let chosen = match preferred {
            Some(name) => match table.find_by_name(name.as_str()) {
                Some(descriptor) => Some(descriptor.clone()),
                None => None,
            },
            None => None,
        };
        FamilyRequest::Single { table, preferred: chosen, policy: PreferencePolicy::FallBack }
    }

    /// The name under which the family is reported.
    pub fn family(&self) -> (family: &String)
        ensures
            family@ == self@.family(),
    {
        match self {
            FamilyRequest::Unsupported { family } => family,
            FamilyRequest::Single { table, .. } => &table.family,
            FamilyRequest::Both { family, .. } => family,
        }
    }

    /// Whether the family is switched off.
    pub fn is_disabled(&self) -> (disabled: bool)
        ensures
            disabled == self@.is_disabled(),
    {
        match self {
            FamilyRequest::Unsupported { .. } => false,
            FamilyRequest::Single { table, .. } => table.is_empty(),
            FamilyRequest::Both { first, second, .. } => first.is_empty() && second.is_empty(),
        }
    }
}

/// The number of programs that a selection runs.
pub open spec fn program_count(plan: SelectionPlan) -> nat {
    match plan {
        SelectionPlan::Single(_) => 1,
        SelectionPlan::Both(_, _) => 2,
    }
}

/// The program that a selection runs after `done` of its programs have run.
pub open spec fn program_at(plan: SelectionPlan, done: nat) -> SelectionView {
    match plan {
        SelectionPlan::Single(only) => only,
        SelectionPlan::Both(first, second) => if done == 0 {
            first
        } else {
            second
        },
    }
}

/// Mathematical model of a [`Router`].
pub struct RouterView {
    /// The families of the run, in the order in which they are attempted.
    pub requests: Seq<RequestView>,
    /// How many families are done with.
    pub position: nat,
    /// The selection of the family at `position`, while it is being run.
    pub selection: Option<SelectionPlan>,
    /// The runs of that selection that have ended.
    pub runs: Seq<RunView>,
    /// The reports on the families that are done with.
    pub reports: Seq<ReportView>,
}

/// Mathematical model of an [`Action`].
pub enum ActionView {
    Run(InvocationView),
    Resolve,
    Done,
}

/// What the router asks its caller to do next.
#[derive(Debug)]
pub enum Action {
    /// Start this process, wait for it, and hand the outcome back.
    Run(Invocation),
    /// Nothing to run yet: the next family is still to be resolved.
    Resolve,
    /// Every family is done with.
    Done,
}

impl View for Action {
    type V = ActionView;

    open spec fn view(&self) -> ActionView {
        match self {
            Action::Run(invocation) => ActionView::Run(invocation@),
            Action::Resolve => ActionView::Resolve,
            Action::Done => ActionView::Done,
        }
    }
}

/// The router before anything was attempted.
pub open spec fn initial(requests: Seq<RequestView>) -> RouterView {
    RouterView {
        requests,
        position: 0,
        selection: None,
        runs: Seq::empty(),
        reports: Seq::empty(),
    }
}

/// Whether a family is waiting to be resolved.
pub open spec fn awaits_resolution(state: RouterView) -> bool {
    state.selection is None && state.position < state.requests.len()
}

/// Whether a selected program is waiting for its outcome.
pub open spec fn awaits_outcome(state: RouterView) -> bool {
    state.selection is Some && state.position < state.requests.len()
}

/// The state with the family at `position` done with, and `report` added if
/// there is one.
pub open spec fn advanced(state: RouterView, report: Option<ReportView>) -> RouterView {
    RouterView {
        requests: state.requests,
        position: state.position + 1,
        selection: None,
        runs: Seq::empty(),
        reports: match report {
            Some(entry) => state.reports.push(entry),
            None => state.reports,
        },
    }
}

/// The state after the next family was resolved with the probes `first` and
/// `second` of its tables.
///
/// An unsupported family is reported as such. A family that is switched off is
/// passed over without a report. Otherwise the selection policy decides: its
/// choice becomes the selection to run, its failure a report entry. In every
/// case but a successful choice the router is ready for the family after.
pub open spec fn resolved(
    state: RouterView,
    first: AvailabilityView,
    second: AvailabilityView,
) -> RouterView {
    if !awaits_resolution(state) {
        state
    } else {
        let request = state.requests[state.position as int];
        if request is Unsupported {
            advanced(
                state,
                Some(
                    ReportView {
                        family: request.family(),
                        outcome: OutcomeView::UnsupportedEcosystem,
                    },
                ),
            )
        } else if request.is_disabled() {
            advanced(state, None)
        } else {
            match request.selection(first, second) {
                Ok(plan) => RouterView {
                    requests: state.requests,
                    position: state.position,
                    selection: Some(plan),
                    runs: Seq::empty(),
                    reports: state.reports,
                },
                Err(_) => advanced(
                    state,
                    Some(
                        ReportView {
                            family: request.family(),
                            outcome: OutcomeView::NoProgramAvailable,
                        },
                    ),
                ),
            }
        }
    }
}

/// The state after the program that was handed out ended with `outcome`.
///
/// The outcome is recorded as a run of the current family, whatever it is.
/// When it was the last program of the selection, the family is reported with
/// all its runs and the router is ready for the family after. An outcome that
/// nothing was waiting for changes nothing.
pub open spec fn concluded(
    state: RouterView,
    outcome: Result<ExecutionView, SpawnFailure>,
) -> RouterView {
    if !awaits_outcome(state) {
        state
    } else {
        let plan = state.selection->Some_0;
        let runs = state.runs.push(
            RunView { program: program_at(plan, state.runs.len()), result: outcome },
        );
        if runs.len() >= program_count(plan) {
            advanced(
                state,
                Some(
                    ReportView {
                        family: state.requests[state.position as int].family(),
                        outcome: OutcomeView::Ran(runs),
                    },
                ),
            )
        } else {
            RouterView {
                requests: state.requests,
                position: state.position,
                selection: state.selection,
                runs,
                reports: state.reports,
            }
        }
    }
}

/// Whether `first` and `second` can stand for the probes of the family that
/// is waiting to be resolved. Where no family is waiting, or the one that
/// waits is switched off, nothing is probed and any pair will do.
pub open spec fn probes_fit(
    state: RouterView,
    first: AvailabilityView,
    second: AvailabilityView,
) -> bool {
    awaits_resolution(state) && !state.requests[state.position as int].is_disabled()
        ==> state.requests[state.position as int].probed_by(first, second)
}

/// What the caller is to do in a state.
pub open spec fn pending_action(state: RouterView) -> ActionView {
    if state.position >= state.requests.len() {
        ActionView::Done
    } else {
        match state.selection {
            Some(plan) => ActionView::Run(invocation_of(program_at(plan, state.runs.len()))),
            None => ActionView::Resolve,
        }
    }
}

/// The model of an optional outcome.
pub open spec fn outcome_view(outcome: Option<Result<ExecutionResult, SpawnFailure>>) -> Option<
    Result<ExecutionView, SpawnFailure>,
> {
    match outcome {
        Some(result) => Some(result_view(result)),
        None => None,
    }
}

/// The state after one step: the outcome, if there is one, is recorded, and
/// then the next family, if one is waiting, is resolved.
pub open spec fn stepped(
    state: RouterView,
    outcome: Option<Result<ExecutionView, SpawnFailure>>,
    first: AvailabilityView,
    second: AvailabilityView,
) -> RouterView {
    resolved(after_outcome(state, outcome), first, second)
}

/// The state after an optional outcome was recorded.
pub open spec fn after_outcome(
    state: RouterView,
    outcome: Option<Result<ExecutionView, SpawnFailure>>,
) -> RouterView {
    match outcome {
        Some(result) => concluded(state, result),
        None => state,
    }
}

/// Routes a run over its families.
#[derive(Debug)]
pub struct Router {
    requests: Vec<FamilyRequest>,
    position: usize,
    selection: Option<Selection>,
    runs: Vec<ProgramRun>,
    reports: Vec<FamilyUpdateReport>,
}

impl View for Router {
    type V = RouterView;

    closed spec fn view(&self) -> RouterView {
        RouterView {
            requests: self.requests.deep_view(),
            position: self.position as nat,
            selection: match self.selection {
                Some(selection) => Some(selection@),
                None => None,
            },
            runs: self.runs.deep_view(),
            reports: self.reports.deep_view(),
        }
    }
}

impl Router {
    /// A router for the given families, with nothing attempted yet.
    pub fn new(requests: Vec<FamilyRequest>) -> (router: Router)
        ensures
            router@ == initial(requests.deep_view()),
    {
        let router = Router {
            requests,
            position: 0,
            selection: None,
            runs: Vec::new(),
            reports: Vec::new(),
        };
        assert(router.runs.deep_view() =~= Seq::empty());
        assert(router.reports.deep_view() =~= Seq::empty());
        router
    }

    /// What the caller is to do next.
    pub fn pending(&self) -> (action: Action)
        ensures
            action@ == pending_action(self@),
    {
        if self.position >= self.requests.len() {
            return Action::Done;
        }
        match &self.selection {
            Some(Selection::Single(only)) => Action::Run(execute(only)),
            Some(Selection::Both(first, second)) => if self.runs.len() == 0 {
                Action::Run(execute(first))
            } else {
                Action::Run(execute(second))
            },
            None => Action::Resolve,
        }
    }

    /// Whether every family is done with.
    pub fn is_done(&self) -> (done: bool)
        ensures
            done == (pending_action(self@) is Done),
    {
        self.position >= self.requests.len()
    }

    /// The reports on the families that are done with, in request order.
    pub fn reports(&self) -> (reports: &Vec<FamilyUpdateReport>)
        ensures
            reports.deep_view() == self@.reports,
    {
        &self.reports
    }

    /// Ends the run and hands out the reports.
    pub fn into_reports(self) -> (reports: Vec<FamilyUpdateReport>)
        ensures
            reports.deep_view() == self@.reports,
    {
        self.reports
    }

    /// Marks the current family as done with, with `report` if there is one.
    fn advance(&mut self, report: Option<FamilyUpdateReport>)
        requires
            old(self).position < old(self).requests.len(),
        ensures
            final(self)@ == advanced(
                old(self)@,
                match report {
                    Some(entry) => Some(entry@),
                    None => None,
                },
            ),
    {
        let ghost before = self.reports.deep_view();
        match report {
            Some(entry) => {
                self.reports.push(entry);
                assert(self.reports.deep_view() =~= before.push(entry@));
            },
            None => {},
        }
        self.position = self.position + 1;
        self.selection = None;
        self.runs = Vec::new();
        assert(self.runs.deep_view() =~= Seq::empty());
    }

    /// Records the outcome of the program that was handed out.
    pub fn conclude(&mut self, outcome: Result<ExecutionResult, SpawnFailure>)
        ensures
            final(self)@ == concluded(old(self)@, result_view(outcome)),
    {
        if self.position >= self.requests.len() {
            return ;
        }
        let (program, count): (SelectionResult, usize) = match &self.selection {
            Some(Selection::Single(only)) => (only.clone(), 1),
            Some(Selection::Both(first, second)) => if self.runs.len() == 0 {
                (first.clone(), 2)
            } else {
                (second.clone(), 2)
            },
            None => {
                return ;
            },
        };
        let ghost before = self.runs.deep_view();
        let run = ProgramRun { program, result: outcome };
        self.runs.push(run);
        assert(self.runs.deep_view() =~= before.push(run@));
        if self.runs.len() >= count {
            let mut runs: Vec<ProgramRun> = Vec::new();
            core::mem::swap(&mut self.runs, &mut runs);
            let family = self.requests[self.position].family().clone();
            assert(self.requests.deep_view()[self.position as int]
                == self.requests[self.position as int]@);
            self.advance(Some(FamilyUpdateReport { family, outcome: FamilyOutcome::Ran(runs) }));
        }
    }

    /// Probes the tables of the next family and resolves it. A family that is
    /// unsupported or switched off is not probed.
    pub fn resolve(&mut self)
        ensures
            exists|first: AvailabilityView, second: AvailabilityView|
                probes_fit(old(self)@, first, second) && final(self)@ == #[trigger] resolved(
                    old(self)@,
                    first,
                    second,
                ),
    {
        let nothing = AvailabilityMap::new("");
        if self.selection.is_some() || self.position >= self.requests.len() {
            self.resolve_with(&nothing, &nothing);
            return ;
        }
        assert(self.requests.deep_view()[self.position as int]
            == self.requests[self.position as int]@);
        if self.requests[self.position].is_disabled() {
            self.resolve_with(&nothing, &nothing);
            return ;
        }
        let (first, second): (AvailabilityMap, AvailabilityMap) =
            match &self.requests[self.position] {
            FamilyRequest::Unsupported { .. } => (nothing, AvailabilityMap::new("")),
            FamilyRequest::Single { table, .. } => (probe(table), nothing),
            FamilyRequest::Both { first, second, .. } => (probe(first), probe(second)),
        };
        self.resolve_with(&first, &second);
    }

    /// Records `outcome`, if there is one, resolves the next family if one is
    /// waiting, and says what to do next.
    ///
    /// The caller starts with no outcome, runs what the action names, and
    /// calls again with what came of it, until the action is [`Action::Done`].
    pub fn step(&mut self, outcome: Option<Result<ExecutionResult, SpawnFailure>>) -> (action:
        Action)
        ensures
            exists|first: AvailabilityView, second: AvailabilityView|
                probes_fit(after_outcome(old(self)@, outcome_view(outcome)), first, second)
                    && final(self)@ == #[trigger] stepped(
                    old(self)@,
                    outcome_view(outcome),
                    first,
                    second,
                ),
            action@ == pending_action(final(self)@),
    {
        match outcome {
            Some(result) => {
                self.conclude(result);
            },
            None => {},
        }
        let ghost between = self@;
        self.resolve();
        proof {
            let (first, second) = choose|first: AvailabilityView, second: AvailabilityView|
                probes_fit(between, first, second) && self@ == #[trigger] resolved(
                    between,
                    first,
                    second,
                );
            assert(self@ == stepped(old(self)@, outcome_view(outcome), first, second));
        }
        self.pending()
    }

    /// Resolves the next family with the probes `first` and `second` of its
    /// tables. A request with a single table reads `first` only.
    pub fn resolve_with(&mut self, first: &AvailabilityMap, second: &AvailabilityMap)
        ensures
            final(self)@ == resolved(old(self)@, first@, second@),
    {
        if self.selection.is_some() || self.position >= self.requests.len() {
            return ;
        }
        assert(self.requests.deep_view()[self.position as int]
            == self.requests[self.position as int]@);
        let family = self.requests[self.position].family().clone();
        if self.requests[self.position].is_disabled() {
            self.advance(None);
            return ;
        }
        let choice: Option<Selection> = match &self.requests[self.position] {
            FamilyRequest::Unsupported { .. } => {
                self.advance(
                    Some(
                        FamilyUpdateReport {
                            family,
                            outcome: FamilyOutcome::UnsupportedEcosystem,
                        },
                    ),
                );
                return ;
            },
            FamilyRequest::Single { preferred, policy, .. } => match select_under(
                first,
                preferred.as_ref(),
                *policy,
            ) {
                Ok(only) => Some(Selection::Single(only)),
                Err(_) => None,
            },
            FamilyRequest::Both { .. } => match select_both(first, None, second, None) {
                Ok(plan) => Some(plan),
                Err(_) => None,
            },
        };
        match choice {
            Some(plan) => {
                self.selection = Some(plan);
                self.runs = Vec::new();
                assert(self.runs.deep_view() =~= Seq::empty());
            },
            None => {
                self.advance(
                    Some(
                        FamilyUpdateReport { family, outcome: FamilyOutcome::NoProgramAvailable },
                    ),
                );
            },
        }
    }
}

/// What the outside world gave for one family: the probes of its tables and
/// the outcomes of the programs that were run for it, in order.
pub struct FamilyInput {
    pub first: AvailabilityView,
    pub second: AvailabilityView,
    pub outcomes: Seq<Result<ExecutionView, SpawnFailure>>,
}

/// The report on a family taken by itself, if it gets one: what its own
/// request and its own input come to, with no regard to any other family.
pub open spec fn family_report(request: RequestView, input: FamilyInput) -> Option<ReportView> {
    if request is Unsupported {
        Some(ReportView { family: request.family(), outcome: OutcomeView::UnsupportedEcosystem })
    } else if request.is_disabled() {
        None
    } else {
        match request.selection(input.first, input.second) {
            Ok(plan) => Some(
                ReportView {
                    family: request.family(),
                    outcome: OutcomeView::Ran(
                        Seq::new(
                            program_count(plan),
                            |k: int|
                                RunView {
                                    program: program_at(plan, k as nat),
                                    result: input.outcomes[k],
                                },
                        ),
                    ),
                },
            ),
            Err(_) => Some(
                ReportView { family: request.family(), outcome: OutcomeView::NoProgramAvailable },
            ),
        }
    }
}

/// The state after the family that is waiting was resolved and each program
/// of its selection ended.
pub open spec fn family_round(state: RouterView, input: FamilyInput) -> RouterView {
    let chosen = resolved(state, input.first, input.second);
    if awaits_outcome(chosen) {
        let once = concluded(chosen, input.outcomes[0]);
        if awaits_outcome(once) {
            concluded(once, input.outcomes[1])
        } else {
            once
        }
    } else {
        chosen
    }
}

/// The state after the first `count` families of a run were gone through,
/// family `i` with `inputs[i]`.
pub open spec fn run_families(
    requests: Seq<RequestView>,
    inputs: Seq<FamilyInput>,
    count: nat,
) -> RouterView
    decreases count,
{
    if count == 0 {
        initial(requests)
    } else {
        family_round(run_families(requests, inputs, (count - 1) as nat), inputs[count - 1])
    }
}

/// The reports of the first `count` families, each taken by itself, in
/// request order.
pub open spec fn collected(
    requests: Seq<RequestView>,
    inputs: Seq<FamilyInput>,
    count: nat,
) -> Seq<ReportView>
    decreases count,
{
    if count == 0 {
        Seq::empty()
    } else {
        let earlier = collected(requests, inputs, (count - 1) as nat);
        match family_report(requests[count - 1], inputs[count - 1]) {
            Some(report) => earlier.push(report),
            None => earlier,
        }
    }
}

/// One family changes the router by its own report and nothing else: after
/// the round the router waits at the family after, and the reports are the
/// earlier ones with the family's own report added, if it gets one.
pub proof fn lemma_family_round(state: RouterView, input: FamilyInput)
    requires
        awaits_resolution(state),
    ensures
        family_round(state, input) == advanced(
            state,
            family_report(state.requests[state.position as int], input),
        ),
{
    let request = state.requests[state.position as int];
    let chosen = resolved(state, input.first, input.second);
    if awaits_outcome(chosen) {
        let plan = chosen.selection->Some_0;
        let expected = Seq::new(
            program_count(plan),
            |k: int| RunView { program: program_at(plan, k as nat), result: input.outcomes[k] },
        );
        let once = concluded(chosen, input.outcomes[0]);
        let first_run = RunView { program: program_at(plan, 0), result: input.outcomes[0] };
        assert(chosen.runs.push(first_run) =~= seq![first_run]);
        if awaits_outcome(once) {
            let second_run = RunView { program: program_at(plan, 1), result: input.outcomes[1] };
            assert(once.runs.push(second_run) =~= expected);
        } else {
            assert(seq![first_run] =~= expected);
        }
    }
}

/// Partial-failure isolation. Going through the families of a run one after
/// the other yields, in request order, exactly the report that each family
/// gets when taken by itself. So what happens to one family, a failed
/// resolution or a program that cannot be started, neither stops the run
/// nor changes what is reported on any other family.
pub proof fn lemma_families_are_isolated(
    requests: Seq<RequestView>,
    inputs: Seq<FamilyInput>,
    count: nat,
)
    requires
        count <= requests.len(),
    ensures
        run_families(requests, inputs, count) == (RouterView {
            requests,
            position: count,
            selection: None,
            runs: Seq::empty(),
            reports: collected(requests, inputs, count),
        }),
    decreases count,
{
    if count > 0 {
        lemma_families_are_isolated(requests, inputs, (count - 1) as nat);
        lemma_family_round(run_families(requests, inputs, (count - 1) as nat), inputs[count - 1]);
    }
}

/// Every family that gets a report by itself is reported in the run,
/// whatever became of the families before and after it.
pub proof fn lemma_every_family_is_reported(
    requests: Seq<RequestView>,
    inputs: Seq<FamilyInput>,
    count: nat,
    family: int,
)
    requires
        0 <= family < count,
        family_report(requests[family], inputs[family]) is Some,
    ensures
        collected(requests, inputs, count).contains(
            family_report(requests[family], inputs[family])->Some_0,
        ),
    decreases count,
{
    let report = family_report(requests[family], inputs[family])->Some_0;
    let earlier = collected(requests, inputs, (count - 1) as nat);
    let all = collected(requests, inputs, count);
    if family == count - 1 {
        assert(all == earlier.push(report));
        assert(all[earlier.len() as int] == report);
    } else {
        lemma_every_family_is_reported(requests, inputs, (count - 1) as nat, family);
        let at = choose|i: int| 0 <= i < earlier.len() && earlier[i] == report;
        assert(all[at] == report);
    }
}

/// A family that fails to resolve is reported as such and the router goes on
/// to the family after it.
pub proof fn lemma_failed_resolution_moves_on(
    state: RouterView,
    first: AvailabilityView,
    second: AvailabilityView,
)
    requires
        awaits_resolution(state),
        !(state.requests[state.position as int] is Unsupported),
        !state.requests[state.position as int].is_disabled(),
        state.requests[state.position as int].selection(first, second) is Err,
    ensures
        resolved(state, first, second) == advanced(
            state,
            Some(
                ReportView {
                    family: state.requests[state.position as int].family(),
                    outcome: OutcomeView::NoProgramAvailable,
                },
            ),
        ),
        !(pending_action(resolved(state, first, second)) is Run),
{
}

/// A family that is switched off is passed over: nothing is selected, nothing
/// is handed out to run, and no report is added.
pub proof fn lemma_disabled_family_is_passed_over(
    state: RouterView,
    first: AvailabilityView,
    second: AvailabilityView,
)
    requires
        awaits_resolution(state),
        state.requests[state.position as int].is_disabled(),
    ensures
        resolved(state, first, second) == advanced(state, None),
        resolved(state, first, second).reports == state.reports,
        resolved(state, first, second).selection is None,
        !(pending_action(resolved(state, first, second)) is Run),
{
}

/// No step takes anything back: the requests stay, the position does not
/// fall, and the reports that were made stay as they are, in their places.
pub proof fn lemma_step_keeps_reports(
    state: RouterView,
    outcome: Option<Result<ExecutionView, SpawnFailure>>,
    first: AvailabilityView,
    second: AvailabilityView,
)
    ensures
        stepped(state, outcome, first, second).requests == state.requests,
        stepped(state, outcome, first, second).position >= state.position,
        state.reports.is_prefix_of(stepped(state, outcome, first, second).reports),
{
    let between = after_outcome(state, outcome);
    assert(state.reports.is_prefix_of(between.reports));
    assert(between.reports.is_prefix_of(stepped(state, outcome, first, second).reports));
}

} // verus!
