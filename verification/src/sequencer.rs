//! The stage sequencer: a state machine that drives the pipeline in its
//! fixed order, skips completed stages, and halts on the first failure.
//!
//! The machine owns every decision; the caller owns every effect. One turn
//! of the protocol is: the caller feeds the machine an [`Event`] (initially
//! [`Event::Start`], afterwards the outcome of the last requested action),
//! and the machine answers with the next [`Action`] to perform. The run is
//! over when the machine answers [`Action::Finished`]; the result then says
//! whether every stage completed or at which stage the run aborted.
//!
//! Each step of the machine is specified exactly by [`step_model`], and the
//! laws at the end of this module are proved of that model: a failure
//! short-circuits the rest of the pipeline, and a fully completed record is
//! re-entered as a pure sequence of skips.

use vstd::prelude::*;

use crate::errors::StageFailure;
use crate::stage::STAGE_COUNT;
use crate::stage::StageId;
use crate::stage::lemma_stage_order_roundtrip;
use crate::stage::stage_at;
use crate::stage::stage_index;
use crate::stage::stage_of_index;
use crate::state::BuildState;

verus! {

/// The terminal report of one run.
#[derive(Debug)]
pub enum RunResult {
    /// Every stage is completed (freshly executed or skipped).
    AllCompleted,
    /// The run halted at `at_stage`; no later stage was attempted.
    Aborted { at_stage: StageId, cause: StageFailure },
}

/// What became of one stage during a run, in the order the stages were
/// considered.
#[derive(Clone, Copy, Debug, PartialEq, Eq, Structural)]
pub enum StageOutcome {
    /// The stage was already completed and was not rebuilt.
    Skipped { stage: StageId },
    /// The stage executed, its postconditions held, its marker was written.
    Completed { stage: StageId },
    /// The stage raised the failure carried by the run's result.
    Failed { stage: StageId },
}

/// Where the machine stands: which stage it is at, and what answer it is
/// waiting for.
#[derive(Debug)]
pub enum Phase {
    /// About to consider the stage at this position (skipping forward over
    /// completed stages from here).
    AtStage { index: usize },
    /// Asked the caller whether the stage's required artifacts exist.
    AwaitingRequirements { index: usize },
    /// Asked the caller to run the stage's external build step.
    AwaitingBuild { index: usize },
    /// Asked the caller whether the stage's output artifacts exist.
    AwaitingProducts { index: usize },
    /// Asked the caller to persist the stage's completion marker.
    AwaitingMarker { index: usize },
    /// The run is over.
    Done { result: RunResult },
}

/// What the machine asks the caller to do next. The paths for the checks
/// and the marker come from the layout, which the caller holds.
#[derive(Clone, Copy, Debug, PartialEq, Eq, Structural)]
pub enum Action {
    /// Test whether each of the stage's required artifacts exists; answer
    /// with the first missing path, if any.
    CheckRequirements { stage: StageId },
    /// Run the stage's external build/install step, blocking until it fully
    /// completes; answer with its verdict.
    RunBuild { stage: StageId },
    /// Test whether each of the stage's output artifacts exists; answer
    /// with the first missing path, if any.
    CheckProducts { stage: StageId },
    /// Write the stage's completion marker: first under its temporary name,
    /// then rename it into place; answer whether that succeeded.
    WriteMarker { stage: StageId },
    /// Nothing further: the run is over and the result is available.
    Finished,
}

/// The caller's answer to the last action.
#[derive(Debug)]
pub enum Event {
    /// Begin the run (the only event the initial machine accepts).
    Start,
    /// Answer to [`Action::CheckRequirements`]: the first missing required
    /// path, or `None` when all exist.
    RequirementsChecked { missing: Option<String> },
    /// Answer to [`Action::RunBuild`]: whether the external step succeeded,
    /// with its verbatim detail otherwise.
    BuildFinished { ok: bool, detail: String },
    /// Answer to [`Action::CheckProducts`]: the first missing output path,
    /// or `None` when all exist.
    ProductsChecked { missing: Option<String> },
    /// Answer to [`Action::WriteMarker`]: whether the marker was persisted.
    MarkerWritten { ok: bool },
}

/// The mathematical state of the machine: its phase, one completion flag
/// per stage, and the log of stage outcomes so far.
#[verifier::ext_equal]
pub struct SequencerModel {
    pub phase: Phase,
    pub completed: Seq<bool>,
    pub outcomes: Seq<StageOutcome>,
}

/// The stage position a phase stands at (the count of the stages for a
/// finished machine).
pub open spec fn phase_index(p: Phase) -> int {
    match p {
        Phase::AtStage { index } => index as int,
        Phase::AwaitingRequirements { index } => index as int,
        Phase::AwaitingBuild { index } => index as int,
        Phase::AwaitingProducts { index } => index as int,
        Phase::AwaitingMarker { index } => index as int,
        Phase::Done { .. } => STAGE_COUNT as int,
    }
}

/// Every stage strictly before position `i` is flagged completed.
pub open spec fn completed_up_to(completed: Seq<bool>, i: int) -> bool {
    forall|k: int| 0 <= k < i ==> completed[k]
}

/// The machine's invariant: the flag record has one flag per stage, the
/// phase position is in range, every stage behind the current position is
/// completed, and overall success is only ever reported with every stage
/// completed.
pub open spec fn inv(m: SequencerModel) -> bool {
    &&& m.completed.len() == STAGE_COUNT
    &&& match m.phase {
        Phase::AtStage { index } => index <= STAGE_COUNT
            && completed_up_to(m.completed, index as int),
        Phase::AwaitingRequirements { index } => index < STAGE_COUNT
            && completed_up_to(m.completed, index as int),
        Phase::AwaitingBuild { index } => index < STAGE_COUNT
            && completed_up_to(m.completed, index as int),
        Phase::AwaitingProducts { index } => index < STAGE_COUNT
            && completed_up_to(m.completed, index as int),
        Phase::AwaitingMarker { index } => index < STAGE_COUNT
            && completed_up_to(m.completed, index as int),
        Phase::Done { result } => result is AllCompleted
            ==> completed_up_to(m.completed, STAGE_COUNT as int),
    }
}

/// Which event a phase accepts: the machine and its driver alternate
/// strictly, and a finished machine accepts nothing.
pub open spec fn accepts_event(p: Phase, ev: Event) -> bool {
    match p {
        Phase::AtStage { .. } => ev is Start,
        Phase::AwaitingRequirements { .. } => ev is RequirementsChecked,
        Phase::AwaitingBuild { .. } => ev is BuildFinished,
        Phase::AwaitingProducts { .. } => ev is ProductsChecked,
        Phase::AwaitingMarker { .. } => ev is MarkerWritten,
        Phase::Done { .. } => false,
    }
}

/// The first position at or after `i` whose stage is not completed
/// (`STAGE_COUNT` if there is none).
pub open spec fn next_pending(completed: Seq<bool>, i: int) -> int
    decreases STAGE_COUNT - i,
{
    if i >= STAGE_COUNT {
        STAGE_COUNT as int
    } else if completed[i] {
        next_pending(completed, i + 1)
    } else {
        i
    }
}

pub proof fn lemma_next_pending_bounds(completed: Seq<bool>, i: int)
    requires
        0 <= i <= STAGE_COUNT,
    ensures
        i <= next_pending(completed, i) <= STAGE_COUNT,
        forall|k: int| i <= k < next_pending(completed, i) ==> completed[k],
        next_pending(completed, i) < STAGE_COUNT ==> !completed[next_pending(completed, i)],
    decreases STAGE_COUNT - i,
{
    if i < STAGE_COUNT && completed[i] {
        lemma_next_pending_bounds(completed, i + 1);
    }
}

pub proof fn lemma_next_pending_all(completed: Seq<bool>, i: int)
    requires
        0 <= i <= STAGE_COUNT,
        forall|k: int| i <= k < STAGE_COUNT ==> completed[k],
    ensures
        next_pending(completed, i) == STAGE_COUNT,
    decreases STAGE_COUNT - i,
{
    if i < STAGE_COUNT {
        lemma_next_pending_all(completed, i + 1);
    }
}

/// The skip log for the completed stages at positions `i` (inclusive) to
/// `j` (exclusive).
pub open spec fn skipped_range(i: int, j: int) -> Seq<StageOutcome> {
    Seq::new(
        if j >= i {
            (j - i) as nat
        } else {
            0
        },
        |k: int| (StageOutcome::Skipped { stage: stage_at(i + k) }),
    )
}

/// From `AtStage`, the machine skips every completed stage in order; it
/// then either finishes (everything is completed) or asks for the next
/// pending stage's requirement check.
pub open spec fn advance_model(m: SequencerModel) -> (SequencerModel, Action) {
    let i = phase_index(m.phase);
    let j = next_pending(m.completed, i);
    let outs = m.outcomes + skipped_range(i, j);
    if j == STAGE_COUNT {
        (
            SequencerModel {
                phase: Phase::Done { result: RunResult::AllCompleted },
                completed: m.completed,
                outcomes: outs,
            },
            Action::Finished,
        )
    } else {
        (
            SequencerModel {
                phase: Phase::AwaitingRequirements { index: j as usize },
                completed: m.completed,
                outcomes: outs,
            },
            Action::CheckRequirements { stage: stage_at(j) },
        )
    }
}

/// The machine halts: the stage at position `i` is logged as failed and the
/// run result carries the cause. No later stage is ever attempted.
pub open spec fn abort_model(m: SequencerModel, i: int, cause: StageFailure) -> (
    SequencerModel,
    Action,
) {
    (
        SequencerModel {
            phase: Phase::Done {
                result: RunResult::Aborted { at_stage: stage_at(i), cause },
            },
            completed: m.completed,
            outcomes: m.outcomes.push(StageOutcome::Failed { stage: stage_at(i) }),
        },
        Action::Finished,
    )
}

/// One step of the machine, exactly: what the next state and the next
/// requested action are for each phase and event. A missing requirement
/// aborts without attempting the build; a failed build aborts; a missing
/// product aborts after a successful build; only a persisted marker lets
/// the machine record completion and move on. An event the phase does not
/// accept leaves the machine unchanged.
pub open spec fn step_model(m: SequencerModel, ev: Event) -> (SequencerModel, Action) {
    let i = phase_index(m.phase);
    match m.phase {
        Phase::AtStage { .. } => match ev {
            Event::Start => advance_model(m),
            _ => (m, Action::Finished),
        },
        Phase::AwaitingRequirements { index } => match ev {
            Event::RequirementsChecked { missing } => match missing {
                Option::None => (
                    SequencerModel {
                        phase: Phase::AwaitingBuild { index },
                        completed: m.completed,
                        outcomes: m.outcomes,
                    },
                    Action::RunBuild { stage: stage_at(i) },
                ),
                Option::Some(p) => abort_model(
                    m,
                    i,
                    StageFailure::MissingDependency { stage: stage_at(i), missing_path: p },
                ),
            },
            _ => (m, Action::Finished),
        },
        Phase::AwaitingBuild { index } => match ev {
            Event::BuildFinished { ok, detail } => if ok {
                (
                    SequencerModel {
                        phase: Phase::AwaitingProducts { index },
                        completed: m.completed,
                        outcomes: m.outcomes,
                    },
                    Action::CheckProducts { stage: stage_at(i) },
                )
            } else {
                abort_model(
                    m,
                    i,
                    StageFailure::ExternalBuildFailed { stage: stage_at(i), detail },
                )
            },
            _ => (m, Action::Finished),
        },
        Phase::AwaitingProducts { index } => match ev {
            Event::ProductsChecked { missing } => match missing {
                Option::None => (
                    SequencerModel {
                        phase: Phase::AwaitingMarker { index },
                        completed: m.completed,
                        outcomes: m.outcomes,
                    },
                    Action::WriteMarker { stage: stage_at(i) },
                ),
                Option::Some(p) => abort_model(
                    m,
                    i,
                    StageFailure::PostconditionUnmet { stage: stage_at(i), expected_path: p },
                ),
            },
            _ => (m, Action::Finished),
        },
        Phase::AwaitingMarker { .. } => match ev {
            Event::MarkerWritten { ok } => if ok {
                advance_model(
                    SequencerModel {
                        phase: Phase::AtStage { index: (i + 1) as usize },
                        completed: m.completed.update(i, true),
                        outcomes: m.outcomes.push(StageOutcome::Completed { stage: stage_at(i) }),
                    },
                )
            } else {
                abort_model(m, i, StageFailure::MarkerWriteFailed { stage: stage_at(i) })
            },
            _ => (m, Action::Finished),
        },
        Phase::Done { .. } => (m, Action::Finished),
    }
}

/// The sequencer: the executable machine. Its whole behaviour is pinned to
/// [`step_model`] by the contract of [`Sequencer::step`].
pub struct Sequencer {
    state: BuildState,
    phase: Phase,
    outcomes: Vec<StageOutcome>,
}

impl View for Sequencer {
    type V = SequencerModel;

    closed spec fn view(&self) -> SequencerModel {
        SequencerModel { phase: self.phase, completed: self.state@, outcomes: self.outcomes@ }
    }
}

impl Sequencer {
    pub open spec fn wf(&self) -> bool {
        inv(self@)
    }

    /// A fresh machine over a loaded completion record, standing before the
    /// first stage with an empty outcome log.
    pub fn new(state: BuildState) -> (s: Sequencer)
        requires
            state.wf(),
        ensures
            s.wf(),
            s@ =~= (SequencerModel {
                phase: Phase::AtStage { index: 0 },
                completed: state@,
                outcomes: Seq::empty(),
            }),
    {
        Sequencer { state, phase: Phase::AtStage { index: 0 }, outcomes: Vec::new() }
    }

    /// Whether the machine accepts this event in its current phase.
    pub fn accepts(&self, ev: &Event) -> (r: bool)
        ensures
            r == accepts_event(self@.phase, *ev),
    {
        match (&self.phase, ev) {
            (Phase::AtStage { .. }, Event::Start) => true,
            (Phase::AwaitingRequirements { .. }, Event::RequirementsChecked { .. }) => true,
            (Phase::AwaitingBuild { .. }, Event::BuildFinished { .. }) => true,
            (Phase::AwaitingProducts { .. }, Event::ProductsChecked { .. }) => true,
            (Phase::AwaitingMarker { .. }, Event::MarkerWritten { .. }) => true,
            _ => false,
        }
    }

    pub fn is_done(&self) -> (r: bool)
        ensures
            r == (self@.phase is Done),
    {
        match &self.phase {
            Phase::Done { .. } => true,
            _ => false,
        }
    }

    /// The outcome log so far, in the order the stages were considered.
    pub fn outcomes(&self) -> (r: &Vec<StageOutcome>)
        ensures
            r@ == self@.outcomes,
    {
        &self.outcomes
    }

    /// The terminal report of a finished machine.
    pub fn into_result(self) -> (r: RunResult)
        requires
            self@.phase is Done,
        ensures
            self@.phase == (Phase::Done { result: r }),
    {
        match self.phase {
            Phase::Done { result } => result,
            _ => RunResult::AllCompleted,
        }
    }

    /// Skips forward over completed stages from position `start`.
    fn advance(&mut self, start: usize) -> (a: Action)
        requires
            old(self).wf(),
            old(self)@.phase is AtStage,
            phase_index(old(self)@.phase) == start as int,
        ensures
            final(self).wf(),
            final(self)@ =~= advance_model(old(self)@).0,
            a == advance_model(old(self)@).1,
    {
        let ghost m0 = self@;
        let ghost i0: int = start as int;
        let mut i: usize = start;
        while i < STAGE_COUNT && self.state.is_completed(stage_of_index(i))
            invariant
                self.state.wf(),
                i0 <= i <= STAGE_COUNT,
                self.state@ == m0.completed,
                self.phase == m0.phase,
                forall|k: int| i0 <= k < i ==> m0.completed[k],
                next_pending(m0.completed, i0) == next_pending(m0.completed, i as int),
                self.outcomes@ == m0.outcomes + skipped_range(i0, i as int),
            decreases STAGE_COUNT - i,
        {
            let s = stage_of_index(i);
            self.outcomes.push(StageOutcome::Skipped { stage: s });
            proof {
                assert(m0.completed[i as int]);
                assert(next_pending(m0.completed, i as int) == next_pending(
                    m0.completed,
                    i as int + 1,
                ));
                assert(skipped_range(i0, i as int + 1) =~= skipped_range(i0, i as int).push(
                    StageOutcome::Skipped { stage: stage_at(i as int) },
                ));
                assert(self.outcomes@ == m0.outcomes + skipped_range(i0, i as int + 1));
            }
            i = i + 1;
        }
        proof {
            assert(next_pending(m0.completed, i as int) == i as int);
            assert(next_pending(m0.completed, i0) == i as int);
        }
        if i == STAGE_COUNT {
            self.phase = Phase::Done { result: RunResult::AllCompleted };
            proof {
                assert forall|k: int| 0 <= k < STAGE_COUNT implies self.state@[k] by {
                    assert(completed_up_to(m0.completed, i0));
                }
            }
            Action::Finished
        } else {
            let s = stage_of_index(i);
            self.phase = Phase::AwaitingRequirements { index: i };
            proof {
                assert forall|k: int| 0 <= k < i as int implies self.state@[k] by {
                    assert(completed_up_to(m0.completed, i0));
                }
            }
            Action::CheckRequirements { stage: s }
        }
    }

    /// Halts the run at the stage at position `i` with the given cause.
    fn abort(&mut self, i: usize, cause: StageFailure) -> (a: Action)
        requires
            old(self).wf(),
            i < STAGE_COUNT,
        ensures
            final(self).wf(),
            final(self)@ =~= abort_model(old(self)@, i as int, cause).0,
            a == abort_model(old(self)@, i as int, cause).1,
    {
        let s = stage_of_index(i);
        self.outcomes.push(StageOutcome::Failed { stage: s });
        self.phase = Phase::Done { result: RunResult::Aborted { at_stage: s, cause } };
        Action::Finished
    }

    /// One step of the protocol: feed the machine the answer to its last
    /// request (or [`Event::Start`] at the beginning) and receive the next
    /// action. The step behaves exactly as [`step_model`] says.
    pub fn step(&mut self, ev: Event) -> (a: Action)
        requires
            old(self).wf(),
            accepts_event(old(self)@.phase, ev),
        ensures
            final(self).wf(),
            final(self)@ =~= step_model(old(self)@, ev).0,
            a == step_model(old(self)@, ev).1,
    {
        let i: usize = match &self.phase {
            Phase::AtStage { index } => *index,
            Phase::AwaitingRequirements { index } => *index,
            Phase::AwaitingBuild { index } => *index,
            Phase::AwaitingProducts { index } => *index,
            Phase::AwaitingMarker { index } => *index,
            Phase::Done { .. } => 0,
        };
        match ev {
            Event::Start => self.advance(i),
            Event::RequirementsChecked { missing } => {
                match missing {
                    Option::None => {
                        let s = stage_of_index(i);
                        self.phase = Phase::AwaitingBuild { index: i };
                        Action::RunBuild { stage: s }
                    },
                    Option::Some(p) => {
                        let s = stage_of_index(i);
                        self.abort(
                            i,
                            StageFailure::MissingDependency { stage: s, missing_path: p },
                        )
                    },
                }
            },
            Event::BuildFinished { ok, detail } => {
                if ok {
                    let s = stage_of_index(i);
                    self.phase = Phase::AwaitingProducts { index: i };
                    Action::CheckProducts { stage: s }
                } else {
                    let s = stage_of_index(i);
                    self.abort(i, StageFailure::ExternalBuildFailed { stage: s, detail })
                }
            },
            Event::ProductsChecked { missing } => {
                match missing {
                    Option::None => {
                        let s = stage_of_index(i);
                        self.phase = Phase::AwaitingMarker { index: i };
                        Action::WriteMarker { stage: s }
                    },
                    Option::Some(p) => {
                        let s = stage_of_index(i);
                        self.abort(
                            i,
                            StageFailure::PostconditionUnmet { stage: s, expected_path: p },
                        )
                    },
                }
            },
            Event::MarkerWritten { ok } => {
                if ok {
                    let s = stage_of_index(i);
                    self.state.mark_completed(s);
                    self.outcomes.push(StageOutcome::Completed { stage: s });
                    self.phase = Phase::AtStage { index: i + 1 };
                    proof {
                        assert forall|k: int| 0 <= k < i as int + 1 implies self.state@[k] by {
                            assert(completed_up_to(old(self)@.completed, i as int));
                        }
                    }
                    self.advance(i + 1)
                } else {
                    let s = stage_of_index(i);
                    self.abort(i, StageFailure::MarkerWriteFailed { stage: s })
                }
            },
        }
    }
}

/// The trace of actions a machine answers to a sequence of events.
pub open spec fn run_actions(m: SequencerModel, evs: Seq<Event>) -> Seq<Action>
    decreases evs.len(),
{
    if evs.len() == 0 {
        Seq::empty()
    } else {
        seq![step_model(m, evs[0]).1] + run_actions(step_model(m, evs[0]).0, evs.drop_first())
    }
}

/// Law: a finished machine requests nothing further — whatever events are
/// fed to it, every answer is `Finished` and in particular no build is ever
/// requested again.
pub proof fn lemma_done_requests_nothing(m: SequencerModel, evs: Seq<Event>)
    requires
        m.phase is Done,
    ensures
        forall|k: int| 0 <= k < run_actions(m, evs).len()
            ==> run_actions(m, evs)[k] == Action::Finished,
    decreases evs.len(),
{
    if evs.len() > 0 {
        lemma_done_requests_nothing(m, evs.drop_first());
    }
}

/// Law (short-circuit): when a stage's external build step fails, the run
/// aborts at that stage with the step's own detail, and no stage's build —
/// in particular no later stage's — is ever requested afterwards, whatever
/// events follow.
pub proof fn lemma_build_failure_short_circuits(
    m: SequencerModel,
    detail: String,
    evs: Seq<Event>,
)
    requires
        m.phase is AwaitingBuild,
    ensures
        ({
            let stepped = step_model(m, Event::BuildFinished { ok: false, detail });
            let at = stage_at(phase_index(m.phase));
            &&& stepped.1 == Action::Finished
            &&& stepped.0.phase == (Phase::Done {
                result: RunResult::Aborted {
                    at_stage: at,
                    cause: StageFailure::ExternalBuildFailed { stage: at, detail },
                },
            })
            &&& forall|k: int| 0 <= k < run_actions(stepped.0, evs).len()
                ==> run_actions(stepped.0, evs)[k] == Action::Finished
        }),
{
    let stepped = step_model(m, Event::BuildFinished { ok: false, detail });
    lemma_done_requests_nothing(stepped.0, evs);
}

/// Law (resumption): a run begun over a partially completed record skips
/// exactly the completed prefix of the pipeline and turns to the first
/// pending stage, whose requirements it re-validates before anything else;
/// no completed stage is redone.
pub proof fn lemma_run_resumes_at_first_pending(m: SequencerModel)
    requires
        inv(m),
        m.phase == (Phase::AtStage { index: 0 }),
        next_pending(m.completed, 0) < STAGE_COUNT,
    ensures
        ({
            let j = next_pending(m.completed, 0);
            let stepped = step_model(m, Event::Start);
            &&& forall|k: int| 0 <= k < j ==> m.completed[k]
            &&& !m.completed[j]
            &&& stepped.1 == (Action::CheckRequirements { stage: stage_at(j) })
            &&& stepped.0.phase == (Phase::AwaitingRequirements { index: j as usize })
            &&& stepped.0.outcomes =~= m.outcomes + skipped_range(0, j)
            &&& forall|k: int| 0 <= k < j
                ==> skipped_range(0, j)[k] == (StageOutcome::Skipped { stage: stage_at(k) })
        }),
{
    lemma_next_pending_bounds(m.completed, 0);
}

/// Law (missing dependency): when a required artifact of the pending stage
/// is reported missing, the run aborts at that stage with the missing path
/// — the stage's build step is never attempted, and nothing further is
/// requested, whatever events follow.
pub proof fn lemma_missing_dependency_never_builds(
    m: SequencerModel,
    path: String,
    evs: Seq<Event>,
)
    requires
        m.phase is AwaitingRequirements,
    ensures
        ({
            let stepped = step_model(
                m,
                Event::RequirementsChecked { missing: Option::Some(path) },
            );
            let at = stage_at(phase_index(m.phase));
            &&& stepped.1 == Action::Finished
            &&& stepped.0.phase == (Phase::Done {
                result: RunResult::Aborted {
                    at_stage: at,
                    cause: StageFailure::MissingDependency { stage: at, missing_path: path },
                },
            })
            &&& forall|k: int| 0 <= k < run_actions(stepped.0, evs).len()
                ==> run_actions(stepped.0, evs)[k] == Action::Finished
        }),
{
    let stepped = step_model(m, Event::RequirementsChecked { missing: Option::Some(path) });
    lemma_done_requests_nothing(stepped.0, evs);
}

/// Law (idempotent re-entry): with every stage already recorded completed,
/// the very first step of a run skips every stage in order and reports
/// overall success, requesting no work at all.
pub proof fn lemma_all_completed_reruns_as_skips(m: SequencerModel)
    requires
        inv(m),
        m.phase == (Phase::AtStage { index: 0 }),
        completed_up_to(m.completed, STAGE_COUNT as int),
    ensures
        step_model(m, Event::Start).1 == Action::Finished,
        step_model(m, Event::Start).0.phase == (Phase::Done { result: RunResult::AllCompleted }),
        step_model(m, Event::Start).0.outcomes =~= m.outcomes + skipped_range(
            0,
            STAGE_COUNT as int,
        ),
        forall|k: int| 0 <= k < STAGE_COUNT
            ==> skipped_range(0, STAGE_COUNT as int)[k] == (StageOutcome::Skipped {
                stage: stage_at(k),
            }),
{
    lemma_next_pending_all(m.completed, 0);
}

/// Law: the machine reports overall success only when every stage is
/// recorded completed.
pub proof fn lemma_success_only_when_all_completed(m: SequencerModel)
    requires
        inv(m),
        m.phase == (Phase::Done { result: RunResult::AllCompleted }),
    ensures
        forall|s: StageId| m.completed[stage_index(s)],
{
    assert forall|s: StageId| m.completed[stage_index(s)] by {
        lemma_stage_order_roundtrip(s);
    }
}

/// Law (monotone completion): a step never clears a completion flag; a
/// stage completed before the step is still completed after it.
pub proof fn lemma_step_is_monotone(m: SequencerModel, ev: Event, k: int)
    requires
        inv(m),
        0 <= k < m.completed.len(),
        m.completed[k],
    ensures
        step_model(m, ev).0.completed[k],
{
    assert(step_model(m, ev).0.completed == m.completed || step_model(m, ev).0.completed
        == m.completed.update(phase_index(m.phase), true));
}

} // verus!
