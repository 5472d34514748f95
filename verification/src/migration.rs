//! The migration controller: opens the database, then carries out the plan of
//! the chosen strategy one operation at a time.
//!
//! The controller never touches the database itself. [`load_and_migrate`]
//! begins a run and answers with its first step; the caller performs the
//! action of a step and hands the reply to [`Migration::advance`], which
//! answers with the next step, until a step ends the run.

use vstd::prelude::*;
use crate::engine::{
    EngineAction, EngineActionView, EngineReply, EngineReplyView, MigrationError,
    MigrationErrorView, MigrationOutcome, MigrationOutcomeView, Stage,
};
use crate::strategy::MigrationStrategy;

verus! {

/// Where a run of the controller stands.
#[derive(Debug, PartialEq, Eq)]
pub enum Phase {
    /// The connection is being opened.
    Connecting,
    /// The operation at this position of the plan is being carried out.
    Migrating(usize),
    /// The run is over.
    Finished(MigrationOutcome),
}

/// A phase as contracts see it.
pub enum PhaseView {
    Connecting,
    Migrating(nat),
    Finished(MigrationOutcomeView),
}

impl PhaseView {
    /// A phase fits a plan if the operation it waits for is one of the plan.
    pub open spec fn fits(self, plan: Seq<Stage>) -> bool {
        self matches PhaseView::Migrating(index) ==> index < plan.len()
    }
}

impl View for Phase {
    type V = PhaseView;

    open spec fn view(&self) -> PhaseView {
        match self {
            Phase::Connecting => PhaseView::Connecting,
            Phase::Migrating(index) => PhaseView::Migrating(*index as nat),
            Phase::Finished(outcome) => PhaseView::Finished(outcome@),
        }
    }
}

/// What the caller has to do after a call of the controller.
#[derive(Debug, PartialEq, Eq)]
pub enum Step {
    /// Perform this action and report its reply.
    Perform(EngineAction),
    /// The run is over. A diagnostic, if there is one, is to be shown to the
    /// operator before the outcome is handed on.
    Finish { outcome: MigrationOutcome, diagnostic: Option<String> },
}

/// A step as contracts see it.
pub enum StepView {
    Perform(EngineActionView),
    Finish { outcome: MigrationOutcomeView, diagnostic: Option<Seq<char>> },
}

impl View for Step {
    type V = StepView;

    open spec fn view(&self) -> StepView {
        match self {
            Step::Perform(action) => StepView::Perform(action@),
            Step::Finish { outcome, diagnostic } => StepView::Finish {
                outcome: outcome@,
                diagnostic: match diagnostic {
                    Some(text) => Some(text@),
                    None => None,
                },
            },
        }
    }
}

/// The diagnostic shown when a run stops for fear of data loss.
pub open spec fn data_loss_diagnostic() -> Seq<char> {
    "Pushing Prisma schema may result in data loss. Use `SD_ACCEPT_DATA_LOSS=true` to force it."@
}

/// The text of the diagnostic.
pub fn diagnostic_text() -> (text: String)
    ensures
        text@ == data_loss_diagnostic(),
{
    "Pushing Prisma schema may result in data loss. Use `SD_ACCEPT_DATA_LOSS=true` to force it.".to_owned()
}

/// Going on to the operation at `index` of the plan, or finishing if the plan
/// has no such operation.
pub open spec fn proceed(plan: Seq<Stage>, index: nat) -> (PhaseView, StepView) {
    if index < plan.len() {
        (PhaseView::Migrating(index), StepView::Perform(EngineActionView::Run(plan[index as int])))
    } else {
        (
            PhaseView::Finished(MigrationOutcomeView::Ready),
            StepView::Finish { outcome: MigrationOutcomeView::Ready, diagnostic: None },
        )
    }
}

/// Stopping the run with `error`.
pub open spec fn halt(error: MigrationErrorView, diagnostic: Option<Seq<char>>) -> (
    PhaseView,
    StepView,
) {
    (
        PhaseView::Finished(MigrationOutcomeView::Failed(error)),
        StepView::Finish { outcome: MigrationOutcomeView::Failed(error), diagnostic },
    )
}

/// One move of the controller: from the phase of the run and the reply to the
/// pending action, to the next phase and the step the caller takes.
///
/// * While connecting, anything but success ends the run with `NewClient`.
/// * While an operation of the plan is pending, success leads to the next
///   operation, and to `Ready` after the last. A failure ends the run with
///   `MigrateFailed`, naming the operation. A warning of data loss ends it
///   with `PossibleDataLoss` and a diagnostic if the strategy guards against
///   data loss. Without the guard, a warning from `ComputeDiff` is overridden
///   and the run goes on, and a warning from any other operation is a failure.
/// * A finished run stays as it is.
pub open spec fn transition(
    plan: Seq<Stage>,
    guard: bool,
    phase: PhaseView,
    reply: EngineReplyView,
) -> (PhaseView, StepView) {
    match phase {
        PhaseView::Connecting => match reply {
            EngineReplyView::Completed => proceed(plan, 0),
            EngineReplyView::DataLoss(cause) => halt(MigrationErrorView::NewClient(cause), None),
            EngineReplyView::Failed(cause) => halt(MigrationErrorView::NewClient(cause), None),
        },
        PhaseView::Migrating(index) => {
            let stage = plan[index as int];
            match reply {
                EngineReplyView::Completed => proceed(plan, index + 1),
                EngineReplyView::DataLoss(warning) => if guard {
                    halt(
                        MigrationErrorView::PossibleDataLoss(warning),
                        Some(data_loss_diagnostic()),
                    )
                } else if stage is ComputeDiff {
                    proceed(plan, index + 1)
                } else {
                    halt(MigrationErrorView::MigrateFailed { stage, cause: warning }, None)
                },
                EngineReplyView::Failed(cause) => halt(
                    MigrationErrorView::MigrateFailed { stage, cause },
                    None,
                ),
            }
        },
        PhaseView::Finished(outcome) => (
            PhaseView::Finished(outcome),
            StepView::Finish { outcome, diagnostic: None },
        ),
    }
}

fn proceed_to<S: MigrationStrategy>(strategy: &S, count: usize, index: usize) -> (next: (
    Phase,
    Step,
))
    requires
        count == strategy.plan().len(),
    ensures
        (next.0@, next.1@) == proceed(strategy.plan(), index as nat),
{
    if index < count {
        (Phase::Migrating(index), Step::Perform(EngineAction::Run(strategy.stage(index))))
    } else {
        (
            Phase::Finished(MigrationOutcome::Ready),
            Step::Finish { outcome: MigrationOutcome::Ready, diagnostic: None },
        )
    }
}

fn halt_with(error: MigrationError, diagnostic: Option<String>) -> (next: (Phase, Step))
    ensures
        (next.0@, next.1@) == halt(
            error@,
            match diagnostic {
                Some(text) => Some(text@),
                None => None,
            },
        ),
{
    let reported = error.clone();
    (
        Phase::Finished(MigrationOutcome::Failed(error)),
        Step::Finish { outcome: MigrationOutcome::Failed(reported), diagnostic },
    )
}

/// A run of the controller under the strategy `S`.
pub struct Migration<S: MigrationStrategy> {
    strategy: S,
    phase: Phase,
}

impl<S: MigrationStrategy> Migration<S> {
    #[verifier::type_invariant]
    spec fn fits_plan(self) -> bool {
        self.phase@.fits(self.strategy.plan())
    }

    /// The strategy of the run.
    pub closed spec fn strategy(self) -> S {
        self.strategy
    }

    /// The phase the run is in.
    pub closed spec fn phase(self) -> PhaseView {
        self.phase@
    }

    /// The phase the run is in.
    pub fn current_phase(&self) -> (phase: &Phase)
        ensures
            phase@ == self.phase(),
    {
        &self.phase
    }

    /// The outcome of the run, once it is over.
    pub fn outcome(&self) -> (outcome: Option<&MigrationOutcome>)
        ensures
            match self.phase() {
                PhaseView::Finished(reached) => outcome matches Some(found) && found@ == reached,
                _ => outcome is None,
            },
    {
        match &self.phase {
            Phase::Finished(outcome) => Some(outcome),
            _ => None,
        }
    }

    /// Moves the run one step forward: `reply` is what happened to the action
    /// that the last step asked for. The result is the step to take now. A
    /// run that is over stays over and repeats its outcome.
    pub fn advance(&mut self, reply: EngineReply) -> (step: Step)
        ensures
            (final(self).phase(), step@) == transition(
                old(self).strategy().plan(),
                old(self).strategy().guards_data_loss(),
                old(self).phase(),
                reply@,
            ),
            final(self).strategy() == old(self).strategy(),
            final(self).phase().fits(old(self).strategy().plan()),
    {
        proof {
            use_type_invariant(&*self);
        }
        let next = match &self.phase {
            Phase::Connecting => match reply {
                EngineReply::Completed => proceed_to(
                    &self.strategy,
                    self.strategy.stage_count(),
                    0,
                ),
                EngineReply::DataLoss(cause) => halt_with(MigrationError::NewClient(cause), None),
                EngineReply::Failed(cause) => halt_with(MigrationError::NewClient(cause), None),
            },
            Phase::Migrating(index) => {
                let count: usize = self.strategy.stage_count();
                let stage = self.strategy.stage(*index);
                match reply {
                    EngineReply::Completed => proceed_to(&self.strategy, count, *index + 1),
                    EngineReply::DataLoss(warning) => {
                        if self.strategy.halts_on_data_loss() {
                            halt_with(
                                MigrationError::PossibleDataLoss(warning),
                                Some(diagnostic_text()),
                            )
                        } else {
                            match stage {
                                Stage::ComputeDiff => proceed_to(
                                    &self.strategy,
                                    count,
                                    *index + 1,
                                ),
                                _ => halt_with(
                                    MigrationError::MigrateFailed { stage, cause: warning },
                                    None,
                                ),
                            }
                        }
                    },
                    EngineReply::Failed(cause) => halt_with(
                        MigrationError::MigrateFailed { stage, cause },
                        None,
                    ),
                }
            },
            Phase::Finished(outcome) => (
                Phase::Finished(outcome.clone()),
                Step::Finish { outcome: outcome.clone(), diagnostic: None },
            ),
        };
        self.phase = next.0;
        next.1
    }
}

/// Begins opening and migrating the database at `db_url` under `strategy`.
///
/// The result is the run, which waits for the connection, and its first
/// step: to open a connection to `db_url`. The location is handed on as it
/// is given; nothing about it is looked at here.
pub fn load_and_migrate<S: MigrationStrategy>(db_url: &str, strategy: S) -> (begun: (
    Migration<S>,
    Step,
))
    ensures
        begun.0.strategy() == strategy,
        begun.0.phase() == PhaseView::Connecting,
        begun.1@ == StepView::Perform(EngineActionView::Connect(db_url@)),
{
    (
        Migration { strategy, phase: Phase::Connecting },
        Step::Perform(EngineAction::Connect(db_url.to_owned())),
    )
}

} // verus!
