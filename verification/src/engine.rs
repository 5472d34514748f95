//! The vocabulary shared by the migration controller and whoever drives the
//! database: operations the controller asks for, the replies it is given, and
//! the outcome of a whole run.

use vstd::prelude::*;

verus! {

/// One schema operation of a migration plan.
#[derive(Clone, Copy, Debug, PartialEq, Eq, Structural)]
pub enum Stage {
    /// Drop the whole schema and rebuild it from nothing.
    ResetSchema,
    /// Work out the diff between the stored schema and the declared one.
    /// Nothing is changed; a diff that would destroy data is reported as a
    /// data-loss warning.
    ComputeDiff,
    /// Apply the diff that was worked out.
    ApplyDiff,
    /// Apply the queued changeset at this position of the deploy queue.
    ApplyChangeset(usize),
}

impl Stage {
    /// Whether carrying out this operation can alter the stored schema.
    pub open spec fn alters_schema(self) -> bool {
        !(self is ComputeDiff)
    }
}

/// What the controller asks its caller to do next.
#[derive(Debug, PartialEq, Eq)]
pub enum EngineAction {
    /// Open a connection to the database at this location.
    Connect(String),
    /// Carry out one schema operation on the open connection.
    Run(Stage),
}

/// An action as contracts see it.
pub enum EngineActionView {
    Connect(Seq<char>),
    Run(Stage),
}

impl View for EngineAction {
    type V = EngineActionView;

    open spec fn view(&self) -> EngineActionView {
        match self {
            EngineAction::Connect(location) => EngineActionView::Connect(location@),
            EngineAction::Run(stage) => EngineActionView::Run(*stage),
        }
    }
}

/// What happened when the caller carried out the action it was given.
#[derive(Debug, PartialEq, Eq)]
pub enum EngineReply {
    /// The action succeeded.
    Completed,
    /// The action found that going on would destroy stored data. The text is
    /// the engine's own warning.
    DataLoss(String),
    /// The action failed; the text is the underlying cause.
    Failed(String),
}

/// A reply as contracts see it.
pub enum EngineReplyView {
    Completed,
    DataLoss(Seq<char>),
    Failed(Seq<char>),
}

impl View for EngineReply {
    type V = EngineReplyView;

    open spec fn view(&self) -> EngineReplyView {
        match self {
            EngineReply::Completed => EngineReplyView::Completed,
            EngineReply::DataLoss(warning) => EngineReplyView::DataLoss(warning@),
            EngineReply::Failed(cause) => EngineReplyView::Failed(cause@),
        }
    }
}

/// Why opening and migrating the database did not succeed.
#[derive(Debug, PartialEq, Eq)]
pub enum MigrationError {
    /// No connection to the database could be established. The text is the
    /// underlying cause, unchanged.
    NewClient(String),
    /// A diff that would destroy data was found and no override allows it.
    /// Nothing was applied. The text is the engine's warning, unchanged.
    PossibleDataLoss(String),
    /// A schema operation failed for another reason; `stage` says which one.
    MigrateFailed { stage: Stage, cause: String },
}

/// An error as contracts see it.
pub enum MigrationErrorView {
    NewClient(Seq<char>),
    PossibleDataLoss(Seq<char>),
    MigrateFailed { stage: Stage, cause: Seq<char> },
}

impl View for MigrationError {
    type V = MigrationErrorView;

    open spec fn view(&self) -> MigrationErrorView {
        match self {
            MigrationError::NewClient(cause) => MigrationErrorView::NewClient(cause@),
            MigrationError::PossibleDataLoss(warning) => MigrationErrorView::PossibleDataLoss(
                warning@,
            ),
            MigrationError::MigrateFailed { stage, cause } => MigrationErrorView::MigrateFailed {
                stage: *stage,
                cause: cause@,
            },
        }
    }
}

impl Clone for MigrationError {
    fn clone(&self) -> (copy: Self)
        ensures
            copy@ == self@,
    {
        match self {
            MigrationError::NewClient(cause) => MigrationError::NewClient(cause.clone()),
            MigrationError::PossibleDataLoss(warning) => MigrationError::PossibleDataLoss(
                warning.clone(),
            ),
            MigrationError::MigrateFailed { stage, cause } => MigrationError::MigrateFailed {
                stage: *stage,
                cause: cause.clone(),
            },
        }
    }
}

/// How a run of the controller ended.
#[derive(Debug, PartialEq, Eq)]
pub enum MigrationOutcome {
    /// The connection is open and migrated: ready for use.
    Ready,
    /// The run stopped with this error.
    Failed(MigrationError),
}

/// An outcome as contracts see it.
pub enum MigrationOutcomeView {
    Ready,
    Failed(MigrationErrorView),
}

impl View for MigrationOutcome {
    type V = MigrationOutcomeView;

    open spec fn view(&self) -> MigrationOutcomeView {
        match self {
            MigrationOutcome::Ready => MigrationOutcomeView::Ready,
            MigrationOutcome::Failed(error) => MigrationOutcomeView::Failed(error@),
        }
    }
}

impl Clone for MigrationOutcome {
    fn clone(&self) -> (copy: Self)
        ensures
            copy@ == self@,
    {
        match self {
            MigrationOutcome::Ready => MigrationOutcome::Ready,
            MigrationOutcome::Failed(error) => MigrationOutcome::Failed(error.clone()),
        }
    }
}

} // verus!
