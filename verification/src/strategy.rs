//! The two ways of migrating: pushing the declared schema during development,
//! and deploying a queue of authored changesets in production.

use vstd::prelude::*;
use crate::config::MigrationConfig;
use crate::engine::Stage;

verus! {

/// A way of bringing the stored schema up to date, chosen once at startup and
/// handed to the controller.
///
/// A strategy is a fixed list of schema operations, carried out in order, and
/// a rule for warnings of data loss.
pub trait MigrationStrategy {
    /// The schema operations of this strategy, in the order they are run.
    spec fn plan(&self) -> Seq<Stage>;

    /// Whether a warning of data loss stops the run with
    /// `MigrationError::PossibleDataLoss`.
    spec fn guards_data_loss(&self) -> bool;

    /// The number of operations in the plan.
    fn stage_count(&self) -> (count: usize)
        ensures
            count == self.plan().len(),
    ;

    /// The operation at `index` of the plan.
    fn stage(&self, index: usize) -> (stage: Stage)
        requires
            index < self.plan().len(),
        ensures
            stage == self.plan()[index as int],
    ;

    /// Whether a warning of data loss stops the run.
    fn halts_on_data_loss(&self) -> (guard: bool)
        ensures
            guard == self.guards_data_loss(),
    ;
}

/// Development: push the declared schema, checking the diff for data loss.
#[derive(Clone, Copy, Debug, PartialEq, Eq, Structural)]
pub struct Development {
    pub config: MigrationConfig,
}

impl Development {
    pub fn new(config: MigrationConfig) -> (strategy: Development)
        ensures
            strategy.config == config,
    {
        Development { config }
    }
}

impl MigrationStrategy for Development {
    /// The diff is worked out and then applied; with `force_reset` the schema
    /// is rebuilt first.
    open spec fn plan(&self) -> Seq<Stage> {
        if self.config.force_reset {
            seq![Stage::ResetSchema, Stage::ComputeDiff, Stage::ApplyDiff]
        } else {
            seq![Stage::ComputeDiff, Stage::ApplyDiff]
        }
    }

    /// A warning stops the run unless one of the overrides is set.
    open spec fn guards_data_loss(&self) -> bool {
        !self.config.allows_data_loss()
    }

    fn stage_count(&self) -> (count: usize) {
        if self.config.force_reset {
            3
        } else {
            2
        }
    }

    fn stage(&self, index: usize) -> (stage: Stage) {
        if self.config.force_reset {
            if index == 0 {
                Stage::ResetSchema
            } else if index == 1 {
                Stage::ComputeDiff
            } else {
                Stage::ApplyDiff
            }
        } else {
            if index == 0 {
                Stage::ComputeDiff
            } else {
                Stage::ApplyDiff
            }
        }
    }

    fn halts_on_data_loss(&self) -> (guard: bool) {
        !(self.config.accept_data_loss || self.config.force_reset)
    }
}

/// Production: apply the queued changesets one after the other. The queue is
/// taken as vetted, so no diff is checked for data loss.
#[derive(Clone, Copy, Debug, PartialEq, Eq, Structural)]
pub struct Production {
    /// The number of changesets in the queue.
    pub changesets: usize,
}

impl Production {
    pub fn new(changesets: usize) -> (strategy: Production)
        ensures
            strategy.changesets == changesets,
    {
        Production { changesets }
    }
}

impl MigrationStrategy for Production {
    /// Every changeset of the queue, first to last.
    open spec fn plan(&self) -> Seq<Stage> {
        Seq::new(self.changesets as nat, |position: int| Stage::ApplyChangeset(position as usize))
    }

    open spec fn guards_data_loss(&self) -> bool {
        false
    }

    fn stage_count(&self) -> (count: usize) {
        self.changesets
    }

    fn stage(&self, index: usize) -> (stage: Stage) {
        Stage::ApplyChangeset(index)
    }

    fn halts_on_data_loss(&self) -> (guard: bool) {
        false
    }
}

} // verus!
