use sd_core::{
    load_and_migrate, Development, EngineAction, EngineReply, MigrationConfig, MigrationError,
    MigrationOutcome, MigrationStrategy, Phase, Production, Stage, Step,
};

const DIAGNOSTIC: &str =
    "Pushing Prisma schema may result in data loss. Use `SD_ACCEPT_DATA_LOSS=true` to force it.";

/// A database that lives in the test: it records what was done to it.
struct Database {
    reachable: bool,
    destructive_diff: bool,
    failing_changeset: Option<usize>,
    failing_stage: Option<Stage>,
    opened: Vec<String>,
    log: Vec<Stage>,
    resets: usize,
    diff_applied: bool,
    applied_changesets: Vec<usize>,
}

impl Database {
    fn new() -> Database {
        Database {
            reachable: true,
            destructive_diff: false,
            failing_changeset: None,
            failing_stage: None,
            opened: Vec::new(),
            log: Vec::new(),
            resets: 0,
            diff_applied: false,
            applied_changesets: Vec::new(),
        }
    }

    fn schema_untouched(&self) -> bool {
        self.resets == 0 && !self.diff_applied && self.applied_changesets.is_empty()
    }

    fn perform(&mut self, action: EngineAction) -> EngineReply {
        match action {
            EngineAction::Connect(location) => {
                self.opened.push(location);
                if self.reachable {
                    EngineReply::Completed
                } else {
                    EngineReply::Failed(String::from("unable to open database file"))
                }
            }
            EngineAction::Run(stage) => {
                self.log.push(stage);
                if self.failing_stage == Some(stage) {
                    return EngineReply::Failed(String::from("engine stopped"));
                }
                match stage {
                    Stage::ResetSchema => {
                        self.resets += 1;
                        self.destructive_diff = false;
                        EngineReply::Completed
                    }
                    Stage::ComputeDiff => {
                        if self.destructive_diff {
                            EngineReply::DataLoss(String::from("column `name` would be dropped"))
                        } else {
                            EngineReply::Completed
                        }
                    }
                    Stage::ApplyDiff => {
                        self.diff_applied = true;
                        EngineReply::Completed
                    }
                    Stage::ApplyChangeset(index) => {
                        if self.failing_changeset == Some(index) {
                            EngineReply::Failed(format!("changeset {} is broken", index))
                        } else {
                            self.applied_changesets.push(index);
                            EngineReply::Completed
                        }
                    }
                }
            }
        }
    }
}

/// Runs the controller against the database until it finishes.
fn migrate<S: MigrationStrategy>(
    db_url: &str,
    strategy: S,
    database: &mut Database,
) -> (MigrationOutcome, Option<String>) {
    let (mut run, mut step) = load_and_migrate(db_url, strategy);
    for _ in 0..1000 {
        match step {
            Step::Perform(action) => {
                assert_eq!(run.outcome(), None);
                step = run.advance(database.perform(action));
            }
            Step::Finish { outcome, diagnostic } => {
                assert_eq!(run.outcome(), Some(&outcome));
                assert_eq!(run.current_phase(), &Phase::Finished(outcome.clone()));
                return (outcome, diagnostic);
            }
        }
    }
    panic!("the controller did not finish");
}

/// Begins a run and hands it these replies; gives every step it answered with.
fn steps_of<S: MigrationStrategy>(strategy: S, replies: Vec<EngineReply>) -> Vec<Step> {
    let (mut run, first) = load_and_migrate("file:library.db", strategy);
    let mut steps = vec![first];
    for reply in replies {
        steps.push(run.advance(reply));
    }
    steps
}

fn connect() -> Step {
    Step::Perform(EngineAction::Connect(String::from("file:library.db")))
}

fn ask(stage: Stage) -> Step {
    Step::Perform(EngineAction::Run(stage))
}

fn fail(error: MigrationError) -> Step {
    Step::Finish { outcome: MigrationOutcome::Failed(error), diagnostic: None }
}

fn ready() -> Step {
    Step::Finish { outcome: MigrationOutcome::Ready, diagnostic: None }
}

fn data_loss(warning: &str) -> EngineReply {
    EngineReply::DataLoss(String::from(warning))
}

fn failed(cause: &str) -> EngineReply {
    EngineReply::Failed(String::from(cause))
}

fn development(accept_data_loss: bool, force_reset: bool) -> Development {
    Development::new(MigrationConfig { accept_data_loss, force_reset })
}

#[test]
fn first_step_asks_for_the_connection_at_the_given_location() {
    let (run, step) = load_and_migrate("file:library.db", development(false, false));
    assert_eq!(run.current_phase(), &Phase::Connecting);
    assert_eq!(run.outcome(), None);
    assert_eq!(step, Step::Perform(EngineAction::Connect(String::from("file:library.db"))));
}

#[test]
fn location_is_handed_on_without_validation() {
    let (_, step) = load_and_migrate("", Production::new(1));
    assert_eq!(step, Step::Perform(EngineAction::Connect(String::new())));
    let (_, step) = load_and_migrate("not a url \u{1F600}", development(true, true));
    assert_eq!(step, Step::Perform(EngineAction::Connect(String::from("not a url \u{1F600}"))));
}

#[test]
fn phase_follows_the_plan() {
    let (mut run, _) = load_and_migrate("file:library.db", development(false, true));
    assert_eq!(run.current_phase(), &Phase::Connecting);
    run.advance(EngineReply::Completed);
    assert_eq!(run.current_phase(), &Phase::Migrating(0));
    run.advance(EngineReply::Completed);
    assert_eq!(run.current_phase(), &Phase::Migrating(1));
    run.advance(EngineReply::Completed);
    assert_eq!(run.current_phase(), &Phase::Migrating(2));
    run.advance(EngineReply::Completed);
    assert_eq!(run.current_phase(), &Phase::Finished(MigrationOutcome::Ready));
    assert_eq!(run.outcome(), Some(&MigrationOutcome::Ready));
}

#[test]
fn connection_failure_is_reported_as_new_client_with_its_cause() {
    let mut database = Database::new();
    database.reachable = false;
    let (outcome, diagnostic) = migrate("file:gone.db", development(false, false), &mut database);
    assert_eq!(
        outcome,
        MigrationOutcome::Failed(MigrationError::NewClient(String::from(
            "unable to open database file"
        )))
    );
    assert_eq!(diagnostic, None);
    assert_eq!(database.opened, vec![String::from("file:gone.db")]);
    assert!(database.log.is_empty());
}

#[test]
fn connection_failure_in_production_is_new_client_too() {
    let mut database = Database::new();
    database.reachable = false;
    let (outcome, _) = migrate("file:gone.db", Production::new(3), &mut database);
    assert_eq!(
        outcome,
        MigrationOutcome::Failed(MigrationError::NewClient(String::from(
            "unable to open database file"
        )))
    );
    assert!(database.schema_untouched());
}

#[test]
fn development_pushes_a_harmless_diff() {
    let mut database = Database::new();
    let (outcome, diagnostic) = migrate("file:dev.db", development(false, false), &mut database);
    assert_eq!(outcome, MigrationOutcome::Ready);
    assert_eq!(diagnostic, None);
    assert_eq!(database.log, vec![Stage::ComputeDiff, Stage::ApplyDiff]);
    assert!(database.diff_applied);
    assert_eq!(database.resets, 0);
}

#[test]
fn destructive_diff_without_overrides_is_possible_data_loss_and_changes_nothing() {
    let mut database = Database::new();
    database.destructive_diff = true;
    let (outcome, diagnostic) = migrate("file:dev.db", development(false, false), &mut database);
    assert_eq!(
        outcome,
        MigrationOutcome::Failed(MigrationError::PossibleDataLoss(String::from(
            "column `name` would be dropped"
        )))
    );
    assert_eq!(diagnostic, Some(String::from(DIAGNOSTIC)));
    assert_eq!(database.log, vec![Stage::ComputeDiff]);
    assert!(database.schema_untouched());
}

#[test]
fn destructive_diff_with_accept_data_loss_is_applied() {
    let mut database = Database::new();
    database.destructive_diff = true;
    let (outcome, diagnostic) = migrate("file:dev.db", development(true, false), &mut database);
    assert_eq!(outcome, MigrationOutcome::Ready);
    assert_eq!(diagnostic, None);
    assert_eq!(database.log, vec![Stage::ComputeDiff, Stage::ApplyDiff]);
    assert!(database.diff_applied);
    assert_eq!(database.resets, 0);
}

#[test]
fn force_reset_rebuilds_the_schema_before_the_diff() {
    let mut database = Database::new();
    database.destructive_diff = true;
    let (outcome, diagnostic) = migrate("file:dev.db", development(false, true), &mut database);
    assert_eq!(outcome, MigrationOutcome::Ready);
    assert_eq!(diagnostic, None);
    assert_eq!(database.log, vec![Stage::ResetSchema, Stage::ComputeDiff, Stage::ApplyDiff]);
    assert_eq!(database.resets, 1);
    assert!(database.diff_applied);
}

#[test]
fn force_reset_rebuilds_the_schema_whatever_accept_data_loss_is() {
    for accept_data_loss in [false, true] {
        let mut database = Database::new();
        let (outcome, _) =
            migrate("file:dev.db", development(accept_data_loss, true), &mut database);
        assert_eq!(outcome, MigrationOutcome::Ready);
        assert_eq!(database.log, vec![Stage::ResetSchema, Stage::ComputeDiff, Stage::ApplyDiff]);
    }
}

#[test]
fn force_reset_overrides_the_check_of_the_diff() {
    let steps = steps_of(
        development(false, true),
        vec![
            EngineReply::Completed,
            EngineReply::Completed,
            data_loss("table `key` would be dropped"),
            EngineReply::Completed,
        ],
    );
    assert_eq!(
        steps,
        vec![
            connect(),
            ask(Stage::ResetSchema),
            ask(Stage::ComputeDiff),
            ask(Stage::ApplyDiff),
            ready(),
        ]
    );
}

#[test]
fn failed_reset_stops_before_any_diff() {
    let mut database = Database::new();
    database.failing_stage = Some(Stage::ResetSchema);
    let (outcome, diagnostic) = migrate("file:dev.db", development(true, true), &mut database);
    assert_eq!(
        outcome,
        MigrationOutcome::Failed(MigrationError::MigrateFailed {
            stage: Stage::ResetSchema,
            cause: String::from("engine stopped"),
        })
    );
    assert_eq!(diagnostic, None);
    assert_eq!(database.log, vec![Stage::ResetSchema]);
    assert!(database.schema_untouched());
}

#[test]
fn failed_diff_is_migrate_failed_naming_the_stage() {
    let mut database = Database::new();
    database.failing_stage = Some(Stage::ComputeDiff);
    let (outcome, _) = migrate("file:dev.db", development(false, false), &mut database);
    assert_eq!(
        outcome,
        MigrationOutcome::Failed(MigrationError::MigrateFailed {
            stage: Stage::ComputeDiff,
            cause: String::from("engine stopped"),
        })
    );
    assert!(database.schema_untouched());
}

#[test]
fn failed_apply_is_migrate_failed_naming_the_stage() {
    let mut database = Database::new();
    database.failing_stage = Some(Stage::ApplyDiff);
    let (outcome, diagnostic) = migrate("file:dev.db", development(false, false), &mut database);
    assert_eq!(
        outcome,
        MigrationOutcome::Failed(MigrationError::MigrateFailed {
            stage: Stage::ApplyDiff,
            cause: String::from("engine stopped"),
        })
    );
    assert_eq!(diagnostic, None);
}

#[test]
fn data_loss_reported_while_applying_is_guarded_without_overrides() {
    let steps = steps_of(
        development(false, false),
        vec![EngineReply::Completed, EngineReply::Completed, data_loss("rows would be truncated")],
    );
    assert_eq!(
        steps,
        vec![
            connect(),
            ask(Stage::ComputeDiff),
            ask(Stage::ApplyDiff),
            Step::Finish {
                outcome: MigrationOutcome::Failed(MigrationError::PossibleDataLoss(String::from(
                    "rows would be truncated"
                ))),
                diagnostic: Some(String::from(DIAGNOSTIC)),
            },
        ]
    );
}

#[test]
fn data_loss_reported_while_applying_is_a_failure_under_an_override() {
    let steps = steps_of(
        development(true, false),
        vec![EngineReply::Completed, EngineReply::Completed, data_loss("rows would be truncated")],
    );
    assert_eq!(
        steps,
        vec![
            connect(),
            ask(Stage::ComputeDiff),
            ask(Stage::ApplyDiff),
            fail(MigrationError::MigrateFailed {
                stage: Stage::ApplyDiff,
                cause: String::from("rows would be truncated"),
            }),
        ]
    );
}

#[test]
fn production_applies_the_whole_queue_in_order() {
    let mut database = Database::new();
    let (outcome, diagnostic) = migrate("file:prod.db", Production::new(4), &mut database);
    assert_eq!(outcome, MigrationOutcome::Ready);
    assert_eq!(diagnostic, None);
    assert_eq!(database.applied_changesets, vec![0, 1, 2, 3]);
    assert_eq!(
        database.log,
        vec![
            Stage::ApplyChangeset(0),
            Stage::ApplyChangeset(1),
            Stage::ApplyChangeset(2),
            Stage::ApplyChangeset(3),
        ]
    );
}

#[test]
fn production_with_an_empty_queue_is_ready_after_connecting() {
    let mut database = Database::new();
    let (outcome, _) = migrate("file:prod.db", Production::new(0), &mut database);
    assert_eq!(outcome, MigrationOutcome::Ready);
    assert_eq!(database.opened.len(), 1);
    assert!(database.log.is_empty());
}

#[test]
fn production_stops_at_the_second_of_three_changesets() {
    let mut database = Database::new();
    database.failing_changeset = Some(1);
    let (outcome, diagnostic) = migrate("file:prod.db", Production::new(3), &mut database);
    assert_eq!(
        outcome,
        MigrationOutcome::Failed(MigrationError::MigrateFailed {
            stage: Stage::ApplyChangeset(1),
            cause: String::from("changeset 1 is broken"),
        })
    );
    assert_eq!(diagnostic, None);
    assert_eq!(database.applied_changesets, vec![0]);
    assert_eq!(database.log, vec![Stage::ApplyChangeset(0), Stage::ApplyChangeset(1)]);
}

#[test]
fn production_does_not_guard_against_data_loss() {
    let steps =
        steps_of(Production::new(2), vec![EngineReply::Completed, data_loss("column dropped")]);
    assert_eq!(
        steps,
        vec![
            connect(),
            ask(Stage::ApplyChangeset(0)),
            fail(MigrationError::MigrateFailed {
                stage: Stage::ApplyChangeset(0),
                cause: String::from("column dropped"),
            }),
        ]
    );
}

#[test]
fn production_ignores_the_development_overrides() {
    let mut database = Database::new();
    database.destructive_diff = true;
    let (outcome, _) = migrate("file:prod.db", Production::new(1), &mut database);
    assert_eq!(outcome, MigrationOutcome::Ready);
    assert_eq!(database.log, vec![Stage::ApplyChangeset(0)]);
}

#[test]
fn finished_run_stays_finished() {
    let steps = steps_of(
        development(false, false),
        vec![failed("refused"), EngineReply::Completed, failed("late"), data_loss("later")],
    );
    let error = MigrationError::NewClient(String::from("refused"));
    assert_eq!(
        steps,
        vec![
            connect(),
            fail(error.clone()),
            fail(error.clone()),
            fail(error.clone()),
            fail(error),
        ]
    );

    let steps = steps_of(
        Production::new(1),
        vec![EngineReply::Completed, EngineReply::Completed, failed("late"), EngineReply::Completed],
    );
    assert_eq!(steps, vec![connect(), ask(Stage::ApplyChangeset(0)), ready(), ready(), ready()]);
}

#[test]
fn diagnostic_is_given_once() {
    let steps = steps_of(
        development(false, false),
        vec![EngineReply::Completed, data_loss("column dropped"), EngineReply::Completed],
    );
    let error = MigrationError::PossibleDataLoss(String::from("column dropped"));
    assert_eq!(
        steps,
        vec![
            connect(),
            ask(Stage::ComputeDiff),
            Step::Finish {
                outcome: MigrationOutcome::Failed(error.clone()),
                diagnostic: Some(String::from(DIAGNOSTIC)),
            },
            fail(error),
        ]
    );
}

#[test]
fn data_loss_reported_by_the_connection_is_a_connection_error() {
    let steps = steps_of(development(true, true), vec![data_loss("file would be overwritten")]);
    assert_eq!(
        steps,
        vec![
            connect(),
            fail(MigrationError::NewClient(String::from("file would be overwritten"))),
        ]
    );
}

#[test]
fn strategies_list_their_operations() {
    let push = development(false, false);
    assert_eq!(push.stage_count(), 2);
    assert_eq!(push.stage(0), Stage::ComputeDiff);
    assert_eq!(push.stage(1), Stage::ApplyDiff);
    assert!(push.halts_on_data_loss());

    let reset = development(false, true);
    assert_eq!(reset.stage_count(), 3);
    assert_eq!(reset.stage(0), Stage::ResetSchema);
    assert_eq!(reset.stage(1), Stage::ComputeDiff);
    assert_eq!(reset.stage(2), Stage::ApplyDiff);
    assert!(!reset.halts_on_data_loss());

    assert!(!development(true, false).halts_on_data_loss());
    assert!(!development(true, true).halts_on_data_loss());

    let deploy = Production::new(5);
    assert_eq!(deploy.stage_count(), 5);
    assert_eq!(deploy.stage(3), Stage::ApplyChangeset(3));
    assert!(!deploy.halts_on_data_loss());
}
