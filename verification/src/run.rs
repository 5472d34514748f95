//! Whole runs of the migration controller, and what holds of every one of them.
//!
//! A run is what comes of beginning with the controller and handing it a
//! sequence of replies, one for each action it asked for. The first step of a
//! run asks for the connection; step `i + 1` is the controller's answer to
//! reply `i`.

use vstd::prelude::*;
use crate::config::MigrationConfig;
use crate::engine::{
    EngineActionView, EngineReplyView, MigrationErrorView, MigrationOutcomeView, Stage,
};
use crate::migration::{data_loss_diagnostic, transition, PhaseView, StepView};
use crate::strategy::{Development, MigrationStrategy, Production};

verus! {

/// The record of a run: the phase it has reached and every step the controller
/// answered with, in order.
pub struct Run {
    pub phase: PhaseView,
    pub steps: Seq<StepView>,
}

/// The run that these replies lead to.
pub open spec fn run(
    location: Seq<char>,
    plan: Seq<Stage>,
    guard: bool,
    replies: Seq<EngineReplyView>,
) -> Run
    decreases replies.len(),
{
    if replies.len() == 0 {
        Run {
            phase: PhaseView::Connecting,
            steps: seq![StepView::Perform(EngineActionView::Connect(location))],
        }
    } else {
        let before = run(location, plan, guard, replies.drop_last());
        let next = transition(plan, guard, before.phase, replies.last());
        Run { phase: next.0, steps: before.steps.push(next.1) }
    }
}

/// The run of a strategy.
pub open spec fn run_of<S: MigrationStrategy>(
    location: Seq<char>,
    strategy: S,
    replies: Seq<EngineReplyView>,
) -> Run {
    run(location, strategy.plan(), strategy.guards_data_loss(), replies)
}

/// The step that asks for the operation `stage`.
pub open spec fn asks_for(stage: Stage) -> StepView {
    StepView::Perform(EngineActionView::Run(stage))
}

/// The step that ends a run with `error`, without a diagnostic.
pub open spec fn fails_with(error: MigrationErrorView) -> StepView {
    StepView::Finish { outcome: MigrationOutcomeView::Failed(error), diagnostic: None }
}

/// Whether `reply`, given to the operation at `index` of the plan, lets the
/// run go on to the next operation.
pub open spec fn passes(plan: Seq<Stage>, guard: bool, index: int, reply: EngineReplyView) -> bool {
    reply is Completed || (reply is DataLoss && !guard && plan[index] is ComputeDiff)
}

/// What holds of the step at `position` of a run.
///
/// The first step asks for the connection. A later step that asks for
/// anything asks for the operation of the plan that is next in order, right
/// after a step that asked for the one before it, and only because the reply
/// to that one let the run go on. Once a step has ended the run, every later
/// step repeats its outcome.
pub open spec fn step_in_order(
    location: Seq<char>,
    plan: Seq<Stage>,
    guard: bool,
    replies: Seq<EngineReplyView>,
    steps: Seq<StepView>,
    position: int,
) -> bool {
    if position == 0 {
        steps[0] == StepView::Perform(EngineActionView::Connect(location))
    } else if steps[position] is Perform {
        &&& position - 1 < plan.len()
        &&& steps[position] == asks_for(plan[position - 1])
        &&& steps[position - 1] is Perform
        &&& if position == 1 {
            replies[0] is Completed
        } else {
            passes(plan, guard, position - 2, replies[position - 1])
        }
    } else {
        &&& steps[position] is Finish
        &&& position + 1 < steps.len() ==> steps[position + 1] == (StepView::Finish {
            outcome: steps[position]->outcome,
            diagnostic: None,
        })
    }
}

/// How the phase of a run goes with its last step.
pub open spec fn phase_agrees(plan: Seq<Stage>, run: Run) -> bool {
    let last = run.steps.last();
    match run.phase {
        PhaseView::Connecting => run.steps.len() == 1,
        PhaseView::Migrating(index) => {
            &&& run.steps.len() == index + 2
            &&& index < plan.len()
            &&& last is Perform
        },
        PhaseView::Finished(outcome) => last is Finish && last->outcome == outcome,
    }
}

/// Every run, whatever the plan and the replies: the controller answers each
/// reply with one step, asks for the connection first and then for the
/// operations of the plan in their order, each only after the one before it
/// let the run go on, and never asks for anything after it has ended the run.
pub proof fn law_steps_follow_plan(
    location: Seq<char>,
    plan: Seq<Stage>,
    guard: bool,
    replies: Seq<EngineReplyView>,
)
    ensures
        run(location, plan, guard, replies).steps.len() == replies.len() + 1,
        run(location, plan, guard, replies).phase.fits(plan),
        phase_agrees(plan, run(location, plan, guard, replies)),
        forall|position: int|
            0 <= position <= replies.len() ==> step_in_order(
                location,
                plan,
                guard,
                replies,
                run(location, plan, guard, replies).steps,
                position,
            ),
    decreases replies.len(),
{
    let now = run(location, plan, guard, replies);
    if replies.len() > 0 {
        let earlier = replies.drop_last();
        let before = run(location, plan, guard, earlier);
        law_steps_follow_plan(location, plan, guard, earlier);
        assert forall|position: int| 0 <= position <= replies.len() implies step_in_order(
            location,
            plan,
            guard,
            replies,
            now.steps,
            position,
        ) by {
            if position < replies.len() {
                assert(step_in_order(location, plan, guard, earlier, before.steps, position));
            }
            if position >= 1 {
                assert(step_in_order(location, plan, guard, earlier, before.steps, position - 1));
            }
        }
    }
}

/// A run is not rewritten by what comes later: the steps answered to the
/// first `count` replies are the same whatever replies follow.
pub proof fn law_run_grows(
    location: Seq<char>,
    plan: Seq<Stage>,
    guard: bool,
    replies: Seq<EngineReplyView>,
    count: int,
)
    requires
        0 <= count <= replies.len(),
    ensures
        run(location, plan, guard, replies.take(count)).steps == run(
            location,
            plan,
            guard,
            replies,
        ).steps.take(count + 1),
    decreases replies.len(),
{
    law_steps_follow_plan(location, plan, guard, replies);
    if count == replies.len() {
        assert(replies.take(count) == replies);
    } else {
        let earlier = replies.drop_last();
        law_run_grows(location, plan, guard, earlier, count);
        law_steps_follow_plan(location, plan, guard, earlier);
        assert(earlier.take(count) == replies.take(count));
    }
}

/// The phase in which a run waits for the reply to the step at `position`.
pub open spec fn pending_phase(position: int) -> PhaseView {
    if position == 0 {
        PhaseView::Connecting
    } else {
        PhaseView::Migrating((position - 1) as nat)
    }
}

/// The phase a run was in when it answered with the step at `position`, if
/// that step asked for something: connecting at the first step, and after it
/// waiting for the operation the step asked for.
pub proof fn law_pending_phase(
    location: Seq<char>,
    plan: Seq<Stage>,
    guard: bool,
    replies: Seq<EngineReplyView>,
    position: int,
)
    requires
        0 <= position <= replies.len(),
        run(location, plan, guard, replies).steps[position] is Perform,
    ensures
        run(location, plan, guard, replies.take(position)).phase == pending_phase(position),
        position >= 1 ==> position - 1 < plan.len(),
{
    law_run_grows(location, plan, guard, replies, position);
    law_steps_follow_plan(location, plan, guard, replies);
    law_steps_follow_plan(location, plan, guard, replies.take(position));
}

proof fn lemma_outcome_repeats(
    location: Seq<char>,
    plan: Seq<Stage>,
    guard: bool,
    replies: Seq<EngineReplyView>,
    ended: int,
    later: int,
)
    requires
        0 <= ended <= later <= replies.len(),
        run(location, plan, guard, replies).steps[ended] is Finish,
    ensures
        run(location, plan, guard, replies).steps[later] is Finish,
        run(location, plan, guard, replies).steps[later]->outcome == run(
            location,
            plan,
            guard,
            replies,
        ).steps[ended]->outcome,
        ended < later ==> run(location, plan, guard, replies).steps[later]->diagnostic is None,
    decreases later - ended,
{
    let steps = run(location, plan, guard, replies).steps;
    law_steps_follow_plan(location, plan, guard, replies);
    if ended < later {
        lemma_outcome_repeats(location, plan, guard, replies, ended, later - 1);
        assert(step_in_order(location, plan, guard, replies, steps, later - 1));
    }
}

/// Once a run has ended, every later step repeats the outcome and the run
/// stays ended with it.
pub proof fn law_ended_run_stays(
    location: Seq<char>,
    plan: Seq<Stage>,
    guard: bool,
    replies: Seq<EngineReplyView>,
    ended: int,
    later: int,
)
    requires
        0 <= ended <= later <= replies.len(),
        run(location, plan, guard, replies).steps[ended] is Finish,
    ensures
        run(location, plan, guard, replies).steps[later] is Finish,
        run(location, plan, guard, replies).steps[later]->outcome == run(
            location,
            plan,
            guard,
            replies,
        ).steps[ended]->outcome,
        ended < later ==> run(location, plan, guard, replies).steps[later]->diagnostic is None,
        run(location, plan, guard, replies).phase == PhaseView::Finished(
            run(location, plan, guard, replies).steps[ended]->outcome,
        ),
{
    let steps = run(location, plan, guard, replies).steps;
    law_steps_follow_plan(location, plan, guard, replies);
    lemma_outcome_repeats(location, plan, guard, replies, ended, later);
    lemma_outcome_repeats(location, plan, guard, replies, ended, replies.len() as int);
    assert(steps.last() == steps[replies.len() as int]);
}

/// While a run has not ended, the step after `position` is the controller's
/// move on the reply to the step at `position`.
pub proof fn law_step_answers_reply(
    location: Seq<char>,
    plan: Seq<Stage>,
    guard: bool,
    replies: Seq<EngineReplyView>,
    position: int,
)
    requires
        0 <= position < replies.len(),
        run(location, plan, guard, replies).steps[position] is Perform,
    ensures
        run(location, plan, guard, replies).steps[position + 1] == transition(
            plan,
            guard,
            pending_phase(position),
            replies[position],
        ).1,
{
    let answered = replies.take(position + 1);
    law_pending_phase(location, plan, guard, replies, position);
    law_run_grows(location, plan, guard, replies, position + 1);
    law_steps_follow_plan(location, plan, guard, replies);
    law_steps_follow_plan(location, plan, guard, answered);
    law_steps_follow_plan(location, plan, guard, replies.take(position));
    assert(answered.drop_last() == replies.take(position));
    assert(answered.last() == replies[position]);
    assert(run(location, plan, guard, answered).steps.last() == transition(
        plan,
        guard,
        run(location, plan, guard, replies.take(position)).phase,
        replies[position],
    ).1);
}

/// A failure ends the run at once, whatever the strategy: with `NewClient`
/// if it was the connection that failed, and else with `MigrateFailed` naming
/// the operation that failed. The cause is handed on unchanged, and nothing
/// is asked for afterwards.
pub proof fn law_failure_ends_run(
    location: Seq<char>,
    plan: Seq<Stage>,
    guard: bool,
    replies: Seq<EngineReplyView>,
    position: int,
    later: int,
)
    requires
        0 <= position < later <= replies.len(),
        run(location, plan, guard, replies).steps[position] is Perform,
        replies[position] is Failed,
    ensures
        ({
            let error = if position == 0 {
                MigrationErrorView::NewClient(replies[position]->Failed_0)
            } else {
                MigrationErrorView::MigrateFailed {
                    stage: plan[position - 1],
                    cause: replies[position]->Failed_0,
                }
            };
            &&& run(location, plan, guard, replies).steps[later] == fails_with(error)
            &&& run(location, plan, guard, replies).phase == PhaseView::Finished(
                MigrationOutcomeView::Failed(error),
            )
        }),
{
    law_step_answers_reply(location, plan, guard, replies, position);
    law_ended_run_stays(location, plan, guard, replies, position + 1, later);
}

/// Under a strategy that guards against data loss, a warning of data loss
/// from any operation ends the run at once with `PossibleDataLoss`, the
/// warning handed on unchanged. The step that ends the run carries the
/// diagnostic, and nothing is asked for afterwards.
pub proof fn law_guard_stops_on_data_loss(
    location: Seq<char>,
    plan: Seq<Stage>,
    replies: Seq<EngineReplyView>,
    position: int,
    later: int,
)
    requires
        1 <= position < later <= replies.len(),
        run(location, plan, true, replies).steps[position] is Perform,
        replies[position] is DataLoss,
    ensures
        ({
            let outcome = MigrationOutcomeView::Failed(
                MigrationErrorView::PossibleDataLoss(replies[position]->DataLoss_0),
            );
            &&& run(location, plan, true, replies).steps[position + 1] == (StepView::Finish {
                outcome,
                diagnostic: Some(data_loss_diagnostic()),
            })
            &&& run(location, plan, true, replies).steps[later] is Finish
            &&& run(location, plan, true, replies).steps[later]->outcome == outcome
            &&& run(location, plan, true, replies).phase == PhaseView::Finished(outcome)
        }),
{
    law_step_answers_reply(location, plan, true, replies, position);
    law_ended_run_stays(location, plan, true, replies, position + 1, later);
}

/// Under a strategy that guards against data loss, nothing but success lets
/// a run go on: a step asks for an operation only if the reply before it
/// reported success.
pub proof fn law_guard_lets_only_success_pass(
    location: Seq<char>,
    plan: Seq<Stage>,
    replies: Seq<EngineReplyView>,
    position: int,
)
    requires
        1 <= position <= replies.len(),
        run(location, plan, true, replies).steps[position] is Perform,
    ensures
        replies[position - 1] is Completed,
{
    law_steps_follow_plan(location, plan, true, replies);
    assert(step_in_order(
        location,
        plan,
        true,
        replies,
        run(location, plan, true, replies).steps,
        position,
    ));
}

/// A diagnostic is given only with `PossibleDataLoss`, and only by the step
/// that ends the run; and `PossibleDataLoss` comes only from a strategy that
/// guards against data loss, never from production.
pub proof fn law_diagnostic_goes_with_data_loss(
    location: Seq<char>,
    plan: Seq<Stage>,
    guard: bool,
    replies: Seq<EngineReplyView>,
    position: int,
)
    requires
        0 <= position <= replies.len(),
    ensures
        ({
            let step = run(location, plan, guard, replies).steps[position];
            &&& step matches StepView::Finish { outcome, diagnostic } ==> {
                &&& diagnostic is Some ==> {
                    &&& diagnostic == Some(data_loss_diagnostic())
                    &&& outcome matches MigrationOutcomeView::Failed(
                        MigrationErrorView::PossibleDataLoss(_),
                    )
                    &&& run(location, plan, guard, replies).steps[position - 1] is Perform
                }
                &&& outcome matches MigrationOutcomeView::Failed(
                    MigrationErrorView::PossibleDataLoss(_),
                ) ==> guard
            }
        }),
    decreases position,
{
    law_steps_follow_plan(location, plan, guard, replies);
    let steps = run(location, plan, guard, replies).steps;
    assert(step_in_order(location, plan, guard, replies, steps, 0));
    if position > 0 {
        law_diagnostic_goes_with_data_loss(location, plan, guard, replies, position - 1);
        assert(step_in_order(location, plan, guard, replies, steps, position - 1));
        if steps[position - 1] is Perform {
            law_step_answers_reply(location, plan, guard, replies, position - 1);
        }
    }
}

/// A run whose first `count` replies all report success has asked, by then,
/// for the first `count` operations of the plan, and is still going.
pub proof fn law_success_leads_on(
    location: Seq<char>,
    plan: Seq<Stage>,
    guard: bool,
    replies: Seq<EngineReplyView>,
    count: int,
)
    requires
        0 <= count <= replies.len(),
        count <= plan.len(),
        forall|i: int| 0 <= i < count ==> replies[i] is Completed,
    ensures
        forall|i: int|
            1 <= i <= count ==> #[trigger] run(location, plan, guard, replies).steps[i]
                == asks_for(plan[i - 1]),
        run(location, plan, guard, replies).steps[count] is Perform,
    decreases count,
{
    law_steps_follow_plan(location, plan, guard, replies);
    let steps = run(location, plan, guard, replies).steps;
    if count == 0 {
        assert(step_in_order(location, plan, guard, replies, steps, 0));
    } else {
        law_success_leads_on(location, plan, guard, replies, count - 1);
        law_step_answers_reply(location, plan, guard, replies, count - 1);
    }
}

/// A run in which every operation succeeds asks for the whole plan and ends
/// ready for use.
pub proof fn law_success_throughout_is_ready(
    location: Seq<char>,
    plan: Seq<Stage>,
    guard: bool,
    replies: Seq<EngineReplyView>,
)
    requires
        replies.len() == plan.len() + 1,
        forall|i: int| 0 <= i < replies.len() ==> replies[i] is Completed,
    ensures
        forall|i: int|
            1 <= i <= plan.len() ==> #[trigger] run(location, plan, guard, replies).steps[i]
                == asks_for(plan[i - 1]),
        run(location, plan, guard, replies).phase == PhaseView::Finished(
            MigrationOutcomeView::Ready,
        ),
{
    let last = plan.len() as int;
    law_success_leads_on(location, plan, guard, replies, last);
    law_step_answers_reply(location, plan, guard, replies, last);
    law_ended_run_stays(location, plan, guard, replies, last + 1, last + 1);
}

/// Development with neither override set, a connection that opens and a diff
/// that would destroy data: the run ends with `PossibleDataLoss` and the
/// diagnostic, and no step of it, whatever replies follow, asks for an
/// operation that alters the schema.
pub proof fn law_unaccepted_data_loss_changes_nothing(
    location: Seq<char>,
    config: MigrationConfig,
    warning: Seq<char>,
    more: Seq<EngineReplyView>,
    position: int,
)
    requires
        !config.accept_data_loss,
        !config.force_reset,
        0 <= position <= more.len() + 2,
    ensures
        ({
            let replies = seq![EngineReplyView::Completed, EngineReplyView::DataLoss(warning)]
                + more;
            let run = run_of(location, Development { config }, replies);
            let outcome = MigrationOutcomeView::Failed(
                MigrationErrorView::PossibleDataLoss(warning),
            );
            &&& run.phase == PhaseView::Finished(outcome)
            &&& run.steps[1] == asks_for(Stage::ComputeDiff)
            &&& run.steps[2] == (StepView::Finish {
                outcome,
                diagnostic: Some(data_loss_diagnostic()),
            })
            &&& run.steps[position] matches StepView::Perform(EngineActionView::Run(stage))
                ==> !stage.alters_schema()
        }),
{
    let strategy = Development { config };
    let replies = seq![EngineReplyView::Completed, EngineReplyView::DataLoss(warning)] + more;
    let plan = strategy.plan();
    law_steps_follow_plan(location, plan, true, replies);
    law_success_leads_on(location, plan, true, replies, 1);
    law_guard_stops_on_data_loss(location, plan, replies, 1, 2);
    if position >= 2 {
        law_ended_run_stays(location, plan, true, replies, 2, position);
    }
    assert(step_in_order(location, plan, true, replies, run(location, plan, true, replies).steps, 0));
}

/// Development with `accept_data_loss` set and a diff that would destroy
/// data: the diff is applied all the same, and if applying it succeeds the
/// run ends ready for use.
pub proof fn law_accepted_data_loss_is_applied(
    location: Seq<char>,
    config: MigrationConfig,
    warning: Seq<char>,
)
    requires
        config.accept_data_loss,
    ensures
        ({
            let opening = if config.force_reset {
                seq![EngineReplyView::Completed, EngineReplyView::Completed]
            } else {
                seq![EngineReplyView::Completed]
            };
            let replies = opening + seq![
                EngineReplyView::DataLoss(warning),
                EngineReplyView::Completed,
            ];
            let run = run_of(location, Development { config }, replies);
            let asked = opening.len() as int;
            &&& run.steps[asked] == asks_for(Stage::ComputeDiff)
            &&& run.steps[asked + 1] == asks_for(Stage::ApplyDiff)
            &&& run.phase == PhaseView::Finished(MigrationOutcomeView::Ready)
        }),
{
    let strategy = Development { config };
    let opening = if config.force_reset {
        seq![EngineReplyView::Completed, EngineReplyView::Completed]
    } else {
        seq![EngineReplyView::Completed]
    };
    let replies = opening + seq![EngineReplyView::DataLoss(warning), EngineReplyView::Completed];
    let plan = strategy.plan();
    let asked = opening.len() as int;
    law_steps_follow_plan(location, plan, false, replies);
    law_success_leads_on(location, plan, false, replies, asked);
    law_step_answers_reply(location, plan, false, replies, asked);
    law_step_answers_reply(location, plan, false, replies, asked + 1);
    law_ended_run_stays(location, plan, false, replies, asked + 2, asked + 2);
}

/// Development with `force_reset` set, whatever `accept_data_loss` is and
/// whatever the replies: a step asks to work out or apply the diff only after
/// the run has asked for the schema to be rebuilt and that has succeeded.
pub proof fn law_reset_precedes_diff(
    location: Seq<char>,
    config: MigrationConfig,
    replies: Seq<EngineReplyView>,
    position: int,
)
    requires
        config.force_reset,
        0 <= position <= replies.len(),
        run_of(location, Development { config }, replies).steps[position] == asks_for(
            Stage::ComputeDiff,
        ) || run_of(location, Development { config }, replies).steps[position] == asks_for(
            Stage::ApplyDiff,
        ),
    ensures
        position >= 2,
        run_of(location, Development { config }, replies).steps[1] == asks_for(
            Stage::ResetSchema,
        ),
        replies[1] is Completed,
{
    let strategy = Development { config };
    let plan = strategy.plan();
    let steps = run(location, plan, false, replies).steps;
    law_steps_follow_plan(location, plan, false, replies);
    assert(step_in_order(location, plan, false, replies, steps, position));
    assert(position == 2 || position == 3);
    assert(step_in_order(location, plan, false, replies, steps, 2));
    assert(step_in_order(location, plan, false, replies, steps, 1));
}

/// Production, with a queue in which the changeset at `failing` is the first
/// to fail: the run has asked for the changesets before it and for it, each
/// once and in order, ends with `MigrateFailed` naming that changeset and
/// carrying the cause unchanged, and asks for no changeset after it.
pub proof fn law_deploy_stops_at_first_failure(
    location: Seq<char>,
    changesets: usize,
    failing: int,
    cause: Seq<char>,
    more: Seq<EngineReplyView>,
    later: int,
)
    requires
        0 <= failing < changesets,
        failing + 2 <= later <= failing + 2 + more.len(),
    ensures
        ({
            let replies = Seq::new((failing + 1) as nat, |i: int| EngineReplyView::Completed)
                + seq![EngineReplyView::Failed(cause)] + more;
            let run = run_of(location, Production { changesets }, replies);
            let error = MigrationErrorView::MigrateFailed {
                stage: Stage::ApplyChangeset(failing as usize),
                cause,
            };
            &&& forall|i: int|
                1 <= i <= failing + 1 ==> #[trigger] run.steps[i] == asks_for(
                    Stage::ApplyChangeset((i - 1) as usize),
                )
            &&& run.steps[later] == fails_with(error)
            &&& run.phase == PhaseView::Finished(MigrationOutcomeView::Failed(error))
        }),
{
    let strategy = Production { changesets };
    let replies = Seq::new((failing + 1) as nat, |i: int| EngineReplyView::Completed)
        + seq![EngineReplyView::Failed(cause)] + more;
    let plan = strategy.plan();
    law_steps_follow_plan(location, plan, false, replies);
    law_success_leads_on(location, plan, false, replies, failing + 1);
    law_failure_ends_run(location, plan, false, replies, failing + 1, later);
}

} // verus!
