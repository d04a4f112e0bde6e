//! What holds of every run.
//!
//! The laws speak of runs as values and of arbitrary sequences of replies:
//! whatever a driver, a filesystem and the external programs do, a run obeys
//! them.

use vstd::prelude::*;
use crate::artifact::rendered;
use crate::cli::{parsed, plan_for};
use crate::context::ContextView;
use crate::model::{
    abort, answers, failed_at, leave, lemma_next_well_formed, lemma_start_well_formed, next,
    position, request_of, start_of, state_fits, status_of, taken, well_formed, Phase, RunView,
};
use crate::orchestrator::{
    Failure, ReplyView, RequestView, Status, StepState, EXIT_COMPLETED, EXIT_FAILED,
};
use crate::plan::{ActionView, PlanView, StepView};

verus! {

/// The run that `run` has become when it has taken `replies` one after the
/// other.
pub open spec fn after(run: RunView, replies: Seq<ReplyView>) -> RunView
    decreases replies.len(),
{
    if replies.len() == 0 {
        run
    } else {
        after(next(run, replies.first()), replies.drop_first())
    }
}

/// Whether a reply tells of a failure: a program that could not be started
/// or ended with a non-zero exit code, or an artifact that could not be
/// written.
pub open spec fn tells_failure(reply: ReplyView) -> bool {
    match reply {
        ReplyView::Outcome(outcome) => !outcome.exit_success,
        ReplyView::SpawnFailed { .. } => true,
        ReplyView::WriteFailed { .. } => true,
        _ => false,
    }
}

/// The failure that a failing reply stands for.
pub open spec fn failure_told(reply: ReplyView) -> Failure {
    match reply {
        ReplyView::Outcome(_) => Failure::ProcessExitError,
        ReplyView::SpawnFailed { .. } => Failure::SpawnError,
        _ => Failure::WriteError,
    }
}

/// Replies lead from a well-formed run to a well-formed run of the same plan
/// for the same context, and never take it back: the steps are taken in the
/// order of the plan.
pub proof fn lemma_after_well_formed(run: RunView, replies: Seq<ReplyView>)
    requires
        well_formed(run),
    ensures
        well_formed(after(run, replies)),
        after(run, replies).plan == run.plan,
        after(run, replies).ctx == run.ctx,
        position(after(run, replies)) >= position(run),
    decreases replies.len(),
{
    if replies.len() > 0 {
        lemma_next_well_formed(run, replies.first());
        lemma_after_well_formed(next(run, replies.first()), replies.drop_first());
    }
}

/// A run that has ended stays as it is, whatever it is told.
pub proof fn lemma_ended_run_stays(run: RunView, replies: Seq<ReplyView>)
    requires
        status_of(run.phase) != Status::Running,
    ensures
        after(run, replies) == run,
    decreases replies.len(),
{
    if replies.len() > 0 {
        assert(next(run, replies.first()) == run);
        lemma_ended_run_stays(run, replies.drop_first());
    }
}

/// The state of a step that a run has left does not change any more.
pub proof fn lemma_left_step_keeps_state(run: RunView, replies: Seq<ReplyView>, step: int)
    requires
        well_formed(run),
        0 <= step < position(run),
    ensures
        after(run, replies).states[step] == run.states[step],
    decreases replies.len(),
{
    if replies.len() > 0 {
        let onward = next(run, replies.first());
        lemma_next_well_formed(run, replies.first());
        assert(onward.states[step] == run.states[step]);
        lemma_left_step_keeps_state(onward, replies.drop_first(), step);
    }
}

/// A plan that requires a marker asks for nothing before it has probed the
/// marker. Where the marker is absent the run fails with
/// [`Failure::PreconditionUnmet`], and whatever it is told afterwards, every
/// step stays pending and the run asks only to end with the failure's exit
/// code: nothing is started and nothing is written.
pub proof fn law_absent_marker_halts_run(
    plan: PlanView,
    ctx: ContextView,
    rest: Seq<ReplyView>,
)
    requires
        plan.marker is Some,
    ensures
        request_of(start_of(plan, ctx)) == (RequestView::Probe { path: plan.marker->0 }),
        after(start_of(plan, ctx), seq![ReplyView::Exists(false)] + rest).phase == (Phase::Failed {
            failure: Failure::PreconditionUnmet,
            at: None,
        }),
        request_of(after(start_of(plan, ctx), seq![ReplyView::Exists(false)] + rest)) == (
        RequestView::Finish { exit_code: EXIT_FAILED as int }),
        forall|step: int|
            0 <= step < plan.steps.len() ==> (#[trigger] after(
                start_of(plan, ctx),
                seq![ReplyView::Exists(false)] + rest,
            ).states[step]) == StepState::Pending,
{
    let replies = seq![ReplyView::Exists(false)] + rest;
    let failed = next(start_of(plan, ctx), ReplyView::Exists(false));
    assert(replies.first() == ReplyView::Exists(false));
    assert(replies.drop_first() =~= rest);
    lemma_ended_run_stays(failed, rest);
}

/// A run halts at the first failure. When a program cannot be started or
/// ends with a non-zero exit code, or an artifact cannot be written, the step
/// is aborted and the run fails with the matching failure. Whatever the run
/// is told afterwards, it asks only to end with the failure's exit code, and
/// every step behind the failing one stays pending.
pub proof fn law_failure_halts_run(run: RunView, reply: ReplyView, rest: Seq<ReplyView>)
    requires
        well_formed(run),
        answers(run.phase, reply),
        tells_failure(reply),
    ensures
        after(next(run, reply), rest) == abort(run, position(run), failure_told(reply)),
        after(next(run, reply), rest).phase == (Phase::Failed {
            failure: failure_told(reply),
            at: Some(position(run)),
        }),
        request_of(after(next(run, reply), rest)) == (RequestView::Finish {
            exit_code: EXIT_FAILED as int,
        }),
        after(next(run, reply), rest).states[position(run)] == StepState::Aborted,
        forall|step: int|
            position(run) < step < run.plan.steps.len() ==> (#[trigger] after(
                next(run, reply),
                rest,
            ).states[step]) == StepState::Pending,
{
    lemma_ended_run_stays(next(run, reply), rest);
    assert forall|step: int| position(run) < step < run.plan.steps.len() implies (#[trigger] abort(
        run,
        position(run),
        failure_told(reply),
    ).states[step]) == StepState::Pending by {
        assert(state_fits(run, step));
    }
}

/// A step whose guarded path exists is skipped for good: the run goes on to
/// the step behind it and, whatever it is told afterwards, never asks for
/// anything on behalf of the skipped step again. What a former run has
/// brought about is left as it is.
pub proof fn law_skipped_step_is_left_alone(run: RunView, step: int, rest: Seq<ReplyView>)
    requires
        well_formed(run),
        run.phase == (Phase::Guard { step }),
    ensures
        next(run, ReplyView::Exists(true)) == leave(run, step, StepState::Skipped),
        position(after(next(run, ReplyView::Exists(true)), rest)) > step,
        after(next(run, ReplyView::Exists(true)), rest).states[step] == StepState::Skipped,
{
    let onward = next(run, ReplyView::Exists(true));
    lemma_next_well_formed(run, ReplyView::Exists(true));
    assert(position(onward) == step + 1);
    lemma_after_well_formed(onward, rest);
    lemma_left_step_keeps_state(onward, rest, step);
}

/// A step that is done is left for good: once its program has ended with
/// exit code zero, or its artifact is written, the run never asks for
/// anything on its behalf again.
pub proof fn law_done_step_is_left_alone(
    run: RunView,
    step: int,
    reply: ReplyView,
    rest: Seq<ReplyView>,
)
    requires
        well_formed(run),
        position(run) == step,
        run.phase is Spawn || run.phase is Write,
        answers(run.phase, reply),
        !tells_failure(reply),
    ensures
        next(run, reply) == leave(run, step, StepState::Done),
        position(after(next(run, reply), rest)) > step,
        after(next(run, reply), rest).states[step] == StepState::Done,
{
    let onward = next(run, reply);
    lemma_next_well_formed(run, reply);
    assert(position(onward) == step + 1);
    lemma_after_well_formed(onward, rest);
    lemma_left_step_keeps_state(onward, rest, step);
}

/// What a run hands to the writer depends on the plan and the context alone.
/// Whatever the replies, a run that asks for the artifact of a step to be
/// written asks for the text that [`rendered`] gives for the context; so two
/// runs of one plan for one context write the same bytes for the same step,
/// and to the same path where the step has no alternates.
pub proof fn law_rewrite_is_reproducible(
    plan: PlanView,
    ctx: ContextView,
    first: Seq<ReplyView>,
    second: Seq<ReplyView>,
    step: int,
)
    requires
        after(start_of(plan, ctx), first).phase is Write,
        after(start_of(plan, ctx), second).phase is Write,
        position(after(start_of(plan, ctx), first)) == step,
        position(after(start_of(plan, ctx), second)) == step,
    ensures
        plan.steps[step].action is Write,
        request_of(after(start_of(plan, ctx), first))->Write_payload == rendered(
            plan.steps[step].action->Write_artifact,
            ctx,
        ),
        request_of(after(start_of(plan, ctx), second))->Write_payload == request_of(
            after(start_of(plan, ctx), first),
        )->Write_payload,
        request_of(after(start_of(plan, ctx), second))->Write_artifact == request_of(
            after(start_of(plan, ctx), first),
        )->Write_artifact,
        plan.steps[step].action->Write_alternates.len() == 0 ==> request_of(
            after(start_of(plan, ctx), second),
        ) == request_of(after(start_of(plan, ctx), first)),
{
    lemma_start_well_formed(plan, ctx);
    lemma_after_well_formed(start_of(plan, ctx), first);
    lemma_after_well_formed(start_of(plan, ctx), second);
}

/// The state of a run goes with the states of its steps. In a completed run
/// every step is skipped or done. A run has failed at a step exactly when
/// that step is aborted, and then no other step is.
pub proof fn law_status_goes_with_steps(run: RunView)
    requires
        well_formed(run),
    ensures
        run.phase is Completed ==> forall|step: int|
            0 <= step < run.plan.steps.len() ==> taken(#[trigger] run.states[step]),
        forall|step: int|
            0 <= step < run.plan.steps.len() ==> ((#[trigger] run.states[step])
                == StepState::Aborted <==> failed_at(run.phase) == Some(step)),
{
    assert forall|step: int| 0 <= step < run.plan.steps.len() implies ((#[trigger] run.states[step])
        == StepState::Aborted <==> failed_at(run.phase) == Some(step)) by {
        assert(state_fits(run, step));
    }
    if run.phase is Completed {
        assert forall|step: int| 0 <= step < run.plan.steps.len() implies taken(
            #[trigger] run.states[step],
        ) by {
            assert(state_fits(run, step));
        }
    }
}

/// An invocation without a subcommand, or with one that is not known, does
/// nothing: from the start, and whatever it is told, the run asks only to end
/// with the exit code of success. It probes nothing, so what the working
/// directory holds does not matter; it starts nothing and writes nothing.
pub proof fn law_idle_invocation_does_nothing(
    args: Seq<Seq<char>>,
    ctx: ContextView,
    replies: Seq<ReplyView>,
)
    requires
        parsed(args) is Usage || parsed(args) is Unknown,
    ensures
        after(start_of(plan_for(parsed(args), ctx), ctx), replies).phase == Phase::Completed,
        request_of(after(start_of(plan_for(parsed(args), ctx), ctx), replies)) == (
        RequestView::Finish { exit_code: EXIT_COMPLETED as int }),
{
    lemma_ended_run_stays(start_of(plan_for(parsed(args), ctx), ctx), replies);
}

/// The most requests that one step can make: a probe of its guarded path, a
/// probe of each candidate where its artifact has alternates, and its action.
pub open spec fn step_budget(step: StepView) -> nat {
    let guard: nat = if step.guard is UnlessExists {
        1
    } else {
        0
    };
    let search: nat = match step.action {
        ActionView::Write { alternates, .. } => if alternates.len() > 0 {
            alternates.len() + 1
        } else {
            0
        },
        ActionView::Run { .. } => 0,
    };
    guard + search + 1
}

/// The most requests that the steps from number `from` on can make together.
pub open spec fn plan_budget(plan: PlanView, from: int) -> nat
    decreases plan.steps.len() - from,
{
    if 0 <= from < plan.steps.len() {
        step_budget(plan.steps[from]) + plan_budget(plan, from + 1)
    } else {
        0
    }
}

/// The most requests that a run can still make before it asks to end.
pub open spec fn budget(run: RunView) -> nat {
    match run.phase {
        Phase::Marker => 1 + plan_budget(run.plan, 0),
        Phase::Guard { step } => step_budget(run.plan.steps[step]) + plan_budget(
            run.plan,
            step + 1,
        ),
        Phase::Locate { step, candidate } => (run.plan.steps[step].action->Write_alternates.len()
            + 2 - candidate) as nat + plan_budget(run.plan, step + 1),
        Phase::Spawn { step } => 1 + plan_budget(run.plan, step + 1),
        Phase::Write { step, .. } => 1 + plan_budget(run.plan, step + 1),
        Phase::Completed => 0,
        Phase::Failed { .. } => 0,
    }
}

/// Whether each of `replies` answers the request that is pending when it
/// comes, as long as the run has not ended.
pub open spec fn answered(run: RunView, replies: Seq<ReplyView>) -> bool
    decreases replies.len(),
{
    replies.len() > 0 && status_of(run.phase) == Status::Running ==> answers(
        run.phase,
        replies.first(),
    ) && answered(next(run, replies.first()), replies.drop_first())
}

/// Whether a reply ends the run in failure: the marker is absent, or the
/// reply tells of a failure.
pub open spec fn aborts(phase: Phase, reply: ReplyView) -> bool {
    (phase is Marker && reply == ReplyView::Exists(false)) || tells_failure(reply)
}

/// Whether none of `replies` ends the run in failure.
pub open spec fn unharmed(run: RunView, replies: Seq<ReplyView>) -> bool
    decreases replies.len(),
{
    replies.len() > 0 ==> !aborts(run.phase, replies.first()) && unharmed(
        next(run, replies.first()),
        replies.drop_first(),
    )
}

/// Every reply that answers a request brings the run nearer to its end.
pub proof fn law_answer_uses_budget(run: RunView, reply: ReplyView)
    requires
        well_formed(run),
        answers(run.phase, reply),
    ensures
        budget(next(run, reply)) < budget(run),
{
}

/// Every run ends. A run whose requests are answered asks to end after no
/// more replies than its budget: one for the marker, and for each step one
/// for its guard, one for each candidate destination that has to be looked
/// for, and one for its action.
pub proof fn law_run_ends_within_budget(run: RunView, replies: Seq<ReplyView>)
    requires
        well_formed(run),
        answered(run, replies),
        replies.len() >= budget(run),
    ensures
        status_of(after(run, replies).phase) != Status::Running,
        request_of(after(run, replies)) is Finish,
    decreases replies.len(),
{
    if status_of(run.phase) != Status::Running {
        lemma_ended_run_stays(run, replies);
    } else {
        law_answer_uses_budget(run, replies.first());
        lemma_next_well_formed(run, replies.first());
        law_run_ends_within_budget(next(run, replies.first()), replies.drop_first());
    }
}

/// A run that has not failed, and meets no failure, has not failed
/// afterwards.
pub proof fn lemma_unharmed_run_has_not_failed(run: RunView, replies: Seq<ReplyView>)
    requires
        well_formed(run),
        !(run.phase is Failed),
        unharmed(run, replies),
    ensures
        !(after(run, replies).phase is Failed),
    decreases replies.len(),
{
    if replies.len() > 0 {
        lemma_next_well_formed(run, replies.first());
        lemma_unharmed_run_has_not_failed(next(run, replies.first()), replies.drop_first());
    }
}

/// A run that meets no failure completes. Where the marker exists, every
/// program that is started ends with exit code zero and every artifact is
/// written, the run ends with every step skipped or done, and asks to end
/// with the exit code of success.
pub proof fn law_unharmed_run_completes(plan: PlanView, ctx: ContextView, replies: Seq<ReplyView>)
    requires
        answered(start_of(plan, ctx), replies),
        unharmed(start_of(plan, ctx), replies),
        replies.len() >= budget(start_of(plan, ctx)),
    ensures
        after(start_of(plan, ctx), replies).phase == Phase::Completed,
        request_of(after(start_of(plan, ctx), replies)) == (RequestView::Finish {
            exit_code: EXIT_COMPLETED as int,
        }),
        forall|step: int|
            0 <= step < plan.steps.len() ==> taken(
                #[trigger] after(start_of(plan, ctx), replies).states[step],
            ),
{
    lemma_start_well_formed(plan, ctx);
    law_run_ends_within_budget(start_of(plan, ctx), replies);
    lemma_unharmed_run_has_not_failed(start_of(plan, ctx), replies);
    lemma_after_well_formed(start_of(plan, ctx), replies);
    law_status_goes_with_steps(after(start_of(plan, ctx), replies));
}

} // verus!
