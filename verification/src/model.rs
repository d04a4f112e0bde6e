//! The run as a mathematical value.
//!
//! A run is its plan, its context, the phase it is in and the state of each
//! step. [`request_of`] says what a run asks of its driver, [`next`] where a
//! reply takes it, and [`transition_lines`] what an observer is told on the
//! way. The executable [`crate::orchestrator::Run`] computes exactly these.

use vstd::prelude::*;
use crate::artifact::{confirmation, creation_notice, rendered};
use crate::context::ContextView;
use crate::log::{error_line, info_line, info_lines, warn_line, Line};
use crate::orchestrator::{
    Failure, ReplyView, RequestView, Status, StepState, EXIT_COMPLETED, EXIT_FAILED,
};
use crate::plan::{ActionView, GuardView, PlanView};
use crate::runner::{launch_line, outcome_lines, spawn_failure_line};

verus! {

/// Where a run stands in its plan, and what it waits for.
pub enum Phase {
    /// Waits to hear whether the marker exists.
    Marker,
    /// Waits to hear whether the guarded path of `step` exists.
    Guard { step: int },
    /// Looks for the destination of `step`: waits to hear whether candidate
    /// number `candidate` exists.
    Locate { step: int, candidate: int },
    /// Waits for the program of `step`.
    Spawn { step: int },
    /// Waits for the artifact of `step` to be written to candidate number
    /// `choice`.
    Write { step: int, choice: int },
    /// Every step is skipped or done.
    Completed,
    /// The run was aborted: at the step `at`, or before any step where the
    /// marker was found absent.
    Failed { failure: Failure, at: Option<int> },
}

/// A run as a value: its plan, its context, where it stands, and the state
/// of each step.
pub struct RunView {
    pub plan: PlanView,
    pub ctx: ContextView,
    pub phase: Phase,
    pub states: Seq<StepState>,
}

/// The paths that an artifact may go to: the destination first, then the
/// alternates.
pub open spec fn candidates(destination: Seq<char>, alternates: Seq<Seq<char>>) -> Seq<Seq<char>> {
    seq![destination] + alternates
}

/// `run` with the state of `step` set to `state`.
pub open spec fn marked(run: RunView, step: int, state: StepState) -> RunView {
    RunView { states: run.states.update(step, state), ..run }
}

/// `run` in another phase.
pub open spec fn moved(run: RunView, phase: Phase) -> RunView {
    RunView { phase, ..run }
}

/// The phase in which `step` is applied. A step that starts a program waits
/// for it. A step that writes looks for its destination first, unless it has
/// no alternates: then the destination is fixed and nothing is probed.
pub open spec fn applying_phase(plan: PlanView, step: int) -> Phase
    recommends
        0 <= step < plan.steps.len(),
{
    match plan.steps[step].action {
        ActionView::Run { .. } => Phase::Spawn { step },
        ActionView::Write { alternates, .. } => if alternates.len() == 0 {
            Phase::Write { step, choice: 0 }
        } else {
            Phase::Locate { step, candidate: 0 }
        },
    }
}

/// The run that applies `step`.
pub open spec fn apply(run: RunView, step: int) -> RunView
    recommends
        0 <= step < run.plan.steps.len(),
{
    moved(marked(run, step, StepState::Applying), applying_phase(run.plan, step))
}

/// The run that takes up `step`: behind the last step the run is complete; a
/// guarded step stays pending while its path is probed; any other is applied
/// at once.
pub open spec fn enter(run: RunView, step: int) -> RunView
    recommends
        0 <= step,
{
    if step >= run.plan.steps.len() {
        moved(run, Phase::Completed)
    } else {
        match run.plan.steps[step].guard {
            GuardView::Always => apply(run, step),
            GuardView::UnlessExists(_) => moved(run, Phase::Guard { step }),
        }
    }
}

/// The run that leaves `step` in `state` and takes up the step behind it.
pub open spec fn leave(run: RunView, step: int, state: StepState) -> RunView {
    enter(marked(run, step, state), step + 1)
}

/// The run that is aborted at `step`.
pub open spec fn abort(run: RunView, step: int, failure: Failure) -> RunView {
    moved(marked(run, step, StepState::Aborted), Phase::Failed { failure, at: Some(step) })
}

/// The run of `plan` for `ctx` before any reply: every step is pending, and
/// the run asks for the marker where the plan has one, and else takes up the
/// first step.
pub open spec fn start_of(plan: PlanView, ctx: ContextView) -> RunView {
    let blank = RunView {
        plan,
        ctx,
        phase: Phase::Marker,
        states: Seq::new(plan.steps.len(), |step: int| StepState::Pending),
    };
    match plan.marker {
        Some(_) => blank,
        None => enter(blank, 0),
    }
}

/// How far a run has come: the number of the step it is at or was aborted
/// at, one less than the first before any step is taken up, and the number
/// of steps once the run is complete.
pub open spec fn position(run: RunView) -> int {
    match run.phase {
        Phase::Marker => -1,
        Phase::Guard { step } => step,
        Phase::Locate { step, .. } => step,
        Phase::Spawn { step } => step,
        Phase::Write { step, .. } => step,
        Phase::Completed => run.plan.steps.len() as int,
        Phase::Failed { at: Some(step), .. } => step,
        Phase::Failed { at: None, .. } => -1,
    }
}

/// Whether a phase fits its plan: the step it names exists, has the guard or
/// the action that the phase waits for, and the candidate it names is one of
/// the step's.
pub open spec fn phase_fits(plan: PlanView, phase: Phase) -> bool {
    match phase {
        Phase::Marker => plan.marker is Some,
        Phase::Guard { step } => {
            &&& 0 <= step < plan.steps.len()
            &&& plan.steps[step].guard is UnlessExists
        },
        Phase::Locate { step, candidate } => {
            &&& 0 <= step < plan.steps.len()
            &&& plan.steps[step].action matches ActionView::Write { alternates, .. }
            &&& 0 <= candidate <= alternates.len()
            &&& alternates.len() > 0
        },
        Phase::Spawn { step } => {
            &&& 0 <= step < plan.steps.len()
            &&& plan.steps[step].action is Run
        },
        Phase::Write { step, choice } => {
            &&& 0 <= step < plan.steps.len()
            &&& plan.steps[step].action matches ActionView::Write { alternates, .. }
            &&& 0 <= choice <= alternates.len()
        },
        Phase::Completed => true,
        Phase::Failed { failure, at: Some(step) } => {
            &&& 0 <= step < plan.steps.len()
            &&& failure != Failure::PreconditionUnmet
        },
        Phase::Failed { failure, at: None } => {
            &&& plan.marker is Some
            &&& failure == Failure::PreconditionUnmet
        },
    }
}

/// The state that the step a run is at has in `phase`: pending while its
/// guarded path is probed, aborted where the run failed at it, and applying
/// in between.
pub open spec fn state_in(phase: Phase) -> StepState {
    match phase {
        Phase::Guard { .. } => StepState::Pending,
        Phase::Failed { .. } => StepState::Aborted,
        _ => StepState::Applying,
    }
}

/// Whether a step in `state` has been taken: it is skipped or done.
pub open spec fn taken(state: StepState) -> bool {
    state == StepState::Skipped || state == StepState::Done
}

/// Whether the state of `step` goes with how far the run has come: taken
/// before the step the run is at, pending behind it, and at it the state that
/// goes with the phase.
pub open spec fn state_fits(run: RunView, step: int) -> bool {
    if step < position(run) {
        taken(run.states[step])
    } else if step > position(run) {
        run.states[step] == StepState::Pending
    } else {
        run.states[step] == state_in(run.phase)
    }
}

/// Whether a run is one that [`start_of`] and [`next`] can lead to: its phase
/// fits its plan, and the state of each step goes with how far the run has
/// come.
pub open spec fn well_formed(run: RunView) -> bool {
    &&& phase_fits(run.plan, run.phase)
    &&& run.states.len() == run.plan.steps.len()
    &&& forall|step: int| 0 <= step < run.states.len() ==> #[trigger] state_fits(run, step)
}

/// What a run asks of its driver.
pub open spec fn request_of(run: RunView) -> RequestView
    recommends
        well_formed(run),
{
    match run.phase {
        Phase::Marker => RequestView::Probe { path: run.plan.marker->0 },
        Phase::Guard { step } => RequestView::Probe {
            path: run.plan.steps[step].guard->UnlessExists_0,
        },
        Phase::Locate { step, candidate } => RequestView::Probe {
            path: candidates(
                run.plan.steps[step].action->Write_destination,
                run.plan.steps[step].action->Write_alternates,
            )[candidate],
        },
        Phase::Spawn { step } => RequestView::Spawn {
            command: run.plan.steps[step].action->Run_command,
            args: run.plan.steps[step].action->Run_args,
        },
        Phase::Write { step, choice } => RequestView::Write {
            artifact: run.plan.steps[step].action->Write_artifact,
            path: candidates(
                run.plan.steps[step].action->Write_destination,
                run.plan.steps[step].action->Write_alternates,
            )[choice],
            payload: rendered(run.plan.steps[step].action->Write_artifact, run.ctx),
        },
        Phase::Completed => RequestView::Finish { exit_code: EXIT_COMPLETED as int },
        Phase::Failed { .. } => RequestView::Finish { exit_code: EXIT_FAILED as int },
    }
}

/// Whether `reply` answers what the run asks for in `phase`.
pub open spec fn answers(phase: Phase, reply: ReplyView) -> bool {
    match phase {
        Phase::Marker | Phase::Guard { .. } | Phase::Locate { .. } => reply is Exists,
        Phase::Spawn { .. } => reply is Outcome || reply is SpawnFailed,
        Phase::Write { .. } => reply is Written || reply is WriteFailed,
        Phase::Completed | Phase::Failed { .. } => false,
    }
}

/// The run that `reply` takes `run` to.
///
/// A marker that is absent fails the run before anything is changed. A
/// guarded path that exists has its step skipped. The destination of an
/// artifact is the first candidate that exists, and the first candidate of
/// all where none does. A program that ends with exit code zero, and an
/// artifact that is written, have their step done and lead to the next; any
/// other end aborts the step and fails the run. A reply that does not answer
/// the pending request changes nothing.
pub open spec fn next(run: RunView, reply: ReplyView) -> RunView
    recommends
        well_formed(run),
{
    match (run.phase, reply) {
        (Phase::Marker, ReplyView::Exists(found)) => if found {
            enter(run, 0)
        } else {
            moved(run, Phase::Failed { failure: Failure::PreconditionUnmet, at: None })
        },
        (Phase::Guard { step }, ReplyView::Exists(found)) => if found {
            leave(run, step, StepState::Skipped)
        } else {
            apply(run, step)
        },
        (Phase::Locate { step, candidate }, ReplyView::Exists(found)) => if found {
            moved(run, Phase::Write { step, choice: candidate })
        } else if candidate < run.plan.steps[step].action->Write_alternates.len() {
            moved(run, Phase::Locate { step, candidate: candidate + 1 })
        } else {
            moved(run, Phase::Write { step, choice: 0 })
        },
        (Phase::Spawn { step }, ReplyView::Outcome(outcome)) => if outcome.exit_success {
            leave(run, step, StepState::Done)
        } else {
            abort(run, step, Failure::ProcessExitError)
        },
        (Phase::Spawn { step }, ReplyView::SpawnFailed { .. }) => abort(
            run,
            step,
            Failure::SpawnError,
        ),
        (Phase::Write { step, .. }, ReplyView::Written) => leave(run, step, StepState::Done),
        (Phase::Write { step, .. }, ReplyView::WriteFailed { .. }) => abort(
            run,
            step,
            Failure::WriteError,
        ),
        _ => run,
    }
}

/// The step at which a run in `phase` was aborted, where it was aborted at
/// one.
pub open spec fn failed_at(phase: Phase) -> Option<int> {
    match phase {
        Phase::Failed { at, .. } => at,
        _ => None,
    }
}

/// Where a run in `phase` stands as a whole.
pub open spec fn status_of(phase: Phase) -> Status {
    match phase {
        Phase::Completed => Status::Completed,
        Phase::Failed { failure, .. } => Status::Failed(failure),
        _ => Status::Running,
    }
}

/// The line that reports an absent marker.
pub open spec fn marker_missing_line(marker: Seq<char>) -> Line {
    error_line(
        "Error: "@ + marker + " not found. Please run this in a Next.js project directory."@,
    )
}

/// The line that reports an artifact that could not be written.
pub open spec fn write_failure_line(path: Seq<char>, reason: Seq<char>) -> Line {
    error_line("Failed to write "@ + path + ": "@ + reason)
}

/// What an observer is told when a run comes into its phase: the command
/// line of a program about to be started, and the summary of a completed run.
pub open spec fn entry_lines(plan: PlanView, phase: Phase) -> Seq<Line>
    recommends
        phase_fits(plan, phase),
{
    match phase {
        Phase::Spawn { step } => seq![
            launch_line(plan.steps[step].action->Run_command, plan.steps[step].action->Run_args),
        ],
        Phase::Completed => info_lines(plan.summary),
        _ => Seq::empty(),
    }
}

/// What an observer is told of `reply` itself: the banner or the complaint
/// after the marker was probed; the skip message of a step whose guarded path
/// exists; the notice that a destination is created, once the last candidate
/// is found absent; how a program ended; that an artifact is written, or why
/// it is not.
pub open spec fn reply_lines(run: RunView, reply: ReplyView) -> Seq<Line>
    recommends
        well_formed(run),
{
    match (run.phase, reply) {
        (Phase::Marker, ReplyView::Exists(found)) => if found {
            info_lines(run.plan.banner)
        } else {
            seq![marker_missing_line(run.plan.marker->0)]
        },
        (Phase::Guard { step }, ReplyView::Exists(found)) => if found {
            seq![warn_line(run.plan.steps[step].skip_message)]
        } else {
            Seq::empty()
        },
        (Phase::Locate { step, candidate }, ReplyView::Exists(found)) => if !found && candidate
            >= run.plan.steps[step].action->Write_alternates.len() {
            seq![
                warn_line(
                    creation_notice(
                        run.plan.steps[step].action->Write_artifact,
                        run.plan.steps[step].action->Write_destination,
                    ),
                ),
            ]
        } else {
            Seq::empty()
        },
        (Phase::Spawn { .. }, ReplyView::Outcome(outcome)) => outcome_lines(outcome),
        (Phase::Spawn { step }, ReplyView::SpawnFailed { reason }) => seq![
            spawn_failure_line(run.plan.steps[step].action->Run_command, reason),
        ],
        (Phase::Write { step, .. }, ReplyView::Written) => seq![
            info_line(
                confirmation(
                    run.plan.steps[step].action->Write_artifact,
                    request_of(run)->Write_path,
                ),
            ),
        ],
        (Phase::Write { .. }, ReplyView::WriteFailed { reason }) => seq![
            write_failure_line(request_of(run)->Write_path, reason),
        ],
        _ => Seq::empty(),
    }
}

/// What an observer is told when `reply` reaches `run`: what the reply means,
/// then what the run comes to. A reply that does not answer the pending
/// request is passed over in silence.
pub open spec fn transition_lines(run: RunView, reply: ReplyView) -> Seq<Line>
    recommends
        well_formed(run),
{
    if answers(run.phase, reply) {
        reply_lines(run, reply) + entry_lines(run.plan, next(run, reply).phase)
    } else {
        Seq::empty()
    }
}

/// What an observer is told when a run starts: the banner, unless the marker
/// is asked for first, then what the run comes to.
pub open spec fn opening_lines(plan: PlanView, ctx: ContextView) -> Seq<Line> {
    let banner = if plan.marker is None {
        info_lines(plan.banner)
    } else {
        Seq::empty()
    };
    banner + entry_lines(plan, start_of(plan, ctx).phase)
}

/// Taking up a step keeps a run well-formed, where the steps before it are
/// taken and the others are pending.
pub proof fn lemma_enter_well_formed(run: RunView, step: int)
    requires
        0 <= step <= run.plan.steps.len(),
        run.states.len() == run.plan.steps.len(),
        forall|k: int| 0 <= k < step ==> taken(#[trigger] run.states[k]),
        forall|k: int| step <= k < run.states.len() ==> run.states[k] == StepState::Pending,
    ensures
        well_formed(enter(run, step)),
        position(enter(run, step)) == step,
        enter(run, step).plan == run.plan,
        enter(run, step).ctx == run.ctx,
{
}

/// A run is well-formed from the start.
pub proof fn lemma_start_well_formed(plan: PlanView, ctx: ContextView)
    ensures
        well_formed(start_of(plan, ctx)),
        start_of(plan, ctx).plan == plan,
        start_of(plan, ctx).ctx == ctx,
{
    let blank = RunView {
        plan,
        ctx,
        phase: Phase::Marker,
        states: Seq::new(plan.steps.len(), |step: int| StepState::Pending),
    };
    lemma_enter_well_formed(blank, 0);
}

/// In a well-formed run the steps before the one it is at are taken, and the
/// steps behind it are pending.
pub proof fn lemma_states_around(run: RunView)
    requires
        well_formed(run),
    ensures
        forall|k: int|
            0 <= k < run.states.len() && k < position(run) ==> taken(#[trigger] run.states[k]),
        forall|k: int|
            0 <= k < run.states.len() && k > position(run) ==> (#[trigger] run.states[k])
                == StepState::Pending,
        0 <= position(run) < run.states.len() ==> run.states[position(run)] == state_in(
            run.phase,
        ),
{
    assert forall|k: int| 0 <= k < run.states.len() && k < position(run) implies taken(
        #[trigger] run.states[k],
    ) by {
        assert(state_fits(run, k));
    }
    assert forall|k: int| 0 <= k < run.states.len() && k > position(run) implies (
    #[trigger] run.states[k]) == StepState::Pending by {
        assert(state_fits(run, k));
    }
    if 0 <= position(run) < run.states.len() {
        assert(state_fits(run, position(run)));
    }
}

/// A reply takes a well-formed run to a well-formed run of the same plan for
/// the same context, and never takes it back.
pub proof fn lemma_next_well_formed(run: RunView, reply: ReplyView)
    requires
        well_formed(run),
    ensures
        well_formed(next(run, reply)),
        next(run, reply).plan == run.plan,
        next(run, reply).ctx == run.ctx,
        position(next(run, reply)) >= position(run),
{
    lemma_states_around(run);
    match (run.phase, reply) {
        (Phase::Marker, ReplyView::Exists(true)) => {
            lemma_enter_well_formed(run, 0);
        },
        (Phase::Guard { step }, ReplyView::Exists(true)) => {
            lemma_enter_well_formed(marked(run, step, StepState::Skipped), step + 1);
        },
        (Phase::Spawn { step }, ReplyView::Outcome(outcome)) => {
            if outcome.exit_success {
                lemma_enter_well_formed(marked(run, step, StepState::Done), step + 1);
            }
        },
        (Phase::Write { step, .. }, ReplyView::Written) => {
            lemma_enter_well_formed(marked(run, step, StepState::Done), step + 1);
        },
        _ => {},
    }
    let onward = next(run, reply);
    assert forall|k: int| 0 <= k < onward.states.len() implies #[trigger] state_fits(onward, k) by {
        assert(state_fits(run, k));
    }
}

} // verus!
