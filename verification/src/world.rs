//! A working directory and its programs as values, and a driver that does as
//! it is asked.
//!
//! A run only asks; what comes of it depends on the driver, on the working
//! directory and on the external programs. This module states what a
//! faithful driver does: it answers a probe by what the directory holds,
//! writes what it is given where it is told, and starts the program that is
//! named. The programs themselves may do anything. What a run then leaves
//! behind in the directory is proved for every directory and every behaviour
//! of the programs.

use vstd::prelude::*;
use crate::artifact::rendered;
use crate::context::ContextView;
use crate::laws::{budget, law_answer_uses_budget};
use crate::model::{
    abort, lemma_next_well_formed, lemma_start_well_formed, lemma_states_around, next, position,
    request_of, start_of, status_of, well_formed, Phase, RunView,
};
use crate::orchestrator::{Failure, ReplyView, RequestView, Status, StepState};
use crate::plan::{ActionView, GuardView, PlanView};
use crate::runner::OutcomeView;

verus! {

/// What a program does when it is started.
pub enum Effect {
    /// The program could not be found or started; the directory is as it
    /// was.
    NotStarted,
    /// The program ran to its end and left the directory holding `files`.
    Ran { outcome: OutcomeView, files: Map<Seq<char>, Seq<char>> },
}

/// What surrounds a run, apart from the working directory itself.
pub struct Surroundings {
    /// What the program `command` does with `args` in a directory.
    pub programs: spec_fn(Seq<char>, Seq<Seq<char>>, Map<Seq<char>, Seq<char>>) -> Effect,
    /// Whether a path can be written in a directory.
    pub writable: spec_fn(Seq<char>, Map<Seq<char>, Seq<char>>) -> bool,
}

/// What a faithful driver makes of a request, in a directory that holds
/// `files`: the reply it gives and what the directory holds afterwards.
///
/// A probe tells whether the path exists and changes nothing. A write puts
/// the payload under the path, in place of what was there, where the path can
/// be written, and changes nothing where it cannot. Starting a program is
/// left to the program. Why a program was not started, or a path not written,
/// is left out: it does not bear on where a run goes. A request to end is
/// never served, see [`played`]; its reply here stands for none.
pub open spec fn served(
    files: Map<Seq<char>, Seq<char>>,
    around: Surroundings,
    request: RequestView,
) -> (ReplyView, Map<Seq<char>, Seq<char>>) {
    match request {
        RequestView::Probe { path } => (ReplyView::Exists(files.contains_key(path)), files),
        RequestView::Spawn { command, args } => match (around.programs)(command, args, files) {
            Effect::NotStarted => (ReplyView::SpawnFailed { reason: Seq::empty() }, files),
            Effect::Ran { outcome, files: left } => (ReplyView::Outcome(outcome), left),
        },
        RequestView::Write { path, payload, .. } => if (around.writable)(path, files) {
            (ReplyView::Written, files.insert(path, payload))
        } else {
            (ReplyView::WriteFailed { reason: Seq::empty() }, files)
        },
        RequestView::Finish { .. } => (ReplyView::Written, files),
    }
}

/// The run and the directory after a faithful driver has served at most
/// `turns` requests of `run`, and none once the run asks to end.
pub open spec fn played(
    run: RunView,
    files: Map<Seq<char>, Seq<char>>,
    around: Surroundings,
    turns: nat,
) -> (RunView, Map<Seq<char>, Seq<char>>)
    decreases turns,
{
    if turns == 0 || request_of(run) is Finish {
        (run, files)
    } else {
        let (reply, left) = served(files, around, request_of(run));
        played(next(run, reply), left, around, (turns - 1) as nat)
    }
}

/// Without its marker a plan changes nothing. In a directory where the marker
/// is absent, whatever the programs would do and however long the driver
/// goes on, the directory holds in the end exactly what it held before, and
/// the run, once it has been served at all, has failed with
/// [`Failure::PreconditionUnmet`].
pub proof fn law_absent_marker_leaves_directory_alone(
    plan: PlanView,
    ctx: ContextView,
    files: Map<Seq<char>, Seq<char>>,
    around: Surroundings,
    turns: nat,
)
    requires
        plan.marker matches Some(marker) && !files.contains_key(marker),
    ensures
        played(start_of(plan, ctx), files, around, turns).1 == files,
        turns > 0 ==> played(start_of(plan, ctx), files, around, turns).0.phase == (Phase::Failed {
            failure: Failure::PreconditionUnmet,
            at: None,
        }),
{
    if turns > 0 {
        let failed = next(start_of(plan, ctx), ReplyView::Exists(false));
        assert(played(failed, files, around, (turns - 1) as nat) == (failed, files));
    }
}

/// A failure ends all change. When a program that a run starts ends with a
/// non-zero exit code, the step is aborted, and however long the driver goes
/// on, the directory stays as that program left it: no step behind the
/// failing one is taken.
pub proof fn law_failed_program_ends_all_change(
    run: RunView,
    files: Map<Seq<char>, Seq<char>>,
    around: Surroundings,
    turns: nat,
)
    requires
        well_formed(run),
        run.phase is Spawn,
        (around.programs)(
            request_of(run)->Spawn_command,
            request_of(run)->Spawn_args,
            files,
        ) matches Effect::Ran { outcome, .. } && !outcome.exit_success,
    ensures
        played(run, files, around, turns + 1) == (
            abort(run, position(run), Failure::ProcessExitError),
            (around.programs)(
                request_of(run)->Spawn_command,
                request_of(run)->Spawn_args,
                files,
            )->Ran_files,
        ),
{
    let (reply, left) = served(files, around, request_of(run));
    assert(played(next(run, reply), left, around, turns) == (next(run, reply), left));
}

/// An artifact that is written holds what was rendered. When a run asks for
/// the artifact of a step to be written and the path can be written, the
/// directory holds under that path, byte for byte, the text that
/// [`rendered`] gives for the context, whatever was there before; and the
/// rest of the directory is as it was. So a second run that writes the same
/// artifact to the same path leaves there what the first did.
pub proof fn law_written_artifact_is_rendered(
    run: RunView,
    files: Map<Seq<char>, Seq<char>>,
    around: Surroundings,
)
    requires
        well_formed(run),
        run.phase is Write,
        (around.writable)(request_of(run)->Write_path, files),
    ensures
        served(files, around, request_of(run)) == (
            ReplyView::Written,
            files.insert(
                request_of(run)->Write_path,
                rendered(run.plan.steps[position(run)].action->Write_artifact, run.ctx),
            ),
        ),
{
}

/// Whether the path that guards `step`, where it has one, exists in a
/// directory.
pub open spec fn gate_present(
    plan: PlanView,
    files: Map<Seq<char>, Seq<char>>,
    step: int,
) -> bool {
    plan.steps[step].guard matches GuardView::UnlessExists(path) ==> files.contains_key(path)
}

/// Whether the guarded paths of the steps before `upto` exist in a directory.
pub open spec fn gates_present(
    plan: PlanView,
    files: Map<Seq<char>, Seq<char>>,
    upto: int,
) -> bool {
    forall|step: int|
        0 <= step < upto && step < plan.steps.len() ==> #[trigger] gate_present(plan, files, step)
}

/// Whether every guarded path of the plan that exists among `files` exists
/// among `left` too.
pub open spec fn gates_kept(
    plan: PlanView,
    files: Map<Seq<char>, Seq<char>>,
    left: Map<Seq<char>, Seq<char>>,
) -> bool {
    forall|step: int|
        0 <= step < plan.steps.len() && gate_present(plan, files, step) ==> #[trigger] gate_present(
            plan,
            left,
            step,
        )
}

/// Whether no program does away with a guarded path of the plan.
pub open spec fn programs_keep_gates(plan: PlanView, around: Surroundings) -> bool {
    forall|command: Seq<char>, args: Seq<Seq<char>>, files: Map<Seq<char>, Seq<char>>|
        (#[trigger] (around.programs)(command, args, files)) matches Effect::Ran { files: left, .. }
            ==> gates_kept(plan, files, left)
}

/// Whether the action of `step`, where the step is guarded, brings about the
/// guarded path: a program leaves the path in place when it ends with exit
/// code zero, and an artifact is written to the path itself.
pub open spec fn step_delivers(plan: PlanView, around: Surroundings, step: int) -> bool {
    plan.steps[step].guard matches GuardView::UnlessExists(path) ==> match plan.steps[step].action {
        ActionView::Run { command, args } => forall|files: Map<Seq<char>, Seq<char>>|
            (#[trigger] (around.programs)(command, args, files)) matches Effect::Ran {
                outcome,
                files: left,
            } ==> (outcome.exit_success ==> left.contains_key(path)),
        ActionView::Write { destination, alternates, .. } => destination == path
            && alternates.len() == 0,
    }
}

/// Whether the action of every guarded step brings about the guarded path.
pub open spec fn steps_deliver(plan: PlanView, around: Surroundings) -> bool {
    forall|step: int| 0 <= step < plan.steps.len() ==> #[trigger] step_delivers(plan, around, step)
}

/// Serving a request keeps the guarded paths that exist, and leaves the path
/// of a guarded step in place when the step is left.
proof fn lemma_served_keeps_gates(
    run: RunView,
    files: Map<Seq<char>, Seq<char>>,
    around: Surroundings,
)
    requires
        well_formed(run),
        programs_keep_gates(run.plan, around),
        steps_deliver(run.plan, around),
        !(request_of(run) is Finish),
    ensures
        gates_kept(run.plan, files, served(files, around, request_of(run)).1),
        position(next(run, served(files, around, request_of(run)).0)) > position(run)
            && 0 <= position(run) ==> gate_present(
            run.plan,
            served(files, around, request_of(run)).1,
            position(run),
        ),
{
    let left = served(files, around, request_of(run)).1;
    if 0 <= position(run) < run.plan.steps.len() {
        assert(step_delivers(run.plan, around, position(run)));
    }
    assert forall|step: int|
        0 <= step < run.plan.steps.len() && gate_present(
            run.plan,
            files,
            step,
        ) implies #[trigger] gate_present(run.plan, left, step) by {}
}

/// Where no program does away with a guarded path and the action of every
/// guarded step brings its path about, the guarded paths of the steps that a
/// run has left exist in the directory, however far the driver goes on.
proof fn lemma_left_gates_are_present(
    run: RunView,
    files: Map<Seq<char>, Seq<char>>,
    around: Surroundings,
    turns: nat,
)
    requires
        well_formed(run),
        programs_keep_gates(run.plan, around),
        steps_deliver(run.plan, around),
        gates_present(run.plan, files, position(run)),
    ensures
        gates_present(
            run.plan,
            played(run, files, around, turns).1,
            position(played(run, files, around, turns).0),
        ),
        played(run, files, around, turns).0.plan == run.plan,
    decreases turns,
{
    if turns == 0 || request_of(run) is Finish {
    } else {
        let (reply, left) = served(files, around, request_of(run));
        let onward = next(run, reply);
        lemma_next_well_formed(run, reply);
        lemma_served_keeps_gates(run, files, around);
        assert forall|step: int|
            0 <= step < position(onward) && step < run.plan.steps.len() implies
            #[trigger] gate_present(run.plan, left, step) by {
            if step < position(run) {
                assert(gate_present(run.plan, files, step));
            }
        }
        lemma_left_gates_are_present(onward, left, around, (turns - 1) as nat);
    }
}

/// Whether a run goes on as a second run does, in a directory where every
/// guarded path exists: each guarded step that it has left is skipped, and a
/// guarded step that it is at waits for its probe.
pub open spec fn skips_gated_steps(run: RunView) -> bool {
    &&& forall|step: int|
        0 <= step < position(run) && step < run.plan.steps.len() && run.plan.steps[step].guard
            is UnlessExists ==> (#[trigger] run.states[step]) == StepState::Skipped
    &&& 0 <= position(run) < run.plan.steps.len() && run.plan.steps[position(run)].guard
        is UnlessExists ==> run.phase is Guard
}

/// In a directory where every guarded path exists, and where no program does
/// away with one, every guarded step is skipped, however far the driver goes
/// on.
proof fn lemma_present_gates_are_skipped(
    run: RunView,
    files: Map<Seq<char>, Seq<char>>,
    around: Surroundings,
    turns: nat,
)
    requires
        well_formed(run),
        programs_keep_gates(run.plan, around),
        gates_present(run.plan, files, run.plan.steps.len() as int),
        skips_gated_steps(run),
    ensures
        skips_gated_steps(played(run, files, around, turns).0),
        played(run, files, around, turns).0.plan == run.plan,
        gates_present(
            run.plan,
            played(run, files, around, turns).1,
            run.plan.steps.len() as int,
        ),
    decreases turns,
{
    if turns == 0 || request_of(run) is Finish {
    } else {
        let (reply, left) = served(files, around, request_of(run));
        let onward = next(run, reply);
        lemma_next_well_formed(run, reply);
        lemma_states_around(run);
        if 0 <= position(run) < run.plan.steps.len() {
            assert(gate_present(run.plan, files, position(run)));
        }
        assert forall|step: int|
            0 <= step < run.plan.steps.len() implies #[trigger] gate_present(
            run.plan,
            left,
            step,
        ) by {
            assert(gate_present(run.plan, files, step));
        }
        assert(skips_gated_steps(onward));
        lemma_present_gates_are_skipped(onward, left, around, (turns - 1) as nat);
    }
}

/// A second run leaves alone what the first brought about. Take a directory
/// and programs of any kind, but such that no program does away with a
/// guarded path and that the action of every guarded step brings its path
/// about. When a first run has completed, every guarded path exists, and a
/// second run of the same plan in the directory that the first left skips
/// every guarded step it comes to: none of their programs is started again,
/// and every guarded path is still there when the second run ends.
pub proof fn law_second_run_skips_guarded_steps(
    plan: PlanView,
    ctx: ContextView,
    files: Map<Seq<char>, Seq<char>>,
    around: Surroundings,
    first_turns: nat,
    second_turns: nat,
)
    requires
        programs_keep_gates(plan, around),
        steps_deliver(plan, around),
        played(start_of(plan, ctx), files, around, first_turns).0.phase is Completed,
    ensures
        ({
            let between = played(start_of(plan, ctx), files, around, first_turns).1;
            let (second, last) = played(start_of(plan, ctx), between, around, second_turns);
            &&& gates_present(plan, between, plan.steps.len() as int)
            &&& gates_present(plan, last, plan.steps.len() as int)
            &&& forall|step: int|
                0 <= step < position(second) && step < plan.steps.len() && plan.steps[step].guard
                    is UnlessExists ==> (#[trigger] second.states[step]) == StepState::Skipped
        }),
{
    lemma_start_well_formed(plan, ctx);
    lemma_left_gates_are_present(start_of(plan, ctx), files, around, first_turns);
    let between = played(start_of(plan, ctx), files, around, first_turns).1;
    lemma_present_gates_are_skipped(start_of(plan, ctx), between, around, second_turns);
}

/// A driven run ends. A faithful driver answers every request, so after as
/// many turns as the run's budget, and however the programs end, the run has
/// completed or failed.
pub proof fn law_driven_run_ends(
    run: RunView,
    files: Map<Seq<char>, Seq<char>>,
    around: Surroundings,
    turns: nat,
)
    requires
        well_formed(run),
        turns >= budget(run),
    ensures
        status_of(played(run, files, around, turns).0.phase) != Status::Running,
    decreases turns,
{
    if status_of(run.phase) == Status::Running {
        let (reply, left) = served(files, around, request_of(run));
        law_answer_uses_budget(run, reply);
        lemma_next_well_formed(run, reply);
        law_driven_run_ends(next(run, reply), left, around, (turns - 1) as nat);
    }
}

} // verus!
