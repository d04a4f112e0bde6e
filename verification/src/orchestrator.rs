//! The run: a plan walked step by step.
//!
//! A [`Run`] never acts. It names the one thing that has to happen next as a
//! [`Request`], and moves on when it is told the [`Reply`]. Between the two
//! the driver probes a path, starts a program or writes a file. The run takes
//! the steps in order, halts at the first failure and never comes back to a
//! step it has left.
//!
//! What a run decides is stated in [`crate::model`]; what holds of every run
//! is proved in [`crate::laws`].

use vstd::prelude::*;
use crate::artifact::ArtifactId;
use crate::context::ProjectContext;
use crate::log::{info_lines, info_records, Line, LogRecord};
use crate::model::{
    abort, apply, candidates, enter, entry_lines, leave, lemma_next_well_formed,
    lemma_start_well_formed, marked, marker_missing_line, moved, next, opening_lines, phase_fits,
    request_of, start_of, status_of, transition_lines, well_formed, write_failure_line, Phase,
    RunView,
};
use crate::plan::{Action, ActionView, Guard, Plan};
use crate::runner::{announce_launch, report_spawn_failure, OutcomeView, RunOutcome};

verus! {

/// Why a run failed. Every failure is fatal: none is retried.
#[derive(Clone, Copy, Debug, PartialEq, Eq, Structural)]
pub enum Failure {
    /// The marker file that the plan requires is absent.
    PreconditionUnmet,
    /// A program could not be found or started.
    SpawnError,
    /// A program ran and ended with a non-zero exit code.
    ProcessExitError,
    /// An artifact could not be written.
    WriteError,
}

/// Where a run stands as a whole.
#[derive(Clone, Copy, Debug, PartialEq, Eq, Structural)]
pub enum Status {
    /// Steps are still to be taken.
    Running,
    /// Every step was skipped or done.
    Completed,
    /// A step was aborted; the steps behind it were not taken.
    Failed(Failure),
}

/// Where one step stands.
#[derive(Clone, Copy, Debug, PartialEq, Eq, Structural)]
pub enum StepState {
    /// The step is not taken up yet, or its guard is being looked into.
    Pending,
    /// The guard found the step's effect in place; the step was not applied.
    Skipped,
    /// The step's action is under way.
    Applying,
    /// The step's action succeeded.
    Done,
    /// The step's action failed, and the run with it.
    Aborted,
}

/// What the driver has to do next.
#[derive(Debug)]
pub enum Request {
    /// Tell whether `path` exists.
    Probe { path: String },
    /// Start `command` with `args`, wait for it and capture its output.
    Spawn { command: String, args: Vec<String> },
    /// Create `path` or truncate it, and write `payload` to it.
    Write { artifact: ArtifactId, path: String, payload: String },
    /// End the process with `exit_code`.
    Finish { exit_code: i32 },
}

/// The content of a [`Request`].
#[verifier::ext_equal]
pub enum RequestView {
    Probe { path: Seq<char> },
    Spawn { command: Seq<char>, args: Seq<Seq<char>> },
    Write { artifact: ArtifactId, path: Seq<char>, payload: Seq<char> },
    Finish { exit_code: int },
}

impl View for Request {
    type V = RequestView;

    open spec fn view(&self) -> RequestView {
        match self {
            Request::Probe { path } => RequestView::Probe { path: path@ },
            Request::Spawn { command, args } => RequestView::Spawn {
                command: command@,
                args: args.deep_view(),
            },
            Request::Write { artifact, path, payload } => RequestView::Write {
                artifact: *artifact,
                path: path@,
                payload: payload@,
            },
            Request::Finish { exit_code } => RequestView::Finish { exit_code: *exit_code as int },
        }
    }
}

/// What the driver found out or brought about.
#[derive(Debug)]
pub enum Reply {
    /// The probed path exists, or does not.
    Exists(bool),
    /// The program ran to its end.
    Outcome(RunOutcome),
    /// The program could not be found or started.
    SpawnFailed { reason: String },
    /// The artifact is written.
    Written,
    /// The artifact could not be written.
    WriteFailed { reason: String },
}

/// The content of a [`Reply`].
pub enum ReplyView {
    Exists(bool),
    Outcome(OutcomeView),
    SpawnFailed { reason: Seq<char> },
    Written,
    WriteFailed { reason: Seq<char> },
}

impl View for Reply {
    type V = ReplyView;

    open spec fn view(&self) -> ReplyView {
        match self {
            Reply::Exists(found) => ReplyView::Exists(*found),
            Reply::Outcome(outcome) => ReplyView::Outcome(outcome@),
            Reply::SpawnFailed { reason } => ReplyView::SpawnFailed { reason: reason@ },
            Reply::Written => ReplyView::Written,
            Reply::WriteFailed { reason } => ReplyView::WriteFailed { reason: reason@ },
        }
    }
}

/// The exit code of a run that completed.
pub const EXIT_COMPLETED: i32 = 0;

/// The exit code of a run that failed.
pub const EXIT_FAILED: i32 = 1;

/// Where a run stands in its plan, in machine integers.
#[derive(Clone, Copy, Debug)]
enum Cursor {
    Marker,
    Guard { step: usize },
    Locate { step: usize, candidate: usize },
    Spawn { step: usize },
    Write { step: usize, choice: usize },
    Completed,
    Failed { failure: Failure, at: Option<usize> },
}

impl View for Cursor {
    type V = Phase;

    closed spec fn view(&self) -> Phase {
        match *self {
            Cursor::Marker => Phase::Marker,
            Cursor::Guard { step } => Phase::Guard { step: step as int },
            Cursor::Locate { step, candidate } => Phase::Locate {
                step: step as int,
                candidate: candidate as int,
            },
            Cursor::Spawn { step } => Phase::Spawn { step: step as int },
            Cursor::Write { step, choice } => Phase::Write {
                step: step as int,
                choice: choice as int,
            },
            Cursor::Completed => Phase::Completed,
            Cursor::Failed { failure, at } => Phase::Failed {
                failure,
                at: match at {
                    Some(step) => Some(step as int),
                    None => None,
                },
            },
        }
    }
}

/// The parts of a run, on the way from one well-formed run to the next.
#[derive(Debug)]
struct Walk {
    plan: Plan,
    ctx: ProjectContext,
    cursor: Cursor,
    states: Vec<StepState>,
}

impl View for Walk {
    type V = RunView;

    closed spec fn view(&self) -> RunView {
        RunView { plan: self.plan@, ctx: self.ctx@, phase: self.cursor@, states: self.states@ }
    }
}

/// A plan being walked.
#[derive(Debug)]
pub struct Run {
    walk: Walk,
}

impl View for Run {
    type V = RunView;

    closed spec fn view(&self) -> RunView {
        self.walk@
    }
}

/// A copy of `words`.
fn copy_words(words: &Vec<String>) -> (copy: Vec<String>)
    ensures
        copy.deep_view() == words.deep_view(),
{
    let mut copy: Vec<String> = Vec::new();
    let mut i: usize = 0;
    while i < words.len()
        invariant
            i <= words.len(),
            copy.len() == i,
            forall|k: int| 0 <= k < i ==> copy[k]@ == words[k]@,
        decreases words.len() - i,
    {
        copy.push(words[i].clone());
        i += 1;
    }
    assert(copy.deep_view() =~= words.deep_view());
    copy
}

/// As many pending states as `plan` has steps.
fn all_pending(plan: &Plan) -> (states: Vec<StepState>)
    ensures
        states@ == Seq::new(plan@.steps.len(), |step: int| StepState::Pending),
{
    let mut states: Vec<StepState> = Vec::new();
    let mut i: usize = 0;
    while i < plan.steps.len()
        invariant
            i <= plan.steps.len(),
            states.len() == i,
            forall|k: int| 0 <= k < i ==> states[k] == StepState::Pending,
        decreases plan.steps.len() - i,
    {
        states.push(StepState::Pending);
        i += 1;
    }
    assert(plan@.steps.len() == plan.steps.len());
    assert(states@ =~= Seq::new(plan@.steps.len(), |step: int| StepState::Pending));
    states
}

/// Adds `record` to `lines`.
fn emit(lines: &mut Vec<LogRecord>, record: LogRecord)
    ensures
        final(lines).deep_view() == old(lines).deep_view().push(record@),
{
    lines.push(record);
    assert(lines.deep_view() =~= old(lines).deep_view().push(record@));
}

/// Adds one informational line for each of `texts` to `lines`.
fn emit_info(lines: &mut Vec<LogRecord>, texts: &Vec<String>)
    ensures
        final(lines).deep_view() == old(lines).deep_view() + info_lines(texts.deep_view()),
{
    let mut records = info_records(texts);
    let ghost added = records.deep_view();
    lines.append(&mut records);
    assert(lines.deep_view() =~= old(lines).deep_view() + added);
}

/// The candidate with number `index` among `destination` and `alternates`.
fn candidate<'a>(destination: &'a String, alternates: &'a Vec<String>, index: usize) -> (path:
    &'a String)
    requires
        index <= alternates.len(),
    ensures
        path@ == candidates(destination@, alternates.deep_view())[index as int],
{
    if index == 0 {
        destination
    } else {
        &alternates[index - 1]
    }
}

/// The program of a step that starts one.
fn program(plan: &Plan, step: usize) -> (parts: (&String, &Vec<String>))
    requires
        step < plan.steps.len(),
        plan@.steps[step as int].action is Run,
    ensures
        plan@.steps[step as int].action == (ActionView::Run {
            command: parts.0@,
            args: parts.1.deep_view(),
        }),
{
    match &plan.steps[step].action {
        Action::Run { command, args } => (command, args),
        Action::Write { .. } => unreached(),
    }
}

/// The artifact of a step that writes one, with its destination and its
/// alternates.
fn artifact(plan: &Plan, step: usize) -> (parts: (ArtifactId, &String, &Vec<String>))
    requires
        step < plan.steps.len(),
        plan@.steps[step as int].action is Write,
    ensures
        plan@.steps[step as int].action == (ActionView::Write {
            artifact: parts.0,
            destination: parts.1@,
            alternates: parts.2.deep_view(),
        }),
{
    match &plan.steps[step].action {
        Action::Write { artifact, destination, alternates } => (*artifact, destination, alternates),
        Action::Run { .. } => unreached(),
    }
}

/// Adds to `lines` what an observer is told when a run of `plan` comes into
/// the phase of `cursor`.
fn emit_entry(lines: &mut Vec<LogRecord>, plan: &Plan, cursor: Cursor)
    requires
        phase_fits(plan@, cursor@),
    ensures
        final(lines).deep_view() == old(lines).deep_view() + entry_lines(plan@, cursor@),
{
    match cursor {
        Cursor::Spawn { step } => {
            let (command, args) = program(plan, step);
            emit(lines, announce_launch(command.as_str(), args));
        },
        Cursor::Completed => {
            emit_info(lines, &plan.summary);
        },
        _ => {},
    }
    assert(lines.deep_view() =~= old(lines).deep_view() + entry_lines(plan@, cursor@));
}

/// The line that reports that the marker `path` is absent.
fn report_missing_marker(path: &str) -> (record: LogRecord)
    ensures
        record@ == marker_missing_line(path@),
{
    let mut text = String::from_str("Error: ");
    text.append(path);
    text.append(" not found. Please run this in a Next.js project directory.");
    LogRecord::error(text)
}

/// The line that reports that `path` could not be written.
fn report_write_failure(path: &str, reason: &str) -> (record: LogRecord)
    ensures
        record@ == write_failure_line(path@, reason@),
{
    let mut text = String::from_str("Failed to write ");
    text.append(path);
    text.append(": ");
    text.append(reason);
    LogRecord::error(text)
}

impl Walk {
    /// The walk in the phase of `cursor`.
    fn moved(self, cursor: Cursor) -> (walk: Walk)
        ensures
            walk@ == moved(self@, cursor@),
    {
        Walk { plan: self.plan, ctx: self.ctx, cursor, states: self.states }
    }

    /// The walk with the state of `step` set to `state`.
    fn marked(self, step: usize, state: StepState) -> (walk: Walk)
        requires
            step < self.states.len(),
        ensures
            walk@ == marked(self@, step as int, state),
    {
        let mut states = self.states;
        states.set(step, state);
        Walk { plan: self.plan, ctx: self.ctx, cursor: self.cursor, states }
    }

    /// The walk that applies `step`.
    fn apply(self, step: usize) -> (walk: Walk)
        requires
            step < self.plan.steps.len(),
            self.states.len() == self.plan.steps.len(),
        ensures
            walk@ == apply(self@, step as int),
    {
        let cursor = match &self.plan.steps[step].action {
            Action::Run { .. } => Cursor::Spawn { step },
            Action::Write { alternates, .. } => if alternates.len() == 0 {
                Cursor::Write { step, choice: 0 }
            } else {
                Cursor::Locate { step, candidate: 0 }
            },
        };
        self.marked(step, StepState::Applying).moved(cursor)
    }

    /// The walk that takes up `step`.
    fn enter(self, step: usize) -> (walk: Walk)
        requires
            self.states.len() == self.plan.steps.len(),
        ensures
            walk@ == enter(self@, step as int),
    {
        if step >= self.plan.steps.len() {
            self.moved(Cursor::Completed)
        } else {
            let guarded = match &self.plan.steps[step].guard {
                Guard::Always => false,
                Guard::UnlessExists(_) => true,
            };
            if guarded {
                self.moved(Cursor::Guard { step })
            } else {
                self.apply(step)
            }
        }
    }

    /// The walk that leaves `step` in `state` and takes up the step behind
    /// it.
    fn leave(self, step: usize, state: StepState) -> (walk: Walk)
        requires
            step < self.plan.steps.len(),
            self.states.len() == self.plan.steps.len(),
        ensures
            walk@ == leave(self@, step as int, state),
    {
        self.marked(step, state).enter(step + 1)
    }

    /// The walk that is aborted at `step`.
    fn abort(self, step: usize, failure: Failure) -> (walk: Walk)
        requires
            step < self.states.len(),
        ensures
            walk@ == abort(self@, step as int, failure),
    {
        self.marked(step, StepState::Aborted).moved(Cursor::Failed { failure, at: Some(step) })
    }
}

impl Run {
    #[verifier::type_invariant]
    spec fn fits(&self) -> bool {
        well_formed(self@)
    }

    /// Starts a run of `plan` for `ctx`, and gives the lines that open it.
    pub fn start(plan: Plan, ctx: ProjectContext) -> (started: (Run, Vec<LogRecord>))
        ensures
            started.0@ == start_of(plan@, ctx@),
            started.1.deep_view() == opening_lines(plan@, ctx@),
    {
        proof {
            lemma_start_well_formed(plan@, ctx@);
        }
        let mut lines: Vec<LogRecord> = Vec::new();
        assert(lines.deep_view() =~= Seq::<Line>::empty());
        let states = all_pending(&plan);
        let blank = Walk { plan, ctx, cursor: Cursor::Marker, states };
        let walk = if blank.plan.marker.is_some() {
            blank
        } else {
            emit_info(&mut lines, &blank.plan.banner);
            blank.enter(0)
        };
        emit_entry(&mut lines, &walk.plan, walk.cursor);
        assert(lines.deep_view() =~= opening_lines(plan@, ctx@));
        (Run { walk }, lines)
    }

    /// What the driver has to do next.
    pub fn request(&self) -> (request: Request)
        ensures
            request@ == request_of(self@),
    {
        proof {
            use_type_invariant(self);
        }
        let plan = &self.walk.plan;
        match self.walk.cursor {
            Cursor::Marker => match &plan.marker {
                Some(path) => Request::Probe { path: path.clone() },
                None => unreached(),
            },
            Cursor::Guard { step } => match &plan.steps[step].guard {
                Guard::UnlessExists(path) => Request::Probe { path: path.clone() },
                Guard::Always => unreached(),
            },
            Cursor::Locate { step, candidate: index } => {
                let (_, destination, alternates) = artifact(plan, step);
                Request::Probe { path: candidate(destination, alternates, index).clone() }
            },
            Cursor::Spawn { step } => {
                let (command, args) = program(plan, step);
                Request::Spawn { command: command.clone(), args: copy_words(args) }
            },
            Cursor::Write { step, choice } => {
                let (id, destination, alternates) = artifact(plan, step);
                Request::Write {
                    artifact: id,
                    path: candidate(destination, alternates, choice).clone(),
                    payload: id.render(&self.walk.ctx),
                }
            },
            Cursor::Completed => Request::Finish { exit_code: EXIT_COMPLETED },
            Cursor::Failed { .. } => Request::Finish { exit_code: EXIT_FAILED },
        }
    }

    /// Takes `reply` as the answer to the pending request, and gives the run
    /// that it leads to with the lines that an observer is due.
    pub fn advance(self, reply: Reply) -> (advanced: (Run, Vec<LogRecord>))
        ensures
            advanced.0@ == next(self@, reply@),
            advanced.1.deep_view() == transition_lines(self@, reply@),
    {
        proof {
            use_type_invariant(&self);
            lemma_next_well_formed(self@, reply@);
        }
        let walk = self.walk;
        assert(walk.plan@.steps.len() == walk.plan.steps.len());
        let mut lines: Vec<LogRecord> = Vec::new();
        assert(lines.deep_view() =~= Seq::<Line>::empty());
        let walk = match (walk.cursor, reply) {
            (Cursor::Marker, Reply::Exists(found)) => {
                if found {
                    emit_info(&mut lines, &walk.plan.banner);
                    walk.enter(0)
                } else {
                    let path = match &walk.plan.marker {
                        Some(path) => path,
                        None => unreached(),
                    };
                    emit(&mut lines, report_missing_marker(path.as_str()));
                    walk.moved(Cursor::Failed { failure: Failure::PreconditionUnmet, at: None })
                }
            },
            (Cursor::Guard { step }, Reply::Exists(found)) => {
                if found {
                    emit(&mut lines, LogRecord::warn(walk.plan.steps[step].skip_message.clone()));
                    walk.leave(step, StepState::Skipped)
                } else {
                    walk.apply(step)
                }
            },
            (Cursor::Locate { step, candidate }, Reply::Exists(found)) => {
                let (id, destination, alternates) = artifact(&walk.plan, step);
                let cursor = if found {
                    Cursor::Write { step, choice: candidate }
                } else if candidate < alternates.len() {
                    Cursor::Locate { step, candidate: candidate + 1 }
                } else {
                    emit(&mut lines, LogRecord::warn(id.creation_notice(destination.as_str())));
                    Cursor::Write { step, choice: 0 }
                };
                walk.moved(cursor)
            },
            (Cursor::Spawn { step }, Reply::Outcome(outcome)) => {
                lines = outcome.report();
                if outcome.exit_success {
                    walk.leave(step, StepState::Done)
                } else {
                    walk.abort(step, Failure::ProcessExitError)
                }
            },
            (Cursor::Spawn { step }, Reply::SpawnFailed { reason }) => {
                let (command, _) = program(&walk.plan, step);
                emit(&mut lines, report_spawn_failure(command.as_str(), reason.as_str()));
                walk.abort(step, Failure::SpawnError)
            },
            (Cursor::Write { step, choice }, Reply::Written) => {
                let (id, destination, alternates) = artifact(&walk.plan, step);
                let path = candidate(destination, alternates, choice);
                emit(&mut lines, LogRecord::info(id.confirmation(path.as_str())));
                walk.leave(step, StepState::Done)
            },
            (Cursor::Write { step, choice }, Reply::WriteFailed { reason }) => {
                let (_, destination, alternates) = artifact(&walk.plan, step);
                let path = candidate(destination, alternates, choice);
                emit(&mut lines, report_write_failure(path.as_str(), reason.as_str()));
                walk.abort(step, Failure::WriteError)
            },
            _ => {
                return (Run { walk }, lines);
            },
        };
        emit_entry(&mut lines, &walk.plan, walk.cursor);
        assert(lines.deep_view() =~= transition_lines(self@, reply@));
        (Run { walk }, lines)
    }

    /// Where the run stands as a whole.
    pub fn status(&self) -> (status: Status)
        ensures
            status == status_of(self@.phase),
    {
        match self.walk.cursor {
            Cursor::Completed => Status::Completed,
            Cursor::Failed { failure, .. } => Status::Failed(failure),
            _ => Status::Running,
        }
    }

    /// Where `step` stands, where the plan has such a step.
    pub fn step_state(&self, step: usize) -> (state: Option<StepState>)
        ensures
            state == if step < self@.states.len() {
                Some(self@.states[step as int])
            } else {
                None
            },
    {
        if step < self.walk.states.len() {
            Some(self.walk.states[step])
        } else {
            None
        }
    }
}

} // verus!
