//! The command line: which run an invocation asks for.

use vstd::prelude::*;
use crate::context::{ContextView, ProjectContext};
use crate::log::{info_lines, info_records, warn_line, Line, LogRecord};
use crate::model::{opening_lines, request_of, start_of};
use crate::orchestrator::{RequestView, Run, EXIT_COMPLETED};
use crate::plan::{
    bootstrap_plan, idle_plan, owned, simulator_plan, status_plan, Plan, PlanView,
};

verus! {

/// What an invocation asks for.
#[derive(Debug)]
pub enum Invocation {
    /// No subcommand was given: the usage is shown.
    Usage,
    /// Show the state of version control.
    Status,
    /// Bootstrap the project in the working directory.
    Bootstrap,
    /// Start the application in the device simulator.
    Simulator,
    /// A subcommand that the program does not know.
    Unknown(String),
}

/// The content of an [`Invocation`].
pub enum InvocationView {
    Usage,
    Status,
    Bootstrap,
    Simulator,
    Unknown(Seq<char>),
}

impl View for Invocation {
    type V = InvocationView;

    open spec fn view(&self) -> InvocationView {
        match self {
            Invocation::Usage => InvocationView::Usage,
            Invocation::Status => InvocationView::Status,
            Invocation::Bootstrap => InvocationView::Bootstrap,
            Invocation::Simulator => InvocationView::Simulator,
            Invocation::Unknown(word) => InvocationView::Unknown(word@),
        }
    }
}

/// What the arguments of a process ask for. The first argument names the
/// program; the second is the subcommand; any further ones are ignored.
pub open spec fn parsed(args: Seq<Seq<char>>) -> InvocationView {
    if args.len() < 2 {
        InvocationView::Usage
    } else if args[1] == "status"@ {
        InvocationView::Status
    } else if args[1] == "bootstrap"@ {
        InvocationView::Bootstrap
    } else if args[1] == "simulator"@ {
        InvocationView::Simulator
    } else {
        InvocationView::Unknown(args[1])
    }
}

/// The usage, line by line.
pub open spec fn usage() -> Seq<Seq<char>> {
    seq![
        "Usage: ./shipnext <command>"@,
        "Commands:"@,
        "  status   - Check git status"@,
        "  bootstrap - Bootstrap Tauri v2 with iOS for an existing Next.js app"@,
    ]
}

/// What an observer is told of the invocation itself, before any run: the
/// usage where no subcommand was given, a diagnostic for an unknown one.
pub open spec fn preface(invocation: InvocationView) -> Seq<Line> {
    match invocation {
        InvocationView::Usage => info_lines(usage()),
        InvocationView::Unknown(word) => seq![warn_line("Unknown command: "@ + word)],
        _ => Seq::empty(),
    }
}

/// The plan that an invocation asks for: none of the known subcommands asks
/// for the plan that does nothing.
pub open spec fn plan_for(invocation: InvocationView, ctx: ContextView) -> PlanView {
    match invocation {
        InvocationView::Status => status_plan(),
        InvocationView::Bootstrap => bootstrap_plan(ctx),
        InvocationView::Simulator => simulator_plan(),
        InvocationView::Usage | InvocationView::Unknown(_) => idle_plan(),
    }
}

/// Whether `text` reads `word`.
fn reads(text: &String, word: &str) -> (same: bool)
    ensures
        same == (text@ == word@),
{
    let other = String::from_str(word);
    *text == other
}

/// Tells what `args` ask for.
pub fn parse(args: &Vec<String>) -> (invocation: Invocation)
    ensures
        invocation@ == parsed(args.deep_view()),
{
    if args.len() < 2 {
        Invocation::Usage
    } else if reads(&args[1], "status") {
        Invocation::Status
    } else if reads(&args[1], "bootstrap") {
        Invocation::Bootstrap
    } else if reads(&args[1], "simulator") {
        Invocation::Simulator
    } else {
        Invocation::Unknown(args[1].clone())
    }
}

impl Invocation {
    /// The lines that tell of the invocation itself.
    pub fn preface(&self) -> (lines: Vec<LogRecord>)
        ensures
            lines.deep_view() == preface(self@),
    {
        match self {
            Invocation::Usage => {
                let texts = owned(
                    &[
                        "Usage: ./shipnext <command>",
                        "Commands:",
                        "  status   - Check git status",
                        "  bootstrap - Bootstrap Tauri v2 with iOS for an existing Next.js app",
                    ],
                );
                assert(texts.deep_view() =~= usage());
                info_records(&texts)
            },
            Invocation::Unknown(word) => {
                let mut text = String::from_str("Unknown command: ");
                text.append(word.as_str());
                let mut lines: Vec<LogRecord> = Vec::new();
                lines.push(LogRecord::warn(text));
                assert(lines.deep_view() =~= preface(self@));
                lines
            },
            _ => {
                let lines: Vec<LogRecord> = Vec::new();
                assert(lines.deep_view() =~= preface(self@));
                lines
            },
        }
    }

    /// The plan that the invocation asks for.
    pub fn plan(&self, ctx: &ProjectContext) -> (plan: Plan)
        ensures
            plan@ == plan_for(self@, ctx@),
    {
        match self {
            Invocation::Status => Plan::status(),
            Invocation::Bootstrap => Plan::bootstrap(ctx),
            Invocation::Simulator => Plan::simulator(),
            Invocation::Usage | Invocation::Unknown(_) => Plan::idle(),
        }
    }
}

/// Starts the run that `args` ask for, and gives the lines that open it.
///
/// Without a subcommand, and with one that is not known, the run is complete
/// from the start: it probes nothing, starts nothing and writes nothing, and
/// asks only to end with the exit code of success.
pub fn dispatch(args: &Vec<String>, ctx: ProjectContext) -> (started: (Run, Vec<LogRecord>))
    ensures
        started.0@ == start_of(plan_for(parsed(args.deep_view()), ctx@), ctx@),
        started.1.deep_view() == preface(parsed(args.deep_view())) + opening_lines(
            plan_for(parsed(args.deep_view()), ctx@),
            ctx@,
        ),
        parsed(args.deep_view()) is Usage || parsed(args.deep_view()) is Unknown ==> {
            &&& request_of(started.0@) == (RequestView::Finish {
                exit_code: EXIT_COMPLETED as int,
            })
            &&& started.1.deep_view() == preface(parsed(args.deep_view()))
        },
{
    let invocation = parse(args);
    let mut lines = invocation.preface();
    let plan = invocation.plan(&ctx);
    let (run, mut opening) = Run::start(plan, ctx);
    let ghost told = lines.deep_view();
    let ghost opened = opening.deep_view();
    lines.append(&mut opening);
    assert(lines.deep_view() =~= told + opened);
    assert(opening_lines(idle_plan(), ctx@) =~= Seq::<Line>::empty());
    (run, lines)
}

} // verus!
