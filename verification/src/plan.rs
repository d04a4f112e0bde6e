//! Steps and plans.
//!
//! A plan is a fixed, ordered list of steps, built afresh for every run. A
//! step pairs a guard, which tells from the filesystem alone whether the
//! step's effect is already there, with the one action that brings the effect
//! about.

use vstd::prelude::*;
use crate::artifact::ArtifactId;
use crate::context::{ContextView, ProjectContext};

verus! {

/// Tells whether a step's effect is already present.
#[derive(Debug)]
pub enum Guard {
    /// Nothing tells: the step is applied in every run.
    Always,
    /// The effect is present exactly when this path exists.
    UnlessExists(String),
}

/// The characters of a [`Guard`].
#[verifier::ext_equal]
pub enum GuardView {
    Always,
    UnlessExists(Seq<char>),
}

impl View for Guard {
    type V = GuardView;

    open spec fn view(&self) -> GuardView {
        match self {
            Guard::Always => GuardView::Always,
            Guard::UnlessExists(path) => GuardView::UnlessExists(path@),
        }
    }
}

/// What applying a step does.
#[derive(Debug)]
pub enum Action {
    /// Starts an external program and waits for it.
    Run { command: String, args: Vec<String> },
    /// Writes an artifact over its destination. The destination is the first
    /// path among `destination` and `alternates`, in this order, that exists
    /// already, and `destination` itself where none does.
    Write { artifact: ArtifactId, destination: String, alternates: Vec<String> },
}

/// The characters of an [`Action`].
#[verifier::ext_equal]
pub enum ActionView {
    Run { command: Seq<char>, args: Seq<Seq<char>> },
    Write { artifact: ArtifactId, destination: Seq<char>, alternates: Seq<Seq<char>> },
}

impl View for Action {
    type V = ActionView;

    open spec fn view(&self) -> ActionView {
        match self {
            Action::Run { command, args } => ActionView::Run {
                command: command@,
                args: args.deep_view(),
            },
            Action::Write { artifact, destination, alternates } => ActionView::Write {
                artifact: *artifact,
                destination: destination@,
                alternates: alternates.deep_view(),
            },
        }
    }
}

/// One unit of a plan.
#[derive(Debug)]
pub struct Step {
    /// The step's identifier.
    pub name: String,
    /// Tells whether the effect is already present.
    pub guard: Guard,
    /// Brings the effect about.
    pub action: Action,
    /// Shown when the guard finds the effect present.
    pub skip_message: String,
}

/// The characters of a [`Step`].
#[verifier::ext_equal]
pub struct StepView {
    pub name: Seq<char>,
    pub guard: GuardView,
    pub action: ActionView,
    pub skip_message: Seq<char>,
}

impl View for Step {
    type V = StepView;

    open spec fn view(&self) -> StepView {
        StepView {
            name: self.name@,
            guard: self.guard@,
            action: self.action@,
            skip_message: self.skip_message@,
        }
    }
}

impl DeepView for Step {
    type V = StepView;

    open spec fn deep_view(&self) -> StepView {
        self@
    }
}

/// An ordered list of steps with what surrounds it.
#[derive(Debug)]
pub struct Plan {
    /// A file that must exist before anything is changed; without it the run
    /// fails at once.
    pub marker: Option<String>,
    /// Shown when the run gets under way.
    pub banner: Vec<String>,
    /// The steps, in the order in which they are taken.
    pub steps: Vec<Step>,
    /// Shown when every step is skipped or done.
    pub summary: Vec<String>,
}

/// The characters of a [`Plan`].
#[verifier::ext_equal]
pub struct PlanView {
    pub marker: Option<Seq<char>>,
    pub banner: Seq<Seq<char>>,
    pub steps: Seq<StepView>,
    pub summary: Seq<Seq<char>>,
}

impl View for Plan {
    type V = PlanView;

    open spec fn view(&self) -> PlanView {
        PlanView {
            marker: match self.marker {
                Some(path) => Some(path@),
                None => None,
            },
            banner: self.banner.deep_view(),
            steps: self.steps.deep_view(),
            summary: self.summary.deep_view(),
        }
    }
}

/// A step that starts a program in every run.
pub open spec fn run_always(name: Seq<char>, command: Seq<char>, args: Seq<Seq<char>>) -> StepView {
    StepView {
        name,
        guard: GuardView::Always,
        action: ActionView::Run { command, args },
        skip_message: Seq::empty(),
    }
}

/// A step that starts a program unless `path` exists.
pub open spec fn run_unless_exists(
    name: Seq<char>,
    path: Seq<char>,
    command: Seq<char>,
    args: Seq<Seq<char>>,
    skip_message: Seq<char>,
) -> StepView {
    StepView {
        name,
        guard: GuardView::UnlessExists(path),
        action: ActionView::Run { command, args },
        skip_message,
    }
}

/// A step that rewrites an artifact in every run.
pub open spec fn write_always(
    name: Seq<char>,
    artifact: ArtifactId,
    destination: Seq<char>,
    alternates: Seq<Seq<char>>,
) -> StepView {
    StepView {
        name,
        guard: GuardView::Always,
        action: ActionView::Write { artifact, destination, alternates },
        skip_message: Seq::empty(),
    }
}

/// The characters of each of `words`, in order.
pub open spec fn texts(words: Seq<&str>) -> Seq<Seq<char>> {
    Seq::new(words.len(), |i: int| words[i]@)
}

/// Owned copies of `words`.
pub fn owned(words: &[&str]) -> (list: Vec<String>)
    ensures
        list.deep_view() == texts(words@),
{
    let mut list: Vec<String> = Vec::new();
    let mut i: usize = 0;
    while i < words.len()
        invariant
            i <= words.len(),
            list.len() == i,
            forall|k: int| 0 <= k < i ==> list[k]@ == words[k]@,
        decreases words.len() - i,
    {
        list.push(String::from_str(words[i]));
        i += 1;
    }
    assert(list.deep_view() =~= texts(words@));
    list
}

impl Step {
    /// A step that starts `command` with `args` in every run.
    pub fn run_always(name: &str, command: &str, args: Vec<String>) -> (step: Step)
        ensures
            step@ == run_always(name@, command@, args.deep_view()),
    {
        Step {
            name: String::from_str(name),
            guard: Guard::Always,
            action: Action::Run { command: String::from_str(command), args },
            skip_message: String::new(),
        }
    }

    /// A step that starts `command` with `args` unless `path` exists, and
    /// shows `skip_message` where it does.
    pub fn run_unless_exists(
        name: &str,
        path: &str,
        command: &str,
        args: Vec<String>,
        skip_message: &str,
    ) -> (step: Step)
        ensures
            step@ == run_unless_exists(
                name@,
                path@,
                command@,
                args.deep_view(),
                skip_message@,
            ),
    {
        Step {
            name: String::from_str(name),
            guard: Guard::UnlessExists(String::from_str(path)),
            action: Action::Run { command: String::from_str(command), args },
            skip_message: String::from_str(skip_message),
        }
    }

    /// A step that rewrites `artifact` in every run, over the first of
    /// `destination` and `alternates` that exists, or else at `destination`.
    pub fn write_always(
        name: &str,
        artifact: ArtifactId,
        destination: &str,
        alternates: Vec<String>,
    ) -> (step: Step)
        ensures
            step@ == write_always(name@, artifact, destination@, alternates.deep_view()),
    {
        Step {
            name: String::from_str(name),
            guard: Guard::Always,
            action: Action::Write {
                artifact,
                destination: String::from_str(destination),
                alternates,
            },
            skip_message: String::new(),
        }
    }
}

/// The file whose presence marks a frontend project.
pub const PROJECT_MARKER: &'static str = "package.json";

/// The root of the native application's scaffold.
pub const SCAFFOLD_ROOT: &'static str = "src-tauri";

/// The directory of the mobile platform inside the scaffold.
pub const PLATFORM_ROOT: &'static str = "src-tauri/gen/apple";

/// Where the native configuration lies inside the scaffold.
pub const NATIVE_CONFIG_PATH: &'static str = "src-tauri/tauri.conf.json";

/// The device that the simulator shows.
pub const SIMULATOR_DEVICE: &'static str = "iPhone 15 Pro";

/// The arguments that set up the scaffold for a context.
pub open spec fn scaffold_args(ctx: ContextView) -> Seq<Seq<char>> {
    seq![
        "tauri"@,
        "init"@,
        "--ci"@,
        "--app-name"@,
        ctx.name,
        "--frontend-dist"@,
        "../out"@,
        "--dev-url"@,
        ctx.dev_url,
    ]
}

/// The steps that bootstrap a project, in order: rewrite the static-export
/// configuration; install the native toolchain; install the two client
/// libraries; set up the scaffold unless it is there; set up the mobile
/// platform unless it is there; rewrite the native configuration; reinstall
/// the frontend's dependencies; build the release for the mobile platform.
pub open spec fn bootstrap_steps(ctx: ContextView) -> Seq<StepView> {
    seq![
        write_always(
            "static-export"@,
            ArtifactId::StaticExport,
            "next.config.ts"@,
            seq!["next.config.js"@],
        ),
        run_always(
            "toolchain"@,
            "cargo"@,
            seq!["install"@, "tauri-cli"@, "--version"@, "^2.0.0-beta"@],
        ),
        run_always("client-api"@, "npm"@, seq!["install"@, "@tauri-apps/api"@, "--save"@]),
        run_always("client-cli"@, "npm"@, seq!["install"@, "@tauri-apps/cli"@, "--save-dev"@]),
        run_unless_exists(
            "scaffold"@,
            SCAFFOLD_ROOT@,
            "cargo"@,
            scaffold_args(ctx),
            "Debug: src-tauri already exists, skipping initialization"@,
        ),
        run_unless_exists(
            "platform"@,
            PLATFORM_ROOT@,
            "cargo"@,
            seq!["tauri"@, "ios"@, "init"@],
            "Debug: iOS support already initialized, skipping ios init"@,
        ),
        write_always(
            "native-config"@,
            ArtifactId::NativeConfig,
            NATIVE_CONFIG_PATH@,
            Seq::empty(),
        ),
        run_always("dependencies"@, "npm"@, seq!["install"@]),
        run_always("release-build"@, "cargo"@, seq!["tauri"@, "ios"@, "build"@]),
    ]
}

/// The plan that bootstraps a project: it asks for the project marker, then
/// takes [`bootstrap_steps`], and ends with where to find the built package.
///
/// The plan leaves the package manifest alone: it asks whether the manifest
/// exists and never changes it. The development command that the summary
/// names needs a `tauri` script in the manifest; where it is missing,
/// [`crate::manifest::register_script`] gives the text that holds it.
pub open spec fn bootstrap_plan(ctx: ContextView) -> PlanView {
    PlanView {
        marker: Some(PROJECT_MARKER@),
        banner: seq!["Bootstrapping Tauri v2 with iOS support..."@],
        steps: bootstrap_steps(ctx),
        summary: seq![
            "Tauri v2 with iOS bootstrapped successfully!"@,
            "To run:"@,
            "  npm run tauri dev  # For development"@,
            "  Check src-tauri/gen/apple/build/arm64/[your-app-name].ipa for the .ipa"@,
        ],
    }
}

/// The plan that shows the state of version control: one program, no marker.
pub open spec fn status_plan() -> PlanView {
    PlanView {
        marker: None,
        banner: Seq::empty(),
        steps: seq![run_always("status"@, "git"@, seq!["status"@])],
        summary: Seq::empty(),
    }
}

/// The plan that starts the application in the device simulator.
pub open spec fn simulator_plan() -> PlanView {
    PlanView {
        marker: None,
        banner: seq!["Let's start the simulation for you as well"@],
        steps: seq![
            run_always(
                "simulator"@,
                "cargo"@,
                seq!["tauri"@, "ios"@, "dev"@, SIMULATOR_DEVICE@],
            ),
        ],
        summary: seq![
            "Tauri v2 with iOS bootstrapped and Simulator started successfully!"@,
            "Check the Simulator for your app running on iPhone 15 Pro"@,
        ],
    }
}

/// The plan that does nothing.
pub open spec fn idle_plan() -> PlanView {
    PlanView {
        marker: None,
        banner: Seq::empty(),
        steps: Seq::empty(),
        summary: Seq::empty(),
    }
}

impl Plan {
    /// The plan that bootstraps the project of `ctx`. It leaves the package
    /// manifest alone, see [`bootstrap_plan`].
    pub fn bootstrap(ctx: &ProjectContext) -> (plan: Plan)
        ensures
            plan@ == bootstrap_plan(ctx@),
    {
        let scaffold = owned(
            &[
                "tauri",
                "init",
                "--ci",
                "--app-name",
                ctx.name.as_str(),
                "--frontend-dist",
                "../out",
                "--dev-url",
                ctx.dev_url.as_str(),
            ],
        );
        let mut steps: Vec<Step> = Vec::new();
        steps.push(
            Step::write_always(
                "static-export",
                ArtifactId::StaticExport,
                "next.config.ts",
                owned(&["next.config.js"]),
            ),
        );
        steps.push(
            Step::run_always(
                "toolchain",
                "cargo",
                owned(&["install", "tauri-cli", "--version", "^2.0.0-beta"]),
            ),
        );
        steps.push(
            Step::run_always("client-api", "npm", owned(&["install", "@tauri-apps/api", "--save"])),
        );
        steps.push(
            Step::run_always(
                "client-cli",
                "npm",
                owned(&["install", "@tauri-apps/cli", "--save-dev"]),
            ),
        );
        steps.push(
            Step::run_unless_exists(
                "scaffold",
                SCAFFOLD_ROOT,
                "cargo",
                scaffold,
                "Debug: src-tauri already exists, skipping initialization",
            ),
        );
        steps.push(
            Step::run_unless_exists(
                "platform",
                PLATFORM_ROOT,
                "cargo",
                owned(&["tauri", "ios", "init"]),
                "Debug: iOS support already initialized, skipping ios init",
            ),
        );
        steps.push(
            Step::write_always(
                "native-config",
                ArtifactId::NativeConfig,
                NATIVE_CONFIG_PATH,
                owned(&[]),
            ),
        );
        steps.push(Step::run_always("dependencies", "npm", owned(&["install"])));
        steps.push(Step::run_always("release-build", "cargo", owned(&["tauri", "ios", "build"])));
        assert(steps.deep_view() =~~= bootstrap_steps(ctx@));

        Plan {
            marker: Some(String::from_str(PROJECT_MARKER)),
            banner: owned(&["Bootstrapping Tauri v2 with iOS support..."]),
            steps,
            summary: owned(
                &[
                    "Tauri v2 with iOS bootstrapped successfully!",
                    "To run:",
                    "  npm run tauri dev  # For development",
                    "  Check src-tauri/gen/apple/build/arm64/[your-app-name].ipa for the .ipa",
                ],
            ),
        }
    }

    /// The plan that shows the state of version control.
    pub fn status() -> (plan: Plan)
        ensures
            plan@ == status_plan(),
    {
        let mut steps: Vec<Step> = Vec::new();
        steps.push(Step::run_always("status", "git", owned(&["status"])));
        assert(steps.deep_view() =~~= status_plan().steps);
        Plan { marker: None, banner: owned(&[]), steps, summary: owned(&[]) }
    }

    /// The plan that starts the application in the device simulator.
    pub fn simulator() -> (plan: Plan)
        ensures
            plan@ == simulator_plan(),
    {
        let mut steps: Vec<Step> = Vec::new();
        steps.push(
            Step::run_always(
                "simulator",
                "cargo",
                owned(&["tauri", "ios", "dev", SIMULATOR_DEVICE]),
            ),
        );
        assert(steps.deep_view() =~~= simulator_plan().steps);
        Plan {
            marker: None,
            banner: owned(&["Let's start the simulation for you as well"]),
            steps,
            summary: owned(
                &[
                    "Tauri v2 with iOS bootstrapped and Simulator started successfully!",
                    "Check the Simulator for your app running on iPhone 15 Pro",
                ],
            ),
        }
    }

    /// The plan that does nothing.
    pub fn idle() -> (plan: Plan)
        ensures
            plan@ == idle_plan(),
    {
        let steps: Vec<Step> = Vec::new();
        assert(steps.deep_view() =~~= idle_plan().steps);
        Plan { marker: None, banner: owned(&[]), steps, summary: owned(&[]) }
    }
}

} // verus!
