//! The command surface and the process orchestrator's decisions: one
//! compiled plan and one action per top-level command, the uniform
//! coverage/standard-library conflict check, and the invocation state
//! machine.

use vstd::prelude::*;

use crate::options::{BuildOptions, FuzzDirWrapper};
use crate::plan::render_build_spec;

verus! {

/// Why an invocation fails before or after its subprocess runs.
#[derive(Copy, Clone, Debug, Eq, PartialEq, Structural)]
pub enum OrchestrationError {
    /// Mutually exclusive build toggles were both set.
    ConfigurationConflict,
    /// No fuzz workspace could be resolved.
    WorkspaceNotFound,
    /// The requested target is not declared in the workspace.
    UnknownTarget,
    /// The spawned toolchain or engine failed; the event holds the exit
    /// code or signal verbatim.
    SubprocessFailure(OrchestratorEvent),
}

/// Initialize the fuzz directory.
#[derive(Clone, Debug, Eq, PartialEq)]
pub struct Init {
    /// Name of the first fuzz target to create.
    pub target: String,
    /// Whether to create a separate workspace for the fuzz targets crate.
    pub fuzzing_workspace: Option<bool>,
    /// Workspace path override.
    pub fuzz_dir_wrapper: FuzzDirWrapper,
}

/// Add a new fuzz target.
#[derive(Clone, Debug, Eq, PartialEq)]
pub struct Add {
    /// Workspace path override.
    pub fuzz_dir_wrapper: FuzzDirWrapper,
    /// Name of the new fuzz target.
    pub target: String,
}

/// Build fuzz targets.
#[derive(Clone, Debug, Eq, PartialEq)]
pub struct Build {
    /// Build options for the toolchain plan.
    pub build: BuildOptions,
    /// Workspace path override.
    pub fuzz_dir_wrapper: FuzzDirWrapper,
    /// Name of the fuzz target to build, or all targets if absent.
    pub target: Option<String>,
}

/// Type-check the fuzz targets.
#[derive(Clone, Debug, Eq, PartialEq)]
pub struct Check {
    /// Build options for the toolchain plan.
    pub build: BuildOptions,
    /// Workspace path override.
    pub fuzz_dir_wrapper: FuzzDirWrapper,
    /// Name of the fuzz target to check, or all targets if absent.
    pub target: Option<String>,
}

/// Print the debug output for an input.
#[derive(Clone, Debug, Eq, PartialEq)]
pub struct Fmt {
    /// Build options for the toolchain plan.
    pub build: BuildOptions,
    /// Workspace path override.
    pub fuzz_dir_wrapper: FuzzDirWrapper,
    /// Name of the fuzz target.
    pub target: String,
    /// Path to the input testcase to debug print.
    pub input: String,
}

/// List all existing fuzz targets.
#[derive(Clone, Debug, Eq, PartialEq)]
pub struct List {
    /// Workspace path override.
    pub fuzz_dir_wrapper: FuzzDirWrapper,
}

/// Run a fuzz target.
#[derive(Clone, Debug, Eq, PartialEq)]
pub struct Run {
    /// Build options for the toolchain plan.
    pub build: BuildOptions,
    /// Name of the fuzz target.
    pub target: String,
    /// Custom corpus directories or artifact files.
    pub corpus: Vec<String>,
    /// Workspace path override.
    pub fuzz_dir_wrapper: FuzzDirWrapper,
    /// Number of concurrent jobs, forwarded to the engine.
    pub jobs: u16,
    /// Additional engine arguments passed through to the binary.
    pub args: Vec<String>,
}

/// Minify a corpus.
#[derive(Clone, Debug, Eq, PartialEq)]
pub struct Cmin {
    /// Build options for the toolchain plan.
    pub build: BuildOptions,
    /// Workspace path override.
    pub fuzz_dir_wrapper: FuzzDirWrapper,
    /// Name of the fuzz target.
    pub target: String,
    /// The corpus directory to minify into.
    pub corpus: Option<String>,
    /// Additional engine arguments passed through to the binary.
    pub args: Vec<String>,
}

/// Minify a test case.
#[derive(Clone, Debug, Eq, PartialEq)]
pub struct Tmin {
    /// Build options for the toolchain plan.
    pub build: BuildOptions,
    /// Workspace path override.
    pub fuzz_dir_wrapper: FuzzDirWrapper,
    /// Name of the fuzz target.
    pub target: String,
    /// Number of minimization attempts to perform.
    pub runs: u32,
    /// Path to the failing test case to be minimized.
    pub test_case: String,
    /// Additional engine arguments passed through to the binary.
    pub args: Vec<String>,
}

/// Run the target over the corpus and extract coverage information.
#[derive(Clone, Debug, Eq, PartialEq)]
pub struct Coverage {
    /// Build options for the toolchain plan.
    pub build: BuildOptions,
    /// Workspace path override.
    pub fuzz_dir_wrapper: FuzzDirWrapper,
    /// Path to the LLVM bin directory, if overridden.
    pub llvm_path: Option<String>,
    /// Name of the fuzz target.
    pub target: String,
    /// Custom corpus directories or artifact files.
    pub corpus: Vec<String>,
    /// Additional engine arguments passed through to the binary.
    pub args: Vec<String>,
}

/// A top-level command of the fuzzing harness manager.
#[derive(Clone, Debug, Eq, PartialEq)]
pub enum Fuzz {
    /// Initialize the fuzz directory.
    Init(Init),
    /// Add a new fuzz target.
    Add(Add),
    /// Build fuzz targets.
    Build(Build),
    /// Type-check the fuzz targets.
    Check(Check),
    /// Print the debug output for an input.
    Fmt(Fmt),
    /// List all existing fuzz targets.
    List(List),
    /// Run a fuzz target.
    Run(Run),
    /// Minify a corpus.
    Cmin(Cmin),
    /// Minify a test case.
    Tmin(Tmin),
    /// Run over the corpus and extract coverage information.
    Coverage(Coverage),
}

/// Compiles the toolchain plan of a build option record, rejecting the
/// coverage/standard-library conflict before any subprocess could run.
/// Fails exactly when both toggles are set, and then with
/// [`OrchestrationError::ConfigurationConflict`].
pub fn compile_plan(b: &BuildOptions, host_triple: &str) -> (r: Result<
    Vec<String>,
    OrchestrationError,
>)
    ensures
        r is Err <==> (b@.cargo_options.coverage && b@.cargo_options.build_std),
        r matches Result::Err(e) ==> e == OrchestrationError::ConfigurationConflict,
        r matches Result::Ok(v) ==> v.deep_view() == render_build_spec(b@, host_triple@),
{
    if b.cargo_options.coverage && b.cargo_options.build_std {
        Result::Err(OrchestrationError::ConfigurationConflict)
    } else {
        Result::Ok(b.render_tokens(host_triple))
    }
}

impl Fuzz {
    /// The build options a command carries, if any.
    pub open spec fn build_options_spec(self) -> Option<BuildOptions> {
        match self {
            Fuzz::Build(x) => Option::Some(x.build),
            Fuzz::Check(x) => Option::Some(x.build),
            Fuzz::Fmt(x) => Option::Some(x.build),
            Fuzz::Run(x) => Option::Some(x.build),
            Fuzz::Cmin(x) => Option::Some(x.build),
            Fuzz::Tmin(x) => Option::Some(x.build),
            Fuzz::Coverage(x) => Option::Some(x.build),
            _ => Option::None,
        }
    }

    /// Whether this command's effective configuration carries the
    /// coverage/standard-library conflict. The coverage command forces the
    /// coverage toggle on before compiling, so for it the conflict is
    /// standard-library rebuild alone.
    pub open spec fn has_conflict(self) -> bool {
        match self {
            Fuzz::Coverage(x) => x.build@.cargo_options.build_std,
            _ => match self.build_options_spec() {
                Option::Some(b) => b@.cargo_options.coverage && b@.cargo_options.build_std,
                Option::None => false,
            },
        }
    }

    /// The build mode a command selects: verification only for the check
    /// command, artifact production for every other command that compiles
    /// a plan, nothing for the commands that spawn no toolchain.
    pub open spec fn mode_spec(self) -> Option<crate::options::BuildMode> {
        match self {
            Fuzz::Check(_) => Option::Some(crate::options::BuildMode::Check),
            Fuzz::Build(_) | Fuzz::Fmt(_) | Fuzz::Run(_) | Fuzz::Cmin(_) | Fuzz::Tmin(_)
                | Fuzz::Coverage(_) => Option::Some(crate::options::BuildMode::Build),
            _ => Option::None,
        }
    }

    /// The build mode of this command, as [`Fuzz::mode_spec`] gives it.
    pub fn mode(&self) -> (r: Option<crate::options::BuildMode>)
        ensures
            r == self.mode_spec(),
    {
        match self {
            Fuzz::Check(_) => Option::Some(crate::options::BuildMode::Check),
            Fuzz::Build(_) | Fuzz::Fmt(_) | Fuzz::Run(_) | Fuzz::Cmin(_) | Fuzz::Tmin(_)
                | Fuzz::Coverage(_) => Option::Some(crate::options::BuildMode::Build),
            _ => Option::None,
        }
    }

    /// Maps this command to its compiled toolchain plan: `None` for the
    /// commands that spawn no toolchain, the rendered token plan otherwise.
    /// Every plan-compiling command fails on the conflict, and only then.
    #[verifier::rlimit(100)]
    pub fn run_command(self, host_triple: &str) -> (r: Result<
        Option<Vec<String>>,
        OrchestrationError,
    >)
        ensures
            r is Err <==> self.has_conflict(),
            r matches Result::Err(e) ==> e == OrchestrationError::ConfigurationConflict,
            r matches Result::Ok(p) ==> match self.build_options_spec() {
                Option::Some(b) => p matches Option::Some(v) && (match self {
                    Fuzz::Coverage(_) => v.deep_view() == render_build_spec(
                        (crate::options::BuildConfigView {
                            cargo_options: (crate::options::CargoConfigView {
                                coverage: true,
                                ..b@.cargo_options
                            }),
                            ..b@
                        }),
                        host_triple@,
                    ),
                    _ => v.deep_view() == render_build_spec(b@, host_triple@),
                }),
                Option::None => p is None,
            },
    {
        match self {
            Fuzz::Init(_) => Result::Ok(Option::None),
            Fuzz::Add(_) => Result::Ok(Option::None),
            Fuzz::List(_) => Result::Ok(Option::None),
            Fuzz::Build(x) => match compile_plan(&x.build, host_triple) {
                Result::Ok(v) => Result::Ok(Option::Some(v)),
                Result::Err(e) => Result::Err(e),
            },
            Fuzz::Check(x) => match compile_plan(&x.build, host_triple) {
                Result::Ok(v) => Result::Ok(Option::Some(v)),
                Result::Err(e) => Result::Err(e),
            },
            Fuzz::Fmt(x) => match compile_plan(&x.build, host_triple) {
                Result::Ok(v) => Result::Ok(Option::Some(v)),
                Result::Err(e) => Result::Err(e),
            },
            Fuzz::Run(x) => match compile_plan(&x.build, host_triple) {
                Result::Ok(v) => Result::Ok(Option::Some(v)),
                Result::Err(e) => Result::Err(e),
            },
            Fuzz::Cmin(x) => match compile_plan(&x.build, host_triple) {
                Result::Ok(v) => Result::Ok(Option::Some(v)),
                Result::Err(e) => Result::Err(e),
            },
            Fuzz::Tmin(x) => match compile_plan(&x.build, host_triple) {
                Result::Ok(v) => Result::Ok(Option::Some(v)),
                Result::Err(e) => Result::Err(e),
            },
            Fuzz::Coverage(x) => {
                let mut b = x.build;
                b.cargo_options.coverage = true;
                match compile_plan(&b, host_triple) {
                    Result::Ok(v) => Result::Ok(Option::Some(v)),
                    Result::Err(e) => Result::Err(e),
                }
            },
        }
    }

    /// Executes this command's decision step: the single documented entry
    /// point, equal to [`Fuzz::run_command`].
    #[verifier::rlimit(100)]
    pub fn execute(self, host_triple: &str) -> (r: Result<
        Option<Vec<String>>,
        OrchestrationError,
    >)
        ensures
            r is Err <==> self.has_conflict(),
            r matches Result::Err(e) ==> e == OrchestrationError::ConfigurationConflict,
            r matches Result::Ok(p) ==> match self.build_options_spec() {
                Option::Some(b) => p matches Option::Some(v) && (match self {
                    Fuzz::Coverage(_) => v.deep_view() == render_build_spec(
                        (crate::options::BuildConfigView {
                            cargo_options: (crate::options::CargoConfigView {
                                coverage: true,
                                ..b@.cargo_options
                            }),
                            ..b@
                        }),
                        host_triple@,
                    ),
                    _ => v.deep_view() == render_build_spec(b@, host_triple@),
                }),
                Option::None => p is None,
            },
    {
        self.run_command(host_triple)
    }
}

/// What happened to the spawned subprocess.
#[derive(Copy, Clone, Debug, Eq, PartialEq, Structural)]
pub enum OrchestratorEvent {
    /// The plan compiled and validation passed.
    Compiled,
    /// The subprocess was spawned.
    Spawned,
    /// The subprocess exited with this code.
    Exited(i32),
    /// The subprocess was terminated by this signal.
    Signaled(i32),
}

/// The orchestrator's progress through one invocation.
#[derive(Copy, Clone, Debug, Eq, PartialEq, Structural)]
pub enum OrchestratorState {
    /// Nothing has happened yet.
    Idle,
    /// A plan was compiled and validated.
    PlanCompiled,
    /// The subprocess is running.
    Invoked,
    /// The subprocess exited successfully.
    Succeeded,
    /// The subprocess failed; the event holds the exit code or signal.
    Failed(OrchestratorEvent),
}

impl OrchestratorState {
    /// The transition function of the invocation state machine.
    pub open spec fn next_spec(self, ev: OrchestratorEvent) -> OrchestratorState {
        match (self, ev) {
            (OrchestratorState::Idle, OrchestratorEvent::Compiled) =>
                OrchestratorState::PlanCompiled,
            (OrchestratorState::PlanCompiled, OrchestratorEvent::Spawned) =>
                OrchestratorState::Invoked,
            (OrchestratorState::Invoked, OrchestratorEvent::Exited(c)) => {
                if c == 0 {
                    OrchestratorState::Succeeded
                } else {
                    OrchestratorState::Failed(OrchestratorEvent::Exited(c))
                }
            },
            (OrchestratorState::Invoked, OrchestratorEvent::Signaled(s)) =>
                OrchestratorState::Failed(OrchestratorEvent::Signaled(s)),
            _ => self,
        }
    }

    /// Advances the state machine by one event. An invoked run ends in
    /// `Succeeded` exactly on exit code zero, and in `Failed` otherwise;
    /// any event out of order leaves the state unchanged.
    pub fn advance(self, ev: OrchestratorEvent) -> (r: OrchestratorState)
        ensures
            r == self.next_spec(ev),
    {
        match (self, ev) {
            (OrchestratorState::Idle, OrchestratorEvent::Compiled) =>
                OrchestratorState::PlanCompiled,
            (OrchestratorState::PlanCompiled, OrchestratorEvent::Spawned) =>
                OrchestratorState::Invoked,
            (OrchestratorState::Invoked, OrchestratorEvent::Exited(c)) => {
                if c == 0 {
                    OrchestratorState::Succeeded
                } else {
                    OrchestratorState::Failed(OrchestratorEvent::Exited(c))
                }
            },
            (OrchestratorState::Invoked, OrchestratorEvent::Signaled(s)) =>
                OrchestratorState::Failed(OrchestratorEvent::Signaled(s)),
            _ => self,
        }
    }

    /// The result a finished invocation reports: success on a zero exit,
    /// otherwise the exit code or signal, propagated verbatim and never
    /// retried. A machine that has not finished reports nothing.
    pub fn outcome(self) -> (r: Option<Result<(), OrchestrationError>>)
        ensures
            self is Succeeded ==> r == Option::Some(Result::Ok::<(), OrchestrationError>(())),
            self matches OrchestratorState::Failed(ev) ==> r == Option::Some(Result::Err::<
                (),
                OrchestrationError,
            >(OrchestrationError::SubprocessFailure(ev))),
            !(self is Succeeded || self is Failed) ==> r is None,
    {
        match self {
            OrchestratorState::Succeeded => Option::Some(Result::Ok(())),
            OrchestratorState::Failed(ev) => Option::Some(
                Result::Err(OrchestrationError::SubprocessFailure(ev)),
            ),
            _ => Option::None,
        }
    }
}

} // verus!
