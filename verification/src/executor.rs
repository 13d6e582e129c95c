//! The build executor: for each kind of build system the runs that build a
//! project, one step at a time. The caller makes each run and reports how it
//! ended; the executor says what comes next.

use crate::command::{Exit, Invocation, InvocationView};
use crate::kind::BuildKind;
use crate::text::{join_path, join_texts, opt_text, path_join, texts};
use vstd::prelude::*;

verus! {

/// What is built: a project of some kind in a workspace, with the flags
/// handed to its build. A Make project also names its makefile.
pub struct BuildJob {
    pub kind: BuildKind,
    pub dir: String,
    pub makefile: Option<String>,
    pub flags: Vec<String>,
}

/// A build job as plain texts.
pub struct BuildJobView {
    pub kind: BuildKind,
    pub dir: Seq<char>,
    pub makefile: Option<Seq<char>>,
    pub flags: Seq<Seq<char>>,
}

impl View for BuildJob {
    type V = BuildJobView;

    open spec fn view(&self) -> BuildJobView {
        BuildJobView {
            kind: self.kind,
            dir: self.dir@,
            makefile: opt_text(self.makefile),
            flags: texts(self.flags@),
        }
    }
}

/// How far a build has come.
#[derive(Clone, Copy, Debug, PartialEq, Eq, Structural)]
pub enum BuildPhase {
    /// Nothing was done yet.
    Start,
    /// The build directory is being made.
    Preparing,
    /// The project is being configured.
    Configuring,
    /// The project is being configured a second time, in another form.
    Retrying,
    /// The last run of the build is under way.
    Building,
    /// The build is over.
    Done,
}

/// What the caller reports.
#[derive(Clone, Copy, Debug, PartialEq, Eq, Structural)]
pub enum BuildEvent {
    /// The build may begin.
    Begin,
    /// The directory asked for is there.
    DirCreated,
    /// The run asked for ended.
    Exited(Exit),
}

/// How a build ended.
#[derive(Clone, Copy, Debug, PartialEq, Eq, Structural)]
pub enum BuildVerdict {
    /// The project is built.
    Built,
    /// Configuring failed, and nothing was built.
    ConfigureFailed,
    /// The build failed.
    BuildFailed,
    /// A program of the build could not be started.
    Unavailable,
}

/// What the caller is asked to do next.
pub enum BuildAction {
    /// Make this directory, with its parents.
    CreateDir(String),
    /// Make this run.
    Run(Invocation),
    /// Stop: the build ended so.
    Finish(BuildVerdict),
}

/// An action as plain texts.
pub enum BuildActionView {
    CreateDir(Seq<char>),
    Run(InvocationView),
    Finish(BuildVerdict),
}

impl View for BuildAction {
    type V = BuildActionView;

    open spec fn view(&self) -> BuildActionView {
        match self {
            BuildAction::CreateDir(d) => BuildActionView::CreateDir(d@),
            BuildAction::Run(r) => BuildActionView::Run(r@),
            BuildAction::Finish(v) => BuildActionView::Finish(*v),
        }
    }
}

/// A step of a build: the phase it leads to and the action asked for.
pub struct BuildStep {
    pub phase: BuildPhase,
    pub action: BuildAction,
}

/// A step as plain texts.
pub struct BuildStepView {
    pub phase: BuildPhase,
    pub action: BuildActionView,
}

impl View for BuildStep {
    type V = BuildStepView;

    open spec fn view(&self) -> BuildStepView {
        BuildStepView { phase: self.phase, action: self.action@ }
    }
}

/// The view of a step that may be missing.
pub open spec fn opt_step(s: Option<BuildStep>) -> Option<BuildStepView> {
    match s {
        Some(s) => Some(s@),
        None => None,
    }
}

/// A run of `program` in `dir` whose arguments are `head`, then `flags`,
/// then `tail`.
pub open spec fn run_in(
    program: Seq<char>,
    head: Seq<Seq<char>>,
    flags: Seq<Seq<char>>,
    tail: Seq<Seq<char>>,
    dir: Option<Seq<char>>,
    quiet: bool,
) -> InvocationView {
    InvocationView { program, args: head + flags + tail, dir, quiet }
}

/// The build directory of out-of-tree builds.
pub open spec fn out_dir(job: BuildJobView) -> Seq<char> {
    path_join(job.dir, "build"@)
}

/// The makefile of a Make project: the one that was found, and `Makefile`
/// where none was.
pub open spec fn makefile_of(job: BuildJobView) -> Seq<char> {
    match job.makefile {
        Some(m) => m,
        None => "Makefile"@,
    }
}

/// The first run of a build that needs no build directory.
pub open spec fn first_run(job: BuildJobView) -> InvocationView {
    let here = Some(job.dir);
    match job.kind {
        BuildKind::Make => run_in(
            "make"@,
            seq!["-f"@, makefile_of(job)],
            job.flags,
            seq![],
            here,
            true,
        ),
        BuildKind::Autotools => run_in("./configure"@, seq![], job.flags, seq![], here, false),
        BuildKind::Cargo => run_in(
            "cargo"@,
            seq!["build"@, "--release"@],
            job.flags,
            seq![
                "--manifest-path"@,
                path_join(job.dir, "Cargo.toml"@),
                "--target-dir"@,
                path_join(job.dir, "target"@),
            ],
            here,
            true,
        ),
        BuildKind::Ninja => run_in("ninja"@, seq![], job.flags, seq![], here, true),
        BuildKind::Nimble => run_in("nimble"@, seq!["build"@], job.flags, seq![], here, true),
        _ => run_in(
            "stack"@,
            seq!["install"@],
            job.flags,
            seq!["--local-bin-path"@, path_join(job.dir, "bin"@)],
            here,
            true,
        ),
    }
}

/// The run that configures an out-of-tree build: CMake for a release build,
/// Meson by its `setup` command.
pub open spec fn configure_run(job: BuildJobView) -> InvocationView {
    if job.kind == BuildKind::Cmake {
        run_in(
            "cmake"@,
            seq!["-DCMAKE_BUILD_TYPE=Release"@],
            job.flags,
            seq![".."@],
            Some(out_dir(job)),
            true,
        )
    } else {
        run_in("meson"@, seq!["setup"@], job.flags, seq![out_dir(job)], Some(job.dir), true)
    }
}

/// The run that configures an out-of-tree build once more after the first
/// form failed: CMake without a build type, Meson in its old form without
/// a command and without flags.
pub open spec fn retry_run(job: BuildJobView) -> InvocationView {
    if job.kind == BuildKind::Cmake {
        run_in("cmake"@, seq![], job.flags, seq![".."@], Some(out_dir(job)), true)
    } else {
        run_in("meson"@, seq![], seq![], seq![out_dir(job)], Some(job.dir), true)
    }
}

/// The run that builds what was configured: `make` for Autotools, Ninja on
/// the build directory for Meson.
pub open spec fn compile_run(job: BuildJobView) -> InvocationView {
    if job.kind == BuildKind::Autotools {
        run_in("make"@, seq![], seq![], seq![], Some(job.dir), true)
    } else {
        run_in("ninja"@, seq!["-C"@, out_dir(job)], seq![], seq![], None, true)
    }
}

/// The end of a build whose last run ended with `e`.
pub open spec fn verdict_of(e: Exit) -> BuildVerdict {
    match e {
        Exit::Success => BuildVerdict::Built,
        Exit::Failure => BuildVerdict::BuildFailed,
        Exit::Unavailable => BuildVerdict::Unavailable,
    }
}

/// A step that ends the build.
pub open spec fn finish(v: BuildVerdict) -> Option<BuildStepView> {
    Some(BuildStepView { phase: BuildPhase::Done, action: BuildActionView::Finish(v) })
}

/// A step that asks for a run.
pub open spec fn go(phase: BuildPhase, run: InvocationView) -> Option<BuildStepView> {
    Some(BuildStepView { phase, action: BuildActionView::Run(run) })
}

/// The step that follows when a build of `job` in `phase` is told `event`;
/// none where the event does not belong to the phase.
///
/// Make, Cargo, Ninja, Nimble and Stack builds are one run. An Autotools
/// build configures and, only if that succeeded, runs `make`. CMake and
/// Meson builds make a build directory and configure into it; where that
/// fails they configure once more in another form. For CMake the outcome of
/// configuring is the outcome of the build; Meson goes on to run Ninja,
/// whatever the second attempt gave. The outcome of the last run decides.
pub open spec fn build_step_of(job: BuildJobView, phase: BuildPhase, event: BuildEvent) -> Option<
    BuildStepView,
> {
    let two_stage = job.kind == BuildKind::Cmake || job.kind == BuildKind::Meson;
    match (phase, event) {
        (BuildPhase::Start, BuildEvent::Begin) => if two_stage {
            Some(
                BuildStepView {
                    phase: BuildPhase::Preparing,
                    action: BuildActionView::CreateDir(out_dir(job)),
                },
            )
        } else if job.kind == BuildKind::Autotools {
            go(BuildPhase::Configuring, first_run(job))
        } else {
            go(BuildPhase::Building, first_run(job))
        },
        (BuildPhase::Preparing, BuildEvent::DirCreated) => if two_stage {
            go(BuildPhase::Configuring, configure_run(job))
        } else {
            None
        },
        (BuildPhase::Configuring, BuildEvent::Exited(e)) => if job.kind == BuildKind::Autotools {
            match e {
                Exit::Success => go(BuildPhase::Building, compile_run(job)),
                Exit::Failure => finish(BuildVerdict::ConfigureFailed),
                Exit::Unavailable => finish(BuildVerdict::Unavailable),
            }
        } else if job.kind == BuildKind::Cmake {
            match e {
                Exit::Success => finish(BuildVerdict::Built),
                _ => go(BuildPhase::Retrying, retry_run(job)),
            }
        } else if job.kind == BuildKind::Meson {
            match e {
                Exit::Success => go(BuildPhase::Building, compile_run(job)),
                _ => go(BuildPhase::Retrying, retry_run(job)),
            }
        } else {
            None
        },
        (BuildPhase::Retrying, BuildEvent::Exited(e)) => if job.kind == BuildKind::Cmake {
            finish(verdict_of(e))
        } else if job.kind == BuildKind::Meson {
            match e {
                Exit::Unavailable => finish(BuildVerdict::Unavailable),
                _ => go(BuildPhase::Building, compile_run(job)),
            }
        } else {
            None
        },
        (BuildPhase::Building, BuildEvent::Exited(e)) => if job.kind == BuildKind::Cmake {
            None
        } else {
            finish(verdict_of(e))
        },
        _ => None,
    }
}

/// Two texts in a row.
fn pair(a: &str, b: &str) -> (r: Vec<String>)
    ensures
        texts(r@) == seq![a@, b@],
{
    let mut out: Vec<String> = Vec::new();
    out.push(a.to_owned());
    out.push(b.to_owned());
    assert(texts(out@) =~= seq![a@, b@]);
    out
}

/// A list of one text.
fn single(a: &str) -> (r: Vec<String>)
    ensures
        texts(r@) == seq![a@],
{
    let mut out: Vec<String> = Vec::new();
    out.push(a.to_owned());
    assert(texts(out@) =~= seq![a@]);
    out
}

/// A list of no text.
fn nothing() -> (r: Vec<String>)
    ensures
        texts(r@) == Seq::<Seq<char>>::empty(),
{
    let out: Vec<String> = Vec::new();
    assert(texts(out@) =~= Seq::<Seq<char>>::empty());
    out
}

/// Puts a run together.
fn run(
    program: &str,
    head: Vec<String>,
    flags: &Vec<String>,
    tail: &Vec<String>,
    dir: Option<String>,
    quiet: bool,
) -> (r: Invocation)
    ensures
        r@ == run_in(program@, texts(head@), texts(flags@), texts(tail@), opt_text(dir), quiet),
{
    let args = join_texts(join_texts(head, flags), tail);
    Invocation { program: program.to_owned(), args, dir, quiet }
}

impl BuildJob {
    /// The build directory of out-of-tree builds.
    fn out_dir(&self) -> (r: String)
        ensures
            r@ == out_dir(self@),
    {
        join_path(self.dir.as_str(), "build")
    }

    /// The first run of a build that needs no build directory.
    fn first_run(&self) -> (r: Invocation)
        ensures
            r@ == first_run(self@),
    {
        let here = Some(self.dir.clone());
        match self.kind {
            BuildKind::Make => {
                let makefile = match &self.makefile {
                    Some(m) => m.clone(),
                    None => "Makefile".to_owned(),
                };
                run("make", pair("-f", makefile.as_str()), &self.flags, &nothing(), here, true)
            },
            BuildKind::Autotools => run(
                "./configure",
                nothing(),
                &self.flags,
                &nothing(),
                here,
                false,
            ),
            BuildKind::Cargo => {
                let mut tail = pair(
                    "--manifest-path",
                    join_path(self.dir.as_str(), "Cargo.toml").as_str(),
                );
                let ghost before = texts(tail@);
                tail.push("--target-dir".to_owned());
                assert(texts(tail@) =~= before.push("--target-dir"@));
                tail.push(join_path(self.dir.as_str(), "target"));
                assert(texts(tail@) =~= before.push("--target-dir"@).push(
                    path_join(self.dir@, "target"@),
                ));
                assert(texts(tail@) =~= seq![
                    "--manifest-path"@,
                    path_join(self.dir@, "Cargo.toml"@),
                    "--target-dir"@,
                    path_join(self.dir@, "target"@),
                ]);
                run("cargo", pair("build", "--release"), &self.flags, &tail, here, true)
            },
            BuildKind::Ninja => run("ninja", nothing(), &self.flags, &nothing(), here, true),
            BuildKind::Nimble => run("nimble", single("build"), &self.flags, &nothing(), here, true),
            _ => run(
                "stack",
                single("install"),
                &self.flags,
                &pair("--local-bin-path", join_path(self.dir.as_str(), "bin").as_str()),
                here,
                true,
            ),
        }
    }

    /// The run that configures an out-of-tree build.
    fn configure_run(&self) -> (r: Invocation)
        ensures
            r@ == configure_run(self@),
    {
        match self.kind {
            BuildKind::Cmake => run(
                "cmake",
                single("-DCMAKE_BUILD_TYPE=Release"),
                &self.flags,
                &single(".."),
                Some(self.out_dir()),
                true,
            ),
            _ => run(
                "meson",
                single("setup"),
                &self.flags,
                &single(self.out_dir().as_str()),
                Some(self.dir.clone()),
                true,
            ),
        }
    }

    /// The run that configures an out-of-tree build once more.
    fn retry_run(&self) -> (r: Invocation)
        ensures
            r@ == retry_run(self@),
    {
        match self.kind {
            BuildKind::Cmake => run(
                "cmake",
                nothing(),
                &self.flags,
                &single(".."),
                Some(self.out_dir()),
                true,
            ),
            _ => run(
                "meson",
                nothing(),
                &nothing(),
                &single(self.out_dir().as_str()),
                Some(self.dir.clone()),
                true,
            ),
        }
    }

    /// The run that builds what was configured.
    fn compile_run(&self) -> (r: Invocation)
        ensures
            r@ == compile_run(self@),
    {
        match self.kind {
            BuildKind::Autotools => run(
                "make",
                nothing(),
                &nothing(),
                &nothing(),
                Some(self.dir.clone()),
                true,
            ),
            _ => run(
                "ninja",
                pair("-C", self.out_dir().as_str()),
                &nothing(),
                &nothing(),
                None,
                true,
            ),
        }
    }

    /// The step that follows when this build, in `phase`, is told `event`.
    pub fn step(&self, phase: BuildPhase, event: BuildEvent) -> (r: Option<BuildStep>)
        ensures
            opt_step(r) == build_step_of(self@, phase, event),
    {
        let two_stage = match self.kind {
            BuildKind::Cmake => true,
            BuildKind::Meson => true,
            _ => false,
        };
        let autotools = match self.kind {
            BuildKind::Autotools => true,
            _ => false,
        };
        let cmake = match self.kind {
            BuildKind::Cmake => true,
            _ => false,
        };
        match (phase, event) {
            (BuildPhase::Start, BuildEvent::Begin) => {
                if two_stage {
                    Some(
                        BuildStep {
                            phase: BuildPhase::Preparing,
                            action: BuildAction::CreateDir(self.out_dir()),
                        },
                    )
                } else if autotools {
                    Some(
                        BuildStep {
                            phase: BuildPhase::Configuring,
                            action: BuildAction::Run(self.first_run()),
                        },
                    )
                } else {
                    Some(
                        BuildStep {
                            phase: BuildPhase::Building,
                            action: BuildAction::Run(self.first_run()),
                        },
                    )
                }
            },
            (BuildPhase::Preparing, BuildEvent::DirCreated) => {
                if two_stage {
                    Some(
                        BuildStep {
                            phase: BuildPhase::Configuring,
                            action: BuildAction::Run(self.configure_run()),
                        },
                    )
                } else {
                    None
                }
            },
            (BuildPhase::Configuring, BuildEvent::Exited(e)) => {
                if autotools {
                    match e {
                        Exit::Success => Some(
                            BuildStep {
                                phase: BuildPhase::Building,
                                action: BuildAction::Run(self.compile_run()),
                            },
                        ),
                        Exit::Failure => Some(ended(BuildVerdict::ConfigureFailed)),
                        Exit::Unavailable => Some(ended(BuildVerdict::Unavailable)),
                    }
                } else if two_stage {
                    match e {
                        Exit::Success => {
                            if cmake {
                                Some(ended(BuildVerdict::Built))
                            } else {
                                Some(
                                    BuildStep {
                                        phase: BuildPhase::Building,
                                        action: BuildAction::Run(self.compile_run()),
                                    },
                                )
                            }
                        },
                        _ => Some(
                            BuildStep {
                                phase: BuildPhase::Retrying,
                                action: BuildAction::Run(self.retry_run()),
                            },
                        ),
                    }
                } else {
                    None
                }
            },
            (BuildPhase::Retrying, BuildEvent::Exited(e)) => {
                if cmake {
                    Some(ended(verdict(e)))
                } else if two_stage {
                    match e {
                        Exit::Unavailable => Some(ended(BuildVerdict::Unavailable)),
                        _ => Some(
                            BuildStep {
                                phase: BuildPhase::Building,
                                action: BuildAction::Run(self.compile_run()),
                            },
                        ),
                    }
                } else {
                    None
                }
            },
            (BuildPhase::Building, BuildEvent::Exited(e)) => {
                if cmake {
                    None
                } else {
                    Some(ended(verdict(e)))
                }
            },
            _ => None,
        }
    }
}

/// The end of a build whose last run ended with `e`.
pub fn verdict(e: Exit) -> (r: BuildVerdict)
    ensures
        r == verdict_of(e),
{
    match e {
        Exit::Success => BuildVerdict::Built,
        Exit::Failure => BuildVerdict::BuildFailed,
        Exit::Unavailable => BuildVerdict::Unavailable,
    }
}

/// The step that ends a build.
fn ended(v: BuildVerdict) -> (r: BuildStep)
    ensures
        Some(r@) == finish(v),
{
    BuildStep { phase: BuildPhase::Done, action: BuildAction::Finish(v) }
}

/// The place of a phase in the order in which phases are passed.
pub open spec fn phase_rank(p: BuildPhase) -> int {
    match p {
        BuildPhase::Start => 0,
        BuildPhase::Preparing => 1,
        BuildPhase::Configuring => 2,
        BuildPhase::Retrying => 3,
        BuildPhase::Building => 4,
        BuildPhase::Done => 5,
    }
}

/// Every step leads to a later phase: no phase is entered twice, so a
/// build configures at most twice, retries at most once, and ends after
/// at most five steps.
pub proof fn lemma_build_advances(job: BuildJobView, phase: BuildPhase, event: BuildEvent)
    ensures
        build_step_of(job, phase, event) matches Some(s) ==> phase_rank(s.phase) > phase_rank(
            phase,
        ),
{
}

/// A build is reported as built only after a run that succeeded, and a run
/// that fails in the last phase fails the build.
pub proof fn lemma_failure_is_fatal(job: BuildJobView, phase: BuildPhase, e: Exit)
    ensures
        build_step_of(job, phase, BuildEvent::Exited(e)) == finish(BuildVerdict::Built) ==> e
            == Exit::Success,
        e == Exit::Failure && job.kind != BuildKind::Cmake ==> build_step_of(
            job,
            BuildPhase::Building,
            BuildEvent::Exited(e),
        ) == finish(BuildVerdict::BuildFailed),
        e == Exit::Failure && job.kind == BuildKind::Autotools ==> build_step_of(
            job,
            BuildPhase::Configuring,
            BuildEvent::Exited(e),
        ) == finish(BuildVerdict::ConfigureFailed),
{
}

} // verus!
