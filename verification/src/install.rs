//! The install pipeline: fetch, detect, check, build, locate, install and
//! record, one package at a time.
//!
//! The pipeline does nothing to its host itself. It asks for one action at a
//! time, is told how the action ended, and says what comes next. A package
//! whose pipeline stops early leaves the registry as it was.

use crate::cargo::{cargo_version, read_cargo_version};
use crate::command::{Exit, Invocation, InvocationView};
use crate::detect::{
    described, detect, file_to_inspect, inspected_file, BuildDescriptor, DescriptorView,
    DetectError,
};
use crate::executor::{
    build_step_of, BuildAction, BuildActionView, BuildEvent, BuildJob, BuildJobView, BuildPhase,
    BuildStepView, BuildVerdict,
};
use crate::fetch::{
    address, apply_patches, build_dir, build_dir_of, clone_command_from, clone_from, host_tag,
    patch_runs, repo_name, repo_of, Host,
};
use crate::fingerprint::{fingerprint, fingerprint_of};
use crate::host::{
    check_deps, elevate, elevated, missing_tools, package_manager, remedy_for,
};
use crate::kind::{kind_name, BuildKind};
use crate::locate::{binary_search_of, find_binary_path, BinarySearch, SearchView};
use crate::registry::{copy_opt, packages, recorded, InstalledPackage, PackageView, Registry};
use crate::text::{
    chars_of, copy_texts, ends_with, has_suffix, join_path, last_piece, opt_text, path_join, piece_last,
    same_text, string_of, texts, trim, trimmed,
};
use vstd::prelude::*;

verus! {

/// What an upgrade already knows of the package that it installs anew:
/// the name of its registry entry, the address of its sources, and the
/// fingerprint and version of the build file that it compared.
pub struct Known {
    pub name: String,
    pub address: String,
    pub hash: String,
    pub version: Option<String>,
}

/// What an upgrade knows, as plain texts.
pub struct KnownView {
    pub name: Seq<char>,
    pub address: Seq<char>,
    pub hash: Seq<char>,
    pub version: Option<Seq<char>>,
}

impl View for Known {
    type V = KnownView;

    open spec fn view(&self) -> KnownView {
        KnownView {
            name: self.name@,
            address: self.address@,
            hash: self.hash@,
            version: opt_text(self.version),
        }
    }
}

/// The view of what an upgrade knows, where there is an upgrade.
pub open spec fn opt_known(o: Option<Known>) -> Option<KnownView> {
    match o {
        Some(k) => Some(k@),
        None => None,
    }
}

impl Known {
    /// A copy of what is known.
    pub fn copy(&self) -> (r: Known)
        ensures
            r@ == self@,
    {
        Known {
            name: self.name.clone(),
            address: self.address.clone(),
            hash: self.hash.clone(),
            version: copy_opt(&self.version),
        }
    }
}

/// What is asked for: a package, and how it is to be fetched, built and
/// installed.
pub struct InstallJob {
    /// The reference of the package: owner, a slash, repository.
    pub package: String,
    /// The host it is fetched from.
    pub host: Host,
    /// Whether it is installed for the user alone.
    pub local: bool,
    /// The branch to fetch; the host's default where there is none.
    pub branch: Option<String>,
    /// A directory of patches to apply to the sources.
    pub patches: Option<String>,
    /// Flags that are handed to the build.
    pub flags: Vec<String>,
    /// Whether the build file is accepted unseen.
    pub yes: bool,
    /// The home directory of the user.
    pub home: String,
    /// The elevation command of the host.
    pub privilege: String,
    /// What the upgrade that asks for this install knows of the package;
    /// none for a fresh install.
    pub known: Option<Known>,
}

/// An install job as plain texts.
pub struct JobView {
    pub package: Seq<char>,
    pub host: Host,
    pub local: bool,
    pub branch: Option<Seq<char>>,
    pub patches: Option<Seq<char>>,
    pub flags: Seq<Seq<char>>,
    pub yes: bool,
    pub home: Seq<char>,
    pub privilege: Seq<char>,
    pub known: Option<KnownView>,
}

impl View for InstallJob {
    type V = JobView;

    open spec fn view(&self) -> JobView {
        JobView {
            package: self.package@,
            host: self.host,
            local: self.local,
            branch: opt_text(self.branch),
            patches: opt_text(self.patches),
            flags: texts(self.flags@),
            yes: self.yes,
            home: self.home@,
            privilege: self.privilege@,
            known: opt_known(self.known),
        }
    }
}

/// How far a pipeline has come. Each stage but the first and the last
/// waits for the end of the action that was asked for on entering it.
#[derive(Clone, Copy, Debug, PartialEq, Eq, Structural)]
pub enum Stage {
    Start,
    Preparing,
    Cloning,
    ListingPatches,
    Patching,
    Probing,
    Reading,
    Reviewing,
    Checking,
    Building(BuildPhase),
    ReadingManifest,
    Locating,
    Placing,
    Recording,
    Saving,
    Done,
}

/// How a pipeline ended.
pub enum Outcome {
    /// The program was installed at this path.
    Installed(String),
    /// The sources could not be cloned.
    CloneFailed,
    /// The workspace shows no build system.
    NoBuildSystem,
    /// The workspace's manifest cannot be read.
    InvalidManifest,
    /// The workspace's manifest names no known build system.
    UnknownKind,
    /// The operator declined the build.
    Cancelled,
    /// These tools are missing; the command line installs them. The whole
    /// run of the installer ends here.
    MissingTools(Vec<String>, String),
    /// Configuring the build failed.
    ConfigureFailed,
    /// The build failed.
    BuildFailed,
    /// A program that was to be run could not be started.
    Unavailable,
    /// The build left no program where one was looked for.
    BinaryNotFound,
    /// The program could not be put in its place.
    InstallFailed,
    /// The pipeline was told something that does not belong to its stage.
    OutOfOrder,
}

/// An outcome as plain texts.
pub enum OutcomeView {
    Installed(Seq<char>),
    CloneFailed,
    NoBuildSystem,
    InvalidManifest,
    UnknownKind,
    Cancelled,
    MissingTools(Seq<Seq<char>>, Seq<char>),
    ConfigureFailed,
    BuildFailed,
    Unavailable,
    BinaryNotFound,
    InstallFailed,
    OutOfOrder,
}

impl View for Outcome {
    type V = OutcomeView;

    open spec fn view(&self) -> OutcomeView {
        match self {
            Outcome::Installed(p) => OutcomeView::Installed(p@),
            Outcome::CloneFailed => OutcomeView::CloneFailed,
            Outcome::NoBuildSystem => OutcomeView::NoBuildSystem,
            Outcome::InvalidManifest => OutcomeView::InvalidManifest,
            Outcome::UnknownKind => OutcomeView::UnknownKind,
            Outcome::Cancelled => OutcomeView::Cancelled,
            Outcome::MissingTools(t, r) => OutcomeView::MissingTools(texts(t@), r@),
            Outcome::ConfigureFailed => OutcomeView::ConfigureFailed,
            Outcome::BuildFailed => OutcomeView::BuildFailed,
            Outcome::Unavailable => OutcomeView::Unavailable,
            Outcome::BinaryNotFound => OutcomeView::BinaryNotFound,
            Outcome::InstallFailed => OutcomeView::InstallFailed,
            Outcome::OutOfOrder => OutcomeView::OutOfOrder,
        }
    }
}

/// What the pipeline asks its caller to do.
pub enum Action {
    /// Make sure that the parent of this directory exists and that the
    /// directory itself does not. Answered by `Done`.
    Reset(String),
    /// Make this run. Answered by `Exited`.
    Run(Invocation),
    /// List the names of the entries of this directory. Answered by
    /// `Listing`.
    List(String),
    /// Read this file as text. Answered by `Content`.
    Read(String),
    /// Show this file to the operator and ask whether to go on; where the
    /// file is not there, ask nothing. Answered by `Answer`.
    Review(String),
    /// Find out which of these tools are on the search path, and which
    /// package manager configuration paths exist. Answered by `Tools`.
    Probe(Vec<String>),
    /// Make this directory, with its parents. Answered by `Done`.
    CreateDir(String),
    /// Look for the built program. Answered by `Located`.
    Locate(BinarySearch),
    /// Copy the first file to the second, whose directory is made if it is
    /// missing. Answered by `Done` or `Failed`.
    Copy(String, String),
    /// Read the registry, the bytes of the first file and the text of the
    /// second. Answered by `Records`.
    Gather(Option<String>, Option<String>),
    /// Replace the registry by these entries. Answered by `Done`.
    Save(Vec<InstalledPackage>),
    /// Stop: the pipeline ended so.
    Finish(Outcome),
}

/// An action as plain texts.
pub enum ActionView {
    Reset(Seq<char>),
    Run(InvocationView),
    List(Seq<char>),
    Read(Seq<char>),
    Review(Seq<char>),
    Probe(Seq<Seq<char>>),
    CreateDir(Seq<char>),
    Locate(SearchView),
    Copy(Seq<char>, Seq<char>),
    Gather(Option<Seq<char>>, Option<Seq<char>>),
    Save(Seq<PackageView>),
    Finish(OutcomeView),
}

impl View for Action {
    type V = ActionView;

    open spec fn view(&self) -> ActionView {
        match self {
            Action::Reset(d) => ActionView::Reset(d@),
            Action::Run(r) => ActionView::Run(r@),
            Action::List(d) => ActionView::List(d@),
            Action::Read(f) => ActionView::Read(f@),
            Action::Review(f) => ActionView::Review(f@),
            Action::Probe(t) => ActionView::Probe(texts(t@)),
            Action::CreateDir(d) => ActionView::CreateDir(d@),
            Action::Locate(s) => ActionView::Locate(s@),
            Action::Copy(a, b) => ActionView::Copy(a@, b@),
            Action::Gather(a, b) => ActionView::Gather(opt_text(*a), opt_text(*b)),
            Action::Save(e) => ActionView::Save(packages(e@)),
            Action::Finish(o) => ActionView::Finish(o@),
        }
    }
}

/// What the caller tells the pipeline.
pub enum Event {
    /// The pipeline may begin.
    Begin,
    /// The action was carried out.
    Done,
    /// The action could not be carried out.
    Failed,
    /// The run ended so.
    Exited(Exit),
    /// The directory holds entries of these names.
    Listing(Vec<String>),
    /// The file holds this text; none where it cannot be read.
    Content(Option<String>),
    /// The operator answered this; none where nothing was asked.
    Answer(Option<String>),
    /// For each tool, whether it was found; and the package manager
    /// configuration paths that exist.
    Tools(Vec<bool>, Vec<String>),
    /// The program was found at this path; none where it was not found.
    Located(Option<String>),
    /// The entries of the registry, the bytes of the build file and the
    /// text of the Cargo manifest; none for what cannot be read.
    Records(Vec<InstalledPackage>, Option<Vec<u8>>, Option<String>),
}

/// An event as plain values.
pub enum EventView {
    Begin,
    Done,
    Failed,
    Exited(Exit),
    Listing(Seq<Seq<char>>),
    Content(Option<Seq<char>>),
    Answer(Option<Seq<char>>),
    Tools(Seq<bool>, Seq<Seq<char>>),
    Located(Option<Seq<char>>),
    Records(Seq<PackageView>, Option<Seq<u8>>, Option<Seq<char>>),
}

/// The view of optional bytes.
pub open spec fn opt_bytes(o: Option<Vec<u8>>) -> Option<Seq<u8>> {
    match o {
        Some(b) => Some(b@),
        None => None,
    }
}

impl View for Event {
    type V = EventView;

    open spec fn view(&self) -> EventView {
        match self {
            Event::Begin => EventView::Begin,
            Event::Done => EventView::Done,
            Event::Failed => EventView::Failed,
            Event::Exited(e) => EventView::Exited(*e),
            Event::Listing(n) => EventView::Listing(texts(n@)),
            Event::Content(t) => EventView::Content(opt_text(*t)),
            Event::Answer(t) => EventView::Answer(opt_text(*t)),
            Event::Tools(f, p) => EventView::Tools(f@, texts(p@)),
            Event::Located(p) => EventView::Located(opt_text(*p)),
            Event::Records(e, b, c) => EventView::Records(packages(e@), opt_bytes(*b), opt_text(*c)),
        }
    }
}

/// The state of one package's pipeline.
pub struct Pipeline {
    /// What was asked for.
    pub job: InstallJob,
    /// How far the pipeline has come.
    pub stage: Stage,
    /// The patch runs that are still to be made.
    pub pending: Vec<Invocation>,
    /// The names of the entries of the workspace.
    pub files: Vec<String>,
    /// How the project is built, once that is known.
    pub descriptor: Option<BuildDescriptor>,
    /// The text of the project's Cargo manifest, once it was read.
    pub cargo: Option<String>,
    /// Where the program is installed, once that is known.
    pub target: Option<String>,
}

/// A pipeline as plain values.
pub struct PipelineView {
    pub job: JobView,
    pub stage: Stage,
    pub pending: Seq<InvocationView>,
    pub files: Seq<Seq<char>>,
    pub descriptor: Option<DescriptorView>,
    pub cargo: Option<Seq<char>>,
    pub target: Option<Seq<char>>,
}

/// The view of a descriptor that may be missing.
pub open spec fn opt_descriptor(d: Option<BuildDescriptor>) -> Option<DescriptorView> {
    match d {
        Some(d) => Some(d@),
        None => None,
    }
}

impl View for Pipeline {
    type V = PipelineView;

    open spec fn view(&self) -> PipelineView {
        PipelineView {
            job: self.job@,
            stage: self.stage,
            pending: crate::command::invocations(self.pending@),
            files: texts(self.files@),
            descriptor: opt_descriptor(self.descriptor),
            cargo: opt_text(self.cargo),
            target: opt_text(self.target),
        }
    }
}

/// The pipeline of a job of which nothing was done yet.
pub open spec fn fresh(job: JobView) -> PipelineView {
    PipelineView {
        job,
        stage: Stage::Start,
        pending: Seq::empty(),
        files: Seq::empty(),
        descriptor: None,
        cargo: None,
        target: None,
    }
}

/// The workspace of a pipeline.
pub open spec fn workspace(p: PipelineView) -> Seq<char> {
    build_dir_of(repo_name(p.job.package))
}

/// The pipeline stops with `outcome`.
pub open spec fn stop(p: PipelineView, outcome: OutcomeView) -> (PipelineView, ActionView) {
    (PipelineView { stage: Stage::Done, ..p }, ActionView::Finish(outcome))
}

/// The pipeline goes on to `stage` and asks for `action`.
pub open spec fn next(p: PipelineView, stage: Stage, action: ActionView) -> (
    PipelineView,
    ActionView,
) {
    (PipelineView { stage, ..p }, action)
}

/// Whether an answer declines: it is the letter n, in either case, with
/// nothing but white space around it.
pub open spec fn declines(answer: Seq<char>) -> bool {
    trim(answer) == seq!['n'] || trim(answer) == seq!['N']
}

/// Whether an answer accepts: it is the letter y, in either case, with
/// nothing but white space around it.
pub open spec fn accepts(answer: Seq<char>) -> bool {
    trim(answer) == seq!['y'] || trim(answer) == seq!['Y']
}

/// The file that is shown to the operator before the build: the build file
/// of the descriptor. There is none where the descriptor records no build
/// file.
pub open spec fn review_file(dir: Seq<char>, d: DescriptorView) -> Option<Seq<char>> {
    match d.manifest {
        Some(f) => Some(path_join(dir, f)),
        None => None,
    }
}

/// After the sources were cloned: the patches are listed where a directory
/// of patches was given, else the workspace is.
pub open spec fn after_clone(p: PipelineView, e: Exit) -> (PipelineView, ActionView) {
    match e {
        Exit::Success => match p.job.patches {
            Some(d) => next(p, Stage::ListingPatches, ActionView::List(d)),
            None => next(p, Stage::Probing, ActionView::List(workspace(p))),
        },
        Exit::Failure => stop(p, OutcomeView::CloneFailed),
        Exit::Unavailable => stop(p, OutcomeView::Unavailable),
    }
}

/// The next patch run is asked for; where none is left, the workspace is
/// listed.
pub open spec fn patch_on(p: PipelineView) -> (PipelineView, ActionView) {
    if p.pending.len() == 0 {
        next(p, Stage::Probing, ActionView::List(workspace(p)))
    } else {
        (
            PipelineView { stage: Stage::Patching, pending: p.pending.remove(0), ..p },
            ActionView::Run(p.pending[0]),
        )
    }
}

/// After the directory of patches was listed.
pub open spec fn after_patch_listing(p: PipelineView, names: Seq<Seq<char>>) -> (
    PipelineView,
    ActionView,
) {
    match p.job.patches {
        Some(d) => patch_on(PipelineView { pending: patch_runs(workspace(p), d, names), ..p }),
        None => stop(p, OutcomeView::OutOfOrder),
    }
}

/// After a patch run: a patch that does not apply does not stop the others.
pub open spec fn after_patch(p: PipelineView, e: Exit) -> (PipelineView, ActionView) {
    match e {
        Exit::Unavailable => stop(p, OutcomeView::Unavailable),
        _ => patch_on(p),
    }
}

/// The outcome that a detector's error stands for.
pub open spec fn outcome_of(e: DetectError) -> OutcomeView {
    match e {
        DetectError::NoBuildSystem => OutcomeView::NoBuildSystem,
        DetectError::InvalidManifest => OutcomeView::InvalidManifest,
        DetectError::UnknownKind => OutcomeView::UnknownKind,
    }
}

/// Once the project is described: the operator reviews its build file
/// unless it is accepted unseen or there is none, and then the tools are
/// checked.
pub open spec fn after_detect(p: PipelineView, content: Seq<char>) -> (PipelineView, ActionView) {
    match described(p.files, content, p.job.flags) {
        Err(e) => stop(p, outcome_of(e)),
        Ok(d) => {
            let q = PipelineView { descriptor: Some(d), ..p };
            match review_file(workspace(p), d) {
                Some(f) => if p.job.yes {
                    next(q, Stage::Checking, ActionView::Probe(d.tools))
                } else {
                    next(q, Stage::Reviewing, ActionView::Review(f))
                },
                None => next(q, Stage::Checking, ActionView::Probe(d.tools)),
            }
        },
    }
}

/// After the workspace was listed: the file that the detector inspects is
/// read, and where there is none the project is described at once.
pub open spec fn after_probe(p: PipelineView, files: Seq<Seq<char>>) -> (PipelineView, ActionView) {
    let q = PipelineView { files, ..p };
    match inspected_file(files) {
        Some(f) => next(q, Stage::Reading, ActionView::Read(path_join(workspace(p), f))),
        None => after_detect(q, Seq::empty()),
    }
}

/// After the inspected file was read. A file that cannot be read counts as
/// empty.
pub open spec fn after_read(p: PipelineView, text: Option<Seq<char>>) -> (PipelineView, ActionView) {
    match text {
        Some(t) => after_detect(p, t),
        None => after_detect(p, Seq::empty()),
    }
}

/// After the review: the build goes on unless the operator declined.
pub open spec fn after_review(p: PipelineView, answer: Option<Seq<char>>) -> (
    PipelineView,
    ActionView,
) {
    match p.descriptor {
        None => stop(p, OutcomeView::OutOfOrder),
        Some(d) => match answer {
            Some(a) => if declines(a) {
                stop(p, OutcomeView::Cancelled)
            } else {
                next(p, Stage::Checking, ActionView::Probe(d.tools))
            },
            None => next(p, Stage::Checking, ActionView::Probe(d.tools)),
        },
    }
}

/// The build job of a described project.
pub open spec fn build_job_of(p: PipelineView, d: DescriptorView) -> BuildJobView {
    BuildJobView { kind: d.kind, dir: workspace(p), makefile: d.manifest, flags: d.flags }
}

/// The search for the program of a built project.
pub open spec fn locate(p: PipelineView, d: DescriptorView) -> (PipelineView, ActionView) {
    next(
        p,
        Stage::Locating,
        ActionView::Locate(
            binary_search_of(workspace(p), repo_name(p.job.package), d.kind, p.cargo),
        ),
    )
}

/// What a step of the build means for the pipeline: its runs are made, a
/// failed build ends the pipeline, and after a good one the program is
/// looked for. A Cargo project's manifest is read first, since it names
/// the program.
pub open spec fn build_on(p: PipelineView, d: DescriptorView, step: Option<BuildStepView>) -> (
    PipelineView,
    ActionView,
) {
    match step {
        None => stop(p, OutcomeView::OutOfOrder),
        Some(s) => match s.action {
            BuildActionView::CreateDir(x) => next(
                p,
                Stage::Building(s.phase),
                ActionView::CreateDir(x),
            ),
            BuildActionView::Run(r) => next(p, Stage::Building(s.phase), ActionView::Run(r)),
            BuildActionView::Finish(BuildVerdict::Built) => if d.kind == BuildKind::Cargo {
                next(
                    p,
                    Stage::ReadingManifest,
                    ActionView::Read(path_join(workspace(p), "Cargo.toml"@)),
                )
            } else {
                locate(p, d)
            },
            BuildActionView::Finish(BuildVerdict::ConfigureFailed) => stop(
                p,
                OutcomeView::ConfigureFailed,
            ),
            BuildActionView::Finish(BuildVerdict::BuildFailed) => stop(p, OutcomeView::BuildFailed),
            BuildActionView::Finish(BuildVerdict::Unavailable) => stop(p, OutcomeView::Unavailable),
        },
    }
}

/// After the tools were probed: where any is missing the pipeline ends and
/// names them all; else the build begins.
pub open spec fn after_check(p: PipelineView, found: Seq<bool>, present: Seq<Seq<char>>) -> (
    PipelineView,
    ActionView,
) {
    match p.descriptor {
        None => stop(p, OutcomeView::OutOfOrder),
        Some(d) => {
            let missing = missing_tools(d.tools, found);
            if missing.len() > 0 {
                stop(
                    p,
                    OutcomeView::MissingTools(
                        missing,
                        remedy_for(package_manager(present), missing),
                    ),
                )
            } else {
                build_on(
                    p,
                    d,
                    build_step_of(build_job_of(p, d), BuildPhase::Start, BuildEvent::Begin),
                )
            }
        },
    }
}

/// After an action of the build.
pub open spec fn after_build(p: PipelineView, phase: BuildPhase, event: BuildEvent) -> (
    PipelineView,
    ActionView,
) {
    match p.descriptor {
        None => stop(p, OutcomeView::OutOfOrder),
        Some(d) => build_on(p, d, build_step_of(build_job_of(p, d), phase, event)),
    }
}

/// After the Cargo manifest was read.
pub open spec fn after_manifest(p: PipelineView, text: Option<Seq<char>>) -> (
    PipelineView,
    ActionView,
) {
    match p.descriptor {
        None => stop(p, OutcomeView::OutOfOrder),
        Some(d) => locate(PipelineView { cargo: text, ..p }, d),
    }
}

/// The user's own directory for programs, under the home directory `home`.
pub open spec fn local_bin_path(home: Seq<char>) -> Seq<char> {
    path_join(home, ".local/bin"@)
}

/// The directory into which programs are installed: the user's own
/// directory for programs, or the system's.
pub open spec fn destination(job: JobView) -> Seq<char> {
    if job.local {
        local_bin_path(job.home)
    } else {
        "/usr/local/bin"@
    }
}

/// The path at which the program found at `binary` is installed: under its
/// own file name in the destination.
pub open spec fn target_of(job: JobView, binary: Seq<char>) -> Seq<char> {
    path_join(destination(job), last_piece(binary, '/'))
}

/// After the search for the program: without a program nothing is
/// installed. A program for the user alone is copied; one for the system
/// is installed under the elevation command, executable for all.
pub open spec fn after_locate(p: PipelineView, binary: Option<Seq<char>>) -> (
    PipelineView,
    ActionView,
) {
    match binary {
        None => stop(p, OutcomeView::BinaryNotFound),
        Some(b) => {
            let t = target_of(p.job, b);
            let q = PipelineView { target: Some(t), ..p };
            if p.job.local {
                next(q, Stage::Placing, ActionView::Copy(b, t))
            } else {
                next(
                    q,
                    Stage::Placing,
                    ActionView::Run(elevated(p.job.privilege, seq!["install"@, "-m755"@, b, t])),
                )
            }
        },
    }
}

/// After the program was put in its place, or could not be. An install for
/// the user alone ends here and is not recorded; one for the system goes
/// on to the registry.
pub open spec fn after_place(p: PipelineView, placed: bool) -> (PipelineView, ActionView) {
    match (p.descriptor, p.target) {
        (Some(d), Some(t)) => if !placed {
            stop(p, OutcomeView::InstallFailed)
        } else if p.job.local {
            stop(p, OutcomeView::Installed(t))
        } else {
            next(
                p,
                Stage::Recording,
                ActionView::Gather(
                    match d.manifest {
                        Some(f) => Some(path_join(workspace(p), f)),
                        None => None,
                    },
                    if d.kind == BuildKind::Cargo {
                        Some(path_join(workspace(p), "Cargo.toml"@))
                    } else {
                        None
                    },
                ),
            )
        },
        _ => stop(p, OutcomeView::OutOfOrder),
    }
}

/// The address from which the sources of a job are cloned: the one that
/// an upgrade knows, else the one that host and package make.
pub open spec fn source_of(job: JobView) -> Seq<char> {
    match job.known {
        Some(k) => k.address,
        None => crate::fetch::clone_url(job.host, job.package),
    }
}

/// The entry that records an install.
///
/// For a fresh install the name is the last segment of the package's
/// reference. The fingerprint is that of the build file, and that of no
/// bytes at all where the file cannot be read. Only a Cargo project has a
/// version: the one its manifest states.
///
/// For an install that an upgrade asked for, name, fingerprint and version
/// are those that the upgrade knows: the entry says what was compared.
pub open spec fn entry_of(
    job: JobView,
    d: DescriptorView,
    target: Seq<char>,
    bytes: Option<Seq<u8>>,
    manifest: Option<Seq<char>>,
) -> PackageView {
    PackageView {
        name: match job.known {
            Some(k) => k.name,
            None => repo_name(job.package),
        },
        source: host_tag(job.host),
        build_system: kind_name(d.kind),
        location: target,
        build_file: d.manifest,
        hash: match job.known {
            Some(k) => Some(k.hash),
            None => Some(
                fingerprint_of(
                    match bytes {
                        Some(b) => b,
                        None => Seq::empty(),
                    },
                ),
            ),
        },
        version: match job.known {
            Some(k) => k.version,
            None => if d.kind == BuildKind::Cargo {
                match manifest {
                    Some(t) => cargo_version(t),
                    None => None,
                }
            } else {
                None
            },
        },
    }
}

/// After the registry was read: the install is recorded in it, and the
/// registry is saved.
pub open spec fn after_records(
    p: PipelineView,
    entries: Seq<PackageView>,
    bytes: Option<Seq<u8>>,
    manifest: Option<Seq<char>>,
) -> (PipelineView, ActionView) {
    match (p.descriptor, p.target) {
        (Some(d), Some(t)) => if p.job.local {
            stop(p, OutcomeView::OutOfOrder)
        } else {
            next(
                p,
                Stage::Saving,
                ActionView::Save(recorded(entries, entry_of(p.job, d, t, bytes, manifest))),
            )
        },
        _ => stop(p, OutcomeView::OutOfOrder),
    }
}

/// After the registry was saved.
pub open spec fn after_save(p: PipelineView) -> (PipelineView, ActionView) {
    match p.target {
        Some(t) => stop(p, OutcomeView::Installed(t)),
        None => stop(p, OutcomeView::OutOfOrder),
    }
}

/// The step of the pipeline `p` on being told `event`: the pipeline after
/// it, and the action that it asks for. An event that does not belong to
/// the stage ends the pipeline.
pub open spec fn install_step(p: PipelineView, event: EventView) -> (PipelineView, ActionView) {
    match (p.stage, event) {
        (Stage::Start, EventView::Begin) => next(
            p,
            Stage::Preparing,
            ActionView::Reset(workspace(p)),
        ),
        (Stage::Preparing, EventView::Done) => next(
            p,
            Stage::Cloning,
            ActionView::Run(clone_from(source_of(p.job), p.job.branch, workspace(p))),
        ),
        (Stage::Cloning, EventView::Exited(e)) => after_clone(p, e),
        (Stage::ListingPatches, EventView::Listing(names)) => after_patch_listing(p, names),
        (Stage::Patching, EventView::Exited(e)) => after_patch(p, e),
        (Stage::Probing, EventView::Listing(files)) => after_probe(p, files),
        (Stage::Reading, EventView::Content(text)) => after_read(p, text),
        (Stage::Reviewing, EventView::Answer(a)) => after_review(p, a),
        (Stage::Checking, EventView::Tools(found, present)) => after_check(p, found, present),
        (Stage::Building(phase), EventView::Done) => after_build(p, phase, BuildEvent::DirCreated),
        (Stage::Building(phase), EventView::Exited(e)) => after_build(
            p,
            phase,
            BuildEvent::Exited(e),
        ),
        (Stage::ReadingManifest, EventView::Content(text)) => after_manifest(p, text),
        (Stage::Locating, EventView::Located(b)) => after_locate(p, b),
        (Stage::Placing, EventView::Done) => after_place(p, true),
        (Stage::Placing, EventView::Failed) => after_place(p, false),
        (Stage::Placing, EventView::Exited(e)) => after_place(p, e == Exit::Success),
        (Stage::Recording, EventView::Records(entries, bytes, manifest)) => after_records(
            p,
            entries,
            bytes,
            manifest,
        ),
        (Stage::Saving, EventView::Done) => after_save(p),
        _ => stop(p, OutcomeView::OutOfOrder),
    }
}

/// The user's own directory for programs, under the home directory `home`.
pub fn get_local_bin_path(home: &str) -> (r: String)
    ensures
        r@ == local_bin_path(home@),
{
    join_path(home, ".local/bin")
}

/// Whether `answer` declines.
pub fn is_no(answer: &str) -> (r: bool)
    ensures
        r == declines(answer@),
{
    let chars = chars_of(answer);
    let t = trimmed(chars.as_slice());
    let r = t.len() == 1 && (t[0] == 'n' || t[0] == 'N');
    proof {
        if r {
            assert(t@ =~= seq![t@[0]]);
        }
        assert(seq!['n'].len() == 1 && seq!['n'][0] == 'n');
        assert(seq!['N'].len() == 1 && seq!['N'][0] == 'N');
    }
    r
}

/// Whether `answer` accepts.
pub fn is_yes(answer: &str) -> (r: bool)
    ensures
        r == accepts(answer@),
{
    let chars = chars_of(answer);
    let t = trimmed(chars.as_slice());
    let r = t.len() == 1 && (t[0] == 'y' || t[0] == 'Y');
    proof {
        if r {
            assert(t@ =~= seq![t@[0]]);
        }
        assert(seq!['y'].len() == 1 && seq!['y'][0] == 'y');
        assert(seq!['Y'].len() == 1 && seq!['Y'][0] == 'Y');
    }
    r
}

/// The file that is shown to the operator before the build.
fn file_to_review(dir: &str, d: &BuildDescriptor) -> (r: Option<String>)
    ensures
        opt_text(r) == review_file(dir@, d@),
{
    match &d.manifest {
        Some(f) => Some(join_path(dir, f.as_str())),
        None => None,
    }
}

/// The outcome that a detector's error stands for.
fn outcome(e: DetectError) -> (r: Outcome)
    ensures
        r@ == outcome_of(e),
{
    match e {
        DetectError::NoBuildSystem => Outcome::NoBuildSystem,
        DetectError::InvalidManifest => Outcome::InvalidManifest,
        DetectError::UnknownKind => Outcome::UnknownKind,
    }
}

impl Pipeline {
    /// The pipeline of `job`, of which nothing was done yet.
    pub fn new(job: InstallJob) -> (r: Pipeline)
        ensures
            r@ == fresh(job@),
    {
        let r = Pipeline {
            job,
            stage: Stage::Start,
            pending: Vec::new(),
            files: Vec::new(),
            descriptor: None,
            cargo: None,
            target: None,
        };
        assert(r@.pending =~= Seq::<InvocationView>::empty());
        assert(r@.files =~= Seq::<Seq<char>>::empty());
        r
    }

    /// The workspace of this pipeline.
    pub fn workspace(&self) -> (r: String)
        ensures
            r@ == workspace(self@),
    {
        build_dir(repo_of(self.job.package.as_str()).as_str())
    }

    /// Takes the step that `stop` describes.
    fn stop(&mut self, outcome: Outcome) -> (r: Action)
        ensures
            (final(self)@, r@) == stop(old(self)@, outcome@),
    {
        self.stage = Stage::Done;
        Action::Finish(outcome)
    }

    /// Takes the step that `next` describes.
    fn go(&mut self, stage: Stage, action: Action) -> (r: Action)
        ensures
            (final(self)@, r@) == next(old(self)@, stage, action@),
    {
        self.stage = stage;
        action
    }

    /// Takes the step that `after_clone` describes.
    fn after_clone(&mut self, e: Exit) -> (r: Action)
        ensures
            (final(self)@, r@) == after_clone(old(self)@, e),
    {
        match e {
            Exit::Success => {
                let patches = copy_opt(&self.job.patches);
                match patches {
                    Some(d) => self.go(Stage::ListingPatches, Action::List(d)),
                    None => {
                        let dir = self.workspace();
                        self.go(Stage::Probing, Action::List(dir))
                    },
                }
            },
            Exit::Failure => self.stop(Outcome::CloneFailed),
            Exit::Unavailable => self.stop(Outcome::Unavailable),
        }
    }

    /// Takes the step that `patch_on` describes.
    fn patch_on(&mut self) -> (r: Action)
        ensures
            (final(self)@, r@) == patch_on(old(self)@),
    {
        if self.pending.len() == 0 {
            let dir = self.workspace();
            self.go(Stage::Probing, Action::List(dir))
        } else {
            let ghost before = self@.pending;
            assert(before[0] == self.pending@[0]@);
            let run = self.pending.remove(0);
            assert(self@.pending =~= before.remove(0));
            self.stage = Stage::Patching;
            Action::Run(run)
        }
    }

    /// Takes the step that `after_patch_listing` describes.
    fn after_patch_listing(&mut self, names: &Vec<String>) -> (r: Action)
        ensures
            (final(self)@, r@) == after_patch_listing(old(self)@, texts(names@)),
    {
        let patches = copy_opt(&self.job.patches);
        match patches {
            Some(d) => {
                let dir = self.workspace();
                self.pending = apply_patches(dir.as_str(), d.as_str(), names);
                self.patch_on()
            },
            None => self.stop(Outcome::OutOfOrder),
        }
    }

    /// Takes the step that `after_patch` describes.
    fn after_patch(&mut self, e: Exit) -> (r: Action)
        ensures
            (final(self)@, r@) == after_patch(old(self)@, e),
    {
        match e {
            Exit::Unavailable => self.stop(Outcome::Unavailable),
            _ => self.patch_on(),
        }
    }

    /// Takes the step that `after_detect` describes.
    fn after_detect(&mut self, content: &str) -> (r: Action)
        ensures
            (final(self)@, r@) == after_detect(old(self)@, content@),
    {
        match detect(&self.files, content, &self.job.flags) {
            Err(e) => self.stop(outcome(e)),
            Ok(d) => {
                let dir = self.workspace();
                let review = file_to_review(dir.as_str(), &d);
                let tools = copy_texts(&d.tools);
                self.descriptor = Some(d);
                match review {
                    Some(f) => {
                        if self.job.yes {
                            self.go(Stage::Checking, Action::Probe(tools))
                        } else {
                            self.go(Stage::Reviewing, Action::Review(f))
                        }
                    },
                    None => self.go(Stage::Checking, Action::Probe(tools)),
                }
            },
        }
    }

    /// Takes the step that `after_probe` describes.
    fn after_probe(&mut self, files: Vec<String>) -> (r: Action)
        ensures
            (final(self)@, r@) == after_probe(old(self)@, texts(files@)),
    {
        let inspect = file_to_inspect(&files);
        let dir = self.workspace();
        self.files = files;
        match inspect {
            Some(f) => {
                let path = join_path(dir.as_str(), f.as_str());
                self.go(Stage::Reading, Action::Read(path))
            },
            None => {
                proof {
                    reveal_strlit("");
                    assert(""@ =~= Seq::<char>::empty());
                }
                self.after_detect("")
            },
        }
    }

    /// Takes the step that `after_read` describes.
    fn after_read(&mut self, text: &Option<String>) -> (r: Action)
        ensures
            (final(self)@, r@) == after_read(old(self)@, opt_text(*text)),
    {
        match text {
            Some(t) => self.after_detect(t.as_str()),
            None => {
                proof {
                    reveal_strlit("");
                    assert(""@ =~= Seq::<char>::empty());
                }
                self.after_detect("")
            },
        }
    }

    /// A copy of the tools of the descriptor, once the project is described.
    fn tools(&self) -> (r: Option<Vec<String>>)
        ensures
            match r {
                Some(t) => self@.descriptor is Some && texts(t@) == self@.descriptor->Some_0.tools,
                None => self@.descriptor is None,
            },
    {
        match &self.descriptor {
            Some(d) => Some(copy_texts(&d.tools)),
            None => None,
        }
    }

    /// Takes the step that `after_review` describes.
    fn after_review(&mut self, answer: &Option<String>) -> (r: Action)
        ensures
            (final(self)@, r@) == after_review(old(self)@, opt_text(*answer)),
    {
        match self.tools() {
            None => self.stop(Outcome::OutOfOrder),
            Some(tools) => match answer {
                Some(a) => {
                    if is_no(a.as_str()) {
                        self.stop(Outcome::Cancelled)
                    } else {
                        self.go(Stage::Checking, Action::Probe(tools))
                    }
                },
                None => self.go(Stage::Checking, Action::Probe(tools)),
            },
        }
    }

    /// The build job of the project, once it is described.
    fn build_job(&self) -> (r: Option<BuildJob>)
        ensures
            match r {
                Some(j) => self@.descriptor is Some && j@ == build_job_of(
                    self@,
                    self@.descriptor->Some_0,
                ),
                None => self@.descriptor is None,
            },
    {
        match &self.descriptor {
            Some(d) => Some(
                BuildJob {
                    kind: d.kind,
                    dir: self.workspace(),
                    makefile: copy_opt(&d.manifest),
                    flags: copy_texts(&d.flags),
                },
            ),
            None => None,
        }
    }

    /// Takes the step that `locate` describes.
    fn locate(&mut self, kind: BuildKind) -> (r: Action)
        requires
            old(self)@.descriptor is Some,
            old(self)@.descriptor->Some_0.kind == kind,
        ensures
            (final(self)@, r@) == locate(old(self)@, old(self)@.descriptor->Some_0),
    {
        let dir = self.workspace();
        let repo = repo_of(self.job.package.as_str());
        let search = match &self.cargo {
            Some(t) => find_binary_path(dir.as_str(), repo.as_str(), kind, Some(t.as_str())),
            None => find_binary_path(dir.as_str(), repo.as_str(), kind, None),
        };
        self.go(Stage::Locating, Action::Locate(search))
    }

    /// Takes the step that `build_on` describes.
    fn build_on(&mut self, kind: BuildKind, step: Option<crate::executor::BuildStep>) -> (r: Action)
        requires
            old(self)@.descriptor is Some,
            old(self)@.descriptor->Some_0.kind == kind,
        ensures
            (final(self)@, r@) == build_on(
                old(self)@,
                old(self)@.descriptor->Some_0,
                crate::executor::opt_step(step),
            ),
    {
        match step {
            None => self.stop(Outcome::OutOfOrder),
            Some(s) => {
                let phase = s.phase;
                match s.action {
                    BuildAction::CreateDir(x) => self.go(
                        Stage::Building(phase),
                        Action::CreateDir(x),
                    ),
                    BuildAction::Run(r) => self.go(Stage::Building(phase), Action::Run(r)),
                    BuildAction::Finish(BuildVerdict::Built) => {
                        match kind {
                            BuildKind::Cargo => {
                                let path = join_path(self.workspace().as_str(), "Cargo.toml");
                                self.go(Stage::ReadingManifest, Action::Read(path))
                            },
                            _ => self.locate(kind),
                        }
                    },
                    BuildAction::Finish(BuildVerdict::ConfigureFailed) => self.stop(
                        Outcome::ConfigureFailed,
                    ),
                    BuildAction::Finish(BuildVerdict::BuildFailed) => self.stop(
                        Outcome::BuildFailed,
                    ),
                    BuildAction::Finish(BuildVerdict::Unavailable) => self.stop(
                        Outcome::Unavailable,
                    ),
                }
            },
        }
    }

    /// Takes the step that `after_check` describes.
    fn after_check(&mut self, found: &Vec<bool>, present: &Vec<String>) -> (r: Action)
        ensures
            (final(self)@, r@) == after_check(old(self)@, found@, texts(present@)),
    {
        match self.tools() {
            None => self.stop(Outcome::OutOfOrder),
            Some(tools) => match check_deps(&tools, found, present) {
                Err(m) => self.stop(Outcome::MissingTools(m.tools, m.remedy)),
                Ok(_) => {
                    let job = self.build_job().unwrap();
                    let step = job.step(BuildPhase::Start, BuildEvent::Begin);
                    self.build_on(job.kind, step)
                },
            },
        }
    }

    /// Takes the step that `after_build` describes.
    fn after_build(&mut self, phase: BuildPhase, event: BuildEvent) -> (r: Action)
        ensures
            (final(self)@, r@) == after_build(old(self)@, phase, event),
    {
        match self.build_job() {
            None => self.stop(Outcome::OutOfOrder),
            Some(job) => {
                let step = job.step(phase, event);
                self.build_on(job.kind, step)
            },
        }
    }

    /// Takes the step that `after_manifest` describes.
    fn after_manifest(&mut self, text: Option<String>) -> (r: Action)
        ensures
            (final(self)@, r@) == after_manifest(old(self)@, opt_text(text)),
    {
        match self.build_job() {
            None => self.stop(Outcome::OutOfOrder),
            Some(job) => {
                self.cargo = text;
                self.locate(job.kind)
            },
        }
    }

    /// Takes the step that `after_locate` describes.
    fn after_locate(&mut self, binary: Option<String>) -> (r: Action)
        ensures
            (final(self)@, r@) == after_locate(old(self)@, opt_text(binary)),
    {
        match binary {
            None => self.stop(Outcome::BinaryNotFound),
            Some(b) => {
                let dest = if self.job.local {
                    get_local_bin_path(self.job.home.as_str())
                } else {
                    "/usr/local/bin".to_owned()
                };
                let chars = chars_of(b.as_str());
                let name = string_of(piece_last(chars.as_slice(), '/'));
                let t = join_path(dest.as_str(), name.as_str());
                self.target = Some(t.clone());
                if self.job.local {
                    self.go(Stage::Placing, Action::Copy(b, t))
                } else {
                    let mut words: Vec<String> = Vec::new();
                    words.push("install".to_owned());
                    words.push("-m755".to_owned());
                    words.push(b);
                    words.push(t);
                    assert(texts(words@) =~= seq!["install"@, "-m755"@, b@, t@]);
                    let run = elevate(self.job.privilege.as_str(), words);
                    self.go(Stage::Placing, Action::Run(run))
                }
            },
        }
    }

    /// Takes the step that `after_place` describes.
    fn after_place(&mut self, placed: bool) -> (r: Action)
        ensures
            (final(self)@, r@) == after_place(old(self)@, placed),
    {
        let target = copy_opt(&self.target);
        let job = self.build_job();
        match (job, target) {
            (Some(j), Some(t)) => {
                if !placed {
                    self.stop(Outcome::InstallFailed)
                } else if self.job.local {
                    self.stop(Outcome::Installed(t))
                } else {
                    let file = match &j.makefile {
                        Some(f) => Some(join_path(j.dir.as_str(), f.as_str())),
                        None => None,
                    };
                    let manifest = match j.kind {
                        BuildKind::Cargo => Some(join_path(j.dir.as_str(), "Cargo.toml")),
                        _ => None,
                    };
                    self.go(Stage::Recording, Action::Gather(file, manifest))
                }
            },
            _ => self.stop(Outcome::OutOfOrder),
        }
    }

    /// Takes the step that `after_records` describes.
    fn after_records(
        &mut self,
        entries: Vec<InstalledPackage>,
        bytes: &Option<Vec<u8>>,
        manifest: &Option<String>,
    ) -> (r: Action)
        ensures
            (final(self)@, r@) == after_records(
                old(self)@,
                packages(entries@),
                opt_bytes(*bytes),
                opt_text(*manifest),
            ),
    {
        let target = copy_opt(&self.target);
        let job = self.build_job();
        match (job, target) {
            (Some(j), Some(t)) => {
                if self.job.local {
                    self.stop(Outcome::OutOfOrder)
                } else {
                    let (name, hash, version) = match &self.job.known {
                        Some(k) => (k.name.clone(), k.hash.clone(), copy_opt(&k.version)),
                        None => {
                            let hash = match bytes {
                                Some(b) => fingerprint(b.as_slice()),
                                None => {
                                    let none: Vec<u8> = Vec::new();
                                    assert(none@ =~= Seq::<u8>::empty());
                                    fingerprint(none.as_slice())
                                },
                            };
                            let version = match j.kind {
                                BuildKind::Cargo => match manifest {
                                    Some(m) => read_cargo_version(m.as_str()),
                                    None => None,
                                },
                                _ => None,
                            };
                            (repo_of(self.job.package.as_str()), hash, version)
                        },
                    };
                    let entry = InstalledPackage {
                        name,
                        source: self.job.host.tag(),
                        build_system: j.kind.name(),
                        location: t,
                        build_file: j.makefile,
                        hash: Some(hash),
                        version,
                    };
                    let mut registry = Registry::from_entries(entries);
                    registry.record(entry);
                    self.go(Stage::Saving, Action::Save(registry.entries))
                }
            },
            _ => self.stop(Outcome::OutOfOrder),
        }
    }

    /// Takes the step that `after_save` describes.
    fn after_save(&mut self) -> (r: Action)
        ensures
            (final(self)@, r@) == after_save(old(self)@),
    {
        match copy_opt(&self.target) {
            Some(t) => self.stop(Outcome::Installed(t)),
            None => self.stop(Outcome::OutOfOrder),
        }
    }
}

/// Advances the installation of a single package by one step: the
/// pipeline is told `event` and says what is to be done next.
pub fn install_single(p: &mut Pipeline, event: Event) -> (r: Action)
    ensures
        (final(p)@, r@) == install_step(old(p)@, event@),
{
    let stage = p.stage;
    match (stage, event) {
        (Stage::Start, Event::Begin) => {
            let dir = p.workspace();
            p.go(Stage::Preparing, Action::Reset(dir))
        },
        (Stage::Preparing, Event::Done) => {
            let dir = p.workspace();
            let url = match &p.job.known {
                Some(k) => k.address.clone(),
                None => address(p.job.host, p.job.package.as_str()),
            };
            let run = clone_command_from(url.as_str(), &p.job.branch, dir.as_str());
            p.go(Stage::Cloning, Action::Run(run))
        },
        (Stage::Cloning, Event::Exited(e)) => p.after_clone(e),
        (Stage::ListingPatches, Event::Listing(names)) => p.after_patch_listing(&names),
        (Stage::Patching, Event::Exited(e)) => p.after_patch(e),
        (Stage::Probing, Event::Listing(files)) => p.after_probe(files),
        (Stage::Reading, Event::Content(text)) => p.after_read(&text),
        (Stage::Reviewing, Event::Answer(a)) => p.after_review(&a),
        (Stage::Checking, Event::Tools(found, present)) => p.after_check(&found, &present),
        (Stage::Building(phase), Event::Done) => p.after_build(phase, BuildEvent::DirCreated),
        (Stage::Building(phase), Event::Exited(e)) => p.after_build(phase, BuildEvent::Exited(e)),
        (Stage::ReadingManifest, Event::Content(text)) => p.after_manifest(text),
        (Stage::Locating, Event::Located(b)) => p.after_locate(b),
        (Stage::Placing, Event::Done) => p.after_place(true),
        (Stage::Placing, Event::Failed) => p.after_place(false),
        (Stage::Placing, Event::Exited(e)) => {
            let ok = match e {
                Exit::Success => true,
                _ => false,
            };
            p.after_place(ok)
        },
        (Stage::Recording, Event::Records(entries, bytes, manifest)) => p.after_records(
            entries,
            &bytes,
            &manifest,
        ),
        (Stage::Saving, Event::Done) => p.after_save(),
        _ => p.stop(Outcome::OutOfOrder),
    }
}

/// The views of a sequence of pipelines.
pub open spec fn pipelines(v: Seq<Pipeline>) -> Seq<PipelineView> {
    Seq::new(v.len(), |i: int| v[i]@)
}

/// The job that installs `package` with the options given.
pub open spec fn job_for(
    package: Seq<char>,
    gitlab: bool,
    codeberg: bool,
    local: bool,
    branch: Option<Seq<char>>,
    patches: Option<Seq<char>>,
    flags: Seq<Seq<char>>,
    yes: bool,
    home: Seq<char>,
    privilege: Seq<char>,
) -> JobView {
    JobView {
        package,
        host: crate::fetch::chosen_host(gitlab, codeberg),
        local,
        branch,
        patches,
        flags,
        yes,
        home,
        privilege,
        known: None,
    }
}

/// The view of an optional borrowed text.
pub open spec fn opt_str(o: Option<&str>) -> Option<Seq<char>> {
    match o {
        Some(s) => Some(s@),
        None => None,
    }
}

/// An owned copy of an optional borrowed text.
fn owned(o: Option<&str>) -> (r: Option<String>)
    ensures
        opt_text(r) == opt_str(o),
{
    match o {
        Some(s) => Some(s.to_owned()),
        None => None,
    }
}

/// Sets up the installation of `packages`: one pipeline for each package,
/// in the order given, each with the same options. The pipelines are run
/// one after the other.
pub fn install(
    packages: &Vec<String>,
    gitlab: bool,
    codeberg: bool,
    local: bool,
    branch: Option<&str>,
    patches: Option<&str>,
    flags: &Vec<String>,
    yes: bool,
    home: &str,
    privilege: &str,
) -> (r: Vec<Pipeline>)
    ensures
        pipelines(r@) == Seq::new(
            packages@.len(),
            |i: int|
                fresh(
                    job_for(
                        packages@[i]@,
                        gitlab,
                        codeberg,
                        local,
                        opt_str(branch),
                        opt_str(patches),
                        texts(flags@),
                        yes,
                        home@,
                        privilege@,
                    ),
                ),
        ),
{
    let mut out: Vec<Pipeline> = Vec::new();
    let mut i: usize = 0;
    while i < packages.len()
        invariant
            i <= packages@.len(),
            pipelines(out@) == Seq::new(
                i as nat,
                |k: int|
                    fresh(
                        job_for(
                            packages@[k]@,
                            gitlab,
                            codeberg,
                            local,
                            opt_str(branch),
                            opt_str(patches),
                            texts(flags@),
                            yes,
                            home@,
                            privilege@,
                        ),
                    ),
            ),
        decreases packages@.len() - i,
    {
        let job = InstallJob {
            package: packages[i].clone(),
            host: Host::select(gitlab, codeberg),
            local,
            branch: owned(branch),
            patches: owned(patches),
            flags: copy_texts(flags),
            yes,
            home: home.to_owned(),
            privilege: privilege.to_owned(),
            known: None,
        };
        let ghost before = pipelines(out@);
        let p = Pipeline::new(job);
        out.push(p);
        assert(pipelines(out@) =~= before.push(p@));
        i += 1;
    }
    out
}

/// Sets up the installation of `packages` with nothing but build flags
/// given: from the default host, for the system, with the build file shown
/// to the operator first.
pub fn bulk_install(packages: &Vec<String>, flags: &Vec<String>, home: &str, privilege: &str) -> (r:
    Vec<Pipeline>)
    ensures
        pipelines(r@) == Seq::new(
            packages@.len(),
            |i: int|
                fresh(
                    job_for(
                        packages@[i]@,
                        false,
                        false,
                        false,
                        None,
                        None,
                        texts(flags@),
                        false,
                        home@,
                        privilege@,
                    ),
                ),
        ),
{
    install(packages, false, false, false, None, None, flags, false, home, privilege)
}

/// An install for the user alone never touches the registry: whatever its
/// pipeline is told, it does not ask for the registry to be saved.
pub proof fn lemma_local_install_leaves_registry(p: PipelineView, event: EventView)
    requires
        p.job.local,
    ensures
        !(install_step(p, event).1 is Save),
        install_step(p, event).0.job == p.job,
{
}

/// The registry is saved only as the last thing before an install is
/// reported: a pipeline that ends early, for whatever reason, has not asked
/// for it, and what is saved is the registry as it was read with the one
/// new entry recorded.
pub proof fn lemma_registry_saved_last(p: PipelineView, event: EventView)
    ensures
        install_step(p, event).1 is Save ==> {
            &&& p.stage == Stage::Recording
            &&& install_step(p, event).0.stage == Stage::Saving
            &&& event is Records
            &&& p.descriptor is Some
            &&& p.target is Some
            &&& install_step(p, event).1->Save_0 == recorded(
                event->Records_0,
                entry_of(
                    p.job,
                    p.descriptor->Some_0,
                    p.target->Some_0,
                    event->Records_1,
                    event->Records_2,
                ),
            )
        },
{
}

/// An install that an upgrade asked for records what the upgrade compared:
/// the entry that is saved has the name, the fingerprint and the version
/// that the upgrade knows, it is the only entry of that name where the
/// registry was well formed, and every entry of another name stays as it
/// was.
pub proof fn lemma_known_values_are_recorded(
    p: PipelineView,
    entries: Seq<PackageView>,
    bytes: Option<Seq<u8>>,
    manifest: Option<Seq<char>>,
)
    requires
        p.stage == Stage::Recording,
        p.job.known is Some,
        !p.job.local,
        p.descriptor is Some,
        p.target is Some,
        crate::registry::unique_names(entries),
    ensures
        install_step(p, EventView::Records(entries, bytes, manifest)).1 is Save,
        ({
            let saved = install_step(p, EventView::Records(entries, bytes, manifest)).1->Save_0;
            let k = p.job.known->Some_0;
            let at = crate::registry::position_of(saved, k.name);
            &&& crate::registry::unique_names(saved)
            &&& 0 <= at < saved.len()
            &&& saved[at].name == k.name
            &&& saved[at].hash == Some(k.hash)
            &&& saved[at].version == k.version
            &&& forall|i: int| 0 <= i < saved.len() && i != at ==> saved[i].name != k.name
            &&& forall|i: int|
                0 <= i < entries.len() && entries[i].name != k.name ==> saved[i] == entries[i]
        }),
{
    let k = p.job.known->Some_0;
    let e = entry_of(p.job, p.descriptor->Some_0, p.target->Some_0, bytes, manifest);
    crate::registry::lemma_record_keeps_unique(entries, e);
    crate::registry::lemma_position(entries, k.name, 0);
    let saved = recorded(entries, e);
    crate::registry::lemma_position(saved, k.name, 0);
    let at0 = crate::registry::position_of(entries, k.name);
    if at0 < entries.len() {
        assert(saved[at0].name == k.name);
    } else {
        assert(saved[entries.len() as int].name == k.name);
    }
}

/// A tool that is not found stops the pipeline before anything is built:
/// the pipeline ends and names the tool among the missing ones.
pub proof fn lemma_missing_tool_stops(
    p: PipelineView,
    found: Seq<bool>,
    present: Seq<Seq<char>>,
    i: int,
)
    requires
        p.stage == Stage::Checking,
        p.descriptor is Some,
        0 <= i < p.descriptor->Some_0.tools.len(),
        !crate::host::resolved(found, i),
    ensures
        install_step(p, EventView::Tools(found, present)).0.stage == Stage::Done,
        install_step(p, EventView::Tools(found, present)).1 matches ActionView::Finish(
            OutcomeView::MissingTools(tools, _),
        ) && tools.contains(p.descriptor->Some_0.tools[i]),
{
    crate::host::lemma_missing_reports_all(p.descriptor->Some_0.tools, found, i);
}

/// A pipeline that has ended stays ended.
pub proof fn lemma_done_is_final(p: PipelineView, event: EventView)
    requires
        p.stage == Stage::Done,
    ensures
        install_step(p, event) == stop(p, OutcomeView::OutOfOrder),
{
}

} // verus!
