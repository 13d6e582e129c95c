//! The upgrade engine: for a package that was installed before, whether
//! its sources have changed since its registry entry was written, and the
//! steps that bring it up to date.
//!
//! The registry entry says what was installed: the fingerprint and the
//! version of the build file are compared with it. What is stored beside
//! the registry says only where the sources come from.

use crate::command::{Exit, Invocation, InvocationView};
use crate::fetch::{host_tagged, Host};
use crate::fingerprint::{fingerprint, fingerprint_of};
use crate::host::{elevate, elevated};
use crate::install::{
    accepts, declines, is_no, is_yes, opt_known, InstallJob, JobView, Known, KnownView,
};
use crate::registry::{
    copy_opt, packages, position_of, InstalledPackage, PackageView, Registry,
};
use crate::store::opt_package;
use crate::scan::{quoted_field, read_quoted_field};
use crate::text::{
    chars_of, join_path, lines, opt_text, path_join, same_text, second_word, slices, split_lines,
    string_of, strip_prefix, texts, trim, trimmed, without_prefix, word_two,
};
use vstd::prelude::*;

verus! {

/// What was stored about the sources of a package when it was installed:
/// where they come from.
pub struct StoredRecord {
    /// The branch that was fetched.
    pub branch: Option<String>,
    /// The address of the sources; empty where none was stored.
    pub repo_url: String,
}

/// A stored record as plain texts.
pub struct RecordView {
    pub branch: Option<Seq<char>>,
    pub repo_url: Seq<char>,
}

impl View for StoredRecord {
    type V = RecordView;

    open spec fn view(&self) -> RecordView {
        RecordView { branch: opt_text(self.branch), repo_url: self.repo_url@ }
    }
}

/// A text, or the empty text where there is none.
pub open spec fn or_empty(o: Option<Seq<char>>) -> Seq<char> {
    match o {
        Some(t) => t,
        None => Seq::empty(),
    }
}

/// The record that a metadata text holds: the values of its lines for
/// `branch` and `repo_url`.
pub open spec fn record_of(text: Seq<char>) -> RecordView {
    RecordView {
        branch: quoted_field(text, "branch"@),
        repo_url: or_empty(quoted_field(text, "repo_url"@)),
    }
}

/// A text, or the empty text where there is none.
fn text_or_empty(o: &Option<String>) -> (r: String)
    ensures
        r@ == or_empty(opt_text(*o)),
{
    match o {
        Some(t) => t.clone(),
        None => {
            let e = String::new();
            assert(e@ =~= Seq::<char>::empty());
            e
        },
    }
}

/// Reads the record that a metadata text holds.
pub fn read_record(text: &str) -> (r: StoredRecord)
    ensures
        r@ == record_of(text@),
{
    StoredRecord {
        branch: read_quoted_field(text, "branch"),
        repo_url: text_or_empty(&read_quoted_field(text, "repo_url")),
    }
}

/// Whether a package has changed since it was recorded: its build file has
/// another fingerprint than the registry entry, or it states another
/// version. An entry without a fingerprint agrees with none; a missing
/// version counts as the empty one.
pub open spec fn has_changed(entry: PackageView, hash: Seq<char>, version: Option<Seq<char>>) -> bool {
    entry.hash != Some(hash) || or_empty(entry.version) != or_empty(version)
}

/// Decides whether a package has changed since it was recorded.
pub fn changed(entry: &InstalledPackage, hash: &str, version: &Option<String>) -> (r: bool)
    ensures
        r == has_changed(entry@, hash@, opt_text(*version)),
{
    let same_hash = match &entry.hash {
        Some(h) => same_text(h.as_str(), hash),
        None => false,
    };
    let old = text_or_empty(&entry.version);
    let new = text_or_empty(version);
    !same_hash || !same_text(old.as_str(), new.as_str())
}

/// The version that a build file states: that of a Cargo manifest, and
/// none for every other build file and where the manifest states none.
pub open spec fn fresh_version(build_file: Seq<char>, text: Option<Seq<char>>) -> Option<Seq<char>> {
    if build_file == "Cargo.toml"@ {
        quoted_field(or_empty(text), "version"@)
    } else {
        None
    }
}

/// Reads the version that a build file states.
pub fn read_fresh_version(build_file: &str, text: &Option<String>) -> (r: Option<String>)
    ensures
        opt_text(r) == fresh_version(build_file@, opt_text(*text)),
{
    if same_text(build_file, "Cargo.toml") {
        let t = text_or_empty(text);
        read_quoted_field(t.as_str(), "version")
    } else {
        None
    }
}

/// The branch that a line of a listing of remote heads names: the second
/// word of the line without `refs/heads/` before it.
pub open spec fn branch_on_line(l: Seq<char>) -> Option<Seq<char>> {
    match second_word(l) {
        Some(w) => strip_prefix(w, "refs/heads/"@),
        None => None,
    }
}

/// The branches that the lines `ls` name, from position `from` on.
pub open spec fn branches_from(ls: Seq<Seq<char>>, from: int) -> Seq<Seq<char>>
    decreases ls.len() - from,
{
    if from < 0 || from >= ls.len() {
        Seq::empty()
    } else {
        match branch_on_line(ls[from]) {
            Some(b) => seq![b] + branches_from(ls, from + 1),
            None => branches_from(ls, from + 1),
        }
    }
}

/// The branches that a listing of remote heads names, in its order.
pub open spec fn remote_branches(output: Seq<char>) -> Seq<Seq<char>> {
    branches_from(lines(output), 0)
}

/// Reads the branches out of a listing of remote heads.
pub fn get_remote_branches(output: &str) -> (r: Vec<String>)
    ensures
        texts(r@) == remote_branches(output@),
{
    let chars = chars_of(output);
    let ls = split_lines(chars.as_slice());
    let prefix = chars_of("refs/heads/");
    let mut out: Vec<String> = Vec::new();
    let mut i: usize = 0;
    while i < ls.len()
        invariant
            i <= ls@.len(),
            prefix@ == "refs/heads/"@,
            slices(ls@) == lines(output@),
            remote_branches(output@) == texts(out@) + branches_from(lines(output@), i as int),
        decreases ls@.len() - i,
    {
        let l: &[char] = ls[i];
        assert(l@ == slices(ls@)[i as int]);
        let found = match word_two(l) {
            Some(w) => without_prefix(w, prefix.as_slice()),
            None => None,
        };
        match found {
            Some(b) => {
                let ghost before = texts(out@);
                out.push(string_of(b));
                assert(texts(out@) =~= before + seq![b@]);
                assert(remote_branches(output@) =~= texts(out@) + branches_from(
                    lines(output@),
                    i + 1,
                ));
            },
            None => {},
        }
        i += 1;
    }
    assert(texts(out@) =~= remote_branches(output@));
    out
}

/// Whether `c` is a decimal digit.
pub open spec fn is_digit(c: char) -> bool {
    '0' <= c <= '9'
}

/// The number that the digits of `s` from position `from` on write in
/// decimal, continuing `acc`; none where something else than a digit
/// stands there.
pub open spec fn digits_value(s: Seq<char>, from: int, acc: nat) -> Option<nat>
    decreases s.len() - from,
{
    if from < 0 || from >= s.len() {
        Some(acc)
    } else if is_digit(s[from]) {
        digits_value(s, from + 1, (acc * 10 + (s[from] as u32 - '0' as u32)) as nat)
    } else {
        None
    }
}

/// The number that `s` writes: decimal digits, at least one, with a plus
/// sign before them or without.
pub open spec fn number(s: Seq<char>) -> Option<nat> {
    let start: int = if s.len() > 0 && s[0] == '+' {
        1
    } else {
        0
    };
    if start >= s.len() {
        None
    } else {
        digits_value(s, start, 0)
    }
}

/// Why an answer chooses no branch.
#[derive(Clone, Copy, Debug, PartialEq, Eq, Structural)]
pub enum ChoiceError {
    /// The answer is no number that the machine can hold.
    InvalidInput,
    /// The answer is a number, but none of the list.
    InvalidSelection,
}

/// The branch that an answer chooses out of `branches`, which are counted
/// from one.
pub open spec fn choice_of(answer: Seq<char>, branches: Seq<Seq<char>>) -> Result<
    Seq<char>,
    ChoiceError,
> {
    match number(trim(answer)) {
        None => Err(ChoiceError::InvalidInput),
        Some(n) => if n > usize::MAX {
            Err(ChoiceError::InvalidInput)
        } else if 1 <= n <= branches.len() {
            Ok(branches[n - 1])
        } else {
            Err(ChoiceError::InvalidSelection)
        },
    }
}

/// A number written by digits is at least what it continues.
pub proof fn lemma_digits_grow(s: Seq<char>, from: int, acc: nat)
    requires
        0 <= from,
    ensures
        digits_value(s, from, acc) matches Some(v) ==> v >= acc,
    decreases s.len() - from,
{
    if from < s.len() && is_digit(s[from]) {
        lemma_digits_grow(s, from + 1, (acc * 10 + (s[from] as u32 - '0' as u32)) as nat);
    }
}

/// Reads the number that `s` writes, as far as the machine can hold it.
fn read_number(s: &[char]) -> (r: Option<usize>)
    ensures
        match r {
            Some(n) => number(s@) == Some(n as nat),
            None => number(s@) matches Some(v) ==> v > usize::MAX,
        },
{
    let start: usize = if s.len() > 0 && s[0] == '+' {
        1
    } else {
        0
    };
    if start >= s.len() {
        return None;
    }
    let mut acc: usize = 0;
    let mut i: usize = start;
    while i < s.len()
        invariant
            start <= i <= s@.len(),
            number(s@) == digits_value(s@, i as int, acc as nat),
        decreases s@.len() - i,
    {
        let c: char = s[i];
        if !('0' <= c && c <= '9') {
            return None;
        }
        let d: usize = (c as u32 - '0' as u32) as usize;
        let next = match acc.checked_mul(10) {
            Some(m) => m.checked_add(d),
            None => None,
        };
        match next {
            Some(n) => {
                acc = n;
            },
            None => {
                proof {
                    lemma_digits_grow(s@, i + 1, (acc * 10 + d) as nat);
                }
                return None;
            },
        }
        i += 1;
    }
    Some(acc)
}

/// Chooses a branch out of `branches` by the operator's answer.
pub fn choose_branch(answer: &str, branches: &Vec<String>) -> (r: Result<String, ChoiceError>)
    ensures
        match r {
            Ok(b) => choice_of(answer@, texts(branches@)) == Ok::<Seq<char>, ChoiceError>(b@),
            Err(e) => choice_of(answer@, texts(branches@)) == Err::<Seq<char>, ChoiceError>(e),
        },
{
    let chars = chars_of(answer);
    let t = trimmed(chars.as_slice());
    match read_number(t) {
        Some(n) => {
            if 1 <= n && n <= branches.len() {
                assert(texts(branches@)[n - 1] == branches@[n - 1]@);
                Ok(branches[n - 1].clone())
            } else {
                Err(ChoiceError::InvalidSelection)
            }
        },
        None => Err(ChoiceError::InvalidInput),
    }
}

/// Whether an upgrade goes ahead after its warning was shown: always where
/// nothing is asked, else only where the operator accepted.
pub open spec fn goes_ahead(yes: bool, answer: Option<Seq<char>>) -> bool {
    yes || (answer matches Some(a) && accepts(a))
}

/// Decides whether an upgrade goes ahead after its warning was shown.
pub fn confirmed(yes: bool, answer: &Option<String>) -> (r: bool)
    ensures
        r == goes_ahead(yes, opt_text(*answer)),
{
    if yes {
        true
    } else {
        match answer {
            Some(a) => is_yes(a.as_str()),
            None => false,
        }
    }
}

/// The directory in which what was stored about `package` is kept.
pub open spec fn store_of(package: Seq<char>) -> Seq<char> {
    path_join("/var/lib/radon/buildfiles"@, package)
}

/// The scratch directory into which `package` is fetched again.
pub open spec fn scratch_of(package: Seq<char>) -> Seq<char> {
    path_join("/tmp/radon/upgrade"@, package)
}

/// The packages that an upgrade looks at: the one that is named, or all
/// that the registry holds, in its order.
pub open spec fn targets_of(package: Option<Seq<char>>, entries: Seq<PackageView>) -> Seq<
    Seq<char>,
> {
    match package {
        Some(p) => seq![p],
        None => Seq::new(entries.len(), |i: int| entries[i].name),
    }
}

/// Names the packages that an upgrade looks at.
pub fn upgrade_targets(package: Option<&str>, registry: &Registry) -> (r: Vec<String>)
    ensures
        texts(r@) == targets_of(crate::install::opt_str(package), registry@),
{
    match package {
        Some(p) => {
            let mut out: Vec<String> = Vec::new();
            out.push(p.to_owned());
            assert(texts(out@) =~= seq![p@]);
            out
        },
        None => registry.names(),
    }
}

/// How far the upgrade of a package has come. Each stage but the first
/// and the last waits for the end of the action that was asked for on
/// entering it.
#[derive(Clone, Copy, Debug, PartialEq, Eq, Structural)]
pub enum UpgradeStage {
    Start,
    Looking,
    Loading,
    Resetting,
    ListingBranches,
    Choosing,
    Cloning,
    Comparing,
    Offering,
    Diffing,
    Confirming,
    Installing,
    Copying,
    Done,
}

/// How the upgrade of a package ended.
#[derive(Clone, Copy, Debug, PartialEq, Eq, Structural)]
pub enum UpgradeOutcome {
    /// The package was installed anew.
    Upgraded,
    /// The package has not changed; nothing was done.
    UpToDate,
    /// The operator declined the upgrade.
    Skipped,
    /// The registry holds no such package.
    NotInstalled,
    /// Nothing was stored about the package.
    NoBuildFiles,
    /// What was stored about the package has no metadata.
    NoMetadata,
    /// The metadata names no address.
    NoRepoUrl,
    /// The remote names no branch.
    NoBranches,
    /// The operator's answer is a number, but not one of the list.
    InvalidSelection,
    /// The operator's answer is no number.
    InvalidInput,
    /// The sources could not be cloned.
    CloneFailed,
    /// The registry entry names no build file.
    NoBuildFile,
    /// The build file is not among the sources any more.
    BuildFileMissing,
    /// The engine was told something that does not belong to its stage.
    OutOfOrder,
}

/// What the caller finds where the record of a package should be.
pub enum Stored {
    /// The package has no directory in the store.
    NoDirectory,
    /// The directory holds no metadata.
    NoFile,
    /// The metadata, or none where it cannot be read.
    Text(Option<String>),
}

/// What the caller tells the engine.
pub enum UpgradeEvent {
    /// The upgrade may begin.
    Begin,
    /// The action was carried out.
    Done,
    /// The run ended so.
    Exited(Exit),
    /// The entries of the registry.
    Registry(Vec<InstalledPackage>),
    /// What is stored about the package.
    Record(Stored),
    /// What the run printed; none where it failed.
    Output(Option<String>),
    /// What the operator answered.
    Answer(String),
    /// Whether the build file is there, its bytes and its text; none for
    /// what cannot be read.
    BuildFile(bool, Option<Vec<u8>>, Option<String>),
}

/// An event as plain values.
pub enum UpgradeEventView {
    Begin,
    Done,
    Exited(Exit),
    Registry(Seq<PackageView>),
    NoDirectory,
    NoFile,
    Record(Option<Seq<char>>),
    Output(Option<Seq<char>>),
    Answer(Seq<char>),
    BuildFile(bool, Option<Seq<u8>>, Option<Seq<char>>),
}

impl View for UpgradeEvent {
    type V = UpgradeEventView;

    open spec fn view(&self) -> UpgradeEventView {
        match self {
            UpgradeEvent::Begin => UpgradeEventView::Begin,
            UpgradeEvent::Done => UpgradeEventView::Done,
            UpgradeEvent::Exited(e) => UpgradeEventView::Exited(*e),
            UpgradeEvent::Registry(e) => UpgradeEventView::Registry(packages(e@)),
            UpgradeEvent::Record(Stored::NoDirectory) => UpgradeEventView::NoDirectory,
            UpgradeEvent::Record(Stored::NoFile) => UpgradeEventView::NoFile,
            UpgradeEvent::Record(Stored::Text(t)) => UpgradeEventView::Record(opt_text(*t)),
            UpgradeEvent::Output(t) => UpgradeEventView::Output(opt_text(*t)),
            UpgradeEvent::Answer(t) => UpgradeEventView::Answer(t@),
            UpgradeEvent::BuildFile(x, b, t) => UpgradeEventView::BuildFile(
                *x,
                crate::install::opt_bytes(*b),
                opt_text(*t),
            ),
        }
    }
}

/// What the engine asks its caller to do.
pub enum UpgradeAction {
    /// Read the registry. Answered by `Registry`.
    Lookup,
    /// Read the metadata at the second path, which lies in the directory
    /// at the first. Answered by `Record`.
    LoadRecord(String, String),
    /// Make this directory anew and empty. Answered by `Done`.
    Reset(String),
    /// Make this run and keep what it prints. Answered by `Output`.
    Capture(Invocation),
    /// Show these branches, numbered from one, and ask for a number.
    /// Answered by `Answer`.
    Choose(Vec<String>),
    /// Make this run. Answered by `Exited`.
    Run(Invocation),
    /// Read this build file. Answered by `BuildFile`.
    ReadBuildFile(String),
    /// Show the old and the new version and the old and the new
    /// fingerprint, in this order, and ask whether to show the
    /// differences. Answered by `Answer`.
    Offer(String, String, String, String),
    /// Ask whether to upgrade. Answered by `Answer`.
    Confirm,
    /// Run the install pipeline of this job to its end. Answered by
    /// `Done`.
    Install(InstallJob),
    /// Stop: the upgrade ended so.
    Finish(UpgradeOutcome),
}

/// An action as plain texts.
pub enum UpgradeActionView {
    Lookup,
    LoadRecord(Seq<char>, Seq<char>),
    Reset(Seq<char>),
    Capture(InvocationView),
    Choose(Seq<Seq<char>>),
    Run(InvocationView),
    ReadBuildFile(Seq<char>),
    Offer(Seq<char>, Seq<char>, Seq<char>, Seq<char>),
    Confirm,
    Install(JobView),
    Finish(UpgradeOutcome),
}

impl View for UpgradeAction {
    type V = UpgradeActionView;

    open spec fn view(&self) -> UpgradeActionView {
        match self {
            UpgradeAction::Lookup => UpgradeActionView::Lookup,
            UpgradeAction::LoadRecord(d, f) => UpgradeActionView::LoadRecord(d@, f@),
            UpgradeAction::Reset(d) => UpgradeActionView::Reset(d@),
            UpgradeAction::Capture(r) => UpgradeActionView::Capture(r@),
            UpgradeAction::Choose(b) => UpgradeActionView::Choose(texts(b@)),
            UpgradeAction::Run(r) => UpgradeActionView::Run(r@),
            UpgradeAction::ReadBuildFile(f) => UpgradeActionView::ReadBuildFile(f@),
            UpgradeAction::Offer(a, b, c, d) => UpgradeActionView::Offer(a@, b@, c@, d@),
            UpgradeAction::Confirm => UpgradeActionView::Confirm,
            UpgradeAction::Install(j) => UpgradeActionView::Install(j@),
            UpgradeAction::Finish(o) => UpgradeActionView::Finish(*o),
        }
    }
}

/// The state of the upgrade of one package.
pub struct Upgrade {
    /// The name of the package.
    pub package: String,
    /// The branch to fetch: at first the one given on the command line,
    /// later the one that is used.
    pub branch: Option<String>,
    /// Whether the operator is asked nothing.
    pub yes: bool,
    /// The home directory of the user.
    pub home: String,
    /// The elevation command of the host.
    pub privilege: String,
    /// How far the upgrade has come.
    pub stage: UpgradeStage,
    /// The registry entry of the package, once it was found.
    pub entry: Option<InstalledPackage>,
    /// What was stored about the sources, once that was read.
    pub record: Option<StoredRecord>,
    /// The branches that the remote names, once they were listed.
    pub branches: Vec<String>,
    /// What the fetched sources were found to be, once they were compared
    /// with the entry.
    pub fresh: Option<Known>,
}

/// An upgrade as plain values.
pub struct UpgradeView {
    pub package: Seq<char>,
    pub branch: Option<Seq<char>>,
    pub yes: bool,
    pub home: Seq<char>,
    pub privilege: Seq<char>,
    pub stage: UpgradeStage,
    pub entry: Option<PackageView>,
    pub record: Option<RecordView>,
    pub branches: Seq<Seq<char>>,
    pub fresh: Option<KnownView>,
}

impl View for Upgrade {
    type V = UpgradeView;

    open spec fn view(&self) -> UpgradeView {
        UpgradeView {
            package: self.package@,
            branch: opt_text(self.branch),
            yes: self.yes,
            home: self.home@,
            privilege: self.privilege@,
            stage: self.stage,
            entry: opt_package(self.entry),
            record: match self.record {
                Some(r) => Some(r@),
                None => None,
            },
            branches: texts(self.branches@),
            fresh: opt_known(self.fresh),
        }
    }
}

/// The upgrade stops with `outcome`.
pub open spec fn halt(u: UpgradeView, outcome: UpgradeOutcome) -> (UpgradeView, UpgradeActionView) {
    (UpgradeView { stage: UpgradeStage::Done, ..u }, UpgradeActionView::Finish(outcome))
}

/// The upgrade goes on to `stage` and asks for `action`.
pub open spec fn proceed(u: UpgradeView, stage: UpgradeStage, action: UpgradeActionView) -> (
    UpgradeView,
    UpgradeActionView,
) {
    (UpgradeView { stage, ..u }, action)
}

/// The run that lists the heads of the remote at `url`.
pub open spec fn heads_of(url: Seq<char>) -> InvocationView {
    InvocationView {
        program: "git"@,
        args: seq!["ls-remote"@, "--heads"@, url],
        dir: None,
        quiet: false,
    }
}

/// The run that fetches the branch `branch` of the sources at `url` again,
/// into `dir`.
pub open spec fn refetch_of(url: Seq<char>, branch: Seq<char>, dir: Seq<char>) -> InvocationView {
    InvocationView {
        program: "git"@,
        args: seq!["clone"@, "--depth=1"@, "--branch"@, branch, url, dir],
        dir: None,
        quiet: false,
    }
}

/// The run that shows how the build file has changed.
pub open spec fn diff_of(old: Seq<char>, new: Seq<char>) -> InvocationView {
    InvocationView { program: "diff"@, args: seq!["-u"@, old, new], dir: None, quiet: false }
}

/// The job that installs the package of an upgrade anew: from the host that
/// its entry names and the address that was stored, from the branch in
/// use, for the system, and with what was compared handed on, so that the
/// new entry says what the comparison found.
pub open spec fn reinstall_job(u: UpgradeView, e: PackageView, k: KnownView) -> JobView {
    JobView {
        package: u.package,
        host: host_tagged(e.source),
        local: false,
        branch: u.branch,
        patches: None,
        flags: Seq::empty(),
        yes: u.yes,
        home: u.home,
        privilege: u.privilege,
        known: Some(k),
    }
}

/// The sources are fetched again, from the branch `b`.
pub open spec fn refetch(u: UpgradeView, r: RecordView, b: Seq<char>) -> (
    UpgradeView,
    UpgradeActionView,
) {
    (
        UpgradeView { stage: UpgradeStage::Cloning, branch: Some(b), ..u },
        UpgradeActionView::Run(refetch_of(r.repo_url, b, scratch_of(u.package))),
    )
}

/// After the registry was read: a package that is not installed is not
/// upgraded; of one that is, the entry is kept, the first of its name.
pub open spec fn after_lookup(u: UpgradeView, entries: Seq<PackageView>) -> (
    UpgradeView,
    UpgradeActionView,
) {
    let at = position_of(entries, u.package);
    if 0 <= at < entries.len() {
        (
            UpgradeView { stage: UpgradeStage::Loading, entry: Some(entries[at]), ..u },
            UpgradeActionView::LoadRecord(
                store_of(u.package),
                path_join(store_of(u.package), "metadata.toml"@),
            ),
        )
    } else {
        halt(u, UpgradeOutcome::NotInstalled)
    }
}

/// After the metadata was read. Metadata that cannot be read counts as
/// empty.
pub open spec fn after_record(u: UpgradeView, text: Option<Seq<char>>) -> (
    UpgradeView,
    UpgradeActionView,
) {
    (
        UpgradeView {
            stage: UpgradeStage::Resetting,
            record: Some(record_of(or_empty(text))),
            ..u
        },
        UpgradeActionView::Reset(scratch_of(u.package)),
    )
}

/// After the scratch directory was made anew: the sources are fetched from
/// the branch given on the command line, else from the stored one; where
/// there is neither, the branches of the remote are listed.
pub open spec fn after_reset(u: UpgradeView) -> (UpgradeView, UpgradeActionView) {
    match u.record {
        None => halt(u, UpgradeOutcome::OutOfOrder),
        Some(r) => if r.repo_url.len() == 0 {
            halt(u, UpgradeOutcome::NoRepoUrl)
        } else {
            match u.branch {
                Some(b) => refetch(u, r, b),
                None => match r.branch {
                    Some(b) => refetch(u, r, b),
                    None => proceed(
                        u,
                        UpgradeStage::ListingBranches,
                        UpgradeActionView::Capture(heads_of(r.repo_url)),
                    ),
                },
            }
        },
    }
}

/// After the branches of the remote were listed.
pub open spec fn after_heads(u: UpgradeView, output: Option<Seq<char>>) -> (
    UpgradeView,
    UpgradeActionView,
) {
    let found = match output {
        Some(t) => remote_branches(t),
        None => Seq::empty(),
    };
    if found.len() == 0 {
        halt(u, UpgradeOutcome::NoBranches)
    } else {
        (
            UpgradeView { stage: UpgradeStage::Choosing, branches: found, ..u },
            UpgradeActionView::Choose(found),
        )
    }
}

/// After the operator chose a branch.
pub open spec fn after_choice(u: UpgradeView, answer: Seq<char>) -> (UpgradeView, UpgradeActionView) {
    match u.record {
        None => halt(u, UpgradeOutcome::OutOfOrder),
        Some(r) => match choice_of(answer, u.branches) {
            Ok(b) => refetch(u, r, b),
            Err(ChoiceError::InvalidSelection) => halt(u, UpgradeOutcome::InvalidSelection),
            Err(ChoiceError::InvalidInput) => halt(u, UpgradeOutcome::InvalidInput),
        },
    }
}

/// The build file that a registry entry records; empty where it records
/// none.
pub open spec fn entry_build_file(e: PackageView) -> Seq<char> {
    or_empty(e.build_file)
}

/// After the sources were fetched again: the build file that the entry
/// records is read.
pub open spec fn after_refetch(u: UpgradeView, e: Exit) -> (UpgradeView, UpgradeActionView) {
    match u.entry {
        None => halt(u, UpgradeOutcome::OutOfOrder),
        Some(entry) => if e != Exit::Success {
            halt(u, UpgradeOutcome::CloneFailed)
        } else if entry_build_file(entry).len() == 0 {
            halt(u, UpgradeOutcome::NoBuildFile)
        } else {
            proceed(
                u,
                UpgradeStage::Comparing,
                UpgradeActionView::ReadBuildFile(
                    path_join(scratch_of(u.package), entry_build_file(entry)),
                ),
            )
        },
    }
}

/// The package is installed anew.
pub open spec fn reinstall(u: UpgradeView) -> (UpgradeView, UpgradeActionView) {
    match (u.entry, u.fresh) {
        (Some(e), Some(k)) => proceed(
            u,
            UpgradeStage::Installing,
            UpgradeActionView::Install(reinstall_job(u, e, k)),
        ),
        _ => halt(u, UpgradeOutcome::OutOfOrder),
    }
}

/// What the fetched sources are found to be: the name of the entry, the
/// stored address, and the fingerprint and version of the build file as it
/// was read. A build file that cannot be read counts as empty.
pub open spec fn found(
    e: PackageView,
    r: RecordView,
    bytes: Option<Seq<u8>>,
    text: Option<Seq<char>>,
) -> KnownView {
    KnownView {
        name: e.name,
        address: r.repo_url,
        hash: fingerprint_of(
            match bytes {
                Some(b) => b,
                None => Seq::empty(),
            },
        ),
        version: fresh_version(entry_build_file(e), text),
    }
}

/// After the build file was read: it is compared with the registry entry.
/// A package whose fingerprint and version are those of its entry is left
/// alone. One that has changed is installed anew, after the operator was
/// asked unless nothing is asked.
pub open spec fn after_build_file(
    u: UpgradeView,
    exists: bool,
    bytes: Option<Seq<u8>>,
    text: Option<Seq<char>>,
) -> (UpgradeView, UpgradeActionView) {
    match (u.entry, u.record) {
        (Some(e), Some(r)) => {
            let k = found(e, r, bytes, text);
            let v = UpgradeView { fresh: Some(k), ..u };
            if !exists {
                halt(u, UpgradeOutcome::BuildFileMissing)
            } else if !has_changed(e, k.hash, k.version) {
                halt(u, UpgradeOutcome::UpToDate)
            } else if u.yes {
                reinstall(v)
            } else {
                proceed(
                    v,
                    UpgradeStage::Offering,
                    UpgradeActionView::Offer(
                        or_empty(e.version),
                        or_empty(k.version),
                        or_empty(e.hash),
                        k.hash,
                    ),
                )
            }
        },
        _ => halt(u, UpgradeOutcome::OutOfOrder),
    }
}

/// After the operator was offered the differences.
pub open spec fn after_offer(u: UpgradeView, answer: Seq<char>) -> (UpgradeView, UpgradeActionView) {
    match u.entry {
        None => halt(u, UpgradeOutcome::OutOfOrder),
        Some(e) => if accepts(answer) {
            proceed(
                u,
                UpgradeStage::Diffing,
                UpgradeActionView::Run(
                    diff_of(
                        path_join(store_of(u.package), entry_build_file(e)),
                        path_join(scratch_of(u.package), entry_build_file(e)),
                    ),
                ),
            )
        } else {
            proceed(u, UpgradeStage::Confirming, UpgradeActionView::Confirm)
        },
    }
}

/// After the operator was asked whether to upgrade.
pub open spec fn after_confirm(u: UpgradeView, answer: Seq<char>) -> (
    UpgradeView,
    UpgradeActionView,
) {
    if declines(answer) {
        halt(u, UpgradeOutcome::Skipped)
    } else {
        reinstall(u)
    }
}

/// After the package was installed anew: the fetched sources take the
/// place of what was stored.
pub open spec fn after_install(u: UpgradeView) -> (UpgradeView, UpgradeActionView) {
    proceed(
        u,
        UpgradeStage::Copying,
        UpgradeActionView::Run(
            elevated(
                u.privilege,
                seq!["cp"@, "-r"@, scratch_of(u.package), store_of(u.package)],
            ),
        ),
    )
}

/// The step of the upgrade `u` on being told `event`: the upgrade after
/// it, and the action that it asks for. An event that does not belong to
/// the stage ends the upgrade.
pub open spec fn upgrade_step(u: UpgradeView, event: UpgradeEventView) -> (
    UpgradeView,
    UpgradeActionView,
) {
    match (u.stage, event) {
        (UpgradeStage::Start, UpgradeEventView::Begin) => proceed(
            u,
            UpgradeStage::Looking,
            UpgradeActionView::Lookup,
        ),
        (UpgradeStage::Looking, UpgradeEventView::Registry(entries)) => after_lookup(u, entries),
        (UpgradeStage::Loading, UpgradeEventView::NoDirectory) => halt(
            u,
            UpgradeOutcome::NoBuildFiles,
        ),
        (UpgradeStage::Loading, UpgradeEventView::NoFile) => halt(u, UpgradeOutcome::NoMetadata),
        (UpgradeStage::Loading, UpgradeEventView::Record(text)) => after_record(u, text),
        (UpgradeStage::Resetting, UpgradeEventView::Done) => after_reset(u),
        (UpgradeStage::ListingBranches, UpgradeEventView::Output(o)) => after_heads(u, o),
        (UpgradeStage::Choosing, UpgradeEventView::Answer(a)) => after_choice(u, a),
        (UpgradeStage::Cloning, UpgradeEventView::Exited(e)) => after_refetch(u, e),
        (UpgradeStage::Comparing, UpgradeEventView::BuildFile(x, b, t)) => after_build_file(
            u,
            x,
            b,
            t,
        ),
        (UpgradeStage::Offering, UpgradeEventView::Answer(a)) => after_offer(u, a),
        (UpgradeStage::Diffing, UpgradeEventView::Exited(_)) => proceed(
            u,
            UpgradeStage::Confirming,
            UpgradeActionView::Confirm,
        ),
        (UpgradeStage::Confirming, UpgradeEventView::Answer(a)) => after_confirm(u, a),
        (UpgradeStage::Installing, UpgradeEventView::Done) => after_install(u),
        (UpgradeStage::Copying, UpgradeEventView::Exited(_)) => halt(u, UpgradeOutcome::Upgraded),
        _ => halt(u, UpgradeOutcome::OutOfOrder),
    }
}

/// The upgrade of `package` of which nothing was done yet.
pub open spec fn fresh_upgrade(
    package: Seq<char>,
    branch: Option<Seq<char>>,
    yes: bool,
    home: Seq<char>,
    privilege: Seq<char>,
) -> UpgradeView {
    UpgradeView {
        package,
        branch,
        yes,
        home,
        privilege,
        stage: UpgradeStage::Start,
        entry: None,
        record: None,
        branches: Seq::empty(),
        fresh: None,
    }
}

/// Three texts in a row.
fn triple(a: &str, b: &str, c: &str) -> (r: Vec<String>)
    ensures
        texts(r@) == seq![a@, b@, c@],
{
    let mut out: Vec<String> = Vec::new();
    out.push(a.to_owned());
    out.push(b.to_owned());
    out.push(c.to_owned());
    assert(texts(out@) =~= seq![a@, b@, c@]);
    out
}

/// A run of `program` that is shown, in the caller's directory.
fn shown(program: &str, args: Vec<String>) -> (r: Invocation)
    ensures
        r@ == (InvocationView { program: program@, args: texts(args@), dir: None, quiet: false }),
{
    Invocation { program: program.to_owned(), args, dir: None, quiet: false }
}

impl Upgrade {
    /// The upgrade of `package`, of which nothing was done yet.
    pub fn new(package: &str, branch: Option<&str>, yes: bool, home: &str, privilege: &str) -> (r:
        Upgrade)
        ensures
            r@ == fresh_upgrade(
                package@,
                crate::install::opt_str(branch),
                yes,
                home@,
                privilege@,
            ),
    {
        let r = Upgrade {
            package: package.to_owned(),
            branch: match branch {
                Some(b) => Some(b.to_owned()),
                None => None,
            },
            yes,
            home: home.to_owned(),
            privilege: privilege.to_owned(),
            stage: UpgradeStage::Start,
            entry: None,
            record: None,
            branches: Vec::new(),
            fresh: None,
        };
        assert(r@.branches =~= Seq::<Seq<char>>::empty());
        r
    }

    /// The directory in which what was stored about the package is kept.
    pub fn store(&self) -> (r: String)
        ensures
            r@ == store_of(self@.package),
    {
        join_path("/var/lib/radon/buildfiles", self.package.as_str())
    }

    /// The scratch directory into which the package is fetched again.
    pub fn scratch(&self) -> (r: String)
        ensures
            r@ == scratch_of(self@.package),
    {
        join_path("/tmp/radon/upgrade", self.package.as_str())
    }

    /// Takes the step that `halt` describes.
    fn halt(&mut self, outcome: UpgradeOutcome) -> (r: UpgradeAction)
        ensures
            (final(self)@, r@) == halt(old(self)@, outcome),
    {
        self.stage = UpgradeStage::Done;
        UpgradeAction::Finish(outcome)
    }

    /// Takes the step that `proceed` describes.
    fn proceed(&mut self, stage: UpgradeStage, action: UpgradeAction) -> (r: UpgradeAction)
        ensures
            (final(self)@, r@) == proceed(old(self)@, stage, action@),
    {
        self.stage = stage;
        action
    }

    /// A copy of the stored record.
    fn stored(&self) -> (r: Option<StoredRecord>)
        ensures
            match r {
                Some(x) => self@.record == Some(x@),
                None => self@.record is None,
            },
    {
        match &self.record {
            Some(x) => Some(
                StoredRecord { branch: copy_opt(&x.branch), repo_url: x.repo_url.clone() },
            ),
            None => None,
        }
    }

    /// A copy of the registry entry.
    fn found_entry(&self) -> (r: Option<InstalledPackage>)
        ensures
            opt_package(r) == self@.entry,
    {
        match &self.entry {
            Some(e) => Some(e.copy()),
            None => None,
        }
    }

    /// Takes the step that `refetch` describes.
    fn refetch(&mut self, record: &StoredRecord, branch: String) -> (r: UpgradeAction)
        ensures
            (final(self)@, r@) == refetch(old(self)@, record@, branch@),
    {
        let mut args: Vec<String> = Vec::new();
        args.push("clone".to_owned());
        args.push("--depth=1".to_owned());
        args.push("--branch".to_owned());
        args.push(branch.clone());
        args.push(record.repo_url.clone());
        args.push(self.scratch());
        assert(texts(args@) =~= seq![
            "clone"@,
            "--depth=1"@,
            "--branch"@,
            branch@,
            record@.repo_url,
            scratch_of(self@.package),
        ]);
        self.branch = Some(branch);
        self.stage = UpgradeStage::Cloning;
        UpgradeAction::Run(shown("git", args))
    }

    /// Takes the step that `after_lookup` describes.
    fn after_lookup(&mut self, entries: Vec<InstalledPackage>) -> (r: UpgradeAction)
        ensures
            (final(self)@, r@) == after_lookup(old(self)@, packages(entries@)),
    {
        let registry = Registry::from_entries(entries);
        proof {
            crate::registry::lemma_position(registry@, self.package@, 0);
        }
        match registry.find(self.package.as_str()) {
            Some(e) => {
                proof {
                    crate::registry::lemma_found_iff_installed(registry@, self.package@);
                }
                let store = self.store();
                let file = join_path(store.as_str(), "metadata.toml");
                self.entry = Some(e.copy());
                self.stage = UpgradeStage::Loading;
                UpgradeAction::LoadRecord(store, file)
            },
            None => {
                proof {
                    crate::registry::lemma_found_iff_installed(registry@, self.package@);
                }
                self.halt(UpgradeOutcome::NotInstalled)
            },
        }
    }

    /// Takes the step that `after_record` describes.
    fn after_record(&mut self, text: Option<String>) -> (r: UpgradeAction)
        ensures
            (final(self)@, r@) == after_record(old(self)@, opt_text(text)),
    {
        let t = text_or_empty(&text);
        self.record = Some(read_record(t.as_str()));
        self.stage = UpgradeStage::Resetting;
        UpgradeAction::Reset(self.scratch())
    }

    /// Takes the step that `after_reset` describes.
    fn after_reset(&mut self) -> (r: UpgradeAction)
        ensures
            (final(self)@, r@) == after_reset(old(self)@),
    {
        match self.stored() {
            None => self.halt(UpgradeOutcome::OutOfOrder),
            Some(record) => {
                if chars_of(record.repo_url.as_str()).len() == 0 {
                    return self.halt(UpgradeOutcome::NoRepoUrl);
                }
                match copy_opt(&self.branch) {
                    Some(b) => self.refetch(&record, b),
                    None => match copy_opt(&record.branch) {
                        Some(b) => self.refetch(&record, b),
                        None => {
                            let args = triple("ls-remote", "--heads", record.repo_url.as_str());
                            self.proceed(
                                UpgradeStage::ListingBranches,
                                UpgradeAction::Capture(shown("git", args)),
                            )
                        },
                    },
                }
            },
        }
    }

    /// Takes the step that `after_heads` describes.
    fn after_heads(&mut self, output: Option<String>) -> (r: UpgradeAction)
        ensures
            (final(self)@, r@) == after_heads(old(self)@, opt_text(output)),
    {
        let found = match output {
            Some(t) => get_remote_branches(t.as_str()),
            None => {
                let none: Vec<String> = Vec::new();
                assert(texts(none@) =~= Seq::<Seq<char>>::empty());
                none
            },
        };
        if found.len() == 0 {
            self.halt(UpgradeOutcome::NoBranches)
        } else {
            let shown = crate::text::copy_texts(&found);
            self.branches = found;
            self.stage = UpgradeStage::Choosing;
            UpgradeAction::Choose(shown)
        }
    }

    /// Takes the step that `after_choice` describes.
    fn after_choice(&mut self, answer: &str) -> (r: UpgradeAction)
        ensures
            (final(self)@, r@) == after_choice(old(self)@, answer@),
    {
        match self.stored() {
            None => self.halt(UpgradeOutcome::OutOfOrder),
            Some(record) => match choose_branch(answer, &self.branches) {
                Ok(b) => self.refetch(&record, b),
                Err(ChoiceError::InvalidSelection) => self.halt(UpgradeOutcome::InvalidSelection),
                Err(ChoiceError::InvalidInput) => self.halt(UpgradeOutcome::InvalidInput),
            },
        }
    }

    /// Takes the step that `after_refetch` describes.
    fn after_refetch(&mut self, e: Exit) -> (r: UpgradeAction)
        ensures
            (final(self)@, r@) == after_refetch(old(self)@, e),
    {
        match self.found_entry() {
            None => self.halt(UpgradeOutcome::OutOfOrder),
            Some(entry) => {
                let ok = match e {
                    Exit::Success => true,
                    _ => false,
                };
                let file = text_or_empty(&entry.build_file);
                if !ok {
                    self.halt(UpgradeOutcome::CloneFailed)
                } else if chars_of(file.as_str()).len() == 0 {
                    self.halt(UpgradeOutcome::NoBuildFile)
                } else {
                    let path = join_path(self.scratch().as_str(), file.as_str());
                    self.proceed(UpgradeStage::Comparing, UpgradeAction::ReadBuildFile(path))
                }
            },
        }
    }

    /// Takes the step that `reinstall` describes.
    fn reinstall(&mut self) -> (r: UpgradeAction)
        ensures
            (final(self)@, r@) == reinstall(old(self)@),
    {
        let fresh = match &self.fresh {
            Some(k) => Some(k.copy()),
            None => None,
        };
        match (self.found_entry(), fresh) {
            (Some(e), Some(k)) => {
                let flags: Vec<String> = Vec::new();
                assert(texts(flags@) =~= Seq::<Seq<char>>::empty());
                let job = InstallJob {
                    package: self.package.clone(),
                    host: Host::from_tag(&e.source),
                    local: false,
                    branch: copy_opt(&self.branch),
                    patches: None,
                    flags,
                    yes: self.yes,
                    home: self.home.clone(),
                    privilege: self.privilege.clone(),
                    known: Some(k),
                };
                self.proceed(UpgradeStage::Installing, UpgradeAction::Install(job))
            },
            _ => self.halt(UpgradeOutcome::OutOfOrder),
        }
    }

    /// Takes the step that `after_build_file` describes.
    fn after_build_file(&mut self, exists: bool, bytes: &Option<Vec<u8>>, text: &Option<String>) -> (r:
        UpgradeAction)
        ensures
            (final(self)@, r@) == after_build_file(
                old(self)@,
                exists,
                crate::install::opt_bytes(*bytes),
                opt_text(*text),
            ),
    {
        match (self.found_entry(), self.stored()) {
            (Some(e), Some(record)) => {
                if !exists {
                    return self.halt(UpgradeOutcome::BuildFileMissing);
                }
                let hash = match bytes {
                    Some(b) => fingerprint(b.as_slice()),
                    None => {
                        let none: Vec<u8> = Vec::new();
                        assert(none@ =~= Seq::<u8>::empty());
                        fingerprint(none.as_slice())
                    },
                };
                let file = text_or_empty(&e.build_file);
                let version = read_fresh_version(file.as_str(), text);
                if !changed(&e, hash.as_str(), &version) {
                    return self.halt(UpgradeOutcome::UpToDate);
                }
                let old_version = text_or_empty(&e.version);
                let new_version = text_or_empty(&version);
                let old_hash = text_or_empty(&e.hash);
                let new_hash = hash.clone();
                self.fresh = Some(
                    Known { name: e.name.clone(), address: record.repo_url, hash, version },
                );
                if self.yes {
                    self.reinstall()
                } else {
                    self.proceed(
                        UpgradeStage::Offering,
                        UpgradeAction::Offer(old_version, new_version, old_hash, new_hash),
                    )
                }
            },
            _ => self.halt(UpgradeOutcome::OutOfOrder),
        }
    }

    /// Takes the step that `after_offer` describes.
    fn after_offer(&mut self, answer: &str) -> (r: UpgradeAction)
        ensures
            (final(self)@, r@) == after_offer(old(self)@, answer@),
    {
        match self.found_entry() {
            None => self.halt(UpgradeOutcome::OutOfOrder),
            Some(e) => {
                if is_yes(answer) {
                    let file = text_or_empty(&e.build_file);
                    let old_file = join_path(self.store().as_str(), file.as_str());
                    let new_file = join_path(self.scratch().as_str(), file.as_str());
                    let args = triple("-u", old_file.as_str(), new_file.as_str());
                    self.proceed(UpgradeStage::Diffing, UpgradeAction::Run(shown("diff", args)))
                } else {
                    self.proceed(UpgradeStage::Confirming, UpgradeAction::Confirm)
                }
            },
        }
    }

    /// Takes the step that `after_confirm` describes.
    fn after_confirm(&mut self, answer: &str) -> (r: UpgradeAction)
        ensures
            (final(self)@, r@) == after_confirm(old(self)@, answer@),
    {
        if is_no(answer) {
            self.halt(UpgradeOutcome::Skipped)
        } else {
            self.reinstall()
        }
    }

    /// Takes the step that `after_install` describes.
    fn after_install(&mut self) -> (r: UpgradeAction)
        ensures
            (final(self)@, r@) == after_install(old(self)@),
    {
        let mut words: Vec<String> = Vec::new();
        words.push("cp".to_owned());
        words.push("-r".to_owned());
        words.push(self.scratch());
        words.push(self.store());
        assert(texts(words@) =~= seq![
            "cp"@,
            "-r"@,
            scratch_of(self@.package),
            store_of(self@.package),
        ]);
        let run = elevate(self.privilege.as_str(), words);
        self.proceed(UpgradeStage::Copying, UpgradeAction::Run(run))
    }
}

/// Advances the upgrade of one package by one step: the engine is told
/// `event` and says what is to be done next.
pub fn upgrade(u: &mut Upgrade, event: UpgradeEvent) -> (r: UpgradeAction)
    ensures
        (final(u)@, r@) == upgrade_step(old(u)@, event@),
{
    let stage = u.stage;
    match (stage, event) {
        (UpgradeStage::Start, UpgradeEvent::Begin) => u.proceed(
            UpgradeStage::Looking,
            UpgradeAction::Lookup,
        ),
        (UpgradeStage::Looking, UpgradeEvent::Registry(entries)) => u.after_lookup(entries),
        (UpgradeStage::Loading, UpgradeEvent::Record(Stored::NoDirectory)) => u.halt(
            UpgradeOutcome::NoBuildFiles,
        ),
        (UpgradeStage::Loading, UpgradeEvent::Record(Stored::NoFile)) => u.halt(
            UpgradeOutcome::NoMetadata,
        ),
        (UpgradeStage::Loading, UpgradeEvent::Record(Stored::Text(text))) => u.after_record(text),
        (UpgradeStage::Resetting, UpgradeEvent::Done) => u.after_reset(),
        (UpgradeStage::ListingBranches, UpgradeEvent::Output(o)) => u.after_heads(o),
        (UpgradeStage::Choosing, UpgradeEvent::Answer(a)) => u.after_choice(a.as_str()),
        (UpgradeStage::Cloning, UpgradeEvent::Exited(e)) => u.after_refetch(e),
        (UpgradeStage::Comparing, UpgradeEvent::BuildFile(x, b, t)) => u.after_build_file(
            x,
            &b,
            &t,
        ),
        (UpgradeStage::Offering, UpgradeEvent::Answer(a)) => u.after_offer(a.as_str()),
        (UpgradeStage::Diffing, UpgradeEvent::Exited(_)) => u.proceed(
            UpgradeStage::Confirming,
            UpgradeAction::Confirm,
        ),
        (UpgradeStage::Confirming, UpgradeEvent::Answer(a)) => u.after_confirm(a.as_str()),
        (UpgradeStage::Installing, UpgradeEvent::Done) => u.after_install(),
        (UpgradeStage::Copying, UpgradeEvent::Exited(_)) => u.halt(UpgradeOutcome::Upgraded),
        _ => u.halt(UpgradeOutcome::OutOfOrder),
    }
}

/// A package whose build file has the fingerprint of its registry entry
/// and states the entry's version is left alone: the upgrade ends at once,
/// without asking for an install. A missing version counts as empty.
pub proof fn lemma_unchanged_is_left_alone(
    u: UpgradeView,
    bytes: Option<Seq<u8>>,
    text: Option<Seq<char>>,
)
    requires
        u.stage == UpgradeStage::Comparing,
        u.entry is Some,
        u.record is Some,
        u.entry->Some_0.hash == Some(
            fingerprint_of(
                match bytes {
                    Some(b) => b,
                    None => Seq::empty(),
                },
            ),
        ),
        or_empty(u.entry->Some_0.version) == or_empty(
            fresh_version(entry_build_file(u.entry->Some_0), text),
        ),
    ensures
        upgrade_step(u, UpgradeEventView::BuildFile(true, bytes, text)) == halt(
            u,
            UpgradeOutcome::UpToDate,
        ),
{
}

/// A package is treated as changed exactly where the fingerprint of its
/// build file is not that of its registry entry or the version it states
/// is not the entry's; a difference in either one alone suffices. Only
/// then does the upgrade go on beyond the comparison.
pub proof fn lemma_changed_iff_differs(
    u: UpgradeView,
    bytes: Option<Seq<u8>>,
    text: Option<Seq<char>>,
)
    requires
        u.stage == UpgradeStage::Comparing,
        u.entry is Some,
        u.record is Some,
    ensures
        ({
            let e = u.entry->Some_0;
            let k = found(e, u.record->Some_0, bytes, text);
            let step = upgrade_step(u, UpgradeEventView::BuildFile(true, bytes, text));
            &&& step == halt(u, UpgradeOutcome::UpToDate) <==> (e.hash == Some(k.hash) && or_empty(
                e.version,
            ) == or_empty(k.version))
            &&& e.hash != Some(k.hash) ==> step.0.stage != UpgradeStage::Done
            &&& or_empty(e.version) != or_empty(k.version) ==> step.0.stage != UpgradeStage::Done
        }),
{
}

/// An install is asked for only for a package that has changed, and, where
/// the operator is asked, only after the operator did not decline. The job
/// hands on what was compared: the name of the entry, the stored address,
/// and the fingerprint and version that were found, with the host that the
/// entry names.
pub proof fn lemma_install_needs_change(u: UpgradeView, event: UpgradeEventView)
    requires
        upgrade_step(u, event).1 is Install,
    ensures
        u.entry is Some,
        u.stage == UpgradeStage::Comparing || u.stage == UpgradeStage::Confirming,
        u.stage == UpgradeStage::Comparing ==> u.yes && u.record is Some && event is BuildFile
            && has_changed(
            u.entry->Some_0,
            found(
                u.entry->Some_0,
                u.record->Some_0,
                event->BuildFile_1,
                event->BuildFile_2,
            ).hash,
            found(
                u.entry->Some_0,
                u.record->Some_0,
                event->BuildFile_1,
                event->BuildFile_2,
            ).version,
        ) && upgrade_step(u, event).1->Install_0.known == Some(
            found(u.entry->Some_0, u.record->Some_0, event->BuildFile_1, event->BuildFile_2),
        ),
        u.stage == UpgradeStage::Confirming ==> event is Answer && !declines(event->Answer_0)
            && upgrade_step(u, event).1->Install_0.known == u.fresh,
        upgrade_step(u, event).1->Install_0.host == host_tagged(u.entry->Some_0.source),
        upgrade_step(u, event).1->Install_0.package == u.package,
        !upgrade_step(u, event).1->Install_0.local,
{
}

/// Where the upgrade goes on after the registry was read, it keeps an
/// entry, and that entry is named as the package is; otherwise it ends,
/// since the package is not installed.
pub proof fn lemma_entry_is_of_package(u: UpgradeView, entries: Seq<PackageView>)
    requires
        u.stage == UpgradeStage::Looking,
    ensures
        ({
            let step = upgrade_step(u, UpgradeEventView::Registry(entries));
            if crate::registry::is_installed(entries, u.package) {
                &&& step.0.stage == UpgradeStage::Loading
                &&& step.0.entry matches Some(e) && e.name == u.package && entries.contains(e)
            } else {
                step == halt(u, UpgradeOutcome::NotInstalled)
            }
        }),
{
    crate::registry::lemma_position(entries, u.package, 0);
}

/// The place of a stage in the order in which stages are passed.
pub open spec fn stage_rank(s: UpgradeStage) -> int {
    match s {
        UpgradeStage::Start => 0,
        UpgradeStage::Looking => 1,
        UpgradeStage::Loading => 2,
        UpgradeStage::Resetting => 3,
        UpgradeStage::ListingBranches => 4,
        UpgradeStage::Choosing => 5,
        UpgradeStage::Cloning => 6,
        UpgradeStage::Comparing => 7,
        UpgradeStage::Offering => 8,
        UpgradeStage::Diffing => 9,
        UpgradeStage::Confirming => 10,
        UpgradeStage::Installing => 11,
        UpgradeStage::Copying => 12,
        UpgradeStage::Done => 13,
    }
}

/// Every step leads to a later stage, or ends the upgrade. So the sources
/// are fetched once and an install is asked for at most once.
pub proof fn lemma_upgrade_advances(u: UpgradeView, event: UpgradeEventView)
    ensures
        u.stage != UpgradeStage::Done ==> stage_rank(upgrade_step(u, event).0.stage) > stage_rank(
            u.stage,
        ),
        upgrade_step(u, event).1 is Install ==> upgrade_step(u, event).0.stage
            == UpgradeStage::Installing,
        upgrade_step(u, event).1 is Finish <==> upgrade_step(u, event).0.stage
            == UpgradeStage::Done,
{
}

/// The upgrade of a changed package, where nothing is asked, ends with the
/// registry saying what was compared. The install that it asks for saves a
/// registry in which the one entry of the package's name carries the
/// fingerprint and the version that the comparison found, and in which the
/// entries of other names are as they were read.
pub proof fn lemma_upgrade_records_what_it_compared(
    u: UpgradeView,
    bytes: Option<Seq<u8>>,
    text: Option<Seq<char>>,
    p: crate::install::PipelineView,
    entries: Seq<PackageView>,
    read_bytes: Option<Seq<u8>>,
    read_text: Option<Seq<char>>,
)
    requires
        u.stage == UpgradeStage::Comparing,
        u.yes,
        u.entry is Some,
        u.entry->Some_0.name == u.package,
        u.record is Some,
        has_changed(
            u.entry->Some_0,
            found(u.entry->Some_0, u.record->Some_0, bytes, text).hash,
            found(u.entry->Some_0, u.record->Some_0, bytes, text).version,
        ),
        upgrade_step(u, UpgradeEventView::BuildFile(true, bytes, text)).1 matches UpgradeActionView::Install(
            job,
        ) ==> p.job == job,
        p.stage == crate::install::Stage::Recording,
        p.descriptor is Some,
        p.target is Some,
        crate::registry::unique_names(entries),
    ensures
        upgrade_step(u, UpgradeEventView::BuildFile(true, bytes, text)).1 is Install,
        crate::install::install_step(
            p,
            crate::install::EventView::Records(entries, read_bytes, read_text),
        ).1 is Save,
        ({
            let k = found(u.entry->Some_0, u.record->Some_0, bytes, text);
            let saved = crate::install::install_step(
                p,
                crate::install::EventView::Records(entries, read_bytes, read_text),
            ).1->Save_0;
            let at = position_of(saved, u.package);
            &&& crate::registry::unique_names(saved)
            &&& 0 <= at < saved.len()
            &&& saved[at].name == u.package
            &&& saved[at].hash == Some(k.hash)
            &&& saved[at].version == k.version
            &&& forall|i: int| 0 <= i < saved.len() && i != at ==> saved[i].name != u.package
            &&& forall|i: int|
                0 <= i < entries.len() && entries[i].name != u.package ==> saved[i] == entries[i]
        }),
{
    crate::install::lemma_known_values_are_recorded(p, entries, read_bytes, read_text);
}

} // verus!
