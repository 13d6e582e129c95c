//! What the installer needs of its host: an elevation command, its own
//! directories, the tools of a build, and a hint at how to install what is
//! missing.

use crate::command::{Invocation, InvocationView};
use crate::text::{has_name, join, joined, texts};
use vstd::prelude::*;
use vstd::string::StringExecFns;

verus! {

/// The elevation command: `doas` where the host has it, `sudo` otherwise.
pub open spec fn privilege_command(doas_available: bool) -> Seq<char> {
    if doas_available {
        "doas"@
    } else {
        "sudo"@
    }
}

/// Chooses the elevation command, given whether `doas` was found on the
/// search path.
pub fn get_privilege_command(doas_available: bool) -> (r: String)
    ensures
        r@ == privilege_command(doas_available),
{
    if doas_available {
        "doas".to_owned()
    } else {
        "sudo".to_owned()
    }
}

/// A run of `program` under the elevation command `privilege`, with what it
/// prints left visible.
pub open spec fn elevated(privilege: Seq<char>, words: Seq<Seq<char>>) -> InvocationView {
    InvocationView { program: privilege, args: words, dir: None, quiet: false }
}

/// A run under the elevation command.
pub fn elevate(privilege: &str, words: Vec<String>) -> (r: Invocation)
    ensures
        r@ == elevated(privilege@, texts(words@)),
{
    Invocation { program: privilege.to_owned(), args: words, dir: None, quiet: false }
}

/// One step of setting up the installer's directories: a run, and whether
/// it is made only where the step before it succeeded.
pub struct SetupStep {
    pub run: Invocation,
    pub needs_previous: bool,
}

/// A setup step as plain texts.
pub struct SetupStepView {
    pub run: InvocationView,
    pub needs_previous: bool,
}

impl View for SetupStep {
    type V = SetupStepView;

    open spec fn view(&self) -> SetupStepView {
        SetupStepView { run: self.run@, needs_previous: self.needs_previous }
    }
}

/// The views of a sequence of setup steps.
pub open spec fn setup_steps(v: Seq<SetupStep>) -> Seq<SetupStepView> {
    Seq::new(v.len(), |i: int| v[i]@)
}

/// The steps that bring the installer's directories into being. Where the
/// configuration directory is missing it is made, and, if that succeeded,
/// an empty registry is put into it. Where the state directory or its store
/// of build files is missing, the store is made with all its parents.
pub open spec fn setup_plan(
    privilege: Seq<char>,
    etc_exists: bool,
    var_exists: bool,
    store_exists: bool,
) -> Seq<SetupStepView> {
    let first: Seq<SetupStepView> = if etc_exists {
        seq![]
    } else {
        seq![
            SetupStepView {
                run: elevated(privilege, seq!["mkdir"@, "-p"@, "/etc/radon"@]),
                needs_previous: false,
            },
            SetupStepView {
                run: elevated(privilege, seq!["touch"@, "/etc/radon/installed.yaml"@]),
                needs_previous: true,
            },
        ]
    };
    let second: Seq<SetupStepView> = if var_exists && store_exists {
        seq![]
    } else {
        seq![
            SetupStepView {
                run: elevated(privilege, seq!["mkdir"@, "-p"@, "/var/lib/radon/buildfiles"@]),
                needs_previous: false,
            },
        ]
    };
    first + second
}

/// Plans the setup of the installer's directories from what is there.
pub fn setup_radon_dirs(privilege: &str, etc_exists: bool, var_exists: bool, store_exists: bool) -> (r:
    Vec<SetupStep>)
    ensures
        setup_steps(r@) == setup_plan(privilege@, etc_exists, var_exists, store_exists),
{
    let mut out: Vec<SetupStep> = Vec::new();
    if !etc_exists {
        let mut a: Vec<String> = Vec::new();
        a.push("mkdir".to_owned());
        a.push("-p".to_owned());
        a.push("/etc/radon".to_owned());
        assert(texts(a@) =~= seq!["mkdir"@, "-p"@, "/etc/radon"@]);
        out.push(SetupStep { run: elevate(privilege, a), needs_previous: false });
        let mut b: Vec<String> = Vec::new();
        b.push("touch".to_owned());
        b.push("/etc/radon/installed.yaml".to_owned());
        assert(texts(b@) =~= seq!["touch"@, "/etc/radon/installed.yaml"@]);
        out.push(SetupStep { run: elevate(privilege, b), needs_previous: true });
    }
    if !(var_exists && store_exists) {
        let mut c: Vec<String> = Vec::new();
        c.push("mkdir".to_owned());
        c.push("-p".to_owned());
        c.push("/var/lib/radon/buildfiles".to_owned());
        assert(texts(c@) =~= seq!["mkdir"@, "-p"@, "/var/lib/radon/buildfiles"@]);
        out.push(SetupStep { run: elevate(privilege, c), needs_previous: false });
    }
    assert(setup_steps(out@) =~= setup_plan(privilege@, etc_exists, var_exists, store_exists));
    out
}

/// The configuration paths by which package managers are recognised, in the
/// order in which they are tried.
pub open spec fn manager_paths() -> Seq<Seq<char>> {
    seq![
        "/etc/apt/sources.list"@,
        "/etc/pacman.conf"@,
        "/etc/xbps.d"@,
        "/etc/dnf/dnf.conf"@,
        "/etc/zypp/zypp.conf"@,
    ]
}

/// The install commands of the package managers, in the order of their
/// configuration paths.
pub open spec fn manager_commands() -> Seq<Seq<char>> {
    seq!["apt install"@, "pacman -S"@, "xbps-install"@, "dnf install"@, "zypper install"@]
}

/// The install command of the first package manager, from position `from`
/// on, whose configuration path is among `present`; a placeholder where
/// none is.
pub open spec fn manager_from(present: Seq<Seq<char>>, from: int) -> Seq<char>
    decreases manager_paths().len() - from,
{
    if from < 0 || from >= manager_paths().len() {
        "your-package-manager install"@
    } else if present.contains(manager_paths()[from]) {
        manager_commands()[from]
    } else {
        manager_from(present, from + 1)
    }
}

/// The install command of the host's package manager, where `present` are
/// the configuration paths that exist on the host.
pub open spec fn package_manager(present: Seq<Seq<char>>) -> Seq<char> {
    manager_from(present, 0)
}

/// The configuration paths that `detect_package_manager` wants probed.
pub fn package_manager_paths() -> (r: Vec<String>)
    ensures
        texts(r@) == manager_paths(),
{
    let mut out: Vec<String> = Vec::new();
    out.push("/etc/apt/sources.list".to_owned());
    out.push("/etc/pacman.conf".to_owned());
    out.push("/etc/xbps.d".to_owned());
    out.push("/etc/dnf/dnf.conf".to_owned());
    out.push("/etc/zypp/zypp.conf".to_owned());
    assert(texts(out@) =~= manager_paths());
    out
}

/// Names the install command of the host's package manager, given those of
/// the probed configuration paths that exist.
pub fn detect_package_manager(present: &Vec<String>) -> (r: String)
    ensures
        r@ == package_manager(texts(present@)),
{
    reveal_with_fuel(manager_from, 6);
    if has_name(present, "/etc/apt/sources.list") {
        "apt install".to_owned()
    } else if has_name(present, "/etc/pacman.conf") {
        "pacman -S".to_owned()
    } else if has_name(present, "/etc/xbps.d") {
        "xbps-install".to_owned()
    } else if has_name(present, "/etc/dnf/dnf.conf") {
        "dnf install".to_owned()
    } else if has_name(present, "/etc/zypp/zypp.conf") {
        "zypper install".to_owned()
    } else {
        "your-package-manager install".to_owned()
    }
}

/// Whether the tool at position `i` was found, going by the probe results
/// `found`. A tool without a result counts as not found.
pub open spec fn resolved(found: Seq<bool>, i: int) -> bool {
    0 <= i < found.len() && found[i]
}

/// The tools among `deps`, from position `from` on, that were not found.
pub open spec fn missing_from(deps: Seq<Seq<char>>, found: Seq<bool>, from: int) -> Seq<Seq<char>>
    decreases deps.len() - from,
{
    if from < 0 || from >= deps.len() {
        Seq::empty()
    } else if resolved(found, from) {
        missing_from(deps, found, from + 1)
    } else {
        seq![deps[from]] + missing_from(deps, found, from + 1)
    }
}

/// All the tools among `deps` that were not found, in their order.
pub open spec fn missing_tools(deps: Seq<Seq<char>>, found: Seq<bool>) -> Seq<Seq<char>> {
    missing_from(deps, found, 0)
}

/// The command line that installs the tools `missing` with the package
/// manager whose install command is `manager`.
pub open spec fn remedy_for(manager: Seq<char>, missing: Seq<Seq<char>>) -> Seq<char> {
    "sudo "@ + manager + " "@ + join(missing, " "@)
}

/// What is wrong when tools are missing: all of them, and the command line
/// that installs them.
pub struct MissingTools {
    pub tools: Vec<String>,
    pub remedy: String,
}

/// Collects the tools among `deps` that were not found.
pub fn missing(deps: &Vec<String>, found: &Vec<bool>) -> (r: Vec<String>)
    ensures
        texts(r@) == missing_tools(texts(deps@), found@),
{
    let mut out: Vec<String> = Vec::new();
    let mut i: usize = 0;
    while i < deps.len()
        invariant
            i <= deps@.len(),
            missing_tools(texts(deps@), found@) == texts(out@) + missing_from(
                texts(deps@),
                found@,
                i as int,
            ),
        decreases deps@.len() - i,
    {
        if !(i < found.len() && found[i]) {
            let ghost before = texts(out@);
            out.push(deps[i].clone());
            assert(texts(out@) =~= before + seq![texts(deps@)[i as int]]);
            assert(missing_tools(texts(deps@), found@) =~= texts(out@) + missing_from(
                texts(deps@),
                found@,
                i + 1,
            ));
        }
        i += 1;
    }
    assert(texts(out@) =~= missing_tools(texts(deps@), found@));
    out
}

/// Writes the command line that installs `missing`.
pub fn remedy(manager: &str, missing: &Vec<String>) -> (r: String)
    ensures
        r@ == remedy_for(manager@, texts(missing@)),
{
    let mut out = "sudo ".to_owned();
    out.append(manager);
    out.append(" ");
    let list = joined(missing, " ");
    out.append(list.as_str());
    out
}

/// Checks the tools of a build. `found` holds, for each of `deps`, whether
/// it was found on the search path, and `present` the package manager
/// configuration paths that exist. The result is `Ok` exactly where no tool
/// is missing; otherwise it names all that are.
pub fn check_deps(deps: &Vec<String>, found: &Vec<bool>, present: &Vec<String>) -> (r: Result<
    (),
    MissingTools,
>)
    ensures
        r is Ok <==> missing_tools(texts(deps@), found@).len() == 0,
        r matches Err(m) ==> texts(m.tools@) == missing_tools(texts(deps@), found@) && m.remedy@
            == remedy_for(package_manager(texts(present@)), texts(m.tools@)),
{
    let tools = missing(deps, found);
    if tools.len() == 0 {
        Ok(())
    } else {
        let manager = detect_package_manager(present);
        let remedy = remedy(manager.as_str(), &tools);
        Err(MissingTools { tools, remedy })
    }
}

/// Whatever comes before a tool, the tool is reported if it was not found.
pub proof fn lemma_missing_from_complete(deps: Seq<Seq<char>>, found: Seq<bool>, from: int, i: int)
    requires
        0 <= from <= i < deps.len(),
        !resolved(found, i),
    ensures
        missing_from(deps, found, from).contains(deps[i]),
    decreases i - from,
{
    let rest = missing_from(deps, found, from + 1);
    if from == i {
        assert(missing_from(deps, found, from)[0] == deps[i]);
    } else {
        lemma_missing_from_complete(deps, found, from + 1, i);
        let k = choose|k: int| 0 <= k < rest.len() && rest[k] == deps[i];
        if resolved(found, from) {
        } else {
            assert(missing_from(deps, found, from)[k + 1] == deps[i]);
        }
    }
}

/// Every tool that was not found is reported, not only the first.
pub proof fn lemma_missing_reports_all(deps: Seq<Seq<char>>, found: Seq<bool>, i: int)
    requires
        0 <= i < deps.len(),
        !resolved(found, i),
    ensures
        missing_tools(deps, found).contains(deps[i]),
{
    lemma_missing_from_complete(deps, found, 0, i);
}

/// Only tools that were asked for and not found are reported.
pub proof fn lemma_missing_reports_only_missing(
    deps: Seq<Seq<char>>,
    found: Seq<bool>,
    from: int,
    t: Seq<char>,
)
    requires
        0 <= from,
        missing_from(deps, found, from).contains(t),
    ensures
        exists|i: int| from <= i < deps.len() && !resolved(found, i) && deps[i] == t,
    decreases deps.len() - from,
{
    let all = missing_from(deps, found, from);
    let rest = missing_from(deps, found, from + 1);
    let k = choose|k: int| 0 <= k < all.len() && all[k] == t;
    if from >= deps.len() {
    } else if resolved(found, from) {
        lemma_missing_reports_only_missing(deps, found, from + 1, t);
    } else if k == 0 {
        assert(deps[from] == t);
    } else {
        assert(rest[k - 1] == t);
        lemma_missing_reports_only_missing(deps, found, from + 1, t);
    }
}

/// Where every tool was found, nothing is reported.
pub proof fn lemma_all_found_passes(deps: Seq<Seq<char>>, found: Seq<bool>, from: int)
    requires
        0 <= from,
        forall|i: int| from <= i < deps.len() ==> resolved(found, i),
    ensures
        missing_from(deps, found, from).len() == 0,
    decreases deps.len() - from,
{
    if from < deps.len() {
        lemma_all_found_passes(deps, found, from + 1);
    }
}

} // verus!
