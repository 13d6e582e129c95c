//! The source fetcher: where a package comes from, where its sources are
//! put, and the runs that bring them there and patch them.

use crate::command::{invocations, Invocation, InvocationView};
use crate::text::{
    chars_of, ends_with, has_suffix, join_path, last_piece, opt_text, path_join, piece_last,
    string_of, texts,
};
use vstd::prelude::*;
use vstd::string::StringExecFns;

verus! {

/// A code-hosting site.
#[derive(Clone, Copy, Debug, PartialEq, Eq, Structural)]
pub enum Host {
    Github,
    Gitlab,
    Codeberg,
}

/// The host that the two switches of the command line choose: Codeberg
/// before GitLab, and GitHub where neither is set.
pub open spec fn chosen_host(gitlab: bool, codeberg: bool) -> Host {
    if codeberg {
        Host::Codeberg
    } else if gitlab {
        Host::Gitlab
    } else {
        Host::Github
    }
}

/// The domain of a host.
pub open spec fn host_domain(h: Host) -> Seq<char> {
    match h {
        Host::Github => "github.com"@,
        Host::Gitlab => "gitlab.com"@,
        Host::Codeberg => "codeberg.org"@,
    }
}

/// The tag under which the registry records a host; the default host is
/// recorded by leaving the tag out.
pub open spec fn host_tag(h: Host) -> Option<Seq<char>> {
    match h {
        Host::Github => None,
        Host::Gitlab => Some("gitlab"@),
        Host::Codeberg => Some("codeberg"@),
    }
}

/// The host that a tag of the registry stands for. A missing tag, and any
/// tag that names no host, stands for the default host.
pub open spec fn host_tagged(tag: Option<Seq<char>>) -> Host {
    if tag == Some("codeberg"@) {
        Host::Codeberg
    } else if tag == Some("gitlab"@) {
        Host::Gitlab
    } else {
        Host::Github
    }
}

/// A host is found again from its tag.
pub proof fn lemma_host_tag_round_trip(h: Host)
    ensures
        host_tagged(host_tag(h)) == h,
{
    reveal_strlit("codeberg");
    reveal_strlit("gitlab");
    assert("codeberg"@.len() == 8 && "gitlab"@.len() == 6);
}

impl Host {
    /// The host that a tag of the registry stands for.
    pub fn from_tag(tag: &Option<String>) -> (r: Host)
        ensures
            r == host_tagged(opt_text(*tag)),
    {
        match tag {
            Some(t) => {
                if crate::text::same_text(t.as_str(), "codeberg") {
                    Host::Codeberg
                } else if crate::text::same_text(t.as_str(), "gitlab") {
                    Host::Gitlab
                } else {
                    Host::Github
                }
            },
            None => Host::Github,
        }
    }

    /// The host that the two switches choose.
    pub fn select(gitlab: bool, codeberg: bool) -> (r: Host)
        ensures
            r == chosen_host(gitlab, codeberg),
    {
        if codeberg {
            Host::Codeberg
        } else if gitlab {
            Host::Gitlab
        } else {
            Host::Github
        }
    }

    /// The domain of this host.
    pub fn domain(&self) -> (r: String)
        ensures
            r@ == host_domain(*self),
    {
        match self {
            Host::Github => "github.com".to_owned(),
            Host::Gitlab => "gitlab.com".to_owned(),
            Host::Codeberg => "codeberg.org".to_owned(),
        }
    }

    /// The tag under which the registry records this host.
    pub fn tag(&self) -> (r: Option<String>)
        ensures
            opt_text(r) == host_tag(*self),
    {
        match self {
            Host::Github => None,
            Host::Gitlab => Some("gitlab".to_owned()),
            Host::Codeberg => Some("codeberg".to_owned()),
        }
    }
}

/// The name of a package: the last segment of its reference.
pub open spec fn repo_name(package: Seq<char>) -> Seq<char> {
    last_piece(package, '/')
}

/// The name of the package that `package` refers to.
pub fn repo_of(package: &str) -> (r: String)
    ensures
        r@ == repo_name(package@),
{
    let chars = chars_of(package);
    string_of(piece_last(chars.as_slice(), '/'))
}

/// The directory under which sources are built.
pub open spec fn builds_root() -> Seq<char> {
    "/tmp/radon/builds"@
}

/// The scratch directory of the package named `repo`.
pub open spec fn build_dir_of(repo: Seq<char>) -> Seq<char> {
    path_join(builds_root(), repo)
}

/// The scratch directory of the package named `repo`.
pub fn build_dir(repo: &str) -> (r: String)
    ensures
        r@ == build_dir_of(repo@),
{
    join_path("/tmp/radon/builds", repo)
}

/// The address from which `package` is cloned.
pub open spec fn clone_url(h: Host, package: Seq<char>) -> Seq<char> {
    "https://"@ + host_domain(h) + "/"@ + package
}

/// The run that clones the sources at the address `url` into `dir`: a
/// shallow clone, of the branch given where one is given, with nothing
/// shown.
pub open spec fn clone_from(url: Seq<char>, branch: Option<Seq<char>>, dir: Seq<char>) -> InvocationView {
    let head = seq!["clone"@, "--depth=1"@, url];
    let middle = match branch {
        Some(b) => seq!["--branch"@, b],
        None => seq![],
    };
    InvocationView { program: "git"@, args: head + middle + seq![dir], dir: None, quiet: true }
}

/// The run that clones `package` from `h` into `dir`.
pub open spec fn clone_of(
    h: Host,
    package: Seq<char>,
    branch: Option<Seq<char>>,
    dir: Seq<char>,
) -> InvocationView {
    clone_from(clone_url(h, package), branch, dir)
}

/// The address from which `package` is cloned.
pub fn address(host: Host, package: &str) -> (r: String)
    ensures
        r@ == clone_url(host, package@),
{
    let mut url = "https://".to_owned();
    url.append(host.domain().as_str());
    url.append("/");
    url.append(package);
    url
}

/// The run that clones the sources at the address `url` into `dir`.
pub fn clone_command_from(url: &str, branch: &Option<String>, dir: &str) -> (r: Invocation)
    ensures
        r@ == clone_from(url@, opt_text(*branch), dir@),
{
    let mut args: Vec<String> = Vec::new();
    args.push("clone".to_owned());
    args.push("--depth=1".to_owned());
    args.push(url.to_owned());
    match branch {
        Some(b) => {
            args.push("--branch".to_owned());
            args.push(b.clone());
        },
        None => {},
    }
    args.push(dir.to_owned());
    assert(texts(args@) =~= clone_from(url@, opt_text(*branch), dir@).args);
    Invocation { program: "git".to_owned(), args, dir: None, quiet: true }
}

/// The run that clones `package` from `host` into `dir`.
pub fn clone_command(host: Host, package: &str, branch: &Option<String>, dir: &str) -> (r: Invocation)
    ensures
        r@ == clone_of(host, package@, opt_text(*branch), dir@),
{
    clone_command_from(address(host, package).as_str(), branch, dir)
}

/// Whether a file of this name is a patch: its extension is `patch`.
pub open spec fn is_patch(name: Seq<char>) -> bool {
    name.len() > 6 && ends_with(name, ".patch"@)
}

/// The run that applies the patch `name` of the directory `patches` to the
/// sources in `dir`.
pub open spec fn patch_of(dir: Seq<char>, patches: Seq<char>, name: Seq<char>) -> InvocationView {
    InvocationView {
        program: "patch"@,
        args: seq!["-Np1"@, "--directory"@, dir, "--input"@, path_join(patches, name)],
        dir: None,
        quiet: false,
    }
}

/// The runs that apply the patches among `names`, from position `from` on.
pub open spec fn patch_runs_from(
    dir: Seq<char>,
    patches: Seq<char>,
    names: Seq<Seq<char>>,
    from: int,
) -> Seq<InvocationView>
    decreases names.len() - from,
{
    if from < 0 || from >= names.len() {
        Seq::empty()
    } else if is_patch(names[from]) {
        seq![patch_of(dir, patches, names[from])] + patch_runs_from(dir, patches, names, from + 1)
    } else {
        patch_runs_from(dir, patches, names, from + 1)
    }
}

/// The runs that apply a directory of patches: one for each entry whose
/// extension marks it as a patch, in the order of the listing.
pub open spec fn patch_runs(dir: Seq<char>, patches: Seq<char>, names: Seq<Seq<char>>) -> Seq<
    InvocationView,
> {
    patch_runs_from(dir, patches, names, 0)
}

/// Whether a file named `name` is a patch.
pub fn patch_name(name: &str) -> (r: bool)
    ensures
        r == is_patch(name@),
{
    let chars = chars_of(name);
    chars.len() > 6 && has_suffix(chars.as_slice(), chars_of(".patch").as_slice())
}

/// Plans the application of the patches in the directory `patches`, whose
/// entries are `names`, to the sources in `dir`. Each run stands for itself:
/// one that fails is reported and the next is made all the same.
pub fn apply_patches(dir: &str, patches: &str, names: &Vec<String>) -> (r: Vec<Invocation>)
    ensures
        invocations(r@) == patch_runs(dir@, patches@, texts(names@)),
{
    let mut out: Vec<Invocation> = Vec::new();
    let mut i: usize = 0;
    while i < names.len()
        invariant
            i <= names@.len(),
            patch_runs(dir@, patches@, texts(names@)) == invocations(out@) + patch_runs_from(
                dir@,
                patches@,
                texts(names@),
                i as int,
            ),
        decreases names@.len() - i,
    {
        assert(texts(names@)[i as int] == names@[i as int]@);
        if patch_name(names[i].as_str()) {
            let mut args: Vec<String> = Vec::new();
            args.push("-Np1".to_owned());
            args.push("--directory".to_owned());
            args.push(dir.to_owned());
            args.push("--input".to_owned());
            args.push(join_path(patches, names[i].as_str()));
            let run = Invocation { program: "patch".to_owned(), args, dir: None, quiet: false };
            assert(run@.args =~= patch_of(dir@, patches@, names@[i as int]@).args);
            let ghost before = invocations(out@);
            out.push(run);
            assert(invocations(out@) =~= before + seq![patch_of(dir@, patches@, names@[i as int]@)]);
            assert(patch_runs(dir@, patches@, texts(names@)) =~= invocations(out@)
                + patch_runs_from(dir@, patches@, texts(names@), i + 1));
        }
        i += 1;
    }
    assert(invocations(out@) =~= patch_runs(dir@, patches@, texts(names@)));
    out
}

} // verus!
