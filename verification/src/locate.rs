//! The binary locator: where the program that a build produced is looked
//! for, and what is found there.

use crate::cargo::{cargo_binary_name, get_cargo_binary_name};
use crate::kind::BuildKind;
use crate::text::{join_path, opt_text, path_join, same_text, texts};
use vstd::prelude::*;

verus! {

/// Where a built program is looked for.
pub enum BinarySearch {
    /// The first of these paths that exists is the program.
    FirstOf(Vec<String>),
    /// The program is the first file of this name found in the tree under
    /// this directory.
    Within(String, String),
}

/// A search as plain texts.
pub enum SearchView {
    FirstOf(Seq<Seq<char>>),
    Within(Seq<char>, Seq<char>),
}

impl View for BinarySearch {
    type V = SearchView;

    open spec fn view(&self) -> SearchView {
        match self {
            BinarySearch::FirstOf(paths) => SearchView::FirstOf(texts(paths@)),
            BinarySearch::Within(dir, name) => SearchView::Within(dir@, name@),
        }
    }
}

/// The name of the program that a Cargo project builds: what its manifest
/// says, and the name of the package where the manifest is missing or says
/// nothing.
pub open spec fn cargo_program(repo: Seq<char>, manifest: Option<Seq<char>>) -> Seq<char> {
    match manifest {
        Some(text) => match cargo_binary_name(text) {
            Some(name) => name,
            None => repo,
        },
        None => repo,
    }
}

/// Where the program of the package `repo`, built as `kind` in `dir`, is
/// looked for. `manifest` is the text of the Cargo manifest, read for
/// Cargo projects only.
///
/// A Cargo build leaves its program in the release directory of its target
/// directory, or else in the debug directory. Make, Autotools, Ninja and
/// Nimble leave it in the workspace, CMake in the build directory, each
/// under the name of the package. Meson and Stack leave it somewhere under
/// the build directory and the `bin` directory.
pub open spec fn binary_search_of(
    dir: Seq<char>,
    repo: Seq<char>,
    kind: BuildKind,
    manifest: Option<Seq<char>>,
) -> SearchView {
    match kind {
        BuildKind::Cargo => {
            let name = cargo_program(repo, manifest);
            SearchView::FirstOf(
                seq![
                    path_join(path_join(dir, "target/release"@), name),
                    path_join(path_join(dir, "target/debug"@), name),
                ],
            )
        },
        BuildKind::Cmake => SearchView::FirstOf(seq![path_join(path_join(dir, "build"@), repo)]),
        BuildKind::Meson => SearchView::Within(path_join(dir, "build"@), repo),
        BuildKind::Stack => SearchView::Within(path_join(dir, "bin"@), repo),
        _ => SearchView::FirstOf(seq![path_join(dir, repo)]),
    }
}

/// Says where the program of a build is looked for.
pub fn find_binary_path(dir: &str, repo: &str, kind: BuildKind, manifest: Option<&str>) -> (r:
    BinarySearch)
    ensures
        r@ == binary_search_of(
            dir@,
            repo@,
            kind,
            match manifest {
                Some(m) => Some(m@),
                None => None,
            },
        ),
{
    match kind {
        BuildKind::Cargo => {
            let declared = match manifest {
                Some(text) => get_cargo_binary_name(text),
                None => None,
            };
            let name = match declared {
                Some(n) => n,
                None => repo.to_owned(),
            };
            let mut paths: Vec<String> = Vec::new();
            paths.push(join_path(join_path(dir, "target/release").as_str(), name.as_str()));
            paths.push(join_path(join_path(dir, "target/debug").as_str(), name.as_str()));
            assert(texts(paths@) =~= seq![
                path_join(path_join(dir@, "target/release"@), name@),
                path_join(path_join(dir@, "target/debug"@), name@),
            ]);
            BinarySearch::FirstOf(paths)
        },
        BuildKind::Cmake => {
            let mut paths: Vec<String> = Vec::new();
            paths.push(join_path(join_path(dir, "build").as_str(), repo));
            assert(texts(paths@) =~= seq![path_join(path_join(dir@, "build"@), repo@)]);
            BinarySearch::FirstOf(paths)
        },
        BuildKind::Meson => BinarySearch::Within(join_path(dir, "build"), repo.to_owned()),
        BuildKind::Stack => BinarySearch::Within(join_path(dir, "bin"), repo.to_owned()),
        _ => {
            let mut paths: Vec<String> = Vec::new();
            paths.push(join_path(dir, repo));
            assert(texts(paths@) =~= seq![path_join(dir@, repo@)]);
            BinarySearch::FirstOf(paths)
        },
    }
}

/// The first of `paths`, from position `from` on, that exists, going by
/// the probe results `exists`. A path without a result counts as absent.
pub open spec fn first_existing_from(paths: Seq<Seq<char>>, exists: Seq<bool>, from: int) -> Option<
    Seq<char>,
>
    decreases paths.len() - from,
{
    if from < 0 || from >= paths.len() {
        None
    } else if from < exists.len() && exists[from] {
        Some(paths[from])
    } else {
        first_existing_from(paths, exists, from + 1)
    }
}

/// The first of `paths` that exists.
pub fn first_existing(paths: &Vec<String>, exists: &Vec<bool>) -> (r: Option<String>)
    ensures
        opt_text(r) == first_existing_from(texts(paths@), exists@, 0),
{
    let mut i: usize = 0;
    while i < paths.len()
        invariant
            i <= paths@.len(),
            first_existing_from(texts(paths@), exists@, 0) == first_existing_from(
                texts(paths@),
                exists@,
                i as int,
            ),
        decreases paths@.len() - i,
    {
        if i < exists.len() && exists[i] {
            assert(texts(paths@)[i as int] == paths@[i as int]@);
            return Some(paths[i].clone());
        }
        i += 1;
    }
    None
}

/// An entry of a directory: a file, a directory with its entries in the
/// order of its listing, or something else. Each carries its name.
pub enum Entry {
    File(String),
    Dir(String, Vec<Entry>),
    Other(String),
}

/// The path of the first file named `name` in the tree of `entries`, which
/// are the entries of `dir` from position `from` on. Entries are visited in
/// the order of their listing, and a directory is searched to its bottom
/// before the entry after it is looked at.
pub open spec fn found_from(dir: Seq<char>, entries: Seq<Entry>, name: Seq<char>, from: int) -> Option<
    Seq<char>,
>
    decreases entries, entries.len() - from,
{
    if from < 0 || from >= entries.len() {
        None
    } else {
        let here = match entries[from] {
            Entry::Dir(n, children) => found_from(path_join(dir, n@), children@, name, 0),
            Entry::File(n) => if n@ == name {
                Some(path_join(dir, n@))
            } else {
                None
            },
            Entry::Other(_) => None,
        };
        match here {
            Some(p) => Some(p),
            None => found_from(dir, entries, name, from + 1),
        }
    }
}

/// The path of the first file named `name` in the tree of `entries`, the
/// entries of `dir`.
pub open spec fn found_in(dir: Seq<char>, entries: Seq<Entry>, name: Seq<char>) -> Option<
    Seq<char>,
> {
    found_from(dir, entries, name, 0)
}

/// Searches the tree of `entries`, the entries of `dir`, for a file named
/// `name`.
pub fn find_executable_in_dir(dir: &str, entries: &Vec<Entry>, name: &str) -> (r: Option<String>)
    ensures
        opt_text(r) == found_in(dir@, entries@, name@),
    decreases entries@,
{
    let mut i: usize = 0;
    while i < entries.len()
        invariant
            i <= entries@.len(),
            found_in(dir@, entries@, name@) == found_from(dir@, entries@, name@, i as int),
        decreases entries@.len() - i,
    {
        match &entries[i] {
            Entry::Dir(n, children) => {
                let sub = join_path(dir, n.as_str());
                let found = find_executable_in_dir(sub.as_str(), children, name);
                if found.is_some() {
                    return found;
                }
            },
            Entry::File(n) => {
                if same_text(n.as_str(), name) {
                    return Some(join_path(dir, n.as_str()));
                }
            },
            Entry::Other(_) => {},
        }
        i += 1;
    }
    None
}

} // verus!
