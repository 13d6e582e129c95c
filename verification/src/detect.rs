//! The build-system detector: from what lies in a workspace to the one
//! descriptor of how the project is built.

use crate::cargo::{cargo_deps, parse_cargo_deps};
use crate::kind::{
    is_marker, is_nimble, kind_drivers, kind_markers, kind_named, kind_needs_make, nimble_name,
    BuildKind,
};
use crate::manifest::{manifest_in, manifest_name, parse_radon_json, Manifest, ManifestView};
use crate::scan::{autotools_deps, make_deps, parse_autotools_deps, parse_make_deps};
use crate::text::{copy_texts, has_name, join_texts, opt_text, texts};
use vstd::prelude::*;

verus! {

/// How a project is built: the kind of its build system, the build file
/// that stands for it, the tools that must be at hand, and the flags handed
/// to the build.
pub struct BuildDescriptor {
    pub kind: BuildKind,
    pub manifest: Option<String>,
    pub tools: Vec<String>,
    pub flags: Vec<String>,
}

/// A descriptor as plain texts.
pub struct DescriptorView {
    pub kind: BuildKind,
    pub manifest: Option<Seq<char>>,
    pub tools: Seq<Seq<char>>,
    pub flags: Seq<Seq<char>>,
}

impl View for BuildDescriptor {
    type V = DescriptorView;

    open spec fn view(&self) -> DescriptorView {
        DescriptorView {
            kind: self.kind,
            manifest: opt_text(self.manifest),
            tools: texts(self.tools@),
            flags: texts(self.flags@),
        }
    }
}

/// Why a workspace has no descriptor.
#[derive(Clone, Copy, Debug, PartialEq, Eq, Structural)]
pub enum DetectError {
    /// Neither a manifest nor any marker file is there.
    NoBuildSystem,
    /// The manifest is not valid JSON.
    InvalidManifest,
    /// The manifest names a build system that is none of the eight.
    UnknownKind,
}

/// Which way a workspace is described.
#[derive(Clone, Copy, Debug, PartialEq, Eq, Structural)]
pub enum Detection {
    /// By its own manifest.
    Manifest,
    /// By the marker file of a kind.
    Marked(BuildKind),
    /// Not at all.
    Nothing,
}

/// The first of `names`, from position `from` on, that is among `files`.
pub open spec fn first_present(files: Seq<Seq<char>>, names: Seq<Seq<char>>, from: int) -> Option<
    Seq<char>,
>
    decreases names.len() - from,
{
    if from < 0 || from >= names.len() {
        None
    } else if files.contains(names[from]) {
        Some(names[from])
    } else {
        first_present(files, names, from + 1)
    }
}

/// The first Nimble package file among `files`, from position `from` on.
pub open spec fn nimble_from(files: Seq<Seq<char>>, from: int) -> Option<Seq<char>>
    decreases files.len() - from,
{
    if from < 0 || from >= files.len() {
        None
    } else if is_nimble(files[from]) {
        Some(files[from])
    } else {
        nimble_from(files, from + 1)
    }
}

/// The marker file of kind `k` that lies in a workspace with the entries
/// `files`: the first of the kind's fixed marker names that is there, and
/// for Nimble the first package file of the listing.
pub open spec fn marker_found(files: Seq<Seq<char>>, k: BuildKind) -> Option<Seq<char>> {
    if k == BuildKind::Nimble {
        nimble_from(files, 0)
    } else {
        first_present(files, kind_markers(k), 0)
    }
}

/// Whether a workspace with the entries `files` holds a marker of kind `k`.
pub open spec fn marked(files: Seq<Seq<char>>, k: BuildKind) -> bool {
    marker_found(files, k) is Some
}

/// The kind whose marker lies in the workspace; where markers of several
/// kinds are there, the first in the fixed order of kinds.
pub open spec fn marked_kind(files: Seq<Seq<char>>) -> Option<BuildKind> {
    if marked(files, BuildKind::Make) {
        Some(BuildKind::Make)
    } else if marked(files, BuildKind::Autotools) {
        Some(BuildKind::Autotools)
    } else if marked(files, BuildKind::Cargo) {
        Some(BuildKind::Cargo)
    } else if marked(files, BuildKind::Cmake) {
        Some(BuildKind::Cmake)
    } else if marked(files, BuildKind::Meson) {
        Some(BuildKind::Meson)
    } else if marked(files, BuildKind::Ninja) {
        Some(BuildKind::Ninja)
    } else if marked(files, BuildKind::Nimble) {
        Some(BuildKind::Nimble)
    } else if marked(files, BuildKind::Stack) {
        Some(BuildKind::Stack)
    } else {
        None
    }
}

/// Which way a workspace with the entries `files` is described: by its
/// manifest where it has one, else by the first kind whose marker is there.
pub open spec fn detection(files: Seq<Seq<char>>) -> Detection {
    if files.contains(manifest_name()) {
        Detection::Manifest
    } else {
        match marked_kind(files) {
            Some(k) => Detection::Marked(k),
            None => Detection::Nothing,
        }
    }
}

/// The build file recorded for a project of kind `k`. Make and Nimble
/// projects record the marker that was found, if any: the makefile, or the
/// first package file. Every other kind records its one marker name, found
/// or not.
pub open spec fn build_file(files: Seq<Seq<char>>, k: BuildKind) -> Option<Seq<char>> {
    match k {
        BuildKind::Make => marker_found(files, k),
        BuildKind::Nimble => marker_found(files, k),
        _ => Some(kind_markers(k)[0]),
    }
}

/// The file whose text the detector reads: the manifest where there is one;
/// else the build file of a Make, Autotools or Cargo project, which declare
/// their tools themselves; else none.
pub open spec fn inspected_file(files: Seq<Seq<char>>) -> Option<Seq<char>> {
    match detection(files) {
        Detection::Manifest => Some(manifest_name()),
        Detection::Marked(BuildKind::Make) => marker_found(files, BuildKind::Make),
        Detection::Marked(BuildKind::Autotools) => Some("configure"@),
        Detection::Marked(BuildKind::Cargo) => Some("Cargo.toml"@),
        _ => None,
    }
}

/// The tools that a project of kind `k` declares in the build file with the
/// text `content`. The kinds that declare nothing need their drivers.
pub open spec fn declared_tools(k: BuildKind, content: Seq<char>) -> Seq<Seq<char>> {
    match k {
        BuildKind::Make => make_deps(content),
        BuildKind::Autotools => autotools_deps(content),
        BuildKind::Cargo => cargo_deps(content),
        _ => kind_drivers(k),
    }
}

/// The tools that must be at hand for a build of kind `k` that declares
/// `declared`: those, and after them `make` for the kinds that run it,
/// whether or not it was declared.
pub open spec fn required_tools(k: BuildKind, declared: Seq<Seq<char>>) -> Seq<Seq<char>> {
    if kind_needs_make(k) {
        declared.push("make"@)
    } else {
        declared
    }
}

/// The descriptor of a workspace that is described by the marker of kind
/// `k`.
pub open spec fn marked_descriptor(
    files: Seq<Seq<char>>,
    k: BuildKind,
    content: Seq<char>,
    flags: Seq<Seq<char>>,
) -> DescriptorView {
    DescriptorView {
        kind: k,
        manifest: build_file(files, k),
        tools: required_tools(k, declared_tools(k, content)),
        flags,
    }
}

/// The descriptor of a workspace whose manifest declares `m`: kind, tools
/// and flags are the manifest's, and the flags of the command line follow
/// the manifest's. There is none where the manifest names no known kind.
pub open spec fn manifest_descriptor(
    files: Seq<Seq<char>>,
    m: ManifestView,
    flags: Seq<Seq<char>>,
) -> Result<DescriptorView, DetectError> {
    match kind_named(m.build_system) {
        Some(k) => Ok(
            DescriptorView {
                kind: k,
                manifest: build_file(files, k),
                tools: required_tools(k, m.dependencies),
                flags: m.flags + flags,
            },
        ),
        None => Err(DetectError::UnknownKind),
    }
}

/// The descriptor of a workspace with the entries `files`, where `content`
/// is the text of the inspected file and `flags` are the flags of the
/// command line.
pub open spec fn described(files: Seq<Seq<char>>, content: Seq<char>, flags: Seq<Seq<char>>) -> Result<
    DescriptorView,
    DetectError,
> {
    match detection(files) {
        Detection::Manifest => match manifest_in(content) {
            Some(m) => manifest_descriptor(files, m, flags),
            None => Err(DetectError::InvalidManifest),
        },
        Detection::Marked(k) => Ok(marked_descriptor(files, k, content, flags)),
        Detection::Nothing => Err(DetectError::NoBuildSystem),
    }
}

/// The view of a detector's result.
pub open spec fn result_view(r: Result<BuildDescriptor, DetectError>) -> Result<
    DescriptorView,
    DetectError,
> {
    match r {
        Ok(d) => Ok(d@),
        Err(e) => Err(e),
    }
}

/// The marker file of `kind` that lies in the workspace.
pub fn find_marker(files: &Vec<String>, kind: BuildKind) -> (r: Option<String>)
    ensures
        opt_text(r) == marker_found(texts(files@), kind),
{
    if let BuildKind::Nimble = kind {
        let mut k: usize = 0;
        while k < files.len()
            invariant
                k <= files@.len(),
                kind == BuildKind::Nimble,
                nimble_from(texts(files@), 0) == nimble_from(texts(files@), k as int),
            decreases files@.len() - k,
        {
            assert(texts(files@)[k as int] == files@[k as int]@);
            if nimble_name(files[k].as_str()) {
                return Some(files[k].clone());
            }
            k += 1;
        }
        return None;
    }
    let names = kind.markers();
    let mut i: usize = 0;
    while i < names.len()
        invariant
            i <= names@.len(),
            kind != BuildKind::Nimble,
            texts(names@) == kind_markers(kind),
            marker_found(texts(files@), kind) == first_present(
                texts(files@),
                kind_markers(kind),
                i as int,
            ),
        decreases names@.len() - i,
    {
        assert(texts(names@)[i as int] == names@[i as int]@);
        if has_name(files, names[i].as_str()) {
            return Some(names[i].clone());
        }
        i += 1;
    }
    None
}

/// Decides which way the workspace is described.
pub fn detect_route(files: &Vec<String>) -> (r: Detection)
    ensures
        r == detection(texts(files@)),
{
    if has_name(files, "radon.json") {
        Detection::Manifest
    } else if find_marker(files, BuildKind::Make).is_some() {
        Detection::Marked(BuildKind::Make)
    } else if find_marker(files, BuildKind::Autotools).is_some() {
        Detection::Marked(BuildKind::Autotools)
    } else if find_marker(files, BuildKind::Cargo).is_some() {
        Detection::Marked(BuildKind::Cargo)
    } else if find_marker(files, BuildKind::Cmake).is_some() {
        Detection::Marked(BuildKind::Cmake)
    } else if find_marker(files, BuildKind::Meson).is_some() {
        Detection::Marked(BuildKind::Meson)
    } else if find_marker(files, BuildKind::Ninja).is_some() {
        Detection::Marked(BuildKind::Ninja)
    } else if find_marker(files, BuildKind::Nimble).is_some() {
        Detection::Marked(BuildKind::Nimble)
    } else if find_marker(files, BuildKind::Stack).is_some() {
        Detection::Marked(BuildKind::Stack)
    } else {
        Detection::Nothing
    }
}

/// The build file recorded for a project of `kind` in this workspace.
pub fn find_build_file(files: &Vec<String>, kind: BuildKind) -> (r: Option<String>)
    ensures
        opt_text(r) == build_file(texts(files@), kind),
{
    match kind {
        BuildKind::Make => find_marker(files, kind),
        BuildKind::Nimble => find_marker(files, kind),
        BuildKind::Autotools => Some("configure".to_owned()),
        BuildKind::Cargo => Some("Cargo.toml".to_owned()),
        BuildKind::Cmake => Some("CMakeLists.txt".to_owned()),
        BuildKind::Meson => Some("meson.build".to_owned()),
        BuildKind::Ninja => Some("build.ninja".to_owned()),
        BuildKind::Stack => Some("stack.yaml".to_owned()),
    }
}

/// The file whose text the detector wants to be given.
pub fn file_to_inspect(files: &Vec<String>) -> (r: Option<String>)
    ensures
        opt_text(r) == inspected_file(texts(files@)),
{
    match detect_route(files) {
        Detection::Manifest => Some("radon.json".to_owned()),
        Detection::Marked(BuildKind::Make) => find_marker(files, BuildKind::Make),
        Detection::Marked(BuildKind::Autotools) => Some("configure".to_owned()),
        Detection::Marked(BuildKind::Cargo) => Some("Cargo.toml".to_owned()),
        _ => None,
    }
}

/// The tools that a project of `kind` declares in a build file with the
/// text `content`.
pub fn tools_declared(kind: BuildKind, content: &str) -> (r: Vec<String>)
    ensures
        texts(r@) == declared_tools(kind, content@),
{
    match kind {
        BuildKind::Make => parse_make_deps(content),
        BuildKind::Autotools => parse_autotools_deps(content),
        BuildKind::Cargo => parse_cargo_deps(content),
        _ => kind.drivers(),
    }
}

/// Completes the declared tools of a build of `kind` to the required ones.
pub fn tools_required(kind: BuildKind, declared: Vec<String>) -> (r: Vec<String>)
    ensures
        texts(r@) == required_tools(kind, texts(declared@)),
{
    let mut out = declared;
    if kind.needs_make() {
        let ghost before = texts(out@);
        out.push("make".to_owned());
        assert(texts(out@) =~= before.push("make"@));
    }
    out
}

/// Describes a workspace by what its manifest declares.
pub fn describe_manifest(files: &Vec<String>, m: Manifest, flags: &Vec<String>) -> (r: Result<
    BuildDescriptor,
    DetectError,
>)
    ensures
        result_view(r) == manifest_descriptor(texts(files@), m@, texts(flags@)),
{
    match BuildKind::from_name(m.build_system.as_str()) {
        Some(kind) => Ok(
            BuildDescriptor {
                kind,
                manifest: find_build_file(files, kind),
                tools: tools_required(kind, m.dependencies),
                flags: join_texts(m.flags, flags),
            },
        ),
        None => Err(DetectError::UnknownKind),
    }
}

/// Describes a workspace by the marker of `kind`.
pub fn describe_marked(files: &Vec<String>, kind: BuildKind, content: &str, flags: &Vec<String>) -> (r:
    BuildDescriptor)
    ensures
        r@ == marked_descriptor(texts(files@), kind, content@, texts(flags@)),
{
    BuildDescriptor {
        kind,
        manifest: find_build_file(files, kind),
        tools: tools_required(kind, tools_declared(kind, content)),
        flags: copy_texts(flags),
    }
}

/// The detector. `files` are the names of the entries of the workspace,
/// `content` is the text of the file that `file_to_inspect` names (empty
/// where it names none or the file cannot be read), and `flags` are the
/// flags of the command line.
pub fn detect(files: &Vec<String>, content: &str, flags: &Vec<String>) -> (r: Result<
    BuildDescriptor,
    DetectError,
>)
    ensures
        result_view(r) == described(texts(files@), content@, texts(flags@)),
{
    match detect_route(files) {
        Detection::Manifest => match parse_radon_json(content) {
            Some(m) => describe_manifest(files, m, flags),
            None => Err(DetectError::InvalidManifest),
        },
        Detection::Marked(kind) => Ok(describe_marked(files, kind, content, flags)),
        Detection::Nothing => Err(DetectError::NoBuildSystem),
    }
}

/// The fixed marker names and the name of the manifest differ from one
/// another in their first character or in their length, and none of them
/// is a Nimble package file: where the full stop of the extension would
/// stand, each has another character.
proof fn lemma_marker_names()
    ensures
        "Makefile"@.len() == 8 && "Makefile"@[0] == 'M' && "Makefile"@[1] == 'a',
        "makefile"@.len() == 8 && "makefile"@[0] == 'm' && "makefile"@[1] == 'a',
        "GNUMakefile"@.len() == 11 && "GNUMakefile"@[0] == 'G' && "GNUMakefile"@[4] == 'a',
        "configure"@.len() == 9 && "configure"@[0] == 'c' && "configure"@[2] == 'n',
        "Cargo.toml"@.len() == 10 && "Cargo.toml"@[0] == 'C' && "Cargo.toml"@[3] == 'g',
        "CMakeLists.txt"@.len() == 14 && "CMakeLists.txt"@[0] == 'C' && "CMakeLists.txt"@[7]
            == 's',
        "meson.build"@.len() == 11 && "meson.build"@[0] == 'm' && "meson.build"@[4] == 'n',
        "build.ninja"@.len() == 11 && "build.ninja"@[0] == 'b' && "build.ninja"@[4] == 'd',
        "stack.yaml"@.len() == 10 && "stack.yaml"@[0] == 's' && "stack.yaml"@[3] == 'c',
        "radon.json"@.len() == 10 && "radon.json"@[0] == 'r' && "radon.json"@[3] == 'o',
        ".nimble"@.len() == 7 && ".nimble"@[0] == '.',
{
    reveal_strlit("Makefile");
    reveal_strlit("makefile");
    reveal_strlit("GNUMakefile");
    reveal_strlit("configure");
    reveal_strlit("Cargo.toml");
    reveal_strlit("CMakeLists.txt");
    reveal_strlit("meson.build");
    reveal_strlit("build.ninja");
    reveal_strlit("stack.yaml");
    reveal_strlit("radon.json");
    reveal_strlit(".nimble");
}

/// A Nimble package file has a full stop seven characters before its end.
proof fn lemma_nimble_has_stop(name: Seq<char>)
    requires
        is_nimble(name),
    ensures
        name.len() > 7,
        name[name.len() - 7] == '.',
{
    lemma_marker_names();
    assert(name.subrange(name.len() - 7, name.len() as int)[0] == ".nimble"@[0]);
}

/// A text without a full stop seven characters before its end is no
/// Nimble package file.
proof fn lemma_no_stop_no_nimble(name: Seq<char>)
    requires
        name.len() <= 7 || name[name.len() - 7] != '.',
    ensures
        !is_nimble(name),
{
    if is_nimble(name) {
        lemma_nimble_has_stop(name);
    }
}

/// A workspace that holds one marker file and nothing else is of the kind
/// that the marker belongs to: a fixed marker name of its kind, or for
/// Nimble a package file of any name.
pub proof fn lemma_lone_marker_selects_its_kind(k: BuildKind, name: Seq<char>)
    requires
        is_marker(k, name),
    ensures
        detection(seq![name]) == Detection::Marked(k),
        build_file(seq![name], k) == Some(name),
{
    lemma_marker_names();
    reveal_with_fuel(first_present, 4);
    reveal_with_fuel(nimble_from, 2);
    let files = seq![name];
    assert(files[0] == name);
    assert forall|x: Seq<char>| files.contains(x) implies x == name by {}
    assert(files.contains(name));
    if k == BuildKind::Nimble {
        lemma_nimble_has_stop(name);
    } else {
        let names = kind_markers(k);
        let i = choose|i: int| 0 <= i < names.len() && names[i] == name;
        assert(names[i] == name);
        lemma_no_stop_no_nimble(name);
    }
}

/// A workspace that holds one marker file and nothing else is described as
/// a project of the marker's kind, with the marker as its build file,
/// whatever the file holds.
pub proof fn lemma_lone_marker_is_described(
    k: BuildKind,
    name: Seq<char>,
    content: Seq<char>,
    flags: Seq<Seq<char>>,
)
    requires
        is_marker(k, name),
    ensures
        described(seq![name], content, flags) matches Ok(d) && d.kind == k && d.manifest == Some(
            name,
        ),
{
    lemma_lone_marker_selects_its_kind(k, name);
    lemma_marker_names();
    reveal_with_fuel(first_present, 4);
    if k != BuildKind::Nimble && k != BuildKind::Make {
        let names = kind_markers(k);
        let i = choose|i: int| 0 <= i < names.len() && names[i] == name;
        assert(names[i] == name);
    }
}

/// A kind is selected only where one of its markers lies in the workspace.
pub proof fn lemma_selected_kind_is_marked(files: Seq<Seq<char>>, k: BuildKind)
    requires
        detection(files) == Detection::Marked(k),
    ensures
        exists|name: Seq<char>| files.contains(name) && #[trigger] is_marker(k, name),
{
    reveal_with_fuel(first_present, 4);
    assert(marked(files, k));
    if k == BuildKind::Nimble {
        lemma_nimble_found(files, 0);
        let name = nimble_from(files, 0)->Some_0;
        assert(files.contains(name) && is_marker(k, name));
    } else {
        let names = kind_markers(k);
        if files.contains(names[0]) {
            assert(is_marker(k, names[0]));
        } else if names.len() > 1 && files.contains(names[1]) {
            assert(is_marker(k, names[1]));
        } else {
            assert(names.len() > 2 && files.contains(names[2]));
            assert(is_marker(k, names[2]));
        }
    }
}

/// The package file found is one of the listing, and it is a package file.
proof fn lemma_nimble_found(files: Seq<Seq<char>>, from: int)
    requires
        0 <= from,
        nimble_from(files, from) is Some,
    ensures
        files.contains(nimble_from(files, from)->Some_0),
        is_nimble(nimble_from(files, from)->Some_0),
    decreases files.len() - from,
{
    if from < files.len() && !is_nimble(files[from]) {
        lemma_nimble_found(files, from + 1);
    }
}

/// A manifest in the workspace decides, whatever else lies there: the kind
/// is the manifest's, the tools are those it declares, with `make` after
/// them for the kinds that run it, and the flags are the manifest's,
/// followed by those of the command line.
pub proof fn lemma_manifest_wins(files: Seq<Seq<char>>, content: Seq<char>, flags: Seq<Seq<char>>)
    requires
        files.contains(manifest_name()),
    ensures
        detection(files) == Detection::Manifest,
        match manifest_in(content) {
            Some(m) => match kind_named(m.build_system) {
                Some(k) => described(files, content, flags) is Ok && described(
                    files,
                    content,
                    flags,
                )->Ok_0.kind == k && described(files, content, flags)->Ok_0.tools == required_tools(
                    k,
                    m.dependencies,
                ) && described(files, content, flags)->Ok_0.flags == m.flags + flags,
                None => described(files, content, flags) == Err::<DescriptorView, DetectError>(
                    DetectError::UnknownKind,
                ),
            },
            None => described(files, content, flags) == Err::<DescriptorView, DetectError>(
                DetectError::InvalidManifest,
            ),
        },
{
}

} // verus!
