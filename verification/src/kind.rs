//! The closed set of build systems, and what is fixed about each of them.

use crate::text::{chars_of, ends_with, has_suffix, same_text, texts};
use vstd::prelude::*;

verus! {

/// A build system that this installer can drive.
#[derive(Clone, Copy, Debug, PartialEq, Eq, Structural)]
pub enum BuildKind {
    Make,
    Autotools,
    Cargo,
    Cmake,
    Meson,
    Ninja,
    Nimble,
    Stack,
}

/// The eight kinds in the order in which their marker files are tried.
pub open spec fn kinds_in_order() -> Seq<BuildKind> {
    seq![
        BuildKind::Make,
        BuildKind::Autotools,
        BuildKind::Cargo,
        BuildKind::Cmake,
        BuildKind::Meson,
        BuildKind::Ninja,
        BuildKind::Nimble,
        BuildKind::Stack,
    ]
}

/// The tag under which a kind is written in manifests and in the registry.
pub open spec fn kind_name(k: BuildKind) -> Seq<char> {
    match k {
        BuildKind::Make => "make"@,
        BuildKind::Autotools => "autotools"@,
        BuildKind::Cargo => "cargo"@,
        BuildKind::Cmake => "cmake"@,
        BuildKind::Meson => "meson"@,
        BuildKind::Ninja => "ninja"@,
        BuildKind::Nimble => "nimble"@,
        BuildKind::Stack => "stack"@,
    }
}

/// The kind that a tag stands for, if it is one of the eight tags.
pub open spec fn kind_named(name: Seq<char>) -> Option<BuildKind> {
    if name == "make"@ {
        Some(BuildKind::Make)
    } else if name == "autotools"@ {
        Some(BuildKind::Autotools)
    } else if name == "cargo"@ {
        Some(BuildKind::Cargo)
    } else if name == "cmake"@ {
        Some(BuildKind::Cmake)
    } else if name == "meson"@ {
        Some(BuildKind::Meson)
    } else if name == "ninja"@ {
        Some(BuildKind::Ninja)
    } else if name == "nimble"@ {
        Some(BuildKind::Nimble)
    } else if name == "stack"@ {
        Some(BuildKind::Stack)
    } else {
        None
    }
}

/// The name of a kind as it is shown to the operator.
pub open spec fn kind_label(k: BuildKind) -> Seq<char> {
    match k {
        BuildKind::Make => "Make"@,
        BuildKind::Autotools => "Autotools"@,
        BuildKind::Cargo => "Cargo"@,
        BuildKind::Cmake => "CMake"@,
        BuildKind::Meson => "Meson"@,
        BuildKind::Ninja => "Ninja"@,
        BuildKind::Nimble => "Nimble"@,
        BuildKind::Stack => "Stack"@,
    }
}

/// Whether a file of this name is a Nimble package file: a name, a full
/// stop, and `nimble`.
pub open spec fn is_nimble(name: Seq<char>) -> bool {
    name.len() > 7 && ends_with(name, ".nimble"@)
}

/// The fixed file names whose presence in a workspace marks it as being of
/// kind `k`, in the order in which they are tried. Nimble has none: its
/// marker is a package file, whatever it is called.
pub open spec fn kind_markers(k: BuildKind) -> Seq<Seq<char>> {
    match k {
        BuildKind::Make => seq!["Makefile"@, "makefile"@, "GNUMakefile"@],
        BuildKind::Autotools => seq!["configure"@],
        BuildKind::Cargo => seq!["Cargo.toml"@],
        BuildKind::Cmake => seq!["CMakeLists.txt"@],
        BuildKind::Meson => seq!["meson.build"@],
        BuildKind::Ninja => seq!["build.ninja"@],
        BuildKind::Nimble => seq![],
        BuildKind::Stack => seq!["stack.yaml"@],
    }
}

/// Whether a file named `name` marks a workspace as being of kind `k`.
pub open spec fn is_marker(k: BuildKind, name: Seq<char>) -> bool {
    if k == BuildKind::Nimble {
        is_nimble(name)
    } else {
        kind_markers(k).contains(name)
    }
}

/// The driver programs that a kind always needs, whatever the project says.
/// Make, Autotools and Cargo projects declare their tools themselves.
pub open spec fn kind_drivers(k: BuildKind) -> Seq<Seq<char>> {
    match k {
        BuildKind::Make => seq![],
        BuildKind::Autotools => seq![],
        BuildKind::Cargo => seq![],
        BuildKind::Cmake => seq!["cmake"@],
        BuildKind::Meson => seq!["meson"@, "ninja"@],
        BuildKind::Ninja => seq!["ninja"@],
        BuildKind::Nimble => seq!["nim"@, "nimble"@],
        BuildKind::Stack => seq!["stack"@],
    }
}

/// Whether builds of kind `k` run `make` behind the scenes, so that `make`
/// is required even where nothing declares it.
pub open spec fn kind_needs_make(k: BuildKind) -> bool {
    k == BuildKind::Make || k == BuildKind::Cmake
}

impl BuildKind {
    /// The tag of this kind.
    pub fn name(&self) -> (r: String)
        ensures
            r@ == kind_name(*self),
    {
        match self {
            BuildKind::Make => "make".to_owned(),
            BuildKind::Autotools => "autotools".to_owned(),
            BuildKind::Cargo => "cargo".to_owned(),
            BuildKind::Cmake => "cmake".to_owned(),
            BuildKind::Meson => "meson".to_owned(),
            BuildKind::Ninja => "ninja".to_owned(),
            BuildKind::Nimble => "nimble".to_owned(),
            BuildKind::Stack => "stack".to_owned(),
        }
    }

    /// The kind with tag `name`; `None` for any other text.
    pub fn from_name(name: &str) -> (r: Option<BuildKind>)
        ensures
            r == kind_named(name@),
    {
        if same_text(name, "make") {
            Some(BuildKind::Make)
        } else if same_text(name, "autotools") {
            Some(BuildKind::Autotools)
        } else if same_text(name, "cargo") {
            Some(BuildKind::Cargo)
        } else if same_text(name, "cmake") {
            Some(BuildKind::Cmake)
        } else if same_text(name, "meson") {
            Some(BuildKind::Meson)
        } else if same_text(name, "ninja") {
            Some(BuildKind::Ninja)
        } else if same_text(name, "nimble") {
            Some(BuildKind::Nimble)
        } else if same_text(name, "stack") {
            Some(BuildKind::Stack)
        } else {
            None
        }
    }

    /// The name of this kind as shown to the operator.
    pub fn label(&self) -> (r: String)
        ensures
            r@ == kind_label(*self),
    {
        match self {
            BuildKind::Make => "Make".to_owned(),
            BuildKind::Autotools => "Autotools".to_owned(),
            BuildKind::Cargo => "Cargo".to_owned(),
            BuildKind::Cmake => "CMake".to_owned(),
            BuildKind::Meson => "Meson".to_owned(),
            BuildKind::Ninja => "Ninja".to_owned(),
            BuildKind::Nimble => "Nimble".to_owned(),
            BuildKind::Stack => "Stack".to_owned(),
        }
    }

    /// The fixed marker file names of this kind, in the order in which they
    /// are tried.
    pub fn markers(&self) -> (r: Vec<String>)
        ensures
            texts(r@) == kind_markers(*self),
    {
        let mut out: Vec<String> = Vec::new();
        match self {
            BuildKind::Make => {
                out.push("Makefile".to_owned());
                out.push("makefile".to_owned());
                out.push("GNUMakefile".to_owned());
            },
            BuildKind::Autotools => {
                out.push("configure".to_owned());
            },
            BuildKind::Cargo => {
                out.push("Cargo.toml".to_owned());
            },
            BuildKind::Cmake => {
                out.push("CMakeLists.txt".to_owned());
            },
            BuildKind::Meson => {
                out.push("meson.build".to_owned());
            },
            BuildKind::Ninja => {
                out.push("build.ninja".to_owned());
            },
            BuildKind::Nimble => {},
            BuildKind::Stack => {
                out.push("stack.yaml".to_owned());
            },
        }
        assert(texts(out@) =~= kind_markers(*self));
        out
    }

    /// Whether a file named `name` marks a workspace as being of this kind.
    pub fn marks(&self, name: &str) -> (r: bool)
        ensures
            r == is_marker(*self, name@),
    {
        match self {
            BuildKind::Nimble => nimble_name(name),
            _ => {
                let names = self.markers();
                let mut i: usize = 0;
                while i < names.len()
                    invariant
                        i <= names@.len(),
                        *self != BuildKind::Nimble,
                        texts(names@) == kind_markers(*self),
                        forall|j: int| 0 <= j < i ==> texts(names@)[j] != name@,
                    decreases names@.len() - i,
                {
                    if same_text(names[i].as_str(), name) {
                        assert(texts(names@)[i as int] == name@);
                        return true;
                    }
                    i += 1;
                }
                false
            },
        }
    }

    /// The driver programs that this kind always needs.
    pub fn drivers(&self) -> (r: Vec<String>)
        ensures
            texts(r@) == kind_drivers(*self),
    {
        let mut out: Vec<String> = Vec::new();
        match self {
            BuildKind::Cmake => {
                out.push("cmake".to_owned());
            },
            BuildKind::Meson => {
                out.push("meson".to_owned());
                out.push("ninja".to_owned());
            },
            BuildKind::Ninja => {
                out.push("ninja".to_owned());
            },
            BuildKind::Nimble => {
                out.push("nim".to_owned());
                out.push("nimble".to_owned());
            },
            BuildKind::Stack => {
                out.push("stack".to_owned());
            },
            _ => {},
        }
        assert(texts(out@) =~= kind_drivers(*self));
        out
    }

    /// Whether builds of this kind run `make` behind the scenes.
    pub fn needs_make(&self) -> (r: bool)
        ensures
            r == kind_needs_make(*self),
    {
        match self {
            BuildKind::Make => true,
            BuildKind::Cmake => true,
            _ => false,
        }
    }
}

/// Whether a file named `name` is a Nimble package file.
pub fn nimble_name(name: &str) -> (r: bool)
    ensures
        r == is_nimble(name@),
{
    let chars = chars_of(name);
    chars.len() > 7 && has_suffix(chars.as_slice(), chars_of(".nimble").as_slice())
}

/// Reveals what the eight tags are, character by character.
pub proof fn lemma_kind_names()
    ensures
        "make"@ == seq!['m', 'a', 'k', 'e'],
        "autotools"@ == seq!['a', 'u', 't', 'o', 't', 'o', 'o', 'l', 's'],
        "cargo"@ == seq!['c', 'a', 'r', 'g', 'o'],
        "cmake"@ == seq!['c', 'm', 'a', 'k', 'e'],
        "meson"@ == seq!['m', 'e', 's', 'o', 'n'],
        "ninja"@ == seq!['n', 'i', 'n', 'j', 'a'],
        "nimble"@ == seq!['n', 'i', 'm', 'b', 'l', 'e'],
        "stack"@ == seq!['s', 't', 'a', 'c', 'k'],
{
    reveal_strlit("make");
    reveal_strlit("autotools");
    reveal_strlit("cargo");
    reveal_strlit("cmake");
    reveal_strlit("meson");
    reveal_strlit("ninja");
    reveal_strlit("nimble");
    reveal_strlit("stack");
    assert("make"@ =~= seq!['m', 'a', 'k', 'e']);
    assert("autotools"@ =~= seq!['a', 'u', 't', 'o', 't', 'o', 'o', 'l', 's']);
    assert("cargo"@ =~= seq!['c', 'a', 'r', 'g', 'o']);
    assert("cmake"@ =~= seq!['c', 'm', 'a', 'k', 'e']);
    assert("meson"@ =~= seq!['m', 'e', 's', 'o', 'n']);
    assert("ninja"@ =~= seq!['n', 'i', 'n', 'j', 'a']);
    assert("nimble"@ =~= seq!['n', 'i', 'm', 'b', 'l', 'e']);
    assert("stack"@ =~= seq!['s', 't', 'a', 'c', 'k']);
}

/// Every kind is found again from its tag: the tags are pairwise different.
pub proof fn lemma_kind_name_round_trip(k: BuildKind)
    ensures
        kind_named(kind_name(k)) == Some(k),
{
    lemma_kind_names();
    let a = "make"@;
    let b = "autotools"@;
    let c = "cargo"@;
    let d = "cmake"@;
    let e = "meson"@;
    let f = "ninja"@;
    let g = "nimble"@;
    let h = "stack"@;
    assert(a.len() == 4 && b.len() == 9 && g.len() == 6);
    assert(c[1] == 'a' && d[1] == 'm' && e[1] == 'e' && f[1] == 'i' && h[1] == 't');
    assert(c[0] == 'c' && e[0] == 'm' && f[0] == 'n' && h[0] == 's');
}

/// A tag that names a kind is that kind's tag.
pub proof fn lemma_kind_named_is_name(name: Seq<char>, k: BuildKind)
    requires
        kind_named(name) == Some(k),
    ensures
        kind_name(k) == name,
{
}

} // verus!
