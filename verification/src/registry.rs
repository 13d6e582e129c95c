//! The registry of installed packages: an ordered list of entries with at
//! most one entry for each package name.

use crate::text::{opt_text, same_text, texts};
use vstd::prelude::*;
use vstd::string::StringExecFns;

verus! {

/// What the registry records of one installed package.
pub struct InstalledPackage {
    /// The name of the package: the last segment of its reference.
    pub name: String,
    /// The host it was fetched from; none stands for the default host.
    pub source: Option<String>,
    /// The tag of its build system.
    pub build_system: String,
    /// Where its program was installed.
    pub location: String,
    /// Its build file, relative to the root of its sources.
    pub build_file: Option<String>,
    /// The fingerprint of its build file.
    pub hash: Option<String>,
    /// Its version, where the build file states one.
    pub version: Option<String>,
}

/// A registry entry as plain texts.
pub struct PackageView {
    pub name: Seq<char>,
    pub source: Option<Seq<char>>,
    pub build_system: Seq<char>,
    pub location: Seq<char>,
    pub build_file: Option<Seq<char>>,
    pub hash: Option<Seq<char>>,
    pub version: Option<Seq<char>>,
}

impl View for InstalledPackage {
    type V = PackageView;

    open spec fn view(&self) -> PackageView {
        PackageView {
            name: self.name@,
            source: opt_text(self.source),
            build_system: self.build_system@,
            location: self.location@,
            build_file: opt_text(self.build_file),
            hash: opt_text(self.hash),
            version: opt_text(self.version),
        }
    }
}

/// The views of a sequence of entries.
pub open spec fn packages(v: Seq<InstalledPackage>) -> Seq<PackageView> {
    Seq::new(v.len(), |i: int| v[i]@)
}

/// A copy of an optional text.
pub fn copy_opt(o: &Option<String>) -> (r: Option<String>)
    ensures
        opt_text(r) == opt_text(*o),
{
    match o {
        Some(s) => Some(s.clone()),
        None => None,
    }
}

impl InstalledPackage {
    /// A copy of this entry.
    pub fn copy(&self) -> (r: InstalledPackage)
        ensures
            r@ == self@,
    {
        InstalledPackage {
            name: self.name.clone(),
            source: copy_opt(&self.source),
            build_system: self.build_system.clone(),
            location: self.location.clone(),
            build_file: copy_opt(&self.build_file),
            hash: copy_opt(&self.hash),
            version: copy_opt(&self.version),
        }
    }
}

/// The position of the first of `entries`, from `from` on, that is named
/// `name`; `entries.len()` where there is none.
pub open spec fn position_from(entries: Seq<PackageView>, name: Seq<char>, from: int) -> int
    decreases entries.len() - from,
{
    if from < 0 || from >= entries.len() {
        entries.len() as int
    } else if entries[from].name == name {
        from
    } else {
        position_from(entries, name, from + 1)
    }
}

/// The position of the first of `entries` that is named `name`;
/// `entries.len()` where there is none.
pub open spec fn position_of(entries: Seq<PackageView>, name: Seq<char>) -> int {
    position_from(entries, name, 0)
}

/// Whether an entry named `name` is among `entries`.
pub open spec fn is_installed(entries: Seq<PackageView>, name: Seq<char>) -> bool {
    exists|i: int| 0 <= i < entries.len() && entries[i].name == name
}

/// Whether no two of `entries` have the same name.
pub open spec fn unique_names(entries: Seq<PackageView>) -> bool {
    forall|i: int, j: int|
        0 <= i < j < entries.len() ==> #[trigger] entries[i].name != #[trigger] entries[j].name
}

/// `entries` with `entry` recorded: in the place of the entry of the same
/// name where there is one, at the end otherwise.
pub open spec fn recorded(entries: Seq<PackageView>, entry: PackageView) -> Seq<PackageView> {
    let at = position_of(entries, entry.name);
    if at < entries.len() {
        entries.update(at, entry)
    } else {
        entries.push(entry)
    }
}

/// `entries` without the first entry named `name`.
pub open spec fn without(entries: Seq<PackageView>, name: Seq<char>) -> Seq<PackageView> {
    let at = position_of(entries, name);
    if at < entries.len() {
        entries.remove(at)
    } else {
        entries
    }
}

/// The position found lies at or after `from`, holds an entry of the name
/// unless it is the end, and no entry before it, from `from` on, has the
/// name.
pub proof fn lemma_position(entries: Seq<PackageView>, name: Seq<char>, from: int)
    requires
        0 <= from <= entries.len(),
    ensures
        from <= position_from(entries, name, from) <= entries.len(),
        position_from(entries, name, from) < entries.len() ==> entries[position_from(
            entries,
            name,
            from,
        )].name == name,
        forall|j: int| from <= j < position_from(entries, name, from) ==> entries[j].name != name,
    decreases entries.len() - from,
{
    if from < entries.len() && entries[from].name != name {
        lemma_position(entries, name, from + 1);
    }
}

/// An entry is found exactly where one of that name is installed.
pub proof fn lemma_found_iff_installed(entries: Seq<PackageView>, name: Seq<char>)
    ensures
        position_of(entries, name) < entries.len() <==> is_installed(entries, name),
{
    lemma_position(entries, name, 0);
}

/// The registry.
pub struct Registry {
    pub entries: Vec<InstalledPackage>,
}

impl View for Registry {
    type V = Seq<PackageView>;

    open spec fn view(&self) -> Seq<PackageView> {
        packages(self.entries@)
    }
}

impl Registry {
    /// Whether the registry holds at most one entry for each name.
    pub open spec fn well_formed(&self) -> bool {
        unique_names(self@)
    }

    /// A registry without entries.
    pub fn new() -> (r: Registry)
        ensures
            r@ == Seq::<PackageView>::empty(),
            r.well_formed(),
    {
        let r = Registry { entries: Vec::new() };
        assert(r@ =~= Seq::<PackageView>::empty());
        r
    }

    /// The registry that holds `entries` as they were read. Whether it is
    /// well formed depends on what was read; `is_well_formed` tells.
    pub fn from_entries(entries: Vec<InstalledPackage>) -> (r: Registry)
        ensures
            r@ == packages(entries@),
            r.well_formed() == unique_names(packages(entries@)),
    {
        Registry { entries }
    }

    /// Tells whether the registry holds at most one entry for each name.
    pub fn is_well_formed(&self) -> (r: bool)
        ensures
            r == self.well_formed(),
    {
        let mut j: usize = 0;
        while j < self.entries.len()
            invariant
                j <= self.entries@.len(),
                forall|a: int, b: int|
                    0 <= a < b < j ==> #[trigger] self@[a].name != #[trigger] self@[b].name,
            decreases self.entries@.len() - j,
        {
            let mut i: usize = 0;
            while i < j
                invariant
                    i <= j < self.entries@.len(),
                    forall|a: int| 0 <= a < i ==> #[trigger] self@[a].name != self@[j as int].name,
                decreases j - i,
            {
                assert(self@[i as int] == self.entries@[i as int]@);
                assert(self@[j as int] == self.entries@[j as int]@);
                if same_text(self.entries[i].name.as_str(), self.entries[j].name.as_str()) {
                    assert(self@[i as int].name == self@[j as int].name);
                    return false;
                }
                i += 1;
            }
            j += 1;
        }
        true
    }

    /// The number of entries.
    pub fn len(&self) -> (r: usize)
        ensures
            r == self@.len(),
    {
        self.entries.len()
    }

    /// The position of the first entry named `name`.
    pub fn position(&self, name: &str) -> (r: Option<usize>)
        ensures
            match r {
                Some(i) => i == position_of(self@, name@) && i < self@.len(),
                None => position_of(self@, name@) == self@.len(),
            },
            r is Some <==> is_installed(self@, name@),
    {
        proof {
            lemma_found_iff_installed(self@, name@);
        }
        let mut i: usize = 0;
        while i < self.entries.len()
            invariant
                i <= self.entries@.len(),
                position_of(self@, name@) == position_from(self@, name@, i as int),
            decreases self.entries@.len() - i,
        {
            assert(self@[i as int] == self.entries@[i as int]@);
            if same_text(self.entries[i].name.as_str(), name) {
                return Some(i);
            }
            i += 1;
        }
        None
    }

    /// The entry named `name`, where there is one.
    pub fn find(&self, name: &str) -> (r: Option<&InstalledPackage>)
        ensures
            match r {
                Some(e) => position_of(self@, name@) < self@.len() && e@ == self@[position_of(
                    self@,
                    name@,
                )],
                None => !is_installed(self@, name@),
            },
    {
        match self.position(name) {
            Some(i) => {
                assert(self@[i as int] == self.entries@[i as int]@);
                Some(&self.entries[i])
            },
            None => None,
        }
    }

    /// The names of all entries, in their order.
    pub fn names(&self) -> (r: Vec<String>)
        ensures
            texts(r@) == Seq::new(self@.len(), |i: int| self@[i].name),
    {
        let mut out: Vec<String> = Vec::new();
        let mut i: usize = 0;
        while i < self.entries.len()
            invariant
                i <= self.entries@.len(),
                texts(out@) == Seq::new(i as nat, |k: int| self@[k].name),
            decreases self.entries@.len() - i,
        {
            let ghost before = texts(out@);
            out.push(self.entries[i].name.clone());
            assert(self@[i as int] == self.entries@[i as int]@);
            assert(texts(out@) =~= before.push(self@[i as int].name));
            assert(texts(out@) =~= Seq::new((i + 1) as nat, |k: int| self@[k].name));
            i += 1;
        }
        out
    }

    /// Records `entry`: it takes the place of the entry of the same name
    /// where there is one, and is added at the end otherwise.
    pub fn record(&mut self, entry: InstalledPackage)
        ensures
            final(self)@ == recorded(old(self)@, entry@),
            old(self).well_formed() ==> final(self).well_formed(),
    {
        proof {
            if self.well_formed() {
                lemma_record_keeps_unique(self@, entry@);
            }
        }
        let ghost before = self@;
        match self.position(entry.name.as_str()) {
            Some(i) => {
                self.entries.set(i, entry);
                assert(self@ =~= before.update(i as int, entry@));
            },
            None => {
                self.entries.push(entry);
                assert(self@ =~= before.push(entry@));
            },
        }
    }

    /// Removes the first entry named `name` and hands it out. Where there
    /// is none the registry stays as it is.
    pub fn remove(&mut self, name: &str) -> (r: Option<InstalledPackage>)
        ensures
            final(self)@ == without(old(self)@, name@),
            match r {
                Some(e) => is_installed(old(self)@, name@) && e@ == old(self)@[position_of(
                    old(self)@,
                    name@,
                )],
                None => !is_installed(old(self)@, name@) && final(self)@ == old(self)@,
            },
            old(self).well_formed() ==> final(self).well_formed() && !is_installed(
                final(self)@,
                name@,
            ),
    {
        proof {
            if self.well_formed() {
                lemma_remove_keeps_unique(self@, name@);
            }
        }
        let ghost before = self@;
        match self.position(name) {
            Some(i) => {
                assert(before[i as int] == self.entries@[i as int]@);
                let e = self.entries.remove(i);
                assert(self@ =~= before.remove(i as int));
                Some(e)
            },
            None => None,
        }
    }
}

/// Recording keeps the names unique.
pub proof fn lemma_record_keeps_unique(entries: Seq<PackageView>, entry: PackageView)
    requires
        unique_names(entries),
    ensures
        unique_names(recorded(entries, entry)),
{
    lemma_position(entries, entry.name, 0);
    let at = position_of(entries, entry.name);
    let after = recorded(entries, entry);
    assert forall|i: int, j: int| 0 <= i < j < after.len() implies #[trigger] after[i].name
        != #[trigger] after[j].name by {
        if at < entries.len() {
            if i == at {
                assert(entries[i].name != entries[j].name);
            } else if j == at {
                assert(entries[i].name != entries[j].name);
            } else {
                assert(entries[i].name != entries[j].name);
            }
        } else {
            if j == entries.len() {
            } else {
                assert(entries[i].name != entries[j].name);
            }
        }
    }
}

/// Removal keeps the names unique and leaves no entry of the removed name.
pub proof fn lemma_remove_keeps_unique(entries: Seq<PackageView>, name: Seq<char>)
    requires
        unique_names(entries),
    ensures
        unique_names(without(entries, name)),
        !is_installed(without(entries, name), name),
{
    lemma_position(entries, name, 0);
    let at = position_of(entries, name);
    let after = without(entries, name);
    assert forall|i: int, j: int| 0 <= i < j < after.len() implies #[trigger] after[i].name
        != #[trigger] after[j].name by {
        if at < entries.len() {
            let a = if i < at {
                i
            } else {
                i + 1
            };
            let b = if j < at {
                j
            } else {
                j + 1
            };
            assert(entries[a].name != entries[b].name);
        } else {
            assert(entries[i].name != entries[j].name);
        }
    }
    assert forall|i: int| 0 <= i < after.len() implies after[i].name != name by {
        if at < entries.len() {
            if i < at {
            } else {
                assert(entries[at].name != entries[i + 1].name);
            }
        }
    }
}

/// Removal takes out exactly one entry, one with the name given, and leaves
/// all the others as they were and in their order. Removing a name that is
/// not installed changes nothing.
pub proof fn lemma_remove_exactly_one(entries: Seq<PackageView>, name: Seq<char>)
    ensures
        is_installed(entries, name) ==> {
            let at = position_of(entries, name);
            &&& 0 <= at < entries.len()
            &&& entries[at].name == name
            &&& without(entries, name).len() == entries.len() - 1
            &&& forall|i: int| 0 <= i < at ==> without(entries, name)[i] == entries[i]
            &&& forall|i: int|
                at <= i < entries.len() - 1 ==> without(entries, name)[i] == entries[i + 1]
        },
        !is_installed(entries, name) ==> without(entries, name) == entries,
{
    lemma_position(entries, name, 0);
}

/// The line that lists an entry: its name, and its build system in
/// brackets.
pub open spec fn listing_line(e: PackageView) -> Seq<char> {
    "- "@ + e.name + " ("@ + e.build_system + ")"@
}

/// What the list of installed packages shows: one line for each entry, or
/// one line that says that there is none.
pub open spec fn listing(entries: Seq<PackageView>) -> Seq<Seq<char>> {
    if entries.len() == 0 {
        seq!["No packages installed"@]
    } else {
        Seq::new(entries.len(), |i: int| listing_line(entries[i]))
    }
}

/// Writes the list of installed packages.
pub fn list(registry: &Registry) -> (r: Vec<String>)
    ensures
        texts(r@) == listing(registry@),
{
    let mut out: Vec<String> = Vec::new();
    if registry.entries.len() == 0 {
        out.push("No packages installed".to_owned());
        assert(texts(out@) =~= listing(registry@));
        return out;
    }
    let mut i: usize = 0;
    while i < registry.entries.len()
        invariant
            i <= registry.entries@.len(),
            texts(out@) == Seq::new(i as nat, |k: int| listing_line(registry@[k])),
        decreases registry.entries@.len() - i,
    {
        let e = &registry.entries[i];
        assert(registry@[i as int] == e@);
        let mut line = "- ".to_owned();
        line.append(e.name.as_str());
        line.append(" (");
        line.append(e.build_system.as_str());
        line.append(")");
        let ghost before = texts(out@);
        out.push(line);
        assert(texts(out@) =~= before.push(listing_line(registry@[i as int])));
        assert(texts(out@) =~= Seq::new((i + 1) as nat, |k: int| listing_line(registry@[k])));
        i += 1;
    }
    assert(texts(out@) =~= listing(registry@));
    out
}

} // verus!
