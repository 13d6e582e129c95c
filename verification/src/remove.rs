//! Removal of an installed package: its entry leaves the registry, and its
//! program is deleted from where it was installed.

use crate::command::{Invocation, InvocationView};
use crate::host::{elevate, elevated};
use crate::registry::{
    is_installed, position_of, without, InstalledPackage, Registry,
};
use crate::text::{chars_of, has_prefix, starts_with, texts};
use vstd::prelude::*;

verus! {

/// How an installed program is deleted.
pub enum Deletion {
    /// By this run under the elevation command.
    Elevated(Invocation),
    /// By deleting the file at this path directly.
    Direct(String),
}

/// A deletion as plain texts.
pub enum DeletionView {
    Elevated(InvocationView),
    Direct(Seq<char>),
}

impl View for Deletion {
    type V = DeletionView;

    open spec fn view(&self) -> DeletionView {
        match self {
            Deletion::Elevated(r) => DeletionView::Elevated(r@),
            Deletion::Direct(p) => DeletionView::Direct(p@),
        }
    }
}

/// What a removal asks for: the entry that left the registry, and how its
/// program is deleted. A program that is no longer there is no fault; the
/// registry is saved all the same.
pub struct Removal {
    pub entry: InstalledPackage,
    pub deletion: Deletion,
}

/// What is still to be deleted, given whether the program is there: the
/// deletion itself, and nothing where the program is gone already. A
/// program that is gone is worth a warning and no more.
pub open spec fn pending_of(d: DeletionView, exists: bool) -> Option<DeletionView> {
    if exists {
        Some(d)
    } else {
        None
    }
}

/// The view of a deletion that may be missing.
pub open spec fn opt_deletion(o: Option<Deletion>) -> Option<DeletionView> {
    match o {
        Some(d) => Some(d@),
        None => None,
    }
}

/// Says what is still to be deleted, given whether the program is there.
pub fn pending(deletion: Deletion, exists: bool) -> (r: Option<Deletion>)
    ensures
        opt_deletion(r) == pending_of(deletion@, exists),
{
    if exists {
        Some(deletion)
    } else {
        None
    }
}

/// Why nothing was removed.
#[derive(Clone, Copy, Debug, PartialEq, Eq, Structural)]
pub enum RemoveError {
    /// No package of this name is installed.
    NotFound,
}

/// How the program at `location` is deleted: under the elevation command
/// where it lies under `/usr`, directly otherwise.
pub open spec fn deletion_of(location: Seq<char>, privilege: Seq<char>) -> DeletionView {
    if starts_with(location, "/usr"@) {
        DeletionView::Elevated(elevated(privilege, seq!["rm"@, "-f"@, location]))
    } else {
        DeletionView::Direct(location)
    }
}

/// Says how the program at `location` is deleted.
pub fn deletion(location: &str, privilege: &str) -> (r: Deletion)
    ensures
        r@ == deletion_of(location@, privilege@),
{
    if has_prefix(chars_of(location).as_slice(), chars_of("/usr").as_slice()) {
        let mut words: Vec<String> = Vec::new();
        words.push("rm".to_owned());
        words.push("-f".to_owned());
        words.push(location.to_owned());
        assert(texts(words@) =~= seq!["rm"@, "-f"@, location@]);
        Deletion::Elevated(elevate(privilege, words))
    } else {
        Deletion::Direct(location.to_owned())
    }
}

/// Removes the package named `package`. Where it is installed, its entry,
/// the first of that name, leaves the registry, all other entries stay as
/// they are and in their order, and the result says how its program is
/// deleted. Where it is not installed, the removal fails and the registry
/// stays as it is.
pub fn remove(registry: &mut Registry, package: &str, privilege: &str) -> (r: Result<
    Removal,
    RemoveError,
>)
    ensures
        final(registry)@ == without(old(registry)@, package@),
        match r {
            Ok(x) => {
                &&& is_installed(old(registry)@, package@)
                &&& x.entry@ == old(registry)@[position_of(old(registry)@, package@)]
                &&& x.entry@.name == package@
                &&& x.deletion@ == deletion_of(x.entry@.location, privilege@)
            },
            Err(e) => {
                &&& e == RemoveError::NotFound
                &&& !is_installed(old(registry)@, package@)
                &&& final(registry)@ == old(registry)@
            },
        },
        old(registry).well_formed() ==> final(registry).well_formed() && !is_installed(
            final(registry)@,
            package@,
        ),
{
    proof {
        crate::registry::lemma_position(registry@, package@, 0);
    }
    match registry.remove(package) {
        Some(entry) => {
            let deletion = deletion(entry.location.as_str(), privilege);
            Ok(Removal { entry, deletion })
        },
        None => Err(RemoveError::NotFound),
    }
}

} // verus!
