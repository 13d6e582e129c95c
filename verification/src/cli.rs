//! The commands of the installer, as they come from the command line.

use vstd::prelude::*;

verus! {

/// What the installer was called with.
pub struct Cli {
    pub command: Commands,
}

/// A command of the installer.
#[allow(inconsistent_fields)]
pub enum Commands {
    /// Install packages from their sources.
    Install {
        /// The references of the packages.
        packages: Vec<String>,
        /// Fetch from GitLab.
        gitlab: bool,
        /// Fetch from Codeberg.
        codeberg: bool,
        /// Install for the user alone.
        local: bool,
        /// The branch to fetch.
        branch: Option<String>,
        /// A directory of patches to apply.
        patches: Option<String>,
        /// Flags for the build.
        flags: Vec<String>,
        /// Accept the build file unseen.
        yes: bool,
    },
    /// Remove an installed package.
    Remove {
        /// The name of the package.
        package: String,
    },
    /// Search for repositories.
    Search {
        /// What to search for.
        query: String,
    },
    /// List the installed packages.
    List,
    /// Upgrade one installed package, or all of them.
    Upgrade {
        /// The name of the package; all packages where there is none.
        package: Option<String>,
        /// The branch to fetch.
        branch: Option<String>,
        /// Ask nothing.
        yes: bool,
    },
    /// Write a manifest for a Cargo project.
    Convert {
        /// The Cargo manifest to read.
        file: Option<String>,
    },
}

} // verus!
