//! Decisions of a source-based package installer.
//!
//! Given a reference to a repository, the installer clones the sources,
//! finds out which build system the project uses, checks that the tools of
//! the build are at hand, builds, locates the program that was built,
//! installs it, and records the install in a registry, from which packages
//! are later listed, removed and upgraded.
//!
//! This crate holds the decisions of that work and none of its effects. It
//! is told what was found on the host and says what is to be done next; the
//! program around it runs commands, reads files and asks the operator.
//!
//! - [`text`], [`document`]: texts and structured documents, as the other
//!   modules read them.
//! - [`kind`], [`scan`], [`cargo`], [`manifest`], [`detect`]: the detector
//!   and the build descriptor.
//! - [`host`], [`command`]: the tools of a build, the elevation command, the
//!   installer's own directories.
//! - [`fetch`], [`executor`], [`locate`], [`install`]: the install pipeline.
//! - [`registry`], [`store`], [`fingerprint`], [`remove`], [`upgrade`]: the
//!   registry and what works on it.
//! - [`cli`], [`search`], [`convert`]: the command line and the two
//!   commands that stand beside the pipeline.

pub mod cargo;
pub mod cli;
pub mod command;
pub mod convert;
pub mod detect;
pub mod document;
pub mod executor;
pub mod fetch;
pub mod fingerprint;
pub mod host;
pub mod install;
pub mod kind;
pub mod locate;
pub mod manifest;
pub mod registry;
pub mod remove;
pub mod scan;
pub mod search;
pub mod store;
pub mod text;
pub mod upgrade;
