//! Planning core of a cross-platform application build.
//!
//! The crate decides; it does not act. It holds the target model, the layout
//! of the artifact cache, the rules by which artifacts are fetched and the
//! command lines of the compilation pipeline, and it proves of each what its
//! contract says. It never touches the disk, the network or a process:
//!
//! * what is on disk comes in as a [`disk::Disk`], a record that the caller
//!   fills by looking;
//! * what is to be done goes out as values: a [`command::Command`] to run, a
//!   list of [`plan::Action`]s to perform in order, a [`download::Fetch`]
//!   whose steps the caller performs and reports on;
//! * how an external program ended comes back as a [`command::Output`].
//!
//! Paths are text with `/` between their components.

pub mod command;
pub mod devices;
pub mod disk;
pub mod download;
pub mod env;
pub mod error;
pub mod flutter;
pub mod path;
pub mod plan;
pub mod target;
pub mod text;

pub use crate::env::{BuildEnv, BuildTarget};
pub use crate::target::{Arch, CompileTarget, Opt, Platform};
