//! Artifact naming for a library crate that is packaged as a C-callable
//! library: which files a build leaves behind on each platform, and which
//! extra headers and data files are installed beside them.
//!
//! - [`target`]: the platform, and the families that share a convention.
//! - [`naming`]: the convention table, from platform to file names.
//! - [`artifacts`]: the artifacts of one build, and where its debug-info
//!   file is installed.
//! - [`extra`]: the extra files, resolved from their declarations.
//! - [`install`]: the kinds of shared library, by how they are installed.
//! - [`config`], [`error`]: what comes in, and what can go wrong.
//! - [`path`], [`text`]: paths as text, and the text operations used.
//!
//! Every function is total and free of side effects; none reads or writes
//! a file.

pub mod artifacts;
pub mod config;
pub mod error;
pub mod extra;
pub mod install;
pub mod naming;
pub mod path;
pub mod target;
pub mod text;
