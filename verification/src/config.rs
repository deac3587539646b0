//! The packaging configuration, as the library receives it: already parsed,
//! never loaded here.

use vstd::prelude::*;

verus! {

/// Which kinds of library a build was asked for.
#[derive(Debug, Clone, Copy)]
pub struct LibraryTypes {
    pub staticlib: bool,
    pub cdylib: bool,
}

/// How the public header comes about.
#[derive(Debug)]
pub struct HeaderCApiConfig {
    pub name: String,
    pub generation: bool,
    pub enabled: bool,
}

/// What a [`HeaderCApiConfig`] is, as plain values.
pub struct HeaderView {
    pub name: Seq<char>,
    pub generation: bool,
    pub enabled: bool,
}

impl View for HeaderCApiConfig {
    type V = HeaderView;

    open spec fn view(&self) -> HeaderView {
        HeaderView { name: self.name@, generation: self.generation, enabled: self.enabled }
    }
}

/// The package-config file of the library.
#[derive(Debug)]
pub struct PkgConfigCApiConfig {
    pub filename: String,
}

/// A declaration of files to install: where they come from, relative to a
/// root that is supplied later, and where they go.
#[derive(Debug)]
pub struct InstallTargetPaths {
    pub from: String,
    pub to: String,
}

/// An extra file to install beside the library.
#[derive(Debug)]
pub enum InstallTarget {
    /// Files that exist in the source tree.
    Asset(InstallTargetPaths),
    /// Files that a build leaves in its output directory.
    Generated(InstallTargetPaths),
}

/// The extra files to install, headers and data apart.
#[derive(Debug)]
pub struct InstallCApiConfig {
    pub headers: Vec<InstallTarget>,
    pub data: Vec<InstallTarget>,
}

/// The packaging configuration of one library.
#[derive(Debug)]
pub struct CApiConfig {
    pub header: HeaderCApiConfig,
    pub pkg_config: PkgConfigCApiConfig,
    pub install: InstallCApiConfig,
}

} // verus!
