//! The artifacts of one build of one library on one platform.

use vstd::prelude::*;
use vstd::string::*;
use crate::config::{CApiConfig, HeaderCApiConfig, HeaderView, LibraryTypes};
use crate::error::{Error, ErrorView};
use crate::extra::{ExtraTargets, ExtraTargetsView};
use crate::install::{install_dir_of, LibType};
use crate::naming::{file_names_of, FileNames};
use crate::path::{file_name, file_name_of, join, joined, with_extension, with_extension_of};
use crate::target::{
    is_apple, is_unix_like, is_windows, lemma_families_are_disjoint, lemma_supported_families,
    Target, TargetView,
};
use crate::text::{suffixed, text_of};

verus! {

/// The files that a build of a library produces, each present only where
/// it was asked for and the platform knows it.
#[derive(Debug, Clone)]
pub struct BuildTargets {
    pub name: String,
    pub header: Option<String>,
    pub static_lib: Option<String>,
    pub shared_lib: Option<String>,
    pub impl_lib: Option<String>,
    pub debug_info: Option<String>,
    pub def: Option<String>,
    pub pc: String,
    pub target: Target,
    pub extra: ExtraTargets,
}

/// What a [`BuildTargets`] is, as plain values.
pub struct BuildTargetsView {
    pub name: Seq<char>,
    pub header: Option<Seq<char>>,
    pub static_lib: Option<Seq<char>>,
    pub shared_lib: Option<Seq<char>>,
    pub impl_lib: Option<Seq<char>>,
    pub debug_info: Option<Seq<char>>,
    pub def: Option<Seq<char>>,
    pub pc: Seq<char>,
    pub target: TargetView,
    pub extra: ExtraTargetsView,
}

impl View for BuildTargets {
    type V = BuildTargetsView;

    open spec fn view(&self) -> BuildTargetsView {
        BuildTargetsView {
            name: self.name@,
            header: text_of(self.header),
            static_lib: text_of(self.static_lib),
            shared_lib: text_of(self.shared_lib),
            impl_lib: text_of(self.impl_lib),
            debug_info: text_of(self.debug_info),
            def: text_of(self.def),
            pc: self.pc@,
            target: self.target@,
            extra: self.extra@,
        }
    }
}

/// The package-config file of a build into `dir`.
pub open spec fn pc_path_of(dir: Seq<char>, filename: Seq<char>) -> Seq<char> {
    joined(dir, filename + ".pc"@)
}

/// The header that a build into `dir` generates, if it generates one.
pub open spec fn header_path_of(dir: Seq<char>, header: HeaderView) -> Option<Seq<char>> {
    if header.enabled && header.generation {
        Some(with_extension_of(joined(dir, header.name), "h"@))
    } else {
        None
    }
}

/// A name, kept only if it was asked for.
pub open spec fn only_if(wanted: bool, name: Seq<char>) -> Option<Seq<char>> {
    if wanted {
        Some(name)
    } else {
        None
    }
}

/// The artifacts of the library `name` built for `target` into `dir`, or
/// `None` where the platform has no naming convention. The platform is
/// looked up whatever `library_types` asks for.
pub open spec fn build_targets_of(
    name: Seq<char>,
    target: TargetView,
    dir: Seq<char>,
    library_types: LibraryTypes,
    header: HeaderView,
    pc_filename: Seq<char>,
) -> Option<BuildTargetsView> {
    match file_names_of(target.os, target.env, name, dir) {
        Some(names) => Some(
            BuildTargetsView {
                name,
                header: header_path_of(dir, header),
                static_lib: only_if(library_types.staticlib, names.static_lib),
                shared_lib: only_if(library_types.cdylib, names.shared_lib),
                impl_lib: names.impl_lib,
                debug_info: names.debug_info,
                def: names.def,
                pc: pc_path_of(dir, pc_filename),
                target,
                extra: ExtraTargetsView { headers: Seq::empty(), data: Seq::empty() },
            },
        ),
        None => None,
    }
}

/// Whether `r` is what building the library `name` for `target` into `dir`
/// gives: the artifacts, or, where the platform has no naming convention,
/// the failure that names its operating system and environment.
pub open spec fn is_build_of(
    r: Result<BuildTargets, Error>,
    name: Seq<char>,
    target: TargetView,
    dir: Seq<char>,
    library_types: LibraryTypes,
    header: HeaderView,
    pc_filename: Seq<char>,
) -> bool {
    match r {
        Ok(targets) => Some(targets@) == build_targets_of(
            name,
            target,
            dir,
            library_types,
            header,
            pc_filename,
        ),
        Err(e) => {
            &&& build_targets_of(name, target, dir, library_types, header, pc_filename) is None
            &&& e@ == (ErrorView::UnsupportedTarget { os: target.os, env: target.env })
        },
    }
}

/// The kind of shared library that a set of artifacts belongs to: a set
/// with an import library or a module-definition file is of the Windows
/// kind; any other goes by the family of its operating system.
pub open spec fn lib_type_of(targets: BuildTargetsView) -> LibType {
    if targets.impl_lib is Some || targets.def is Some {
        LibType::Windows
    } else if is_apple(targets.target.os) {
        LibType::Dylib
    } else {
        LibType::So
    }
}

/// Where the debug-info file of a set of artifacts is installed: under the
/// directory that the kind of library calls for, by its file name alone.
/// `None` where the set has no such file, or the file's path has no name.
pub open spec fn debug_info_install_path_of(
    targets: BuildTargetsView,
    bindir: Seq<char>,
    libdir: Seq<char>,
) -> Option<Seq<char>> {
    match targets.debug_info {
        Some(debug_info) => match file_name_of(debug_info) {
            Some(name) => Some(joined(install_dir_of(lib_type_of(targets), bindir, libdir), name)),
            None => None,
        },
        None => None,
    }
}

/// The header that a build into `targetdir` generates, if it generates one.
fn header_path(targetdir: &str, header: &HeaderCApiConfig) -> (r: Option<String>)
    ensures
        text_of(r) == header_path_of(targetdir@, header@),
{
    if header.enabled && header.generation {
        proof {
            reveal_strlit("h");
        }
        let plain = join(targetdir, header.name.as_str());
        Some(with_extension(plain.as_str(), "h"))
    } else {
        None
    }
}

impl BuildTargets {
    /// The artifacts of the library `name` built for `target` into
    /// `targetdir`. Fails with [`Error::UnsupportedTarget`] exactly where
    /// the platform has no naming convention, also when neither kind of
    /// library was asked for.
    pub fn new(
        name: &str,
        target: &Target,
        targetdir: &str,
        library_types: LibraryTypes,
        capi_config: &CApiConfig,
    ) -> (r: Result<BuildTargets, Error>)
        ensures
            is_build_of(
                r,
                name@,
                target@,
                targetdir@,
                library_types,
                capi_config.header@,
                capi_config.pkg_config.filename@,
            ),
    {
        let pc_name = suffixed(capi_config.pkg_config.filename.as_str(), ".pc");
        let pc = join(targetdir, pc_name.as_str());
        let header = header_path(targetdir, &capi_config.header);
        let file_names = match FileNames::from_target(target, name, targetdir) {
            Some(file_names) => file_names,
            None => {
                return Err(
                    Error::UnsupportedTarget { os: target.os.clone(), env: target.env.clone() },
                );
            },
        };
        Ok(
            BuildTargets {
                pc,
                header,
                static_lib: if library_types.staticlib {
                    Some(file_names.static_lib)
                } else {
                    None
                },
                shared_lib: if library_types.cdylib {
                    Some(file_names.shared_lib)
                } else {
                    None
                },
                impl_lib: file_names.impl_lib,
                debug_info: file_names.debug_info,
                def: file_names.def,
                name: String::from_str(name),
                target: target.clone(),
                extra: ExtraTargets::default(),
            },
        )
    }

    /// The kind of shared library that these artifacts belong to.
    pub fn lib_type(&self) -> (r: LibType)
        ensures
            r == lib_type_of(self@),
    {
        if self.impl_lib.is_some() || self.def.is_some() {
            LibType::Windows
        } else if self.target.is_apple() {
            LibType::Dylib
        } else {
            LibType::So
        }
    }

    /// Where the debug-info file is installed: under `bindir` for a library
    /// of the Windows kind, under `libdir` otherwise, by its file name
    /// alone. `None` where there is no debug-info file.
    pub fn debug_info_file_name(&self, bindir: &str, libdir: &str) -> (r: Option<String>)
        ensures
            text_of(r) == debug_info_install_path_of(self@, bindir@, libdir@),
    {
        let dir = self.lib_type().install_dir(bindir, libdir);
        match &self.debug_info {
            Some(debug_info) => match file_name(debug_info.as_str()) {
                Some(name) => Some(join(dir, name.as_str())),
                None => None,
            },
            None => None,
        }
    }
}

/// What holds of every set of artifacts that a build gives: it keeps the
/// name and the platform it was built for; its package-config file is a
/// file name of at least three characters placed under the directory; a
/// static or a shared library is present exactly where it was asked for;
/// an import library is present exactly on Windows, and a debug-info and a
/// module-definition file exactly on Windows with MSVC; no extra file is
/// set up yet.
pub proof fn lemma_built_artifacts(
    name: Seq<char>,
    target: TargetView,
    dir: Seq<char>,
    library_types: LibraryTypes,
    header: HeaderView,
    pc_filename: Seq<char>,
)
    requires
        build_targets_of(name, target, dir, library_types, header, pc_filename) is Some,
    ensures
        ({
            let built = build_targets_of(name, target, dir, library_types, header, pc_filename)->0;
            &&& built.name == name
            &&& built.target == target
            &&& built.pc == joined(dir, pc_filename + ".pc"@)
            &&& (pc_filename + ".pc"@).len() >= 3
            &&& built.static_lib is Some <==> library_types.staticlib
            &&& built.shared_lib is Some <==> library_types.cdylib
            &&& built.header is Some <==> header.enabled && header.generation
            &&& built.impl_lib is Some <==> is_windows(target.os)
            &&& built.debug_info is Some <==> is_windows(target.os) && target.env == "msvc"@
            &&& built.def is Some <==> is_windows(target.os) && target.env == "msvc"@
            &&& built.extra.headers.len() == 0
            &&& built.extra.data.len() == 0
        }),
{
    lemma_supported_families(target.os, target.env);
    reveal_strlit(".pc");
}

/// Whether artifacts are built does not depend on which kinds of library
/// were asked for, nor on the configuration: a platform without a naming
/// convention fails even where no library is wanted.
pub proof fn lemma_support_depends_on_the_platform_alone(
    name: Seq<char>,
    target: TargetView,
    dir: Seq<char>,
    library_types: LibraryTypes,
    header: HeaderView,
    pc_filename: Seq<char>,
)
    ensures
        build_targets_of(name, target, dir, library_types, header, pc_filename) is Some
            <==> is_unix_like(target.os) || is_apple(target.os) || is_windows(target.os),
{
    lemma_supported_families(target.os, target.env);
}

/// Building is a function of its inputs: two builds of the same library
/// for the same platform, directory, kinds and configuration both succeed
/// with the same artifacts, or both fail with the same failure.
pub proof fn lemma_build_is_deterministic(
    first: Result<BuildTargets, Error>,
    second: Result<BuildTargets, Error>,
    name: Seq<char>,
    target: TargetView,
    dir: Seq<char>,
    library_types: LibraryTypes,
    header: HeaderView,
    pc_filename: Seq<char>,
)
    requires
        is_build_of(first, name, target, dir, library_types, header, pc_filename),
        is_build_of(second, name, target, dir, library_types, header, pc_filename),
    ensures
        first is Ok <==> second is Ok,
        first is Ok ==> first->Ok_0@ == second->Ok_0@,
        first is Err ==> first->Err_0@ == second->Err_0@,
{
}

/// For the artifacts that a build gives, the kind of library is decided by
/// the platform alone: the Windows kind on Windows, Apple's kind on Apple's
/// systems, a shared object on the ELF systems.
pub proof fn lemma_lib_type_follows_the_platform(
    name: Seq<char>,
    target: TargetView,
    dir: Seq<char>,
    library_types: LibraryTypes,
    header: HeaderView,
    pc_filename: Seq<char>,
)
    requires
        build_targets_of(name, target, dir, library_types, header, pc_filename) is Some,
    ensures
        ({
            let built = build_targets_of(name, target, dir, library_types, header, pc_filename)->0;
            &&& lib_type_of(built) == LibType::Windows <==> is_windows(target.os)
            &&& lib_type_of(built) == LibType::Dylib <==> is_apple(target.os)
            &&& lib_type_of(built) == LibType::So <==> is_unix_like(target.os)
        }),
{
    lemma_supported_families(target.os, target.env);
    lemma_families_are_disjoint(target.os);
}

/// Where the debug-info file goes. With no debug-info file there is no
/// install path. With one, the path is its file name alone under `bindir`
/// for a library of the Windows kind, and under `libdir` for the two
/// others.
pub proof fn lemma_debug_info_install_path(
    targets: BuildTargetsView,
    bindir: Seq<char>,
    libdir: Seq<char>,
)
    ensures
        targets.debug_info is None ==> debug_info_install_path_of(targets, bindir, libdir) is None,
        debug_info_install_path_of(targets, bindir, libdir) matches Some(path) ==> {
            &&& targets.debug_info is Some
            &&& file_name_of(targets.debug_info->0) matches Some(name)
            &&& lib_type_of(targets) == LibType::Windows ==> path == joined(bindir, name)
            &&& lib_type_of(targets) != LibType::Windows ==> path == joined(libdir, name)
        },
{
}

/// Of the artifacts that a build gives, only those for Windows with MSVC
/// have a debug-info file to install, and it goes under `bindir`.
pub proof fn lemma_debug_info_of_built_artifacts(
    name: Seq<char>,
    target: TargetView,
    dir: Seq<char>,
    library_types: LibraryTypes,
    header: HeaderView,
    pc_filename: Seq<char>,
    bindir: Seq<char>,
    libdir: Seq<char>,
)
    requires
        build_targets_of(name, target, dir, library_types, header, pc_filename) is Some,
    ensures
        ({
            let built = build_targets_of(name, target, dir, library_types, header, pc_filename)->0;
            let path = debug_info_install_path_of(built, bindir, libdir);
            let file = joined(dir, name + ".pdb"@);
            if is_windows(target.os) && target.env == "msvc"@ {
                path == match file_name_of(file) {
                    Some(file_name) => Some(joined(bindir, file_name)),
                    None => None,
                }
            } else {
                path is None
            }
        }),
{
    lemma_supported_families(target.os, target.env);
    lemma_families_are_disjoint(target.os);
}

} // verus!
