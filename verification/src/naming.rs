//! The names of the files that a build of a library leaves behind, by
//! platform convention.

use vstd::prelude::*;
use crate::path::{join, joined};
use crate::text::{affixed, suffixed, text_of};
use crate::target::{convention_of, Convention, Target};

verus! {

/// The files of one library under one convention: a static and a shared
/// library always, and the files that only some conventions know.
#[derive(Debug, PartialEq, Eq)]
pub struct FileNames {
    pub static_lib: String,
    pub shared_lib: String,
    pub impl_lib: Option<String>,
    pub debug_info: Option<String>,
    pub def: Option<String>,
}

/// What a [`FileNames`] is, as plain values.
pub struct FileNamesView {
    pub static_lib: Seq<char>,
    pub shared_lib: Seq<char>,
    pub impl_lib: Option<Seq<char>>,
    pub debug_info: Option<Seq<char>>,
    pub def: Option<Seq<char>>,
}

impl View for FileNames {
    type V = FileNamesView;

    open spec fn view(&self) -> FileNamesView {
        FileNamesView {
            static_lib: self.static_lib@,
            shared_lib: self.shared_lib@,
            impl_lib: text_of(self.impl_lib),
            debug_info: text_of(self.debug_info),
            def: text_of(self.def),
        }
    }
}

/// The convention table: the bare file names of the library `lib_name`,
/// with no directory in front.
pub open spec fn bare_names(convention: Convention, lib_name: Seq<char>) -> FileNamesView {
    match convention {
        Convention::Unix => FileNamesView {
            static_lib: "lib"@ + lib_name + ".a"@,
            shared_lib: "lib"@ + lib_name + ".so"@,
            impl_lib: None,
            debug_info: None,
            def: None,
        },
        Convention::Apple => FileNamesView {
            static_lib: "lib"@ + lib_name + ".a"@,
            shared_lib: "lib"@ + lib_name + ".dylib"@,
            impl_lib: None,
            debug_info: None,
            def: None,
        },
        Convention::WindowsMsvc => FileNamesView {
            static_lib: lib_name + ".lib"@,
            shared_lib: lib_name + ".dll"@,
            impl_lib: Some(lib_name + ".dll.lib"@),
            debug_info: Some(lib_name + ".pdb"@),
            def: Some(lib_name + ".def"@),
        },
        Convention::WindowsGnu => FileNamesView {
            static_lib: "lib"@ + lib_name + ".a"@,
            shared_lib: lib_name + ".dll"@,
            impl_lib: Some("lib"@ + lib_name + ".dll.a"@),
            debug_info: None,
            def: None,
        },
    }
}

/// An optional name placed under a directory.
pub open spec fn joined_if_any(dir: Seq<char>, name: Option<Seq<char>>) -> Option<Seq<char>> {
    match name {
        Some(n) => Some(joined(dir, n)),
        None => None,
    }
}

/// Every name of `names` placed under the directory `dir`.
pub open spec fn placed_under(names: FileNamesView, dir: Seq<char>) -> FileNamesView {
    FileNamesView {
        static_lib: joined(dir, names.static_lib),
        shared_lib: joined(dir, names.shared_lib),
        impl_lib: joined_if_any(dir, names.impl_lib),
        debug_info: joined_if_any(dir, names.debug_info),
        def: joined_if_any(dir, names.def),
    }
}

/// The files of the library `lib_name` built for `os` and `env` into the
/// directory `dir`, or `None` where the platform is not supported.
pub open spec fn file_names_of(
    os: Seq<char>,
    env: Seq<char>,
    lib_name: Seq<char>,
    dir: Seq<char>,
) -> Option<FileNamesView> {
    match convention_of(os, env) {
        Some(convention) => Some(placed_under(bare_names(convention, lib_name), dir)),
        None => None,
    }
}

/// What an optional [`FileNames`] is, as plain values.
pub open spec fn names_of(o: Option<FileNames>) -> Option<FileNamesView> {
    match o {
        Some(names) => Some(names@),
        None => None,
    }
}

/// An optional name placed under a directory.
fn join_if_any(dir: &str, name: &Option<String>) -> (r: Option<String>)
    ensures
        text_of(r) == joined_if_any(dir@, text_of(*name)),
{
    match name {
        Some(n) => Some(join(dir, n.as_str())),
        None => None,
    }
}

impl Convention {
    /// The bare file names of the library `lib_name` under this convention.
    pub fn file_names(self, lib_name: &str) -> (r: FileNames)
        ensures
            r@ == bare_names(self, lib_name@),
    {
        match self {
            Convention::Unix => FileNames {
                static_lib: affixed("lib", lib_name, ".a"),
                shared_lib: affixed("lib", lib_name, ".so"),
                impl_lib: None,
                debug_info: None,
                def: None,
            },
            Convention::Apple => FileNames {
                static_lib: affixed("lib", lib_name, ".a"),
                shared_lib: affixed("lib", lib_name, ".dylib"),
                impl_lib: None,
                debug_info: None,
                def: None,
            },
            Convention::WindowsMsvc => FileNames {
                static_lib: suffixed(lib_name, ".lib"),
                shared_lib: suffixed(lib_name, ".dll"),
                impl_lib: Some(suffixed(lib_name, ".dll.lib")),
                debug_info: Some(suffixed(lib_name, ".pdb")),
                def: Some(suffixed(lib_name, ".def")),
            },
            Convention::WindowsGnu => FileNames {
                static_lib: affixed("lib", lib_name, ".a"),
                shared_lib: suffixed(lib_name, ".dll"),
                impl_lib: Some(affixed("lib", lib_name, ".dll.a")),
                debug_info: None,
                def: None,
            },
        }
    }
}

impl FileNames {
    /// These names placed under the directory `dir`.
    pub fn under(&self, dir: &str) -> (r: FileNames)
        ensures
            r@ == placed_under(self@, dir@),
    {
        FileNames {
            static_lib: join(dir, self.static_lib.as_str()),
            shared_lib: join(dir, self.shared_lib.as_str()),
            impl_lib: join_if_any(dir, &self.impl_lib),
            debug_info: join_if_any(dir, &self.debug_info),
            def: join_if_any(dir, &self.def),
        }
    }

    /// The files that a build of the library `lib_name` for `target` leaves
    /// in `targetdir`: the row of the convention table that the target falls
    /// under, each name placed under the directory. `None` where the target
    /// is not supported; there is no fallback naming.
    pub fn from_target(target: &Target, lib_name: &str, targetdir: &str) -> (r: Option<FileNames>)
        ensures
            names_of(r) == file_names_of(target.os@, target.env@, lib_name@, targetdir@),
    {
        match target.convention() {
            Some(convention) => Some(convention.file_names(lib_name).under(targetdir)),
            None => None,
        }
    }
}

/// Naming is a function of its inputs: two results for the same operating
/// system, environment, library and directory are the same, field by
/// field, and both are present or both absent.
pub proof fn lemma_from_target_is_deterministic(
    first: Option<FileNames>,
    second: Option<FileNames>,
    os: Seq<char>,
    env: Seq<char>,
    lib_name: Seq<char>,
    dir: Seq<char>,
)
    requires
        names_of(first) == file_names_of(os, env, lib_name, dir),
        names_of(second) == file_names_of(os, env, lib_name, dir),
    ensures
        names_of(first) == names_of(second),
        first is Some <==> second is Some,
        first is Some ==> first->0@ == second->0@,
{
}

/// A platform outside the convention table has no file names at all, and
/// one inside it has every name that its row defines.
pub proof fn lemma_names_are_whole_or_absent(
    os: Seq<char>,
    env: Seq<char>,
    lib_name: Seq<char>,
    dir: Seq<char>,
)
    ensures
        file_names_of(os, env, lib_name, dir) is None <==> convention_of(os, env) is None,
        file_names_of(os, env, lib_name, dir) matches Some(names) ==> {
            let convention = convention_of(os, env)->0;
            &&& names.impl_lib is Some <==> convention == Convention::WindowsMsvc || convention
                == Convention::WindowsGnu
            &&& names.debug_info is Some <==> convention == Convention::WindowsMsvc
            &&& names.def is Some <==> convention == Convention::WindowsMsvc
        },
{
}

} // verus!
