//! The coarse kind of a shared library, which decides where the files that
//! belong to it are installed.

use vstd::prelude::*;

verus! {

/// How a platform's shared libraries are installed.
#[derive(Debug, Clone, Copy, PartialEq, Eq, Structural)]
pub enum LibType {
    /// A shared object, beside the other libraries.
    So,
    /// A dynamic library of Apple's kind, beside the other libraries.
    Dylib,
    /// A DLL, beside the programs; its import library goes with the
    /// libraries.
    Windows,
}

/// The directory that the files beside a shared library of kind `lib_type`
/// are installed into.
pub open spec fn install_dir_of(lib_type: LibType, bindir: Seq<char>, libdir: Seq<char>) -> Seq<
    char,
> {
    match lib_type {
        LibType::So | LibType::Dylib => libdir,
        LibType::Windows => bindir,
    }
}

impl LibType {
    /// The directory that the files beside the shared library are installed
    /// into: the program directory for a DLL, the library directory
    /// otherwise.
    pub fn install_dir<'a>(self, bindir: &'a str, libdir: &'a str) -> (r: &'a str)
        ensures
            r@ == install_dir_of(self, bindir@, libdir@),
    {
        match self {
            LibType::So | LibType::Dylib => libdir,
            LibType::Windows => bindir,
        }
    }
}

} // verus!
