//! The platform a library is built for, and the families of platforms that
//! share a naming convention.

use vstd::prelude::*;
use crate::text::text_is;

verus! {

/// The platform being built for.
#[derive(Debug)]
pub struct Target {
    pub is_target_overridden: bool,
    pub arch: String,
    pub os: String,
    pub env: String,
}

/// What a [`Target`] is, as plain values.
pub struct TargetView {
    pub is_target_overridden: bool,
    pub arch: Seq<char>,
    pub os: Seq<char>,
    pub env: Seq<char>,
}

impl View for Target {
    type V = TargetView;

    open spec fn view(&self) -> TargetView {
        TargetView {
            is_target_overridden: self.is_target_overridden,
            arch: self.arch@,
            os: self.os@,
            env: self.env@,
        }
    }
}

/// The naming conventions that are known: a closed enumeration, so that a
/// new convention is one more variant and one more row in each table.
#[derive(Debug, Clone, Copy, PartialEq, Eq, Structural)]
pub enum Convention {
    /// ELF-style systems: `lib<name>.a` and `lib<name>.so`.
    Unix,
    /// Apple systems: `lib<name>.a` and `lib<name>.dylib`.
    Apple,
    /// Windows with the MSVC toolchain.
    WindowsMsvc,
    /// Windows with a GNU-style toolchain.
    WindowsGnu,
}

/// The operating systems that name their libraries the ELF way.
pub open spec fn is_unix_like(os: Seq<char>) -> bool {
    ||| os == "none"@
    ||| os == "linux"@
    ||| os == "freebsd"@
    ||| os == "dragonfly"@
    ||| os == "netbsd"@
    ||| os == "android"@
    ||| os == "haiku"@
    ||| os == "illumos"@
    ||| os == "openbsd"@
    ||| os == "emscripten"@
    ||| os == "hurd"@
}

/// Apple's operating systems.
pub open spec fn is_apple(os: Seq<char>) -> bool {
    ||| os == "macos"@
    ||| os == "ios"@
    ||| os == "tvos"@
    ||| os == "visionos"@
}

/// Windows, whatever the toolchain.
pub open spec fn is_windows(os: Seq<char>) -> bool {
    os == "windows"@
}

/// The convention that an operating system and environment fall under, if
/// any. On Windows every environment but `msvc` counts as GNU-style.
pub open spec fn convention_of(os: Seq<char>, env: Seq<char>) -> Option<Convention> {
    if is_unix_like(os) {
        Some(Convention::Unix)
    } else if is_apple(os) {
        Some(Convention::Apple)
    } else if is_windows(os) {
        if env == "msvc"@ {
            Some(Convention::WindowsMsvc)
        } else {
            Some(Convention::WindowsGnu)
        }
    } else {
        None
    }
}

impl Target {
    /// Whether the operating system names its libraries the ELF way.
    pub fn is_unix_like(&self) -> (r: bool)
        ensures
            r == is_unix_like(self.os@),
    {
        text_is(&self.os, "none") || text_is(&self.os, "linux") || text_is(&self.os, "freebsd")
            || text_is(&self.os, "dragonfly") || text_is(&self.os, "netbsd") || text_is(
            &self.os,
            "android",
        ) || text_is(&self.os, "haiku") || text_is(&self.os, "illumos") || text_is(
            &self.os,
            "openbsd",
        ) || text_is(&self.os, "emscripten") || text_is(&self.os, "hurd")
    }

    /// Whether the operating system is one of Apple's.
    pub fn is_apple(&self) -> (r: bool)
        ensures
            r == is_apple(self.os@),
    {
        text_is(&self.os, "macos") || text_is(&self.os, "ios") || text_is(&self.os, "tvos")
            || text_is(&self.os, "visionos")
    }

    /// Whether the operating system is Windows.
    pub fn is_windows(&self) -> (r: bool)
        ensures
            r == is_windows(self.os@),
    {
        text_is(&self.os, "windows")
    }

    /// The naming convention of this platform, or `None` where the platform
    /// is not supported.
    pub fn convention(&self) -> (r: Option<Convention>)
        ensures
            r == convention_of(self.os@, self.env@),
    {
        if self.is_unix_like() {
            Some(Convention::Unix)
        } else if self.is_apple() {
            Some(Convention::Apple)
        } else if self.is_windows() {
            if text_is(&self.env, "msvc") {
                Some(Convention::WindowsMsvc)
            } else {
                Some(Convention::WindowsGnu)
            }
        } else {
            None
        }
    }
}

impl Clone for Target {
    fn clone(&self) -> (r: Target)
        ensures
            r == *self,
    {
        Target {
            is_target_overridden: self.is_target_overridden,
            arch: self.arch.clone(),
            os: self.os.clone(),
            env: self.env.clone(),
        }
    }
}

/// No operating system belongs to two families: the rows of the convention
/// table do not overlap, so the order in which they are tried decides
/// nothing.
pub proof fn lemma_families_are_disjoint(os: Seq<char>)
    ensures
        !(is_unix_like(os) && is_apple(os)),
        !(is_unix_like(os) && is_windows(os)),
        !(is_apple(os) && is_windows(os)),
{
    reveal_strlit("none");
    reveal_strlit("linux");
    reveal_strlit("freebsd");
    reveal_strlit("dragonfly");
    reveal_strlit("netbsd");
    reveal_strlit("android");
    reveal_strlit("haiku");
    reveal_strlit("illumos");
    reveal_strlit("openbsd");
    reveal_strlit("emscripten");
    reveal_strlit("hurd");
    reveal_strlit("macos");
    reveal_strlit("ios");
    reveal_strlit("tvos");
    reveal_strlit("visionos");
    reveal_strlit("windows");
    if is_unix_like(os) {
        assert(os.len() > 3);
        assert(os[0] != 'm' && os[0] != 't' && os[0] != 'v' && os[0] != 'w');
    }
    if is_apple(os) {
        assert(os[0] == 'm' || os[0] == 'i' || os[0] == 't' || os[0] == 'v');
        assert(os[0] == 'i' ==> os.len() == 3);
    }
    if is_windows(os) {
        assert(os[0] == 'w');
    }
}

/// A platform is supported exactly where its operating system belongs to
/// one of the three families, whatever its environment.
pub proof fn lemma_supported_families(os: Seq<char>, env: Seq<char>)
    ensures
        convention_of(os, env) is Some <==> is_unix_like(os) || is_apple(os) || is_windows(os),
        convention_of(os, env) == Some(Convention::Unix) <==> is_unix_like(os),
        convention_of(os, env) == Some(Convention::Apple) <==> is_apple(os),
        convention_of(os, env) == Some(Convention::WindowsMsvc) <==> is_windows(os) && env
            == "msvc"@,
        convention_of(os, env) == Some(Convention::WindowsGnu) <==> is_windows(os) && env
            != "msvc"@,
{
    lemma_families_are_disjoint(os);
}

} // verus!
