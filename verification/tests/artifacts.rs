use capi_targets::artifacts::BuildTargets;
use capi_targets::config::{
    CApiConfig, HeaderCApiConfig, InstallCApiConfig, LibraryTypes, PkgConfigCApiConfig,
};
use capi_targets::error::Error;
use capi_targets::extra::ExtraTargets;
use capi_targets::install::LibType;
use capi_targets::target::Target;

fn target(os: &str, env: &str) -> Target {
    Target {
        is_target_overridden: false,
        arch: String::from("x86_64"),
        os: os.to_string(),
        env: env.to_string(),
    }
}

fn config(header_name: &str, enabled: bool, generation: bool) -> CApiConfig {
    CApiConfig {
        header: HeaderCApiConfig { name: header_name.to_string(), generation, enabled },
        pkg_config: PkgConfigCApiConfig { filename: String::from("ferris") },
        install: InstallCApiConfig { headers: Vec::new(), data: Vec::new() },
    }
}

const BOTH: LibraryTypes = LibraryTypes { staticlib: true, cdylib: true };

fn built(os: &str, env: &str, types: LibraryTypes) -> BuildTargets {
    BuildTargets::new("ferris", &target(os, env), "/foo/bar", types, &config("ferris", true, true))
        .unwrap()
}

#[test]
fn a_linux_build_with_both_kinds() {
    let targets = built("linux", "gnu", BOTH);
    assert_eq!(targets.name, "ferris");
    assert_eq!(targets.pc, "/foo/bar/ferris.pc");
    assert_eq!(targets.header, Some(String::from("/foo/bar/ferris.h")));
    assert_eq!(targets.static_lib, Some(String::from("/foo/bar/libferris.a")));
    assert_eq!(targets.shared_lib, Some(String::from("/foo/bar/libferris.so")));
    assert_eq!(targets.impl_lib, None);
    assert_eq!(targets.debug_info, None);
    assert_eq!(targets.def, None);
    assert_eq!(targets.target.os, "linux");
    assert_eq!(targets.target.env, "gnu");
    assert_eq!(targets.target.arch, "x86_64");
    assert!(!targets.target.is_target_overridden);
    assert!(targets.extra.headers.is_empty());
    assert!(targets.extra.data.is_empty());
}

#[test]
fn an_msvc_build_with_both_kinds() {
    let targets = built("windows", "msvc", BOTH);
    assert_eq!(targets.pc, "/foo/bar/ferris.pc");
    assert_eq!(targets.static_lib, Some(String::from("/foo/bar/ferris.lib")));
    assert_eq!(targets.shared_lib, Some(String::from("/foo/bar/ferris.dll")));
    assert_eq!(targets.impl_lib, Some(String::from("/foo/bar/ferris.dll.lib")));
    assert_eq!(targets.debug_info, Some(String::from("/foo/bar/ferris.pdb")));
    assert_eq!(targets.def, Some(String::from("/foo/bar/ferris.def")));
}

#[test]
fn only_what_was_asked_for_is_present() {
    let only_static = built("macos", "", LibraryTypes { staticlib: true, cdylib: false });
    assert_eq!(only_static.static_lib, Some(String::from("/foo/bar/libferris.a")));
    assert_eq!(only_static.shared_lib, None);
    let only_shared = built("macos", "", LibraryTypes { staticlib: false, cdylib: true });
    assert_eq!(only_shared.static_lib, None);
    assert_eq!(only_shared.shared_lib, Some(String::from("/foo/bar/libferris.dylib")));
}

#[test]
fn files_beside_the_dll_do_not_wait_for_a_request() {
    let neither = built("windows", "msvc", LibraryTypes { staticlib: false, cdylib: false });
    assert_eq!(neither.static_lib, None);
    assert_eq!(neither.shared_lib, None);
    assert_eq!(neither.impl_lib, Some(String::from("/foo/bar/ferris.dll.lib")));
    assert_eq!(neither.debug_info, Some(String::from("/foo/bar/ferris.pdb")));
    assert_eq!(neither.def, Some(String::from("/foo/bar/ferris.def")));
    assert_eq!(neither.pc, "/foo/bar/ferris.pc");
}

#[test]
fn an_unknown_platform_fails_whatever_is_asked_for() {
    for types in [
        BOTH,
        LibraryTypes { staticlib: true, cdylib: false },
        LibraryTypes { staticlib: false, cdylib: true },
        LibraryTypes { staticlib: false, cdylib: false },
    ] {
        let r = BuildTargets::new(
            "ferris",
            &target("redox", "relibc"),
            "/foo/bar",
            types,
            &config("ferris", true, true),
        );
        assert_eq!(
            r.err(),
            Some(Error::UnsupportedTarget {
                os: String::from("redox"),
                env: String::from("relibc")
            })
        );
    }
}

#[test]
fn the_message_names_the_platform() {
    let e = Error::UnsupportedTarget { os: String::from("redox"), env: String::from("relibc") };
    assert_eq!(e.message(), "The target redox-relibc is not supported yet");
    let e = Error::UnsupportedTarget { os: String::from(""), env: String::from("") };
    assert_eq!(e.message(), "The target - is not supported yet");
    let e = Error::Expansion { reason: String::from("no such pattern") };
    assert_eq!(e.message(), "no such pattern");
}

#[test]
fn the_header_is_there_only_if_generated() {
    for (enabled, generation) in [(true, false), (false, true), (false, false)] {
        let targets = BuildTargets::new(
            "ferris",
            &target("linux", ""),
            "/foo/bar",
            BOTH,
            &config("ferris", enabled, generation),
        )
        .unwrap();
        assert_eq!(targets.header, None);
    }
    let targets = BuildTargets::new(
        "ferris",
        &target("linux", ""),
        "/foo/bar",
        BOTH,
        &config("crab", true, true),
    )
    .unwrap();
    assert_eq!(targets.header, Some(String::from("/foo/bar/crab.h")));
}

#[test]
fn the_header_takes_the_place_of_another_extension() {
    let targets = BuildTargets::new(
        "ferris",
        &target("linux", ""),
        "/foo/bar",
        BOTH,
        &config("ferris.hpp", true, true),
    )
    .unwrap();
    assert_eq!(targets.header, Some(String::from("/foo/bar/ferris.h")));
}

#[test]
fn the_package_config_file_goes_by_its_own_name() {
    let mut capi_config = config("ferris", false, false);
    capi_config.pkg_config.filename = String::from("ferris-1.0");
    let targets =
        BuildTargets::new("ferris", &target("freebsd", ""), "out", BOTH, &capi_config).unwrap();
    assert_eq!(targets.pc, "out/ferris-1.0.pc");
    assert_eq!(targets.static_lib, Some(String::from("out/libferris.a")));
}

#[test]
fn the_kind_of_library_follows_the_platform() {
    for os in ["none", "linux", "freebsd", "openbsd", "hurd", "emscripten"] {
        assert_eq!(built(os, "", BOTH).lib_type(), LibType::So);
    }
    for os in ["macos", "ios", "tvos", "visionos"] {
        assert_eq!(built(os, "", BOTH).lib_type(), LibType::Dylib);
    }
    for env in ["msvc", "gnu", ""] {
        assert_eq!(built("windows", env, BOTH).lib_type(), LibType::Windows);
        assert_eq!(
            built("windows", env, LibraryTypes { staticlib: false, cdylib: false }).lib_type(),
            LibType::Windows
        );
    }
}

#[test]
fn the_install_directory_by_kind() {
    assert_eq!(LibType::So.install_dir("/usr/bin", "/usr/lib"), "/usr/lib");
    assert_eq!(LibType::Dylib.install_dir("/usr/bin", "/usr/lib"), "/usr/lib");
    assert_eq!(LibType::Windows.install_dir("/usr/bin", "/usr/lib"), "/usr/bin");
}

#[test]
fn debug_info_goes_beside_the_dll() {
    let targets = built("windows", "msvc", BOTH);
    assert_eq!(
        targets.debug_info_file_name("/usr/bin", "/usr/lib"),
        Some(String::from("/usr/bin/ferris.pdb"))
    );
}

#[test]
fn no_debug_info_no_install_path() {
    for (os, env) in [("linux", ""), ("macos", ""), ("windows", "gnu"), ("none", "")] {
        assert_eq!(built(os, env, BOTH).debug_info_file_name("/usr/bin", "/usr/lib"), None);
    }
}

fn by_hand(os: &str, debug_info: Option<&str>, impl_lib: Option<&str>, def: Option<&str>) -> BuildTargets {
    BuildTargets {
        name: String::from("ferris"),
        header: None,
        static_lib: None,
        shared_lib: None,
        impl_lib: impl_lib.map(String::from),
        debug_info: debug_info.map(String::from),
        def: def.map(String::from),
        pc: String::from("/foo/bar/ferris.pc"),
        target: target(os, ""),
        extra: ExtraTargets::default(),
    }
}

#[test]
fn debug_info_goes_with_the_libraries_elsewhere() {
    let so = by_hand("linux", Some("/foo/bar/libferris.so.debug"), None, None);
    assert_eq!(so.lib_type(), LibType::So);
    assert_eq!(
        so.debug_info_file_name("/usr/bin", "/usr/lib"),
        Some(String::from("/usr/lib/libferris.so.debug"))
    );
    let dylib = by_hand("macos", Some("/foo/bar/libferris.dylib.dSYM"), None, None);
    assert_eq!(dylib.lib_type(), LibType::Dylib);
    assert_eq!(
        dylib.debug_info_file_name("/usr/bin", "/usr/lib"),
        Some(String::from("/usr/lib/libferris.dylib.dSYM"))
    );
}

#[test]
fn an_import_library_or_a_def_file_makes_the_windows_kind() {
    assert_eq!(by_hand("linux", None, Some("x.dll.a"), None).lib_type(), LibType::Windows);
    assert_eq!(by_hand("macos", None, None, Some("x.def")).lib_type(), LibType::Windows);
    assert_eq!(by_hand("windows", None, None, None).lib_type(), LibType::So);
    let dll = by_hand("windows", Some("deep/down/ferris.pdb"), Some("ferris.dll.lib"), None);
    assert_eq!(dll.debug_info_file_name("bin", "lib"), Some(String::from("bin/ferris.pdb")));
}

#[test]
fn a_path_without_a_file_name_installs_nothing() {
    for path in ["/foo/bar/..", "/", "", ".."] {
        let targets = by_hand("windows", Some(path), Some("ferris.dll.lib"), None);
        assert_eq!(targets.debug_info_file_name("/usr/bin", "/usr/lib"), None);
    }
}

#[test]
fn building_twice_gives_the_same() {
    let first = built("windows", "msvc", BOTH);
    let second = built("windows", "msvc", BOTH);
    assert_eq!(first.static_lib, second.static_lib);
    assert_eq!(first.shared_lib, second.shared_lib);
    assert_eq!(first.impl_lib, second.impl_lib);
    assert_eq!(first.debug_info, second.debug_info);
    assert_eq!(first.def, second.def);
    assert_eq!(first.pc, second.pc);
    assert_eq!(first.header, second.header);
}
