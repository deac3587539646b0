use capi_targets::naming::FileNames;
use capi_targets::target::{Convention, Target};

fn target(os: &str, env: &str) -> Target {
    Target {
        is_target_overridden: false,
        arch: String::from(""),
        os: os.to_string(),
        env: env.to_string(),
    }
}

#[test]
fn unix() {
    for os in [
        "none",
        "linux",
        "freebsd",
        "dragonfly",
        "netbsd",
        "android",
        "haiku",
        "illumos",
        "emscripten",
        "hurd",
    ] {
        let target = Target {
            is_target_overridden: false,
            arch: String::from(""),
            os: os.to_string(),
            env: String::from(""),
        };
        let file_names = FileNames::from_target(&target, "ferris", "/foo/bar");

        let expected = FileNames {
            static_lib: String::from("/foo/bar/libferris.a"),
            shared_lib: String::from("/foo/bar/libferris.so"),
            impl_lib: None,
            debug_info: None,
            def: None,
        };

        assert_eq!(file_names.unwrap(), expected);
    }
}

#[test]
fn apple() {
    for os in ["macos", "ios", "tvos", "visionos"] {
        let target = Target {
            is_target_overridden: false,
            arch: String::from(""),
            os: os.to_string(),
            env: String::from(""),
        };
        let file_names = FileNames::from_target(&target, "ferris", "/foo/bar");

        let expected = FileNames {
            static_lib: String::from("/foo/bar/libferris.a"),
            shared_lib: String::from("/foo/bar/libferris.dylib"),
            impl_lib: None,
            debug_info: None,
            def: None,
        };

        assert_eq!(file_names.unwrap(), expected);
    }
}

#[test]
fn windows_msvc() {
    let target = Target {
        is_target_overridden: false,
        arch: String::from(""),
        os: String::from("windows"),
        env: String::from("msvc"),
    };
    let file_names = FileNames::from_target(&target, "ferris", "/foo/bar");

    let expected = FileNames {
        static_lib: String::from("/foo/bar/ferris.lib"),
        shared_lib: String::from("/foo/bar/ferris.dll"),
        impl_lib: Some(String::from("/foo/bar/ferris.dll.lib")),
        debug_info: Some(String::from("/foo/bar/ferris.pdb")),
        def: Some(String::from("/foo/bar/ferris.def")),
    };

    assert_eq!(file_names.unwrap(), expected);
}

#[test]
fn windows_gnu() {
    let target = Target {
        is_target_overridden: false,
        arch: String::from(""),
        os: String::from("windows"),
        env: String::from("gnu"),
    };
    let file_names = FileNames::from_target(&target, "ferris", "/foo/bar");

    let expected = FileNames {
        static_lib: String::from("/foo/bar/libferris.a"),
        shared_lib: String::from("/foo/bar/ferris.dll"),
        impl_lib: Some(String::from("/foo/bar/libferris.dll.a")),
        debug_info: None,
        def: None,
    };

    assert_eq!(file_names.unwrap(), expected);
}

#[test]
fn openbsd_is_unix_like() {
    let file_names = FileNames::from_target(&target("openbsd", ""), "ferris", "/foo/bar");
    let expected = FileNames {
        static_lib: String::from("/foo/bar/libferris.a"),
        shared_lib: String::from("/foo/bar/libferris.so"),
        impl_lib: None,
        debug_info: None,
        def: None,
    };
    assert_eq!(file_names.unwrap(), expected);
}

#[test]
fn unknown_systems_have_no_names() {
    for os in ["", "redox", "solaris", "Linux", "linux ", "win", "windows10", "macosx", "wasi"] {
        for env in ["", "gnu", "msvc", "musl"] {
            assert_eq!(FileNames::from_target(&target(os, env), "ferris", "/foo/bar"), None);
            assert_eq!(target(os, env).convention(), None);
        }
    }
}

#[test]
fn environment_matters_on_windows_only() {
    for env in ["", "gnu", "msvc", "musl", "gnullvm"] {
        assert_eq!(target("linux", env).convention(), Some(Convention::Unix));
        assert_eq!(target("macos", env).convention(), Some(Convention::Apple));
    }
    assert_eq!(target("windows", "msvc").convention(), Some(Convention::WindowsMsvc));
    for env in ["", "gnu", "gnullvm", "MSVC", "msvc "] {
        assert_eq!(target("windows", env).convention(), Some(Convention::WindowsGnu));
    }
}

#[test]
fn families_do_not_overlap() {
    let all = [
        "none",
        "linux",
        "freebsd",
        "dragonfly",
        "netbsd",
        "android",
        "haiku",
        "illumos",
        "openbsd",
        "emscripten",
        "hurd",
        "macos",
        "ios",
        "tvos",
        "visionos",
        "windows",
        "redox",
    ];
    for os in all {
        let t = target(os, "");
        let families =
            [t.is_unix_like(), t.is_apple(), t.is_windows()].iter().filter(|b| **b).count();
        assert_eq!(families, if os == "redox" { 0 } else { 1 });
        assert_eq!(t.convention().is_some(), families == 1);
    }
}

#[test]
fn bare_names_by_convention() {
    let unix = Convention::Unix.file_names("ferris");
    assert_eq!(
        unix,
        FileNames {
            static_lib: String::from("libferris.a"),
            shared_lib: String::from("libferris.so"),
            impl_lib: None,
            debug_info: None,
            def: None,
        }
    );
    let apple = Convention::Apple.file_names("ferris");
    assert_eq!(
        apple,
        FileNames {
            static_lib: String::from("libferris.a"),
            shared_lib: String::from("libferris.dylib"),
            impl_lib: None,
            debug_info: None,
            def: None,
        }
    );
    let msvc = Convention::WindowsMsvc.file_names("ferris");
    assert_eq!(
        msvc,
        FileNames {
            static_lib: String::from("ferris.lib"),
            shared_lib: String::from("ferris.dll"),
            impl_lib: Some(String::from("ferris.dll.lib")),
            debug_info: Some(String::from("ferris.pdb")),
            def: Some(String::from("ferris.def")),
        }
    );
    let gnu = Convention::WindowsGnu.file_names("ferris");
    assert_eq!(
        gnu,
        FileNames {
            static_lib: String::from("libferris.a"),
            shared_lib: String::from("ferris.dll"),
            impl_lib: Some(String::from("libferris.dll.a")),
            debug_info: None,
            def: None,
        }
    );
}

#[test]
fn an_empty_library_name_is_named_too() {
    let names = Convention::Unix.file_names("");
    assert_eq!(names.static_lib, "lib.a");
    assert_eq!(names.shared_lib, "lib.so");
    let names = Convention::WindowsMsvc.file_names("");
    assert_eq!(names.static_lib, ".lib");
    assert_eq!(names.def, Some(String::from(".def")));
}

#[test]
fn names_are_placed_under_the_directory() {
    let bare = Convention::WindowsMsvc.file_names("ferris");
    let placed = bare.under("out");
    assert_eq!(placed.static_lib, "out/ferris.lib");
    assert_eq!(placed.shared_lib, "out/ferris.dll");
    assert_eq!(placed.impl_lib, Some(String::from("out/ferris.dll.lib")));
    assert_eq!(placed.debug_info, Some(String::from("out/ferris.pdb")));
    assert_eq!(placed.def, Some(String::from("out/ferris.def")));
    let placed = Convention::Unix.file_names("ferris").under("out/");
    assert_eq!(placed.static_lib, "out/libferris.a");
    assert_eq!(placed.impl_lib, None);
    let placed = Convention::Unix.file_names("ferris").under("");
    assert_eq!(placed.shared_lib, "libferris.so");
}

#[test]
fn naming_twice_gives_the_same() {
    for (os, env) in [("linux", ""), ("ios", ""), ("windows", "msvc"), ("windows", "gnu"), ("plan9", "")]
    {
        let first = FileNames::from_target(&target(os, env), "ferris", "/foo/bar");
        let second = FileNames::from_target(&target(os, env), "ferris", "/foo/bar");
        assert_eq!(first, second);
    }
}

#[test]
fn a_cloned_target_is_the_same_target() {
    let first = Target {
        is_target_overridden: true,
        arch: String::from("x86_64"),
        os: String::from("windows"),
        env: String::from("msvc"),
    };
    let copy = first.clone();
    assert_eq!(copy.is_target_overridden, true);
    assert_eq!(copy.arch, "x86_64");
    assert_eq!(copy.os, "windows");
    assert_eq!(copy.env, "msvc");
    assert_eq!(copy.convention(), first.convention());
}
