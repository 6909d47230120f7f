use std::path::Path;

use cxx_qt_build::naming::{file_stem, header_root, join_path, paths_equal, path_components_of, plugin_name_from_uri, static_lib_name};
use cxx_qt_build::text::{push_escaped_str, replace_chars, to_decimal};

#[test]
fn plugin_name_replaces_dots() {
    assert_eq!(plugin_name_from_uri("com.kdab.cxx_qt.demo"), "com_kdab_cxx_qt_demo");
    assert_eq!(plugin_name_from_uri("plain"), "plain");
    assert_eq!(plugin_name_from_uri(""), "");
    assert_eq!(plugin_name_from_uri("..a."), "__a_");
}

#[test]
fn static_lib_name_appends_suffix() {
    assert_eq!(static_lib_name("demo_threading"), "demo_threading-cxxqt-generated");
    assert_eq!(static_lib_name(""), "-cxxqt-generated");
}

#[test]
fn join_path_agrees_with_std() {
    let cases = [
        ("a", "b"),
        ("a/", "b"),
        ("", "b"),
        ("a", "/b"),
        ("/out", "include"),
        ("a", ""),
        ("a//", "b/c"),
        ("out", "cxx-qt-gen/"),
    ];
    for (base, part) in cases {
        let expected = Path::new(base).join(part);
        assert_eq!(join_path(base, part), expected.to_str().unwrap(), "{base} + {part}");
    }
}

#[test]
fn header_root_prefers_export_dir() {
    assert_eq!(header_root(Some("/export"), "/out", "my_crate"), "/export/include/my_crate");
    assert_eq!(header_root(None, "/out", "my_crate"), "/out/include/my_crate");
    assert_eq!(header_root(None, "/out/", "my_crate"), "/out/include/my_crate");
}

#[test]
fn path_equality_agrees_with_std() {
    let paths = [
        "src/lib.rs",
        "src//lib.rs",
        "./src/lib.rs",
        "src/./lib.rs",
        "src/lib.rs/",
        "/src/lib.rs",
        "//src/lib.rs",
        "/./src/lib.rs",
        ".",
        "./",
        "",
        "a/../b",
        "a/b",
        ".a/b",
        "..",
        "../x",
    ];
    for a in paths {
        for b in paths {
            assert_eq!(paths_equal(a, b), Path::new(a) == Path::new(b), "{a:?} vs {b:?}");
        }
    }
}

#[test]
fn path_components_examples() {
    assert_eq!(path_components_of("/a//b/./c/"), vec!["/", "a", "b", "c"]);
    assert_eq!(path_components_of("./a/."), vec![".", "a"]);
    assert_eq!(path_components_of("a/../b"), vec!["a", "..", "b"]);
    assert_eq!(path_components_of(""), Vec::<String>::new());
}

#[test]
fn decimal_rendering() {
    assert_eq!(to_decimal(0), "0");
    assert_eq!(to_decimal(7), "7");
    assert_eq!(to_decimal(10), "10");
    assert_eq!(to_decimal(1234567890), "1234567890");
    assert_eq!(to_decimal(u64::MAX), u64::MAX.to_string());
}

#[test]
fn escaping_agrees_with_std() {
    for s in ["plain", "a\"b", "tab\there", "back\\slash", "quote'", "new\nline", "\r", "é", "\u{7f}", "\u{1F600}", "\0"] {
        let mut out = String::new();
        push_escaped_str(&mut out, s);
        assert_eq!(out, s.escape_default().to_string(), "{s:?}");
    }
}

#[test]
fn replace_chars_example() {
    assert_eq!(replace_chars("a.b.c", '.', '/'), "a/b/c");
}

#[test]
fn file_stem_agrees_with_std() {
    let paths = [
        "src/lib.rs", "lib.rs", "src/my.bridge.rs", ".bashrc", "a/.hidden", "a.", "/", "", ".", "..", "a/..", "a/.",
        "a/b/", "/x/y.z/", "noext", "a//b.c", "./x.rs",
    ];
    for p in paths {
        let expected = Path::new(p).file_stem().map(|s| s.to_str().unwrap().to_string());
        assert_eq!(file_stem(p), expected, "{p:?}");
    }
}
