use cxx_qt_build::builder::{
    duplicate_file_and_qml_module_message, join_strings, opts_header_files, CxxQtBuilder, CxxQtBuildersOpts, HeaderFile,
    MocArguments, QObjectHeaderOpts, QmlModule,
};

fn strings(v: &[&str]) -> Vec<String> {
    v.iter().map(|s| s.to_string()).collect()
}

fn module(uri: &str, rust_files: &[&str]) -> QmlModule {
    QmlModule {
        uri: uri.to_string(),
        version_major: 1,
        version_minor: 0,
        rust_files: strings(rust_files),
        qml_files: strings(&["qml/main.qml"]),
        qrc_files: vec![],
    }
}

#[test]
fn new_links_core() {
    let b = CxxQtBuilder::new();
    assert_eq!(b.qt_modules(), &strings(&["Core"]));
    assert!(b.rust_sources().is_empty());
    assert!(b.qobject_headers().is_empty());
    assert!(b.qrc_files().is_empty());
    assert!(b.qml_modules().is_empty());
    assert!(b.extra_defines().is_empty());
    assert!(b.initializers().is_empty());
}

#[test]
fn qt_module_twice_is_once() {
    let once = CxxQtBuilder::new().qt_module("Qml");
    let twice = CxxQtBuilder::new().qt_module("Qml").qt_module("Qml");
    assert_eq!(once.qt_modules(), twice.qt_modules());
    assert_eq!(twice.qt_modules(), &strings(&["Core", "Qml"]));
    let core_again = CxxQtBuilder::new().qt_module("Core");
    assert_eq!(core_again.qt_modules(), &strings(&["Core"]));
}

#[test]
fn file_then_module_with_same_file_is_detected() {
    let b = CxxQtBuilder::new().file("src/lib.rs".to_string()).file("src/other.rs".to_string());
    assert_eq!(b.rust_sources(), &strings(&["src/lib.rs", "src/other.rs"]));
    let m = module("com.kdab.demo", &["src/a.rs", "src//other.rs", "src/lib.rs"]);
    assert_eq!(b.first_file_also_given(&m), Some(1));
    let ok = module("com.kdab.demo", &["src/a.rs"]);
    assert_eq!(b.first_file_also_given(&ok), None);
}

#[test]
fn module_then_file_with_same_file_is_detected() {
    let b = CxxQtBuilder::new()
        .qml_module(module("com.kdab.one", &["src/a.rs"]))
        .qml_module(module("com.kdab.two", &["src/b.rs", "src/c.rs"]));
    assert_eq!(b.qml_module_declaring("src/c.rs"), Some(1));
    assert_eq!(b.qml_module_declaring("src/./c.rs/"), Some(1));
    assert_eq!(b.qml_module_declaring("src/a.rs"), Some(0));
    assert_eq!(b.qml_module_declaring("src/d.rs"), None);
    assert_eq!(b.qml_modules().len(), 2);
    assert_eq!(b.qml_modules()[1].uri, "com.kdab.two");
}

#[test]
fn duplicate_message_text() {
    assert_eq!(
        duplicate_file_and_qml_module_message("src/lib.rs", "com.kdab.demo", 1, 0),
        "CXX-Qt bridge Rust file src/lib.rs specified in QML module com.kdab.demo (version 1.0), but also specified via CxxQtBuilder::file. Bridge files must be specified via CxxQtBuilder::file or CxxQtBuilder::qml_module, but not both."
    );
}

#[test]
fn opts_extend_sets_and_lists() {
    let opts = CxxQtBuildersOpts {
        headers: vec![],
        defines: strings(&["A", "B", "A"]),
        initializers: strings(&["init1"]),
        qt_modules: strings(&["Gui", "Core", "Qml"]),
    };
    let (b, headers) = CxxQtBuilder::new().with_opts(opts, "/out/include/demo");
    assert!(headers.is_empty());
    assert_eq!(b.qt_modules(), &strings(&["Core", "Gui", "Qml"]));
    assert_eq!(b.extra_defines(), &strings(&["A", "B"]));
    assert_eq!(b.initializers(), &strings(&["init1"]));
}

#[test]
fn opts_header_files_placement() {
    let opts = CxxQtBuildersOpts {
        headers: vec![
            ("content1".to_string(), "".to_string(), "a.h".to_string()),
            ("content2".to_string(), "cxx-qt-lib".to_string(), "b.h".to_string()),
        ],
        defines: vec![],
        initializers: vec![],
        qt_modules: vec![],
    };
    assert_eq!(
        opts_header_files(&opts, "/out/include/demo"),
        vec![
            HeaderFile {
                directory: "/out/include/demo".to_string(),
                path: "/out/include/demo/a.h".to_string(),
                contents: "content1".to_string(),
            },
            HeaderFile {
                directory: "/out/include/demo/cxx-qt-lib".to_string(),
                path: "/out/include/demo/cxx-qt-lib/b.h".to_string(),
                contents: "content2".to_string(),
            },
        ]
    );
}

#[test]
fn with_opts_gives_the_header_files_to_write() {
    let opts = CxxQtBuildersOpts {
        headers: vec![
            ("one".to_string(), "".to_string(), "a.h".to_string()),
            ("two".to_string(), "lib".to_string(), "b.h".to_string()),
            ("three".to_string(), "".to_string(), "a.h".to_string()),
        ],
        defines: strings(&["D"]),
        initializers: vec![],
        qt_modules: strings(&["Gui"]),
    };
    let (b, headers) = CxxQtBuilder::new().with_opts(opts, "/inc");
    assert_eq!(b.qt_modules(), &strings(&["Core", "Gui"]));
    assert_eq!(b.extra_defines(), &strings(&["D"]));
    let plan: Vec<(&str, &str, &str)> =
        headers.iter().map(|h| (h.directory.as_str(), h.path.as_str(), h.contents.as_str())).collect();
    assert_eq!(
        plan,
        vec![("/inc", "/inc/a.h", "one"), ("/inc/lib", "/inc/lib/b.h", "two"), ("/inc", "/inc/a.h", "three")]
    );
}

#[test]
fn initializers_file_layout() {
    let opts = CxxQtBuildersOpts {
        headers: vec![],
        defines: vec![],
        initializers: strings(&["int a;", "int b;"]),
        qt_modules: vec![],
    };
    let (mut b, _) = CxxQtBuilder::new().with_opts(opts, "/out/include/demo");
    b.setup_qt5_compatibility(6, "qt5 only");
    let f = b.initializers_file("/out", "demo");
    assert_eq!(f.directory, "/out/cxx-qt-build/initializers");
    assert_eq!(f.path, "/out/cxx-qt-build/initializers/demo.cpp");
    assert_eq!(f.contents, "int a;\nint b;");
    assert_eq!(f.export_directory, "initializers");
    assert_eq!(f.export_file_name, "demo.o");
    b.setup_qt5_compatibility(5, "qt5 only");
    assert_eq!(b.initializers_file("/out", "demo").contents, "int a;\nint b;\nqt5 only");
}

#[test]
fn join_strings_examples() {
    assert_eq!(join_strings(&vec![], "\n"), "");
    assert_eq!(join_strings(&strings(&["a"]), "\n"), "a");
    assert_eq!(join_strings(&strings(&["a", "", "c"]), ", "), "a, , c");
}

#[test]
fn qobject_header_and_qrc_are_kept_in_order() {
    let b = CxxQtBuilder::new()
        .qrc("qml/qml.qrc".to_string())
        .qrc("qml/compat/compat_qt5.qrc".to_string())
        .qobject_header(QObjectHeaderOpts::from_path("cpp/helpers/sensor.h".to_string()))
        .qobject_header(QObjectHeaderOpts {
            path: "cpp/other.h".to_string(),
            moc_arguments: MocArguments::new().uri("com.kdab".to_string()),
        });
    assert_eq!(b.qrc_files(), &strings(&["qml/qml.qrc", "qml/compat/compat_qt5.qrc"]));
    assert_eq!(b.qobject_headers().len(), 2);
    assert_eq!(b.qobject_headers()[0].path, "cpp/helpers/sensor.h");
    assert_eq!(b.qobject_headers()[0].moc_arguments, MocArguments::new());
    assert_eq!(b.qobject_headers()[1].path, "cpp/other.h");
    assert_eq!(b.qobject_headers()[1].moc_arguments.uri, Some("com.kdab".to_string()));
}
