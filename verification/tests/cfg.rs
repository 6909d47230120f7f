use cxx_qt_build::cfg::{
    cfgs_from_env, define_cfg_check_variable, define_cfg_variable, define_qt_version_cfg_variables, enabled_cfgs, is_cfg_enabled, CfgDirective,
    SemVer,
};

fn directive(line: &str, env: Option<(&str, &str)>) -> CfgDirective {
    CfgDirective { line: line.to_string(), cfg: None, env: env.map(|(k, v)| (k.to_string(), v.to_string())) }
}

fn defining(line: &str, cfg: (&str, Option<&str>), env: (&str, &str)) -> CfgDirective {
    CfgDirective {
        line: line.to_string(),
        cfg: Some((cfg.0.to_string(), cfg.1.map(|v| v.to_string()))),
        env: Some((env.0.to_string(), env.1.to_string())),
    }
}

#[test]
fn cfg_variable_with_value() {
    assert_eq!(
        define_cfg_variable("cxxqt_qt_version_major".to_string(), Some("6")),
        defining(
            "cargo:rustc-cfg=cxxqt_qt_version_major=\"6\"",
            ("cxxqt_qt_version_major", Some("6")),
            ("CARGO_CFG_cxxqt_qt_version_major", "6")
        )
    );
}

#[test]
fn cfg_variable_without_value() {
    assert_eq!(
        define_cfg_variable("cxxqt_qt_version_at_least_6".to_string(), None),
        defining(
            "cargo:rustc-cfg=cxxqt_qt_version_at_least_6",
            ("cxxqt_qt_version_at_least_6", None),
            ("CARGO_CFG_cxxqt_qt_version_at_least_6", "true")
        )
    );
}

#[test]
fn cfg_check_variable_with_values() {
    assert_eq!(
        define_cfg_check_variable("cxxqt_qt_version_major".to_string(), Some(vec!["5", "6"])),
        directive("cargo:rustc-check-cfg=cfg(cxxqt_qt_version_major, values(\"5\", \"6\"))", None)
    );
    assert_eq!(
        define_cfg_check_variable("k".to_string(), Some(vec!["a\"b", "c\\d"])),
        directive("cargo:rustc-check-cfg=cfg(k, values(\"a\\\"b\", \"c\\\\d\"))", None)
    );
    assert_eq!(
        define_cfg_check_variable("k".to_string(), Some(vec![])),
        directive("cargo:rustc-check-cfg=cfg(k, values())", None)
    );
}

#[test]
fn cfg_check_variable_without_values() {
    assert_eq!(
        define_cfg_check_variable("cxxqt_qt_version_at_least_5".to_string(), None),
        directive("cargo:rustc-check-cfg=cfg(cxxqt_qt_version_at_least_5)", None)
    );
}

/// The directives as a build script prints them, written out plainly.
fn expected_version_directives(major: u64, minor: u64) -> Vec<CfgDirective> {
    let mut out = vec![
        directive("cargo:rustc-check-cfg=cfg(cxxqt_qt_version_major, values(\"5\", \"6\"))", None),
        CfgDirective {
            line: format!("cargo:rustc-cfg=cxxqt_qt_version_major=\"{major}\""),
            cfg: Some(("cxxqt_qt_version_major".to_string(), Some(major.to_string()))),
            env: Some(("CARGO_CFG_cxxqt_qt_version_major".to_string(), major.to_string())),
        },
    ];
    for m in 5..=7 {
        out.push(CfgDirective { line: format!("cargo:rustc-check-cfg=cfg(cxxqt_qt_version_at_least_{m})"), cfg: None, env: None });
        for n in 0..=99 {
            out.push(CfgDirective { line: format!("cargo:rustc-check-cfg=cfg(cxxqt_qt_version_at_least_{m}_{n})"), cfg: None, env: None });
        }
    }
    let define = |key: String| CfgDirective {
        line: format!("cargo:rustc-cfg={key}"),
        cfg: Some((key.clone(), None)),
        env: Some((format!("CARGO_CFG_{key}"), "true".to_string())),
    };
    for n in 0..=minor {
        out.push(define(format!("cxxqt_qt_version_at_least_{major}_{n}")));
    }
    for m in 5..=major {
        out.push(define(format!("cxxqt_qt_version_at_least_{m}")));
    }
    out
}

#[test]
fn qt_version_directives() {
    for (major, minor) in [(6, 5), (5, 15), (6, 0), (4, 8), (7, 2)] {
        let got = define_qt_version_cfg_variables(&SemVer { major, minor, patch: 1 });
        assert_eq!(got, expected_version_directives(major, minor), "{major}.{minor}");
    }
    let got = define_qt_version_cfg_variables(&SemVer { major: 6, minor: 5, patch: 0 });
    assert_eq!(got.len(), 2 + 303 + 6 + 2);
    assert_eq!(got[1].line, "cargo:rustc-cfg=cxxqt_qt_version_major=\"6\"");
    assert_eq!(got[got.len() - 1].line, "cargo:rustc-cfg=cxxqt_qt_version_at_least_6");
}

#[test]
fn every_defined_version_cfg_is_declared_for_qt6() {
    let got = define_qt_version_cfg_variables(&SemVer { major: 6, minor: 7, patch: 0 });
    let declared: Vec<String> = got
        .iter()
        .filter_map(|d| d.line.strip_prefix("cargo:rustc-check-cfg=cfg(").map(|r| r.split([',', ')']).next().unwrap().to_string()))
        .collect();
    for d in got.iter().filter(|d| d.env.is_some()) {
        let key = d.line.strip_prefix("cargo:rustc-cfg=").unwrap().split('=').next().unwrap();
        assert!(declared.iter().any(|k| k == key), "{key}");
    }
}

fn owned(cfgs: &[(&str, Option<&str>)]) -> Vec<(String, Option<String>)> {
    cfgs.iter().map(|(k, v)| (k.to_string(), v.map(|v| v.to_string()))).collect()
}

#[test]
fn cfg_enabled_exactly_when_listed() {
    let cfgs = owned(&[("unix", None), ("target_os", Some("linux")), ("feature", Some("qt6"))]);
    assert!(is_cfg_enabled(&cfgs, "unix", None));
    assert!(is_cfg_enabled(&cfgs, "target_os", Some("linux")));
    assert!(is_cfg_enabled(&cfgs, "feature", Some("qt6")));
    assert!(!is_cfg_enabled(&cfgs, "windows", None));
    assert!(!is_cfg_enabled(&cfgs, "target_os", Some("macos")));
    assert!(!is_cfg_enabled(&cfgs, "target_os", None));
    assert!(!is_cfg_enabled(&cfgs, "unix", Some("")));
    assert!(!is_cfg_enabled(&vec![], "unix", None));
}

#[test]
fn version_directives_enable_version_cfgs() {
    let got = define_qt_version_cfg_variables(&SemVer { major: 6, minor: 2, patch: 0 });
    let cfgs = enabled_cfgs(&got);
    assert_eq!(
        cfgs,
        owned(&[
            ("cxxqt_qt_version_major", Some("6")),
            ("cxxqt_qt_version_at_least_6_0", None),
            ("cxxqt_qt_version_at_least_6_1", None),
            ("cxxqt_qt_version_at_least_6_2", None),
            ("cxxqt_qt_version_at_least_5", None),
            ("cxxqt_qt_version_at_least_6", None),
        ])
    );
    assert!(is_cfg_enabled(&cfgs, "cxxqt_qt_version_at_least_6", None));
    assert!(!is_cfg_enabled(&cfgs, "cxxqt_qt_version_at_least_6_3", None));
    assert!(!is_cfg_enabled(&cfgs, "cxxqt_qt_version_major", Some("5")));
}

fn vars(list: &[(&str, &str)]) -> Vec<(String, String)> {
    list.iter().map(|(k, v)| (k.to_string(), v.to_string())).collect()
}

#[test]
fn cfgs_from_cargo_environment() {
    let env = vars(&[
        ("CARGO_CFG_UNIX", ""),
        ("PATH", "/usr/bin"),
        ("CARGO_CFG_TARGET_OS", "linux"),
        ("CARGO_CFG_TARGET_FEATURE", "fxsr,sse,sse2"),
        ("CARGO_FEATURE_LINK_QT_OBJECT_FILES", "1"),
        ("CARGO_FEATURE_QT6", "1"),
        ("CARGO_PKG_NAME", "demo"),
    ]);
    assert_eq!(
        cfgs_from_env(&env),
        owned(&[
            ("unix", None),
            ("unix", Some("")),
            ("target_os", Some("linux")),
            ("target_feature", Some("fxsr")),
            ("target_feature", Some("sse")),
            ("target_feature", Some("sse2")),
            ("feature", Some("link-qt-object-files")),
            ("feature", Some("link_qt_object_files")),
            ("feature", Some("qt6")),
            ("feature", Some("qt6")),
        ])
    );
    assert!(cfgs_from_env(&vars(&[("CARGO_CFG_", ""), ("CARGO_CF", "x")])) == owned(&[("", None), ("", Some(""))]));
    assert!(cfgs_from_env(&vec![]).is_empty());
    assert_eq!(cfgs_from_env(&vars(&[("CARGO_CFG_PANIC", "a,,b")])), owned(&[("panic", Some("a")), ("panic", Some("")), ("panic", Some("b"))]));
}
