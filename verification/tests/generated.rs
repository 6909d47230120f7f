use cxx_qt_build::generated::{
    collect_bridge_tokens, is_single_bridge_file, render_tokens, CppFragment, CxxQtItem, GeneratedBridge, GeneratedCode, GeneratedCpp, GeneratedError,
    GeneratedFile,
};
use cxx_qt_build::tokens::{Delimiter, Token};
use proc_macro2::{Spacing, TokenStream, TokenTree};

/// The library's tokens of the Rust source `src`.
fn lex(src: &str) -> Vec<Token> {
    fn walk(ts: TokenStream, out: &mut Vec<Token>) {
        for tt in ts {
            match tt {
                TokenTree::Ident(i) => out.push(Token::Ident(i.to_string())),
                TokenTree::Punct(p) => out.push(Token::Punct { ch: p.as_char(), joint: p.spacing() == Spacing::Joint }),
                TokenTree::Literal(l) => out.push(Token::Literal(l.to_string())),
                TokenTree::Group(g) => {
                    let d = match g.delimiter() {
                        proc_macro2::Delimiter::Parenthesis => Some(Delimiter::Parenthesis),
                        proc_macro2::Delimiter::Brace => Some(Delimiter::Brace),
                        proc_macro2::Delimiter::Bracket => Some(Delimiter::Bracket),
                        proc_macro2::Delimiter::None => None,
                    };
                    if let Some(d) = d {
                        out.push(Token::Open(d));
                    }
                    walk(g.stream(), out);
                    if let Some(d) = d {
                        out.push(Token::Close(d));
                    }
                }
            }
        }
    }
    let mut out = Vec::new();
    walk(src.parse().unwrap(), &mut out);
    out
}

fn same_tokens(a: &str, b: &str) -> bool {
    a.parse::<TokenStream>().unwrap().to_string() == b.parse::<TokenStream>().unwrap().to_string()
}

const CXX_BRIDGE: &str = "#[cxx::bridge] mod ffi { extern \"Rust\" { fn answer() -> i32; } }";

#[test]
fn render_roundtrips_through_proc_macro2() {
    let src = "fn f<'a>(x: &'a mut Vec<u8>) -> std::io::Result<()> { x.push(1u8); Ok(()) }";
    let text = render_tokens(&lex(src));
    assert!(same_tokens(&text, src));
    assert_eq!(lex(&text), lex(src));
}

#[test]
fn collect_cxx_bridge_uses_file_stem() {
    let attrs = lex("#![allow(dead_code)]");
    let items = vec![CxxQtItem::Item(lex("use std::fmt;")), CxxQtItem::Cxx(lex(CXX_BRIDGE))];
    let c = collect_bridge_tokens("my_bridge", &attrs, &items).unwrap();
    assert_eq!(c.file_ident, "my_bridge");
    assert_eq!(c.cxx_qt, None);
    let mut expected = lex("#![allow(dead_code)] use std::fmt;");
    expected.extend(lex(CXX_BRIDGE));
    assert_eq!(c.tokens, expected);
}

#[test]
fn collect_cxx_qt_bridge_uses_generated_stem() {
    let items = vec![CxxQtItem::CxxQt(GeneratedBridge {
        cxx_file_stem: "my_object".to_string(),
        cpp: CppFragment::Pair { header: "// h".to_string(), source: "// cpp".to_string() },
        rust: lex(CXX_BRIDGE),
    })];
    let c = collect_bridge_tokens("lib", &vec![], &items).unwrap();
    assert_eq!(c.file_ident, "my_object");
    assert_eq!(c.cxx_qt, Some(CppFragment::Pair { header: "// h".to_string(), source: "// cpp".to_string() }));
}

#[test]
fn two_bridges_are_refused() {
    let items = vec![CxxQtItem::Cxx(lex(CXX_BRIDGE)), CxxQtItem::Item(lex("struct A;")), CxxQtItem::Cxx(lex(CXX_BRIDGE))];
    assert!(matches!(collect_bridge_tokens("lib", &vec![], &items), Err(GeneratedError::MultipleBridges)));
    assert!(!is_single_bridge_file("lib", &vec![], &items));
    let one = vec![CxxQtItem::Item(lex("struct A;")), CxxQtItem::Cxx(lex(CXX_BRIDGE))];
    assert!(is_single_bridge_file("lib", &vec![], &one));
    let qt_then_cxx = vec![
        CxxQtItem::CxxQt(GeneratedBridge {
            cxx_file_stem: "obj".to_string(),
            cpp: CppFragment::Header("h".to_string()),
            rust: lex(CXX_BRIDGE),
        }),
        CxxQtItem::Cxx(lex(CXX_BRIDGE)),
    ];
    assert!(!is_single_bridge_file("lib", &vec![], &qt_then_cxx));
}

#[test]
fn cxx_code_is_generated() {
    let items = vec![CxxQtItem::Cxx(lex(CXX_BRIDGE))];
    let g = GeneratedCpp::new("lib", &vec![], &items, &vec![]).unwrap();
    assert_eq!(g.file_ident, "lib");
    let header = String::from_utf8(g.cxx.header.clone()).unwrap();
    let source = String::from_utf8(g.cxx.implementation.clone()).unwrap();
    assert!(header.contains("#pragma once"));
    assert!(header.contains("answer"));
    assert!(!header.contains("mod ffi"));
    assert!(source.contains("answer"));
    assert!(!source.contains("mod ffi"));
}

#[test]
fn invalid_bridge_is_refused_by_cxx() {
    let items = vec![CxxQtItem::Cxx(lex("#[cxx::bridge] mod ffi { extern \"Rust\" { fn bad(x: &mut &mut i32); } }"))];
    assert!(matches!(GeneratedCpp::new("lib", &vec![], &items, &vec![]), Err(GeneratedError::Cxx(_))));
}

#[test]
fn write_to_directories_for_cxx_qt_code() {
    let g = GeneratedCpp {
        cxx_qt: Some(CppFragment::Pair { header: "H".to_string(), source: "S".to_string() }),
        cxx: GeneratedCode { header: b"h".to_vec(), implementation: b"c".to_vec() },
        file_ident: "obj".to_string(),
    };
    let (files, paths) = g.write_to_directories("/out/src", "/out/include");
    assert_eq!(
        files,
        vec![
            GeneratedFile { path: "/out/include/obj.cxxqt.h".to_string(), contents: b"H".to_vec() },
            GeneratedFile { path: "/out/src/obj.cxxqt.cpp".to_string(), contents: b"S".to_vec() },
            GeneratedFile { path: "/out/include/obj.cxx.h".to_string(), contents: b"h".to_vec() },
            GeneratedFile { path: "/out/src/obj.cxx.cpp".to_string(), contents: b"c".to_vec() },
        ]
    );
    assert_eq!(paths.plain_cpp, "/out/src/obj.cxx.cpp");
    assert_eq!(paths.qobject, Some("/out/src/obj.cxxqt.cpp".to_string()));
    assert_eq!(paths.qobject_header, Some("/out/include/obj.cxxqt.h".to_string()));
}

#[test]
fn write_to_directories_for_plain_cxx_code() {
    let g = GeneratedCpp {
        cxx_qt: None,
        cxx: GeneratedCode { header: b"h".to_vec(), implementation: b"c".to_vec() },
        file_ident: "lib".to_string(),
    };
    let (files, paths) = g.write_to_directories("src", "inc");
    assert_eq!(files.len(), 2);
    assert_eq!(files[0].path, "inc/lib.cxx.h");
    assert_eq!(files[1].path, "src/lib.cxx.cpp");
    assert_eq!(paths.qobject, None);
    assert_eq!(paths.qobject_header, None);
}

#[test]
fn tokens_that_do_not_lex_are_refused() {
    let items = vec![CxxQtItem::Item(vec![Token::Literal("\"unterminated".to_string())])];
    assert!(matches!(GeneratedCpp::new("lib", &vec![], &items, &vec![]), Err(GeneratedError::Lex)));
}

#[test]
fn half_fragments_cannot_be_written() {
    let code = || GeneratedCode { header: vec![], implementation: vec![] };
    let g = GeneratedCpp { cxx_qt: Some(CppFragment::Header("h".to_string())), cxx: code(), file_ident: "x".to_string() };
    assert!(!g.is_writable());
    let g = GeneratedCpp { cxx_qt: Some(CppFragment::Source("s".to_string())), cxx: code(), file_ident: "x".to_string() };
    assert!(!g.is_writable());
    let g = GeneratedCpp { cxx_qt: None, cxx: code(), file_ident: "x".to_string() };
    assert!(g.is_writable());
}

const CFG_BRIDGE: &str = "#[cxx::bridge] mod ffi { extern \"Rust\" { #[cfg(feature = \"extra\")] fn extra_answer() -> i32; #[cfg(cxxqt_qt_version_at_least_6)] fn qt6_answer() -> i32; fn answer() -> i32; } }";

fn cfgs(list: &[(&str, Option<&str>)]) -> Vec<(String, Option<String>)> {
    list.iter().map(|(k, v)| (k.to_string(), v.map(|v| v.to_string()))).collect()
}

#[test]
fn cfg_attributes_are_decided_by_enabled_cfgs() {
    let items = vec![CxxQtItem::Cxx(lex(CFG_BRIDGE))];
    let none = GeneratedCpp::new("lib", &vec![], &items, &vec![]).unwrap();
    let header = String::from_utf8(none.cxx.header.clone()).unwrap();
    assert!(header.contains("answer"));
    assert!(!header.contains("extra_answer"));
    assert!(!header.contains("qt6_answer"));

    let enabled = cfgs(&[("feature", Some("extra")), ("cxxqt_qt_version_at_least_6", None)]);
    let all = GeneratedCpp::new("lib", &vec![], &items, &enabled).unwrap();
    let header = String::from_utf8(all.cxx.header.clone()).unwrap();
    assert!(header.contains("extra_answer"));
    assert!(header.contains("qt6_answer"));

    let other_value = cfgs(&[("feature", Some("other")), ("cxxqt_qt_version_at_least_6", Some("true"))]);
    let header = String::from_utf8(GeneratedCpp::new("lib", &vec![], &items, &other_value).unwrap().cxx.header).unwrap();
    assert!(!header.contains("extra_answer"));
    assert!(!header.contains("qt6_answer"));
}

#[test]
fn cfg_on_the_bridge_module_is_decided() {
    let src = "#[cxx::bridge] #[cfg(unix)] mod ffi { extern \"Rust\" { fn answer() -> i32; } }";
    let items = vec![CxxQtItem::Cxx(lex(src))];
    assert!(GeneratedCpp::new("lib", &vec![], &items, &cfgs(&[("unix", None)])).is_ok());
}
