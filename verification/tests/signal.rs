use cxx_qt_build::generated::render_tokens;
use cxx_qt_build::signal::{generate, notify_method, Name, QObjectNames, QPropertyName};
use cxx_qt_build::tokens::Token;
use proc_macro2::TokenStream;
use quote::ToTokens;

#[test]
fn notify_signal_declaration() {
    let idents = QPropertyName { notify: Name { rust: "number_changed".to_string(), cxx: "numberChanged".to_string() } };
    let qobject = QObjectNames { name: Name { rust: "MyObject".to_string(), cxx: "MyObject".to_string() } };
    let signal = generate(&idents, &qobject);
    assert_eq!(signal.ident.cpp, "numberChanged");
    assert_eq!(signal.ident.rust, "number_changed");
    assert_eq!(signal.qobject_ident, "MyObject");
    let text = render_tokens(&signal.method);
    let expected = "#[doc = \"Notify for the Q_PROPERTY\"] #[cxx_name = \"numberChanged\"] fn number_changed(self: Pin<&mut MyObject>);";
    let item: syn::ForeignItemFn = syn::parse_str(&text).unwrap();
    let expected_item: syn::ForeignItemFn = syn::parse_str(expected).unwrap();
    assert_eq!(item.to_token_stream().to_string(), expected_item.to_token_stream().to_string());
    assert_eq!(item.sig.ident.to_string(), "number_changed");
    assert!(text.parse::<TokenStream>().is_ok());
}

#[test]
fn notify_cxx_name_is_written_as_proc_macro2_writes_it() {
    for cxx in ["numberChanged", "it'sChanged", "größeChanged", "tab\tChanged", "quote\"Changed"] {
        let idents = QPropertyName { notify: Name { rust: "changed".to_string(), cxx: cxx.to_string() } };
        let qobject = QObjectNames { name: Name { rust: "MyObject".to_string(), cxx: "MyObject".to_string() } };
        let signal = generate(&idents, &qobject);
        let expected = proc_macro2::Literal::string(cxx).to_string();
        assert_eq!(signal.method[10], Token::Literal(expected), "{cxx:?}");
    }
    let idents = QPropertyName { notify: Name { rust: "changed".to_string(), cxx: "it'sChanged".to_string() } };
    let qobject = QObjectNames { name: Name { rust: "MyObject".to_string(), cxx: "MyObject".to_string() } };
    assert_eq!(generate(&idents, &qobject).method[10], Token::Literal("\"it'sChanged\"".to_string()));
}

#[test]
fn notify_method_tokens_for_given_literal() {
    let text = render_tokens(&notify_method("\"x\"", "changed", "Obj"));
    let item: syn::ForeignItemFn = syn::parse_str(&text).unwrap();
    assert_eq!(item.sig.ident.to_string(), "changed");
    assert!(text.contains("cxx_name = \"x\""));
}
