//! The notify signal that the generator declares for a `Q_PROPERTY`.

use vstd::prelude::*;
use crate::tokens::{ident, punct, string_literal, string_literal_text, Delimiter, Token, TokenView};

verus! {

/// A generated name, in its Rust form and its C++ form.
#[derive(Debug, PartialEq, Eq)]
pub struct Name {
    pub rust: String,
    pub cxx: String,
}

impl Name {
    /// The Rust form of the name.
    pub fn rust_unqualified(&self) -> (res: &String)
        ensures
            res@ == self.rust@,
    {
        &self.rust
    }

    /// The C++ form of the name.
    pub fn cxx_unqualified(&self) -> (res: String)
        ensures
            res@ == self.cxx@,
    {
        self.cxx.clone()
    }
}

/// The names that belong to a property, as far as its notify signal needs
/// them.
#[derive(Debug, PartialEq, Eq)]
pub struct QPropertyName {
    pub notify: Name,
}

/// The names of a QObject, as far as the notify signals of its properties
/// need them.
#[derive(Debug, PartialEq, Eq)]
pub struct QObjectNames {
    pub name: Name,
}

/// An identifier in its C++ form and its Rust form.
#[derive(Debug, PartialEq, Eq)]
pub struct CombinedIdent {
    pub cpp: String,
    pub rust: String,
}

/// A signal as the generator handles it: the declaration of its method, its
/// name in both languages, and the QObject it belongs to.
#[derive(Debug, PartialEq, Eq)]
pub struct ParsedSignal {
    pub method: Vec<Token>,
    pub ident: CombinedIdent,
    pub qobject_ident: String,
}

/// The declaration of the notify method, with `notify_literal` the string
/// literal of its C++ name:
/// `#[doc = "Notify for the Q_PROPERTY"] #[cxx_name = <notify_literal>]
/// fn <notify_rust>(self: Pin<&mut <class_rust>>);`
pub open spec fn notify_method_tokens(notify_literal: Seq<char>, notify_rust: Seq<char>, class_rust: Seq<char>) -> Seq<TokenView> {
    seq![
        punct('#'),
        TokenView::Open(Delimiter::Bracket),
        ident("doc"@),
        punct('='),
        TokenView::Literal("\"Notify for the Q_PROPERTY\""@),
        TokenView::Close(Delimiter::Bracket),
        punct('#'),
        TokenView::Open(Delimiter::Bracket),
        ident("cxx_name"@),
        punct('='),
        TokenView::Literal(notify_literal),
        TokenView::Close(Delimiter::Bracket),
        ident("fn"@),
        ident(notify_rust),
        TokenView::Open(Delimiter::Parenthesis),
        ident("self"@),
        punct(':'),
        ident("Pin"@),
        punct('<'),
        punct('&'),
        ident("mut"@),
        ident(class_rust),
        punct('>'),
        TokenView::Close(Delimiter::Parenthesis),
        punct(';'),
    ]
}

/// The tokens of the notify method (see `notify_method_tokens`), for the
/// string literal of its C++ name, its Rust name and the QObject's Rust name.
pub fn notify_method(notify_literal: &str, notify_rust: &str, class_rust: &str) -> (res: Vec<Token>)
    ensures
        res.deep_view() == notify_method_tokens(notify_literal@, notify_rust@, class_rust@),
{
    let mut method: Vec<Token> = Vec::new();
    method.push(Token::punct('#'));
    method.push(Token::Open(Delimiter::Bracket));
    method.push(Token::ident("doc"));
    method.push(Token::punct('='));
    method.push(Token::Literal(crate::text::string_of("\"Notify for the Q_PROPERTY\"")));
    method.push(Token::Close(Delimiter::Bracket));
    method.push(Token::punct('#'));
    method.push(Token::Open(Delimiter::Bracket));
    method.push(Token::ident("cxx_name"));
    method.push(Token::punct('='));
    method.push(Token::Literal(crate::text::string_of(notify_literal)));
    method.push(Token::Close(Delimiter::Bracket));
    method.push(Token::ident("fn"));
    method.push(Token::ident(notify_rust));
    method.push(Token::Open(Delimiter::Parenthesis));
    method.push(Token::ident("self"));
    method.push(Token::punct(':'));
    method.push(Token::ident("Pin"));
    method.push(Token::punct('<'));
    method.push(Token::punct('&'));
    method.push(Token::ident("mut"));
    method.push(Token::ident(class_rust));
    method.push(Token::punct('>'));
    method.push(Token::Close(Delimiter::Parenthesis));
    method.push(Token::punct(';'));
    assert(method.deep_view() =~= notify_method_tokens(notify_literal@, notify_rust@, class_rust@));
    method
}

/// The notify signal of a property: its method is declared as in
/// `notify_method_tokens`, with the string literal of the C++ name of the
/// notify name (as `proc_macro2` writes it) as the C++ name and its Rust name
/// as the method's name, for the QObject's Rust name.
pub fn generate(idents: &QPropertyName, qobject_idents: &QObjectNames) -> (res: ParsedSignal)
    ensures
        res.method.deep_view() == notify_method_tokens(
            string_literal_text(idents.notify.cxx@),
            idents.notify.rust@,
            qobject_idents.name.rust@,
        ),
        res.ident.cpp@ == idents.notify.cxx@,
        res.ident.rust@ == idents.notify.rust@,
        res.qobject_ident@ == qobject_idents.name.rust@,
{
    let cpp_class_rust = qobject_idents.name.rust_unqualified();
    let notify_cpp = idents.notify.cxx_unqualified();
    let notify_rust = idents.notify.rust_unqualified();
    let notify_literal = string_literal(notify_cpp.as_str());
    let method = notify_method(notify_literal.as_str(), notify_rust.as_str(), cpp_class_rust.as_str());
    ParsedSignal {
        method,
        ident: CombinedIdent { cpp: idents.notify.cxx_unqualified(), rust: notify_rust.clone() },
        qobject_ident: cpp_class_rust.clone(),
    }
}

} // verus!
