use cxx_qt_build::references::{convert_from_pointer, convert_to_pointer, to_pointer_type, Type};
use cxx_qt_build::tokens::{Delimiter, Token};

fn id(s: &str) -> Token {
    Token::Ident(s.to_string())
}

fn p(c: char) -> Token {
    Token::Punct { ch: c, joint: false }
}

fn lit(s: &str) -> Token {
    Token::Literal(s.to_string())
}

fn reference(lifetime: Option<&str>, mutable: bool, elem: Vec<Token>) -> Type {
    Type::Reference { lifetime: lifetime.map(|l| l.to_string()), mutable, elem }
}

fn ptr(mutable: bool, elem: Vec<Token>) -> Type {
    Type::Ptr { mutable, elem }
}

fn a_dot_b() -> Vec<Token> {
    vec![id("a"), p('.'), id("b")]
}

#[test]
fn test_to_pointer_type() {
    let cases: Vec<(Type, Type)> = vec![
        (reference(None, false, vec![id("i32")]), ptr(false, vec![id("i32")])),
        (reference(None, true, vec![id("i32")]), ptr(true, vec![id("i32")])),
        (reference(Some("a"), false, vec![id("i32")]), ptr(false, vec![id("i32")])),
        (reference(Some("a"), true, vec![id("i32")]), ptr(true, vec![id("i32")])),
        (
            Type::Other(vec![id("my"), Token::Punct { ch: ':', joint: true }, p(':'), id("Type")]),
            Type::Other(vec![id("my"), Token::Punct { ch: ':', joint: true }, p(':'), id("Type")]),
        ),
        (ptr(false, vec![id("i32")]), ptr(false, vec![id("i32")])),
        (ptr(true, vec![id("i32")]), ptr(true, vec![id("i32")])),
    ];
    for (input, output) in cases {
        assert_eq!(to_pointer_type(&input).unwrap(), output);
    }
}

#[test]
fn test_convert_to_pointer() {
    let cases: Vec<(Type, Vec<Token>, Vec<Token>)> = vec![
        (
            reference(Some("a"), false, vec![id("i32")]),
            vec![lit("5")],
            vec![lit("5"), id("as"), p('*'), id("const"), id("i32")],
        ),
        (
            reference(None, false, vec![id("i32")]),
            a_dot_b(),
            vec![id("a"), p('.'), id("b"), id("as"), p('*'), id("const"), id("i32")],
        ),
        (
            reference(None, true, vec![id("i32")]),
            a_dot_b(),
            vec![id("a"), p('.'), id("b"), id("as"), p('*'), id("mut"), id("i32")],
        ),
        (
            reference(Some("_"), true, vec![id("i32")]),
            a_dot_b(),
            vec![id("a"), p('.'), id("b"), id("as"), p('*'), id("mut"), id("i32")],
        ),
        (Type::Other(vec![id("i32")]), vec![lit("5")], vec![lit("5")]),
        (Type::Other(vec![id("i32")]), a_dot_b(), a_dot_b()),
        (Type::Other(vec![id("T")]), a_dot_b(), a_dot_b()),
        (
            Type::Other(vec![
                Token::Open(Delimiter::Parenthesis),
                id("T"),
                p(','),
                id("X"),
                p(','),
                id("Y"),
                Token::Close(Delimiter::Parenthesis),
            ]),
            a_dot_b(),
            a_dot_b(),
        ),
    ];
    for (ty, expr, output) in cases {
        assert_eq!(convert_to_pointer(&ty, expr).unwrap(), output);
    }
}

#[test]
fn test_convert_from_pointer() {
    let unsafe_ref = |mutable: bool| {
        let mut v = vec![id("unsafe"), Token::Open(Delimiter::Brace), p('&')];
        if mutable {
            v.push(id("mut"));
        }
        v.push(p('*'));
        v.push(lit("5"));
        v.push(Token::Close(Delimiter::Brace));
        v
    };
    let cases: Vec<(Type, Vec<Token>, Vec<Token>)> = vec![
        (reference(Some("a"), false, vec![id("i32")]), vec![lit("5")], unsafe_ref(false)),
        (reference(None, false, vec![id("i32")]), vec![lit("5")], unsafe_ref(false)),
        (reference(Some("a"), true, vec![id("i32")]), vec![lit("5")], unsafe_ref(true)),
        (reference(None, true, vec![id("i32")]), vec![lit("5")], unsafe_ref(true)),
        (Type::Other(vec![id("T")]), a_dot_b(), a_dot_b()),
    ];
    for (ty, expr, output) in cases {
        assert_eq!(convert_from_pointer(&ty, expr).unwrap(), output);
    }
}

#[test]
fn to_tokens_of_reference_with_lifetime() {
    let ty = reference(Some("a"), true, vec![id("i32")]);
    assert_eq!(
        ty.to_tokens(),
        vec![p('&'), Token::Punct { ch: '\'', joint: true }, id("a"), id("mut"), id("i32")]
    );
}

#[test]
fn pointer_type_twice_is_pointer_type_once() {
    let ty = reference(Some("a"), true, vec![id("u8")]);
    let once = to_pointer_type(&ty).unwrap();
    let twice = to_pointer_type(&once).unwrap();
    assert_eq!(once, twice);
}
