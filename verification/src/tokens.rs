//! A flat model of Rust token streams: identifiers, punctuation with its
//! spacing, literals, and the opening and closing delimiters of groups.

use vstd::prelude::*;

verus! {

/// The delimiter of a token group.
#[derive(Clone, Copy, Debug, PartialEq, Eq, Structural)]
pub enum Delimiter {
    Parenthesis,
    Brace,
    Bracket,
}

/// One token. A group `( .. )` is written as `Open`, the inner tokens, `Close`.
/// A `Punct` is `joint` when it is immediately followed by another punctuation
/// character of the same operator (the first `:` of `::`, the `'` of a lifetime).
#[derive(Debug, PartialEq, Eq)]
pub enum Token {
    Ident(String),
    Punct { ch: char, joint: bool },
    Literal(String),
    Open(Delimiter),
    Close(Delimiter),
}

/// The mathematical value of a token.
pub enum TokenView {
    Ident(Seq<char>),
    Punct { ch: char, joint: bool },
    Literal(Seq<char>),
    Open(Delimiter),
    Close(Delimiter),
}

impl DeepView for Token {
    type V = TokenView;

    open spec fn deep_view(&self) -> TokenView {
        match self {
            Token::Ident(s) => TokenView::Ident(s@),
            Token::Punct { ch, joint } => TokenView::Punct { ch: *ch, joint: *joint },
            Token::Literal(s) => TokenView::Literal(s@),
            Token::Open(d) => TokenView::Open(*d),
            Token::Close(d) => TokenView::Close(*d),
        }
    }
}

/// A punctuation character that stands alone.
pub open spec fn punct(ch: char) -> TokenView {
    TokenView::Punct { ch, joint: false }
}

/// The identifier with the text `s`.
pub open spec fn ident(s: Seq<char>) -> TokenView {
    TokenView::Ident(s)
}

impl Token {
    /// A copy of this token.
    pub fn copy(&self) -> (res: Token)
        ensures
            res.deep_view() == self.deep_view(),
    {
        match self {
            Token::Ident(s) => Token::Ident(s.clone()),
            Token::Punct { ch, joint } => Token::Punct { ch: *ch, joint: *joint },
            Token::Literal(s) => Token::Literal(s.clone()),
            Token::Open(d) => Token::Open(*d),
            Token::Close(d) => Token::Close(*d),
        }
    }

    /// The identifier token with the text `s`.
    pub fn ident(s: &str) -> (res: Token)
        ensures
            res.deep_view() == ident(s@),
    {
        let mut t = String::new();
        t.append(s);
        Token::Ident(t)
    }

    /// The punctuation token `ch`, standing alone.
    pub fn punct(ch: char) -> (res: Token)
        ensures
            res.deep_view() == punct(ch),
    {
        Token::Punct { ch, joint: false }
    }
}

/// Appends copies of all tokens of `from` to `to`.
pub fn extend_tokens(to: &mut Vec<Token>, from: &Vec<Token>)
    ensures
        final(to).deep_view() == old(to).deep_view() + from.deep_view(),
{
    let ghost start = to.deep_view();
    let mut i: usize = 0;
    while i < from.len()
        invariant
            i <= from.len(),
            to.deep_view() == start + from.deep_view().take(i as int),
        decreases from.len() - i,
    {
        let t = from[i].copy();
        let ghost before = to.deep_view();
        to.push(t);
        assert(to.deep_view() =~= before.push(from.deep_view()[i as int]));
        i = i + 1;
        assert(from.deep_view().take(i as int) =~= from.deep_view().take(i - 1).push(from.deep_view()[i - 1]));
    }
    assert(from.deep_view().take(i as int) =~= from.deep_view());
}

/// A copy of the token stream `from`.
pub fn copy_tokens(from: &Vec<Token>) -> (res: Vec<Token>)
    ensures
        res.deep_view() == from.deep_view(),
{
    let mut res: Vec<Token> = Vec::new();
    extend_tokens(&mut res, from);
    res
}

/// The source text of the string literal that `proc_macro2::Literal::string`
/// makes for `value` (the form `quote!` gives a `String` in a bridge).
pub uninterp spec fn string_literal_text(value: Seq<char>) -> Seq<char>;

/// The text of the string literal for `value`, as `proc_macro2` writes it
/// (`Literal::string(value).to_string()`). Trusted: the result is
/// `string_literal_text(value)`; nothing more is said of it.
#[verifier::external_body]
pub(crate) fn string_literal(value: &str) -> (res: String)
    ensures
        res@ == string_literal_text(value@),
{
    proc_macro2::Literal::string(value).to_string()
}

} // verus!
