//! Rewrites between Rust reference types and raw pointer types, as used when
//! passing references across the C++ boundary.

use vstd::prelude::*;
use crate::tokens::{copy_tokens, extend_tokens, ident, punct, Delimiter, Token, TokenView};

verus! {

/// The error type of the parser whose results these rewrites take.
#[verifier::external_type_specification]
#[verifier::external_body]
pub struct ExSynError(syn::Error);

/// A Rust type as far as the pointer rewrites look into it.
#[derive(Debug, PartialEq, Eq)]
pub enum Type {
    /// `&'lifetime mut elem`; `lifetime` is the name without the apostrophe.
    Reference { lifetime: Option<String>, mutable: bool, elem: Vec<Token> },
    /// `*const elem` or `*mut elem`.
    Ptr { mutable: bool, elem: Vec<Token> },
    /// Any other type, by its tokens.
    Other(Vec<Token>),
}

/// The mathematical value of a `Type`.
pub enum TypeView {
    Reference { lifetime: Option<Seq<char>>, mutable: bool, elem: Seq<TokenView> },
    Ptr { mutable: bool, elem: Seq<TokenView> },
    Other(Seq<TokenView>),
}

impl DeepView for Type {
    type V = TypeView;

    open spec fn deep_view(&self) -> TypeView {
        match self {
            Type::Reference { lifetime, mutable, elem } => TypeView::Reference {
                lifetime: match lifetime {
                    Some(l) => Some(l@),
                    None => None,
                },
                mutable: *mutable,
                elem: elem.deep_view(),
            },
            Type::Ptr { mutable, elem } => TypeView::Ptr { mutable: *mutable, elem: elem.deep_view() },
            Type::Other(ts) => TypeView::Other(ts.deep_view()),
        }
    }
}

/// The keyword that follows `*` in a pointer type.
pub open spec fn pointer_keyword(mutable: bool) -> Seq<char> {
    if mutable { "mut"@ } else { "const"@ }
}

/// The tokens of a type.
pub open spec fn type_tokens(t: TypeView) -> Seq<TokenView> {
    match t {
        TypeView::Reference { lifetime, mutable, elem } =>
            seq![punct('&')]
            + (match lifetime {
                Some(l) => seq![TokenView::Punct { ch: '\'', joint: true }, ident(l)],
                None => Seq::empty(),
            })
            + (if mutable { seq![ident("mut"@)] } else { Seq::empty() })
            + elem,
        TypeView::Ptr { mutable, elem } => seq![punct('*'), ident(pointer_keyword(mutable))] + elem,
        TypeView::Other(ts) => ts,
    }
}

/// The pointer type that stands for a reference type: `&'a T` becomes
/// `*const T`, `&'a mut T` becomes `*mut T`; any other type is kept.
pub open spec fn pointer_type_of(t: TypeView) -> TypeView {
    match t {
        TypeView::Reference { lifetime, mutable, elem } => TypeView::Ptr { mutable, elem },
        _ => t,
    }
}

/// The expression `expr` cast to the pointer type of `t` when `t` is a
/// reference: `expr as *const T`; otherwise `expr` itself.
pub open spec fn to_pointer_expr(t: TypeView, expr: Seq<TokenView>) -> Seq<TokenView> {
    match t {
        TypeView::Reference { .. } => expr + seq![ident("as"@)] + type_tokens(pointer_type_of(t)),
        _ => expr,
    }
}

/// The expression that turns the pointer `expr` back into the reference type
/// `t`: `unsafe { &*expr }` or `unsafe { &mut *expr }`; for any other type,
/// `expr` itself.
pub open spec fn from_pointer_expr(t: TypeView, expr: Seq<TokenView>) -> Seq<TokenView> {
    match t {
        TypeView::Reference { mutable, .. } =>
            seq![ident("unsafe"@), TokenView::Open(Delimiter::Brace), punct('&')]
            + (if mutable { seq![ident("mut"@)] } else { Seq::empty() })
            + seq![punct('*')]
            + expr
            + seq![TokenView::Close(Delimiter::Brace)],
        _ => expr,
    }
}

impl Type {
    /// A copy of this type.
    pub fn copy(&self) -> (res: Type)
        ensures
            res.deep_view() == self.deep_view(),
    {
        match self {
            Type::Reference { lifetime, mutable, elem } => {
                let l = match lifetime {
                    Some(l) => Some(l.clone()),
                    None => None,
                };
                Type::Reference { lifetime: l, mutable: *mutable, elem: copy_tokens(elem) }
            },
            Type::Ptr { mutable, elem } => Type::Ptr { mutable: *mutable, elem: copy_tokens(elem) },
            Type::Other(ts) => Type::Other(copy_tokens(ts)),
        }
    }

    /// The tokens of this type.
    pub fn to_tokens(&self) -> (res: Vec<Token>)
        ensures
            res.deep_view() == type_tokens(self.deep_view()),
    {
        let mut res: Vec<Token> = Vec::new();
        match self {
            Type::Reference { lifetime, mutable, elem } => {
                res.push(Token::punct('&'));
                match lifetime {
                    Some(l) => {
                        res.push(Token::Punct { ch: '\'', joint: true });
                        res.push(Token::Ident(l.clone()));
                    },
                    None => {},
                }
                if *mutable {
                    res.push(Token::ident("mut"));
                }
                extend_tokens(&mut res, elem);
            },
            Type::Ptr { mutable, elem } => {
                res.push(Token::punct('*'));
                if *mutable {
                    res.push(Token::ident("mut"));
                } else {
                    res.push(Token::ident("const"));
                }
                extend_tokens(&mut res, elem);
            },
            Type::Other(ts) => {
                extend_tokens(&mut res, ts);
            },
        }
        assert(res.deep_view() =~= type_tokens(self.deep_view()));
        res
    }
}

/// The pointer type that stands for `ty`: `&T` and `&'a T` give `*const T`,
/// `&mut T` and `&'a mut T` give `*mut T`; any other type is returned as it is.
pub fn to_pointer_type(ty: &Type) -> (res: Result<Type, syn::Error>)
    ensures
        res matches Ok(t) && t.deep_view() == pointer_type_of(ty.deep_view()),
{
    match ty {
        Type::Reference { lifetime: _, mutable, elem } => {
            Ok(Type::Ptr { mutable: *mutable, elem: copy_tokens(elem) })
        },
        other => Ok(other.copy()),
    }
}

/// Casts the expression `expr` of type `ty` to the pointer type of `ty` when
/// `ty` is a reference (`expr as *const T`); otherwise returns `expr`.
pub fn convert_to_pointer(ty: &Type, expr: Vec<Token>) -> (res: Result<Vec<Token>, syn::Error>)
    ensures
        res matches Ok(ts) && ts.deep_view() == to_pointer_expr(ty.deep_view(), expr.deep_view()),
{
    match ty {
        Type::Reference { .. } => {
            let pointer_type = match to_pointer_type(ty) {
                Ok(t) => t,
                Err(e) => { return Err(e); },
            };
            let mut res = expr;
            res.push(Token::ident("as"));
            let tail = pointer_type.to_tokens();
            extend_tokens(&mut res, &tail);
            Ok(res)
        },
        _ => Ok(expr),
    }
}

/// Turns the pointer expression `expr` back into a reference of the reference
/// type `target_ty` (`unsafe { &*expr }`, `unsafe { &mut *expr }`); for any
/// other type returns `expr`.
pub fn convert_from_pointer(target_ty: &Type, expr: Vec<Token>) -> (res: Result<Vec<Token>, syn::Error>)
    ensures
        res matches Ok(ts) && ts.deep_view() == from_pointer_expr(target_ty.deep_view(), expr.deep_view()),
{
    match target_ty {
        Type::Reference { mutable, .. } => {
            let mut res: Vec<Token> = Vec::new();
            res.push(Token::ident("unsafe"));
            res.push(Token::Open(Delimiter::Brace));
            res.push(Token::punct('&'));
            if *mutable {
                res.push(Token::ident("mut"));
            }
            res.push(Token::punct('*'));
            let ghost head = seq![ident("unsafe"@), TokenView::Open(Delimiter::Brace), punct('&')]
                + (if *mutable { seq![ident("mut"@)] } else { Seq::empty() })
                + seq![punct('*')];
            assert(res.deep_view() =~= head);
            extend_tokens(&mut res, &expr);
            let ghost mid = res.deep_view();
            res.push(Token::Close(Delimiter::Brace));
            assert(res.deep_view() =~= mid.push(TokenView::Close(Delimiter::Brace)));
            assert(res.deep_view() =~= from_pointer_expr(target_ty.deep_view(), expr.deep_view()));
            Ok(res)
        },
        _ => Ok(expr),
    }
}

/// Taking the pointer type twice changes nothing: a pointer type is no
/// reference, so it is kept.
pub proof fn lemma_pointer_type_idempotent(t: TypeView)
    ensures
        pointer_type_of(pointer_type_of(t)) == pointer_type_of(t),
{
}

/// A type that is not a reference passes through both conversions unchanged.
pub proof fn lemma_non_reference_unchanged(t: TypeView, expr: Seq<TokenView>)
    requires
        !(t is Reference),
    ensures
        to_pointer_expr(t, expr) == expr,
        from_pointer_expr(t, expr) == expr,
        pointer_type_of(t) == t,
{
}

/// The pointer type of a reference `&'a T` or `&'a mut T` is `*const T` or
/// `*mut T` with exactly the element tokens `T` of the reference (spacing
/// included); its tokens are `*`, `const` or `mut`, then those of `T`; and the
/// cast of an expression to it is `expr as *const T` or `expr as *mut T`.
pub proof fn lemma_pointer_type_keeps_element(lifetime: Option<Seq<char>>, mutable: bool, elem: Seq<TokenView>, expr: Seq<TokenView>)
    ensures
        ({
            let r = TypeView::Reference { lifetime, mutable, elem };
            let keyword = if mutable { "mut"@ } else { "const"@ };
            &&& pointer_type_of(r) == TypeView::Ptr { mutable, elem }
            &&& type_tokens(pointer_type_of(r)) == seq![punct('*'), ident(keyword)] + elem
            &&& to_pointer_expr(r, expr) == expr + seq![ident("as"@), punct('*'), ident(keyword)] + elem
        }),
{
    let r = TypeView::Reference { lifetime, mutable, elem };
    let keyword = if mutable { "mut"@ } else { "const"@ };
    assert(to_pointer_expr(r, expr) =~= expr + seq![ident("as"@), punct('*'), ident(keyword)] + elem);
}

} // verus!
