//! The C++ code generated for one bridge file: collecting the tokens of the
//! file, generating the CXX header and source, and the files to write.

use vstd::prelude::*;
use vstd::string::*;
use vstd::utf8::encode_utf8;
use crate::cfg::{cfg_enabled, is_cfg_enabled};
use crate::text::{push_char, push_str, string_of};
use crate::tokens::{extend_tokens, Delimiter, Token, TokenView};

verus! {

/// The error type of the CXX code generator.
#[verifier::external_type_specification]
#[verifier::external_body]
pub struct ExCxxGenError(cxx_gen::Error);

/// C++ code generated for the QObjects of a bridge: a header and a source,
/// or only one of them.
#[derive(Debug, PartialEq, Eq)]
pub enum CppFragment {
    Pair { header: String, source: String },
    Header(String),
    Source(String),
}

/// The mathematical value of a `CppFragment`.
pub enum CppFragmentView {
    Pair { header: Seq<char>, source: Seq<char> },
    Header(Seq<char>),
    Source(Seq<char>),
}

impl DeepView for CppFragment {
    type V = CppFragmentView;

    open spec fn deep_view(&self) -> CppFragmentView {
        match self {
            CppFragment::Pair { header, source } => CppFragmentView::Pair { header: header@, source: source@ },
            CppFragment::Header(h) => CppFragmentView::Header(h@),
            CppFragment::Source(s) => CppFragmentView::Source(s@),
        }
    }
}

impl CppFragment {
    /// A copy of this fragment.
    pub fn copy(&self) -> (res: CppFragment)
        ensures
            res.deep_view() == self.deep_view(),
    {
        match self {
            CppFragment::Pair { header, source } => CppFragment::Pair { header: header.clone(), source: source.clone() },
            CppFragment::Header(h) => CppFragment::Header(h.clone()),
            CppFragment::Source(s) => CppFragment::Source(s.clone()),
        }
    }
}

/// What the CXX-Qt generator made of a `#[cxx_qt::bridge]` module: the stem
/// of the files for its C++ code, that C++ code, and the Rust code (a CXX
/// bridge and its glue) that stands in place of the module.
#[derive(Debug, PartialEq, Eq)]
pub struct GeneratedBridge {
    pub cxx_file_stem: String,
    pub cpp: CppFragment,
    pub rust: Vec<Token>,
}

/// One top-level item of a bridge file.
#[derive(Debug, PartialEq, Eq)]
pub enum CxxQtItem {
    /// A `#[cxx::bridge]` module, by its tokens.
    Cxx(Vec<Token>),
    /// A `#[cxx_qt::bridge]` module, as the CXX-Qt generator made it.
    CxxQt(GeneratedBridge),
    /// Any other item, by its tokens.
    Item(Vec<Token>),
}

/// The mathematical value of a `CxxQtItem`.
pub enum CxxQtItemView {
    Cxx(Seq<TokenView>),
    CxxQt { cxx_file_stem: Seq<char>, cpp: CppFragmentView, rust: Seq<TokenView> },
    Item(Seq<TokenView>),
}

impl DeepView for CxxQtItem {
    type V = CxxQtItemView;

    open spec fn deep_view(&self) -> CxxQtItemView {
        match self {
            CxxQtItem::Cxx(ts) => CxxQtItemView::Cxx(ts.deep_view()),
            CxxQtItem::CxxQt(b) => CxxQtItemView::CxxQt {
                cxx_file_stem: b.cxx_file_stem@,
                cpp: b.cpp.deep_view(),
                rust: b.rust.deep_view(),
            },
            CxxQtItem::Item(ts) => CxxQtItemView::Item(ts.deep_view()),
        }
    }
}

/// The state of collecting the items of a bridge file: the tokens so far,
/// the stem of the generated files, the C++ code of the CXX-Qt bridge, and
/// whether a second bridge module was met.
pub struct CollectState {
    pub tokens: Seq<TokenView>,
    pub file_ident: Seq<char>,
    pub cxx_qt: Option<CppFragmentView>,
    pub rejected: bool,
}

/// One step of collecting: a CXX bridge takes the file's stem as its file
/// stem, a CXX-Qt bridge takes the stem that the generator chose and brings
/// its C++ code; either is refused once a stem is set. Every item hands on its
/// tokens (for a CXX-Qt bridge, the generated Rust code).
pub open spec fn collect_step(st: CollectState, file_stem: Seq<char>, item: CxxQtItemView) -> CollectState {
    if st.rejected {
        st
    } else {
        match item {
            CxxQtItemView::Cxx(ts) => if st.file_ident.len() != 0 {
                CollectState { rejected: true, ..st }
            } else {
                CollectState { tokens: st.tokens + ts, file_ident: file_stem, ..st }
            },
            CxxQtItemView::CxxQt { cxx_file_stem, cpp, rust } => if st.file_ident.len() != 0 {
                CollectState { rejected: true, ..st }
            } else {
                CollectState { tokens: st.tokens + rust, file_ident: cxx_file_stem, cxx_qt: Some(cpp), rejected: false }
            },
            CxxQtItemView::Item(ts) => CollectState { tokens: st.tokens + ts, ..st },
        }
    }
}

/// Collecting the items of a bridge file, after its attributes `attrs`.
pub open spec fn collect(file_stem: Seq<char>, attrs: Seq<TokenView>, items: Seq<CxxQtItemView>) -> CollectState
    decreases items.len(),
{
    if items.len() == 0 {
        CollectState { tokens: attrs, file_ident: Seq::empty(), cxx_qt: None, rejected: false }
    } else {
        collect_step(collect(file_stem, attrs, items.drop_last()), file_stem, items.last())
    }
}

/// The errors of generating the C++ code of a bridge file.
#[derive(Debug)]
pub enum GeneratedError {
    /// The file holds more than one `#[cxx::bridge]` or `#[cxx_qt::bridge]` module.
    MultipleBridges,
    /// The collected tokens do not form valid Rust tokens.
    Lex,
    /// The CXX code generator refused the collected code.
    Cxx(cxx_gen::Error),
}

/// The tokens of a bridge file as handed on to the CXX code generator, with
/// the file stem and the C++ code of its CXX-Qt bridge.
#[derive(Debug, PartialEq, Eq)]
pub struct CollectedBridge {
    pub tokens: Vec<Token>,
    pub file_ident: String,
    pub cxx_qt: Option<CppFragment>,
}

/// Collects the tokens of a bridge file: its attributes, then each item in
/// turn. A file with more than one bridge module is refused.
pub fn collect_bridge_tokens(file_stem: &str, attrs: &Vec<Token>, items: &Vec<CxxQtItem>) -> (res: Result<CollectedBridge, GeneratedError>)
    ensures
        ({
            let st = collect(file_stem@, attrs.deep_view(), items.deep_view());
            match res {
                Ok(c) => {
                    &&& !st.rejected
                    &&& c.tokens.deep_view() == st.tokens
                    &&& c.file_ident@ == st.file_ident
                    &&& c.cxx_qt.is_some() == st.cxx_qt.is_some()
                    &&& (c.cxx_qt matches Some(f) ==> st.cxx_qt == Some(f.deep_view()))
                },
                Err(e) => st.rejected && e is MultipleBridges,
            }
        }),
{
    let mut tokens: Vec<Token> = Vec::new();
    extend_tokens(&mut tokens, attrs);
    assert(tokens.deep_view() =~= attrs.deep_view());
    let mut file_ident = String::new();
    let mut cxx_qt: Option<CppFragment> = None;
    let ghost iv = items.deep_view();
    let mut i: usize = 0;
    while i < items.len()
        invariant
            i <= items.len(),
            iv == items.deep_view(),
            ({
                let st = collect(file_stem@, attrs.deep_view(), iv.take(i as int));
                &&& !st.rejected
                &&& tokens.deep_view() == st.tokens
                &&& file_ident@ == st.file_ident
                &&& cxx_qt.is_some() == st.cxx_qt.is_some()
                &&& (cxx_qt matches Some(f) ==> st.cxx_qt == Some(f.deep_view()))
            }),
        decreases items.len() - i,
    {
        assert(iv.take(i + 1).drop_last() =~= iv.take(i as int));
        assert(iv.take(i + 1).last() == iv[i as int]);
        match &items[i] {
            CxxQtItem::Cxx(m) => {
                if file_ident.as_str().unicode_len() != 0 {
                    proof {
                        lemma_collect_rejected_stays(file_stem@, attrs.deep_view(), iv, i as int + 1);
                    }
                    return Err(GeneratedError::MultipleBridges);
                }
                file_ident = string_of(file_stem);
                extend_tokens(&mut tokens, m);
            },
            CxxQtItem::CxxQt(b) => {
                if file_ident.as_str().unicode_len() != 0 {
                    proof {
                        lemma_collect_rejected_stays(file_stem@, attrs.deep_view(), iv, i as int + 1);
                    }
                    return Err(GeneratedError::MultipleBridges);
                }
                cxx_qt = Some(b.cpp.copy());
                file_ident = b.cxx_file_stem.clone();
                extend_tokens(&mut tokens, &b.rust);
            },
            CxxQtItem::Item(t) => {
                extend_tokens(&mut tokens, t);
            },
        }
        i = i + 1;
    }
    assert(iv.take(items.len() as int) =~= iv);
    Ok(CollectedBridge { tokens, file_ident, cxx_qt })
}

/// Whether a bridge file holds at most one `#[cxx::bridge]` or
/// `#[cxx_qt::bridge]` module, so that its C++ code can be generated (a
/// file with more does not pass `collect_bridge_tokens`).
pub fn is_single_bridge_file(file_stem: &str, attrs: &Vec<Token>, items: &Vec<CxxQtItem>) -> (res: bool)
    ensures
        res == !collect(file_stem@, attrs.deep_view(), items.deep_view()).rejected,
{
    match collect_bridge_tokens(file_stem, attrs, items) {
        Ok(_) => true,
        Err(_) => false,
    }
}

/// Collecting starts with the file's attributes, and each further item that
/// is not refused appends its tokens to what was collected: a CXX bridge or
/// any other item its own tokens, a CXX-Qt bridge the Rust code (a CXX bridge)
/// that the CXX-Qt generator made for it. A CXX bridge sets the stem to the
/// file's stem, a CXX-Qt bridge to the stem the generator chose, and brings
/// its C++ code.
pub proof fn lemma_collect_appends_item_tokens(file_stem: Seq<char>, attrs: Seq<TokenView>, items: Seq<CxxQtItemView>, item: CxxQtItemView)
    requires
        !collect(file_stem, attrs, items.push(item)).rejected,
    ensures
        collect(file_stem, attrs, Seq::empty()).tokens == attrs,
        !collect(file_stem, attrs, items).rejected,
        ({
            let before = collect(file_stem, attrs, items);
            let after = collect(file_stem, attrs, items.push(item));
            match item {
                CxxQtItemView::Cxx(ts) => {
                    &&& after.tokens == before.tokens + ts
                    &&& after.file_ident == file_stem
                    &&& after.cxx_qt == before.cxx_qt
                },
                CxxQtItemView::CxxQt { cxx_file_stem, cpp, rust } => {
                    &&& after.tokens == before.tokens + rust
                    &&& after.file_ident == cxx_file_stem
                    &&& after.cxx_qt == Some(cpp)
                },
                CxxQtItemView::Item(ts) => {
                    &&& after.tokens == before.tokens + ts
                    &&& after.file_ident == before.file_ident
                    &&& after.cxx_qt == before.cxx_qt
                },
            }
        }),
{
    assert(items.push(item).drop_last() =~= items);
    assert(items.push(item).last() == item);
}

/// Once a step refuses, collecting further items keeps refusing.
proof fn lemma_collect_rejected_stays(file_stem: Seq<char>, attrs: Seq<TokenView>, items: Seq<CxxQtItemView>, n: int)
    requires
        0 <= n <= items.len(),
        collect(file_stem, attrs, items.take(n)).rejected,
    ensures
        collect(file_stem, attrs, items).rejected,
    decreases items.len() - n,
{
    if n < items.len() {
        assert(items.take(n + 1).drop_last() =~= items.take(n));
        lemma_collect_rejected_stays(file_stem, attrs, items, n + 1);
    } else {
        assert(items.take(n) =~= items);
    }
}


/// The opening character of a delimiter.
pub open spec fn open_char(d: Delimiter) -> char {
    match d {
        Delimiter::Parenthesis => '(',
        Delimiter::Brace => '{',
        Delimiter::Bracket => '[',
    }
}

/// The closing character of a delimiter.
pub open spec fn close_char(d: Delimiter) -> char {
    match d {
        Delimiter::Parenthesis => ')',
        Delimiter::Brace => '}',
        Delimiter::Bracket => ']',
    }
}

/// The source text of one token.
pub open spec fn token_text(t: TokenView) -> Seq<char> {
    match t {
        TokenView::Ident(s) => s,
        TokenView::Punct { ch, .. } => seq![ch],
        TokenView::Literal(s) => s,
        TokenView::Open(d) => seq![open_char(d)],
        TokenView::Close(d) => seq![close_char(d)],
    }
}

/// What follows a token in source text: nothing after a joint punctuation
/// character, a space after anything else.
pub open spec fn token_gap(t: TokenView) -> Seq<char> {
    if t matches TokenView::Punct { joint: true, .. } {
        Seq::empty()
    } else {
        seq![' ']
    }
}

/// The source text of a token stream.
pub open spec fn render(ts: Seq<TokenView>) -> Seq<char>
    decreases ts.len(),
{
    if ts.len() == 0 {
        Seq::empty()
    } else {
        render(ts.drop_last()) + token_text(ts.last()) + token_gap(ts.last())
    }
}

/// The source text of a token stream (see `render`).
pub fn render_tokens(ts: &Vec<Token>) -> (res: String)
    ensures
        res@ == render(ts.deep_view()),
{
    let mut s = String::new();
    let ghost v = ts.deep_view();
    let mut i: usize = 0;
    while i < ts.len()
        invariant
            i <= ts.len(),
            v == ts.deep_view(),
            s@ == render(v.take(i as int)),
        decreases ts.len() - i,
    {
        assert(v.take(i + 1).drop_last() =~= v.take(i as int));
        assert(v.take(i + 1).last() == v[i as int]);
        let ghost before = s@;
        match &ts[i] {
            Token::Ident(t) => {
                push_str(&mut s, t.as_str());
                push_char(&mut s, ' ');
            },
            Token::Punct { ch, joint } => {
                push_char(&mut s, *ch);
                if !*joint {
                    push_char(&mut s, ' ');
                }
            },
            Token::Literal(t) => {
                push_str(&mut s, t.as_str());
                push_char(&mut s, ' ');
            },
            Token::Open(d) => {
                let c = match d {
                    Delimiter::Parenthesis => '(',
                    Delimiter::Brace => '{',
                    Delimiter::Bracket => '[',
                };
                push_char(&mut s, c);
                push_char(&mut s, ' ');
            },
            Token::Close(d) => {
                let c = match d {
                    Delimiter::Parenthesis => ')',
                    Delimiter::Brace => '}',
                    Delimiter::Bracket => ']',
                };
                push_char(&mut s, c);
                push_char(&mut s, ' ');
            },
        }
        assert(s@ =~= before + token_text(v[i as int]) + token_gap(v[i as int]));
        i = i + 1;
    }
    assert(v.take(ts.len() as int) =~= v);
    s
}

/// The C++ header and source that the CXX code generator writes for a CXX
/// bridge.
#[derive(Debug, PartialEq, Eq)]
pub struct GeneratedCode {
    pub header: Vec<u8>,
    pub implementation: Vec<u8>,
}

/// The header and source (as bytes) that `cxx_gen::generate_header_and_cc`
/// writes for the Rust source text `source`, when each `#[cfg(..)]` in it is
/// decided by whether the cfg is one of `cfgs` (see `EnabledCfgs`); `None`
/// where the text is not valid Rust tokens or the generator refuses it.
pub uninterp spec fn cxx_bridge_code(source: Seq<char>, cfgs: Seq<(Seq<char>, Option<Seq<char>>)>) -> Option<(Seq<u8>, Seq<u8>)>;

/// The outcome of deciding one cfg for the CXX code generator.
#[verifier::external_type_specification]
#[verifier::external_body]
pub struct ExCfgResult(cxx_gen::CfgResult);

/// The outcome that tells the CXX code generator whether a cfg holds:
/// `CfgResult::True` for `true`, `CfgResult::False` for `false`.
pub uninterp spec fn cfg_outcome(enabled: bool) -> cxx_gen::CfgResult;

/// `CfgResult::True` where `enabled` holds, `CfgResult::False` otherwise.
/// Trusted: its result is `cfg_outcome(enabled)`; it only picks the variant.
#[verifier::external_body]
fn cfg_result(enabled: bool) -> (res: cxx_gen::CfgResult)
    ensures
        res == cfg_outcome(enabled),
{
    if enabled {
        cxx_gen::CfgResult::True
    } else {
        cxx_gen::CfgResult::False
    }
}

/// The cfg options enabled for the crate being built, each a name and,
/// where it has one, a value: `unix` is `("unix", None)`, `feature = "qt"`
/// is `("feature", Some("qt"))`. The CXX code generator asks it whether each
/// `#[cfg(..)]` of a bridge holds: a cfg holds exactly when it is one of them.
pub struct EnabledCfgs {
    pub cfgs: Vec<(String, Option<String>)>,
}

impl cxx_gen::CfgEvaluator for EnabledCfgs {
    fn eval(&self, name: &str, value: Option<&str>) -> (res: cxx_gen::CfgResult)
        ensures
            res == cfg_outcome(
                cfg_enabled(self.cfgs.deep_view(), name@, match value { Some(v) => Some(v@), None => None }),
            ),
    {
        cfg_result(is_cfg_enabled(&self.cfgs, name, value))
    }
}

/// The errors of the CXX code generator's wrapper.
#[derive(Debug)]
pub enum GenerateError {
    Lex,
    Cxx(cxx_gen::Error),
}

/// Calls `cxx_gen::generate_header_and_cc` on the tokens of the Rust source
/// text `source` (read with proc_macro2's `TokenStream::from_str`), with the
/// default options but for the cfg evaluator, which is `EnabledCfgs` over
/// `cfgs`. Trusted: the result is `cxx_bridge_code` of the text and the cfgs,
/// an error exactly where that is `None`; nothing more is said of it.
#[verifier::external_body]
fn generate_header_and_cc(source: &str, cfgs: &Vec<(String, Option<String>)>) -> (res: Result<GeneratedCode, GenerateError>)
    ensures
        match res {
            Ok(code) => cxx_bridge_code(source@, cfgs.deep_view()) == Some((code.header@, code.implementation@)),
            Err(_) => cxx_bridge_code(source@, cfgs.deep_view()) is None,
        },
{
    let tokens = match source.parse::<proc_macro2::TokenStream>() {
        Ok(tokens) => tokens,
        Err(_) => return Err(GenerateError::Lex),
    };
    let mut opt = cxx_gen::Opt::default();
    opt.cfg_evaluator = Box::new(EnabledCfgs { cfgs: cfgs.clone() });
    match cxx_gen::generate_header_and_cc(tokens, &opt) {
        Ok(code) => Ok(GeneratedCode { header: code.header, implementation: code.implementation }),
        Err(e) => Err(GenerateError::Cxx(e)),
    }
}

/// The C++ code generated for one bridge file: the QObject code of its
/// CXX-Qt bridge (if it has one), the CXX header and source, and the stem of
/// the files to write them to.
#[derive(Debug)]
pub struct GeneratedCpp {
    pub cxx_qt: Option<CppFragment>,
    pub cxx: GeneratedCode,
    pub file_ident: String,
}

impl GeneratedCpp {
    /// Generates the C++ code of a bridge file from its stem, its attributes
    /// and its items: the items are collected (see `collect_bridge_tokens`) and
    /// the CXX code generator runs on the source text of the collected tokens,
    /// deciding each `#[cfg(..)]` by the enabled cfg options `cfgs`. The file
    /// holds at most one bridge module (see `is_single_bridge_file`).
    pub fn new(file_stem: &str, attrs: &Vec<Token>, items: &Vec<CxxQtItem>, cfgs: &Vec<(String, Option<String>)>) -> (res: Result<GeneratedCpp, GeneratedError>)
        requires
            !collect(file_stem@, attrs.deep_view(), items.deep_view()).rejected,
        ensures
            ({
                let st = collect(file_stem@, attrs.deep_view(), items.deep_view());
                let code = cxx_bridge_code(render(st.tokens), cfgs.deep_view());
                match res {
                    Ok(g) => {
                        &&& g.file_ident@ == st.file_ident
                        &&& g.cxx_qt.is_some() == st.cxx_qt.is_some()
                        &&& (g.cxx_qt matches Some(f) ==> st.cxx_qt == Some(f.deep_view()))
                        &&& code == Some((g.cxx.header@, g.cxx.implementation@))
                    },
                    Err(e) => code is None && !(e is MultipleBridges),
                }
            }),
    {
        let collected = match collect_bridge_tokens(file_stem, attrs, items) {
            Ok(c) => c,
            Err(e) => return Err(e),
        };
        let source = render_tokens(&collected.tokens);
        match generate_header_and_cc(source.as_str(), cfgs) {
            Ok(cxx) => Ok(GeneratedCpp { cxx_qt: collected.cxx_qt, cxx, file_ident: collected.file_ident }),
            Err(GenerateError::Lex) => Err(GeneratedError::Lex),
            Err(GenerateError::Cxx(e)) => Err(GeneratedError::Cxx(e)),
        }
    }

    /// Whether the files of this code can be written: the QObject code, where
    /// there is some, has both a header and a source.
    pub open spec fn writable(&self) -> bool {
        self.cxx_qt matches Some(f) ==> f is Pair
    }

    /// Whether the files of this code can be written (see `writable`).
    pub fn is_writable(&self) -> (res: bool)
        ensures
            res == self.writable(),
    {
        match &self.cxx_qt {
            Some(CppFragment::Pair { .. }) => true,
            Some(_) => false,
            None => true,
        }
    }

    /// Where this code goes in `cpp_directory` and `header_directory`: the
    /// files to write, in order, and the paths of the generated files. For the
    /// QObject code (if any) `<ident>.cxxqt.h` in `header_directory` and
    /// `<ident>.cxxqt.cpp` in `cpp_directory`, then the CXX header
    /// `<ident>.cxx.h` and source `<ident>.cxx.cpp`. A fragment with only a
    /// header or only a source cannot be written (the build script panics
    /// there). The caller creates the two directories and writes the files.
    pub fn write_to_directories(&self, cpp_directory: &str, header_directory: &str) -> (res: (Vec<GeneratedFile>, GeneratedCppFilePaths))
        requires
            self.writable(),
        ensures
            ({
                let (files, paths) = res;
                let ident = self.file_ident@;
                let cxx_files = seq![
                    (generated_path(header_directory@, ident, ".cxx.h"@), self.cxx.header@),
                    (generated_path(cpp_directory@, ident, ".cxx.cpp"@), self.cxx.implementation@),
                ];
                &&& paths.plain_cpp@ == generated_path(cpp_directory@, ident, ".cxx.cpp"@)
                &&& match self.cxx_qt {
                    Some(CppFragment::Pair { header, source }) => {
                        &&& files.deep_view() == seq![
                            (generated_path(header_directory@, ident, ".cxxqt.h"@), encode_utf8(header@)),
                            (generated_path(cpp_directory@, ident, ".cxxqt.cpp"@), encode_utf8(source@)),
                        ] + cxx_files
                        &&& paths.qobject_header matches Some(p) && p@ == generated_path(header_directory@, ident, ".cxxqt.h"@)
                        &&& paths.qobject matches Some(p) && p@ == generated_path(cpp_directory@, ident, ".cxxqt.cpp"@)
                    },
                    _ => {
                        &&& files.deep_view() == cxx_files
                        &&& paths.qobject_header is None
                        &&& paths.qobject is None
                    },
                }
            }),
    {
        let mut files: Vec<GeneratedFile> = Vec::new();
        let mut qobject: Option<String> = None;
        let mut qobject_header: Option<String> = None;
        match &self.cxx_qt {
            Some(CppFragment::Pair { header, source }) => {
                let header_path = generated_file_path(header_directory, self.file_ident.as_str(), ".cxxqt.h");
                files.push(GeneratedFile { path: header_path.clone(), contents: header.as_str().as_bytes_vec() });
                qobject_header = Some(header_path);
                let cpp_path = generated_file_path(cpp_directory, self.file_ident.as_str(), ".cxxqt.cpp");
                files.push(GeneratedFile { path: cpp_path.clone(), contents: source.as_str().as_bytes_vec() });
                qobject = Some(cpp_path);
            },
            _ => {},
        }
        let ghost head = files.deep_view();
        let header_path = generated_file_path(header_directory, self.file_ident.as_str(), ".cxx.h");
        files.push(GeneratedFile { path: header_path, contents: copy_bytes(&self.cxx.header) });
        let cpp_path = generated_file_path(cpp_directory, self.file_ident.as_str(), ".cxx.cpp");
        files.push(GeneratedFile { path: cpp_path.clone(), contents: copy_bytes(&self.cxx.implementation) });
        assert(files.deep_view() =~= head + seq![
            (generated_path(header_directory@, self.file_ident@, ".cxx.h"@), self.cxx.header@),
            (generated_path(cpp_directory@, self.file_ident@, ".cxx.cpp"@), self.cxx.implementation@),
        ]);
        (files, GeneratedCppFilePaths { plain_cpp: cpp_path, qobject, qobject_header })
    }
}

/// A file to write: its path and its contents.
#[derive(Debug, PartialEq, Eq)]
pub struct GeneratedFile {
    pub path: String,
    pub contents: Vec<u8>,
}

impl DeepView for GeneratedFile {
    type V = (Seq<char>, Seq<u8>);

    open spec fn deep_view(&self) -> (Seq<char>, Seq<u8>) {
        (self.path@, self.contents@)
    }
}

/// The paths of the files generated for one bridge file: the CXX source,
/// and the QObject source and header where there are some.
#[derive(Debug, PartialEq, Eq)]
pub struct GeneratedCppFilePaths {
    pub plain_cpp: String,
    pub qobject: Option<String>,
    pub qobject_header: Option<String>,
}

/// The path `<directory>/<ident><suffix>`.
pub open spec fn generated_path(directory: Seq<char>, ident: Seq<char>, suffix: Seq<char>) -> Seq<char> {
    directory + seq!['/'] + ident + suffix
}

/// The path `<directory>/<ident><suffix>`.
fn generated_file_path(directory: &str, ident: &str, suffix: &str) -> (res: String)
    ensures
        res@ == generated_path(directory@, ident@, suffix@),
{
    let mut s = string_of(directory);
    push_char(&mut s, '/');
    push_str(&mut s, ident);
    push_str(&mut s, suffix);
    s
}

/// A copy of the bytes `v`.
fn copy_bytes(v: &Vec<u8>) -> (res: Vec<u8>)
    ensures
        res@ == v@,
{
    let mut res: Vec<u8> = Vec::new();
    let mut i: usize = 0;
    while i < v.len()
        invariant
            i <= v.len(),
            res@ == v@.take(i as int),
        decreases v.len() - i,
    {
        res.push(v[i]);
        assert(v@.take(i + 1) =~= v@.take(i as int).push(v@[i as int]));
        i = i + 1;
    }
    assert(v@.take(v.len() as int) =~= v@);
    res
}

} // verus!
