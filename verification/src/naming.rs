//! Names and paths of the artefacts that a CXX-Qt build produces.

use vstd::prelude::*;
use vstd::string::*;
use crate::strings::str_eq;
use crate::text::{push_char, push_str, replace_char, replace_chars, string_of};

verus! {

/// The name of the QML plugin of the module with the given URI: the URI with
/// every `.` replaced by `_`.
pub open spec fn plugin_name(uri: Seq<char>) -> Seq<char> {
    replace_char(uri, '.', '_')
}

/// The name of the QML plugin of the module with the given URI, such as
/// `com_kdab_cxx_qt_demo` for `com.kdab.cxx_qt.demo`.
pub fn plugin_name_from_uri(plugin_uri: &str) -> (res: String)
    ensures
        res@ == plugin_name(plugin_uri@),
        res@.len() == plugin_uri@.len(),
        !res@.contains('.'),
{
    let res = replace_chars(plugin_uri, '.', '_');
    assert(!res@.contains('.')) by {
        if res@.contains('.') {
            let i = choose|i: int| 0 <= i < res@.len() && res@[i] == '.';
            assert(res@[i] == (if plugin_uri@[i] == '.' { '_' } else { plugin_uri@[i] }));
        }
    }
    res
}

/// The name of the static library that holds a crate's generated C++ code.
pub open spec fn static_lib(crate_name: Seq<char>) -> Seq<char> {
    crate_name + "-cxxqt-generated"@
}

/// The name of the static library that holds the generated C++ code of the
/// crate `crate_name`: `<crate_name>-cxxqt-generated`.
pub fn static_lib_name(crate_name: &str) -> (res: String)
    ensures
        res@ == static_lib(crate_name@),
{
    let mut s = string_of(crate_name);
    push_str(&mut s, "-cxxqt-generated");
    s
}

/// `part` appended to the path `base`, as `Path::join` does it for paths with
/// `/` as separator: an absolute `part` replaces `base`; otherwise a separator
/// is put between them unless `base` is empty or already ends with one.
pub open spec fn path_join(base: Seq<char>, part: Seq<char>) -> Seq<char> {
    if part.len() > 0 && part[0] == '/' {
        part
    } else if base.len() == 0 {
        part
    } else if base.last() == '/' {
        base + part
    } else {
        base + seq!['/'] + part
    }
}

/// `part` appended to the path `base` (see `path_join`).
pub fn join_path(base: &str, part: &str) -> (res: String)
    ensures
        res@ == path_join(base@, part@),
{
    let pn = part.unicode_len();
    if pn > 0 && part.get_char(0) == '/' {
        return string_of(part);
    }
    let bn = base.unicode_len();
    if bn == 0 {
        return string_of(part);
    }
    let mut s = string_of(base);
    if base.get_char(bn - 1) != '/' {
        crate::text::push_char(&mut s, '/');
    }
    push_str(&mut s, part);
    s
}

/// The directory under which generated headers are placed: the export
/// directory where one is given (for a C++ build system), otherwise the
/// build's output directory; then `include` and the crate's name.
pub open spec fn header_root_path(export_dir: Option<Seq<char>>, out_dir: Seq<char>, crate_name: Seq<char>) -> Seq<char> {
    let base = match export_dir {
        Some(d) => d,
        None => out_dir,
    };
    path_join(path_join(base, "include"@), crate_name)
}

/// The directory under which generated headers are placed (see
/// `header_root_path`).
pub fn header_root(export_dir: Option<&str>, out_dir: &str, crate_name: &str) -> (res: String)
    ensures
        res@ == header_root_path(
            match export_dir {
                Some(d) => Some(d@),
                None => None,
            },
            out_dir@,
            crate_name@,
        ),
{
    let base = match export_dir {
        Some(d) => d,
        None => out_dir,
    };
    let inc_dir = join_path(base, "include");
    join_path(inc_dir.as_str(), crate_name)
}


/// The plugin name of a URI has the URI's length, and at each position the
/// URI's character, but `_` where the URI has a `.`: nothing else is changed
/// (letter case included).
pub proof fn lemma_plugin_name_keeps_characters(uri: Seq<char>)
    ensures
        plugin_name(uri).len() == uri.len(),
        forall|i: int|
            0 <= i < uri.len() ==> #[trigger] plugin_name(uri)[i] == (if uri[i] == '.' { '_' } else { uri[i] }),
{
}

/// The header root ends with the crate's name exactly as given, whatever the
/// directories.
pub proof fn lemma_header_root_ends_with_crate_name(export_dir: Option<Seq<char>>, out_dir: Seq<char>, crate_name: Seq<char>)
    ensures
        ({
            let r = header_root_path(export_dir, out_dir, crate_name);
            &&& crate_name.len() <= r.len()
            &&& r.subrange(r.len() - crate_name.len(), r.len() as int) == crate_name
        }),
{
    let base = match export_dir {
        Some(d) => d,
        None => out_dir,
    };
    let inc = path_join(base, "include"@);
    let r = path_join(inc, crate_name);
    if crate_name.len() > 0 && crate_name[0] == '/' {
    } else if inc.len() == 0 {
    } else if inc.last() == '/' {
        assert(r.subrange(r.len() - crate_name.len(), r.len() as int) =~= crate_name);
    } else {
        assert(r.subrange(r.len() - crate_name.len(), r.len() as int) =~= crate_name);
    }
}

/// For an export (or output) directory `d` that does not end with `/` and a
/// crate name that is not an absolute path, the header root is
/// `d/include/<crate_name>`; the export directory is used where there is one.
pub proof fn lemma_header_root_layout(export_dir: Option<Seq<char>>, out_dir: Seq<char>, crate_name: Seq<char>)
    requires
        ({
            let d = match export_dir {
                Some(d) => d,
                None => out_dir,
            };
            d.len() > 0 && d.last() != '/'
        }),
        !(crate_name.len() > 0 && crate_name[0] == '/'),
    ensures
        header_root_path(export_dir, out_dir, crate_name) == (match export_dir {
            Some(d) => d,
            None => out_dir,
        }) + seq!['/', 'i', 'n', 'c', 'l', 'u', 'd', 'e', '/'] + crate_name,
{
    reveal_strlit("include");
    let d = match export_dir {
        Some(d) => d,
        None => out_dir,
    };
    let inc = path_join(d, "include"@);
    assert(inc =~= d + seq!['/', 'i', 'n', 'c', 'l', 'u', 'd', 'e']);
    assert(inc.last() == 'e');
    assert(path_join(inc, crate_name) =~= d + seq!['/', 'i', 'n', 'c', 'l', 'u', 'd', 'e', '/'] + crate_name);
}

/// `acc` with the segment `cur` appended, unless `cur` is empty or `.`.
pub open spec fn flush_segment(acc: Seq<Seq<char>>, cur: Seq<char>) -> Seq<Seq<char>> {
    if cur.len() == 0 || cur == seq!['.'] {
        acc
    } else {
        acc.push(cur)
    }
}

/// Reading the path `p` character by character: the segments finished so far
/// (without empty and `.` segments), and the segment being read.
pub open spec fn scan_segments(p: Seq<char>) -> (Seq<Seq<char>>, Seq<char>)
    decreases p.len(),
{
    if p.len() == 0 {
        (Seq::empty(), Seq::empty())
    } else {
        let (acc, cur) = scan_segments(p.drop_last());
        if p.last() == '/' {
            (flush_segment(acc, cur), Seq::empty())
        } else {
            (acc, cur.push(p.last()))
        }
    }
}

/// The component that a path starts with before its named segments: the
/// root `/` of an absolute path, or `.` for a relative path that starts with
/// the segment `.`.
pub open spec fn path_prefix(p: Seq<char>) -> Seq<Seq<char>> {
    if p.len() > 0 && p[0] == '/' {
        seq![seq!['/']]
    } else if p.len() > 0 && p[0] == '.' && (p.len() == 1 || p[1] == '/') {
        seq![seq!['.']]
    } else {
        Seq::empty()
    }
}

/// The components of a path with `/` as separator, as `Path::components`
/// gives them: repeated separators, a trailing separator and `.` segments
/// (but a leading one) do not count.
pub open spec fn path_components(p: Seq<char>) -> Seq<Seq<char>> {
    let (acc, cur) = scan_segments(p);
    path_prefix(p) + flush_segment(acc, cur)
}

/// Whether two paths are equal as `Path` compares them: by their components.
pub open spec fn same_path(a: Seq<char>, b: Seq<char>) -> bool {
    path_components(a) == path_components(b)
}

/// Whether some path of `list` is the same path as `p`.
pub open spec fn contains_path(list: Seq<Seq<char>>, p: Seq<char>) -> bool {
    exists|i: int| 0 <= i < list.len() && same_path(#[trigger] list[i], p)
}

/// Whether `s` is the segment `.`.
fn is_dot(s: &str) -> (res: bool)
    ensures
        res == (s@ == seq!['.']),
{
    if s.unicode_len() == 1 {
        let c = s.get_char(0);
        if c == '.' {
            assert(s@ =~= seq!['.']);
        }
        c == '.'
    } else {
        false
    }
}

/// The components of the path `p` (see `path_components`).
pub fn path_components_of(p: &str) -> (res: Vec<String>)
    ensures
        res.deep_view() == path_components(p@),
{
    let n = p.unicode_len();
    let mut res: Vec<String> = Vec::new();
    if n > 0 && p.get_char(0) == '/' {
        res.push(string_of("/"));
        proof {
            reveal_strlit("/");
            assert("/"@ =~= seq!['/']);
            assert(res.deep_view() =~= seq![seq!['/']]);
        }
    } else if n > 0 && p.get_char(0) == '.' && (n == 1 || p.get_char(1) == '/') {
        res.push(string_of("."));
        proof {
            reveal_strlit(".");
            assert("."@ =~= seq!['.']);
            assert(res.deep_view() =~= seq![seq!['.']]);
        }
    }
    let ghost prefix = res.deep_view();
    assert(prefix =~= path_prefix(p@));
    let mut cur = String::new();
    let mut i: usize = 0;
    assert(p@.take(0) =~= Seq::<char>::empty());
    while i < n
        invariant
            n == p@.len(),
            i <= n,
            prefix == path_prefix(p@),
            (res.deep_view(), cur@) == ({
                let (acc, c) = scan_segments(p@.take(i as int));
                (prefix + acc, c)
            }),
        decreases n - i,
    {
        let c = p.get_char(i);
        assert(p@.take(i + 1).drop_last() =~= p@.take(i as int));
        assert(p@.take(i + 1).last() == c);
        if c == '/' {
            let segment = cur;
            cur = String::new();
            if segment.as_str().unicode_len() != 0 && !is_dot(segment.as_str()) {
                let ghost before = res.deep_view();
                res.push(segment);
                assert(res.deep_view() =~= before.push(segment@));
            }
            assert(cur@ =~= Seq::<char>::empty());
        } else {
            push_char(&mut cur, c);
        }
        let ghost (acc1, c1) = scan_segments(p@.take(i + 1));
        assert(res.deep_view() =~= prefix + acc1);
        i = i + 1;
    }
    assert(p@.take(n as int) =~= p@);
    if cur.as_str().unicode_len() != 0 && !is_dot(cur.as_str()) {
        let ghost before = res.deep_view();
        let ghost last = cur@;
        res.push(cur);
        assert(res.deep_view() =~= before.push(last));
    }
    let ghost (acc, c) = scan_segments(p@);
    assert(res.deep_view() =~= prefix + flush_segment(acc, c));
    res
}

/// Whether `a` and `b` are the same path (see `same_path`).
pub fn paths_equal(a: &str, b: &str) -> (res: bool)
    ensures
        res == same_path(a@, b@),
{
    let ca = path_components_of(a);
    let cb = path_components_of(b);
    if ca.len() != cb.len() {
        assert(ca.deep_view().len() != cb.deep_view().len());
        return false;
    }
    let mut i: usize = 0;
    while i < ca.len()
        invariant
            ca.len() == cb.len(),
            ca.deep_view() == path_components(a@),
            cb.deep_view() == path_components(b@),
            i <= ca.len(),
            forall|j: int| 0 <= j < i ==> ca.deep_view()[j] == cb.deep_view()[j],
        decreases ca.len() - i,
    {
        if !str_eq(ca[i].as_str(), cb[i].as_str()) {
            assert(ca.deep_view()[i as int] != cb.deep_view()[i as int]);
            assert(ca.deep_view() != cb.deep_view());
            return false;
        }
        i = i + 1;
    }
    assert(ca.deep_view() =~= cb.deep_view());
    true
}

/// Whether some path of `list` is the same path as `p` (see `contains_path`).
pub fn list_contains_path(list: &Vec<String>, p: &str) -> (res: bool)
    ensures
        res == contains_path(list.deep_view(), p@),
{
    let mut i: usize = 0;
    while i < list.len()
        invariant
            i <= list.len(),
            forall|j: int| 0 <= j < i ==> !same_path(#[trigger] list.deep_view()[j], p@),
        decreases list.len() - i,
    {
        if paths_equal(list[i].as_str(), p) {
            assert(same_path(list.deep_view()[i as int], p@));
            return true;
        }
        i = i + 1;
    }
    false
}


/// The file name of a path, as `Path::file_name` gives it: its last
/// component, unless the path is empty, the root, or ends in `.` or `..`.
pub open spec fn file_name(p: Seq<char>) -> Option<Seq<char>> {
    let cs = path_components(p);
    if cs.len() == 0 {
        None
    } else {
        let last = cs.last();
        if last == seq!['/'] || last == seq!['.'] || last == seq!['.', '.'] {
            None
        } else {
            Some(last)
        }
    }
}

/// The index of the last `.` in `s`, if there is one.
pub open spec fn last_dot(s: Seq<char>) -> Option<int>
    decreases s.len(),
{
    if s.len() == 0 {
        None
    } else if s.last() == '.' {
        Some(s.len() - 1)
    } else {
        last_dot(s.drop_last())
    }
}

/// The stem of a file name, as `Path::file_stem` takes it: the name without
/// the part from its last `.` on, unless that `.` is the name's first
/// character.
pub open spec fn stem_of(name: Seq<char>) -> Seq<char> {
    match last_dot(name) {
        Some(i) => if i == 0 { name } else { name.take(i) },
        None => name,
    }
}

/// The stem of the file name of a path (see `file_name` and `stem_of`).
pub open spec fn file_stem_of(p: Seq<char>) -> Option<Seq<char>> {
    match file_name(p) {
        Some(name) => Some(stem_of(name)),
        None => None,
    }
}

/// The stem of the file name of `path`, such as `lib` for `src/lib.rs`.
pub fn file_stem(path: &str) -> (res: Option<String>)
    ensures
        match res {
            Some(s) => file_stem_of(path@) == Some(s@),
            None => file_stem_of(path@) is None,
        },
{
    let cs = path_components_of(path);
    if cs.len() == 0 {
        return None;
    }
    let name = &cs[cs.len() - 1];
    let n = name.as_str().unicode_len();
    assert(name@ == path_components(path@).last());
    if n == 1 && name.as_str().get_char(0) == '/' {
        assert(name@ =~= seq!['/']);
        return None;
    }
    if n == 1 && name.as_str().get_char(0) == '.' {
        assert(name@ =~= seq!['.']);
        return None;
    }
    if n == 2 && name.as_str().get_char(0) == '.' && name.as_str().get_char(1) == '.' {
        assert(name@ =~= seq!['.', '.']);
        return None;
    }
    assert(name@ != seq!['/'] && name@ != seq!['.'] && name@ != seq!['.', '.']) by {
        if name@ == seq!['/'] { assert(name@[0] == '/'); }
        if name@ == seq!['.'] { assert(name@[0] == '.'); }
        if name@ == seq!['.', '.'] { assert(name@[0] == '.' && name@[1] == '.'); }
    }
    let mut i: usize = n;
    assert(name@.take(n as int) =~= name@);
    assert(file_name(path@) == Some(name@));
    while i > 0
        invariant
            n == name@.len(),
            file_name(path@) == Some(name@),
            i <= n,
            last_dot(name@) == last_dot(name@.take(i as int)),
        decreases i,
    {
        assert(name@.take(i as int).drop_last() =~= name@.take(i - 1));
        if name.as_str().get_char(i - 1) == '.' {
            assert(last_dot(name@.take(i as int)) == Some(i - 1));
            if i - 1 == 0 {
                return Some(name.clone());
            }
            let stem = name.as_str().substring_char(0, i - 1).to_owned();
            assert(name@.subrange(0, i - 1) =~= name@.take(i - 1));
            return Some(stem);
        }
        i = i - 1;
    }
    assert(name@.take(0) =~= Seq::<char>::empty());
    Some(name.clone())
}

} // verus!
