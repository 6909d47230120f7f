//! Comparison and copying of strings and lists of strings.

use vstd::prelude::*;
use vstd::string::*;

verus! {

/// Whether `a` and `b` hold the same characters.
pub fn str_eq(a: &str, b: &str) -> (res: bool)
    ensures
        res == (a@ == b@),
{
    let n = a.unicode_len();
    if n != b.unicode_len() {
        return false;
    }
    let mut i: usize = 0;
    while i < n
        invariant
            n == a@.len() == b@.len(),
            i <= n,
            a@.take(i as int) == b@.take(i as int),
        decreases n - i,
    {
        if a.get_char(i) != b.get_char(i) {
            assert(a@[i as int] != b@[i as int]);
            return false;
        }
        assert(a@.take(i + 1) =~= a@.take(i as int).push(a@[i as int]));
        assert(b@.take(i + 1) =~= b@.take(i as int).push(b@[i as int]));
        i = i + 1;
    }
    assert(a@.take(n as int) =~= a@);
    assert(b@.take(n as int) =~= b@);
    true
}

/// Whether `v` holds a string equal to `s`.
pub fn contains_str(v: &Vec<String>, s: &str) -> (res: bool)
    ensures
        res == v.deep_view().contains(s@),
{
    let mut i: usize = 0;
    while i < v.len()
        invariant
            i <= v.len(),
            forall|j: int| 0 <= j < i ==> v.deep_view()[j] != s@,
        decreases v.len() - i,
    {
        if str_eq(v[i].as_str(), s) {
            assert(v.deep_view()[i as int] == s@);
            return true;
        }
        i = i + 1;
    }
    false
}

/// A copy of the list of strings `v`.
pub fn copy_strings(v: &Vec<String>) -> (res: Vec<String>)
    ensures
        res.deep_view() == v.deep_view(),
{
    let mut res: Vec<String> = Vec::new();
    let mut i: usize = 0;
    while i < v.len()
        invariant
            i <= v.len(),
            res.deep_view() == v.deep_view().take(i as int),
        decreases v.len() - i,
    {
        let ghost before = res.deep_view();
        res.push(v[i].clone());
        assert(res.deep_view() =~= before.push(v.deep_view()[i as int]));
        assert(v.deep_view().take(i + 1) =~= v.deep_view().take(i as int).push(v.deep_view()[i as int]));
        i = i + 1;
    }
    assert(v.deep_view().take(v.len() as int) =~= v.deep_view());
    res
}

/// `s` added to the set `v` (a list without duplicates): `v` is unchanged
/// when it already holds `s`, otherwise `s` is appended.
pub open spec fn set_insert(v: Seq<Seq<char>>, s: Seq<char>) -> Seq<Seq<char>> {
    if v.contains(s) { v } else { v.push(s) }
}

/// Adds `s` to the set `v` (see `set_insert`).
pub fn insert_unique(v: &mut Vec<String>, s: String)
    ensures
        final(v).deep_view() == set_insert(old(v).deep_view(), s@),
        old(v).deep_view().no_duplicates() ==> final(v).deep_view().no_duplicates(),
{
    if !contains_str(v, s.as_str()) {
        let ghost before = v.deep_view();
        v.push(s);
        assert(v.deep_view() =~= before.push(s@));
    }
}

/// All strings of `vs` added in turn to the set `v` (see `set_insert`).
pub open spec fn set_extend(v: Seq<Seq<char>>, vs: Seq<Seq<char>>) -> Seq<Seq<char>>
    decreases vs.len(),
{
    if vs.len() == 0 {
        v
    } else {
        set_insert(set_extend(v, vs.drop_last()), vs.last())
    }
}

/// Adds every string of `vs` to the set `v` (see `set_extend`).
pub fn extend_unique(v: &mut Vec<String>, vs: Vec<String>)
    ensures
        final(v).deep_view() == set_extend(old(v).deep_view(), vs.deep_view()),
        old(v).deep_view().no_duplicates() ==> final(v).deep_view().no_duplicates(),
{
    let ghost start = v.deep_view();
    let mut i: usize = 0;
    assert(vs.deep_view().take(0) =~= Seq::<Seq<char>>::empty());
    while i < vs.len()
        invariant
            i <= vs.len(),
            v.deep_view() == set_extend(start, vs.deep_view().take(i as int)),
            start.no_duplicates() ==> v.deep_view().no_duplicates(),
        decreases vs.len() - i,
    {
        insert_unique(v, vs[i].clone());
        assert(vs.deep_view().take(i + 1).drop_last() =~= vs.deep_view().take(i as int));
        i = i + 1;
    }
    assert(vs.deep_view().take(vs.len() as int) =~= vs.deep_view());
}

/// Appends copies of all strings of `vs` to `v`.
pub fn extend_strings(v: &mut Vec<String>, vs: &Vec<String>)
    ensures
        final(v).deep_view() == old(v).deep_view() + vs.deep_view(),
{
    let ghost start = v.deep_view();
    let mut i: usize = 0;
    while i < vs.len()
        invariant
            i <= vs.len(),
            v.deep_view() == start + vs.deep_view().take(i as int),
        decreases vs.len() - i,
    {
        let ghost before = v.deep_view();
        v.push(vs[i].clone());
        assert(v.deep_view() =~= before.push(vs.deep_view()[i as int]));
        assert(vs.deep_view().take(i + 1) =~= vs.deep_view().take(i as int).push(vs.deep_view()[i as int]));
        i = i + 1;
    }
    assert(vs.deep_view().take(vs.len() as int) =~= vs.deep_view());
}

} // verus!
