//! The cargo `rustc-cfg` and `rustc-check-cfg` directives that tell the Rust
//! compiler which Qt version a crate is built against.

use vstd::prelude::*;
use crate::strings::str_eq;
use crate::text::{decimal, join, quoted, push_char, push_decimal, push_escaped_str, push_str, replace_char, replace_chars, string_of};

verus! {

/// The version of the Qt installation that is built against.
#[derive(Clone, Copy, Debug, PartialEq, Eq, Structural)]
pub struct SemVer {
    pub major: u64,
    pub minor: u64,
    pub patch: u64,
}

/// One directive for cargo: a line to print on standard output; where the
/// directive defines a cfg, the cfg option it enables (its name, and its
/// value where it has one), which decides the `#[cfg(..)]` attributes of the
/// bridges generated later in the same build script; and the environment
/// variable (name and value) that makes that cfg visible to other code that
/// reads cargo's `CARGO_CFG_` variables in the same build script.
#[derive(Debug, PartialEq, Eq)]
pub struct CfgDirective {
    pub line: String,
    pub cfg: Option<(String, Option<String>)>,
    pub env: Option<(String, String)>,
}

/// The mathematical value of a directive.
pub type CfgDirectiveView = (Seq<char>, Option<(Seq<char>, Option<Seq<char>>)>, Option<(Seq<char>, Seq<char>)>);

impl DeepView for CfgDirective {
    type V = CfgDirectiveView;

    open spec fn deep_view(&self) -> CfgDirectiveView {
        (
            self.line@,
            self.cfg.deep_view(),
            match self.env {
                Some((k, v)) => Some((k@, v@)),
                None => None,
            },
        )
    }
}

/// The directive that sets the cfg `key` (to `value` where there is one):
/// the line `cargo:rustc-cfg=key` or `cargo:rustc-cfg=key="value"`, the cfg
/// option `key` (with `value`), and the variable `CARGO_CFG_key` set to
/// `value`, or to `true` where there is none.
pub open spec fn cfg_define(key: Seq<char>, value: Option<Seq<char>>) -> CfgDirectiveView {
    (
        match value {
            Some(v) => "cargo:rustc-cfg="@ + key + "=\""@ + v + "\""@,
            None => "cargo:rustc-cfg="@ + key,
        },
        Some((key, value)),
        Some(
            (
                "CARGO_CFG_"@ + key,
                match value {
                    Some(v) => v,
                    None => "true"@,
                },
            ),
        ),
    )
}

/// The directive that declares the cfg `key` to cargo's cfg checking, with the
/// given list of allowed values where there is one:
/// `cargo:rustc-check-cfg=cfg(key)` or
/// `cargo:rustc-check-cfg=cfg(key, values("a", "b"))`. It enables no cfg
/// and sets no variable.
pub open spec fn cfg_check(key: Seq<char>, values: Option<Seq<Seq<char>>>) -> CfgDirectiveView {
    (
        match values {
            Some(vs) => "cargo:rustc-check-cfg=cfg("@ + key + ", values("@ + join(
                vs.map_values(|v: Seq<char>| quoted(v)),
                ", "@,
            ) + "))"@,
            None => "cargo:rustc-check-cfg=cfg("@ + key + ")"@,
        },
        None,
        None,
    )
}

/// The directive that defines the cfg `key`, with `value` where there is one.
pub fn define_cfg_variable(key: String, value: Option<&str>) -> (res: CfgDirective)
    ensures
        res.deep_view() == cfg_define(
            key@,
            match value {
                Some(v) => Some(v@),
                None => None,
            },
        ),
{
    let mut line = string_of("cargo:rustc-cfg=");
    push_str(&mut line, key.as_str());
    let mut env_key = string_of("CARGO_CFG_");
    push_str(&mut env_key, key.as_str());
    let (cfg_value, env_value) = match value {
        Some(v) => {
            push_str(&mut line, "=\"");
            push_str(&mut line, v);
            push_str(&mut line, "\"");
            (Some(string_of(v)), string_of(v))
        },
        None => (None, string_of("true")),
    };
    let cfg_key = key.clone();
    CfgDirective { line, cfg: Some((cfg_key, cfg_value)), env: Some((env_key, env_value)) }
}

/// The directive that declares the cfg `key` to cargo, with its allowed values
/// where there is a list of them.
pub fn define_cfg_check_variable(key: String, values: Option<Vec<&str>>) -> (res: CfgDirective)
    ensures
        res.deep_view() == cfg_check(
            key@,
            match values {
                Some(vs) => Some(vs@.map_values(|v: &str| v@)),
                None => None,
            },
        ),
{
    let mut line = string_of("cargo:rustc-check-cfg=cfg(");
    push_str(&mut line, key.as_str());
    match values {
        Some(vs) => {
            push_str(&mut line, ", values(");
            let ghost start = line@;
            let ghost all = vs@.map_values(|v: &str| quoted(v@));
            let mut i: usize = 0;
            assert(all.take(0) =~= Seq::<Seq<char>>::empty());
            while i < vs.len()
                invariant
                    i <= vs.len(),
                    all == vs@.map_values(|v: &str| quoted(v@)),
                    line@ == start + join(all.take(i as int), ", "@),
                decreases vs.len() - i,
            {
                let ghost before = line@;
                if i > 0 {
                    push_str(&mut line, ", ");
                }
                push_char(&mut line, '"');
                push_escaped_str(&mut line, vs[i]);
                push_char(&mut line, '"');
                proof {
                    reveal_strlit("\"");
                }
                assert(all.take(i + 1).drop_last() =~= all.take(i as int));
                assert(all.take(i + 1).last() == quoted(vs@[i as int]@));
                assert(line@ =~= before + (if i > 0 { ", "@ } else { Seq::empty() }) + quoted(vs@[i as int]@));
                if i == 0 {
                    assert(join(all.take(1), ", "@) == all.take(1)[0]);
                } else {
                    assert(join(all.take(i + 1), ", "@) == join(all.take(i as int), ", "@) + ", "@ + quoted(vs@[i as int]@));
                }
                assert(line@ =~= start + join(all.take(i + 1), ", "@));
                i = i + 1;
            }
            assert(all.take(vs.len() as int) =~= all);
            assert(vs@.map_values(|v: &str| v@).map_values(|v: Seq<char>| quoted(v)) =~= all);
            push_str(&mut line, "))");
        },
        None => {
            push_str(&mut line, ")");
        },
    }
    CfgDirective { line, cfg: None, env: None }
}


/// The cfg that carries the major version of Qt.
pub open spec fn major_key() -> Seq<char> {
    "cxxqt_qt_version_major"@
}

/// The cfg `cxxqt_qt_version_at_least_<major>`.
pub open spec fn at_least_major_key(major: nat) -> Seq<char> {
    "cxxqt_qt_version_at_least_"@ + decimal(major)
}

/// The cfg `cxxqt_qt_version_at_least_<major>_<minor>`.
pub open spec fn at_least_minor_key(major: nat, minor: nat) -> Seq<char> {
    "cxxqt_qt_version_at_least_"@ + decimal(major) + "_"@ + decimal(minor)
}

/// The `j`-th version cfg declared to cargo: for each major version 5, 6 and 7
/// in turn, `at_least_<major>` and then `at_least_<major>_<minor>` for minor
/// versions 0 to 99.
pub open spec fn checked_key(j: int) -> Seq<char> {
    let major = 5 + j / 101;
    let r = j % 101;
    if r == 0 {
        at_least_major_key(major as nat)
    } else {
        at_least_minor_key(major as nat, (r - 1) as nat)
    }
}

/// All version cfgs that are declared to cargo, in order.
pub open spec fn checked_version_keys() -> Seq<Seq<char>> {
    Seq::new(303, |j: int| checked_key(j))
}

/// The version cfgs that are set for Qt `major.minor`, in order:
/// `at_least_<major>_<m>` for every `m` from 0 to `minor`, then
/// `at_least_<m>` for every `m` from 5 to `major`.
pub open spec fn defined_version_keys(major: nat, minor: nat) -> Seq<Seq<char>> {
    Seq::new(minor + 1, |m: int| at_least_minor_key(major, m as nat)) + Seq::new(
        if major >= 5 { (major - 4) as nat } else { 0 },
        |k: int| at_least_major_key((5 + k) as nat),
    )
}

/// The directives for Qt `major.minor`: the major version cfg (declared with
/// the values 5 and 6, then set), every version cfg declared, then the
/// version cfgs that hold set.
pub open spec fn qt_version_cfg(major: nat, minor: nat) -> Seq<CfgDirectiveView> {
    seq![
        cfg_check(major_key(), Some(seq!["5"@, "6"@])),
        cfg_define(major_key(), Some(decimal(major))),
    ] + checked_version_keys().map_values(|k: Seq<char>| cfg_check(k, None))
        + defined_version_keys(major, minor).map_values(|k: Seq<char>| cfg_define(k, None))
}

/// The name `cxxqt_qt_version_at_least_<major>`.
fn at_least_major_name(major: u64) -> (res: String)
    ensures
        res@ == at_least_major_key(major as nat),
{
    let mut s = string_of("cxxqt_qt_version_at_least_");
    push_decimal(&mut s, major);
    s
}

/// The name `cxxqt_qt_version_at_least_<major>_<minor>`.
fn at_least_minor_name(major: u64, minor: u64) -> (res: String)
    ensures
        res@ == at_least_minor_key(major as nat, minor as nat),
{
    let mut s = string_of("cxxqt_qt_version_at_least_");
    push_decimal(&mut s, major);
    push_str(&mut s, "_");
    push_decimal(&mut s, minor);
    s
}

/// The directives that tell the compiler which Qt version is built against:
/// which version cfgs exist, and which of them hold for `version`.
pub fn define_qt_version_cfg_variables(version: &SemVer) -> (res: Vec<CfgDirective>)
    ensures
        res.deep_view() == qt_version_cfg(version.major as nat, version.minor as nat),
{
    let major = version.major;
    let minor = version.minor;
    let mut res: Vec<CfgDirective> = Vec::new();
    let allowed: Vec<&str> = vec!["5", "6"];
    assert(allowed@.map_values(|v: &str| v@) =~= seq!["5"@, "6"@]);
    res.push(define_cfg_check_variable(string_of("cxxqt_qt_version_major"), Some(allowed)));
    let major_text = crate::text::to_decimal(major);
    res.push(define_cfg_variable(string_of("cxxqt_qt_version_major"), Some(major_text.as_str())));
    let ghost head = seq![
        cfg_check(major_key(), Some(seq!["5"@, "6"@])),
        cfg_define(major_key(), Some(decimal(major as nat))),
    ];
    assert(res.deep_view() =~= head);

    let ghost checks = checked_version_keys().map_values(|k: Seq<char>| cfg_check(k, None));
    let mut j: u64 = 0;
    while j < 303
        invariant
            j <= 303,
            checks == checked_version_keys().map_values(|k: Seq<char>| cfg_check(k, None)),
            res.deep_view() == head + checks.take(j as int),
        decreases 303 - j,
    {
        let m = 5 + j / 101;
        let r = j % 101;
        let key = if r == 0 { at_least_major_name(m) } else { at_least_minor_name(m, r - 1) };
        let ghost before = res.deep_view();
        res.push(define_cfg_check_variable(key, None));
        assert(res.deep_view() =~= before.push(checks[j as int]));
        assert(checks.take(j + 1) =~= checks.take(j as int).push(checks[j as int]));
        j = j + 1;
    }
    assert(checks.take(303) =~= checks);

    let ghost defines = defined_version_keys(major as nat, minor as nat).map_values(
        |k: Seq<char>| cfg_define(k, None),
    );
    let ghost mid = head + checks;
    let mut m: u64 = 0;
    loop
        invariant_except_break
            m <= minor,
            defines == defined_version_keys(major as nat, minor as nat).map_values(
                |k: Seq<char>| cfg_define(k, None),
            ),
            res.deep_view() == mid + defines.take(m as int),
        ensures
            res.deep_view() == mid + defines.take(minor + 1),
        decreases minor - m,
    {
        let ghost before = res.deep_view();
        res.push(define_cfg_variable(at_least_minor_name(major, m), None));
        assert(res.deep_view() =~= before.push(defines[m as int]));
        assert(defines.take(m + 1) =~= defines.take(m as int).push(defines[m as int]));
        if m == minor {
            break;
        }
        m = m + 1;
    }

    if major >= 5 {
        let mut k: u64 = 5;
        loop
            invariant_except_break
                5 <= k <= major,
                defines == defined_version_keys(major as nat, minor as nat).map_values(
                    |k: Seq<char>| cfg_define(k, None),
                ),
                res.deep_view() == mid + defines.take(minor + 1 + k - 5),
            ensures
                res.deep_view() == mid + defines.take(minor + 1 + major - 4),
            decreases major - k,
        {
            let ghost before = res.deep_view();
            res.push(define_cfg_variable(at_least_major_name(k), None));
            let ghost idx = minor + 1 + k - 5;
            assert(res.deep_view() =~= before.push(defines[idx]));
            assert(defines.take(idx + 1) =~= defines.take(idx).push(defines[idx]));
            if k == major {
                break;
            }
            k = k + 1;
        }
    }
    assert(defines.take(defines.len() as int) =~= defines);
    assert(res.deep_view() =~= qt_version_cfg(major as nat, minor as nat));
    res
}


/// For Qt 5, 6 or 7 with a minor version of at most 99, every version cfg
/// that is set is also declared to cargo's cfg checking.
pub proof fn lemma_defined_version_cfgs_are_declared(major: nat, minor: nat)
    requires
        5 <= major <= 7,
        minor <= 99,
    ensures
        forall|i: int|
            0 <= i < defined_version_keys(major, minor).len() ==> checked_version_keys().contains(
                #[trigger] defined_version_keys(major, minor)[i],
            ),
{
    let defined = defined_version_keys(major, minor);
    let checked = checked_version_keys();
    assert forall|i: int| 0 <= i < defined.len() implies checked.contains(#[trigger] defined[i]) by {
        if i < minor + 1 {
            let j = (major - 5) * 101 + i + 1;
            assert(j / 101 == major - 5);
            assert(j % 101 == i + 1);
            assert(checked[j] == defined[i]);
        } else {
            let k = i - (minor + 1);
            let j = k * 101;
            assert(j / 101 == k);
            assert(j % 101 == 0);
            assert(checked[j] == defined[i]);
        }
    }
}

/// For Qt 5 and Qt 6 the value that the major version cfg is set to is one of
/// the values declared for it.
pub proof fn lemma_major_version_value_is_declared(major: nat)
    requires
        5 <= major <= 6,
    ensures
        seq!["5"@, "6"@].contains(decimal(major)),
{
    reveal_strlit("5");
    reveal_strlit("6");
    if major == 5 {
        assert(decimal(major) =~= "5"@);
        assert(seq!["5"@, "6"@][0] == decimal(major));
    } else {
        assert(decimal(major) =~= "6"@);
        assert(seq!["5"@, "6"@][1] == decimal(major));
    }
}

/// Whether the cfg `name` (with `value` where there is one) is among the
/// enabled cfg options `cfgs`.
pub open spec fn cfg_enabled(cfgs: Seq<(Seq<char>, Option<Seq<char>>)>, name: Seq<char>, value: Option<Seq<char>>) -> bool {
    cfgs.contains((name, value))
}

/// Whether the cfg `name` (with `value` where there is one) is among `cfgs`.
pub fn is_cfg_enabled(cfgs: &Vec<(String, Option<String>)>, name: &str, value: Option<&str>) -> (res: bool)
    ensures
        res == cfg_enabled(cfgs.deep_view(), name@, match value { Some(v) => Some(v@), None => None }),
{
    let ghost want: (Seq<char>, Option<Seq<char>>) = (name@, match value { Some(v) => Some(v@), None => None });
    let ghost cv = cfgs.deep_view();
    let mut i: usize = 0;
    while i < cfgs.len()
        invariant
            i <= cfgs.len(),
            cv == cfgs.deep_view(),
            want == (name@, match value { Some(v) => Some(v@), None => None::<Seq<char>> }),
            forall|j: int| 0 <= j < i ==> cv[j] != want,
        decreases cfgs.len() - i,
    {
        let (k, v) = &cfgs[i];
        assert(cv[i as int] == cfgs@[i as int].deep_view());
        let same_value = match v {
            Some(a) => match value {
                Some(b) => str_eq(a.as_str(), b),
                None => false,
            },
            None => value.is_none(),
        };
        if same_value && str_eq(k.as_str(), name) {
            return true;
        }
        i = i + 1;
    }
    assert(!cv.contains(want));
    false
}

/// The cfg options that the directives `ds` enable, in order.
pub open spec fn enabled_by(ds: Seq<CfgDirectiveView>) -> Seq<(Seq<char>, Option<Seq<char>>)> {
    ds.filter_map(|d: CfgDirectiveView| d.1)
}

/// The cfg options that `directives` enable, in order: those to hand to the
/// code generator, beside the ones cargo enabled for the crate.
pub fn enabled_cfgs(directives: &Vec<CfgDirective>) -> (res: Vec<(String, Option<String>)>)
    ensures
        res.deep_view() == enabled_by(directives.deep_view()),
{
    let ghost dv = directives.deep_view();
    let mut res: Vec<(String, Option<String>)> = Vec::new();
    let mut i: usize = 0;
    while i < directives.len()
        invariant
            i <= directives.len(),
            dv == directives.deep_view(),
            res.deep_view() == enabled_by(dv.take(i as int)),
        decreases directives.len() - i,
    {
        proof {
            dv.lemma_filter_map_take_succ(|d: CfgDirectiveView| d.1, i as int);
        }
        assert(dv[i as int] == directives@[i as int].deep_view());
        let ghost before = res.deep_view();
        match &directives[i].cfg {
            Some((k, v)) => {
                let value = match v {
                    Some(t) => Some(t.clone()),
                    None => None,
                };
                res.push((k.clone(), value));
                assert(res.deep_view() =~= before + seq![(k@, v.deep_view())]);
            },
            None => {
                assert(res.deep_view() =~= before);
            },
        }
        i = i + 1;
    }
    assert(dv.take(directives.len() as int) =~= dv);
    res
}

/// The `i`-th of `s` that `f` maps to a value brings that value into
/// `s.filter_map(f)`.
proof fn lemma_filter_map_keeps<A, B>(s: Seq<A>, f: spec_fn(A) -> Option<B>, i: int)
    requires
        0 <= i < s.len(),
        f(s[i]) is Some,
    ensures
        s.filter_map(f).contains(f(s[i])->0),
    decreases s.len(),
{
    let rest = s.drop_last();
    let b = f(s[i])->0;
    if i == s.len() - 1 {
        assert(s.filter_map(f) == rest.filter_map(f) + seq![b]);
        assert(s.filter_map(f)[rest.filter_map(f).len() as int] == b);
    } else {
        lemma_filter_map_keeps(rest, f, i);
        assert(rest[i] == s[i]);
        let k = choose|k: int| 0 <= k < rest.filter_map(f).len() && rest.filter_map(f)[k] == b;
        match f(s.last()) {
            Some(x) => {
                assert(s.filter_map(f) == rest.filter_map(f) + seq![x]);
                assert(s.filter_map(f)[k] == b);
            },
            None => {
                assert(s.filter_map(f) == rest.filter_map(f));
            },
        }
    }
}

/// The directives for Qt `major.minor` enable the cfgs that Rust code tests
/// for that version: the major version cfg with the value `major`,
/// `cxxqt_qt_version_at_least_<major>_<m>` for every `m` up to `minor`, and
/// `cxxqt_qt_version_at_least_<m>` for every `m` from 5 up to `major`.
pub proof fn lemma_qt_version_cfgs_enabled(major: nat, minor: nat)
    ensures
        cfg_enabled(enabled_by(qt_version_cfg(major, minor)), major_key(), Some(decimal(major))),
        forall|m: nat| m <= minor ==> cfg_enabled(enabled_by(qt_version_cfg(major, minor)), #[trigger] at_least_minor_key(major, m), None),
        forall|m: nat| 5 <= m <= major ==> cfg_enabled(enabled_by(qt_version_cfg(major, minor)), #[trigger] at_least_major_key(m), None),
{
    let ds = qt_version_cfg(major, minor);
    let f = |d: CfgDirectiveView| d.1;
    let base: int = 305int;
    assert(ds[1] == cfg_define(major_key(), Some(decimal(major))));
    lemma_filter_map_keeps(ds, f, 1);
    assert forall|m: nat| m <= minor implies cfg_enabled(enabled_by(ds), #[trigger] at_least_minor_key(major, m), None) by {
        assert(ds[base + m] == cfg_define(at_least_minor_key(major, m), None));
        lemma_filter_map_keeps(ds, f, base + m);
    }
    assert forall|m: nat| 5 <= m <= major implies cfg_enabled(enabled_by(ds), #[trigger] at_least_major_key(m), None) by {
        let j = base + minor + 1 + (m - 5);
        assert(ds[j] == cfg_define(at_least_major_key(m), None));
        lemma_filter_map_keeps(ds, f, j);
    }
}

/// Whether `s` begins with `p`.
pub open spec fn has_prefix(s: Seq<char>, p: Seq<char>) -> bool {
    p.len() <= s.len() && s.take(p.len() as int) == p
}

/// `c` with an ASCII upper-case letter made lower-case.
pub open spec fn ascii_lower_char(c: char) -> char {
    if 'A' <= c && c <= 'Z' {
        ((c as u32) + 32) as char
    } else {
        c
    }
}

/// `s` with its ASCII upper-case letters made lower-case.
pub open spec fn ascii_lower(s: Seq<char>) -> Seq<char> {
    s.map_values(|c: char| ascii_lower_char(c))
}

/// The parts of `s` between the separators `sep`, in order: one more part
/// than there are separators (so the empty text has one empty part).
pub open spec fn split_on(s: Seq<char>, sep: char) -> Seq<Seq<char>>
    decreases s.len(),
{
    if s.len() == 0 {
        seq![Seq::empty()]
    } else {
        let parts = split_on(s.drop_last(), sep);
        if s.last() == sep {
            parts.push(Seq::empty())
        } else {
            parts.drop_last().push(parts.last().push(s.last()))
        }
    }
}

/// The cfg options that one of cargo's environment variables of a build
/// script stands for. `CARGO_CFG_<NAME>` stands for the cfg `<name>` (lower
/// case) with each of its comma-separated values, and, where the value is
/// empty, for the name-only cfg as well (`unix`). `CARGO_FEATURE_<NAME>`
/// stands for the feature `<name>` (lower case), written both with `-` and
/// with `_`, since cargo writes either as `_`. Other variables stand for none.
pub open spec fn env_var_cfgs(var: (Seq<char>, Seq<char>)) -> Seq<(Seq<char>, Option<Seq<char>>)> {
    let (key, value) = var;
    if has_prefix(key, "CARGO_CFG_"@) {
        let name = ascii_lower(key.skip(10));
        (if value.len() == 0 { seq![(name, None::<Seq<char>>)] } else { Seq::empty() })
            + split_on(value, ',').map_values(|part: Seq<char>| (name, Some(part)))
    } else if has_prefix(key, "CARGO_FEATURE_"@) {
        let feature = ascii_lower(key.skip(14));
        seq![("feature"@, Some(replace_char(feature, '_', '-'))), ("feature"@, Some(feature))]
    } else {
        Seq::empty()
    }
}

/// The cfg options that the environment variables `vars` stand for, in order.
pub open spec fn env_cfgs(vars: Seq<(Seq<char>, Seq<char>)>) -> Seq<(Seq<char>, Option<Seq<char>>)>
    decreases vars.len(),
{
    if vars.len() == 0 {
        Seq::empty()
    } else {
        env_cfgs(vars.drop_last()) + env_var_cfgs(vars.last())
    }
}

/// Whether `s` begins with `p`.
fn starts_with(s: &str, p: &str) -> (res: bool)
    ensures
        res == has_prefix(s@, p@),
{
    let n = p.unicode_len();
    if n > s.unicode_len() {
        return false;
    }
    let mut i: usize = 0;
    while i < n
        invariant
            n == p@.len() <= s@.len(),
            i <= n,
            s@.take(i as int) == p@.take(i as int),
        decreases n - i,
    {
        if s.get_char(i) != p.get_char(i) {
            assert(s@.take(n as int)[i as int] != p@[i as int]);
            return false;
        }
        assert(s@.take(i + 1) =~= s@.take(i as int).push(s@[i as int]));
        assert(p@.take(i + 1) =~= p@.take(i as int).push(p@[i as int]));
        i = i + 1;
    }
    assert(p@.take(n as int) =~= p@);
    true
}

/// `s` with its ASCII upper-case letters made lower-case.
fn to_ascii_lower(s: &str) -> (res: String)
    ensures
        res@ == ascii_lower(s@),
{
    let mut out = String::new();
    let n = s.unicode_len();
    let mut i: usize = 0;
    while i < n
        invariant
            n == s@.len(),
            i <= n,
            out@ == ascii_lower(s@.take(i as int)),
        decreases n - i,
    {
        let c = s.get_char(i);
        let l = if 'A' <= c && c <= 'Z' {
            let b: u8 = c as u8;
            (b + 32) as char
        } else {
            c
        };
        assert(l == ascii_lower_char(c));
        push_char(&mut out, l);
        assert(ascii_lower(s@.take(i + 1)) =~= ascii_lower(s@.take(i as int)).push(ascii_lower_char(c)));
        i = i + 1;
    }
    assert(s@.take(n as int) =~= s@);
    out
}

/// The parts of `s` between its commas (see `split_on`).
fn split_commas(s: &str) -> (res: Vec<String>)
    ensures
        res.deep_view() == split_on(s@, ','),
{
    let mut done: Vec<String> = Vec::new();
    let mut cur = String::new();
    let n = s.unicode_len();
    let mut i: usize = 0;
    assert(s@.take(0) =~= Seq::<char>::empty());
    assert(done.deep_view().push(cur@) =~= split_on(Seq::<char>::empty(), ','));
    while i < n
        invariant
            n == s@.len(),
            i <= n,
            done.deep_view().push(cur@) == split_on(s@.take(i as int), ','),
        decreases n - i,
    {
        let c = s.get_char(i);
        let ghost t = s@.take(i + 1);
        assert(t.drop_last() =~= s@.take(i as int));
        assert(t.last() == c);
        let ghost before = done.deep_view();
        if c == ',' {
            let ghost old_cur = cur@;
            done.push(cur);
            cur = String::new();
            assert(done.deep_view() =~= before.push(old_cur));
            assert(done.deep_view().push(cur@) =~= split_on(s@.take(i as int), ',').push(Seq::empty()));
        } else {
            let ghost old_cur = cur@;
            push_char(&mut cur, c);
            let ghost parts = split_on(s@.take(i as int), ',');
            assert(parts.drop_last() =~= before);
            assert(parts.last() == old_cur);
            assert(done.deep_view().push(cur@) =~= parts.drop_last().push(parts.last().push(c)));
        }
        i = i + 1;
    }
    assert(s@.take(n as int) =~= s@);
    done.push(cur);
    done
}

/// The cfg options that one environment variable stands for (see
/// `env_var_cfgs`), appended to `out`.
fn push_env_var_cfgs(out: &mut Vec<(String, Option<String>)>, key: &str, value: &str)
    ensures
        final(out).deep_view() == old(out).deep_view() + env_var_cfgs((key@, value@)),
{
    proof {
        reveal_strlit("CARGO_CFG_");
        reveal_strlit("CARGO_FEATURE_");
        reveal_strlit("feature");
    }
    let ghost start = out.deep_view();
    if starts_with(key, "CARGO_CFG_") {
        let name = to_ascii_lower(key.substring_char(10, key.unicode_len()));
        let ghost want = env_var_cfgs((key@, value@));
        if value.unicode_len() == 0 {
            out.push((name.clone(), None));
        }
        let ghost head = out.deep_view();
        assert(head =~= start + (if value@.len() == 0 { seq![(name@, None::<Seq<char>>)] } else { Seq::empty() }));
        let parts = split_commas(value);
        let ghost pv = parts.deep_view();
        let mut j: usize = 0;
        while j < parts.len()
            invariant
                j <= parts.len(),
                pv == parts.deep_view(),
                out.deep_view() == head + pv.take(j as int).map_values(|part: Seq<char>| (name@, Some(part))),
            decreases parts.len() - j,
        {
            let ghost before = out.deep_view();
            out.push((name.clone(), Some(parts[j].clone())));
            assert(pv[j as int] == parts@[j as int]@);
            assert(pv.take(j + 1).map_values(|part: Seq<char>| (name@, Some(part))) =~= pv.take(j as int).map_values(
                |part: Seq<char>| (name@, Some(part)),
            ).push((name@, Some(pv[j as int]))));
            assert(out.deep_view() =~= before.push((name@, Some(pv[j as int]))));
            j = j + 1;
        }
        assert(pv.take(parts.len() as int) =~= pv);
        assert(out.deep_view() =~= start + want);
    } else if starts_with(key, "CARGO_FEATURE_") {
        let feature = to_ascii_lower(key.substring_char(14, key.unicode_len()));
        let dashed = replace_chars(feature.as_str(), '_', '-');
        out.push((string_of("feature"), Some(dashed)));
        out.push((string_of("feature"), Some(feature)));
        assert(out.deep_view() =~= start + env_var_cfgs((key@, value@)));
    } else {
        assert(out.deep_view() =~= start + env_var_cfgs((key@, value@)));
    }
}

/// The cfg options that cargo's environment variables `vars` (name and
/// value, as a build script reads them) stand for, in order (see
/// `env_var_cfgs`): the cfgs and features cargo enabled for the crate.
pub fn cfgs_from_env(vars: &Vec<(String, String)>) -> (res: Vec<(String, Option<String>)>)
    ensures
        res.deep_view() == env_cfgs(vars.deep_view()),
{
    let ghost vv = vars.deep_view();
    let mut res: Vec<(String, Option<String>)> = Vec::new();
    let mut i: usize = 0;
    while i < vars.len()
        invariant
            i <= vars.len(),
            vv == vars.deep_view(),
            res.deep_view() == env_cfgs(vv.take(i as int)),
        decreases vars.len() - i,
    {
        let (key, value) = &vars[i];
        assert(vv[i as int] == (key@, value@));
        assert(vv.take(i + 1).drop_last() =~= vv.take(i as int));
        push_env_var_cfgs(&mut res, key.as_str(), value.as_str());
        i = i + 1;
    }
    assert(vv.take(vars.len() as int) =~= vv);
    res
}

} // verus!
