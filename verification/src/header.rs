//! Reading the C header that `dtrace -h` generates for a provider: the
//! stability and typedef symbols of each provider, and the is-enabled and
//! probe symbols of each probe.
//!
//! A header holds lines such as
//!
//! ```text
//! #define FOO_STABILITY "___dtrace_stability$foo$v1$1_1_0"
//! #define FOO_TYPEDEFS "___dtrace_typedefs$foo$v2"
//! extern int __dtrace_isenabled$foo$bar$v1(void);
//! extern void __dtrace_probe$foo$bar$v1(void);
//! ```

use vstd::prelude::*;
use vstd::string::*;
use crate::grammar::chars_of;
use crate::record::{name_lt, name_less, lemma_name_lt_total, lemma_bytes_lt_trans};
use vstd::utf8::encode_utf8;
use crate::text::{field_bounds, field_bounds_exec, find, find_from, find_from_exec, lemma_field_bounds,
    lemma_find_from, lemma_rfind_before, rfind, rfind_exec};

verus! {

/// The parts of a `#define` line that holds `needle`: the provider name (up to
/// the next `$` after the needle), and the symbol, which runs from the second
/// character of the needle to the character before the end of the line.
pub open spec fn needle_parts(line: Seq<char>, needle: Seq<char>) -> Option<(Seq<char>, Seq<char>)> {
    match find(line, needle) {
        None => None,
        Some(i) => {
            let a = i + needle.len();
            match find_from(line, seq!['$'], a) {
                Some(e) => Some((line.subrange(a, e), line.subrange(i + 1, line.len() - 1))),
                None => None,
            }
        },
    }
}

/// Where `line` holds `needle`, a `$` follows it and the line ends in an
/// ASCII character (the symbol is cut one byte before the end).
pub open spec fn needle_line_ok(line: Seq<char>, needle: Seq<char>) -> bool {
    find(line, needle) is Some ==> needle_parts(line, needle) is Some && (line.last() as u32) < 128
}

/// The parts of an `extern` declaration that holds `needle`: the provider name
/// and the probe name (each up to the next `$`), and the symbol, which runs
/// from the first occurrence of the line's third space-separated field to the
/// last `(` of the line.
pub open spec fn needle2_parts(line: Seq<char>, needle: Seq<char>) -> Option<
    (Seq<char>, Seq<char>, Seq<char>),
> {
    match find(line, needle) {
        None => None,
        Some(i) => {
            let a = i + needle.len();
            match find_from(line, seq!['$'], a) {
                Some(pe) => match find_from(line, seq!['$'], pe + 1) {
                    Some(qe) => match rfind(line, '(') {
                        Some(end) => match field_bounds(line, ' ', 2, 0) {
                            Some((fs, fe)) => match find(line, line.subrange(fs, fe)) {
                                Some(start) => if start <= end {
                                    Some(
                                        (
                                            line.subrange(a, pe),
                                            line.subrange(pe + 1, qe),
                                            line.subrange(start, end),
                                        ),
                                    )
                                } else {
                                    None
                                },
                                None => None,
                            },
                            None => None,
                        },
                        None => None,
                    },
                    None => None,
                },
                None => None,
            }
        },
    }
}

/// Where `line` holds `needle`, the line has all the parts of a declaration.
pub open spec fn needle2_line_ok(line: Seq<char>, needle: Seq<char>) -> bool {
    find(line, needle) is Some ==> needle2_parts(line, needle) is Some
}

/// `contains_needle` where it can be computed: `None` where the line holds
/// the needle but not the rest of a `#define` line.
fn needle_checked(line: &str, needle: &str) -> (r: Option<Option<(String, String)>>)
    requires
        needle@.len() >= 1,
    ensures
        match r {
            None => !needle_line_ok(line@, needle@),
            Some(None) => find(line@, needle@) is None,
            Some(Some((a, b))) => needle_line_ok(line@, needle@) && needle_parts(line@, needle@)
                == Some((a@, b@)),
        },
{
    let s = chars_of(line);
    let t = chars_of(needle);
    let _slen = s.len();
    let _tlen = t.len();
    match find_from_exec(&s, &t, 0) {
        None => Some(None),
        Some(i) => {
            proof {
                lemma_find_from(s@, t@, 0);
                assert(find_from(s@, t@, 0) == Some(i as int));
                assert(i + t@.len() <= s@.len());
            }
            let a = i + t.len();
            let dollar: Vec<char> = vec!['$'];
            proof {
                assert(dollar@ =~= seq!['$']);
                lemma_find_from(s@, seq!['$'], a as int);
            }
            match find_from_exec(&s, &dollar, a) {
                Some(e) => {
                    let last = s[s.len() - 1];
                    if (last as u32) >= 128 {
                        return None;
                    }
                    let provider = String::from_str(line.substring_char(a, e));
                    let symbol = String::from_str(line.substring_char(i + 1, s.len() - 1));
                    Some(Some((provider, symbol)))
                },
                None => None,
            }
        },
    }
}

fn contains_needle(line: &str, needle: &str) -> (r: Option<(String, String)>)
    requires
        needle@.len() >= 1,
        needle_line_ok(line@, needle@),
    ensures
        match r {
            Some((a, b)) => needle_parts(line@, needle@) == Some((a@, b@)),
            None => find(line@, needle@) is None,
        },
{
    match needle_checked(line, needle) {
        Some(r) => r,
        None => None,
    }
}

/// `contains_needle2` where it can be computed: `None` where the line holds
/// the needle but not the rest of a declaration.
fn needle2_checked(line: &str, needle: &str) -> (r: Option<Option<(String, String, String)>>)
    ensures
        match r {
            None => !needle2_line_ok(line@, needle@),
            Some(None) => find(line@, needle@) is None,
            Some(Some((a, b, c))) => needle2_line_ok(line@, needle@) && needle2_parts(line@, needle@)
                == Some((a@, b@, c@)),
        },
{
    let s = chars_of(line);
    let t = chars_of(needle);
    let _slen = s.len();
    let _tlen = t.len();
    match find_from_exec(&s, &t, 0) {
        None => Some(None),
        Some(i) => {
            proof {
                lemma_find_from(s@, t@, 0);
                assert(find_from(s@, t@, 0) == Some(i as int));
                assert(i + t@.len() <= s@.len());
            }
            let a = i + t.len();
            let dollar: Vec<char> = vec!['$'];
            proof {
                assert(dollar@ =~= seq!['$']);
                lemma_find_from(s@, seq!['$'], a as int);
            }
            let pe = match find_from_exec(&s, &dollar, a) {
                Some(x) => x,
                None => return None,
            };
            proof {
                assert(find_from(s@, seq!['$'], a as int) == Some(pe as int));
                assert(pe + 1 <= s@.len());
                lemma_find_from(s@, seq!['$'], pe + 1);
            }
            let qe = match find_from_exec(&s, &dollar, pe + 1) {
                Some(x) => x,
                None => return None,
            };
            proof {
                lemma_rfind_before(s@, '(', s@.len() as int);
            }
            let end = match rfind_exec(&s, '(') {
                Some(x) => x,
                None => return None,
            };
            proof {
                lemma_field_bounds(s@, ' ', 2, 0);
            }
            let (fs, fe) = match field_bounds_exec(&s, ' ', 2, 0) {
                Some(x) => x,
                None => return None,
            };
            let field = vstd::slice::slice_to_vec(vstd::slice::slice_subrange(s.as_slice(), fs, fe));
            proof {
                lemma_find_from(s@, field@, 0);
            }
            let start = match find_from_exec(&s, &field, 0) {
                Some(x) => x,
                None => return None,
            };
            if start > end {
                return None;
            }
            let provider = String::from_str(line.substring_char(a, pe));
            let probe = String::from_str(line.substring_char(pe + 1, qe));
            let symbol = String::from_str(line.substring_char(start, end));
            Some(Some((provider, probe, symbol)))
        },
    }
}

fn contains_needle2(line: &str, needle: &str) -> (r: Option<(String, String, String)>)
    requires
        needle2_line_ok(line@, needle@),
    ensures
        match r {
            Some((a, b, c)) => needle2_parts(line@, needle@) == Some((a@, b@, c@)),
            None => find(line@, needle@) is None,
        },
{
    match needle2_checked(line, needle) {
        Some(r) => r,
        None => None,
    }
}

/// The (provider name, stability symbol) of a line that defines a provider's
/// stability symbol, with one leading underscore of the symbol removed.
pub fn is_stability_line(line: &str) -> (r: Option<(String, String)>)
    requires
        needle_line_ok(line@, "___dtrace_stability$"@),
    ensures
        match r {
            Some((a, b)) => needle_parts(line@, "___dtrace_stability$"@) == Some((a@, b@)),
            None => find(line@, "___dtrace_stability$"@) is None,
        },
{
    proof {
        reveal_strlit("___dtrace_stability$");
    }
    contains_needle(line, "___dtrace_stability$")
}

/// The (provider name, typedefs symbol) of a line that defines a provider's
/// typedefs symbol, with one leading underscore of the symbol removed.
pub fn is_typedefs_line(line: &str) -> (r: Option<(String, String)>)
    requires
        needle_line_ok(line@, "___dtrace_typedefs$"@),
    ensures
        match r {
            Some((a, b)) => needle_parts(line@, "___dtrace_typedefs$"@) == Some((a@, b@)),
            None => find(line@, "___dtrace_typedefs$"@) is None,
        },
{
    proof {
        reveal_strlit("___dtrace_typedefs$");
    }
    contains_needle(line, "___dtrace_typedefs$")
}

/// The (provider, probe, is-enabled symbol) of a line that declares a probe's
/// is-enabled function.
pub fn is_enabled_line(line: &str) -> (r: Option<(String, String, String)>)
    requires
        needle2_line_ok(line@, "extern int __dtrace_isenabled$"@),
    ensures
        match r {
            Some((a, b, c)) => needle2_parts(line@, "extern int __dtrace_isenabled$"@) == Some(
                (a@, b@, c@),
            ),
            None => find(line@, "extern int __dtrace_isenabled$"@) is None,
        },
{
    contains_needle2(line, "extern int __dtrace_isenabled$")
}

/// The (provider, probe, probe symbol) of a line that declares a probe's
/// function.
pub fn is_probe_line(line: &str) -> (r: Option<(String, String, String)>)
    requires
        needle2_line_ok(line@, "extern void __dtrace_probe$"@),
    ensures
        match r {
            Some((a, b, c)) => needle2_parts(line@, "extern void __dtrace_probe$"@) == Some(
                (a@, b@, c@),
            ),
            None => find(line@, "extern void __dtrace_probe$"@) is None,
        },
{
    contains_needle2(line, "extern void __dtrace_probe$")
}

// ---------------------------------------------------------------------------
// The providers of a whole header
// ---------------------------------------------------------------------------

/// `l` without the carriage return that ends it, if any.
pub open spec fn strip_cr(l: Seq<char>) -> Seq<char> {
    if l.len() > 0 && l.last() == '\r' {
        l.drop_last()
    } else {
        l
    }
}

/// The lines of `s` from `start` on, as `str::lines` gives them: split at
/// each `\n`, a `\r` before the `\n` dropped, and no line after a final `\n`.
pub open spec fn lines_from(s: Seq<char>, start: int) -> Seq<Seq<char>>
    decreases s.len() - start,
{
    if start < 0 || start >= s.len() {
        seq![]
    } else {
        match find_from(s, seq!['\n'], start) {
            Some(e) => if e < start || e >= s.len() {
                seq![]
            } else {
                seq![strip_cr(s.subrange(start, e))] + lines_from(s, e + 1)
            },
            None => seq![s.subrange(start, s.len() as int)],
        }
    }
}

/// The lines of `s`.
pub open spec fn lines_of(s: Seq<char>) -> Seq<Seq<char>> {
    lines_from(s, 0)
}

/// Split `s` into its lines.
pub fn lines(s: &str) -> (r: Vec<String>)
    ensures
        r@.map_values(|l: String| l@) == lines_of(s@),
{
    let c = chars_of(s);
    let n = c.len();
    let newline: Vec<char> = vec!['\n'];
    proof {
        assert(newline@ =~= seq!['\n']);
    }
    let mut out: Vec<String> = Vec::new();
    let mut start: usize = 0;
    proof {
        assert(out@.map_values(|l: String| l@) =~= Seq::<Seq<char>>::empty());
        assert(lines_of(s@) =~= Seq::<Seq<char>>::empty() + lines_from(s@, 0));
    }
    while start < n
        invariant
            n == s@.len(),
            c@ == s@,
            newline@ == seq!['\n'],
            0 <= start <= n,
            out@.map_values(|l: String| l@) + lines_from(s@, start as int) == lines_of(s@),
        decreases n - start,
    {
        let ghost before = out@.map_values(|l: String| l@);
        proof {
            lemma_find_from(s@, seq!['\n'], start as int);
        }
        match find_from_exec(&c, &newline, start) {
            Some(e) => {
                let mut end = e;
                if end > start && c[end - 1] == '\r' {
                    end = end - 1;
                }
                let line = String::from_str(s.substring_char(start, end));
                proof {
                    let full = s@.subrange(start as int, e as int);
                    if e > start && s@[e - 1] == '\r' {
                        assert(full.last() == '\r');
                        assert(full.drop_last() =~= s@.subrange(start as int, end as int));
                    }
                    assert(line@ == strip_cr(full));
                }
                out.push(line);
                proof {
                    assert(out@.map_values(|l: String| l@) =~= before.push(line@));
                    assert(before.push(line@) + lines_from(s@, e + 1) =~= before + (seq![line@]
                        + lines_from(s@, e + 1)));
                }
                start = e + 1;
            },
            None => {
                let line = String::from_str(s.substring_char(start, n));
                out.push(line);
                proof {
                    assert(out@.map_values(|l: String| l@) =~= before.push(line@));
                    assert(lines_from(s@, n as int) =~= Seq::<Seq<char>>::empty());
                    assert(before.push(line@) + lines_from(s@, n as int) =~= before + seq![line@]);
                }
                start = n;
            },
        }
    }
    proof {
        assert(out@.map_values(|l: String| l@) + lines_from(s@, start as int) == lines_of(s@));
        assert(lines_from(s@, start as int) =~= Seq::<Seq<char>>::empty());
        assert(out@.map_values(|l: String| l@) + Seq::<Seq<char>>::empty() =~= out@.map_values(
            |l: String| l@,
        ));
    }
    out
}

/// What a header tells of one provider: its stability and typedefs symbols,
/// and the is-enabled and probe symbols of each probe, keyed by probe name in
/// the order of the names, each name once.
#[derive(Clone, Debug)]
pub struct ProviderInfo {
    pub stability: String,
    pub typedefs: String,
    pub is_enabled: Vec<(String, String)>,
    pub probes: Vec<(String, String)>,
}

/// A provider's information as plain values.
pub struct InfoView {
    pub stability: Seq<char>,
    pub typedefs: Seq<char>,
    pub is_enabled: Seq<(Seq<char>, Seq<char>)>,
    pub probes: Seq<(Seq<char>, Seq<char>)>,
}

pub open spec fn pairs_view(v: Seq<(String, String)>) -> Seq<(Seq<char>, Seq<char>)> {
    v.map_values(|e: (String, String)| (e.0@, e.1@))
}

impl View for ProviderInfo {
    type V = InfoView;

    open spec fn view(&self) -> InfoView {
        InfoView {
            stability: self.stability@,
            typedefs: self.typedefs@,
            is_enabled: pairs_view(self.is_enabled@),
            probes: pairs_view(self.probes@),
        }
    }
}

pub open spec fn infos_view(v: Seq<(String, ProviderInfo)>) -> Seq<(Seq<char>, InfoView)> {
    v.map_values(|e: (String, ProviderInfo)| (e.0@, e.1@))
}

/// The first position at or after `i` whose key does not come before `k`.
pub open spec fn key_slot<V>(m: Seq<(Seq<char>, V)>, k: Seq<char>, i: int) -> int
    decreases m.len() - i,
{
    if i < 0 || i >= m.len() || !name_lt(m[i].0, k) {
        i
    } else {
        key_slot(m, k, i + 1)
    }
}

/// The entry of key `k`, where there is one.
pub open spec fn assoc_get<V>(m: Seq<(Seq<char>, V)>, k: Seq<char>) -> Option<V> {
    let i = key_slot(m, k, 0);
    if 0 <= i < m.len() && m[i].0 == k {
        Some(m[i].1)
    } else {
        None
    }
}

/// `m` with key `k` set to `v`, as a map keyed in order sets it.
pub open spec fn assoc_set<V>(m: Seq<(Seq<char>, V)>, k: Seq<char>, v: V) -> Seq<(Seq<char>, V)> {
    let i = key_slot(m, k, 0);
    if 0 <= i < m.len() && m[i].0 == k {
        m.update(i, (k, v))
    } else {
        m.insert(i, (k, v))
    }
}

pub open spec fn stability_needle() -> Seq<char> {
    "___dtrace_stability$"@
}

pub open spec fn typedefs_needle() -> Seq<char> {
    "___dtrace_typedefs$"@
}

pub open spec fn enabled_needle() -> Seq<char> {
    "extern int __dtrace_isenabled$"@
}

pub open spec fn probe_needle() -> Seq<char> {
    "extern void __dtrace_probe$"@
}

/// A stability line starts a provider afresh.
pub open spec fn step_stability(ps: Seq<(Seq<char>, InfoView)>, line: Seq<char>) -> Option<
    Seq<(Seq<char>, InfoView)>,
> {
    if !needle_line_ok(line, stability_needle()) {
        None
    } else {
        match needle_parts(line, stability_needle()) {
            None => Some(ps),
            Some((name, sym)) => Some(
                assoc_set(
                    ps,
                    name,
                    InfoView { stability: sym, typedefs: seq![], is_enabled: seq![], probes: seq![] },
                ),
            ),
        }
    }
}

/// A typedefs line sets the typedefs symbol of a provider already seen.
pub open spec fn step_typedefs(ps: Seq<(Seq<char>, InfoView)>, line: Seq<char>) -> Option<
    Seq<(Seq<char>, InfoView)>,
> {
    if !needle_line_ok(line, typedefs_needle()) {
        None
    } else {
        match needle_parts(line, typedefs_needle()) {
            None => Some(ps),
            Some((name, sym)) => match assoc_get(ps, name) {
                None => None,
                Some(info) => Some(
                    assoc_set(
                        ps,
                        name,
                        InfoView {
                            stability: info.stability,
                            typedefs: sym,
                            is_enabled: info.is_enabled,
                            probes: info.probes,
                        },
                    ),
                ),
            },
        }
    }
}

/// An is-enabled line adds a probe's is-enabled symbol to a provider already seen.
pub open spec fn step_enabled(ps: Seq<(Seq<char>, InfoView)>, line: Seq<char>) -> Option<
    Seq<(Seq<char>, InfoView)>,
> {
    if !needle2_line_ok(line, enabled_needle()) {
        None
    } else {
        match needle2_parts(line, enabled_needle()) {
            None => Some(ps),
            Some((name, probe, sym)) => match assoc_get(ps, name) {
                None => None,
                Some(info) => Some(
                    assoc_set(
                        ps,
                        name,
                        InfoView {
                            stability: info.stability,
                            typedefs: info.typedefs,
                            is_enabled: assoc_set(info.is_enabled, probe, sym),
                            probes: info.probes,
                        },
                    ),
                ),
            },
        }
    }
}

/// A probe line adds a probe's symbol to a provider already seen.
pub open spec fn step_probe(ps: Seq<(Seq<char>, InfoView)>, line: Seq<char>) -> Option<
    Seq<(Seq<char>, InfoView)>,
> {
    if !needle2_line_ok(line, probe_needle()) {
        None
    } else {
        match needle2_parts(line, probe_needle()) {
            None => Some(ps),
            Some((name, probe, sym)) => match assoc_get(ps, name) {
                None => None,
                Some(info) => Some(
                    assoc_set(
                        ps,
                        name,
                        InfoView {
                            stability: info.stability,
                            typedefs: info.typedefs,
                            is_enabled: info.is_enabled,
                            probes: assoc_set(info.probes, probe, sym),
                        },
                    ),
                ),
            },
        }
    }
}

/// What one line of a header adds; `None` where reading it fails.
pub open spec fn apply_line(ps: Seq<(Seq<char>, InfoView)>, line: Seq<char>) -> Option<
    Seq<(Seq<char>, InfoView)>,
> {
    match step_stability(ps, line) {
        None => None,
        Some(p1) => match step_typedefs(p1, line) {
            None => None,
            Some(p2) => match step_enabled(p2, line) {
                None => None,
                Some(p3) => step_probe(p3, line),
            },
        },
    }
}

/// The providers that the lines tell of, in order of their names; `None`
/// where a line names a provider before its stability line, or holds a
/// symbol but not the rest of its line.
pub open spec fn providers_from_lines(ls: Seq<Seq<char>>) -> Option<Seq<(Seq<char>, InfoView)>>
    decreases ls.len(),
{
    if ls.len() == 0 {
        Some(seq![])
    } else {
        match providers_from_lines(ls.drop_last()) {
            None => None,
            Some(ps) => apply_line(ps, ls.last()),
        }
    }
}

/// The slot of key `k` in `m`.
fn key_slot_exec<V>(m: &Vec<(String, V)>, k: &String) -> (r: usize)
    ensures
        r == key_slot(m@.map_values(|e: (String, V)| (e.0@, e.1)), k@, 0),
        r <= m@.len(),
{
    let ghost mv = m@.map_values(|e: (String, V)| (e.0@, e.1));
    let n = m.len();
    let mut i: usize = 0;
    while i < n && name_less(&m[i].0, k)
        invariant
            n == m@.len(),
            mv == m@.map_values(|e: (String, V)| (e.0@, e.1)),
            0 <= i <= n,
            key_slot(mv, k@, i as int) == key_slot(mv, k@, 0),
        decreases n - i,
    {
        proof {
            assert(mv[i as int].0 == m@[i as int].0@);
        }
        i = i + 1;
    }
    proof {
        if i < n {
            assert(mv[i as int].0 == m@[i as int].0@);
        }
    }
    i
}

/// Set key `k` of the symbol list `m` to `v`.
fn set_symbol(m: &mut Vec<(String, String)>, k: String, v: String)
    ensures
        pairs_view(final(m)@) == assoc_set(pairs_view(old(m)@), k@, v@),
{
    let ghost mv = pairs_view(m@);
    let i = key_slot_exec(m, &k);
    proof {
        assert(m@.map_values(|e: (String, String)| (e.0@, e.1)).len() == mv.len());
        assert(key_slot(m@.map_values(|e: (String, String)| (e.0@, e.1)), k@, 0) == key_slot(mv, k@, 0)) by {
            lemma_key_slot_names(m@.map_values(|e: (String, String)| (e.0@, e.1)), mv, k@, 0);
        }
    }
    if i < m.len() && m[i].0 == k {
        m.remove(i);
        m.insert(i, (k, v));
        proof {
            assert(pairs_view(m@) =~= mv.update(i as int, (k@, v@)));
        }
    } else {
        proof {
            if i < m@.len() {
                assert(mv[i as int].0 == m@[i as int].0@);
            }
        }
        m.insert(i, (k, v));
        proof {
            assert(pairs_view(m@) =~= mv.insert(i as int, (k@, v@)));
        }
    }
}

/// The slot of a key depends on the keys alone.
pub proof fn lemma_key_slot_names<V, W>(a: Seq<(Seq<char>, V)>, b: Seq<(Seq<char>, W)>, k: Seq<char>, i: int)
    requires
        a.len() == b.len(),
        forall|q: int| 0 <= q < a.len() ==> #[trigger] a[q].0 == b[q].0,
    ensures
        key_slot(a, k, i) == key_slot(b, k, i),
    decreases a.len() - i,
{
    if 0 <= i < a.len() {
        assert(a[i].0 == b[i].0);
        lemma_key_slot_names(a, b, k, i + 1);
    }
}

/// Replace the entry at `i` of the providers, which has key `k`.
fn replace_provider(ps: &mut Vec<(String, ProviderInfo)>, i: usize, k: String, info: ProviderInfo)
    requires
        i < old(ps)@.len(),
    ensures
        infos_view(final(ps)@) == infos_view(old(ps)@).update(i as int, (k@, info@)),
{
    let ghost pv = infos_view(ps@);
    ps.remove(i);
    ps.insert(i, (k, info));
    proof {
        assert(infos_view(ps@) =~= pv.update(i as int, (k@, info@)));
    }
}

/// Set provider `k` to `info`.
fn set_provider(ps: &mut Vec<(String, ProviderInfo)>, k: String, info: ProviderInfo)
    ensures
        infos_view(final(ps)@) == assoc_set(infos_view(old(ps)@), k@, info@),
{
    let ghost pv = infos_view(ps@);
    let i = key_slot_exec(ps, &k);
    proof {
        lemma_key_slot_names(ps@.map_values(|e: (String, ProviderInfo)| (e.0@, e.1)), pv, k@, 0);
    }
    if i < ps.len() && ps[i].0 == k {
        replace_provider(ps, i, k, info);
    } else {
        proof {
            if i < ps@.len() {
                assert(pv[i as int].0 == ps@[i as int].0@);
            }
        }
        ps.insert(i, (k, info));
        proof {
            assert(infos_view(ps@) =~= pv.insert(i as int, (k@, info@)));
        }
    }
}

/// The position of provider `k`, where there is one.
fn find_provider(ps: &Vec<(String, ProviderInfo)>, k: &String) -> (r: Option<usize>)
    ensures
        match r {
            Some(i) => i < ps@.len() && ps@[i as int].0@ == k@ && key_slot(infos_view(ps@), k@, 0) == i
                && assoc_get(infos_view(ps@), k@) == Some(ps@[i as int].1@),
            None => assoc_get(infos_view(ps@), k@) is None,
        },
{
    let ghost pv = infos_view(ps@);
    let i = key_slot_exec(ps, k);
    proof {
        lemma_key_slot_names(ps@.map_values(|e: (String, ProviderInfo)| (e.0@, e.1)), pv, k@, 0);
        if i < ps@.len() {
            assert(pv[i as int] == (ps@[i as int].0@, ps@[i as int].1@));
        }
    }
    if i < ps.len() && ps[i].0 == *k {
        Some(i)
    } else {
        None
    }
}

/// Put `(k, info)` back at slot `i`, where the entry just taken out stood.
fn put_back(ps: &mut Vec<(String, ProviderInfo)>, i: usize, k: String, info: ProviderInfo, Ghost(before): Ghost<Seq<(String, ProviderInfo)>>)
    requires
        i < before.len(),
        old(ps)@ == before.remove(i as int),
    ensures
        infos_view(final(ps)@) == infos_view(before).update(i as int, (k@, info@)),
{
    let ghost kv = k@;
    let ghost iv = info@;
    ps.insert(i, (k, info));
    proof {
        assert(infos_view(ps@) =~= infos_view(before).update(i as int, (kv, iv)));
    }
}

/// Add what one line of a header tells; false where reading it fails.
fn apply_line_exec(ps: &mut Vec<(String, ProviderInfo)>, line: &str) -> (ok: bool)
    ensures
        ok == apply_line(infos_view(old(ps)@), line@) is Some,
        ok ==> infos_view(final(ps)@) == apply_line(infos_view(old(ps)@), line@)->Some_0,
{
    proof {
        reveal_strlit("___dtrace_stability$");
        reveal_strlit("___dtrace_typedefs$");
        reveal_strlit("extern int __dtrace_isenabled$");
        reveal_strlit("extern void __dtrace_probe$");
    }
    let ghost p0 = infos_view(ps@);
    match needle_checked(line, "___dtrace_stability$") {
        None => return false,
        Some(None) => {},
        Some(Some((name, sym))) => {
            let info = ProviderInfo {
                stability: sym,
                typedefs: String::new(),
                is_enabled: Vec::new(),
                probes: Vec::new(),
            };
            proof {
                assert(pairs_view(info.is_enabled@) =~= Seq::<(Seq<char>, Seq<char>)>::empty());
                assert(pairs_view(info.probes@) =~= Seq::<(Seq<char>, Seq<char>)>::empty());
            }
            set_provider(ps, name, info);
        },
    }
    let ghost p1 = infos_view(ps@);
    assert(step_stability(p0, line@) == Some(p1));
    match needle_checked(line, "___dtrace_typedefs$") {
        None => return false,
        Some(None) => {},
        Some(Some((name, sym))) => {
            match find_provider(ps, &name) {
                None => return false,
                Some(i) => {
                    let ghost before = ps@;
                    let (key, old_info) = ps.remove(i);
                    let info = ProviderInfo {
                        stability: old_info.stability,
                        typedefs: sym,
                        is_enabled: old_info.is_enabled,
                        probes: old_info.probes,
                    };
                    put_back(ps, i, key, info, Ghost(before));
                },
            }
        },
    }
    let ghost p2 = infos_view(ps@);
    assert(step_typedefs(p1, line@) == Some(p2));
    match needle2_checked(line, "extern int __dtrace_isenabled$") {
        None => return false,
        Some(None) => {},
        Some(Some((name, probe, sym))) => {
            match find_provider(ps, &name) {
                None => return false,
                Some(i) => {
                    let ghost before = ps@;
                    let (key, old_info) = ps.remove(i);
                    let mut en = old_info.is_enabled;
                    set_symbol(&mut en, probe, sym);
                    let info = ProviderInfo {
                        stability: old_info.stability,
                        typedefs: old_info.typedefs,
                        is_enabled: en,
                        probes: old_info.probes,
                    };
                    put_back(ps, i, key, info, Ghost(before));
                },
            }
        },
    }
    let ghost p3 = infos_view(ps@);
    assert(step_enabled(p2, line@) == Some(p3));
    match needle2_checked(line, "extern void __dtrace_probe$") {
        None => return false,
        Some(None) => {},
        Some(Some((name, probe, sym))) => {
            match find_provider(ps, &name) {
                None => return false,
                Some(i) => {
                    let ghost before = ps@;
                    let (key, old_info) = ps.remove(i);
                    let mut pr = old_info.probes;
                    set_symbol(&mut pr, probe, sym);
                    let info = ProviderInfo {
                        stability: old_info.stability,
                        typedefs: old_info.typedefs,
                        is_enabled: old_info.is_enabled,
                        probes: pr,
                    };
                    put_back(ps, i, key, info, Ghost(before));
                },
            }
        },
    }
    assert(step_probe(p3, line@) == Some(infos_view(ps@)));
    true
}

/// The providers that a header generated by `dtrace -h` tells of, with their
/// symbols; `None` where a line names a provider before its stability line,
/// or holds a symbol but not the rest of its line.
pub fn extract_providers(header: &str) -> (r: Option<Vec<(String, ProviderInfo)>>)
    ensures
        match r {
            Some(ps) => providers_from_lines(lines_of(header@)) == Some(infos_view(ps@)) && header_sorted(
                infos_view(ps@),
            ),
            None => providers_from_lines(lines_of(header@)) is None,
        },
{
    let ls = lines(header);
    let ghost lv = ls@.map_values(|l: String| l@);
    let mut ps: Vec<(String, ProviderInfo)> = Vec::new();
    let mut k: usize = 0;
    proof {
        assert(lv.take(0) =~= Seq::<Seq<char>>::empty());
        assert(infos_view(ps@) =~= Seq::<(Seq<char>, InfoView)>::empty());
    }
    while k < ls.len()
        invariant
            lv == ls@.map_values(|l: String| l@),
            lv == lines_of(header@),
            0 <= k <= ls@.len(),
            providers_from_lines(lv.take(k as int)) == Some(infos_view(ps@)),
        decreases ls@.len() - k,
    {
        proof {
            assert(lv.take((k + 1) as int).drop_last() =~= lv.take(k as int));
            assert(lv.take((k + 1) as int).last() == ls@[k as int]@);
        }
        if !apply_line_exec(&mut ps, ls[k].as_str()) {
            proof {
                lemma_lines_none(lv, (k + 1) as nat);
            }
            return None;
        }
        k = k + 1;
    }
    proof {
        assert(lv.take(ls@.len() as int) =~= lv);
        lemma_header_providers_sorted(lv);
    }
    Some(ps)
}

/// Once a line cannot be read, no longer run of lines can be.
pub proof fn lemma_lines_none(ls: Seq<Seq<char>>, j: nat)
    requires
        j <= ls.len(),
        providers_from_lines(ls.take(j as int)) is None,
    ensures
        providers_from_lines(ls) is None,
    decreases ls.len() - j,
{
    if j == ls.len() {
        assert(ls.take(j as int) =~= ls);
    } else {
        assert(ls.take((j + 1) as int).drop_last() =~= ls.take(j as int));
        lemma_lines_none(ls, j + 1);
    }
}

// ---------------------------------------------------------------------------
// The providers of a header are keyed in order
// ---------------------------------------------------------------------------

/// The keys of `m` come in strictly increasing order, so each occurs once.
pub open spec fn keys_sorted<V>(m: Seq<(Seq<char>, V)>) -> bool {
    forall|a: int, b: int| 0 <= a < b < m.len() ==> name_lt(#[trigger] m[a].0, #[trigger] m[b].0)
}

/// The providers are keyed in order, and so are the probes of each.
pub open spec fn header_sorted(ps: Seq<(Seq<char>, InfoView)>) -> bool {
    &&& keys_sorted(ps)
    &&& forall|a: int|
        0 <= a < ps.len() ==> keys_sorted(#[trigger] ps[a].1.is_enabled) && keys_sorted(ps[a].1.probes)
}

pub proof fn lemma_key_slot<V>(m: Seq<(Seq<char>, V)>, k: Seq<char>, i: int)
    requires
        0 <= i <= m.len(),
    ensures
        i <= key_slot(m, k, i) <= m.len(),
        forall|q: int| i <= q < key_slot(m, k, i) ==> name_lt(#[trigger] m[q].0, k),
        key_slot(m, k, i) < m.len() ==> !name_lt(m[key_slot(m, k, i)].0, k),
    decreases m.len() - i,
{
    if i < m.len() && name_lt(m[i].0, k) {
        lemma_key_slot(m, k, i + 1);
    }
}

/// Setting a key keeps the keys in order; each entry afterwards is the new
/// one or was there before.
pub proof fn lemma_assoc_set_sorted<V>(m: Seq<(Seq<char>, V)>, k: Seq<char>, v: V)
    requires
        keys_sorted(m),
    ensures
        keys_sorted(assoc_set(m, k, v)),
        forall|q: int|
            0 <= q < assoc_set(m, k, v).len() ==> #[trigger] assoc_set(m, k, v)[q] == (k, v) || m.contains(
                assoc_set(m, k, v)[q],
            ),
{
    let i = key_slot(m, k, 0);
    lemma_key_slot(m, k, 0);
    let r = assoc_set(m, k, v);
    if 0 <= i < m.len() && m[i].0 == k {
        assert forall|a: int, b: int| 0 <= a < b < r.len() implies name_lt(#[trigger] r[a].0, #[trigger] r[b].0) by {
            assert(r[a].0 == m[a].0);
            assert(r[b].0 == m[b].0);
        }
        assert forall|q: int| 0 <= q < r.len() implies #[trigger] r[q] == (k, v) || m.contains(r[q]) by {
            if q != i {
                assert(r[q] == m[q]);
            }
        }
    } else {
        if i < m.len() {
            assert(m[i].0 != k);
            lemma_name_lt_total(m[i].0, k);
            assert(name_lt(k, m[i].0));
        }
        assert forall|a: int, b: int| 0 <= a < b < r.len() implies name_lt(#[trigger] r[a].0, #[trigger] r[b].0) by {
            if b < i {
                assert(r[a] == m[a] && r[b] == m[b]);
            } else if b == i {
                assert(r[a] == m[a]);
                assert(r[b].0 == k);
            } else if a < i {
                assert(r[a] == m[a]);
                assert(r[b] == m[b - 1]);
                assert(name_lt(m[a].0, k));
                assert(i <= b - 1);
                if b - 1 == i {
                    lemma_bytes_lt_trans(encode_utf8(m[a].0), encode_utf8(k), encode_utf8(m[i].0));
                } else {
                    assert(name_lt(m[i].0, m[b - 1].0));
                    lemma_bytes_lt_trans(encode_utf8(m[a].0), encode_utf8(k), encode_utf8(m[i].0));
                    lemma_bytes_lt_trans(encode_utf8(m[a].0), encode_utf8(m[i].0), encode_utf8(m[b - 1].0));
                }
            } else if a == i {
                assert(r[a].0 == k);
                assert(r[b] == m[b - 1]);
                if b - 1 > i {
                    assert(name_lt(m[i].0, m[b - 1].0));
                    lemma_bytes_lt_trans(encode_utf8(k), encode_utf8(m[i].0), encode_utf8(m[b - 1].0));
                }
            } else {
                assert(r[a] == m[a - 1]);
                assert(r[b] == m[b - 1]);
            }
        }
        assert forall|q: int| 0 <= q < r.len() implies #[trigger] r[q] == (k, v) || m.contains(r[q]) by {
            if q < i {
                assert(r[q] == m[q]);
            } else if q > i {
                assert(r[q] == m[q - 1]);
            }
        }
    }
}

/// Each step of reading a line keeps the providers, and their probes, keyed
/// in order.
pub proof fn lemma_apply_line_sorted(ps: Seq<(Seq<char>, InfoView)>, line: Seq<char>)
    requires
        header_sorted(ps),
        apply_line(ps, line) is Some,
    ensures
        header_sorted(apply_line(ps, line)->Some_0),
{
    let p1 = step_stability(ps, line)->Some_0;
    match needle_parts(line, stability_needle()) {
        None => {},
        Some((name, sym)) => {
            let info = InfoView { stability: sym, typedefs: seq![], is_enabled: seq![], probes: seq![] };
            lemma_set_info_sorted(ps, name, info);
        },
    }
    let p2 = step_typedefs(p1, line)->Some_0;
    match needle_parts(line, typedefs_needle()) {
        None => {},
        Some((name, sym)) => {
            let i = key_slot(p1, name, 0);
            lemma_key_slot(p1, name, 0);
            let info = p1[i].1;
            lemma_set_info_sorted(
                p1,
                name,
                InfoView { stability: info.stability, typedefs: sym, is_enabled: info.is_enabled, probes: info.probes },
            );
        },
    }
    let p3 = step_enabled(p2, line)->Some_0;
    match needle2_parts(line, enabled_needle()) {
        None => {},
        Some((name, probe, sym)) => {
            let i = key_slot(p2, name, 0);
            lemma_key_slot(p2, name, 0);
            let info = p2[i].1;
            lemma_assoc_set_sorted(info.is_enabled, probe, sym);
            lemma_set_info_sorted(
                p2,
                name,
                InfoView {
                    stability: info.stability,
                    typedefs: info.typedefs,
                    is_enabled: assoc_set(info.is_enabled, probe, sym),
                    probes: info.probes,
                },
            );
        },
    }
    match needle2_parts(line, probe_needle()) {
        None => {},
        Some((name, probe, sym)) => {
            let i = key_slot(p3, name, 0);
            lemma_key_slot(p3, name, 0);
            let info = p3[i].1;
            lemma_assoc_set_sorted(info.probes, probe, sym);
            lemma_set_info_sorted(
                p3,
                name,
                InfoView {
                    stability: info.stability,
                    typedefs: info.typedefs,
                    is_enabled: info.is_enabled,
                    probes: assoc_set(info.probes, probe, sym),
                },
            );
        },
    }
}

/// Setting a provider whose probe maps are keyed in order keeps the providers
/// sorted.
pub proof fn lemma_set_info_sorted(ps: Seq<(Seq<char>, InfoView)>, name: Seq<char>, info: InfoView)
    requires
        header_sorted(ps),
        keys_sorted(info.is_enabled),
        keys_sorted(info.probes),
    ensures
        header_sorted(assoc_set(ps, name, info)),
{
    lemma_assoc_set_sorted(ps, name, info);
    let r = assoc_set(ps, name, info);
    assert forall|a: int| 0 <= a < r.len() implies keys_sorted(#[trigger] r[a].1.is_enabled) && keys_sorted(
        r[a].1.probes,
    ) by {
        if r[a] != (name, info) {
            assert(ps.contains(r[a]));
            let j = choose|j: int| 0 <= j < ps.len() && ps[j] == r[a];
            assert(keys_sorted(ps[j].1.is_enabled));
        }
    }
}

/// The providers that a header tells of are keyed by name in order, each
/// once, and so are the probes of each: reading a header gives what a map
/// ordered by name holds.
pub proof fn lemma_header_providers_sorted(ls: Seq<Seq<char>>)
    requires
        providers_from_lines(ls) is Some,
    ensures
        header_sorted(providers_from_lines(ls)->Some_0),
    decreases ls.len(),
{
    if ls.len() == 0 {
    } else {
        lemma_header_providers_sorted(ls.drop_last());
        lemma_apply_line_sorted(providers_from_lines(ls.drop_last())->Some_0, ls.last());
    }
}

} // verus!
