//! The grammar of D provider definitions.
//!
//! A provider definition file holds one or more providers, each with one or
//! more probes:
//!
//! ```text
//! provider test {
//!     probe start(uint8_t);
//!     probe stop(char*, uint8_t);
//! };
//! ```
//!
//! Between any two tokens the grammar skips white space, block comments
//! (`/* ... */`) and `#` lines (such as `#pragma`). Each rule of the grammar
//! is a spec function from a sequence of characters and a start position to
//! the position just after what the rule matched, or `None`; the executable
//! parser computes exactly these functions.

use vstd::prelude::*;
use vstd::string::*;
use crate::types::{BitWidth, DataType, Integer, Sign, TypeName};

verus! {

/// Which variant of the grammar to read. `Legacy` also accepts the argument
/// types of real numbers and `string`.
#[derive(Clone, Copy, Debug, PartialEq, Eq, Structural)]
pub enum Dialect {
    Provider,
    Legacy,
}

/// The rules of the grammar that may be matched on their own.
#[allow(non_camel_case_types)]
#[derive(Clone, Copy, Debug, PartialEq, Eq, Structural)]
pub enum Rule {
    FILE,
    PROVIDER,
    PROBE,
    ARGUMENT_LIST,
    DATA_TYPE,
    IDENTIFIER,
    PROBE_KEY,
    PROVIDER_KEY,
    SEMICOLON,
    LEFT_PAREN,
    RIGHT_PAREN,
    LEFT_BRACE,
    RIGHT_BRACE,
    COMMA,
}

/// The input does not match the requested rule.
#[derive(Clone, Copy, Debug, PartialEq, Eq, Structural)]
pub struct RuleMismatch {
    pub rule: Rule,
}

/// A probe as the grammar reads it: its name and argument types.
pub struct SpecProbe {
    pub name: Seq<char>,
    pub types: Seq<TypeName>,
}

/// A provider as the grammar reads it.
pub struct SpecProvider {
    pub name: Seq<char>,
    pub probes: Seq<SpecProbe>,
}

// ---------------------------------------------------------------------------
// Characters and literal tokens

pub open spec fn is_ws(c: char) -> bool {
    c == ' ' || c == '\t' || c == '\n' || c == '\r'
}

pub open spec fn is_alpha(c: char) -> bool {
    ('a' <= c && c <= 'z') || ('A' <= c && c <= 'Z')
}

pub open spec fn is_digit(c: char) -> bool {
    '0' <= c && c <= '9'
}

pub open spec fn is_ident_char(c: char) -> bool {
    is_alpha(c) || is_digit(c) || c == '_'
}

/// The literal `t` at position `i` of `s`.
pub open spec fn lit(s: Seq<char>, i: int, t: Seq<char>) -> Option<int> {
    if 0 <= i && i + t.len() <= s.len() && s.subrange(i, i + t.len()) == t {
        Some(i + t.len())
    } else {
        None
    }
}

/// The position after the first `*/` at or after `j`.
pub open spec fn close_comment(s: Seq<char>, j: int) -> Option<int>
    decreases s.len() - j,
{
    if j < 0 || j + 2 > s.len() {
        None
    } else if s[j] == '*' && s[j + 1] == '/' {
        Some(j + 2)
    } else {
        close_comment(s, j + 1)
    }
}

/// The position after the end of the line that holds position `j`.
pub open spec fn line_end(s: Seq<char>, j: int) -> int
    decreases s.len() - j,
{
    if j < 0 || j >= s.len() {
        s.len() as int
    } else if s[j] == '\n' {
        j + 1
    } else {
        line_end(s, j + 1)
    }
}

/// The position after any white space, comments and `#` lines at `i`.
pub open spec fn skip(s: Seq<char>, i: int) -> int
    decreases s.len() - i,
{
    if i < 0 || i >= s.len() {
        i
    } else if is_ws(s[i]) {
        skip(s, i + 1)
    } else if s[i] == '/' && i + 1 < s.len() && s[i + 1] == '*' {
        match close_comment(s, i + 2) {
            Some(e) => {
                proof {
                    lemma_close_comment(s, i + 2);
                }
                skip(s, e)
            },
            None => i,
        }
    } else if s[i] == '#' {
        proof {
            lemma_line_end(s, i + 1);
        }
        skip(s, line_end(s, i + 1))
    } else {
        i
    }
}

pub proof fn lemma_close_comment(s: Seq<char>, j: int)
    ensures
        close_comment(s, j) matches Some(e) ==> j + 2 <= e <= s.len(),
    decreases s.len() - j,
{
    if j < 0 || j + 2 > s.len() {
    } else if s[j] == '*' && s[j + 1] == '/' {
    } else {
        lemma_close_comment(s, j + 1);
    }
}

pub proof fn lemma_line_end(s: Seq<char>, j: int)
    requires
        0 <= j <= s.len(),
    ensures
        j <= line_end(s, j) <= s.len(),
        j < s.len() ==> j < line_end(s, j),
    decreases s.len() - j,
{
    if j < s.len() && s[j] != '\n' {
        lemma_line_end(s, j + 1);
    }
}

pub proof fn lemma_skip(s: Seq<char>, i: int)
    requires
        0 <= i <= s.len(),
    ensures
        i <= skip(s, i) <= s.len(),
    decreases s.len() - i,
{
    if i >= s.len() {
    } else if is_ws(s[i]) {
        lemma_skip(s, i + 1);
    } else if s[i] == '/' && i + 1 < s.len() && s[i + 1] == '*' {
        lemma_close_comment(s, i + 2);
        match close_comment(s, i + 2) {
            Some(e) => lemma_skip(s, e),
            None => {},
        }
    } else if s[i] == '#' {
        lemma_line_end(s, i + 1);
        lemma_skip(s, line_end(s, i + 1));
    }
}

// ---------------------------------------------------------------------------
// Identifiers and data types

pub open spec fn ident_run(s: Seq<char>, j: int) -> int
    decreases s.len() - j,
{
    if 0 <= j < s.len() && is_ident_char(s[j]) {
        ident_run(s, j + 1)
    } else {
        j
    }
}

/// An identifier: a letter, then letters, digits and underscores.
pub open spec fn ident(s: Seq<char>, i: int) -> Option<int> {
    if 0 <= i < s.len() && is_alpha(s[i]) {
        Some(ident_run(s, i + 1))
    } else {
        None
    }
}

pub proof fn lemma_ident(s: Seq<char>, i: int)
    ensures
        ident(s, i) matches Some(e) ==> i < e <= s.len(),
{
    if 0 <= i < s.len() && is_alpha(s[i]) {
        lemma_ident_run(s, i + 1);
    }
}

pub proof fn lemma_ident_run(s: Seq<char>, j: int)
    requires
        0 <= j <= s.len(),
    ensures
        j <= ident_run(s, j) <= s.len(),
    decreases s.len() - j,
{
    if j < s.len() && is_ident_char(s[j]) {
        lemma_ident_run(s, j + 1);
    }
}

/// The width part of an integer type name.
pub open spec fn width(s: Seq<char>, j: int) -> Option<(BitWidth, int)> {
    match lit(s, j, "8"@) {
        Some(e) => Some((BitWidth::Bit8, e)),
        None => match lit(s, j, "16"@) {
            Some(e) => Some((BitWidth::Bit16, e)),
            None => match lit(s, j, "32"@) {
                Some(e) => Some((BitWidth::Bit32, e)),
                None => match lit(s, j, "64"@) {
                    Some(e) => Some((BitWidth::Bit64, e)),
                    None => match lit(s, j, "ptr"@) {
                        Some(e) => Some((BitWidth::Pointer, e)),
                        None => None,
                    },
                },
            },
        },
    }
}

pub open spec fn int_rest(s: Seq<char>, sign: Sign, j: int) -> Option<(Integer, int)> {
    match width(s, j) {
        Some((w, k)) => match lit(s, k, "_t"@) {
            Some(e) => Some((Integer { sign, width: w }, e)),
            None => None,
        },
        None => None,
    }
}

/// An integer type name: `uint8_t`, `int64_t`, `uintptr_t` and so on.
pub open spec fn int_type(s: Seq<char>, i: int) -> Option<(Integer, int)> {
    match lit(s, i, "uint"@) {
        Some(j) => int_rest(s, Sign::Unsigned, j),
        None => match lit(s, i, "int"@) {
            Some(j) => int_rest(s, Sign::Signed, j),
            None => None,
        },
    }
}

/// The legacy types: the real type (spelled `fl` `oat`) and `string`.
pub open spec fn legacy_type(s: Seq<char>, i: int) -> Option<(TypeName, int)> {
    match lit(s, i, "fl"@) {
        Some(j) => match lit(s, j, "oat"@) {
            Some(e) => Some((TypeName::Real, e)),
            None => None,
        },
        None => match lit(s, i, "string"@) {
            Some(e) => Some((TypeName::Text, e)),
            None => None,
        },
    }
}

/// A data type: `char*`, an integer type, or an integer type followed by `*`.
pub open spec fn data_type(d: Dialect, s: Seq<char>, i: int) -> Option<(TypeName, int)> {
    match lit(s, i, "char"@) {
        Some(j) => match lit(s, skip(s, j), "*"@) {
            Some(e) => Some((TypeName::Known(DataType::String), e)),
            None => None,
        },
        None => match int_type(s, i) {
            Some((n, e)) => match lit(s, skip(s, e), "*"@) {
                Some(e2) => Some((TypeName::Known(DataType::Pointer(n)), e2)),
                None => Some((TypeName::Known(DataType::Integer(n)), e)),
            },
            None => if d == Dialect::Legacy {
                legacy_type(s, i)
            } else {
                None
            },
        },
    }
}

pub proof fn lemma_lit(s: Seq<char>, i: int, t: Seq<char>)
    ensures
        lit(s, i, t) matches Some(e) ==> e == i + t.len() && i <= e <= s.len(),
{
}

pub proof fn lemma_data_type(d: Dialect, s: Seq<char>, i: int)
    ensures
        data_type(d, s, i) matches Some((_, e)) ==> i < e <= s.len(),
{
    reveal_strlit("8");
    reveal_strlit("16");
    reveal_strlit("32");
    reveal_strlit("64");
    reveal_strlit("ptr");
    reveal_strlit("_t");
    reveal_strlit("uint");
    reveal_strlit("int");
    reveal_strlit("char");
    reveal_strlit("*");
    reveal_strlit("fl");
    reveal_strlit("oat");
    reveal_strlit("string");
    if lit(s, i, "char"@) is Some {
        lemma_skip(s, i + 4);
    } else if int_type(s, i) is Some {
        let e = int_type(s, i).unwrap().1;
        lemma_skip(s, e);
    }
}

// ---------------------------------------------------------------------------
// Argument lists, probes, providers and files

pub open spec fn args_rest(d: Dialect, s: Seq<char>, acc: Seq<TypeName>, e: int) -> (Seq<TypeName>, int)
    decreases s.len() - e,
{
    match lit(s, skip(s, e), ","@) {
        Some(k) => match data_type(d, s, skip(s, k)) {
            Some((t, e2)) => {
                proof {
                    lemma_args_step(d, s, e);
                }
                if e2 <= e {
                    (acc, e)
                } else {
                    args_rest(d, s, acc.push(t), e2)
                }
            },
            None => (acc, e),
        },
        None => (acc, e),
    }
}

pub proof fn lemma_args_step(d: Dialect, s: Seq<char>, e: int)
    ensures
        lit(s, skip(s, e), ","@) matches Some(k) ==> (data_type(d, s, skip(s, k)) matches Some(
            (_, e2),
        ) ==> e < e2 <= s.len()),
{
    reveal_strlit(",");
    match lit(s, skip(s, e), ","@) {
        Some(k) => {
            if 0 <= e <= s.len() {
                lemma_skip(s, e);
            }
            lemma_skip(s, k);
            lemma_data_type(d, s, skip(s, k));
        },
        None => {},
    }
}

/// A comma-separated list of one or more data types.
pub open spec fn args(d: Dialect, s: Seq<char>, i: int) -> Option<(Seq<TypeName>, int)> {
    match data_type(d, s, i) {
        Some((t, e)) => Some(args_rest(d, s, seq![t], e)),
        None => None,
    }
}

pub proof fn lemma_args_rest(d: Dialect, s: Seq<char>, acc: Seq<TypeName>, e: int)
    requires
        0 <= e <= s.len(),
    ensures
        e <= args_rest(d, s, acc, e).1 <= s.len(),
    decreases s.len() - e,
{
    lemma_args_step(d, s, e);
    match lit(s, skip(s, e), ","@) {
        Some(k) => match data_type(d, s, skip(s, k)) {
            Some((t, e2)) => {
                if e2 > e {
                    lemma_args_rest(d, s, acc.push(t), e2);
                }
            },
            None => {},
        },
        None => {},
    }
}

pub proof fn lemma_args(d: Dialect, s: Seq<char>, i: int)
    ensures
        args(d, s, i) matches Some((_, e)) ==> i < e <= s.len(),
{
    lemma_data_type(d, s, i);
    match data_type(d, s, i) {
        Some((t, e)) => lemma_args_rest(d, s, seq![t], e),
        None => {},
    }
}

/// The argument list of a probe, from just after its `(`: the types, and the
/// position at which the closing `)` is expected.
pub open spec fn probe_args(d: Dialect, s: Seq<char>, f: int) -> (Seq<TypeName>, int) {
    match args(d, s, f) {
        Some((ts, g)) => (ts, skip(s, g)),
        None => (seq![], f),
    }
}

/// `probe NAME ( [ARGUMENT_LIST] ) ;`
pub open spec fn probe(d: Dialect, s: Seq<char>, i: int) -> Option<(SpecProbe, int)> {
    match lit(s, i, "probe"@) {
        Some(a) => {
            let b = skip(s, a);
            match ident(s, b) {
                Some(c) => match lit(s, skip(s, c), "("@) {
                    Some(e) => {
                        let (types, g) = probe_args(d, s, skip(s, e));
                        match lit(s, g, ")"@) {
                            Some(h) => match lit(s, skip(s, h), ";"@) {
                                Some(k) => Some((SpecProbe { name: s.subrange(b, c), types }, k)),
                                None => None,
                            },
                            None => None,
                        }
                    },
                    None => None,
                },
                None => None,
            }
        },
        None => None,
    }
}

pub proof fn lemma_probe(d: Dialect, s: Seq<char>, i: int)
    ensures
        probe(d, s, i) matches Some((_, e)) ==> i < e <= s.len(),
{
    reveal_strlit(";");
    reveal_strlit("probe");
    if probe(d, s, i) is Some {
        let a = i + 5;
        lemma_skip(s, a);
        let b = skip(s, a);
        lemma_ident(s, b);
        let c = ident(s, b)->0;
        lemma_skip(s, c);
        let e = lit(s, skip(s, c), "("@)->0;
        lemma_skip(s, e);
        lemma_args(d, s, skip(s, e));
        match args(d, s, skip(s, e)) {
            Some((ts, g)) => lemma_skip(s, g),
            None => {},
        }
        let h = lit(s, probe_args(d, s, skip(s, e)).1, ")"@)->0;
        lemma_skip(s, h);
    }
}

pub open spec fn probes_rest(d: Dialect, s: Seq<char>, acc: Seq<SpecProbe>, f: int) -> (Seq<SpecProbe>, int)
    decreases s.len() - f,
{
    match probe(d, s, skip(s, f)) {
        Some((p, g)) => {
            proof {
                lemma_probe(d, s, skip(s, f));
                if 0 <= f <= s.len() {
                    lemma_skip(s, f);
                }
            }
            if g <= f {
                (acc, f)
            } else {
                probes_rest(d, s, acc.push(p), g)
            }
        },
        None => (acc, f),
    }
}

pub proof fn lemma_probes_rest(d: Dialect, s: Seq<char>, acc: Seq<SpecProbe>, f: int)
    requires
        0 <= f <= s.len(),
    ensures
        f <= probes_rest(d, s, acc, f).1 <= s.len(),
    decreases s.len() - f,
{
    lemma_skip(s, f);
    lemma_probe(d, s, skip(s, f));
    match probe(d, s, skip(s, f)) {
        Some((p, g)) => {
            if g > f {
                lemma_probes_rest(d, s, acc.push(p), g);
            }
        },
        None => {},
    }
}

/// `provider NAME { PROBE+ } ;`
pub open spec fn provider(d: Dialect, s: Seq<char>, i: int) -> Option<(SpecProvider, int)> {
    match lit(s, i, "provider"@) {
        Some(a) => {
            let b = skip(s, a);
            match ident(s, b) {
                Some(c) => match lit(s, skip(s, c), "{"@) {
                    Some(e) => match probe(d, s, skip(s, e)) {
                        Some((p, f)) => {
                            let (ps, g) = probes_rest(d, s, seq![p], f);
                            match lit(s, skip(s, g), "}"@) {
                                Some(h) => match lit(s, skip(s, h), ";"@) {
                                    Some(k) => Some(
                                        (SpecProvider { name: s.subrange(b, c), probes: ps }, k),
                                    ),
                                    None => None,
                                },
                                None => None,
                            }
                        },
                        None => None,
                    },
                    None => None,
                },
                None => None,
            }
        },
        None => None,
    }
}

pub proof fn lemma_provider(d: Dialect, s: Seq<char>, i: int)
    ensures
        provider(d, s, i) matches Some((_, e)) ==> i < e <= s.len(),
{
    reveal_strlit(";");
    reveal_strlit("provider");
    if provider(d, s, i) is Some {
        let a = i + 8;
        lemma_skip(s, a);
        let b = skip(s, a);
        lemma_ident(s, b);
        let c = ident(s, b)->0;
        lemma_skip(s, c);
        let e = lit(s, skip(s, c), "{"@)->0;
        lemma_skip(s, e);
        lemma_probe(d, s, skip(s, e));
        let (p, f) = probe(d, s, skip(s, e))->0;
        lemma_probes_rest(d, s, seq![p], f);
        let g = probes_rest(d, s, seq![p], f).1;
        lemma_skip(s, g);
        let h = lit(s, skip(s, g), "}"@)->0;
        lemma_skip(s, h);
    }
}

pub open spec fn providers_rest(d: Dialect, s: Seq<char>, acc: Seq<SpecProvider>, f: int) -> (Seq<SpecProvider>, int)
    decreases s.len() - f,
{
    match provider(d, s, skip(s, f)) {
        Some((p, g)) => {
            proof {
                lemma_provider(d, s, skip(s, f));
                if 0 <= f <= s.len() {
                    lemma_skip(s, f);
                }
            }
            if g <= f {
                (acc, f)
            } else {
                providers_rest(d, s, acc.push(p), g)
            }
        },
        None => (acc, f),
    }
}

pub proof fn lemma_providers_rest(d: Dialect, s: Seq<char>, acc: Seq<SpecProvider>, f: int)
    requires
        0 <= f <= s.len(),
    ensures
        f <= providers_rest(d, s, acc, f).1 <= s.len(),
    decreases s.len() - f,
{
    lemma_skip(s, f);
    lemma_provider(d, s, skip(s, f));
    match provider(d, s, skip(s, f)) {
        Some((p, g)) => {
            if g > f {
                lemma_providers_rest(d, s, acc.push(p), g);
            }
        },
        None => {},
    }
}

/// A whole file: one or more providers, and nothing else but white space,
/// comments and `#` lines.
pub open spec fn file(d: Dialect, s: Seq<char>) -> Option<Seq<SpecProvider>> {
    match provider(d, s, skip(s, 0)) {
        Some((p, e)) => {
            let (ps, f) = providers_rest(d, s, seq![p], e);
            if skip(s, f) == s.len() {
                Some(ps)
            } else {
                None
            }
        },
        None => None,
    }
}

/// What a rule matches at the start of `s`: the number of characters. The
/// rules made of several tokens (files, providers, probes and argument lists)
/// may be preceded by white space and comments; single tokens may not.
pub open spec fn rule_end(d: Dialect, rule: Rule, s: Seq<char>) -> Option<int> {
    match rule {
        Rule::FILE => if file(d, s) is Some {
            Some(s.len() as int)
        } else {
            None
        },
        Rule::PROVIDER => match provider(d, s, skip(s, 0)) {
            Some((_, e)) => Some(e),
            None => None,
        },
        Rule::PROBE => match probe(d, s, skip(s, 0)) {
            Some((_, e)) => Some(e),
            None => None,
        },
        Rule::ARGUMENT_LIST => match args(d, s, skip(s, 0)) {
            Some((_, e)) => Some(e),
            None => None,
        },
        Rule::DATA_TYPE => match data_type(d, s, 0) {
            Some((_, e)) => Some(e),
            None => None,
        },
        Rule::IDENTIFIER => ident(s, 0),
        Rule::PROBE_KEY => lit(s, 0, "probe"@),
        Rule::PROVIDER_KEY => lit(s, 0, "provider"@),
        Rule::SEMICOLON => lit(s, 0, ";"@),
        Rule::LEFT_PAREN => lit(s, 0, "("@),
        Rule::RIGHT_PAREN => lit(s, 0, ")"@),
        Rule::LEFT_BRACE => lit(s, 0, "{"@),
        Rule::RIGHT_BRACE => lit(s, 0, "}"@),
        Rule::COMMA => lit(s, 0, ","@),
    }
}

// ---------------------------------------------------------------------------
// The executable parser

/// A probe declaration as read from source text.
pub struct ProbeDecl {
    pub name: String,
    pub types: Vec<TypeName>,
}

impl View for ProbeDecl {
    type V = SpecProbe;

    open spec fn view(&self) -> SpecProbe {
        SpecProbe { name: self.name@, types: self.types@ }
    }
}

/// A provider declaration as read from source text.
pub struct ProviderDecl {
    pub name: String,
    pub probes: Vec<ProbeDecl>,
}

impl View for ProviderDecl {
    type V = SpecProvider;

    open spec fn view(&self) -> SpecProvider {
        SpecProvider { name: self.name@, probes: self.probes@.map_values(|p: ProbeDecl| p@) }
    }
}

/// The characters of `src`, one by one.
pub fn chars_of(src: &str) -> (v: Vec<char>)
    ensures
        v@ == src@,
{
    let n = src.unicode_len();
    let mut v: Vec<char> = Vec::new();
    let mut i: usize = 0;
    while i < n
        invariant
            n == src@.len(),
            i <= n,
            v@ == src@.subrange(0, i as int),
        decreases n - i,
    {
        v.push(src.get_char(i));
        i = i + 1;
        proof {
            assert(v@ =~= src@.subrange(0, i as int));
        }
    }
    proof {
        assert(v@ =~= src@);
    }
    v
}

fn lit_at(s: &Vec<char>, i: usize, t: &str) -> (r: Option<usize>)
    requires
        i <= s.len(),
    ensures
        match r {
            Some(x) => lit(s@, i as int, t@) == Some(x as int),
            None => lit(s@, i as int, t@) is None,
        },
{
    let n = t.unicode_len();
    if n > s.len() - i {
        return None;
    }
    let mut k: usize = 0;
    while k < n
        invariant
            n == t@.len(),
            i + n <= s.len(),
            k <= n,
            forall|m: int| 0 <= m < k ==> s@[i + m] == t@[m],
        decreases n - k,
    {
        if s[i + k] != t.get_char(k) {
            proof {
                assert(s@.subrange(i as int, i + n)[k as int] != t@[k as int]);
            }
            return None;
        }
        k = k + 1;
    }
    proof {
        assert(s@.subrange(i as int, i + n) =~= t@);
    }
    Some(i + n)
}

fn close_comment_at(s: &Vec<char>, j: usize) -> (r: Option<usize>)
    requires
        j <= s.len(),
    ensures
        match r {
            Some(x) => close_comment(s@, j as int) == Some(x as int),
            None => close_comment(s@, j as int) is None,
        },
{
    let mut k = j;
    while s.len() - k >= 2
        invariant
            j <= k <= s.len(),
            close_comment(s@, k as int) == close_comment(s@, j as int),
        decreases s.len() - k,
    {
        if s[k] == '*' && s[k + 1] == '/' {
            return Some(k + 2);
        }
        k = k + 1;
    }
    None
}

fn line_end_at(s: &Vec<char>, j: usize) -> (r: usize)
    requires
        j <= s.len(),
    ensures
        r as int == line_end(s@, j as int),
{
    let mut k = j;
    while k < s.len()
        invariant
            j <= k <= s.len(),
            line_end(s@, k as int) == line_end(s@, j as int),
        decreases s.len() - k,
    {
        if s[k] == '\n' {
            return k + 1;
        }
        k = k + 1;
    }
    k
}

/// The position after any white space, comments and `#` lines at `i`.
pub fn skip_at(s: &Vec<char>, i: usize) -> (r: usize)
    requires
        i <= s.len(),
    ensures
        r as int == skip(s@, i as int),
        i <= r <= s.len(),
{
    let mut j = i;
    while j < s.len()
        invariant
            i <= j <= s.len(),
            skip(s@, j as int) == skip(s@, i as int),
        decreases s.len() - j,
    {
        let c = s[j];
        if c == ' ' || c == '\t' || c == '\n' || c == '\r' {
            j = j + 1;
        } else if c == '/' && j + 1 < s.len() && s[j + 1] == '*' {
            proof {
                lemma_close_comment(s@, j + 2);
            }
            match close_comment_at(s, j + 2) {
                Some(e) => {
                    j = e;
                },
                None => {
                    return j;
                },
            }
        } else if c == '#' {
            proof {
                lemma_line_end(s@, j + 1);
            }
            j = line_end_at(s, j + 1);
        } else {
            return j;
        }
    }
    j
}

fn is_alpha_char(c: char) -> (b: bool)
    ensures
        b == is_alpha(c),
{
    (c >= 'a' && c <= 'z') || (c >= 'A' && c <= 'Z')
}

fn is_ident_char_exec(c: char) -> (b: bool)
    ensures
        b == is_ident_char(c),
{
    is_alpha_char(c) || (c >= '0' && c <= '9') || c == '_'
}

fn ident_at(s: &Vec<char>, i: usize) -> (r: Option<usize>)
    requires
        i <= s.len(),
    ensures
        match r {
            Some(x) => ident(s@, i as int) == Some(x as int),
            None => ident(s@, i as int) is None,
        },
{
    if i < s.len() && is_alpha_char(s[i]) {
        let mut k = i + 1;
        while k < s.len()
            invariant
                i < k <= s.len(),
                is_alpha(s@[i as int]),
                ident_run(s@, k as int) == ident_run(s@, i + 1),
            decreases s.len() - k,
        {
            if !is_ident_char_exec(s[k]) {
                proof {
                    assert(ident_run(s@, k as int) == k as int);
                }
                return Some(k);
            }
            k = k + 1;
        }
        proof {
            assert(ident_run(s@, k as int) == k as int);
        }
        Some(k)
    } else {
        None
    }
}

fn width_at(s: &Vec<char>, j: usize) -> (r: Option<(BitWidth, usize)>)
    requires
        j <= s.len(),
    ensures
        match r {
            Some((w, x)) => width(s@, j as int) == Some((w, x as int)),
            None => width(s@, j as int) is None,
        },
{
    match lit_at(s, j, "8") {
        Some(e) => Some((BitWidth::Bit8, e)),
        None => match lit_at(s, j, "16") {
            Some(e) => Some((BitWidth::Bit16, e)),
            None => match lit_at(s, j, "32") {
                Some(e) => Some((BitWidth::Bit32, e)),
                None => match lit_at(s, j, "64") {
                    Some(e) => Some((BitWidth::Bit64, e)),
                    None => match lit_at(s, j, "ptr") {
                        Some(e) => Some((BitWidth::Pointer, e)),
                        None => None,
                    },
                },
            },
        },
    }
}

fn int_rest_at(s: &Vec<char>, sign: Sign, j: usize) -> (r: Option<(Integer, usize)>)
    requires
        j <= s.len(),
    ensures
        match r {
            Some((n, x)) => int_rest(s@, sign, j as int) == Some((n, x as int)),
            None => int_rest(s@, sign, j as int) is None,
        },
{
    match width_at(s, j) {
        Some((w, k)) => {
            proof {
                lemma_lit(s@, j as int, "8"@);
                lemma_lit(s@, j as int, "16"@);
                lemma_lit(s@, j as int, "32"@);
                lemma_lit(s@, j as int, "64"@);
                lemma_lit(s@, j as int, "ptr"@);
            }
            match lit_at(s, k, "_t") {
                Some(e) => Some((Integer { sign, width: w }, e)),
                None => None,
            }
        },
        None => None,
    }
}

fn int_type_at(s: &Vec<char>, i: usize) -> (r: Option<(Integer, usize)>)
    requires
        i <= s.len(),
    ensures
        match r {
            Some((n, x)) => int_type(s@, i as int) == Some((n, x as int)),
            None => int_type(s@, i as int) is None,
        },
{
    match lit_at(s, i, "uint") {
        Some(j) => int_rest_at(s, Sign::Unsigned, j),
        None => match lit_at(s, i, "int") {
            Some(j) => int_rest_at(s, Sign::Signed, j),
            None => None,
        },
    }
}

fn legacy_type_at(s: &Vec<char>, i: usize) -> (r: Option<(TypeName, usize)>)
    requires
        i <= s.len(),
    ensures
        match r {
            Some((t, x)) => legacy_type(s@, i as int) == Some((t, x as int)),
            None => legacy_type(s@, i as int) is None,
        },
{
    match lit_at(s, i, "fl") {
        Some(j) => match lit_at(s, j, "oat") {
            Some(e) => Some((TypeName::Real, e)),
            None => None,
        },
        None => match lit_at(s, i, "string") {
            Some(e) => Some((TypeName::Text, e)),
            None => None,
        },
    }
}

fn data_type_at(d: Dialect, s: &Vec<char>, i: usize) -> (r: Option<(TypeName, usize)>)
    requires
        i <= s.len(),
    ensures
        match r {
            Some((t, x)) => data_type(d, s@, i as int) == Some((t, x as int)),
            None => data_type(d, s@, i as int) is None,
        },
{
    match lit_at(s, i, "char") {
        Some(j) => {
            let k = skip_at(s, j);
            match lit_at(s, k, "*") {
                Some(e) => Some((TypeName::Known(DataType::String), e)),
                None => None,
            }
        },
        None => match int_type_at(s, i) {
            Some((n, e)) => {
                let k = skip_at(s, e);
                match lit_at(s, k, "*") {
                    Some(e2) => Some((TypeName::Known(DataType::Pointer(n)), e2)),
                    None => Some((TypeName::Known(DataType::Integer(n)), e)),
                }
            },
            None => {
                if d == Dialect::Legacy {
                    legacy_type_at(s, i)
                } else {
                    None
                }
            },
        },
    }
}

fn args_rest_at(d: Dialect, s: &Vec<char>, acc0: Vec<TypeName>, e0: usize) -> (r: (
    Vec<TypeName>,
    usize,
))
    requires
        e0 <= s.len(),
    ensures
        args_rest(d, s@, acc0@, e0 as int) == (r.0@, r.1 as int),
        r.1 <= s.len(),
{
    let mut acc = acc0;
    let mut e = e0;
    loop
        invariant
            e <= s.len(),
            args_rest(d, s@, acc@, e as int) == args_rest(d, s@, acc0@, e0 as int),
        decreases s.len() - e,
    {
        proof {
            lemma_args_step(d, s@, e as int);
        }
        let j = skip_at(s, e);
        match lit_at(s, j, ",") {
            Some(k) => {
                let k2 = skip_at(s, k);
                match data_type_at(d, s, k2) {
                    Some((t, e2)) => {
                        proof {
                            assert(args_rest(d, s@, acc@, e as int) == args_rest(
                                d,
                                s@,
                                acc@.push(t),
                                e2 as int,
                            ));
                        }
                        acc.push(t);
                        e = e2;
                    },
                    None => {
                        proof {
                            assert(args_rest(d, s@, acc@, e as int) == (acc@, e as int));
                        }
                        return (acc, e);
                    },
                }
            },
            None => {
                proof {
                    assert(args_rest(d, s@, acc@, e as int) == (acc@, e as int));
                }
                return (acc, e);
            },
        }
    }
}

fn args_at(d: Dialect, s: &Vec<char>, i: usize) -> (r: Option<(Vec<TypeName>, usize)>)
    requires
        i <= s.len(),
    ensures
        match r {
            Some((ts, x)) => args(d, s@, i as int) == Some((ts@, x as int)),
            None => args(d, s@, i as int) is None,
        },
{
    proof {
        lemma_data_type(d, s@, i as int);
    }
    match data_type_at(d, s, i) {
        Some((t0, e0)) => {
            let mut acc: Vec<TypeName> = Vec::new();
            acc.push(t0);
            proof {
                assert(acc@ =~= seq![t0]);
            }
            Some(args_rest_at(d, s, acc, e0))
        },
        None => None,
    }
}

fn probe_at(d: Dialect, src: &str, s: &Vec<char>, i: usize) -> (r: Option<(ProbeDecl, usize)>)
    requires
        i <= s.len(),
        s@ == src@,
    ensures
        match r {
            Some((p, x)) => probe(d, s@, i as int) == Some((p@, x as int)),
            None => probe(d, s@, i as int) is None,
        },
{
    let a = match lit_at(s, i, "probe") {
        Some(a) => a,
        None => {
            return None;
        },
    };
    let b = skip_at(s, a);
    proof {
        lemma_ident(s@, b as int);
    }
    let c = match ident_at(s, b) {
        Some(c) => c,
        None => {
            return None;
        },
    };
    let c2 = skip_at(s, c);
    let e = match lit_at(s, c2, "(") {
        Some(e) => e,
        None => {
            return None;
        },
    };
    let f = skip_at(s, e);
    proof {
        lemma_args(d, s@, f as int);
    }
    let (types, g) = match args_at(d, s, f) {
        Some((ts, g0)) => (ts, skip_at(s, g0)),
        None => (Vec::new(), f),
    };
    proof {
        assert(probe_args(d, s@, f as int) == (types@, g as int));
    }
    let h = match lit_at(s, g, ")") {
        Some(h) => h,
        None => {
            return None;
        },
    };
    let h2 = skip_at(s, h);
    let k = match lit_at(s, h2, ";") {
        Some(k) => k,
        None => {
            return None;
        },
    };
    let name = String::from_str(src.substring_char(b, c));
    Some((ProbeDecl { name, types }, k))
}

proof fn lemma_push_view(v: Seq<ProbeDecl>, p: ProbeDecl)
    ensures
        v.push(p).map_values(|q: ProbeDecl| q@) == v.map_values(|q: ProbeDecl| q@).push(p@),
{
    assert(v.push(p).map_values(|q: ProbeDecl| q@) =~= v.map_values(|q: ProbeDecl| q@).push(p@));
}

fn probes_rest_at(d: Dialect, src: &str, s: &Vec<char>, acc0: Vec<ProbeDecl>, f0: usize) -> (r: (
    Vec<ProbeDecl>,
    usize,
))
    requires
        f0 <= s.len(),
        s@ == src@,
    ensures
        probes_rest(d, s@, acc0@.map_values(|q: ProbeDecl| q@), f0 as int) == (
            r.0@.map_values(|q: ProbeDecl| q@),
            r.1 as int,
        ),
        r.1 <= s.len(),
{
    let mut acc = acc0;
    let mut f = f0;
    loop
        invariant
            f <= s.len(),
            s@ == src@,
            probes_rest(d, s@, acc@.map_values(|q: ProbeDecl| q@), f as int) == probes_rest(
                d,
                s@,
                acc0@.map_values(|q: ProbeDecl| q@),
                f0 as int,
            ),
        decreases s.len() - f,
    {
        let f2 = skip_at(s, f);
        proof {
            lemma_probe(d, s@, f2 as int);
        }
        match probe_at(d, src, s, f2) {
            Some((p, g)) => {
                proof {
                    lemma_push_view(acc@, p);
                }
                acc.push(p);
                f = g;
            },
            None => {
                return (acc, f);
            },
        }
    }
}

fn provider_at(d: Dialect, src: &str, s: &Vec<char>, i: usize) -> (r: Option<(ProviderDecl, usize)>)
    requires
        i <= s.len(),
        s@ == src@,
    ensures
        match r {
            Some((p, x)) => provider(d, s@, i as int) == Some((p@, x as int)),
            None => provider(d, s@, i as int) is None,
        },
{
    let a = match lit_at(s, i, "provider") {
        Some(a) => a,
        None => {
            return None;
        },
    };
    let b = skip_at(s, a);
    proof {
        lemma_ident(s@, b as int);
    }
    let c = match ident_at(s, b) {
        Some(c) => c,
        None => {
            return None;
        },
    };
    let c2 = skip_at(s, c);
    let e = match lit_at(s, c2, "{") {
        Some(e) => e,
        None => {
            return None;
        },
    };
    let e2 = skip_at(s, e);
    proof {
        lemma_probe(d, s@, e2 as int);
    }
    let (p0, f0) = match probe_at(d, src, s, e2) {
        Some(p) => p,
        None => {
            return None;
        },
    };
    let ghost first = p0@;
    let mut probes0: Vec<ProbeDecl> = Vec::new();
    probes0.push(p0);
    proof {
        assert(probes0@.map_values(|q: ProbeDecl| q@) =~= seq![first]);
    }
    let (probes, g) = probes_rest_at(d, src, s, probes0, f0);
    let g2 = skip_at(s, g);
    let h = match lit_at(s, g2, "}") {
        Some(h) => h,
        None => {
            return None;
        },
    };
    let h2 = skip_at(s, h);
    let k = match lit_at(s, h2, ";") {
        Some(k) => k,
        None => {
            return None;
        },
    };
    let name = String::from_str(src.substring_char(b, c));
    Some((ProviderDecl { name, probes }, k))
}

proof fn lemma_push_provider_view(v: Seq<ProviderDecl>, p: ProviderDecl)
    ensures
        v.push(p).map_values(|q: ProviderDecl| q@) == v.map_values(|q: ProviderDecl| q@).push(p@),
{
    assert(v.push(p).map_values(|q: ProviderDecl| q@) =~= v.map_values(|q: ProviderDecl| q@).push(
        p@,
    ));
}

fn providers_rest_at(
    d: Dialect,
    src: &str,
    s: &Vec<char>,
    acc0: Vec<ProviderDecl>,
    f0: usize,
) -> (r: (Vec<ProviderDecl>, usize))
    requires
        f0 <= s.len(),
        s@ == src@,
    ensures
        providers_rest(d, s@, acc0@.map_values(|q: ProviderDecl| q@), f0 as int) == (
            r.0@.map_values(|q: ProviderDecl| q@),
            r.1 as int,
        ),
        r.1 <= s.len(),
{
    let mut acc = acc0;
    let mut f = f0;
    loop
        invariant
            f <= s.len(),
            s@ == src@,
            providers_rest(d, s@, acc@.map_values(|q: ProviderDecl| q@), f as int)
                == providers_rest(d, s@, acc0@.map_values(|q: ProviderDecl| q@), f0 as int),
        decreases s.len() - f,
    {
        let f2 = skip_at(s, f);
        proof {
            lemma_provider(d, s@, f2 as int);
        }
        match provider_at(d, src, s, f2) {
            Some((p, g)) => {
                proof {
                    lemma_push_provider_view(acc@, p);
                }
                acc.push(p);
                f = g;
            },
            None => {
                return (acc, f);
            },
        }
    }
}

/// Read a whole file of provider definitions.
pub fn file_at(d: Dialect, src: &str, s: &Vec<char>) -> (r: Option<Vec<ProviderDecl>>)
    requires
        s@ == src@,
    ensures
        match r {
            Some(ps) => file(d, s@) == Some(ps@.map_values(|q: ProviderDecl| q@)),
            None => file(d, s@) is None,
        },
{
    let i = skip_at(s, 0);
    proof {
        lemma_provider(d, s@, i as int);
    }
    let (p0, e0) = match provider_at(d, src, s, i) {
        Some(p) => p,
        None => {
            return None;
        },
    };
    let ghost first = p0@;
    let mut acc: Vec<ProviderDecl> = Vec::new();
    acc.push(p0);
    proof {
        assert(acc@.map_values(|q: ProviderDecl| q@) =~= seq![first]);
    }
    let (providers, f) = providers_rest_at(d, src, s, acc, e0);
    if skip_at(s, f) == s.len() {
        Some(providers)
    } else {
        None
    }
}

/// Match `rule` against the start of `input`, in the given dialect of the
/// grammar; the result is the number of characters matched.
pub fn parse_in(d: Dialect, rule: Rule, input: &str) -> (r: Result<usize, RuleMismatch>)
    ensures
        match r {
            Ok(n) => rule_end(d, rule, input@) == Some(n as int),
            Err(e) => rule_end(d, rule, input@) is None && e.rule == rule,
        },
{
    let s = chars_of(input);
    let m: Option<usize> = match rule {
        Rule::FILE => match file_at(d, input, &s) {
            Some(_) => Some(s.len()),
            None => None,
        },
        Rule::PROVIDER => match provider_at(d, input, &s, skip_at(&s, 0)) {
            Some((_, e)) => Some(e),
            None => None,
        },
        Rule::PROBE => match probe_at(d, input, &s, skip_at(&s, 0)) {
            Some((_, e)) => Some(e),
            None => None,
        },
        Rule::ARGUMENT_LIST => match args_at(d, &s, skip_at(&s, 0)) {
            Some((_, e)) => Some(e),
            None => None,
        },
        Rule::DATA_TYPE => match data_type_at(d, &s, 0) {
            Some((_, e)) => Some(e),
            None => None,
        },
        Rule::IDENTIFIER => ident_at(&s, 0),
        Rule::PROBE_KEY => lit_at(&s, 0, "probe"),
        Rule::PROVIDER_KEY => lit_at(&s, 0, "provider"),
        Rule::SEMICOLON => lit_at(&s, 0, ";"),
        Rule::LEFT_PAREN => lit_at(&s, 0, "("),
        Rule::RIGHT_PAREN => lit_at(&s, 0, ")"),
        Rule::LEFT_BRACE => lit_at(&s, 0, "{"),
        Rule::RIGHT_BRACE => lit_at(&s, 0, "}"),
        Rule::COMMA => lit_at(&s, 0, ","),
    };
    match m {
        Some(n) => Ok(n),
        None => Err(RuleMismatch { rule }),
    }
}

/// Match `rule` against the start of `input`: the number of characters
/// matched, or the rule that did not match.
pub fn parse(rule: Rule, input: &str) -> (r: Result<usize, RuleMismatch>)
    ensures
        match r {
            Ok(n) => rule_end(Dialect::Provider, rule, input@) == Some(n as int),
            Err(e) => rule_end(Dialect::Provider, rule, input@) is None && e.rule == rule,
        },
{
    parse_in(Dialect::Provider, rule, input)
}

/// The parser of provider definitions.
pub struct DTraceParser;

impl DTraceParser {
    /// Match `rule` against the start of `input`.
    pub fn parse(rule: Rule, input: &str) -> (r: Result<usize, RuleMismatch>)
        ensures
            match r {
                Ok(n) => rule_end(Dialect::Provider, rule, input@) == Some(n as int),
                Err(e) => rule_end(Dialect::Provider, rule, input@) is None && e.rule == rule,
            },
    {
        parse_in(Dialect::Provider, rule, input)
    }
}

} // verus!
