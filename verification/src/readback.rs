//! The D source that a provider gives reads back as that provider: the
//! grammar of provider definitions accepts it, and finds the same names and
//! types.

use vstd::prelude::*;
use vstd::string::*;
use crate::grammar::{
    Dialect, SpecProbe, SpecProvider, data_type, ident, ident_run, int_rest, int_type, is_alpha, is_ident_char,
    is_ws, lit, skip, width,
};
use crate::definition::{joined, c_type_of, probe_source, provider_source, DataType, Probe};
use crate::parser::{
    read_source, decls_known, all_known, provider_def, known_type, probe_pairs, provider_pairs,
    first_repeat_from,
    ProbeView, ProviderView, DTraceErrorKind,
};
use crate::types::{BitWidth, DataType as NativeDataType, Integer, Sign, TypeName, c_integer_name, c_type_name};

verus! {

// ---------------------------------------------------------------------------
// Tokens at known positions

/// `t` stands in `s` at position `i`.
pub open spec fn text_at(s: Seq<char>, i: int, t: Seq<char>) -> bool {
    0 <= i && i + t.len() <= s.len() && s.subrange(i, i + t.len()) == t
}

pub proof fn lemma_text_at_char(s: Seq<char>, i: int, t: Seq<char>, k: int)
    requires
        text_at(s, i, t),
        0 <= k < t.len(),
    ensures
        s[i + k] == t[k],
{
    assert(s.subrange(i, i + t.len())[k] == s[i + k]);
}

/// A part of `t` stands where `t` does.
pub proof fn lemma_text_at_part(s: Seq<char>, i: int, t: Seq<char>, a: int, b: int)
    requires
        text_at(s, i, t),
        0 <= a <= b <= t.len(),
    ensures
        text_at(s, i + a, t.subrange(a, b)),
{
    assert(s.subrange(i + a, i + b) =~= t.subrange(a, b)) by {
        assert forall|q: int| 0 <= q < b - a implies #[trigger] s.subrange(i + a, i + b)[q] == t.subrange(
            a,
            b,
        )[q] by {
            lemma_text_at_char(s, i, t, a + q);
        }
    }
}

pub proof fn lemma_lit_at(s: Seq<char>, i: int, t: Seq<char>)
    requires
        text_at(s, i, t),
    ensures
        lit(s, i, t) == Some(i + t.len()),
{
}

/// A literal whose first character differs from the one at `i` is not there.
pub proof fn lemma_lit_not_at(s: Seq<char>, i: int, t: Seq<char>)
    requires
        0 <= i < s.len(),
        t.len() > 0,
        s[i] != t[0],
    ensures
        lit(s, i, t) is None,
{
    if 0 <= i && i + t.len() <= s.len() && s.subrange(i, i + t.len()) == t {
        assert(s.subrange(i, i + t.len())[0] == s[i]);
    }
}

/// Nothing is skipped before a character that opens no white space, comment
/// or `#` line, nor at the end.
pub proof fn lemma_skip_stops(s: Seq<char>, i: int)
    requires
        0 <= i <= s.len(),
        i < s.len() ==> !is_ws(s[i]) && s[i] != '#' && s[i] != '/',
    ensures
        skip(s, i) == i,
{
}

/// White space is skipped.
pub proof fn lemma_skip_ws(s: Seq<char>, i: int)
    requires
        0 <= i < s.len(),
        is_ws(s[i]),
    ensures
        skip(s, i) == skip(s, i + 1),
{
}

/// A run of identifier characters ends where they do.
pub proof fn lemma_ident_run_to(s: Seq<char>, i: int, e: int)
    requires
        0 <= i <= e <= s.len(),
        forall|q: int| i <= q < e ==> is_ident_char(#[trigger] s[q]),
        e < s.len() ==> !is_ident_char(s[e]),
    ensures
        ident_run(s, i) == e,
    decreases e - i,
{
    if i < e {
        lemma_ident_run_to(s, i + 1, e);
    }
}

/// A name that the grammar reads as an identifier: a letter, then letters,
/// digits and underscores.
pub open spec fn is_name(n: Seq<char>) -> bool {
    &&& n.len() > 0
    &&& is_alpha(n[0])
    &&& forall|q: int| 0 <= q < n.len() ==> is_ident_char(#[trigger] n[q])
}

pub proof fn lemma_ident_at(s: Seq<char>, i: int, n: Seq<char>)
    requires
        text_at(s, i, n),
        is_name(n),
        i + n.len() < s.len() ==> !is_ident_char(s[i + n.len()]),
    ensures
        ident(s, i) == Some(i + n.len()),
        s.subrange(i, i + n.len()) == n,
{
    lemma_text_at_char(s, i, n, 0);
    assert forall|q: int| i + 1 <= q < i + n.len() implies is_ident_char(#[trigger] s[q]) by {
        lemma_text_at_char(s, i, n, q - i);
    }
    lemma_ident_run_to(s, i + 1, i + n.len());
}

// ---------------------------------------------------------------------------
// Data types

/// A data type's C name reads back as that type, where a `,` or a `)`
/// follows it.
pub proof fn lemma_type_at(s: Seq<char>, i: int, t: NativeDataType)
    requires
        text_at(s, i, c_type_name(t)),
        i + c_type_name(t).len() < s.len(),
        s[i + c_type_name(t).len()] == ',' || s[i + c_type_name(t).len()] == ')',
    ensures
        data_type(Dialect::Provider, s, i) == Some((TypeName::Known(t), i + c_type_name(t).len())),
{
    reveal_strlit("8");
    reveal_strlit("16");
    reveal_strlit("32");
    reveal_strlit("64");
    reveal_strlit("ptr");
    reveal_strlit("_t");
    reveal_strlit("uint");
    reveal_strlit("int");
    reveal_strlit("char");
    reveal_strlit("*");
    reveal_strlit("char*");
    let c = c_type_name(t);
    let e = i + c.len();
    match t {
        NativeDataType::String => {
            lemma_text_at_part(s, i, c, 0, 4);
            assert(c.subrange(0, 4) =~= "char"@);
            lemma_lit_at(s, i, "char"@);
            lemma_text_at_char(s, i, c, 4);
            lemma_skip_stops(s, i + 4);
            lemma_text_at_part(s, i, c, 4, 5);
            assert(c.subrange(4, 5) =~= "*"@);
            lemma_lit_at(s, i + 4, "*"@);
        },
        NativeDataType::Integer(n) => {
            lemma_integer_at(s, i, n);
            lemma_text_at_char(s, i, c, 0);
            lemma_lit_not_at(s, i, "char"@);
            lemma_skip_stops(s, e);
            lemma_lit_not_at(s, e, "*"@);
        },
        NativeDataType::Pointer(n) => {
            let m = c_integer_name(n);
            lemma_text_at_part(s, i, c, 0, m.len() as int);
            assert(c.subrange(0, m.len() as int) =~= m);
            lemma_integer_at(s, i, n);
            lemma_text_at_char(s, i, c, 0);
            assert(c[0] == m[0]);
            lemma_lit_not_at(s, i, "char"@);
            lemma_text_at_char(s, i, c, m.len() as int);
            lemma_skip_stops(s, i + m.len());
            lemma_text_at_part(s, i, c, m.len() as int, c.len() as int);
            assert(c.subrange(m.len() as int, c.len() as int) =~= "*"@);
            lemma_lit_at(s, i + m.len(), "*"@);
        },
    }
}

/// An integer type's name reads back as that integer.
pub proof fn lemma_integer_at(s: Seq<char>, i: int, n: Integer)
    requires
        text_at(s, i, c_integer_name(n)),
    ensures
        int_type(s, i) == Some((n, i + c_integer_name(n).len())),
        c_integer_name(n)[0] == 'u' || c_integer_name(n)[0] == 'i',
{
    reveal_strlit("8");
    reveal_strlit("16");
    reveal_strlit("32");
    reveal_strlit("64");
    reveal_strlit("ptr");
    reveal_strlit("_t");
    reveal_strlit("uint");
    reveal_strlit("int");
    reveal_strlit("uint8_t");
    reveal_strlit("uint16_t");
    reveal_strlit("uint32_t");
    reveal_strlit("uint64_t");
    reveal_strlit("uintptr_t");
    reveal_strlit("int8_t");
    reveal_strlit("int16_t");
    reveal_strlit("int32_t");
    reveal_strlit("int64_t");
    reveal_strlit("intptr_t");
    let c = c_integer_name(n);
    let (pre, w, wt): (Seq<char>, Seq<char>, BitWidth) = match n.width {
        BitWidth::Bit8 => (if n.sign == Sign::Unsigned { "uint"@ } else { "int"@ }, "8"@, BitWidth::Bit8),
        BitWidth::Bit16 => (if n.sign == Sign::Unsigned { "uint"@ } else { "int"@ }, "16"@, BitWidth::Bit16),
        BitWidth::Bit32 => (if n.sign == Sign::Unsigned { "uint"@ } else { "int"@ }, "32"@, BitWidth::Bit32),
        BitWidth::Bit64 => (if n.sign == Sign::Unsigned { "uint"@ } else { "int"@ }, "64"@, BitWidth::Bit64),
        BitWidth::Pointer => (if n.sign == Sign::Unsigned { "uint"@ } else { "int"@ }, "ptr"@, BitWidth::Pointer),
    };
    assert(c =~= pre + w + "_t"@);
    let j = i + pre.len();
    let k = j + w.len();
    lemma_text_at_part(s, i, c, 0, pre.len() as int);
    assert(c.subrange(0, pre.len() as int) =~= pre);
    lemma_lit_at(s, i, pre);
    if n.sign == Sign::Signed {
        lemma_text_at_char(s, i, c, 0);
        lemma_lit_not_at(s, i, "uint"@);
    }
    lemma_text_at_part(s, i, c, pre.len() as int, (pre.len() + w.len()) as int);
    assert(c.subrange(pre.len() as int, (pre.len() + w.len()) as int) =~= w);
    lemma_lit_at(s, j, w);
    lemma_text_at_char(s, i, c, pre.len() as int);
    if wt != BitWidth::Bit8 {
        lemma_lit_not_at(s, j, "8"@);
    }
    if wt != BitWidth::Bit8 && wt != BitWidth::Bit16 {
        lemma_lit_not_at(s, j, "16"@);
    }
    if wt == BitWidth::Bit64 || wt == BitWidth::Pointer {
        lemma_lit_not_at(s, j, "32"@);
    }
    if wt == BitWidth::Pointer {
        lemma_lit_not_at(s, j, "64"@);
    }
    assert(width(s, j) == Some((wt, k)));
    lemma_text_at_part(s, i, c, (pre.len() + w.len()) as int, c.len() as int);
    assert(c.subrange((pre.len() + w.len()) as int, c.len() as int) =~= "_t"@);
    lemma_lit_at(s, k, "_t"@);
    assert(int_rest(s, n.sign, j) == Some((Integer { sign: n.sign, width: wt }, k + 2)));
}

// ---------------------------------------------------------------------------
// Joined lists

pub proof fn lemma_joined_step(items: Seq<Seq<char>>, sep: Seq<char>, k: int)
    requires
        1 <= k < items.len(),
    ensures
        joined(items.take(k + 1), sep) == joined(items.take(k), sep) + sep + items[k],
{
    assert(items.take(k + 1).drop_last() =~= items.take(k));
    assert(items.take(k + 1).last() == items[k]);
}

pub proof fn lemma_joined_first(items: Seq<Seq<char>>, sep: Seq<char>)
    requires
        items.len() >= 1,
    ensures
        joined(items.take(1), sep) == items[0],
{
    assert(items.take(1).len() == 1);
}

/// The first `k` items, joined, open the whole list joined.
pub proof fn lemma_joined_prefix(items: Seq<Seq<char>>, sep: Seq<char>, k: int)
    requires
        1 <= k <= items.len(),
    ensures
        text_at(joined(items, sep), 0, joined(items.take(k), sep)),
    decreases items.len() - k,
{
    if k == items.len() {
        assert(items.take(k) =~= items);
        assert(joined(items, sep).subrange(0, joined(items, sep).len() as int) =~= joined(items, sep));
    } else {
        lemma_joined_prefix(items, sep, k + 1);
        lemma_joined_step(items, sep, k);
        let whole = joined(items, sep);
        let a = joined(items.take(k), sep);
        let b = joined(items.take(k + 1), sep);
        lemma_text_at_part(whole, 0, b, 0, a.len() as int);
        assert(b.subrange(0, a.len() as int) =~= a);
    }
}

/// `u` at `a` of `t`, where `t` stands at `i` of `s`, stands at `i + a`.
pub proof fn lemma_text_at_within(s: Seq<char>, i: int, t: Seq<char>, a: int, u: Seq<char>)
    requires
        text_at(s, i, t),
        text_at(t, a, u),
    ensures
        text_at(s, i + a, u),
{
    lemma_text_at_part(s, i, t, a, a + u.len());
}

// ---------------------------------------------------------------------------
// Argument lists

pub open spec fn type_names(ts: Seq<NativeDataType>) -> Seq<Seq<char>> {
    ts.map_values(|t: NativeDataType| c_type_name(t))
}

/// The C names of the types, separated by `, `.
pub open spec fn types_text(ts: Seq<NativeDataType>) -> Seq<char> {
    joined(type_names(ts), ", "@)
}

pub open spec fn known(ts: Seq<NativeDataType>) -> Seq<TypeName> {
    ts.map_values(|t: NativeDataType| TypeName::Known(t))
}

/// The text of the first `k` types, within the text of all of them.
pub proof fn lemma_types_prefix(ts: Seq<NativeDataType>, k: int)
    requires
        1 <= k <= ts.len(),
    ensures
        text_at(types_text(ts), 0, types_text(ts.take(k))),
        type_names(ts.take(k)) == type_names(ts).take(k),
{
    assert(type_names(ts.take(k)) =~= type_names(ts).take(k));
    lemma_joined_prefix(type_names(ts), ", "@, k);
}

/// After the first `k` types come `, ` and the next type.
pub proof fn lemma_types_next(ts: Seq<NativeDataType>, k: int)
    requires
        1 <= k < ts.len(),
    ensures
        types_text(ts.take(k + 1)) == types_text(ts.take(k)) + ", "@ + c_type_name(ts[k]),
{
    lemma_types_prefix(ts, k);
    lemma_types_prefix(ts, k + 1);
    lemma_joined_step(type_names(ts), ", "@, k);
}

/// A type's C name opens with a letter.
pub proof fn lemma_type_first(t: NativeDataType)
    ensures
        c_type_name(t).len() > 1,
        c_type_name(t)[0] == 'u' || c_type_name(t)[0] == 'i' || c_type_name(t)[0] == 'c',
{
    reveal_strlit("uint8_t");
    reveal_strlit("uint16_t");
    reveal_strlit("uint32_t");
    reveal_strlit("uint64_t");
    reveal_strlit("uintptr_t");
    reveal_strlit("int8_t");
    reveal_strlit("int16_t");
    reveal_strlit("int32_t");
    reveal_strlit("int64_t");
    reveal_strlit("intptr_t");
    reveal_strlit("char*");
    reveal_strlit("*");
}

/// The rest of an argument list, after its first `k` types, reads back as
/// the remaining types, up to the `)` that closes it.
pub proof fn lemma_args_rest_at(s: Seq<char>, i: int, ts: Seq<NativeDataType>, k: int)
    requires
        1 <= k <= ts.len(),
        text_at(s, i, types_text(ts)),
        i + types_text(ts).len() < s.len(),
        s[i + types_text(ts).len()] == ')',
    ensures
        crate::grammar::args_rest(
            Dialect::Provider,
            s,
            known(ts.take(k)),
            i + types_text(ts.take(k)).len(),
        ) == (known(ts), i + types_text(ts).len()),
    decreases ts.len() - k,
{
    reveal_strlit(",");
    reveal_strlit(", ");
    let p = i + types_text(ts.take(k)).len();
    if k == ts.len() {
        assert(ts.take(k) =~= ts);
        lemma_skip_stops(s, p);
        lemma_lit_not_at(s, p, ","@);
    } else {
        lemma_types_prefix(ts, k + 1);
        lemma_types_next(ts, k);
        let c = c_type_name(ts[k]);
        let piece = ", "@ + c;
        assert(types_text(ts.take(k + 1)) =~= types_text(ts.take(k)) + piece);
        lemma_text_at_within(s, i, types_text(ts), 0, types_text(ts.take(k + 1)));
        lemma_text_at_part(s, i, types_text(ts.take(k + 1)), types_text(ts.take(k)).len() as int, types_text(ts.take(k + 1)).len() as int);
        assert(types_text(ts.take(k + 1)).subrange(types_text(ts.take(k)).len() as int, types_text(ts.take(k + 1)).len() as int) =~= piece);
        lemma_text_at_char(s, p, piece, 0);
        lemma_text_at_char(s, p, piece, 1);
        lemma_skip_stops(s, p);
        lemma_text_at_part(s, p, piece, 0, 1);
        assert(piece.subrange(0, 1) =~= ","@);
        lemma_lit_at(s, p, ","@);
        lemma_type_first(ts[k]);
        lemma_text_at_char(s, p, piece, 2);
        lemma_skip_ws(s, p + 1);
        lemma_skip_stops(s, p + 2);
        lemma_text_at_part(s, p, piece, 2, piece.len() as int);
        assert(piece.subrange(2, piece.len() as int) =~= c);
        let e2 = p + 2 + c.len();
        assert(e2 == i + types_text(ts.take(k + 1)).len());
        if k + 1 < ts.len() {
            lemma_types_prefix(ts, k + 2);
            lemma_types_next(ts, k + 1);
            lemma_text_at_within(s, i, types_text(ts), 0, types_text(ts.take(k + 2)));
            lemma_text_at_char(s, i, types_text(ts.take(k + 2)), types_text(ts.take(k + 1)).len() as int);
        } else {
            assert(ts.take(k + 1) =~= ts);
        }
        lemma_type_at(s, p + 2, ts[k]);
        assert(known(ts.take(k)).push(TypeName::Known(ts[k])) =~= known(ts.take(k + 1)));
        lemma_args_rest_at(s, i, ts, k + 1);
    }
}

/// A non-empty argument list reads back as its types.
pub proof fn lemma_args_at(s: Seq<char>, i: int, ts: Seq<NativeDataType>)
    requires
        ts.len() >= 1,
        text_at(s, i, types_text(ts)),
        i + types_text(ts).len() < s.len(),
        s[i + types_text(ts).len()] == ')',
    ensures
        crate::grammar::args(Dialect::Provider, s, i) == Some((known(ts), i + types_text(ts).len())),
{
    reveal_strlit(",");
    lemma_types_prefix(ts, 1);
    lemma_joined_first(type_names(ts.take(1)), ", "@);
    assert(type_names(ts.take(1)).take(1) =~= type_names(ts.take(1)));
    let c = c_type_name(ts[0]);
    assert(types_text(ts.take(1)) == c);
    lemma_text_at_within(s, i, types_text(ts), 0, c);
    if ts.len() > 1 {
        lemma_types_prefix(ts, 2);
        lemma_types_next(ts, 1);
        reveal_strlit(", ");
        let two = types_text(ts.take(2));
        assert(two == c + ", "@ + c_type_name(ts[1]));
        assert(two[c.len() as int] == ',');
        lemma_text_at_within(s, i, types_text(ts), 0, two);
        lemma_text_at_char(s, i, two, c.len() as int);
    } else {
        assert(ts.take(1) =~= ts);
    }
    lemma_type_at(s, i, ts[0]);
    assert(seq![TypeName::Known(ts[0])] =~= known(ts.take(1)));
    lemma_args_rest_at(s, i, ts, 1);
}

// ---------------------------------------------------------------------------
// Probes

/// The D source of a probe: `probe NAME(TYPES);`.
pub open spec fn probe_text(name: Seq<char>, ts: Seq<NativeDataType>) -> Seq<char> {
    "probe "@ + name + "("@ + types_text(ts) + ");"@
}

/// The D source of a probe reads back as the probe.
pub proof fn lemma_probe_at(s: Seq<char>, i: int, name: Seq<char>, ts: Seq<NativeDataType>)
    requires
        is_name(name),
        text_at(s, i, probe_text(name, ts)),
    ensures
        crate::grammar::probe(Dialect::Provider, s, i) == Some(
            (SpecProbe { name, types: known(ts) }, i + probe_text(name, ts).len()),
        ),
{
    reveal_strlit("probe ");
    reveal_strlit("probe");
    reveal_strlit("(");
    reveal_strlit(")");
    reveal_strlit(";");
    reveal_strlit(");");
    reveal_strlit("uint");
    reveal_strlit("int");
    reveal_strlit("char");
    let t = probe_text(name, ts);
    let tt = types_text(ts);
    let n: int = name.len() as int;
    let m: int = tt.len() as int;
    let a = i + 5;
    let b = i + 6;
    let c = b + n;
    let e = c + 1;
    let g = e + m;
    // The pieces of the text.
    lemma_text_at_part(s, i, t, 0, 5);
    assert(t.subrange(0, 5) =~= "probe"@);
    lemma_lit_at(s, i, "probe"@);
    lemma_text_at_char(s, i, t, 5);
    assert(t[5] == ' ');
    lemma_skip_ws(s, a);
    lemma_text_at_part(s, i, t, 6, 6 + n);
    assert(t.subrange(6, 6 + n) =~= name);
    lemma_text_at_char(s, i, t, 6);
    lemma_skip_stops(s, b);
    lemma_text_at_char(s, i, t, 6 + n);
    assert(t[6 + n] == '(');
    lemma_ident_at(s, b, name);
    lemma_skip_stops(s, c);
    lemma_text_at_part(s, i, t, 6 + n, 7 + n);
    assert(t.subrange(6 + n, 7 + n) =~= "("@);
    lemma_lit_at(s, c, "("@);
    lemma_text_at_part(s, i, t, 7 + n, 7 + n + m);
    assert(t.subrange(7 + n, 7 + n + m) =~= tt);
    lemma_text_at_char(s, i, t, 7 + n + m);
    assert(t[7 + n + m] == ')');
    if ts.len() > 0 {
        lemma_type_first(ts[0]);
        lemma_types_prefix(ts, 1);
        lemma_joined_first(type_names(ts.take(1)), ", "@);
        assert(type_names(ts.take(1)).take(1) =~= type_names(ts.take(1)));
        lemma_text_at_char(s, e, tt, 0);
        lemma_text_at_char(tt, 0, types_text(ts.take(1)), 0);
        lemma_skip_stops(s, e);
        lemma_args_at(s, e, ts);
        lemma_skip_stops(s, g);
    } else {
        assert(m == 0);
        lemma_skip_stops(s, e);
        lemma_lit_not_at(s, e, "char"@);
        lemma_lit_not_at(s, e, "uint"@);
        lemma_lit_not_at(s, e, "int"@);
        assert(data_type(Dialect::Provider, s, e) is None);
        assert(known(ts) =~= Seq::<TypeName>::empty());
    }
    lemma_text_at_part(s, i, t, 7 + n + m, 8 + n + m);
    assert(t.subrange(7 + n + m, 8 + n + m) =~= ")"@);
    lemma_lit_at(s, g, ")"@);
    lemma_text_at_char(s, i, t, 8 + n + m);
    assert(t[8 + n + m] == ';');
    lemma_skip_stops(s, g + 1);
    lemma_text_at_part(s, i, t, 8 + n + m, 9 + n + m);
    assert(t.subrange(8 + n + m, 9 + n + m) =~= ";"@);
    lemma_lit_at(s, g + 1, ";"@);
    assert(s.subrange(b, c) == name);
}

// ---------------------------------------------------------------------------
// Providers

/// The line of each probe: a tab, then its D source.
pub open spec fn probe_lines(ps: Seq<(Seq<char>, Seq<NativeDataType>)>) -> Seq<Seq<char>> {
    ps.map_values(|p: (Seq<char>, Seq<NativeDataType>)| seq!['\t'] + probe_text(p.0, p.1))
}

/// The probes as the grammar reads them.
pub open spec fn spec_probes(ps: Seq<(Seq<char>, Seq<NativeDataType>)>) -> Seq<SpecProbe> {
    ps.map_values(|p: (Seq<char>, Seq<NativeDataType>)| SpecProbe { name: p.0, types: known(p.1) })
}

/// The D source of a provider with probes `ps`.
pub open spec fn provider_text(name: Seq<char>, ps: Seq<(Seq<char>, Seq<NativeDataType>)>) -> Seq<char> {
    "provider "@ + name + " {\n"@ + joined(probe_lines(ps), "\n"@) + "\n};"@
}

/// Every probe is named by an identifier.
pub open spec fn names_ok(ps: Seq<(Seq<char>, Seq<NativeDataType>)>) -> bool {
    forall|j: int| 0 <= j < ps.len() ==> is_name(#[trigger] ps[j].0)
}

/// After the first `j` probe lines, the rest of the lines read back as the
/// remaining probes, up to the line break before the closing `}`.
pub proof fn lemma_probes_rest_at(s: Seq<char>, base: int, ps: Seq<(Seq<char>, Seq<NativeDataType>)>, j: int)
    requires
        1 <= j <= ps.len(),
        names_ok(ps),
        text_at(s, base, joined(probe_lines(ps), "\n"@)),
        base + joined(probe_lines(ps), "\n"@).len() + 1 < s.len(),
        s[base + joined(probe_lines(ps), "\n"@).len()] == '\n',
        s[base + joined(probe_lines(ps), "\n"@).len() + 1] == '}',
    ensures
        crate::grammar::probes_rest(
            Dialect::Provider,
            s,
            spec_probes(ps.take(j)),
            base + joined(probe_lines(ps).take(j), "\n"@).len(),
        ) == (spec_probes(ps), base + joined(probe_lines(ps), "\n"@).len()),
    decreases ps.len() - j,
{
    reveal_strlit("probe");
    reveal_strlit("\n");
    let lines = probe_lines(ps);
    let whole = joined(lines, "\n"@);
    let f = base + joined(lines.take(j), "\n"@).len();
    if j == ps.len() {
        assert(lines.take(j) =~= lines);
        assert(ps.take(j) =~= ps);
        lemma_skip_ws(s, f);
        lemma_skip_stops(s, f + 1);
        lemma_lit_not_at(s, f + 1, "probe"@);
    } else {
        lemma_joined_prefix(lines, "\n"@, j + 1);
        lemma_joined_step(lines, "\n"@, j);
        let next = joined(lines.take(j + 1), "\n"@);
        let prev = joined(lines.take(j), "\n"@);
        let pt = probe_text(ps[j].0, ps[j].1);
        let piece = "\n"@ + (seq!['\t'] + pt);
        assert(next =~= prev + piece);
        lemma_text_at_within(s, base, whole, 0, next);
        lemma_text_at_part(s, base, next, prev.len() as int, next.len() as int);
        assert(next.subrange(prev.len() as int, next.len() as int) =~= piece);
        lemma_text_at_char(s, f, piece, 0);
        lemma_text_at_char(s, f, piece, 1);
        lemma_text_at_char(s, f, piece, 2);
        assert(piece[2] == 'p') by {
            reveal_strlit("probe ");
        }
        lemma_skip_ws(s, f);
        lemma_skip_ws(s, f + 1);
        lemma_skip_stops(s, f + 2);
        lemma_text_at_part(s, f, piece, 2, piece.len() as int);
        assert(piece.subrange(2, piece.len() as int) =~= pt);
        assert(is_name(ps[j].0));
        lemma_probe_at(s, f + 2, ps[j].0, ps[j].1);
        assert(spec_probes(ps.take(j)).push(SpecProbe { name: ps[j].0, types: known(ps[j].1) }) =~= spec_probes(
            ps.take(j + 1),
        ));
        lemma_probes_rest_at(s, base, ps, j + 1);
    }
}

/// The D source of a provider reads back as the provider.
#[verifier::rlimit(80)]
pub proof fn lemma_provider_at(s: Seq<char>, i: int, name: Seq<char>, ps: Seq<(Seq<char>, Seq<NativeDataType>)>)
    requires
        is_name(name),
        ps.len() >= 1,
        names_ok(ps),
        text_at(s, i, provider_text(name, ps)),
    ensures
        crate::grammar::provider(Dialect::Provider, s, i) == Some(
            (SpecProvider { name, probes: spec_probes(ps) }, i + provider_text(name, ps).len()),
        ),
{
    reveal_strlit("provider ");
    reveal_strlit("provider");
    reveal_strlit(" {\n");
    reveal_strlit("\n};");
    reveal_strlit("{");
    reveal_strlit("}");
    reveal_strlit(";");
    reveal_strlit("\n");
    reveal_strlit("probe ");
    let t = provider_text(name, ps);
    let lines = probe_lines(ps);
    let whole = joined(lines, "\n"@);
    let n: int = name.len() as int;
    let w: int = whole.len() as int;
    let b = i + 9;
    let c = b + n;
    let e = c + 2;
    let base = c + 3;
    let g = base + w;
    assert(t.len() == 15 + n + w);
    // "provider " and the name
    lemma_text_at_part(s, i, t, 0, 8);
    assert(t.subrange(0, 8) =~= "provider"@);
    lemma_lit_at(s, i, "provider"@);
    lemma_text_at_char(s, i, t, 8);
    lemma_skip_ws(s, i + 8);
    lemma_text_at_part(s, i, t, 9, 9 + n);
    assert(t.subrange(9, 9 + n) =~= name);
    lemma_text_at_char(s, i, t, 9);
    lemma_skip_stops(s, b);
    lemma_text_at_char(s, i, t, 9 + n);
    assert(t[9 + n] == ' ');
    lemma_ident_at(s, b, name);
    // " {\n"
    lemma_skip_ws(s, c);
    lemma_text_at_char(s, i, t, 10 + n);
    assert(t[10 + n] == '{');
    lemma_skip_stops(s, c + 1);
    lemma_text_at_part(s, i, t, 10 + n, 11 + n);
    assert(t.subrange(10 + n, 11 + n) =~= "{"@);
    lemma_lit_at(s, c + 1, "{"@);
    lemma_text_at_char(s, i, t, 11 + n);
    assert(t[11 + n] == '\n');
    lemma_skip_ws(s, e);
    // the probe lines
    lemma_text_at_part(s, i, t, 12 + n, 12 + n + w);
    assert(t.subrange(12 + n, 12 + n + w) =~= whole);
    lemma_joined_prefix(lines, "\n"@, 1);
    lemma_joined_first(lines, "\n"@);
    let first = lines[0];
    let pt = probe_text(ps[0].0, ps[0].1);
    assert(first =~= seq!['\t'] + pt);
    lemma_text_at_within(s, base, whole, 0, first);
    lemma_text_at_char(s, base, first, 0);
    lemma_skip_ws(s, base);
    lemma_text_at_char(s, base, first, 1);
    assert(first[1] == 'p');
    lemma_skip_stops(s, base + 1);
    lemma_text_at_part(s, base, first, 1, first.len() as int);
    assert(first.subrange(1, first.len() as int) =~= pt);
    assert(is_name(ps[0].0));
    lemma_probe_at(s, base + 1, ps[0].0, ps[0].1);
    // the remaining probes, then "\n};"
    lemma_text_at_char(s, i, t, 12 + n + w);
    assert(t[12 + n + w] == '\n');
    lemma_text_at_char(s, i, t, 13 + n + w);
    assert(t[13 + n + w] == '}');
    lemma_text_at_char(s, i, t, 14 + n + w);
    assert(t[14 + n + w] == ';');
    assert(spec_probes(ps.take(1)) =~= seq![SpecProbe { name: ps[0].0, types: known(ps[0].1) }]);
    lemma_probes_rest_at(s, base, ps, 1);
    lemma_skip_ws(s, g);
    lemma_skip_stops(s, g + 1);
    lemma_text_at_part(s, i, t, 13 + n + w, 14 + n + w);
    assert(t.subrange(13 + n + w, 14 + n + w) =~= "}"@);
    lemma_lit_at(s, g + 1, "}"@);
    lemma_skip_stops(s, g + 2);
    lemma_text_at_part(s, i, t, 14 + n + w, 15 + n + w);
    assert(t.subrange(14 + n + w, 15 + n + w) =~= ";"@);
    lemma_lit_at(s, g + 2, ";"@);
    assert(s.subrange(b, c) == name);
}

// ---------------------------------------------------------------------------
// Whole files, and providers as the probe macros hold them

/// The D source of one provider is a file that reads back as that provider.
pub proof fn lemma_file_of_provider(name: Seq<char>, ps: Seq<(Seq<char>, Seq<NativeDataType>)>)
    requires
        is_name(name),
        ps.len() >= 1,
        names_ok(ps),
    ensures
        crate::grammar::file(Dialect::Provider, provider_text(name, ps)) == Some(
            seq![SpecProvider { name, probes: spec_probes(ps) }],
        ),
{
    reveal_strlit("provider ");
    reveal_strlit("provider");
    let s = provider_text(name, ps);
    assert(s.subrange(0, s.len() as int) =~= s);
    assert(s[0] == 'p');
    lemma_skip_stops(s, 0);
    lemma_provider_at(s, 0, name, ps);
    lemma_skip_stops(s, s.len() as int);
    assert(lit(s, s.len() as int, "provider"@) is None);
}

/// The types of a definition's arguments, where each is a type that D knows.
pub open spec fn native_types(ts: Seq<DataType>) -> Seq<NativeDataType> {
    ts.map_values(|t: DataType| match t {
        DataType::Native(n) => n,
        _ => NativeDataType::String,
    })
}

/// Every argument has a type that D knows.
pub open spec fn all_native(ts: Seq<DataType>) -> bool {
    forall|k: int| 0 <= k < ts.len() ==> #[trigger] ts[k] is Native
}

/// The probes of a definition as names and native types.
pub open spec fn probe_pairs_of(probes: Seq<Probe>) -> Seq<(Seq<char>, Seq<NativeDataType>)> {
    probes.map_values(|q: Probe| (q.name@, native_types(q.types@)))
}

/// A provider whose D source reads back: its name and its probes' names are
/// identifiers, it has a probe, no two probes share a name, and every
/// argument has a type that D knows.
pub open spec fn readable_provider(name: Seq<char>, probes: Seq<Probe>) -> bool {
    &&& is_name(name)
    &&& probes.len() >= 1
    &&& forall|j: int| 0 <= j < probes.len() ==> is_name(#[trigger] probes[j].name@)
    &&& forall|j: int| 0 <= j < probes.len() ==> all_native(#[trigger] probes[j].types@)
    &&& forall|a: int, b: int| 0 <= a < b < probes.len() ==> #[trigger] probes[a].name@ != #[trigger] probes[b].name@
}

/// The D source of a definition's provider is the text read back above.
pub proof fn lemma_source_is_text(name: Seq<char>, probes: Seq<Probe>)
    requires
        forall|j: int| 0 <= j < probes.len() ==> all_native(#[trigger] probes[j].types@),
    ensures
        provider_source(name, probes) == provider_text(name, probe_pairs_of(probes)),
{
    let pl = probes.map_values(|p: Probe| seq!['\t'] + probe_source(p.name@, p.types@));
    let ql = probe_lines(probe_pairs_of(probes));
    assert forall|j: int| 0 <= j < pl.len() implies #[trigger] pl[j] == ql[j] by {
        let q = probes[j];
        assert(all_native(q.types@));
        let cs = q.types@.map_values(|t: DataType| c_type_of(t));
        assert(cs =~= type_names(native_types(q.types@))) by {
            assert forall|k: int| 0 <= k < cs.len() implies #[trigger] cs[k] == type_names(native_types(q.types@))[k] by {
                assert(q.types@[k] is Native);
            }
        }
    }
    assert(pl =~= ql);
}

/// The D source of a provider reads back, as a provider definition, as that
/// provider: the same name, and the same probes with the same names and
/// argument types, in the same order.
pub proof fn lemma_d_source_reads_back(name: Seq<char>, probes: Seq<Probe>)
    requires
        readable_provider(name, probes),
    ensures
        read_source(provider_source(name, probes)) == Ok::<Seq<ProviderView>, DTraceErrorKind>(
            seq![
                ProviderView {
                    name,
                    probes: probes.map_values(|q: Probe| ProbeView { name: q.name@, types: native_types(q.types@) }),
                },
            ],
        ),
{
    let ps = probe_pairs_of(probes);
    lemma_source_is_text(name, probes);
    assert forall|j: int| 0 <= j < ps.len() implies is_name(#[trigger] ps[j].0) by {
        assert(is_name(probes[j].name@));
    }
    lemma_file_of_provider(name, ps);
    let sp = SpecProvider { name, probes: spec_probes(ps) };
    let decls = seq![sp];
    assert(decls_known(decls)) by {
        assert forall|i: int, j: int| 0 <= i < decls.len() && 0 <= j < decls[i].probes.len() implies all_known(
            #[trigger] decls[i].probes[j].types,
        ) by {
            assert(decls[i] == sp);
            assert forall|k: int| 0 <= k < sp.probes[j].types.len() implies #[trigger] sp.probes[j].types[k] is Known by {
            }
        }
    }
    let pv = provider_def(sp);
    let expected = ProviderView {
        name,
        probes: probes.map_values(|q: Probe| ProbeView { name: q.name@, types: native_types(q.types@) }),
    };
    assert(pv.probes =~= expected.probes) by {
        assert forall|j: int| 0 <= j < pv.probes.len() implies #[trigger] pv.probes[j] == expected.probes[j] by {
            let ts = native_types(probes[j].types@);
            assert(known(ts).map_values(|t: TypeName| known_type(t)) =~= ts);
        }
    }
    let views = decls.map_values(|p: SpecProvider| provider_def(p));
    assert(views =~= seq![expected]);
    lemma_pairs_distinct(expected, probes);
    lemma_no_repeat(probe_pairs(seq![expected]), 0);
}

/// The (provider, probe) pairs of names of a provider whose probes have
/// distinct names are distinct.
pub proof fn lemma_pairs_distinct(pv: ProviderView, probes: Seq<Probe>)
    requires
        pv.probes.len() == probes.len(),
        forall|j: int| 0 <= j < probes.len() ==> #[trigger] pv.probes[j].name == probes[j].name@,
        forall|a: int, b: int| 0 <= a < b < probes.len() ==> #[trigger] probes[a].name@ != #[trigger] probes[b].name@,
    ensures
        forall|a: int, b: int|
            0 <= a < b < probe_pairs(seq![pv]).len() ==> #[trigger] probe_pairs(seq![pv])[a]
                != #[trigger] probe_pairs(seq![pv])[b],
{
    let v = probe_pairs(seq![pv]);
    assert(seq![pv].drop_last() =~= Seq::<ProviderView>::empty());
    assert(seq![pv].last() == pv);
    assert(probe_pairs(Seq::<ProviderView>::empty()) =~= Seq::<(Seq<char>, Seq<char>)>::empty());
    assert(v == probe_pairs(seq![pv].drop_last()) + provider_pairs(seq![pv].last()));
    assert(v =~= provider_pairs(pv));
    assert forall|a: int, b: int| 0 <= a < b < v.len() implies #[trigger] v[a] != #[trigger] v[b] by {
        assert(pv.probes[a].name == probes[a].name@);
        assert(pv.probes[b].name == probes[b].name@);
    }
}

/// A sequence whose pairs of names are all distinct has no repeat.
pub proof fn lemma_no_repeat(v: Seq<(Seq<char>, Seq<char>)>, j: int)
    requires
        0 <= j,
        forall|a: int, b: int| 0 <= a < b < v.len() ==> #[trigger] v[a] != #[trigger] v[b],
    ensures
        first_repeat_from(v, j) is None,
    decreases v.len() - j,
{
    if j < v.len() {
        if v.take(j).contains(v[j]) {
            let a = choose|a: int| 0 <= a < v.take(j).len() && v.take(j)[a] == v[j];
            assert(v[a] == v[j]);
        }
        lemma_no_repeat(v, j + 1);
    }
}

} // verus!
