//! Reading back the DOF bytes of a section gives the section.

use vstd::prelude::*;
use crate::bytes::ByteOrder;
use vstd::utf8::{
    encode_utf8, decode_utf8, valid_utf8, encode_scalar, is_scalar, has_width_1_encoding,
    has_width_2_encoding, has_width_3_encoding, has_width_4_encoding, encode_utf8_valid_utf8,
    encode_utf8_decode_utf8, char_is_scalar,
};
use crate::des::{nul_from, string_at};
use crate::bytes::{u32_bytes, u64_bytes, read_u32, lemma_read_u32_at, lemma_read_u64_at, lemma_u32_roundtrip};
use crate::dof::{
    ProbeView, ProviderView, SectionView, Error, DataModel, DataEncoding, ident_of, ident_bytes,
    dof_magic, model_byte, model_of, encoding_byte, encoding_of,
};
use crate::des::{
    table_u32s, probe_view_of, probes_upto, probes_of, section_data, raw_headers, extract,
    provider_view_of, providers_upto, providers_of, section_of,
};
use crate::ser::{
    concat, layout, layout_ok, padding, section_align, zeros, lemma_layout, lemma_layout_ok_prefix,
    strtab_of, str_index, position, lemma_position, lemma_strtab_entry, u32s_bytes, lemma_u32s_bytes_len,
    offsets_of, enabled_offsets_of, probe_record, probes_section, section_entries, dof_bytes,
    dof_size_bound, header_bytes, sec_headers_bytes, lemma_section_entries_ok,
    lemma_entries_bound_nonneg, all_probes, section_strings, provider_record, provider_strings,
    probe_strings, distinct, lemma_distinct_contains, lemma_provider_strings_prefix,
    lemma_probe_strings_prefix,
};
use crate::dof_raw::{
    dof_sec, probe_bytes, sec_bytes, sec_of, provider_bytes, lemma_probe_roundtrip, lemma_sec_roundtrip,
    lemma_provider_roundtrip, DOF_HDR_SIZE, DOF_SEC_SIZE, DOF_SECT_PROVIDER,
};

verus! {

/// A string holds no NUL character.
pub open spec fn no_nul(cs: Seq<char>) -> bool {
    forall|k: int| 0 <= k < cs.len() ==> (#[trigger] cs[k]) as u32 != 0
}

proof fn lemma_scalar_no_zero(c: u32)
    requires
        is_scalar(c),
        c != 0,
    ensures
        forall|k: int| 0 <= k < encode_scalar(c).len() ==> #[trigger] encode_scalar(c)[k] != 0,
{
    if has_width_1_encoding(c) {
        assert((c & 0x7F) as u8 != 0) by (bit_vector)
            requires
                0 < c <= 0x7F,
        ;
    } else if has_width_2_encoding(c) {
        assert(0xC0u8 | ((c >> 6) & 0x1F) as u8 != 0) by (bit_vector);
        assert(0x80u8 | (c & 0x3F) as u8 != 0) by (bit_vector);
    } else if has_width_3_encoding(c) {
        assert(0xE0u8 | ((c >> 12) & 0x0F) as u8 != 0) by (bit_vector);
        assert(0x80u8 | ((c >> 6) & 0x3F) as u8 != 0) by (bit_vector);
        assert(0x80u8 | (c & 0x3F) as u8 != 0) by (bit_vector);
    } else {
        assert(0xF0u8 | ((c >> 18) & 0x7) as u8 != 0) by (bit_vector);
        assert(0x80u8 | ((c >> 12) & 0x3F) as u8 != 0) by (bit_vector);
        assert(0x80u8 | ((c >> 6) & 0x3F) as u8 != 0) by (bit_vector);
        assert(0x80u8 | (c & 0x3F) as u8 != 0) by (bit_vector);
    }
}

/// The UTF-8 bytes of a string without NUL characters hold no zero byte.
pub proof fn lemma_encode_no_nul(cs: Seq<char>)
    requires
        no_nul(cs),
    ensures
        forall|k: int| 0 <= k < encode_utf8(cs).len() ==> #[trigger] encode_utf8(cs)[k] != 0,
    decreases cs.len(),
{
    if cs.len() > 0 {
        let rest = cs.drop_first();
        assert forall|k: int| 0 <= k < rest.len() implies (#[trigger] rest[k]) as u32 != 0 by {
            assert(rest[k] == cs[k + 1]);
        }
        lemma_encode_no_nul(rest);
        char_is_scalar(cs[0]);
        assert(cs[0] as u32 != 0);
        lemma_scalar_no_zero(cs[0] as u32);
        let a = encode_scalar(cs[0] as u32);
        let b = encode_utf8(rest);
        assert(encode_utf8(cs) == a + b);
        assert forall|k: int| 0 <= k < encode_utf8(cs).len() implies #[trigger] encode_utf8(cs)[k]
            != 0 by {
            if k < a.len() {
                assert((a + b)[k] == a[k]);
            } else {
                assert((a + b)[k] == b[k - a.len()]);
            }
        }
    }
}

proof fn lemma_nul_at(b: Seq<u8>, k: int, m: int)
    requires
        0 <= k <= m < b.len(),
        b[m] == 0,
        forall|q: int| k <= q < m ==> b[q] != 0,
    ensures
        nul_from(b, k) == m,
    decreases m - k,
{
    if k < m {
        lemma_nul_at(b, k + 1, m);
    }
}

/// Where the bytes of a string without NUL characters open `b` and a NUL
/// byte follows them, the string read from `b` is that string.
pub proof fn lemma_string_at(b: Seq<u8>, cs: Seq<char>)
    requires
        no_nul(cs),
        encode_utf8(cs).len() < b.len(),
        b.subrange(0, encode_utf8(cs).len() as int) == encode_utf8(cs),
        b[encode_utf8(cs).len() as int] == 0,
    ensures
        string_at(b) == Some(cs),
{
    let enc = encode_utf8(cs);
    lemma_encode_no_nul(cs);
    assert forall|q: int| 0 <= q < enc.len() implies b[q] != 0 by {
        assert(b.subrange(0, enc.len() as int)[q] == b[q]);
    }
    lemma_nul_at(b, 0, enc.len() as int);
    assert(b.take(enc.len() as int) =~= enc);
    encode_utf8_valid_utf8(cs);
    encode_utf8_decode_utf8(cs);
}

// ---------------------------------------------------------------------------
// Where each section lands
// ---------------------------------------------------------------------------

/// The byte strings before position `k` come first in the concatenation.
pub proof fn lemma_concat_take(ds: Seq<Seq<u8>>, k: int)
    requires
        0 <= k < ds.len(),
    ensures
        concat(ds.take(k + 1)) == concat(ds.take(k)) + ds[k],
        concat(ds.take(k + 1)).len() <= concat(ds).len(),
        concat(ds).subrange(0, concat(ds.take(k + 1)).len() as int) == concat(ds.take(k + 1)),
    decreases ds.len() - k,
{
    assert(ds.take(k + 1).drop_last() =~= ds.take(k));
    if k + 1 == ds.len() {
        assert(ds.take(k + 1) =~= ds);
        assert(concat(ds).subrange(0, concat(ds).len() as int) =~= concat(ds));
    } else {
        lemma_concat_take(ds, k + 1);
        let a = concat(ds.take(k + 1));
        let b = concat(ds.take(k + 2));
        let c = concat(ds);
        assert(b == a + ds[k + 1]);
        assert(c.subrange(0, a.len() as int) =~= b.subrange(0, a.len() as int));
        assert(b.subrange(0, a.len() as int) =~= a);
    }
}

/// The bytes of element `k` stand in the concatenation after those before it.
pub proof fn lemma_concat_at(ds: Seq<Seq<u8>>, k: int)
    requires
        0 <= k < ds.len(),
    ensures
        concat(ds.take(k)).len() + ds[k].len() <= concat(ds).len(),
        concat(ds).subrange(
            concat(ds.take(k)).len() as int,
            (concat(ds.take(k)).len() + ds[k].len()) as int,
        ) == ds[k],
{
    lemma_concat_take(ds, k);
    let a = concat(ds.take(k));
    let b = concat(ds.take(k + 1));
    let c = concat(ds);
    let lo = a.len() as int;
    let hi = lo + ds[k].len();
    assert(c.subrange(lo, hi) =~= b.subrange(lo, hi));
    assert(b.subrange(lo, hi) =~= ds[k]);
}

/// Where each section lands when sections are laid out from `start`: its
/// header names its type, size and offset, and its padded data opens with it.
pub proof fn lemma_layout_places(e: Seq<(u32, Seq<u8>)>, start: int)
    requires
        layout_ok(e, start),
    ensures
        layout(e, start).0.len() == e.len(),
        layout(e, start).1.len() == e.len(),
        layout(e, start).2 == start + concat(layout(e, start).1).len(),
        forall|k: int|
            0 <= k < e.len() ==> {
                &&& (#[trigger] layout(e, start).0[k]).dofs_type == e[k].0
                &&& layout(e, start).0[k].dofs_offset == (start + concat(
                    layout(e, start).1.take(k),
                ).len()) as u64
                &&& layout(e, start).0[k].dofs_size == e[k].1.len() as u64
                &&& layout(e, start).1[k].len() >= e[k].1.len()
                &&& layout(e, start).1[k].subrange(0, e[k].1.len() as int) == e[k].1
            },
    decreases e.len(),
{
    lemma_layout(e, start);
    if e.len() > 0 {
        let e0 = e.drop_last();
        lemma_layout_ok_prefix(e, start, e.len() - 1);
        assert(e.take(e.len() - 1) =~= e0);
        lemma_layout_places(e0, start);
        let l0 = layout(e0, start);
        let l = layout(e, start);
        let t = e.last().0;
        let data = e.last().1;
        let pad = padding(l0.2, section_align(t));
        let ds = if pad > 0 {
            l0.1.update(l0.1.len() - 1, l0.1.last() + zeros(pad))
        } else {
            l0.1
        };
        assert(l.1 == ds.push(data));
        assert(l.0 == l0.0.push(l.0.last()));
        if pad > 0 {
            assert(l0.1.len() > 0) by {
                if l0.1.len() == 0 {
                    assert(l0.2 == start);
                    assert(e[0] == e.last());
                }
            }
            assert(ds.drop_last() =~= l0.1.drop_last());
            assert(concat(ds).len() == concat(l0.1).len() + pad);
        } else {
            assert(ds == l0.1);
        }
        assert(concat(l.1).len() == concat(ds).len() + data.len()) by {
            assert(l.1.drop_last() =~= ds);
        }
        assert forall|k: int| 0 <= k < e.len() implies {
            &&& (#[trigger] l.0[k]).dofs_type == e[k].0
            &&& l.0[k].dofs_offset == (start + concat(l.1.take(k)).len()) as u64
            &&& l.0[k].dofs_size == e[k].1.len() as u64
            &&& l.1[k].len() >= e[k].1.len()
            &&& l.1[k].subrange(0, e[k].1.len() as int) == e[k].1
        } by {
            if k < e.len() - 1 {
                assert(e0[k] == e[k]);
                assert(l.0[k] == l0.0[k]);
                assert(l.1.take(k) =~= l0.1.take(k));
                if pad > 0 && k == e.len() - 2 {
                    assert(l.1[k] == l0.1[k] + zeros(pad));
                    assert(l.1[k].subrange(0, e[k].1.len() as int) =~= l0.1[k].subrange(
                        0,
                        e[k].1.len() as int,
                    ));
                } else {
                    assert(l.1[k] == l0.1[k]);
                }
            } else {
                assert(l.1.take(k) =~= ds);
                assert(l.1[k] == data);
                assert(data.subrange(0, data.len() as int) =~= data);
            }
        }
    }
}

// ---------------------------------------------------------------------------
// Strings, offsets and probes read back
// ---------------------------------------------------------------------------

/// A string of the table is read back at its offset.
pub proof fn lemma_string_of_table(strings: Seq<Seq<char>>, x: Seq<char>)
    requires
        strings.contains(x),
        no_nul(x),
    ensures
        str_index(strings, x) < strtab_of(strings).len(),
        string_at(strtab_of(strings).skip(str_index(strings, x))) == Some(x),
{
    lemma_position(strings, x);
    let k = position(strings, x);
    lemma_strtab_entry(strings, k);
    let t = strtab_of(strings);
    let at = str_index(strings, x);
    let enc = encode_utf8(x);
    let b = t.skip(at);
    assert(b.subrange(0, enc.len() as int) =~= t.subrange(at, at + enc.len()));
    assert(b[enc.len() as int] == t[at + enc.len()]);
    lemma_string_at(b, x);
}

pub proof fn lemma_u32s_bytes_at(xs: Seq<u32>, q: int, ord: ByteOrder)
    requires
        0 <= q < xs.len(),
    ensures
        u32s_bytes(xs, ord).len() == 4 * xs.len(),
        read_u32(u32s_bytes(xs, ord), 4 * q, ord) == xs[q],
    decreases xs.len(),
{
    lemma_u32s_bytes_len(xs, ord);
    lemma_u32s_bytes_len(xs.drop_last(), ord);
    let b = u32s_bytes(xs, ord);
    if q == xs.len() - 1 {
        assert(b.subrange(4 * q, 4 * q + 4) =~= u32_bytes(xs.last(), ord));
        lemma_read_u32_at(b, 4 * q, xs[q], ord);
    } else {
        lemma_u32s_bytes_at(xs.drop_last(), q, ord);
        let a = u32s_bytes(xs.drop_last(), ord);
        assert(b == a + u32_bytes(xs.last(), ord));
        assert(b.subrange(4 * q, 4 * q + 4) =~= a.subrange(4 * q, 4 * q + 4));
        assert(a.subrange(4 * q, 4 * q + 4) =~= u32_bytes(xs[q], ord)) by {
            lemma_u32_roundtrip(xs[q], ord);
            lemma_u32s_bytes_block(xs.drop_last(), q, ord);
        }
        lemma_read_u32_at(b, 4 * q, xs[q], ord);
    }
}

/// The four bytes of entry `q` of a table of `u32`s.
pub proof fn lemma_u32s_bytes_block(xs: Seq<u32>, q: int, ord: ByteOrder)
    requires
        0 <= q < xs.len(),
    ensures
        4 * xs.len() == u32s_bytes(xs, ord).len(),
        u32s_bytes(xs, ord).subrange(4 * q, 4 * q + 4) == u32_bytes(xs[q], ord),
    decreases xs.len(),
{
    lemma_u32s_bytes_len(xs, ord);
    lemma_u32s_bytes_len(xs.drop_last(), ord);
    let b = u32s_bytes(xs, ord);
    let a = u32s_bytes(xs.drop_last(), ord);
    if q == xs.len() - 1 {
        assert(b.subrange(4 * q, 4 * q + 4) =~= u32_bytes(xs.last(), ord));
    } else {
        lemma_u32s_bytes_block(xs.drop_last(), q, ord);
        assert(b.subrange(4 * q, 4 * q + 4) =~= a.subrange(4 * q, 4 * q + 4));
    }
}

pub proof fn lemma_offsets_concat(a: Seq<ProbeView>, b: Seq<ProbeView>)
    ensures
        offsets_of(a + b) == offsets_of(a) + offsets_of(b),
        enabled_offsets_of(a + b) == enabled_offsets_of(a) + enabled_offsets_of(b),
    decreases b.len(),
{
    if b.len() == 0 {
        assert(a + b =~= a);
        assert(offsets_of(a) + offsets_of(b) =~= offsets_of(a));
        assert(enabled_offsets_of(a) + enabled_offsets_of(b) =~= enabled_offsets_of(a));
    } else {
        lemma_offsets_concat(a, b.drop_last());
        assert((a + b).drop_last() =~= a + b.drop_last());
        assert(offsets_of(a + b) =~= offsets_of(a) + offsets_of(b));
        assert(enabled_offsets_of(a + b) =~= enabled_offsets_of(a) + enabled_offsets_of(b));
    }
}

/// The record of probe `p` refers to its strings and offsets, so that reading
/// it back gives `p`.
pub proof fn lemma_probe_read_back(
    strings: Seq<Seq<char>>,
    all: Seq<ProbeView>,
    prior: Seq<ProbeView>,
    p: ProbeView, ord: ByteOrder,
)
    requires
        prior.push(p).is_prefix_of(all),
        strings.contains(p.name),
        strings.contains(p.function),
        no_nul(p.name),
        no_nul(p.function),
        strtab_of(strings).len() <= u32::MAX,
        offsets_of(all).len() <= u32::MAX,
        enabled_offsets_of(all).len() <= u32::MAX,
        p.offsets.len() <= u16::MAX,
        p.enabled_offsets.len() <= u16::MAX,
    ensures
        probe_view_of(
            probe_record(strings, prior, p),
            strtab_of(strings),
            u32s_bytes(offsets_of(all), ord),
            u32s_bytes(enabled_offsets_of(all), ord), ord,
        ) == Some(p),
{
    let rec = probe_record(strings, prior, p);
    let strtab = strtab_of(strings);
    lemma_string_of_table(strings, p.name);
    lemma_string_of_table(strings, p.function);
    let rest = all.skip(prior.len() + 1int);
    assert(all =~= prior.push(p) + rest);
    assert(prior.push(p) =~= prior + seq![p]);
    lemma_offsets_concat(prior.push(p), rest);
    lemma_offsets_concat(prior, seq![p]);
    let one = seq![p];
    assert(one.drop_last() =~= Seq::<ProbeView>::empty());
    assert(one.last() == p);
    assert(one.len() == 1);
    assert(offsets_of(one.drop_last()) =~= Seq::<u32>::empty());
    assert(enabled_offsets_of(one.drop_last()) =~= Seq::<u32>::empty());
    assert(offsets_of(one) =~= p.offsets);
    assert(enabled_offsets_of(seq![p]) =~= p.enabled_offsets);
    let xs = offsets_of(all);
    let ys = enabled_offsets_of(all);
    let oi = offsets_of(prior).len() as int;
    let ei = enabled_offsets_of(prior).len() as int;
    lemma_u32s_bytes_len(xs, ord);
    lemma_u32s_bytes_len(ys, ord);
    assert(rec.dofpr_offidx == oi);
    assert(rec.dofpr_noffs == p.offsets.len());
    assert(rec.dofpr_enoffidx == ei);
    assert(rec.dofpr_nenoffs == p.enabled_offsets.len());
    assert forall|k: int| 0 <= k < p.offsets.len() implies #[trigger] table_u32s(
        u32s_bytes(xs, ord),
        oi,
        p.offsets.len() as int, ord,
    )[k] == p.offsets[k] by {
        lemma_u32s_bytes_at(xs, oi + k, ord);
        assert(xs[oi + k] == p.offsets[k]);
    }
    assert forall|k: int| 0 <= k < p.enabled_offsets.len() implies #[trigger] table_u32s(
        u32s_bytes(ys, ord),
        ei,
        p.enabled_offsets.len() as int, ord,
    )[k] == p.enabled_offsets[k] by {
        lemma_u32s_bytes_at(ys, ei + k, ord);
        assert(ys[ei + k] == p.enabled_offsets[k]);
    }
    assert(table_u32s(u32s_bytes(xs, ord), oi, p.offsets.len() as int, ord) =~= p.offsets);
    assert(table_u32s(u32s_bytes(ys, ord), ei, p.enabled_offsets.len() as int, ord) =~= p.enabled_offsets);
}

/// A probe whose record can be read back: its strings are in the table and
/// hold no NUL character, and its offset counts fit their fields.
pub open spec fn probe_ok(strings: Seq<Seq<char>>, p: ProbeView) -> bool {
    &&& strings.contains(p.name)
    &&& strings.contains(p.function)
    &&& no_nul(p.name)
    &&& no_nul(p.function)
    &&& p.offsets.len() <= u16::MAX
    &&& p.enabled_offsets.len() <= u16::MAX
}

/// The 48 bytes of record `k` of a probe section.
#[verifier::rlimit(40)]
pub proof fn lemma_probes_section_block(
    strings: Seq<Seq<char>>,
    prior: Seq<ProbeView>,
    ps: Seq<ProbeView>,
    k: int, ord: ByteOrder,
)
    requires
        0 <= k < ps.len(),
    ensures
        probes_section(strings, prior, ps, ord).len() == 48 * ps.len(),
        probes_section(strings, prior, ps, ord).subrange(48 * k, 48 * k + 48) == probe_bytes(
            probe_record(strings, prior + ps.take(k), ps[k]), ord,
        ),
    decreases ps.len(),
{
    lemma_probes_section_len(strings, prior, ps, ord);
    lemma_probes_section_len(strings, prior, ps.drop_last(), ord);
    let b = probes_section(strings, prior, ps, ord);
    let a = probes_section(strings, prior, ps.drop_last(), ord);
    let last = probe_record(strings, prior + ps.drop_last(), ps.last());
    lemma_probe_roundtrip(last, ord);
    if k == ps.len() - 1 {
        assert(ps.take(k) =~= ps.drop_last());
        assert(b.subrange(48 * k, 48 * k + 48) =~= probe_bytes(last, ord));
    } else {
        lemma_probes_section_block(strings, prior, ps.drop_last(), k, ord);
        assert(ps.drop_last().take(k) =~= ps.take(k));
        assert(b.subrange(48 * k, 48 * k + 48) =~= a.subrange(48 * k, 48 * k + 48));
    }
}

pub proof fn lemma_probes_section_len(strings: Seq<Seq<char>>, prior: Seq<ProbeView>, ps: Seq<ProbeView>, ord: ByteOrder)
    ensures
        probes_section(strings, prior, ps, ord).len() == 48 * ps.len(),
    decreases ps.len(),
{
    if ps.len() > 0 {
        lemma_probes_section_len(strings, prior, ps.drop_last(), ord);
        lemma_probe_roundtrip(probe_record(strings, prior + ps.drop_last(), ps.last()), ord);
    }
}

/// The first `j` records of a probe section read back as the first `j` probes.
#[verifier::rlimit(60)]
pub proof fn lemma_probes_upto_read(
    strings: Seq<Seq<char>>,
    all: Seq<ProbeView>,
    prior: Seq<ProbeView>,
    ps: Seq<ProbeView>,
    j: nat, ord: ByteOrder,
)
    requires
        j <= ps.len(),
        (prior + ps).is_prefix_of(all),
        forall|k: int| 0 <= k < ps.len() ==> probe_ok(strings, #[trigger] ps[k]),
        strtab_of(strings).len() <= u32::MAX,
        offsets_of(all).len() <= u32::MAX,
        enabled_offsets_of(all).len() <= u32::MAX,
    ensures
        probes_upto(
            probes_section(strings, prior, ps, ord),
            strtab_of(strings),
            u32s_bytes(offsets_of(all), ord),
            u32s_bytes(enabled_offsets_of(all), ord),
            j, ord,
        ) == Some(ps.take(j as int)),
    decreases j,
{
    if j == 0 {
        assert(ps.take(0) =~= Seq::<ProbeView>::empty());
    } else {
        let k = j - 1;
        lemma_probes_upto_read(strings, all, prior, ps, k as nat, ord);
        lemma_probes_section_block(strings, prior, ps, k, ord);
        let rec = probe_record(strings, prior + ps.take(k), ps[k]);
        lemma_probe_roundtrip(rec, ord);
        let pre = prior + ps.take(k);
        assert(pre.push(ps[k]) =~= (prior + ps).subrange(0, prior.len() + k + 1));
        assert(pre.push(ps[k]).is_prefix_of(all)) by {
            assert(pre.push(ps[k]) =~= all.subrange(0, pre.push(ps[k]).len() as int));
        }
        assert(probe_ok(strings, ps[k]));
        lemma_probe_read_back(strings, all, pre, ps[k], ord);
        assert(ps.take(j as int) =~= ps.take(k).push(ps[k]));
    }
}

/// A probe section reads back as its probes.
pub proof fn lemma_probes_read_back(
    strings: Seq<Seq<char>>,
    all: Seq<ProbeView>,
    prior: Seq<ProbeView>,
    ps: Seq<ProbeView>, ord: ByteOrder,
)
    requires
        (prior + ps).is_prefix_of(all),
        forall|k: int| 0 <= k < ps.len() ==> probe_ok(strings, #[trigger] ps[k]),
        strtab_of(strings).len() <= u32::MAX,
        offsets_of(all).len() <= u32::MAX,
        enabled_offsets_of(all).len() <= u32::MAX,
    ensures
        probes_of(
            probes_section(strings, prior, ps, ord),
            strtab_of(strings),
            u32s_bytes(offsets_of(all), ord),
            u32s_bytes(enabled_offsets_of(all), ord), ord,
        ) == Some(ps),
{
    lemma_probes_section_len(strings, prior, ps, ord);
    let b = probes_section(strings, prior, ps, ord);
    assert(b.len() % 48 == 0 && b.len() / 48 == ps.len()) by (nonlinear_arith)
        requires
            b.len() == 48 * ps.len(),
    ;
    lemma_probes_upto_read(strings, all, prior, ps, ps.len(), ord);
    assert(ps.take(ps.len() as int) =~= ps);
}

// ---------------------------------------------------------------------------
// The file header and the section headers
// ---------------------------------------------------------------------------

/// The 32 bytes of header `k` among section headers.
pub proof fn lemma_sec_headers_block(hs: Seq<dof_sec>, k: int, ord: ByteOrder)
    requires
        0 <= k < hs.len(),
    ensures
        sec_headers_bytes(hs, ord).len() == 32 * hs.len(),
        sec_headers_bytes(hs, ord).subrange(32 * k, 32 * k + 32) == sec_bytes(hs[k], ord),
    decreases hs.len(),
{
    lemma_sec_headers_len(hs, ord);
    lemma_sec_headers_len(hs.drop_last(), ord);
    lemma_sec_roundtrip(hs.last(), ord);
    let b = sec_headers_bytes(hs, ord);
    let a = sec_headers_bytes(hs.drop_last(), ord);
    if k == hs.len() - 1 {
        assert(b.subrange(32 * k, 32 * k + 32) =~= sec_bytes(hs.last(), ord));
    } else {
        lemma_sec_headers_block(hs.drop_last(), k, ord);
        assert(b.subrange(32 * k, 32 * k + 32) =~= a.subrange(32 * k, 32 * k + 32));
    }
}

pub proof fn lemma_sec_headers_len(hs: Seq<dof_sec>, ord: ByteOrder)
    ensures
        sec_headers_bytes(hs, ord).len() == 32 * hs.len(),
    decreases hs.len(),
{
    if hs.len() > 0 {
        lemma_sec_headers_len(hs.drop_last(), ord);
        lemma_sec_roundtrip(hs.last(), ord);
    }
}

/// The parts of the DOF bytes of a section: the file header, the section
/// headers, and the bytes of each section where its header says.
#[verifier::rlimit(60)]
pub proof fn lemma_file_layout(s: SectionView, ord: ByteOrder)
    requires
        dof_size_bound(s, ord) <= usize::MAX,
    ensures
        ({
            let e = section_entries(s, ord);
            let start = DOF_HDR_SIZE + DOF_SEC_SIZE * e.len();
            let l = layout(e, start);
            let b = dof_bytes(s, ord);
            &&& e.len() == 3 + 2 * s.providers.len()
            &&& l.0.len() == e.len()
            &&& b.len() == l.2
            &&& start + 0 <= l.2 <= usize::MAX
            &&& b.subrange(0, 64) == header_bytes(s.ident, e.len() as int, l.2, ord)
            &&& forall|k: int|
                0 <= k < e.len() ==> b.subrange(64 + 32 * k, 64 + 32 * k + 32) == sec_bytes(
                    #[trigger] l.0[k], ord,
                )
            &&& forall|k: int|
                0 <= k < e.len() ==> section_data(b, #[trigger] l.0[k]) == Some(e[k].1)
            &&& forall|k: int| 0 <= k < e.len() ==> (#[trigger] l.0[k]).dofs_type == e[k].0
        }),
{
    let e = section_entries(s, ord);
    let start = DOF_HDR_SIZE + DOF_SEC_SIZE * e.len();
    lemma_section_entries_ok(s, start, ord);
    lemma_layout_places(e, start);
    lemma_layout(e, start);
    lemma_entries_bound_nonneg(e);
    let l = layout(e, start);
    let h = header_bytes(s.ident, e.len() as int, l.2, ord);
    let sh = sec_headers_bytes(l.0, ord);
    let d = concat(l.1);
    let b = dof_bytes(s, ord);
    reveal(dof_bytes);
    lemma_sec_headers_len(l.0, ord);
    assert(h.len() == 64);
    assert(b == h + sh + d);
    assert(b.subrange(0, 64) =~= h);
    assert forall|k: int| 0 <= k < e.len() implies b.subrange(64 + 32 * k, 64 + 32 * k + 32)
        == sec_bytes(#[trigger] l.0[k], ord) by {
        lemma_sec_headers_block(l.0, k, ord);
        assert(b.subrange(64 + 32 * k, 64 + 32 * k + 32) =~= sh.subrange(32 * k, 32 * k + 32));
    }
    assert forall|k: int| 0 <= k < e.len() implies section_data(b, #[trigger] l.0[k]) == Some(
        e[k].1,
    ) by {
        lemma_concat_at(l.1, k);
        let c = concat(l.1.take(k)).len() as int;
        let n = e[k].1.len() as int;
        assert(l.0[k].dofs_offset == start + c);
        assert(l.0[k].dofs_size == n);
        assert(b.subrange(start + c, start + c + n) =~= d.subrange(c, c + n));
        assert(d.subrange(c, c + n) =~= l.1[k].subrange(0, n)) by {
            assert(d.subrange(c, c + l.1[k].len()) == l.1[k]);
        }
    }
}

/// Reading the headers of the DOF bytes of a section gives back its section
/// headers.
#[verifier::rlimit(60)]
pub proof fn lemma_headers_read_back(s: SectionView, ord: ByteOrder)
    requires
        dof_size_bound(s, ord) <= usize::MAX,
        3 + 2 * s.providers.len() <= u32::MAX,
    ensures
        raw_headers(dof_bytes(s, ord), ord) == Some(
            Ok::<Seq<dof_sec>, Error>(
                layout(
                    section_entries(s, ord),
                    DOF_HDR_SIZE + DOF_SEC_SIZE * section_entries(s, ord).len(),
                ).0,
            ),
        ),
        ident_of(dof_bytes(s, ord).subrange(0, 16)) == ident_of(ident_bytes(s.ident)),
{
    lemma_file_layout(s, ord);
    let e = section_entries(s, ord);
    let start = DOF_HDR_SIZE + DOF_SEC_SIZE * e.len();
    let l = layout(e, start);
    let b = dof_bytes(s, ord);
    let hb = b.subrange(0, 64);
    let n = e.len();
    assert(hb.subrange(24, 28) =~= u32_bytes(DOF_SEC_SIZE as u32, ord));
    assert(hb.subrange(28, 32) =~= u32_bytes(n as u32, ord));
    assert(hb.subrange(32, 40) =~= u64_bytes(DOF_HDR_SIZE as u64, ord));
    lemma_read_u32_at(hb, 24, DOF_SEC_SIZE as u32, ord);
    lemma_read_u32_at(hb, 28, n as u32, ord);
    lemma_read_u64_at(hb, 32, DOF_HDR_SIZE as u64, ord);
    assert forall|i: int| 0 <= i < n implies #[trigger] sec_of(b.subrange(64 + 32 * i, 64 + 32 * i + 32), ord)
        == l.0[i] by {
        lemma_sec_roundtrip(l.0[i], ord);
    }
    assert(Seq::new(n as nat, |i: int| sec_of(b.subrange(64 + 32 * i, 64 + 32 * i + 32), ord)) =~= l.0);
    assert(b.subrange(0, 16) =~= hb.subrange(0, 16));
    assert(hb.subrange(0, 16) =~= ident_bytes(s.ident));
}

/// The section headers of the DOF bytes of a section.
pub open spec fn file_headers(s: SectionView, ord: ByteOrder) -> Seq<dof_sec> {
    layout(section_entries(s, ord), DOF_HDR_SIZE + DOF_SEC_SIZE * section_entries(s, ord).len()).0
}

/// Section `k` of the DOF bytes of a section: its type, and its bytes where
/// its header says.
pub proof fn lemma_file_entry(s: SectionView, k: int, ord: ByteOrder)
    requires
        dof_size_bound(s, ord) <= usize::MAX,
        0 <= k < 3 + 2 * s.providers.len(),
    ensures
        file_headers(s, ord).len() == 3 + 2 * s.providers.len(),
        section_entries(s, ord).len() == 3 + 2 * s.providers.len(),
        section_data(dof_bytes(s, ord), file_headers(s, ord)[k]) == Some(section_entries(s, ord)[k].1),
        file_headers(s, ord)[k].dofs_type == section_entries(s, ord)[k].0,
{
    lemma_file_layout(s, ord);
}

/// What section `k` of a serialized section holds.
pub proof fn lemma_entry_kind(s: SectionView, k: int, ord: ByteOrder)
    requires
        0 <= k < 3 + 2 * s.providers.len(),
    ensures
        ({
            let e = section_entries(s, ord);
            let pvs = s.providers;
            let n = pvs.len();
            let strings = section_strings(s);
            &&& e.len() == 3 + 2 * n
            &&& (e[k].0 == DOF_SECT_PROVIDER) == (k >= 3 + n)
            &&& k == 0 ==> e[k].1 == strtab_of(strings)
            &&& k == 1 ==> e[k].1 == u32s_bytes(offsets_of(all_probes(pvs)), ord)
            &&& k == 2 ==> e[k].1 == u32s_bytes(enabled_offsets_of(all_probes(pvs)), ord)
            &&& 3 <= k < 3 + n ==> e[k].1 == probes_section(
                strings,
                all_probes(pvs.take(k - 3)),
                pvs[k - 3].probes, ord,
            )
            &&& 3 + n <= k ==> e[k].1 == provider_bytes(
                provider_record(strings, k - 3 - n, pvs[k - 3 - n].name), ord,
            )
        }),
{
}

// ---------------------------------------------------------------------------
// Providers
// ---------------------------------------------------------------------------

pub proof fn lemma_all_probes_prefix(pvs: Seq<ProviderView>, i: int)
    requires
        0 <= i <= pvs.len(),
    ensures
        all_probes(pvs.take(i)).is_prefix_of(all_probes(pvs)),
    decreases pvs.len() - i,
{
    if i == pvs.len() {
        assert(pvs.take(i) =~= pvs);
    } else {
        lemma_all_probes_prefix(pvs, i + 1);
        assert(pvs.take(i + 1).drop_last() =~= pvs.take(i));
        let a = all_probes(pvs.take(i));
        let b = all_probes(pvs.take(i + 1));
        let c = all_probes(pvs);
        assert(a =~= c.subrange(0, a.len() as int)) by {
            assert(a =~= b.subrange(0, a.len() as int));
        }
    }
}

/// The name of provider `i` and the strings of its probes are among the
/// strings of the providers.
pub proof fn lemma_strings_of_provider(pvs: Seq<ProviderView>, i: int)
    requires
        0 <= i < pvs.len(),
    ensures
        distinct(provider_strings(pvs)).contains(pvs[i].name),
        forall|k: int|
            0 <= k < pvs[i].probes.len() ==> distinct(provider_strings(pvs)).contains(
                (#[trigger] pvs[i].probes[k]).name,
            ) && distinct(provider_strings(pvs)).contains(pvs[i].probes[k].function),
{
    let all = provider_strings(pvs);
    let ps = pvs[i].probes;
    lemma_provider_strings_prefix(pvs, i + 1);
    assert(pvs.take(i + 1).drop_last() =~= pvs.take(i));
    let head = provider_strings(pvs.take(i)).push(pvs[i].name);
    let t = provider_strings(pvs.take(i + 1));
    assert(t =~= head + probe_strings(ps));
    lemma_distinct_contains(all);
    let q = head.len() - 1;
    assert(all[q] == t[q]);
    assert(all[q] == pvs[i].name);
    assert forall|k: int| 0 <= k < ps.len() implies distinct(all).contains((#[trigger] ps[k]).name)
        && distinct(all).contains(ps[k].function) by {
        lemma_probe_strings_prefix(ps, k + 1);
        assert(ps.take(k + 1).drop_last() =~= ps.take(k));
        let u = probe_strings(ps.take(k + 1));
        let w = probe_strings(ps);
        let qn = head.len() + u.len() - 1;
        let qf = head.len() + u.len() - 2;
        assert(w[u.len() - 1] == u[u.len() - 1]);
        assert(w[u.len() - 2] == u[u.len() - 2]);
        assert(all[qn] == t[qn]);
        assert(all[qf] == t[qf]);
        assert(t[qn] == ps[k].name);
        assert(t[qf] == ps[k].function);
    }
}

/// A section whose DOF bytes read back as the section: its magic bytes are
/// DOF's, its bytes fit in memory, its counts and offsets fit the fields of
/// the records, and no name holds a NUL character.
#[verifier::opaque]
pub open spec fn roundtrip_ok(s: SectionView, ord: ByteOrder) -> bool {
    &&& s.ident.magic@ == dof_magic()
    &&& dof_size_bound(s, ord) <= usize::MAX
    &&& 3 + 2 * s.providers.len() <= u32::MAX
    &&& strtab_of(section_strings(s)).len() <= u32::MAX
    &&& offsets_of(all_probes(s.providers)).len() <= u32::MAX
    &&& enabled_offsets_of(all_probes(s.providers)).len() <= u32::MAX
    &&& forall|i: int| 0 <= i < s.providers.len() ==> no_nul(#[trigger] s.providers[i].name)
    &&& forall|i: int, k: int|
        0 <= i < s.providers.len() && 0 <= k < s.providers[i].probes.len() ==> {
            &&& no_nul((#[trigger] s.providers[i].probes[k]).name)
            &&& no_nul(s.providers[i].probes[k].function)
            &&& s.providers[i].probes[k].offsets.len() <= u16::MAX
            &&& s.providers[i].probes[k].enabled_offsets.len() <= u16::MAX
        }
}

/// Provider section `i` reads back as provider `i`.
#[verifier::rlimit(100)]
pub proof fn lemma_provider_read_back(s: SectionView, i: int, ord: ByteOrder)
    requires
        roundtrip_ok(s, ord),
        0 <= i < s.providers.len(),
    ensures
        provider_view_of(dof_bytes(s, ord), file_headers(s, ord), file_headers(s, ord)[3 + s.providers.len() + i], ord)
            == Some(s.providers[i]),
{
    reveal(roundtrip_ok);
    let pvs = s.providers;
    let n = pvs.len();
    let hs = file_headers(s, ord);
    let b = dof_bytes(s, ord);
    let strings = section_strings(s);
    let pv = pvs[i];
    let rec = provider_record(strings, i, pv.name);
    lemma_file_entry(s, 3 + n + i, ord);
    lemma_entry_kind(s, 3 + n + i, ord);
    lemma_provider_roundtrip(rec, ord);
    assert(section_data(b, hs[3 + n + i]) == Some(provider_bytes(rec, ord)));
    assert(rec.dofpv_probes == 3 + i);
    lemma_file_entry(s, 0, ord);
    lemma_entry_kind(s, 0, ord);
    lemma_file_entry(s, 1, ord);
    lemma_entry_kind(s, 1, ord);
    lemma_file_entry(s, 2, ord);
    lemma_entry_kind(s, 2, ord);
    lemma_file_entry(s, 3 + i, ord);
    lemma_entry_kind(s, 3 + i, ord);
    assert(extract(b, hs, 0) == Some(strtab_of(strings)));
    assert(extract(b, hs, 1) == Some(u32s_bytes(offsets_of(all_probes(pvs)), ord)));
    assert(extract(b, hs, 2) == Some(u32s_bytes(enabled_offsets_of(all_probes(pvs)), ord)));
    assert(extract(b, hs, 3 + i) == Some(
        probes_section(strings, all_probes(pvs.take(i)), pv.probes, ord),
    ));
    lemma_strings_of_provider(pvs, i);
    assert(no_nul(pv.name));
    lemma_string_of_table(strings, pv.name);
    assert(rec.dofpv_name == str_index(strings, pv.name));
    let prior = all_probes(pvs.take(i));
    lemma_all_probes_prefix(pvs, i + 1);
    assert(pvs.take(i + 1).drop_last() =~= pvs.take(i));
    assert(all_probes(pvs.take(i + 1)) == prior + pv.probes);
    assert forall|k: int| 0 <= k < pv.probes.len() implies probe_ok(strings, #[trigger] pv.probes[k]) by {
        assert(pvs[i].probes[k] == pv.probes[k]);
    }
    lemma_probes_read_back(strings, all_probes(pvs), prior, pv.probes, ord);
}

/// The providers of the DOF bytes of a section are its providers.
#[verifier::rlimit(60)]
pub proof fn lemma_providers_read_back(s: SectionView, j: int, ord: ByteOrder)
    requires
        roundtrip_ok(s, ord),
        0 <= j <= 3 + 2 * s.providers.len(),
    ensures
        providers_upto(dof_bytes(s, ord), file_headers(s, ord), j as nat, ord) == Some(
            if j <= 3 + s.providers.len() {
                Seq::<ProviderView>::empty()
            } else {
                s.providers.take(j - 3 - s.providers.len())
            },
        ),
    decreases j,
{
    let n = s.providers.len();
    assert(dof_size_bound(s, ord) <= usize::MAX) by {
        reveal(roundtrip_ok);
    }
    if j > 0 {
        lemma_providers_read_back(s, j - 1, ord);
        let k = j - 1;
        lemma_file_entry(s, k, ord);
        lemma_entry_kind(s, k, ord);
        if k >= 3 + n {
            let i = k - 3 - n;
            lemma_provider_read_back(s, i, ord);
            assert(s.providers.take(i + 1) =~= (if k <= 3 + n {
                Seq::<ProviderView>::empty()
            } else {
                s.providers.take(k - 3 - n)
            }).push(s.providers[i]));
        }
    }
}

// ---------------------------------------------------------------------------
// The law
// ---------------------------------------------------------------------------

/// Reading back the DOF bytes of a section, in the byte order they were
/// written in, gives the section: the same providers with the same probes,
/// and the same model, encoding and version.
/// This holds for every section whose magic bytes are DOF's, whose bytes fit
/// in memory, whose counts and offsets fit the fields of the DOF records, and
/// none of whose names holds a NUL character.
#[verifier::rlimit(100)]
pub proof fn lemma_section_roundtrip(s: SectionView, ord: ByteOrder)
    requires
        roundtrip_ok(s, ord),
    ensures
        section_of(dof_bytes(s, ord), ord) == Some(
            Ok::<(Seq<ProviderView>, (DataModel, DataEncoding, u8)), Error>(
                (s.providers, (s.ident.model, s.ident.encoding, s.ident.version)),
            ),
        ),
{
    assert(dof_size_bound(s, ord) <= usize::MAX && 3 + 2 * s.providers.len() <= u32::MAX
        && s.ident.magic@ == dof_magic()) by {
        reveal(roundtrip_ok);
    }
    lemma_headers_read_back(s, ord);
    let n = s.providers.len();
    lemma_file_entry(s, 0, ord);
    lemma_providers_read_back(s, 3 + 2 * n as int, ord);
    assert(s.providers.take(n as int) =~= s.providers);
    let b = dof_bytes(s, ord);
    let hs = file_headers(s, ord);
    assert(raw_headers(b, ord) == Some(Ok::<Seq<dof_sec>, Error>(hs)));
    assert(providers_of(b, hs, ord) == Some(s.providers));
    let id = ident_bytes(s.ident);
    assert(id.subrange(0, 4) =~= s.ident.magic@);
    assert(id[4] == model_byte(s.ident.model));
    assert(id[5] == encoding_byte(s.ident.encoding));
    assert(id[6] == s.ident.version);
    assert(model_of(model_byte(s.ident.model)) == Some(s.ident.model));
    assert(encoding_of(encoding_byte(s.ident.encoding)) == Some(s.ident.encoding));
    assert(ident_of(id) == Ok::<(DataModel, DataEncoding, u8), Error>(
        (s.ident.model, s.ident.encoding, s.ident.version),
    ));
}

} // verus!
