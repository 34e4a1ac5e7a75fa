//! Serialization of a [`Section`] into DOF bytes.
//!
//! A serialized section holds, in order: a string table, the table of probe
//! offsets, the table of is-enabled offsets, one probe section per provider,
//! and one provider section per provider.

use vstd::prelude::*;
use crate::bytes::{native_order, ByteOrder};
use vstd::utf8::encode_utf8;
use crate::bytes::{u32_bytes, u64_bytes, push_u32};
use crate::dof::{Section, SectionView, ProviderView, ProbeView, Provider, Probe, Ident, ident_bytes};
use crate::dof_raw::{
    dof_hdr, dof_sec, dof_probe, dof_provider, hdr_bytes, sec_bytes, probe_bytes, provider_bytes,
    DOF_SECT_STRTAB, DOF_SECT_PROFFS, DOF_SECT_PRENOFFS, DOF_SECT_PROBES, DOF_SECT_PROVIDER,
    DOF_SECF_LOAD, DOF_HDR_SIZE, DOF_SEC_SIZE,
};

verus! {

// ---------------------------------------------------------------------------
// The string table
// ---------------------------------------------------------------------------

/// The strings of a run of probes, in the order the serializer meets them:
/// each probe's function, then its name.
pub open spec fn probe_strings(ps: Seq<ProbeView>) -> Seq<Seq<char>>
    decreases ps.len(),
{
    if ps.len() == 0 {
        seq![]
    } else {
        probe_strings(ps.drop_last()) + seq![ps.last().function, ps.last().name]
    }
}

/// The strings of a run of providers, in the order the serializer meets
/// them: each provider's name, then the strings of its probes.
pub open spec fn provider_strings(pvs: Seq<ProviderView>) -> Seq<Seq<char>>
    decreases pvs.len(),
{
    if pvs.len() == 0 {
        seq![]
    } else {
        provider_strings(pvs.drop_last()) + seq![pvs.last().name] + probe_strings(pvs.last().probes)
    }
}

/// The distinct strings of `t`, each where it first occurs.
pub open spec fn distinct(t: Seq<Seq<char>>) -> Seq<Seq<char>>
    decreases t.len(),
{
    if t.len() == 0 {
        seq![]
    } else if distinct(t.drop_last()).contains(t.last()) {
        distinct(t.drop_last())
    } else {
        distinct(t.drop_last()).push(t.last())
    }
}

/// The string table holding the strings `d`: a NUL byte, then each string's
/// UTF-8 bytes followed by a NUL byte.
pub open spec fn strtab_of(d: Seq<Seq<char>>) -> Seq<u8>
    decreases d.len(),
{
    if d.len() == 0 {
        seq![0u8]
    } else {
        strtab_of(d.drop_last()) + encode_utf8(d.last()) + seq![0u8]
    }
}

/// The position of the first occurrence of `s` in `d`.
pub open spec fn position(d: Seq<Seq<char>>, s: Seq<char>) -> int
    decreases d.len(),
{
    if d.len() == 0 {
        0
    } else if d.drop_last().contains(s) {
        position(d.drop_last(), s)
    } else {
        d.len() - 1
    }
}

/// The offset of `s` in the string table of the strings `d`.
pub open spec fn str_index(d: Seq<Seq<char>>, s: Seq<char>) -> int {
    strtab_of(d.take(position(d, s))).len() as int
}

pub proof fn lemma_position(d: Seq<Seq<char>>, s: Seq<char>)
    requires
        d.contains(s),
    ensures
        0 <= position(d, s) < d.len(),
        d[position(d, s)] == s,
        forall|k: int| 0 <= k < position(d, s) ==> d[k] != s,
    decreases d.len(),
{
    if d.drop_last().contains(s) {
        lemma_position(d.drop_last(), s);
        assert forall|k: int| 0 <= k < position(d, s) implies d[k] != s by {
            assert(d.drop_last()[k] == d[k]);
        }
        assert(d.drop_last()[position(d, s)] == d[position(d, s)]);
    } else {
        assert forall|k: int| 0 <= k < d.len() - 1 implies d[k] != s by {
            assert(d.drop_last()[k] == d[k]);
        }
    }
}

/// The position of `s` is the same in any extension of `d`.
pub proof fn lemma_position_extend(d: Seq<Seq<char>>, e: Seq<Seq<char>>, s: Seq<char>)
    requires
        d.contains(s),
    ensures
        position(d + e, s) == position(d, s),
    decreases e.len(),
{
    if e.len() == 0 {
        assert(d + e =~= d);
    } else {
        let de = d + e;
        assert(de.drop_last() =~= d + e.drop_last());
        lemma_position_extend(d, e.drop_last(), s);
        let k = choose|k: int| 0 <= k < d.len() && d[k] == s;
        assert(de.drop_last()[k] == s);
    }
}

/// The string table of a prefix of `d` is a prefix of the string table of `d`.
pub proof fn lemma_strtab_prefix(d: Seq<Seq<char>>, k: int)
    requires
        0 <= k <= d.len(),
    ensures
        strtab_of(d.take(k)).len() <= strtab_of(d).len(),
        strtab_of(d) == strtab_of(d.take(k)) + strtab_of(d).subrange(
            strtab_of(d.take(k)).len() as int,
            strtab_of(d).len() as int,
        ),
    decreases d.len() - k,
{
    if k == d.len() {
        assert(d.take(k) =~= d);
        assert(strtab_of(d).subrange(strtab_of(d).len() as int, strtab_of(d).len() as int) =~= seq![]);
        assert(strtab_of(d) =~= strtab_of(d) + Seq::<u8>::empty());
    } else {
        lemma_strtab_prefix(d, k + 1);
        let t = d.take(k + 1);
        assert(t.drop_last() =~= d.take(k));
        let a = strtab_of(d.take(k));
        let b = strtab_of(t);
        let c = strtab_of(d);
        assert(b == a + encode_utf8(t.last()) + seq![0u8]);
        assert(c == b + c.subrange(b.len() as int, c.len() as int));
        assert(c =~= a + c.subrange(a.len() as int, c.len() as int));
    }
}

/// Where string `k` of `d` stands in the string table of `d`: its bytes,
/// then a NUL byte.
pub proof fn lemma_strtab_entry(d: Seq<Seq<char>>, k: int)
    requires
        0 <= k < d.len(),
    ensures
        ({
            let at = strtab_of(d.take(k)).len() as int;
            let bytes = encode_utf8(d[k]);
            &&& at + bytes.len() + 1 <= strtab_of(d).len()
            &&& strtab_of(d).subrange(at, at + bytes.len()) == bytes
            &&& strtab_of(d)[at + bytes.len()] == 0
        }),
{
    lemma_strtab_prefix(d, k + 1);
    let t = d.take(k + 1);
    assert(t.drop_last() =~= d.take(k));
    let a = strtab_of(d.take(k));
    let bytes = encode_utf8(d[k]);
    let b = strtab_of(t);
    let c = strtab_of(d);
    let at = a.len() as int;
    let end = at + bytes.len();
    assert(b == a + bytes + seq![0u8]);
    assert(c.subrange(at, end) =~= b.subrange(at, end));
    assert(b.subrange(at, end) =~= bytes);
    assert(c[end] == b[end]);
}

/// The strings that have been given a place in the string table, with their
/// offsets, and the string table itself.
struct StringTable {
    strings: Vec<String>,
    offsets: Vec<usize>,
    bytes: Vec<u8>,
}

impl StringTable {
    spec fn strings_view(&self) -> Seq<Seq<char>> {
        self.strings@.map_values(|s: String| s@)
    }

    spec fn wf(&self) -> bool {
        &&& self.offsets@.len() == self.strings@.len()
        &&& self.bytes@ == strtab_of(self.strings_view())
        &&& forall|k: int|
            0 <= k < self.offsets@.len() ==> #[trigger] self.offsets@[k] == strtab_of(
                self.strings_view().take(k),
            ).len()
        &&& self.strings_view().no_duplicates()
    }

    fn new() -> (t: StringTable)
        ensures
            t.wf(),
            t.strings_view() == Seq::<Seq<char>>::empty(),
    {
        let t = StringTable { strings: Vec::new(), offsets: Vec::new(), bytes: vec![0u8] };
        proof {
            assert(t.strings_view() =~= Seq::<Seq<char>>::empty());
            assert(t.bytes@ =~= seq![0u8]);
        }
        t
    }

    /// The offset of `s` in the table, adding it first where it is new.
    fn intern(&mut self, s: &String) -> (r: usize)
        requires
            old(self).wf(),
        ensures
            final(self).wf(),
            final(self).strings_view() == distinct_push(old(self).strings_view(), s@),
            r == str_index(final(self).strings_view(), s@),
    {
        let ghost d = self.strings_view();
        let mut k: usize = 0;
        while k < self.strings.len()
            invariant
                self.wf(),
                self.strings_view() == d,
                0 <= k <= self.strings@.len(),
                forall|j: int| 0 <= j < k ==> d[j] != s@,
            decreases self.strings@.len() - k,
        {
            if self.strings[k] == *s {
                proof {
                    assert(d[k as int] == s@);
                    assert(d.contains(s@));
                    lemma_position(d, s@);
                    if position(d, s@) != k {
                        assert(d[position(d, s@)] == s@);
                    }
                }
                return self.offsets[k];
            }
            k = k + 1;
        }
        proof {
            assert(!d.contains(s@));
        }
        let at = self.bytes.len();
        let b = s.as_str().as_bytes();
        let mut i: usize = 0;
        let ghost bytes0 = self.bytes@;
        let ghost strs0 = self.strings@;
        let ghost offs0 = self.offsets@;
        while i < b.len()
            invariant
                0 <= i <= b@.len(),
                self.strings@ == strs0,
                self.offsets@ == offs0,
                b@ == encode_utf8(s@),
                self.bytes@ == bytes0 + b@.subrange(0, i as int),
            decreases b@.len() - i,
        {
            self.bytes.push(b[i]);
            proof {
                assert(b@.subrange(0, i + 1) =~= b@.subrange(0, i as int).push(b@[i as int]));
            }
            i = i + 1;
        }
        self.bytes.push(0u8);
        self.strings.push(s.clone());
        self.offsets.push(at);
        proof {
            let d2 = self.strings_view();
            assert(d2 =~= d.push(s@));
            assert(d2.drop_last() =~= d);
            assert(b@.subrange(0, b@.len() as int) =~= b@);
            assert(self.bytes@ =~= strtab_of(d2));
            assert forall|j: int| 0 <= j < self.offsets@.len() implies #[trigger] self.offsets@[j]
                == strtab_of(d2.take(j)).len() by {
                if j < d.len() {
                    assert(d2.take(j) =~= d.take(j));
                } else {
                    assert(d2.take(j) =~= d);
                }
            }
            assert forall|x: int, y: int| 0 <= x < d2.len() && 0 <= y < d2.len() && x != y implies d2[x]
                != d2[y] by {
                if x < d.len() && y < d.len() {
                    assert(d[x] != d[y]);
                } else if x < d.len() {
                    assert(d[x] != s@);
                } else {
                    assert(d[y] != s@);
                }
            }
            assert(!d2.drop_last().contains(s@));
            assert(position(d2, s@) == d.len());
            assert(d2.take(d.len() as int) =~= d);
        }
        at
    }
}

/// `d` with `s` added at its end where it is new.
pub open spec fn distinct_push(d: Seq<Seq<char>>, s: Seq<char>) -> Seq<Seq<char>> {
    if d.contains(s) {
        d
    } else {
        d.push(s)
    }
}

/// `distinct` of a longer run extends `distinct` of a shorter one.
pub proof fn lemma_distinct_prefix(t1: Seq<Seq<char>>, t2: Seq<Seq<char>>)
    requires
        t1.is_prefix_of(t2),
    ensures
        distinct(t1).is_prefix_of(distinct(t2)),
    decreases t2.len(),
{
    if t2.len() == t1.len() {
        assert(t1 =~= t2);
    } else {
        assert(t1.is_prefix_of(t2.drop_last()));
        lemma_distinct_prefix(t1, t2.drop_last());
        let d0 = distinct(t1);
        let d1 = distinct(t2.drop_last());
        if !d1.contains(t2.last()) {
            assert(d1.push(t2.last()).subrange(0, d0.len() as int) =~= d1.subrange(0, d0.len() as int));
        }
    }
}

/// Adding a string to a run adds it to `distinct` where it is new.
pub proof fn lemma_distinct_push(t: Seq<Seq<char>>, s: Seq<char>)
    ensures
        distinct(t.push(s)) == distinct_push(distinct(t), s),
{
    assert(t.push(s).drop_last() =~= t);
}

/// Every string of `t` has a place in `distinct(t)`, and none twice.
pub proof fn lemma_distinct_contains(t: Seq<Seq<char>>)
    ensures
        forall|k: int| 0 <= k < t.len() ==> distinct(t).contains(#[trigger] t[k]),
    decreases t.len(),
{
    if t.len() > 0 {
        lemma_distinct_contains(t.drop_last());
        assert forall|k: int| 0 <= k < t.len() implies distinct(t).contains(#[trigger] t[k]) by {
            if k < t.len() - 1 {
                assert(t.drop_last()[k] == t[k]);
                let d = distinct(t.drop_last());
                let j = choose|j: int| 0 <= j < d.len() && d[j] == t[k];
                if !d.contains(t.last()) {
                    assert(d.push(t.last())[j] == t[k]);
                }
            } else {
                let d = distinct(t.drop_last());
                if !d.contains(t.last()) {
                    assert(d.push(t.last())[d.len() as int] == t.last());
                }
            }
        }
    }
}

/// A string keeps its offset in the string table as the table grows.
pub proof fn lemma_str_index_stable(d: Seq<Seq<char>>, e: Seq<Seq<char>>, s: Seq<char>)
    requires
        d.is_prefix_of(e),
        d.contains(s),
    ensures
        str_index(e, s) == str_index(d, s),
{
    let rest = e.skip(d.len() as int);
    assert(e =~= d + rest);
    lemma_position_extend(d, rest, s);
    lemma_position(d, s);
    let k = position(d, s);
    assert(e.take(k) =~= d.take(k));
}

/// The offset that the last string of a run is given when it is met is its
/// offset in the final string table.
pub proof fn lemma_index_final(t: Seq<Seq<char>>, all: Seq<Seq<char>>)
    requires
        t.len() > 0,
        t.is_prefix_of(all),
    ensures
        str_index(distinct(t), t.last()) == str_index(distinct(all), t.last()),
{
    lemma_distinct_prefix(t, all);
    lemma_distinct_contains(t);
    assert(t[t.len() - 1] == t.last());
    lemma_str_index_stable(distinct(t), distinct(all), t.last());
}

pub proof fn lemma_prefix_trans(a: Seq<Seq<char>>, b: Seq<Seq<char>>, c: Seq<Seq<char>>)
    requires
        a.is_prefix_of(b),
        b.is_prefix_of(c),
    ensures
        a.is_prefix_of(c),
{
    assert(a =~= c.subrange(0, a.len() as int));
}

// ---------------------------------------------------------------------------
// The sections of a serialized `Section`
// ---------------------------------------------------------------------------

/// All probes of a run of providers, in order.
pub open spec fn all_probes(pvs: Seq<ProviderView>) -> Seq<ProbeView>
    decreases pvs.len(),
{
    if pvs.len() == 0 {
        seq![]
    } else {
        all_probes(pvs.drop_last()) + pvs.last().probes
    }
}

/// The probe offsets of a run of probes, in order.
pub open spec fn offsets_of(ps: Seq<ProbeView>) -> Seq<u32>
    decreases ps.len(),
{
    if ps.len() == 0 {
        seq![]
    } else {
        offsets_of(ps.drop_last()) + ps.last().offsets
    }
}

/// The is-enabled offsets of a run of probes, in order.
pub open spec fn enabled_offsets_of(ps: Seq<ProbeView>) -> Seq<u32>
    decreases ps.len(),
{
    if ps.len() == 0 {
        seq![]
    } else {
        enabled_offsets_of(ps.drop_last()) + ps.last().enabled_offsets
    }
}

/// A run of `u32`s, each in the byte order `ord`.
pub open spec fn u32s_bytes(xs: Seq<u32>, ord: ByteOrder) -> Seq<u8>
    decreases xs.len(),
{
    if xs.len() == 0 {
        seq![]
    } else {
        u32s_bytes(xs.drop_last(), ord) + u32_bytes(xs.last(), ord)
    }
}

/// The strings of a section, each once, in the order of its string table.
pub open spec fn section_strings(s: SectionView) -> Seq<Seq<char>> {
    distinct(provider_strings(s.providers))
}

/// The DOF record of probe `p`, whose offsets follow those of the probes `prior`.
pub open spec fn probe_record(strings: Seq<Seq<char>>, prior: Seq<ProbeView>, p: ProbeView) -> dof_probe {
    dof_probe {
        dofpr_addr: p.address,
        dofpr_func: str_index(strings, p.function) as u32,
        dofpr_name: str_index(strings, p.name) as u32,
        dofpr_nargv: 0,
        dofpr_xargv: 0,
        dofpr_argidx: 0,
        dofpr_offidx: offsets_of(prior).len() as u32,
        dofpr_nargc: 0,
        dofpr_xargc: 0,
        dofpr_noffs: p.offsets.len() as u16,
        dofpr_enoffidx: enabled_offsets_of(prior).len() as u32,
        dofpr_nenoffs: p.enabled_offsets.len() as u16,
        dofpr_pad1: 0,
        dofpr_pad2: 0,
    }
}

/// The bytes of the probe section of the probes `ps`, which follow the probes `prior`.
pub open spec fn probes_section(strings: Seq<Seq<char>>, prior: Seq<ProbeView>, ps: Seq<ProbeView>, ord: ByteOrder) -> Seq<u8>
    decreases ps.len(),
{
    if ps.len() == 0 {
        seq![]
    } else {
        probes_section(strings, prior, ps.drop_last(), ord) + probe_bytes(
            probe_record(strings, prior + ps.drop_last(), ps.last()), ord,
        )
    }
}

/// The DOF record of provider `i`, named `name`.
pub open spec fn provider_record(strings: Seq<Seq<char>>, i: int, name: Seq<char>) -> dof_provider {
    dof_provider {
        dofpv_strtab: 0,
        dofpv_probes: (3 + i) as u32,
        dofpv_prargs: 0,
        dofpv_proffs: 1,
        dofpv_name: str_index(strings, name) as u32,
        dofpv_provattr: 0,
        dofpv_modattr: 0,
        dofpv_funcattr: 0,
        dofpv_nameattr: 0,
        dofpv_argsattr: 0,
        dofpv_prenoffs: 2,
    }
}

/// The type and bytes of each section of a serialized `Section`: the string
/// table, the offsets, the is-enabled offsets, the probes of each provider,
/// then each provider.
pub open spec fn section_entries(s: SectionView, ord: ByteOrder) -> Seq<(u32, Seq<u8>)> {
    let pvs = s.providers;
    let strings = section_strings(s);
    let ps = all_probes(pvs);
    seq![
        (DOF_SECT_STRTAB, strtab_of(strings)),
        (DOF_SECT_PROFFS, u32s_bytes(offsets_of(ps), ord)),
        (DOF_SECT_PRENOFFS, u32s_bytes(enabled_offsets_of(ps), ord)),
    ] + Seq::new(
        pvs.len(),
        |i: int| (DOF_SECT_PROBES, probes_section(strings, all_probes(pvs.take(i)), pvs[i].probes, ord)),
    ) + Seq::new(
        pvs.len(),
        |i: int| (DOF_SECT_PROVIDER, provider_bytes(provider_record(strings, i, pvs[i].name), ord)),
    )
}

/// The plain view of a list of sections.
pub open spec fn entries_view(v: Seq<(u32, Vec<u8>)>) -> Seq<(u32, Seq<u8>)> {
    v.map_values(|e: (u32, Vec<u8>)| (e.0, e.1@))
}

pub proof fn lemma_u32s_bytes_len(xs: Seq<u32>, ord: ByteOrder)
    ensures
        u32s_bytes(xs, ord).len() == 4 * xs.len(),
    decreases xs.len(),
{
    if xs.len() > 0 {
        lemma_u32s_bytes_len(xs.drop_last(), ord);
    }
}

pub proof fn lemma_u32s_bytes_concat(a: Seq<u32>, b: Seq<u32>, ord: ByteOrder)
    ensures
        u32s_bytes(a + b, ord) == u32s_bytes(a, ord) + u32s_bytes(b, ord),
    decreases b.len(),
{
    if b.len() == 0 {
        assert(a + b =~= a);
        assert(u32s_bytes(a, ord) + u32s_bytes(b, ord) =~= u32s_bytes(a, ord));
    } else {
        lemma_u32s_bytes_concat(a, b.drop_last(), ord);
        assert((a + b).drop_last() =~= a + b.drop_last());
        assert(u32s_bytes(a + b, ord) =~= u32s_bytes(a, ord) + u32s_bytes(b, ord));
    }
}

/// Append the offsets `xs`, each in the byte order `ord`.
fn push_offsets(v: &mut Vec<u8>, xs: &Vec<u32>, ord: ByteOrder)
    ensures
        final(v)@ == old(v)@ + u32s_bytes(xs@, ord),
{
    let ghost v0 = v@;
    let mut k: usize = 0;
    while k < xs.len()
        invariant
            0 <= k <= xs@.len(),
            v@ == v0 + u32s_bytes(xs@.take(k as int), ord),
        decreases xs@.len() - k,
    {
        push_u32(v, xs[k], ord);
        proof {
            assert(xs@.take(k + 1).drop_last() =~= xs@.take(k as int));
            assert(v@ =~= v0 + u32s_bytes(xs@.take(k + 1), ord));
        }
        k = k + 1;
    }
    proof {
        assert(xs@.take(xs@.len() as int) =~= xs@);
    }
}

/// The sections of a serialized `Section`, as pairs of section type and data.
#[verifier::rlimit(40)]
pub fn build_section_data_in_order(section: &Section, ord: ByteOrder) -> (r: Vec<(u32, Vec<u8>)>)
    requires
        3 + 2 * section.providers@.len() <= usize::MAX,
    ensures
        entries_view(r@) == section_entries(section@, ord),
{
    let ghost sv = section@;
    let ghost pvs = sv.providers;
    let ghost strings = section_strings(sv);
    let ghost all = provider_strings(pvs);
    proof {
        assert(pvs.take(0) =~= Seq::<ProviderView>::empty());
    }
    let mut table = StringTable::new();
    let mut offsets: Vec<u8> = Vec::new();
    let mut enabled_offsets: Vec<u8> = Vec::new();
    let mut probe_sections: Vec<Vec<u8>> = Vec::new();
    let mut provider_sections: Vec<Vec<u8>> = Vec::new();
    let n = section.providers.len();
    let mut i: usize = 0;
    while i < n
        invariant
            n == section.providers@.len(),
            3 + 2 * n <= usize::MAX,
            sv == section@,
            pvs == sv.providers,
            strings == distinct(all),
            all == provider_strings(pvs),
            0 <= i <= n,
            table.wf(),
            table.strings_view() == distinct(provider_strings(pvs.take(i as int))),
            offsets@ == u32s_bytes(offsets_of(all_probes(pvs.take(i as int))), ord),
            enabled_offsets@ == u32s_bytes(enabled_offsets_of(all_probes(pvs.take(i as int))), ord),
            probe_sections@.len() == i,
            provider_sections@.len() == i,
            forall|k: int|
                0 <= k < i ==> (#[trigger] probe_sections@[k])@ == probes_section(
                    strings,
                    all_probes(pvs.take(k)),
                    pvs[k].probes, ord,
                ),
            forall|k: int|
                0 <= k < i ==> (#[trigger] provider_sections@[k])@ == provider_bytes(
                    provider_record(strings, k, pvs[k].name), ord,
                ),
        decreases n - i,
    {
        let provider = &section.providers[i];
        let ghost pv = pvs[i as int];
        let ghost ps = pv.probes;
        let ghost head = provider_strings(pvs.take(i as int)).push(pv.name);
        let ghost prior = all_probes(pvs.take(i as int));
        proof {
            assert(pv == provider@);
            assert(pvs.take(i + 1).drop_last() =~= pvs.take(i as int));
            assert(provider_strings(pvs.take(i + 1)) =~= head + probe_strings(ps));
            assert(all_probes(pvs.take(i + 1)) == prior + ps);
            lemma_provider_strings_prefix(pvs, i + 1);
            assert(pvs.take(n as int) =~= pvs);
            lemma_probe_strings_prefix(ps, 0);
            assert(ps.take(0) =~= Seq::<ProbeView>::empty());
            assert(head + probe_strings(ps.take(0)) =~= head);
            assert(head.is_prefix_of(head + probe_strings(ps)));
            lemma_prefix_trans(head, head + probe_strings(ps), all);
            lemma_index_final(head, all);
            lemma_distinct_push(provider_strings(pvs.take(i as int)), pv.name);
        }
        let name_index = table.intern(&provider.name);
        let mut probe_section: Vec<u8> = Vec::new();
        let m = provider.probes.len();
        let mut j: usize = 0;
        proof {
            assert(prior + ps.take(0) =~= prior);
        }
        while j < m
            invariant
                n == section.providers@.len(),
                sv == section@,
                pvs == sv.providers,
                strings == distinct(all),
                0 <= i < n,
                provider == section.providers@[i as int],
                pv == pvs[i as int],
                pv == provider@,
                ps == pv.probes,
                m == ps.len(),
                0 <= j <= m,
                (head + probe_strings(ps)).is_prefix_of(all),
                table.wf(),
                table.strings_view() == distinct(head + probe_strings(ps.take(j as int))),
                offsets@ == u32s_bytes(offsets_of(prior + ps.take(j as int)), ord),
                enabled_offsets@ == u32s_bytes(enabled_offsets_of(prior + ps.take(j as int)), ord),
                probe_section@ == probes_section(strings, prior, ps.take(j as int), ord),
            decreases m - j,
        {
            let probe = &provider.probes[j];
            let ghost p = ps[j as int];
            let ghost t0 = head + probe_strings(ps.take(j as int));
            let ghost t1 = t0.push(p.function);
            let ghost t2 = t1.push(p.name);
            proof {
                assert(p == probe@);
                assert(ps.take(j + 1).drop_last() =~= ps.take(j as int));
                assert((prior + ps.take(j + 1)).drop_last() =~= prior + ps.take(j as int));
                assert(t2 =~= head + probe_strings(ps.take(j + 1)));
                lemma_probe_strings_prefix(ps, j + 1);
                assert(t2.is_prefix_of(head + probe_strings(ps)));
                lemma_prefix_trans(t2, head + probe_strings(ps), all);
                assert(t1.is_prefix_of(t2));
                lemma_prefix_trans(t1, t2, all);
                lemma_index_final(t1, all);
                lemma_index_final(t2, all);
                lemma_distinct_push(t0, p.function);
                lemma_distinct_push(t1, p.name);
                lemma_u32s_bytes_len(offsets_of(prior + ps.take(j as int)), ord);
                lemma_u32s_bytes_len(enabled_offsets_of(prior + ps.take(j as int)), ord);
            }
            let func_index = table.intern(&probe.function);
            let name_index = table.intern(&probe.name);
            let offidx = offsets.len() / 4;
            let enoffidx = enabled_offsets.len() / 4;
            let record = dof_probe {
                dofpr_addr: probe.address,
                dofpr_func: func_index as u32,
                dofpr_name: name_index as u32,
                dofpr_nargv: 0,
                dofpr_xargv: 0,
                dofpr_argidx: 0,
                dofpr_offidx: offidx as u32,
                dofpr_nargc: 0,
                dofpr_xargc: 0,
                dofpr_noffs: probe.offsets.len() as u16,
                dofpr_enoffidx: enoffidx as u32,
                dofpr_nenoffs: probe.enabled_offsets.len() as u16,
                dofpr_pad1: 0,
                dofpr_pad2: 0,
            };
            push_offsets(&mut offsets, &probe.offsets, ord);
            push_offsets(&mut enabled_offsets, &probe.enabled_offsets, ord);
            record.write_to(&mut probe_section, ord);
            proof {
                assert(record == probe_record(strings, prior + ps.take(j as int), p));
                lemma_u32s_bytes_concat(offsets_of(prior + ps.take(j as int)), p.offsets, ord);
                lemma_u32s_bytes_concat(enabled_offsets_of(prior + ps.take(j as int)), p.enabled_offsets, ord);
            }
            j = j + 1;
        }
        proof {
            assert(ps.take(m as int) =~= ps);
        }
        let record = dof_provider {
            dofpv_strtab: 0,
            dofpv_probes: (3 + i) as u32,
            dofpv_prargs: 0,
            dofpv_proffs: 1,
            dofpv_name: name_index as u32,
            dofpv_provattr: 0,
            dofpv_modattr: 0,
            dofpv_funcattr: 0,
            dofpv_nameattr: 0,
            dofpv_argsattr: 0,
            dofpv_prenoffs: 2,
        };
        let mut provider_section: Vec<u8> = Vec::new();
        record.write_to(&mut provider_section, ord);
        probe_sections.push(probe_section);
        provider_sections.push(provider_section);
        i = i + 1;
    }
    proof {
        assert(pvs.take(n as int) =~= pvs);
    }
    let ghost e = section_entries(sv, ord);
    let mut r: Vec<(u32, Vec<u8>)> = Vec::new();
    r.push((DOF_SECT_STRTAB, table.bytes));
    r.push((DOF_SECT_PROFFS, offsets));
    r.push((DOF_SECT_PRENOFFS, enabled_offsets));
    proof {
        assert(entries_view(r@) =~= e.take(3));
    }
    let mut k: usize = 0;
    while k < n
        invariant
            0 <= k <= n,
            n == pvs.len(),
            e == section_entries(sv, ord),
            strings == section_strings(sv),
            pvs == sv.providers,
            e.len() == 3 + 2 * n,
            probe_sections@.len() == n - k,
            forall|q: int|
                0 <= q < n - k ==> (#[trigger] probe_sections@[q])@ == e[3 + k + q].1,
            entries_view(r@) == e.take(3 + k),
        decreases n - k,
    {
        let ghost before = probe_sections@;
        let data = probe_sections.remove(0);
        proof {
            assert(data@ == e[3 + k as int].1);
            assert forall|q: int| 0 <= q < n - (k + 1) implies (#[trigger] probe_sections@[q])@ == e[3
                + (k + 1) + q].1 by {
                assert(probe_sections@[q] == before[q + 1]);
            }
        }
        let ghost r0 = r@;
        r.push((DOF_SECT_PROBES, data));
        proof {
            assert(e[3 + k as int].0 == DOF_SECT_PROBES);
            lemma_entries_push(r0, (DOF_SECT_PROBES, data));
            assert(e.take(3 + k + 1) =~= e.take(3 + k as int).push(e[3 + k as int]));
        }
        k = k + 1;
    }
    let mut k: usize = 0;
    while k < n
        invariant
            0 <= k <= n,
            n == pvs.len(),
            e == section_entries(sv, ord),
            e.len() == 3 + 2 * n,
            provider_sections@.len() == n - k,
            forall|q: int|
                0 <= q < n - k ==> (#[trigger] provider_sections@[q])@ == e[3 + n + k + q].1,
            entries_view(r@) == e.take(3 + n + k),
        decreases n - k,
    {
        let ghost before = provider_sections@;
        let data = provider_sections.remove(0);
        proof {
            assert(data@ == e[3 + n + k as int].1);
            assert forall|q: int| 0 <= q < n - (k + 1) implies (#[trigger] provider_sections@[q])@
                == e[3 + n + (k + 1) + q].1 by {
                assert(provider_sections@[q] == before[q + 1]);
            }
        }
        let ghost r0 = r@;
        r.push((DOF_SECT_PROVIDER, data));
        proof {
            assert(e[3 + n + k as int].0 == DOF_SECT_PROVIDER);
            lemma_entries_push(r0, (DOF_SECT_PROVIDER, data));
            assert(e.take(3 + n + k + 1) =~= e.take(3 + n + k as int).push(e[3 + n + k as int]));
        }
        k = k + 1;
    }
    proof {
        assert(e.take(3 + 2 * n) =~= e);
    }
    r
}

/// The strings of a prefix of a run of probes come first among its strings.
pub proof fn lemma_probe_strings_prefix(ps: Seq<ProbeView>, j: int)
    requires
        0 <= j <= ps.len(),
    ensures
        probe_strings(ps.take(j)).is_prefix_of(probe_strings(ps)),
    decreases ps.len() - j,
{
    if j == ps.len() {
        assert(ps.take(j) =~= ps);
    } else {
        lemma_probe_strings_prefix(ps, j + 1);
        assert(ps.take(j + 1).drop_last() =~= ps.take(j));
        let a = probe_strings(ps.take(j));
        let b = probe_strings(ps.take(j + 1));
        assert(a.is_prefix_of(b));
        lemma_prefix_trans(a, b, probe_strings(ps));
    }
}

/// The strings of a prefix of a run of providers come first among its strings.
pub proof fn lemma_provider_strings_prefix(pvs: Seq<ProviderView>, i: int)
    requires
        0 <= i <= pvs.len(),
    ensures
        provider_strings(pvs.take(i)).is_prefix_of(provider_strings(pvs)),
    decreases pvs.len() - i,
{
    if i == pvs.len() {
        assert(pvs.take(i) =~= pvs);
    } else {
        lemma_provider_strings_prefix(pvs, i + 1);
        assert(pvs.take(i + 1).drop_last() =~= pvs.take(i));
        let a = provider_strings(pvs.take(i));
        let b = provider_strings(pvs.take(i + 1));
        assert(a.is_prefix_of(b));
        lemma_prefix_trans(a, b, provider_strings(pvs));
    }
}

pub proof fn lemma_entries_push(v: Seq<(u32, Vec<u8>)>, x: (u32, Vec<u8>))
    ensures
        entries_view(v.push(x)) == entries_view(v).push((x.0, x.1@)),
{
    assert(entries_view(v.push(x)) =~= entries_view(v).push((x.0, x.1@)));
}

// ---------------------------------------------------------------------------
// Section headers and the file
// ---------------------------------------------------------------------------

/// The section types that a serialized `Section` holds.
pub open spec fn known_section_type(t: u32) -> bool {
    t == DOF_SECT_STRTAB || t == DOF_SECT_PROFFS || t == DOF_SECT_PRENOFFS || t == DOF_SECT_PROVIDER
        || t == DOF_SECT_PROBES
}

/// The alignment of a section's data in the file.
pub open spec fn section_align(t: u32) -> int {
    if t == DOF_SECT_STRTAB {
        1
    } else if t == DOF_SECT_PROBES {
        8
    } else {
        4
    }
}

/// The size of one entry of a section.
pub open spec fn section_entsize(t: u32) -> int {
    if t == DOF_SECT_STRTAB {
        1
    } else if t == DOF_SECT_PROVIDER {
        44
    } else if t == DOF_SECT_PROBES {
        48
    } else {
        4
    }
}

/// The zero bytes that bring `offset` up to a multiple of `align`.
pub open spec fn padding(offset: int, align: int) -> int {
    if offset % align > 0 {
        align - offset % align
    } else {
        0
    }
}

pub open spec fn zeros(n: int) -> Seq<u8> {
    Seq::new(n as nat, |k: int| 0u8)
}

/// The section headers, the section data (each padded so that the next one is
/// aligned) and the end offset of sections laid out one after the other from
/// `start`.
pub open spec fn layout(entries: Seq<(u32, Seq<u8>)>, start: int) -> (Seq<dof_sec>, Seq<Seq<u8>>, int)
    decreases entries.len(),
{
    if entries.len() == 0 {
        (seq![], seq![], start)
    } else {
        let prev = layout(entries.drop_last(), start);
        let t = entries.last().0;
        let data = entries.last().1;
        let off = prev.2;
        let pad = padding(off, section_align(t));
        let ds = if pad > 0 {
            prev.1.update(prev.1.len() - 1, prev.1.last() + zeros(pad))
        } else {
            prev.1
        };
        let h = dof_sec {
            dofs_type: t,
            dofs_align: section_align(t) as u32,
            dofs_flags: DOF_SECF_LOAD,
            dofs_entsize: section_entsize(t) as u32,
            dofs_offset: (off + pad) as u64,
            dofs_size: data.len() as u64,
        };
        (prev.0.push(h), ds.push(data), off + pad + data.len())
    }
}

/// An upper bound on the bytes that sections take once laid out.
pub open spec fn entries_bound(entries: Seq<(u32, Seq<u8>)>) -> int
    decreases entries.len(),
{
    if entries.len() == 0 {
        0
    } else {
        entries_bound(entries.drop_last()) + entries.last().1.len() + 8
    }
}

/// Sections that can be laid out from `start`: each of a known type, and the
/// first needing no padding before it.
pub open spec fn layout_ok(entries: Seq<(u32, Seq<u8>)>, start: int) -> bool {
    &&& start >= 0
    &&& forall|k: int| 0 <= k < entries.len() ==> known_section_type(#[trigger] entries[k].0)
    &&& entries.len() > 0 ==> padding(start, section_align(entries[0].0)) == 0
}

pub proof fn lemma_layout(entries: Seq<(u32, Seq<u8>)>, start: int)
    requires
        layout_ok(entries, start),
    ensures
        layout(entries, start).0.len() == entries.len(),
        layout(entries, start).1.len() == entries.len(),
        start <= layout(entries, start).2 <= start + entries_bound(entries),
    decreases entries.len(),
{
    if entries.len() > 0 {
        assert forall|k: int| 0 <= k < entries.len() - 1 implies known_section_type(
            #[trigger] entries.drop_last()[k].0,
        ) by {
            assert(entries.drop_last()[k] == entries[k]);
        }
        if entries.len() > 1 {
            assert(entries.drop_last()[0] == entries[0]);
        }
        lemma_layout(entries.drop_last(), start);
        assert(known_section_type(entries[entries.len() - 1].0));
        let prev = layout(entries.drop_last(), start);
        let pad = padding(prev.2, section_align(entries.last().0));
        if pad > 0 {
            assert(prev.1.update(prev.1.len() - 1, prev.1.last() + zeros(pad)).len() == prev.1.len());
        }
    }
}

/// The bytes of the DOF file header of a section with identifier `id`,
/// `nsec` sections and `size` bytes in all.
pub open spec fn header_bytes(id: Ident, nsec: int, size: int, ord: ByteOrder) -> Seq<u8> {
    ident_bytes(id) + u32_bytes(0, ord) + u32_bytes(DOF_HDR_SIZE as u32, ord) + u32_bytes(DOF_SEC_SIZE as u32, ord) + u32_bytes(
        nsec as u32, ord,
    ) + u64_bytes(DOF_HDR_SIZE as u64, ord) + u64_bytes(size as u64, ord) + u64_bytes(size as u64, ord) + u64_bytes(0, ord)
}

/// Section headers one after the other.
pub open spec fn sec_headers_bytes(hs: Seq<dof_sec>, ord: ByteOrder) -> Seq<u8>
    decreases hs.len(),
{
    if hs.len() == 0 {
        seq![]
    } else {
        sec_headers_bytes(hs.drop_last(), ord) + sec_bytes(hs.last(), ord)
    }
}

/// Byte strings one after the other.
pub open spec fn concat(ds: Seq<Seq<u8>>) -> Seq<u8>
    decreases ds.len(),
{
    if ds.len() == 0 {
        seq![]
    } else {
        concat(ds.drop_last()) + ds.last()
    }
}

/// The DOF bytes of a section: the file header, the section headers, then the
/// data of each section.
#[verifier::opaque]
pub open spec fn dof_bytes(s: SectionView, ord: ByteOrder) -> Seq<u8> {
    let e = section_entries(s, ord);
    let l = layout(e, DOF_HDR_SIZE + DOF_SEC_SIZE * e.len());
    header_bytes(s.ident, l.0.len() as int, l.2, ord) + sec_headers_bytes(l.0, ord) + concat(l.1)
}

/// A bound on the size of the DOF bytes of a section, which must fit in memory.
pub open spec fn dof_size_bound(s: SectionView, ord: ByteOrder) -> int {
    let e = section_entries(s, ord);
    DOF_HDR_SIZE + DOF_SEC_SIZE * e.len() + entries_bound(e)
}

pub open spec fn data_view(v: Seq<Vec<u8>>) -> Seq<Seq<u8>> {
    v.map_values(|d: Vec<u8>| d@)
}

pub proof fn lemma_entries_bound_prefix(e: Seq<(u32, Seq<u8>)>, k: int)
    requires
        0 <= k <= e.len(),
    ensures
        0 <= entries_bound(e.take(k)) <= entries_bound(e),
    decreases e.len() - k,
{
    if k == e.len() {
        assert(e.take(k) =~= e);
    } else {
        lemma_entries_bound_prefix(e, k + 1);
        assert(e.take(k + 1).drop_last() =~= e.take(k));
    }
    lemma_entries_bound_nonneg(e.take(k));
}

pub proof fn lemma_entries_bound_nonneg(e: Seq<(u32, Seq<u8>)>)
    ensures
        entries_bound(e) >= 0,
    decreases e.len(),
{
    if e.len() > 0 {
        lemma_entries_bound_nonneg(e.drop_last());
    }
}

pub proof fn lemma_layout_ok_prefix(e: Seq<(u32, Seq<u8>)>, start: int, k: int)
    requires
        layout_ok(e, start),
        0 <= k <= e.len(),
    ensures
        layout_ok(e.take(k), start),
{
    assert forall|q: int| 0 <= q < k implies known_section_type(#[trigger] e.take(k)[q].0) by {
        assert(e.take(k)[q] == e[q]);
    }
    if k > 0 {
        assert(e.take(k)[0] == e[0]);
    }
}

/// Lay out sections one after the other from `offset`: pad the data of each
/// section so that the next one is aligned as its type asks, and give each
/// its header. Returns the headers, the padded data and the end offset.
pub fn build_section_headers(sections: Vec<(u32, Vec<u8>)>, offset: usize) -> (r: (
    Vec<dof_sec>,
    Vec<Vec<u8>>,
    usize,
))
    requires
        layout_ok(entries_view(sections@), offset as int),
        offset + entries_bound(entries_view(sections@)) <= usize::MAX,
    ensures
        r.0@ == layout(entries_view(sections@), offset as int).0,
        data_view(r.1@) == layout(entries_view(sections@), offset as int).1,
        r.2 == layout(entries_view(sections@), offset as int).2,
{
    let ghost e = entries_view(sections@);
    let n = sections.len();
    let mut rest = sections;
    let mut headers: Vec<dof_sec> = Vec::new();
    let mut done: Vec<Vec<u8>> = Vec::new();
    let mut prev: Vec<u8> = Vec::new();
    let mut off = offset;
    let mut k: usize = 0;
    proof {
        assert(e.take(0) =~= Seq::<(u32, Seq<u8>)>::empty());
        assert(e.skip(0) =~= e);
    }
    while k < n
        invariant
            layout_ok(e, offset as int),
            offset + entries_bound(e) <= usize::MAX,
            n == e.len(),
            0 <= k <= n,
            entries_view(rest@) == e.skip(k as int),
            headers@ == layout(e.take(k as int), offset as int).0,
            off == layout(e.take(k as int), offset as int).2,
            k == 0 ==> done@.len() == 0,
            k > 0 ==> data_view(done@).push(prev@) == layout(e.take(k as int), offset as int).1,
        decreases n - k,
    {
        let ghost rest0 = rest@;
        proof {
            assert(entries_view(rest0).len() == rest0.len());
            assert(e.skip(k as int).len() == n - k);
        }
        let (t, data) = rest.remove(0);
        let ghost et = e.take(k + 1);
        proof {
            assert(entries_view(rest0)[0] == (rest0[0].0, rest0[0].1@));
            assert(entries_view(rest0)[0] == e.skip(k as int)[0]);
            assert(e.skip(k as int)[0] == e[k as int]);
            assert(e[k as int] == (t, data@));
            assert forall|q: int| 0 <= q < rest@.len() implies #[trigger] entries_view(rest@)[q]
                == e.skip(k + 1)[q] by {
                assert(rest@[q] == rest0[q + 1]);
                assert(entries_view(rest0)[q + 1] == e.skip(k as int)[q + 1]);
            }
            assert(entries_view(rest@) =~= e.skip(k + 1));
            assert(et.drop_last() =~= e.take(k as int));
            assert(et.last() == e[k as int]);
            lemma_layout_ok_prefix(e, offset as int, k as int);
            lemma_layout_ok_prefix(e, offset as int, k + 1);
            lemma_layout(e.take(k as int), offset as int);
            lemma_entries_bound_prefix(e, k + 1);
            assert(known_section_type(e[k as int].0));
        }
        let align: usize = if t == DOF_SECT_STRTAB {
            1
        } else if t == DOF_SECT_PROBES {
            8
        } else {
            4
        };
        let entsize: u32 = if t == DOF_SECT_STRTAB {
            1
        } else if t == DOF_SECT_PROVIDER {
            44
        } else if t == DOF_SECT_PROBES {
            48
        } else {
            4
        };
        let ghost pad = padding(off as int, align as int);
        let ghost prev0 = prev@;
        if off % align > 0 {
            let pad_len = align - off % align;
            proof {
                if k == 0 {
                    assert(e[0] == (t, data@));
                }
            }
            let mut z: usize = 0;
            while z < pad_len
                invariant
                    0 <= z <= pad_len,
                    prev@ == prev0 + zeros(z as int),
                decreases pad_len - z,
            {
                prev.push(0u8);
                proof {
                    assert(prev@ =~= prev0 + zeros(z + 1));
                }
                z = z + 1;
            }
            off = off + pad_len;
        }
        proof {
            assert(k > 0 || pad == 0);
            assert(off == layout(e.take(k as int), offset as int).2 + pad);
        }
        let ghost done0 = data_view(done@);
        if k > 0 {
            done.push(prev);
        }
        let header = dof_sec {
            dofs_type: t,
            dofs_align: align as u32,
            dofs_flags: DOF_SECF_LOAD,
            dofs_entsize: entsize,
            dofs_offset: off as u64,
            dofs_size: data.len() as u64,
        };
        off = off + data.len();
        headers.push(header);
        proof {
            let l0 = layout(e.take(k as int), offset as int);
            let l1 = layout(et, offset as int);
            if k > 0 {
                if pad > 0 {
                    assert(prev@ == l0.1.last() + zeros(pad));
                    assert(data_view(done@) =~= l0.1.update(l0.1.len() - 1, l0.1.last() + zeros(pad)));
                } else {
                    assert(prev0 =~= prev0 + zeros(0));
                    assert(data_view(done@) =~= l0.1);
                }
            } else {
                assert(data_view(done@) =~= l0.1);
            }
            assert(data_view(done@).push(data@) == l1.1);
            assert(headers@ == l1.0);
        }
        prev = data;
        k = k + 1;
    }
    proof {
        assert(e.take(n as int) =~= e);
    }
    if n > 0 {
        done.push(prev);
    }
    proof {
        if n == 0 {
            assert(data_view(done@) =~= layout(e, offset as int).1);
        } else {
            assert(data_view(done@) =~= layout(e, offset as int).1);
        }
    }
    (headers, done, off)
}

pub proof fn lemma_section_entries_ok(s: SectionView, start: int, ord: ByteOrder)
    requires
        start >= 0,
    ensures
        section_entries(s, ord).len() == 3 + 2 * s.providers.len(),
        layout_ok(section_entries(s, ord), start),
{
    let e = section_entries(s, ord);
    let n = s.providers.len();
    assert forall|k: int| 0 <= k < e.len() implies known_section_type(#[trigger] e[k].0) by {
        if k >= 3 + n {
            assert(e[k].0 == DOF_SECT_PROVIDER);
        } else if k >= 3 {
            assert(e[k].0 == DOF_SECT_PROBES);
        }
    }
    assert(e[0].0 == DOF_SECT_STRTAB);
}

/// Serialize a section into a vector of DOF bytes.
pub fn serialize_section_in_order(section: &Section, ord: ByteOrder) -> (r: Vec<u8>)
    requires
        dof_size_bound(section@, ord) <= usize::MAX,
    ensures
        r@ == dof_bytes(section@, ord),
{
    proof {
        lemma_entries_bound_nonneg(section_entries(section@, ord));
    }
    let sections = build_section_data_in_order(section, ord);
    serialize_entries(section, sections, ord)
}

/// Serialize a section, where its bytes fit in memory: `None` where the
/// sizes of its parts add up to more than a `usize` holds.
pub fn try_serialize_section_in_order(section: &Section, ord: ByteOrder) -> (r: Option<Vec<u8>>)
    ensures
        match r {
            Some(v) => dof_size_bound(section@, ord) <= usize::MAX && v@ == dof_bytes(section@, ord),
            None => dof_size_bound(section@, ord) > usize::MAX,
        },
{
    let ghost e = section_entries(section@, ord);
    proof {
        lemma_entries_bound_nonneg(e);
    }
    let n = section.providers.len();
    if n > (usize::MAX - 3) / 2 {
        proof {
            assert(e.len() == 3 + 2 * n);
            assert(3 + 2 * n > usize::MAX);
        }
        return None;
    }
    let sections = build_section_data_in_order(section, ord);
    let count = sections.len();
    if count > (usize::MAX - DOF_HDR_SIZE) / DOF_SEC_SIZE {
        proof {
            assert(DOF_SEC_SIZE * count > usize::MAX - DOF_HDR_SIZE) by (nonlinear_arith)
                requires
                    count > (usize::MAX - 64) / 32,
            ;
        }
        return None;
    }
    let mut total: usize = DOF_HDR_SIZE + DOF_SEC_SIZE * count;
    let mut k: usize = 0;
    proof {
        assert(e.take(0) =~= Seq::<(u32, Seq<u8>)>::empty());
    }
    while k < count
        invariant
            count == sections@.len(),
            entries_view(sections@) == e,
            e == section_entries(section@, ord),
            0 <= k <= count,
            total == DOF_HDR_SIZE + DOF_SEC_SIZE * count + entries_bound(e.take(k as int)),
        decreases count - k,
    {
        proof {
            assert(e.take(k + 1).drop_last() =~= e.take(k as int));
            assert(e[k as int].1 == sections@[k as int].1@);
        }
        let len = sections[k].1.len();
        if len > usize::MAX - 8 || total > usize::MAX - 8 - len {
            proof {
                lemma_entries_bound_prefix(e, k + 1);
            }
            return None;
        }
        total = total + len + 8;
        k = k + 1;
    }
    proof {
        assert(e.take(count as int) =~= e);
    }
    Some(serialize_entries(section, sections, ord))
}

/// Serialize a section from the data of its sections.
fn serialize_entries(section: &Section, sections: Vec<(u32, Vec<u8>)>, ord: ByteOrder) -> (r: Vec<u8>)
    requires
        dof_size_bound(section@, ord) <= usize::MAX,
        entries_view(sections@) == section_entries(section@, ord),
    ensures
        r@ == dof_bytes(section@, ord),
{
    let ghost e = section_entries(section@, ord);
    proof {
        lemma_section_entries_ok(section@, DOF_HDR_SIZE + DOF_SEC_SIZE * e.len(), ord);
        lemma_entries_bound_nonneg(e);
    }
    let hdr_size = DOF_HDR_SIZE + sections.len() * DOF_SEC_SIZE;
    let (section_headers, section_data, size) = build_section_headers(sections, hdr_size);
    proof {
        lemma_layout(e, hdr_size as int);
    }
    let header = dof_hdr {
        dofh_ident: section.ident.as_bytes(),
        dofh_flags: 0,
        dofh_hdrsize: DOF_HDR_SIZE as u32,
        dofh_secsize: DOF_SEC_SIZE as u32,
        dofh_secnum: section_headers.len() as u32,
        dofh_secoff: DOF_HDR_SIZE as u64,
        dofh_loadsz: size as u64,
        dofh_filesz: size as u64,
        dofh_pad: 0,
    };
    let mut file_data: Vec<u8> = Vec::new();
    header.write_to(&mut file_data, ord);
    let ghost l = layout(e, hdr_size as int);
    proof {
        assert(file_data@ =~= header_bytes(section.ident, l.0.len() as int, l.2, ord));
        assert(section_headers@.take(0) =~= Seq::<dof_sec>::empty());
    }
    let ghost head = file_data@;
    let mut k: usize = 0;
    while k < section_headers.len()
        invariant
            0 <= k <= section_headers@.len(),
            file_data@ == head + sec_headers_bytes(section_headers@.take(k as int), ord),
        decreases section_headers@.len() - k,
    {
        section_headers[k].write_to(&mut file_data, ord);
        proof {
            assert(section_headers@.take(k + 1).drop_last() =~= section_headers@.take(k as int));
            assert(file_data@ =~= head + sec_headers_bytes(section_headers@.take(k + 1), ord));
        }
        k = k + 1;
    }
    proof {
        assert(section_headers@.take(section_headers@.len() as int) =~= section_headers@);
    }
    let ghost head2 = file_data@;
    let ghost dv = data_view(section_data@);
    let mut rest = section_data;
    let m = rest.len();
    let mut k: usize = 0;
    proof {
        assert(dv.take(0) =~= Seq::<Seq<u8>>::empty());
        assert(data_view(rest@) =~= dv.skip(0));
    }
    while k < m
        invariant
            0 <= k <= m,
            m == dv.len(),
            data_view(rest@) == dv.skip(k as int),
            file_data@ == head2 + concat(dv.take(k as int)),
        decreases m - k,
    {
        let ghost rest0 = rest@;
        proof {
            assert(data_view(rest0).len() == rest0.len());
        }
        let mut d = rest.remove(0);
        proof {
            assert(data_view(rest0)[0] == dv.skip(k as int)[0]);
            assert(d@ == dv[k as int]);
            assert forall|q: int| 0 <= q < rest@.len() implies #[trigger] data_view(rest@)[q]
                == dv.skip(k + 1)[q] by {
                assert(rest@[q] == rest0[q + 1]);
                assert(data_view(rest0)[q + 1] == dv.skip(k as int)[q + 1]);
            }
            assert(data_view(rest@) =~= dv.skip(k + 1));
        }
        let ghost d0 = d@;
        file_data.append(&mut d);
        proof {
            assert(dv.take(k + 1).drop_last() =~= dv.take(k as int));
            assert(file_data@ =~= head2 + concat(dv.take(k + 1)));
        }
        k = k + 1;
    }
    proof {
        assert(dv.take(m as int) =~= dv);
        reveal(dof_bytes);
    }
    file_data
}

/// The sections of a serialized `Section`, as pairs of section type and
/// data, with integers in the byte order of the machine.
pub fn build_section_data(section: &Section) -> (r: Vec<(u32, Vec<u8>)>)
    requires
        3 + 2 * section.providers@.len() <= usize::MAX,
    ensures
        entries_view(r@) == section_entries(section@, ByteOrder::Little) || entries_view(r@)
            == section_entries(section@, ByteOrder::Big),
{
    build_section_data_in_order(section, native_order())
}

/// Serialize a section into a vector of DOF bytes, with integers in the
/// byte order of the machine. The size does not depend on the order.
pub fn serialize_section(section: &Section) -> (r: Vec<u8>)
    requires
        dof_size_bound(section@, ByteOrder::Little) <= usize::MAX,
    ensures
        r@ == dof_bytes(section@, ByteOrder::Little) || r@ == dof_bytes(section@, ByteOrder::Big),
{
    proof {
        lemma_size_bound_order_free(section@);
    }
    serialize_section_in_order(section, native_order())
}

/// Serialize a section, with integers in the byte order of the machine,
/// where its bytes fit in memory: `None` where the sizes of its parts add up
/// to more than a `usize` holds.
pub fn try_serialize_section(section: &Section) -> (r: Option<Vec<u8>>)
    ensures
        match r {
            Some(v) => dof_size_bound(section@, ByteOrder::Little) <= usize::MAX && (v@ == dof_bytes(
                section@,
                ByteOrder::Little,
            ) || v@ == dof_bytes(section@, ByteOrder::Big)),
            None => dof_size_bound(section@, ByteOrder::Little) > usize::MAX,
        },
{
    proof {
        lemma_size_bound_order_free(section@);
    }
    try_serialize_section_in_order(section, native_order())
}

impl Section {
    /// Serialize this section into a DOF object file section, with integers
    /// in the byte order of the machine.
    pub fn as_bytes(&self) -> (r: Vec<u8>)
        requires
            dof_size_bound(self@, ByteOrder::Little) <= usize::MAX,
        ensures
            r@ == dof_bytes(self@, ByteOrder::Little) || r@ == dof_bytes(self@, ByteOrder::Big),
    {
        serialize_section(self)
    }
}

/// The `k`th section of a serialized `Section` has the same type and length
/// in either byte order.
#[verifier::rlimit(40)]
pub proof fn lemma_entry_shape(s: SectionView, k: int)
    requires
        0 <= k < 3 + 2 * s.providers.len(),
    ensures
        section_entries(s, ByteOrder::Little).len() == 3 + 2 * s.providers.len(),
        section_entries(s, ByteOrder::Big).len() == 3 + 2 * s.providers.len(),
        section_entries(s, ByteOrder::Little)[k].0 == section_entries(s, ByteOrder::Big)[k].0,
        section_entries(s, ByteOrder::Little)[k].1.len() == section_entries(s, ByteOrder::Big)[k].1.len(),
{
    let pvs = s.providers;
    let n = pvs.len();
    let strings = section_strings(s);
    let ps = all_probes(pvs);
    let a = section_entries(s, ByteOrder::Little);
    let b = section_entries(s, ByteOrder::Big);
    if k == 1 {
        lemma_u32s_bytes_len(offsets_of(ps), ByteOrder::Little);
        lemma_u32s_bytes_len(offsets_of(ps), ByteOrder::Big);
    } else if k == 2 {
        lemma_u32s_bytes_len(enabled_offsets_of(ps), ByteOrder::Little);
        lemma_u32s_bytes_len(enabled_offsets_of(ps), ByteOrder::Big);
    } else if 3 <= k < 3 + n {
        let i = k - 3;
        assert(a[k] == (DOF_SECT_PROBES, probes_section(strings, all_probes(pvs.take(i)), pvs[i].probes, ByteOrder::Little)));
        assert(b[k] == (DOF_SECT_PROBES, probes_section(strings, all_probes(pvs.take(i)), pvs[i].probes, ByteOrder::Big)));
        crate::roundtrip::lemma_probes_section_len(strings, all_probes(pvs.take(i)), pvs[i].probes, ByteOrder::Little);
        crate::roundtrip::lemma_probes_section_len(strings, all_probes(pvs.take(i)), pvs[i].probes, ByteOrder::Big);
    } else if k >= 3 + n {
        let i = k - 3 - n;
        assert(a[k] == (DOF_SECT_PROVIDER, provider_bytes(provider_record(strings, i, pvs[i].name), ByteOrder::Little)));
        assert(b[k] == (DOF_SECT_PROVIDER, provider_bytes(provider_record(strings, i, pvs[i].name), ByteOrder::Big)));
        crate::dof_raw::lemma_provider_roundtrip(provider_record(strings, i, pvs[i].name), ByteOrder::Little);
        crate::dof_raw::lemma_provider_roundtrip(provider_record(strings, i, pvs[i].name), ByteOrder::Big);
    }
}

/// `entries_bound` depends on the types and lengths of the sections alone.
pub proof fn lemma_entries_bound_shape(a: Seq<(u32, Seq<u8>)>, b: Seq<(u32, Seq<u8>)>)
    requires
        a.len() == b.len(),
        forall|k: int| 0 <= k < a.len() ==> (#[trigger] a[k]).1.len() == b[k].1.len(),
    ensures
        entries_bound(a) == entries_bound(b),
    decreases a.len(),
{
    if a.len() > 0 {
        lemma_entries_bound_shape(a.drop_last(), b.drop_last());
        assert(a.last().1.len() == b.last().1.len());
    }
}

/// The size of the DOF of a section is the same in either byte order.
pub proof fn lemma_size_bound_order_free(s: SectionView)
    ensures
        dof_size_bound(s, ByteOrder::Little) == dof_size_bound(s, ByteOrder::Big),
{
    let a = section_entries(s, ByteOrder::Little);
    let b = section_entries(s, ByteOrder::Big);
    lemma_entry_shape(s, 0);
    assert forall|k: int| 0 <= k < a.len() implies (#[trigger] a[k]).1.len() == b[k].1.len() by {
        lemma_entry_shape(s, k);
    }
    lemma_entries_bound_shape(a, b);
}

} // verus!
