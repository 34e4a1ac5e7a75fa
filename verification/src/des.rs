//! Deserialization of DOF bytes into a [`Section`].
//!
//! The spec functions here return `None` for bytes that the reader cannot
//! make sense of at all (an index or a range outside the data, a string that
//! is not UTF-8); the public readers ask their callers for bytes on which that
//! does not happen, and `try_deserialize_section` says when it does.

use vstd::prelude::*;
use crate::bytes::{native_order, ByteOrder};
use crate::text::string_from_utf8;
use vstd::utf8::{valid_utf8, decode_utf8};
use crate::bytes::{read_u32, read_u64};
use crate::dof::{
    Error, Ident, Section, SectionView, Provider, ProviderView, Probe, ProbeView, DataModel,
    DataEncoding, ident_of, dof_magic,
};
use crate::dof_raw::{
    dof_hdr, dof_sec, dof_probe, dof_provider, hdr_decodes, sec_of, probe_of, provider_of,
    DOF_SECT_PROVIDER, DOF_HDR_SIZE, DOF_SEC_SIZE, DOF_PROBE_SIZE, DOF_PROVIDER_SIZE,
};

verus! {

// ---------------------------------------------------------------------------
// Strings and offsets
// ---------------------------------------------------------------------------

/// The first NUL byte of `b` at or after `k`, or 0 where there is none.
pub open spec fn nul_from(b: Seq<u8>, k: int) -> int
    decreases b.len() - k,
{
    if k < 0 || k >= b.len() {
        0
    } else if b[k] == 0 {
        k
    } else {
        nul_from(b, k + 1)
    }
}

/// The string that opens `b`: its bytes up to the first NUL byte (none where
/// `b` holds no NUL byte), where they are UTF-8.
pub open spec fn string_at(b: Seq<u8>) -> Option<Seq<char>> {
    let t = b.take(nul_from(b, 0));
    if valid_utf8(t) {
        Some(decode_utf8(t))
    } else {
        None
    }
}

pub proof fn lemma_nul_from(b: Seq<u8>, k: int)
    requires
        0 <= k,
    ensures
        0 <= nul_from(b, k) <= b.len(),
        nul_from(b, k) == 0 || (k <= nul_from(b, k) < b.len() && b[nul_from(b, k)] == 0),
    decreases b.len() - k,
{
    if k < b.len() && b[k] != 0 {
        lemma_nul_from(b, k + 1);
    }
}

/// Extract the NUL-terminated string that opens `buf`.
fn extract_string(buf: &[u8]) -> (r: Option<String>)
    ensures
        match r {
            Some(s) => string_at(buf@) == Some(s@),
            None => string_at(buf@) is None,
        },
{
    let n = buf.len();
    let mut k: usize = 0;
    while k < n && buf[k] != 0
        invariant
            n == buf@.len(),
            0 <= k <= n,
            nul_from(buf@, k as int) == nul_from(buf@, 0),
        decreases n - k,
    {
        k = k + 1;
    }
    let null = if k < n {
        k
    } else {
        0
    };
    proof {
        lemma_nul_from(buf@, 0);
        if k >= n {
            assert(nul_from(buf@, k as int) == 0);
        }
    }
    let mut bytes: Vec<u8> = Vec::new();
    let mut i: usize = 0;
    while i < null
        invariant
            null <= buf@.len(),
            0 <= i <= null,
            bytes@ == buf@.subrange(0, i as int),
        decreases null - i,
    {
        bytes.push(buf[i]);
        proof {
            assert(buf@.subrange(0, i + 1) =~= buf@.subrange(0, i as int).push(buf@[i as int]));
        }
        i = i + 1;
    }
    string_from_utf8(bytes)
}

/// The `u32` at position `index` of a table of `u32`s.
fn get_offset(buf: &[u8], index: usize, ord: ByteOrder) -> (r: u32)
    requires
        4 * index + 4 <= buf@.len(),
    ensures
        r == read_u32(buf@, 4 * index, ord),
{
    let _len = buf.len();
    crate::bytes::get_u32(buf, 4 * index, ord)
}

// ---------------------------------------------------------------------------
// Probes
// ---------------------------------------------------------------------------

/// The `u32`s `first .. first + n` of a table of `u32`s.
pub open spec fn table_u32s(t: Seq<u8>, first: int, n: int, ord: ByteOrder) -> Seq<u32> {
    Seq::new(n as nat, |k: int| read_u32(t, 4 * (first + k), ord))
}

/// Entries `first .. first + n` lie within a table of `u32`s.
pub open spec fn table_holds(t: Seq<u8>, first: int, n: int) -> bool {
    n == 0 || 4 * (first + n) <= t.len()
}

/// The probe that the record `rec` describes, given the string table and the
/// two offset tables it refers to.
pub open spec fn probe_view_of(rec: dof_probe, strtab: Seq<u8>, offs: Seq<u8>, enoffs: Seq<u8>, ord: ByteOrder) -> Option<
    ProbeView,
> {
    if !table_holds(offs, rec.dofpr_offidx as int, rec.dofpr_noffs as int) || !table_holds(
        enoffs,
        rec.dofpr_enoffidx as int,
        rec.dofpr_nenoffs as int,
    ) || rec.dofpr_name > strtab.len() || rec.dofpr_func > strtab.len() {
        None
    } else {
        match (
            string_at(strtab.skip(rec.dofpr_name as int)),
            string_at(strtab.skip(rec.dofpr_func as int)),
        ) {
            (Some(name), Some(function)) => Some(
                ProbeView {
                    name,
                    function,
                    address: rec.dofpr_addr,
                    offsets: table_u32s(offs, rec.dofpr_offidx as int, rec.dofpr_noffs as int, ord),
                    enabled_offsets: table_u32s(
                        enoffs,
                        rec.dofpr_enoffidx as int,
                        rec.dofpr_nenoffs as int, ord,
                    ),
                },
            ),
            _ => None,
        }
    }
}

/// The probes of the first `j` records of a probe section.
pub open spec fn probes_upto(
    buf: Seq<u8>,
    strtab: Seq<u8>,
    offs: Seq<u8>,
    enoffs: Seq<u8>,
    j: nat, ord: ByteOrder,
) -> Option<Seq<ProbeView>>
    decreases j,
{
    if j == 0 {
        Some(seq![])
    } else {
        let rec = probe_of(buf.subrange(48 * (j - 1), 48 * (j as int)), ord);
        match (probes_upto(buf, strtab, offs, enoffs, (j - 1) as nat, ord), probe_view_of(rec, strtab, offs, enoffs, ord)) {
            (Some(ps), Some(p)) => Some(ps.push(p)),
            _ => None,
        }
    }
}

/// The probes of a probe section, which holds whole records only.
pub open spec fn probes_of(buf: Seq<u8>, strtab: Seq<u8>, offs: Seq<u8>, enoffs: Seq<u8>, ord: ByteOrder) -> Option<
    Seq<ProbeView>,
> {
    if buf.len() % 48 != 0 {
        None
    } else {
        probes_upto(buf, strtab, offs, enoffs, buf.len() / 48, ord)
    }
}

/// Once a record cannot be read, no longer run of records can be.
pub proof fn lemma_probes_upto_none(
    buf: Seq<u8>,
    strtab: Seq<u8>,
    offs: Seq<u8>,
    enoffs: Seq<u8>,
    j: nat,
    k: nat, ord: ByteOrder,
)
    requires
        j <= k,
        probes_upto(buf, strtab, offs, enoffs, j, ord) is None,
    ensures
        probes_upto(buf, strtab, offs, enoffs, k, ord) is None,
    decreases k - j,
{
    if j < k {
        lemma_probes_upto_none(buf, strtab, offs, enoffs, j, (k - 1) as nat, ord);
    }
}

/// The `u32`s `first .. first + n` of a table of `u32`s.
fn read_table(t: &[u8], first: u32, n: u16, ord: ByteOrder) -> (r: Vec<u32>)
    requires
        table_holds(t@, first as int, n as int),
    ensures
        r@ == table_u32s(t@, first as int, n as int, ord),
{
    let mut r: Vec<u32> = Vec::new();
    let tlen = t.len();
    let mut k: u16 = 0;
    while k < n
        invariant
            tlen == t@.len(),
            table_holds(t@, first as int, n as int),
            0 <= k <= n,
            r@ == table_u32s(t@, first as int, k as int, ord),
        decreases n - k,
    {
        let index = first as usize + k as usize;
        let x = get_offset(t, index, ord);
        r.push(x);
        proof {
            assert(r@ =~= table_u32s(t@, first as int, k + 1, ord));
        }
        k = k + 1;
    }
    r
}

/// The probe that a record describes.
fn parse_probe(rec: dof_probe, strtab: &[u8], offsets: &[u8], enabled_offsets: &[u8], ord: ByteOrder) -> (r: Option<Probe>)
    ensures
        match r {
            Some(p) => probe_view_of(rec, strtab@, offsets@, enabled_offsets@, ord) == Some(p@),
            None => probe_view_of(rec, strtab@, offsets@, enabled_offsets@, ord) is None,
        },
{
    let noffs = rec.dofpr_noffs;
    let offidx = rec.dofpr_offidx;
    if noffs > 0 && (offidx as u64 + noffs as u64) * 4 > offsets.len() as u64 {
        return None;
    }
    let nen = rec.dofpr_nenoffs;
    let enidx = rec.dofpr_enoffidx;
    if nen > 0 && (enidx as u64 + nen as u64) * 4 > enabled_offsets.len() as u64 {
        return None;
    }
    let offs = read_table(offsets, offidx, noffs, ord);
    let enabled_offs = read_table(enabled_offsets, enidx, nen, ord);
    if rec.dofpr_name as u64 > strtab.len() as u64 || rec.dofpr_func as u64 > strtab.len() as u64 {
        return None;
    }
    let name_start = rec.dofpr_name as usize;
    let func_start = rec.dofpr_func as usize;
    let name = match extract_string(&strtab[name_start..strtab.len()]) {
        Some(s) => s,
        None => return None,
    };
    let function = match extract_string(&strtab[func_start..strtab.len()]) {
        Some(s) => s,
        None => return None,
    };
    proof {
        assert(strtab@.subrange(name_start as int, strtab@.len() as int) =~= strtab@.skip(name_start as int));
        assert(strtab@.subrange(func_start as int, strtab@.len() as int) =~= strtab@.skip(func_start as int));
    }
    Some(Probe { name, function, address: rec.dofpr_addr, offsets: offs, enabled_offsets: enabled_offs })
}

/// Parse a section of probes, given the string table and offset tables its
/// records refer to.
fn parse_probe_section(buf: &[u8], strtab: &[u8], offsets: &[u8], enabled_offsets: &[u8], ord: ByteOrder) -> (r:
    Option<Vec<Probe>>)
    ensures
        match r {
            Some(ps) => probes_of(buf@, strtab@, offsets@, enabled_offsets@, ord) == Some(
                ps@.map_values(|p: Probe| p@),
            ),
            None => probes_of(buf@, strtab@, offsets@, enabled_offsets@, ord) is None,
        },
{
    if buf.len() % DOF_PROBE_SIZE != 0 {
        return None;
    }
    let blen = buf.len();
    let count = blen / DOF_PROBE_SIZE;
    let mut probes: Vec<Probe> = Vec::new();
    let mut j: usize = 0;
    while j < count
        invariant
            blen == buf@.len(),
            count == buf@.len() / 48,
            buf@.len() % 48 == 0,
            0 <= j <= count,
            probes_upto(buf@, strtab@, offsets@, enabled_offsets@, j as nat, ord) == Some(
                probes@.map_values(|p: Probe| p@),
            ),
        decreases count - j,
    {
        proof {
            assert(48 * (j + 1) <= buf@.len()) by (nonlinear_arith)
                requires
                    j < count,
                    count == buf@.len() / 48,
                    buf@.len() % 48 == 0,
            ;
        }
        let rec = dof_probe::read_from(buf, DOF_PROBE_SIZE * j, ord);
        let ghost prev = probes@.map_values(|p: Probe| p@);
        match parse_probe(rec, strtab, offsets, enabled_offsets, ord) {
            Some(p) => {
                probes.push(p);
                proof {
                    assert(probes@.map_values(|p: Probe| p@) =~= prev.push(p@));
                }
            },
            None => {
                proof {
                    lemma_probes_upto_none(buf@, strtab@, offsets@, enabled_offsets@, (j + 1) as nat, count as nat, ord);
                }
                return None;
            },
        }
        j = j + 1;
    }
    Some(probes)
}

// ---------------------------------------------------------------------------
// Sections and providers
// ---------------------------------------------------------------------------

/// The bytes of the section with header `h`, where they lie within `buf`.
pub open spec fn section_data(buf: Seq<u8>, h: dof_sec) -> Option<Seq<u8>> {
    if h.dofs_offset + h.dofs_size <= buf.len() {
        Some(buf.subrange(h.dofs_offset as int, h.dofs_offset + h.dofs_size))
    } else {
        None
    }
}

/// The bytes of section `idx`, where there is such a section.
pub open spec fn extract(buf: Seq<u8>, secs: Seq<dof_sec>, idx: int) -> Option<Seq<u8>> {
    if 0 <= idx < secs.len() {
        section_data(buf, secs[idx])
    } else {
        None
    }
}

/// The provider that the provider section with header `h` describes.
pub open spec fn provider_view_of(buf: Seq<u8>, secs: Seq<dof_sec>, h: dof_sec, ord: ByteOrder) -> Option<ProviderView> {
    match section_data(buf, h) {
        None => None,
        Some(d) => if d.len() != 44 {
            None
        } else {
            let p = provider_of(d, ord);
            match (
                extract(buf, secs, p.dofpv_strtab as int),
                extract(buf, secs, p.dofpv_proffs as int),
                extract(buf, secs, p.dofpv_prenoffs as int),
                extract(buf, secs, p.dofpv_probes as int),
            ) {
                (Some(strtab), Some(offs), Some(enoffs), Some(probes)) => if p.dofpv_name
                    > strtab.len() {
                    None
                } else {
                    match (
                        string_at(strtab.skip(p.dofpv_name as int)),
                        probes_of(probes, strtab, offs, enoffs, ord),
                    ) {
                        (Some(name), Some(ps)) => Some(ProviderView { name, probes: ps }),
                        _ => None,
                    }
                },
                _ => None,
            }
        },
    }
}

/// The providers of the provider sections among the first `k` sections.
pub open spec fn providers_upto(buf: Seq<u8>, secs: Seq<dof_sec>, k: nat, ord: ByteOrder) -> Option<Seq<ProviderView>>
    decreases k,
{
    if k == 0 {
        Some(seq![])
    } else {
        match providers_upto(buf, secs, (k - 1) as nat, ord) {
            None => None,
            Some(pvs) => if secs[k - 1].dofs_type == DOF_SECT_PROVIDER {
                match provider_view_of(buf, secs, secs[k - 1], ord) {
                    Some(p) => Some(pvs.push(p)),
                    None => None,
                }
            } else {
                Some(pvs)
            },
        }
    }
}

/// The providers of all provider sections, in order.
pub open spec fn providers_of(buf: Seq<u8>, secs: Seq<dof_sec>, ord: ByteOrder) -> Option<Seq<ProviderView>> {
    providers_upto(buf, secs, secs.len(), ord)
}

pub proof fn lemma_providers_upto_none(buf: Seq<u8>, secs: Seq<dof_sec>, j: nat, k: nat, ord: ByteOrder)
    requires
        j <= k,
        providers_upto(buf, secs, j, ord) is None,
    ensures
        providers_upto(buf, secs, k, ord) is None,
    decreases k - j,
{
    if j < k {
        lemma_providers_upto_none(buf, secs, j, (k - 1) as nat, ord);
    }
}

/// The bytes of the section with header `h`.
fn section_bytes<'a>(h: &dof_sec, buf: &'a [u8]) -> (r: Option<&'a [u8]>)
    ensures
        match r {
            Some(d) => section_data(buf@, *h) == Some(d@),
            None => section_data(buf@, *h) is None,
        },
{
    let len = buf.len();
    if h.dofs_offset > len as u64 || h.dofs_size > len as u64 - h.dofs_offset {
        return None;
    }
    let start = h.dofs_offset as usize;
    let end = start + h.dofs_size as usize;
    Some(&buf[start..end])
}

/// Extract the bytes of a section by index.
fn extract_section<'a>(sections: &Vec<dof_sec>, index: usize, buf: &'a [u8]) -> (r: Option<&'a [u8]>)
    ensures
        match r {
            Some(d) => extract(buf@, sections@, index as int) == Some(d@),
            None => extract(buf@, sections@, index as int) is None,
        },
{
    if index >= sections.len() {
        return None;
    }
    section_bytes(&sections[index], buf)
}

/// The provider that a provider section describes.
fn parse_provider(sections: &Vec<dof_sec>, header: &dof_sec, buf: &[u8], ord: ByteOrder) -> (r: Option<Provider>)
    ensures
        match r {
            Some(p) => provider_view_of(buf@, sections@, *header, ord) == Some(p@),
            None => provider_view_of(buf@, sections@, *header, ord) is None,
        },
{
    let data = match section_bytes(header, buf) {
        Some(d) => d,
        None => return None,
    };
    if data.len() != DOF_PROVIDER_SIZE {
        return None;
    }
    let provider = dof_provider::read_from(data, 0, ord);
    proof {
        assert(data@.subrange(0, 44) =~= data@);
    }
    let strtab = match extract_section(sections, provider.dofpv_strtab as usize, buf) {
        Some(d) => d,
        None => return None,
    };
    let offsets = match extract_section(sections, provider.dofpv_proffs as usize, buf) {
        Some(d) => d,
        None => return None,
    };
    let enabled_offsets = match extract_section(sections, provider.dofpv_prenoffs as usize, buf) {
        Some(d) => d,
        None => return None,
    };
    let probe_data = match extract_section(sections, provider.dofpv_probes as usize, buf) {
        Some(d) => d,
        None => return None,
    };
    if provider.dofpv_name as u64 > strtab.len() as u64 {
        return None;
    }
    let name_start = provider.dofpv_name as usize;
    let name = match extract_string(&strtab[name_start..strtab.len()]) {
        Some(s) => s,
        None => return None,
    };
    proof {
        assert(strtab@.subrange(name_start as int, strtab@.len() as int) =~= strtab@.skip(name_start as int));
    }
    let probes = match parse_probe_section(probe_data, strtab, offsets, enabled_offsets, ord) {
        Some(ps) => ps,
        None => return None,
    };
    Some(Provider { name, probes })
}

/// Parse all provider sections.
fn parse_providers(sections: &Vec<dof_sec>, buf: &[u8], ord: ByteOrder) -> (r: Option<Vec<Provider>>)
    ensures
        match r {
            Some(pvs) => providers_of(buf@, sections@, ord) == Some(pvs@.map_values(|p: Provider| p@)),
            None => providers_of(buf@, sections@, ord) is None,
        },
{
    let n = sections.len();
    let mut providers: Vec<Provider> = Vec::new();
    let mut k: usize = 0;
    while k < n
        invariant
            n == sections@.len(),
            0 <= k <= n,
            providers_upto(buf@, sections@, k as nat, ord) == Some(providers@.map_values(|p: Provider| p@)),
        decreases n - k,
    {
        let header = &sections[k];
        if header.dofs_type == DOF_SECT_PROVIDER {
            let ghost prev = providers@.map_values(|p: Provider| p@);
            match parse_provider(sections, header, buf, ord) {
                Some(p) => {
                    providers.push(p);
                    proof {
                        assert(providers@.map_values(|p: Provider| p@) =~= prev.push(p@));
                    }
                },
                None => {
                    proof {
                        lemma_providers_upto_none(buf@, sections@, (k + 1) as nat, n as nat, ord);
                    }
                    return None;
                },
            }
        }
        k = k + 1;
    }
    Some(providers)
}

// ---------------------------------------------------------------------------
// Headers and whole sections
// ---------------------------------------------------------------------------

/// The section headers that the file header of `buf` points to, or the error
/// that reading them gives.
pub open spec fn raw_headers(buf: Seq<u8>, ord: ByteOrder) -> Option<Result<Seq<dof_sec>, Error>> {
    if buf.len() < 64 {
        None
    } else {
        let hb = buf.subrange(0, 64);
        let n = read_u32(hb, 28, ord) as int;
        let secsize = read_u32(hb, 24, ord) as int;
        let secoff = read_u64(hb, 32, ord) as int;
        if n == 0 {
            Some(Ok(seq![]))
        } else if secsize != 32 {
            if secoff + secsize > buf.len() {
                None
            } else {
                Some(Err(Error::ParseError))
            }
        } else if secoff + 32 * n > buf.len() {
            None
        } else {
            Some(
                Ok(
                    Seq::new(
                        n as nat,
                        |i: int| sec_of(buf.subrange(secoff + 32 * i, secoff + 32 * i + 32), ord),
                    ),
                ),
            )
        }
    }
}

fn deserialize_raw_headers(buf: &[u8], ord: ByteOrder) -> (r: Option<Result<(dof_hdr, Vec<dof_sec>), Error>>)
    ensures
        match r {
            None => raw_headers(buf@, ord) is None,
            Some(Ok((h, secs))) => hdr_decodes(buf@.subrange(0, 64), h, ord) && raw_headers(buf@, ord)
                == Some(Ok::<Seq<dof_sec>, Error>(secs@)),
            Some(Err(e)) => raw_headers(buf@, ord) == Some(Err::<Seq<dof_sec>, Error>(e)),
        },
{
    let len = buf.len();
    if len < DOF_HDR_SIZE {
        return None;
    }
    let file_header = dof_hdr::read_from(buf, 0, ord);
    let n_sections = file_header.dofh_secnum;
    let secsize = file_header.dofh_secsize;
    let secoff = file_header.dofh_secoff;
    if n_sections == 0 {
        return Some(Ok((file_header, Vec::new())));
    }
    if secsize as usize != DOF_SEC_SIZE {
        if secoff > len as u64 || secsize as u64 > len as u64 - secoff {
            return None;
        }
        return Some(Err(Error::ParseError));
    }
    if secoff > len as u64 || (n_sections as u64) * 32 > len as u64 - secoff {
        return None;
    }
    let mut section_headers: Vec<dof_sec> = Vec::new();
    let mut i: u32 = 0;
    while i < n_sections
        invariant
            len == buf@.len(),
            secoff + 32 * n_sections <= len,
            0 <= i <= n_sections,
            section_headers@ == Seq::new(
                i as nat,
                |q: int| sec_of(buf@.subrange(secoff + 32 * q, secoff + 32 * q + 32), ord),
            ),
        decreases n_sections - i,
    {
        let start = secoff as usize + 32 * (i as usize);
        let header = dof_sec::read_from(buf, start, ord);
        section_headers.push(header);
        proof {
            assert(section_headers@ =~= Seq::new(
                (i + 1) as nat,
                |q: int| sec_of(buf@.subrange(secoff + 32 * q, secoff + 32 * q + 32), ord),
            ));
        }
        i = i + 1;
    }
    Some(Ok((file_header, section_headers)))
}

/// The providers and identifying values (model, encoding, version) of the DOF
/// bytes `buf`, or the error reading them gives.
pub open spec fn section_of(buf: Seq<u8>, ord: ByteOrder) -> Option<
    Result<(Seq<ProviderView>, (DataModel, DataEncoding, u8)), Error>,
> {
    match raw_headers(buf, ord) {
        None => None,
        Some(Err(e)) => Some(Err(e)),
        Some(Ok(secs)) => match ident_of(buf.subrange(0, 16)) {
            Err(e) => Some(Err(e)),
            Ok(id) => match providers_of(buf, secs, ord) {
                None => None,
                Some(pvs) => Some(Ok((pvs, id))),
            },
        },
    }
}

/// What reading the section `sec` gave, in the terms of `section_of`.
pub open spec fn read_result(r: Result<Section, Error>) -> Result<
    (Seq<ProviderView>, (DataModel, DataEncoding, u8)),
    Error,
> {
    match r {
        Ok(sec) => Ok((sec@.providers, (sec.ident.model, sec.ident.encoding, sec.ident.version))),
        Err(e) => Err(e),
    }
}

/// Read a `Section` from DOF bytes, where the bytes can be read at all:
/// `None` where a section index, a range or a string offset lies outside the
/// data, a probe section holds a partial record, or a string is not UTF-8.
fn read_section(buf: &[u8], ord: ByteOrder) -> (r: Option<Result<Section, Error>>)
    ensures
        match r {
            None => section_of(buf@, ord) is None,
            Some(res) => section_of(buf@, ord) == Some(read_result(res)) && (res matches Ok(sec)
                ==> sec.ident.magic@ == dof_magic()),
        },
{
    let (file_header, section_headers) = match deserialize_raw_headers(buf, ord) {
        None => return None,
        Some(Err(e)) => return Some(Err(e)),
        Some(Ok(hs)) => hs,
    };
    proof {
        assert(buf@.subrange(0, 64).subrange(0, 16) =~= buf@.subrange(0, 16));
        assert(file_header.dofh_ident@ == buf@.subrange(0, 16));
    }
    let ident = match Ident::try_from(file_header.dofh_ident.as_slice()) {
        Ok(id) => id,
        Err(e) => return Some(Err(e)),
    };
    let providers = match parse_providers(&section_headers, buf, ord) {
        None => return None,
        Some(pvs) => pvs,
    };
    Some(Ok(Section { ident, providers }))
}

/// What reading DOF bytes gives: the providers and identifying values, or
/// the error. Bytes that cannot be read at all (a section index, a range or a
/// string offset outside the data, a probe section that holds part of a
/// record, a string that is not UTF-8) do not match the layout of DOF: a
/// `ParseError`.
pub open spec fn section_result(buf: Seq<u8>, ord: ByteOrder) -> Result<
    (Seq<ProviderView>, (DataModel, DataEncoding, u8)),
    Error,
> {
    match section_of(buf, ord) {
        Some(r) => r,
        None => Err(Error::ParseError),
    }
}

/// Deserialize a `Section` from a slice of DOF bytes whose integers are in
/// the byte order `ord`.
pub fn deserialize_section_in_order(buf: &[u8], ord: ByteOrder) -> (r: Result<Section, Error>)
    ensures
        read_result(r) == section_result(buf@, ord),
        r matches Ok(sec) ==> sec.ident.magic@ == dof_magic(),
{
    match read_section(buf, ord) {
        Some(r) => r,
        None => Err(Error::ParseError),
    }
}

/// Deserialize a `Section` from a slice of DOF bytes whose integers are in
/// the byte order of the machine.
pub fn deserialize_section(buf: &[u8]) -> (r: Result<Section, Error>)
    ensures
        read_result(r) == section_result(buf@, ByteOrder::Little) || read_result(r) == section_result(
            buf@,
            ByteOrder::Big,
        ),
        r matches Ok(sec) ==> sec.ident.magic@ == dof_magic(),
{
    deserialize_section_in_order(buf, native_order())
}

impl Section {
    /// Construct a section from a DOF byte array whose integers are in the
    /// byte order of the machine.
    pub fn from_bytes(buf: &[u8]) -> (r: Result<Section, Error>)
        ensures
            read_result(r) == section_result(buf@, ByteOrder::Little) || read_result(r)
                == section_result(buf@, ByteOrder::Big),
            r matches Ok(sec) ==> sec.ident.magic@ == dof_magic(),
    {
        deserialize_section(buf)
    }
}

/// The providers and identifying values of a section, as `section_of` gives them.
pub open spec fn section_value(s: Section) -> (Seq<ProviderView>, (DataModel, DataEncoding, u8)) {
    (s@.providers, (s.ident.model, s.ident.encoding, s.ident.version))
}

/// Reading DOF sections one after the other: what each holds, up to the
/// first whose reading fails, whose error it is.
pub open spec fn sections_of(bufs: Seq<Seq<u8>>, ord: ByteOrder) -> Result<
    Seq<(Seq<ProviderView>, (DataModel, DataEncoding, u8))>,
    Error,
>
    decreases bufs.len(),
{
    if bufs.len() == 0 {
        Ok(seq![])
    } else {
        match sections_of(bufs.drop_last(), ord) {
            Err(e) => Err(e),
            Ok(v) => match section_result(bufs.last(), ord) {
                Err(e) => Err(e),
                Ok(x) => Ok(v.push(x)),
            },
        }
    }
}

/// Once a section cannot be read, reading all of them fails the same way.
pub proof fn lemma_sections_of_stops(bufs: Seq<Seq<u8>>, j: nat, ord: ByteOrder)
    requires
        j <= bufs.len(),
        sections_of(bufs.take(j as int), ord) is Err,
    ensures
        sections_of(bufs, ord) == sections_of(bufs.take(j as int), ord),
    decreases bufs.len() - j,
{
    if j == bufs.len() {
        assert(bufs.take(j as int) =~= bufs);
    } else {
        assert(bufs.take((j + 1) as int).drop_last() =~= bufs.take(j as int));
        lemma_sections_of_stops(bufs, j + 1, ord);
    }
}

/// Deserialize each of several DOF sections, in order, up to the first that
/// fails.
pub fn deserialize_sections_in_order(bufs: &Vec<Vec<u8>>, ord: ByteOrder) -> (r: Result<Vec<Section>, Error>)
    ensures
        match r {
            Err(e) => sections_of(bufs@.map_values(|b: Vec<u8>| b@), ord) == Err::<
                Seq<(Seq<ProviderView>, (DataModel, DataEncoding, u8))>,
                Error,
            >(e),
            Ok(v) => sections_of(bufs@.map_values(|b: Vec<u8>| b@), ord) == Ok::<
                Seq<(Seq<ProviderView>, (DataModel, DataEncoding, u8))>,
                Error,
            >(v@.map_values(|s: Section| section_value(s))),
        },
{
    let ghost bv = bufs@.map_values(|b: Vec<u8>| b@);
    let mut out: Vec<Section> = Vec::new();
    let n = bufs.len();
    let mut j: usize = 0;
    proof {
        assert(bv.take(0) =~= Seq::<Seq<u8>>::empty());
        assert(out@.map_values(|s: Section| section_value(s)) =~= Seq::<
            (Seq<ProviderView>, (DataModel, DataEncoding, u8)),
        >::empty());
    }
    while j < n
        invariant
            n == bufs@.len(),
            bv == bufs@.map_values(|b: Vec<u8>| b@),
            0 <= j <= n,
            sections_of(bv.take(j as int), ord) == Ok::<
                Seq<(Seq<ProviderView>, (DataModel, DataEncoding, u8))>,
                Error,
            >(out@.map_values(|s: Section| section_value(s))),
        decreases n - j,
    {
        proof {
            assert(bv.take((j + 1) as int).drop_last() =~= bv.take(j as int));
            assert(bv.take((j + 1) as int).last() == bufs@[j as int]@);
        }
        match deserialize_section_in_order(bufs[j].as_slice(), ord) {
            Err(e) => {
                proof {
                    lemma_sections_of_stops(bv, (j + 1) as nat, ord);
                }
                return Err(e);
            },
            Ok(sec) => {
                let ghost prev = out@.map_values(|s: Section| section_value(s));
                proof {
                    assert(read_result(Ok(sec)) == Ok::<_, Error>(section_value(sec)));
                }
                out.push(sec);
                proof {
                    assert(out@.map_values(|s: Section| section_value(s)) =~= prev.push(section_value(sec)));
                }
            },
        }
        j = j + 1;
    }
    proof {
        assert(bv.take(n as int) =~= bv);
    }
    Ok(out)
}

/// The section headers of DOF bytes, each with the bytes of its section.
pub open spec fn raw_sections(buf: Seq<u8>, ord: ByteOrder) -> Option<Result<Seq<(dof_sec, Seq<u8>)>, Error>> {
    match raw_headers(buf, ord) {
        None => None,
        Some(Err(e)) => Some(Err(e)),
        Some(Ok(secs)) => if forall|k: int| 0 <= k < secs.len() ==> (#[trigger] section_data(buf, secs[k])) is Some {
            Some(Ok(Seq::new(secs.len(), |k: int| (secs[k], section_data(buf, secs[k])->Some_0))))
        } else {
            None
        },
    }
}

/// The plain view of raw sections.
pub open spec fn raw_view(v: Seq<(dof_sec, Vec<u8>)>) -> Seq<(dof_sec, Seq<u8>)> {
    v.map_values(|e: (dof_sec, Vec<u8>)| (e.0, e.1@))
}

/// The file header and each section header, along with the bytes of each
/// section; `None` where the bytes end before a header or a section does.
fn read_raw_sections(buf: &[u8], ord: ByteOrder) -> (r: Option<Result<(dof_hdr, Vec<(dof_sec, Vec<u8>)>), Error>>)
    ensures
        match r {
            None => raw_sections(buf@, ord) is None,
            Some(Ok((h, secs))) => hdr_decodes(buf@.subrange(0, 64), h, ord) && raw_sections(buf@, ord) == Some(
                Ok::<Seq<(dof_sec, Seq<u8>)>, Error>(raw_view(secs@)),
            ),
            Some(Err(e)) => raw_sections(buf@, ord) == Some(Err::<Seq<(dof_sec, Seq<u8>)>, Error>(e)),
        },
{
    let (file_header, section_headers) = match deserialize_raw_headers(buf, ord) {
        None => return None,
        Some(Err(e)) => return Some(Err(e)),
        Some(Ok(hs)) => hs,
    };
    let ghost secs = section_headers@;
    let n = section_headers.len();
    let mut sections: Vec<(dof_sec, Vec<u8>)> = Vec::new();
    let mut k: usize = 0;
    while k < n
        invariant
            n == secs.len(),
            secs == section_headers@,
            forall|q: int| 0 <= q < k ==> (#[trigger] section_data(buf@, secs[q])) is Some,
            raw_headers(buf@, ord) == Some(Ok::<Seq<dof_sec>, Error>(secs)),
            hdr_decodes(buf@.subrange(0, 64), file_header, ord),
            0 <= k <= n,
            raw_view(sections@) == Seq::new(
                k as nat,
                |q: int| (secs[q], section_data(buf@, secs[q])->Some_0),
            ),
        decreases n - k,
    {
        let header = section_headers[k];
        let data = match section_bytes(&header, buf) {
            Some(d) => d,
            None => return None,
        };
        let mut bytes: Vec<u8> = Vec::new();
        let mut i: usize = 0;
        while i < data.len()
            invariant
                0 <= i <= data@.len(),
                bytes@ == data@.subrange(0, i as int),
            decreases data@.len() - i,
        {
            bytes.push(data[i]);
            proof {
                assert(data@.subrange(0, i + 1) =~= data@.subrange(0, i as int).push(data@[i as int]));
            }
            i = i + 1;
        }
        proof {
            assert(data@.subrange(0, data@.len() as int) =~= data@);
        }
        let ghost prev = raw_view(sections@);
        sections.push((header, bytes));
        proof {
            assert(raw_view(sections@) =~= prev.push((header, bytes@)));
            assert(raw_view(sections@) =~= Seq::new(
                (k + 1) as nat,
                |q: int| (secs[q], section_data(buf@, secs[q])->Some_0),
            ));
        }
        k = k + 1;
    }
    Some(Ok((file_header, sections)))
}

/// The section headers of DOF bytes with the bytes of each section, or the
/// error; bytes that end before a header or a section does are a
/// `ParseError`.
pub open spec fn raw_result(buf: Seq<u8>, ord: ByteOrder) -> Result<Seq<(dof_sec, Seq<u8>)>, Error> {
    match raw_sections(buf, ord) {
        Some(r) => r,
        None => Err(Error::ParseError),
    }
}

/// Deserialize the file header and each section header, along with the bytes
/// of each section.
pub fn deserialize_raw_sections_in_order(buf: &[u8], ord: ByteOrder) -> (r: Result<(dof_hdr, Vec<(dof_sec, Vec<u8>)>), Error>)
    ensures
        match r {
            Ok((h, secs)) => hdr_decodes(buf@.subrange(0, 64), h, ord) && raw_result(buf@, ord) == Ok::<
                Seq<(dof_sec, Seq<u8>)>,
                Error,
            >(raw_view(secs@)),
            Err(e) => raw_result(buf@, ord) == Err::<Seq<(dof_sec, Seq<u8>)>, Error>(e),
        },
{
    match read_raw_sections(buf, ord) {
        Some(r) => r,
        None => Err(Error::ParseError),
    }
}

/// What reading several DOF sections gave, in the terms of `sections_of`.
pub open spec fn sections_read(r: Result<Vec<Section>, Error>) -> Result<
    Seq<(Seq<ProviderView>, (DataModel, DataEncoding, u8))>,
    Error,
> {
    match r {
        Ok(v) => Ok(v@.map_values(|s: Section| section_value(s))),
        Err(e) => Err(e),
    }
}

/// Deserialize each of several DOF sections, whose integers are in the byte
/// order of the machine, in order, up to the first that fails.
pub fn deserialize_sections(bufs: &Vec<Vec<u8>>) -> (r: Result<Vec<Section>, Error>)
    ensures
        sections_read(r) == sections_of(bufs@.map_values(|b: Vec<u8>| b@), ByteOrder::Little)
            || sections_read(r) == sections_of(bufs@.map_values(|b: Vec<u8>| b@), ByteOrder::Big),
{
    deserialize_sections_in_order(bufs, native_order())
}

/// What reading the raw headers and sections of DOF bytes gave: the header
/// as the first 64 bytes hold it, and the sections as `raw_result` gives
/// them, or the error.
pub open spec fn raw_read(buf: Seq<u8>, r: Result<(dof_hdr, Vec<(dof_sec, Vec<u8>)>), Error>, ord: ByteOrder) -> bool {
    match r {
        Ok((h, secs)) => hdr_decodes(buf.subrange(0, 64), h, ord) && raw_result(buf, ord) == Ok::<
            Seq<(dof_sec, Seq<u8>)>,
            Error,
        >(raw_view(secs@)),
        Err(e) => raw_result(buf, ord) == Err::<Seq<(dof_sec, Seq<u8>)>, Error>(e),
    }
}

/// Deserialize the file header and each section header, along with the bytes
/// of each section, of DOF bytes whose integers are in the byte order of the
/// machine.
pub fn deserialize_raw_sections(buf: &[u8]) -> (r: Result<(dof_hdr, Vec<(dof_sec, Vec<u8>)>), Error>)
    ensures
        raw_read(buf@, r, ByteOrder::Little) || raw_read(buf@, r, ByteOrder::Big),
{
    deserialize_raw_sections_in_order(buf, native_order())
}

/// Return true if the given bytes open with the DOF magic bytes.
pub fn is_dof_section(buf: &[u8]) -> (r: bool)
    ensures
        r == (buf@.len() >= 4 && buf@.subrange(0, 4) == dof_magic()),
{
    if buf.len() < 4 {
        return false;
    }
    let r = buf[0] == 0x7f && buf[1] == 0x44 && buf[2] == 0x4f && buf[3] == 0x46;
    proof {
        if r {
            assert(buf@.subrange(0, 4) =~= dof_magic());
        } else if buf@.subrange(0, 4) == dof_magic() {
            assert(buf@.subrange(0, 4)[0] == buf@[0]);
            assert(buf@.subrange(0, 4)[1] == buf@[1]);
            assert(buf@.subrange(0, 4)[2] == buf@[2]);
            assert(buf@.subrange(0, 4)[3] == buf@[3]);
        }
    }
    r
}

} // verus!
