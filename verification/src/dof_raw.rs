//! The C structures of the DTrace Object Format, with their byte layout.
//!
//! Each structure is laid out as DTrace's `sys/dtrace.h` declares it, without
//! interior padding, and its integers are stored in a byte order that each
//! function takes as a value.

#![allow(non_camel_case_types)]

use vstd::prelude::*;
use crate::bytes::ByteOrder;
use crate::bytes::{
    u16_bytes, u32_bytes, u64_bytes, read_u16, read_u32, read_u64, push_u16, push_u32, push_u64, get_u16,
    get_u32, get_u64, lemma_read_u16_at, lemma_read_u32_at, lemma_read_u64_at,
};

verus! {

pub const DOF_SECT_NONE: u32 = 0;
pub const DOF_SECT_COMMENTS: u32 = 1;
pub const DOF_SECT_SOURCE: u32 = 2;
pub const DOF_SECT_ECBDESC: u32 = 3;
pub const DOF_SECT_PROBEDESC: u32 = 4;
pub const DOF_SECT_ACTDESC: u32 = 5;
pub const DOF_SECT_DIFOHDR: u32 = 6;
pub const DOF_SECT_DIF: u32 = 7;
pub const DOF_SECT_STRTAB: u32 = 8;
pub const DOF_SECT_VARTAB: u32 = 9;
pub const DOF_SECT_RELTAB: u32 = 10;
pub const DOF_SECT_TYPTAB: u32 = 11;
pub const DOF_SECT_URELHDR: u32 = 12;
pub const DOF_SECT_KRELHDR: u32 = 13;
pub const DOF_SECT_OPTDESC: u32 = 14;
pub const DOF_SECT_PROVIDER: u32 = 15;
pub const DOF_SECT_PROBES: u32 = 16;
pub const DOF_SECT_PRARGS: u32 = 17;
pub const DOF_SECT_PROFFS: u32 = 18;
pub const DOF_SECT_INTTAB: u32 = 19;
pub const DOF_SECT_UTSNAME: u32 = 20;
pub const DOF_SECT_XLTAB: u32 = 21;
pub const DOF_SECT_XLMEMBERS: u32 = 22;
pub const DOF_SECT_XLIMPORT: u32 = 23;
pub const DOF_SECT_XLEXPORT: u32 = 24;
pub const DOF_SECT_PREXPORT: u32 = 25;
pub const DOF_SECT_PRENOFFS: u32 = 26;

/// Section flag: the section is loaded into the kernel.
pub const DOF_SECF_LOAD: u32 = 1;

/// Size in bytes of a `dof_hdr`.
pub const DOF_HDR_SIZE: usize = 64;
/// Size in bytes of a `dof_sec`.
pub const DOF_SEC_SIZE: usize = 32;
/// Size in bytes of a `dof_probe`.
pub const DOF_PROBE_SIZE: usize = 48;
/// Size in bytes of a `dof_provider`.
pub const DOF_PROVIDER_SIZE: usize = 44;

/// The file header of a DOF section.
#[derive(Debug, Clone, Copy)]
pub struct dof_hdr {
    pub dofh_ident: [u8; 16],
    pub dofh_flags: u32,
    pub dofh_hdrsize: u32,
    pub dofh_secsize: u32,
    pub dofh_secnum: u32,
    pub dofh_secoff: u64,
    pub dofh_loadsz: u64,
    pub dofh_filesz: u64,
    pub dofh_pad: u64,
}

/// The header of one section of a DOF file.
#[derive(Debug, Clone, Copy, PartialEq, Eq, Structural)]
pub struct dof_sec {
    pub dofs_type: u32,
    pub dofs_align: u32,
    pub dofs_flags: u32,
    pub dofs_entsize: u32,
    pub dofs_offset: u64,
    pub dofs_size: u64,
}

/// One probe in a `DOF_SECT_PROBES` section.
#[derive(Debug, Clone, Copy, PartialEq, Eq, Structural)]
pub struct dof_probe {
    pub dofpr_addr: u64,
    pub dofpr_func: u32,
    pub dofpr_name: u32,
    pub dofpr_nargv: u32,
    pub dofpr_xargv: u32,
    pub dofpr_argidx: u32,
    pub dofpr_offidx: u32,
    pub dofpr_nargc: u8,
    pub dofpr_xargc: u8,
    pub dofpr_noffs: u16,
    pub dofpr_enoffidx: u32,
    pub dofpr_nenoffs: u16,
    pub dofpr_pad1: u16,
    pub dofpr_pad2: u32,
}

/// A `DOF_SECT_PROVIDER` section: the indices of the sections that make up a provider.
#[derive(Debug, Clone, Copy, PartialEq, Eq, Structural)]
pub struct dof_provider {
    pub dofpv_strtab: u32,
    pub dofpv_probes: u32,
    pub dofpv_prargs: u32,
    pub dofpv_proffs: u32,
    pub dofpv_name: u32,
    pub dofpv_provattr: u32,
    pub dofpv_modattr: u32,
    pub dofpv_funcattr: u32,
    pub dofpv_nameattr: u32,
    pub dofpv_argsattr: u32,
    pub dofpv_prenoffs: u32,
}

/// One relocation in a `DOF_SECT_RELTAB` section.
#[derive(Debug, Clone, Copy, PartialEq, Eq, Structural)]
pub struct dof_relodesc {
    pub dofr_name: u32,
    pub dofr_type: u32,
    pub dofr_offset: u64,
    pub dofr_data: u64,
}

/// The header of a `DOF_SECT_URELHDR` section.
#[derive(Debug, Clone, Copy, PartialEq, Eq, Structural)]
pub struct dof_relohdr {
    pub dofr_strtab: u32,
    pub dofr_relsec: u32,
    pub dofr_tgtsec: u32,
}

/// Size in bytes of a `dof_relodesc`.
pub const DOF_RELODESC_SIZE: usize = 24;
/// Size in bytes of a `dof_relohdr`.
pub const DOF_RELOHDR_SIZE: usize = 12;

// ---------------------------------------------------------------------------
// Byte layout
// ---------------------------------------------------------------------------

pub open spec fn hdr_bytes(h: dof_hdr, ord: ByteOrder) -> Seq<u8> {
    h.dofh_ident@ + u32_bytes(h.dofh_flags, ord) + u32_bytes(h.dofh_hdrsize, ord) + u32_bytes(h.dofh_secsize, ord)
        + u32_bytes(h.dofh_secnum, ord) + u64_bytes(h.dofh_secoff, ord) + u64_bytes(h.dofh_loadsz, ord) + u64_bytes(
        h.dofh_filesz, ord,
    ) + u64_bytes(h.dofh_pad, ord)
}

/// `b` holds the header `h` in its first 64 bytes.
pub open spec fn hdr_decodes(b: Seq<u8>, h: dof_hdr, ord: ByteOrder) -> bool {
    &&& b.len() >= 64
    &&& h.dofh_ident@ == b.subrange(0, 16)
    &&& h.dofh_flags == read_u32(b, 16, ord)
    &&& h.dofh_hdrsize == read_u32(b, 20, ord)
    &&& h.dofh_secsize == read_u32(b, 24, ord)
    &&& h.dofh_secnum == read_u32(b, 28, ord)
    &&& h.dofh_secoff == read_u64(b, 32, ord)
    &&& h.dofh_loadsz == read_u64(b, 40, ord)
    &&& h.dofh_filesz == read_u64(b, 48, ord)
    &&& h.dofh_pad == read_u64(b, 56, ord)
}

pub open spec fn sec_bytes(s: dof_sec, ord: ByteOrder) -> Seq<u8> {
    u32_bytes(s.dofs_type, ord) + u32_bytes(s.dofs_align, ord) + u32_bytes(s.dofs_flags, ord) + u32_bytes(s.dofs_entsize, ord)
        + u64_bytes(s.dofs_offset, ord) + u64_bytes(s.dofs_size, ord)
}

/// The section header held in the first 32 bytes of `b`.
pub open spec fn sec_of(b: Seq<u8>, ord: ByteOrder) -> dof_sec {
    dof_sec {
        dofs_type: read_u32(b, 0, ord),
        dofs_align: read_u32(b, 4, ord),
        dofs_flags: read_u32(b, 8, ord),
        dofs_entsize: read_u32(b, 12, ord),
        dofs_offset: read_u64(b, 16, ord),
        dofs_size: read_u64(b, 24, ord),
    }
}

pub open spec fn probe_bytes(p: dof_probe, ord: ByteOrder) -> Seq<u8> {
    u64_bytes(p.dofpr_addr, ord) + u32_bytes(p.dofpr_func, ord) + u32_bytes(p.dofpr_name, ord) + u32_bytes(p.dofpr_nargv, ord)
        + u32_bytes(p.dofpr_xargv, ord) + u32_bytes(p.dofpr_argidx, ord) + u32_bytes(p.dofpr_offidx, ord) + seq![
        p.dofpr_nargc,
        p.dofpr_xargc,
    ] + u16_bytes(p.dofpr_noffs, ord) + u32_bytes(p.dofpr_enoffidx, ord) + u16_bytes(p.dofpr_nenoffs, ord) + u16_bytes(
        p.dofpr_pad1, ord,
    ) + u32_bytes(p.dofpr_pad2, ord)
}

/// The probe held in the first 48 bytes of `b`.
pub open spec fn probe_of(b: Seq<u8>, ord: ByteOrder) -> dof_probe {
    dof_probe {
        dofpr_addr: read_u64(b, 0, ord),
        dofpr_func: read_u32(b, 8, ord),
        dofpr_name: read_u32(b, 12, ord),
        dofpr_nargv: read_u32(b, 16, ord),
        dofpr_xargv: read_u32(b, 20, ord),
        dofpr_argidx: read_u32(b, 24, ord),
        dofpr_offidx: read_u32(b, 28, ord),
        dofpr_nargc: b[32],
        dofpr_xargc: b[33],
        dofpr_noffs: read_u16(b, 34, ord),
        dofpr_enoffidx: read_u32(b, 36, ord),
        dofpr_nenoffs: read_u16(b, 40, ord),
        dofpr_pad1: read_u16(b, 42, ord),
        dofpr_pad2: read_u32(b, 44, ord),
    }
}

pub open spec fn provider_bytes(p: dof_provider, ord: ByteOrder) -> Seq<u8> {
    u32_bytes(p.dofpv_strtab, ord) + u32_bytes(p.dofpv_probes, ord) + u32_bytes(p.dofpv_prargs, ord) + u32_bytes(
        p.dofpv_proffs, ord,
    ) + u32_bytes(p.dofpv_name, ord) + u32_bytes(p.dofpv_provattr, ord) + u32_bytes(p.dofpv_modattr, ord) + u32_bytes(
        p.dofpv_funcattr, ord,
    ) + u32_bytes(p.dofpv_nameattr, ord) + u32_bytes(p.dofpv_argsattr, ord) + u32_bytes(p.dofpv_prenoffs, ord)
}

/// The provider held in the first 44 bytes of `b`.
pub open spec fn provider_of(b: Seq<u8>, ord: ByteOrder) -> dof_provider {
    dof_provider {
        dofpv_strtab: read_u32(b, 0, ord),
        dofpv_probes: read_u32(b, 4, ord),
        dofpv_prargs: read_u32(b, 8, ord),
        dofpv_proffs: read_u32(b, 12, ord),
        dofpv_name: read_u32(b, 16, ord),
        dofpv_provattr: read_u32(b, 20, ord),
        dofpv_modattr: read_u32(b, 24, ord),
        dofpv_funcattr: read_u32(b, 28, ord),
        dofpv_nameattr: read_u32(b, 32, ord),
        dofpv_argsattr: read_u32(b, 36, ord),
        dofpv_prenoffs: read_u32(b, 40, ord),
    }
}

/// The relocation held in the first 24 bytes of `b`.
pub open spec fn relodesc_of(b: Seq<u8>, ord: ByteOrder) -> dof_relodesc {
    dof_relodesc {
        dofr_name: read_u32(b, 0, ord),
        dofr_type: read_u32(b, 4, ord),
        dofr_offset: read_u64(b, 8, ord),
        dofr_data: read_u64(b, 16, ord),
    }
}

/// The relocation header held in the first 12 bytes of `b`.
pub open spec fn relohdr_of(b: Seq<u8>, ord: ByteOrder) -> dof_relohdr {
    dof_relohdr { dofr_strtab: read_u32(b, 0, ord), dofr_relsec: read_u32(b, 4, ord), dofr_tgtsec: read_u32(b, 8, ord) }
}

// ---------------------------------------------------------------------------
// Reading back what was written
// ---------------------------------------------------------------------------

pub proof fn lemma_sec_roundtrip(s: dof_sec, ord: ByteOrder)
    ensures
        sec_bytes(s, ord).len() == 32,
        sec_of(sec_bytes(s, ord), ord) == s,
{
    let b = sec_bytes(s, ord);
    assert(b.subrange(0, 4) =~= u32_bytes(s.dofs_type, ord));
    assert(b.subrange(4, 8) =~= u32_bytes(s.dofs_align, ord));
    assert(b.subrange(8, 12) =~= u32_bytes(s.dofs_flags, ord));
    assert(b.subrange(12, 16) =~= u32_bytes(s.dofs_entsize, ord));
    assert(b.subrange(16, 24) =~= u64_bytes(s.dofs_offset, ord));
    assert(b.subrange(24, 32) =~= u64_bytes(s.dofs_size, ord));
    lemma_read_u32_at(b, 0, s.dofs_type, ord);
    lemma_read_u32_at(b, 4, s.dofs_align, ord);
    lemma_read_u32_at(b, 8, s.dofs_flags, ord);
    lemma_read_u32_at(b, 12, s.dofs_entsize, ord);
    lemma_read_u64_at(b, 16, s.dofs_offset, ord);
    lemma_read_u64_at(b, 24, s.dofs_size, ord);
}

#[verifier::rlimit(40)]
pub proof fn lemma_probe_roundtrip(p: dof_probe, ord: ByteOrder)
    ensures
        probe_bytes(p, ord).len() == 48,
        probe_of(probe_bytes(p, ord), ord) == p,
{
    let b = probe_bytes(p, ord);
    assert(b.subrange(0, 8) =~= u64_bytes(p.dofpr_addr, ord));
    assert(b.subrange(8, 12) =~= u32_bytes(p.dofpr_func, ord));
    assert(b.subrange(12, 16) =~= u32_bytes(p.dofpr_name, ord));
    assert(b.subrange(16, 20) =~= u32_bytes(p.dofpr_nargv, ord));
    assert(b.subrange(20, 24) =~= u32_bytes(p.dofpr_xargv, ord));
    assert(b.subrange(24, 28) =~= u32_bytes(p.dofpr_argidx, ord));
    assert(b.subrange(28, 32) =~= u32_bytes(p.dofpr_offidx, ord));
    assert(b.subrange(34, 36) =~= u16_bytes(p.dofpr_noffs, ord));
    assert(b.subrange(36, 40) =~= u32_bytes(p.dofpr_enoffidx, ord));
    assert(b.subrange(40, 42) =~= u16_bytes(p.dofpr_nenoffs, ord));
    assert(b.subrange(42, 44) =~= u16_bytes(p.dofpr_pad1, ord));
    assert(b.subrange(44, 48) =~= u32_bytes(p.dofpr_pad2, ord));
    lemma_read_u64_at(b, 0, p.dofpr_addr, ord);
    lemma_read_u32_at(b, 8, p.dofpr_func, ord);
    lemma_read_u32_at(b, 12, p.dofpr_name, ord);
    lemma_read_u32_at(b, 16, p.dofpr_nargv, ord);
    lemma_read_u32_at(b, 20, p.dofpr_xargv, ord);
    lemma_read_u32_at(b, 24, p.dofpr_argidx, ord);
    lemma_read_u32_at(b, 28, p.dofpr_offidx, ord);
    lemma_read_u16_at(b, 34, p.dofpr_noffs, ord);
    lemma_read_u32_at(b, 36, p.dofpr_enoffidx, ord);
    lemma_read_u16_at(b, 40, p.dofpr_nenoffs, ord);
    lemma_read_u16_at(b, 42, p.dofpr_pad1, ord);
    lemma_read_u32_at(b, 44, p.dofpr_pad2, ord);
}

pub proof fn lemma_provider_roundtrip(p: dof_provider, ord: ByteOrder)
    ensures
        provider_bytes(p, ord).len() == 44,
        provider_of(provider_bytes(p, ord), ord) == p,
{
    let b = provider_bytes(p, ord);
    assert(b.subrange(0, 4) =~= u32_bytes(p.dofpv_strtab, ord));
    assert(b.subrange(4, 8) =~= u32_bytes(p.dofpv_probes, ord));
    assert(b.subrange(8, 12) =~= u32_bytes(p.dofpv_prargs, ord));
    assert(b.subrange(12, 16) =~= u32_bytes(p.dofpv_proffs, ord));
    assert(b.subrange(16, 20) =~= u32_bytes(p.dofpv_name, ord));
    assert(b.subrange(20, 24) =~= u32_bytes(p.dofpv_provattr, ord));
    assert(b.subrange(24, 28) =~= u32_bytes(p.dofpv_modattr, ord));
    assert(b.subrange(28, 32) =~= u32_bytes(p.dofpv_funcattr, ord));
    assert(b.subrange(32, 36) =~= u32_bytes(p.dofpv_nameattr, ord));
    assert(b.subrange(36, 40) =~= u32_bytes(p.dofpv_argsattr, ord));
    assert(b.subrange(40, 44) =~= u32_bytes(p.dofpv_prenoffs, ord));
    lemma_read_u32_at(b, 0, p.dofpv_strtab, ord);
    lemma_read_u32_at(b, 4, p.dofpv_probes, ord);
    lemma_read_u32_at(b, 8, p.dofpv_prargs, ord);
    lemma_read_u32_at(b, 12, p.dofpv_proffs, ord);
    lemma_read_u32_at(b, 16, p.dofpv_name, ord);
    lemma_read_u32_at(b, 20, p.dofpv_provattr, ord);
    lemma_read_u32_at(b, 24, p.dofpv_modattr, ord);
    lemma_read_u32_at(b, 28, p.dofpv_funcattr, ord);
    lemma_read_u32_at(b, 32, p.dofpv_nameattr, ord);
    lemma_read_u32_at(b, 36, p.dofpv_argsattr, ord);
    lemma_read_u32_at(b, 40, p.dofpv_prenoffs, ord);
}

pub proof fn lemma_hdr_roundtrip(h: dof_hdr, ord: ByteOrder)
    ensures
        hdr_bytes(h, ord).len() == 64,
        hdr_decodes(hdr_bytes(h, ord), h, ord),
{
    let b = hdr_bytes(h, ord);
    assert(b.subrange(0, 16) =~= h.dofh_ident@);
    assert(b.subrange(16, 20) =~= u32_bytes(h.dofh_flags, ord));
    assert(b.subrange(20, 24) =~= u32_bytes(h.dofh_hdrsize, ord));
    assert(b.subrange(24, 28) =~= u32_bytes(h.dofh_secsize, ord));
    assert(b.subrange(28, 32) =~= u32_bytes(h.dofh_secnum, ord));
    assert(b.subrange(32, 40) =~= u64_bytes(h.dofh_secoff, ord));
    assert(b.subrange(40, 48) =~= u64_bytes(h.dofh_loadsz, ord));
    assert(b.subrange(48, 56) =~= u64_bytes(h.dofh_filesz, ord));
    assert(b.subrange(56, 64) =~= u64_bytes(h.dofh_pad, ord));
    lemma_read_u32_at(b, 16, h.dofh_flags, ord);
    lemma_read_u32_at(b, 20, h.dofh_hdrsize, ord);
    lemma_read_u32_at(b, 24, h.dofh_secsize, ord);
    lemma_read_u32_at(b, 28, h.dofh_secnum, ord);
    lemma_read_u64_at(b, 32, h.dofh_secoff, ord);
    lemma_read_u64_at(b, 40, h.dofh_loadsz, ord);
    lemma_read_u64_at(b, 48, h.dofh_filesz, ord);
    lemma_read_u64_at(b, 56, h.dofh_pad, ord);
}

// ---------------------------------------------------------------------------
// Writing and reading
// ---------------------------------------------------------------------------

impl dof_hdr {
    /// Append the bytes of this header.
    pub fn write_to(&self, v: &mut Vec<u8>, ord: ByteOrder)
        ensures
            final(v)@ == old(v)@ + hdr_bytes(*self, ord),
    {
        let ghost v0 = v@;
        let mut i: usize = 0;
        while i < 16
            invariant
                0 <= i <= 16,
                v@ == v0 + self.dofh_ident@.subrange(0, i as int),
            decreases 16 - i,
        {
            v.push(self.dofh_ident[i]);
            proof {
                assert(self.dofh_ident@.subrange(0, i + 1) =~= self.dofh_ident@.subrange(0, i as int).push(self.dofh_ident@[i as int]));
            }
            i = i + 1;
        }
        proof {
            assert(self.dofh_ident@.subrange(0, 16) =~= self.dofh_ident@);
        }
        push_u32(v, self.dofh_flags, ord);
        push_u32(v, self.dofh_hdrsize, ord);
        push_u32(v, self.dofh_secsize, ord);
        push_u32(v, self.dofh_secnum, ord);
        push_u64(v, self.dofh_secoff, ord);
        push_u64(v, self.dofh_loadsz, ord);
        push_u64(v, self.dofh_filesz, ord);
        push_u64(v, self.dofh_pad, ord);
        proof {
            assert(v@ =~= v0 + hdr_bytes(*self, ord));
        }
    }

    /// Read the header held in the 64 bytes of `b` at `at`.
    pub fn read_from(b: &[u8], at: usize, ord: ByteOrder) -> (h: dof_hdr)
        requires
            at + 64 <= b@.len(),
        ensures
            hdr_decodes(b@.subrange(at as int, at + 64), h, ord),
    {
        let ident: [u8; 16] = [
            b[at], b[at + 1], b[at + 2], b[at + 3], b[at + 4], b[at + 5], b[at + 6], b[at + 7],
            b[at + 8], b[at + 9], b[at + 10], b[at + 11], b[at + 12], b[at + 13], b[at + 14],
            b[at + 15],
        ];
        let h = dof_hdr {
            dofh_ident: ident,
            dofh_flags: get_u32(b, at + 16, ord),
            dofh_hdrsize: get_u32(b, at + 20, ord),
            dofh_secsize: get_u32(b, at + 24, ord),
            dofh_secnum: get_u32(b, at + 28, ord),
            dofh_secoff: get_u64(b, at + 32, ord),
            dofh_loadsz: get_u64(b, at + 40, ord),
            dofh_filesz: get_u64(b, at + 48, ord),
            dofh_pad: get_u64(b, at + 56, ord),
        };
        proof {
            let t = b@.subrange(at as int, at + 64);
            assert(h.dofh_ident@ =~= t.subrange(0, 16));
        }
        h
    }
}

impl dof_sec {
    /// Append the bytes of this section header.
    pub fn write_to(&self, v: &mut Vec<u8>, ord: ByteOrder)
        ensures
            final(v)@ == old(v)@ + sec_bytes(*self, ord),
    {
        let ghost v0 = v@;
        push_u32(v, self.dofs_type, ord);
        push_u32(v, self.dofs_align, ord);
        push_u32(v, self.dofs_flags, ord);
        push_u32(v, self.dofs_entsize, ord);
        push_u64(v, self.dofs_offset, ord);
        push_u64(v, self.dofs_size, ord);
        proof {
            assert(v@ =~= v0 + sec_bytes(*self, ord));
        }
    }

    /// Read the section header held in the 32 bytes of `b` at `at`.
    pub fn read_from(b: &[u8], at: usize, ord: ByteOrder) -> (s: dof_sec)
        requires
            at + 32 <= b@.len(),
        ensures
            s == sec_of(b@.subrange(at as int, at + 32), ord),
    {
        let _len = b.len();
        dof_sec {
            dofs_type: get_u32(b, at, ord),
            dofs_align: get_u32(b, at + 4, ord),
            dofs_flags: get_u32(b, at + 8, ord),
            dofs_entsize: get_u32(b, at + 12, ord),
            dofs_offset: get_u64(b, at + 16, ord),
            dofs_size: get_u64(b, at + 24, ord),
        }
    }
}

impl dof_probe {
    /// Append the bytes of this probe.
    pub fn write_to(&self, v: &mut Vec<u8>, ord: ByteOrder)
        ensures
            final(v)@ == old(v)@ + probe_bytes(*self, ord),
    {
        let ghost v0 = v@;
        push_u64(v, self.dofpr_addr, ord);
        push_u32(v, self.dofpr_func, ord);
        push_u32(v, self.dofpr_name, ord);
        push_u32(v, self.dofpr_nargv, ord);
        push_u32(v, self.dofpr_xargv, ord);
        push_u32(v, self.dofpr_argidx, ord);
        push_u32(v, self.dofpr_offidx, ord);
        v.push(self.dofpr_nargc);
        v.push(self.dofpr_xargc);
        push_u16(v, self.dofpr_noffs, ord);
        push_u32(v, self.dofpr_enoffidx, ord);
        push_u16(v, self.dofpr_nenoffs, ord);
        push_u16(v, self.dofpr_pad1, ord);
        push_u32(v, self.dofpr_pad2, ord);
        proof {
            assert(v@ =~= v0 + probe_bytes(*self, ord));
        }
    }

    /// Read the probe held in the 48 bytes of `b` at `at`.
    pub fn read_from(b: &[u8], at: usize, ord: ByteOrder) -> (p: dof_probe)
        requires
            at + 48 <= b@.len(),
        ensures
            p == probe_of(b@.subrange(at as int, at + 48), ord),
    {
        let _len = b.len();
        dof_probe {
            dofpr_addr: get_u64(b, at, ord),
            dofpr_func: get_u32(b, at + 8, ord),
            dofpr_name: get_u32(b, at + 12, ord),
            dofpr_nargv: get_u32(b, at + 16, ord),
            dofpr_xargv: get_u32(b, at + 20, ord),
            dofpr_argidx: get_u32(b, at + 24, ord),
            dofpr_offidx: get_u32(b, at + 28, ord),
            dofpr_nargc: b[at + 32],
            dofpr_xargc: b[at + 33],
            dofpr_noffs: get_u16(b, at + 34, ord),
            dofpr_enoffidx: get_u32(b, at + 36, ord),
            dofpr_nenoffs: get_u16(b, at + 40, ord),
            dofpr_pad1: get_u16(b, at + 42, ord),
            dofpr_pad2: get_u32(b, at + 44, ord),
        }
    }
}

impl dof_relodesc {
    /// Read the relocation held in the 24 bytes of `b` at `at`.
    pub fn read_from(b: &[u8], at: usize, ord: ByteOrder) -> (r: dof_relodesc)
        requires
            at + 24 <= b@.len(),
        ensures
            r == relodesc_of(b@.subrange(at as int, at + 24), ord),
    {
        let _len = b.len();
        dof_relodesc {
            dofr_name: get_u32(b, at, ord),
            dofr_type: get_u32(b, at + 4, ord),
            dofr_offset: get_u64(b, at + 8, ord),
            dofr_data: get_u64(b, at + 16, ord),
        }
    }
}

impl dof_relohdr {
    /// Read the relocation header held in the 12 bytes of `b` at `at`.
    pub fn read_from(b: &[u8], at: usize, ord: ByteOrder) -> (r: dof_relohdr)
        requires
            at + 12 <= b@.len(),
        ensures
            r == relohdr_of(b@.subrange(at as int, at + 12), ord),
    {
        let _len = b.len();
        dof_relohdr {
            dofr_strtab: get_u32(b, at, ord),
            dofr_relsec: get_u32(b, at + 4, ord),
            dofr_tgtsec: get_u32(b, at + 8, ord),
        }
    }
}

impl dof_provider {
    /// Append the bytes of this provider.
    pub fn write_to(&self, v: &mut Vec<u8>, ord: ByteOrder)
        ensures
            final(v)@ == old(v)@ + provider_bytes(*self, ord),
    {
        let ghost v0 = v@;
        push_u32(v, self.dofpv_strtab, ord);
        push_u32(v, self.dofpv_probes, ord);
        push_u32(v, self.dofpv_prargs, ord);
        push_u32(v, self.dofpv_proffs, ord);
        push_u32(v, self.dofpv_name, ord);
        push_u32(v, self.dofpv_provattr, ord);
        push_u32(v, self.dofpv_modattr, ord);
        push_u32(v, self.dofpv_funcattr, ord);
        push_u32(v, self.dofpv_nameattr, ord);
        push_u32(v, self.dofpv_argsattr, ord);
        push_u32(v, self.dofpv_prenoffs, ord);
        proof {
            assert(v@ =~= v0 + provider_bytes(*self, ord));
        }
    }

    /// Read the provider held in the 44 bytes of `b` at `at`.
    pub fn read_from(b: &[u8], at: usize, ord: ByteOrder) -> (p: dof_provider)
        requires
            at + 44 <= b@.len(),
        ensures
            p == provider_of(b@.subrange(at as int, at + 44), ord),
    {
        let _len = b.len();
        dof_provider {
            dofpv_strtab: get_u32(b, at, ord),
            dofpv_probes: get_u32(b, at + 4, ord),
            dofpv_prargs: get_u32(b, at + 8, ord),
            dofpv_proffs: get_u32(b, at + 12, ord),
            dofpv_name: get_u32(b, at + 16, ord),
            dofpv_provattr: get_u32(b, at + 20, ord),
            dofpv_modattr: get_u32(b, at + 24, ord),
            dofpv_funcattr: get_u32(b, at + 28, ord),
            dofpv_nameattr: get_u32(b, at + 32, ord),
            dofpv_argsattr: get_u32(b, at + 36, ord),
            dofpv_prenoffs: get_u32(b, at + 40, ord),
        }
    }
}

} // verus!
