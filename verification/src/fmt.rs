//! Formatting the sections of DOF data as text.

#![allow(non_camel_case_types)]

use vstd::prelude::*;
use crate::bytes::{native_order, ByteOrder};
use vstd::string::*;
use crate::text::{decimal, hex, decimal_string, hex_string};
use crate::dof_raw::{
    dof_hdr, hdr_decodes, dof_sec, dof_probe, dof_provider, dof_relodesc, dof_relohdr, probe_of, provider_of, relodesc_of,
    relohdr_of, DOF_SECT_NONE, DOF_SECT_COMMENTS,
    DOF_SECT_SOURCE, DOF_SECT_ECBDESC, DOF_SECT_PROBEDESC, DOF_SECT_ACTDESC, DOF_SECT_DIFOHDR,
    DOF_SECT_DIF, DOF_SECT_STRTAB, DOF_SECT_VARTAB, DOF_SECT_RELTAB, DOF_SECT_TYPTAB,
    DOF_SECT_URELHDR, DOF_SECT_KRELHDR, DOF_SECT_OPTDESC, DOF_SECT_PROVIDER, DOF_SECT_PROBES,
    DOF_SECT_PRARGS, DOF_SECT_PROFFS, DOF_SECT_INTTAB, DOF_SECT_UTSNAME, DOF_SECT_XLTAB,
    DOF_SECT_XLMEMBERS, DOF_SECT_XLIMPORT, DOF_SECT_XLEXPORT, DOF_SECT_PREXPORT, DOF_SECT_PRENOFFS,
    DOF_PROBE_SIZE, DOF_PROVIDER_SIZE,
};
use crate::bytes::{read_u32, read_u64, get_u32, get_u64};
use crate::des::{raw_sections, raw_result, raw_view, deserialize_raw_sections_in_order};
use crate::dof::Error;

verus! {

/// How the DOF data of an object file is formatted.
#[derive(Clone, Copy, Debug)]
pub enum FormatMode {
    /// The Rust types that represent DOF data.
    Pretty,
    /// The same as `Pretty`, as JSON.
    Json,
    /// The underlying DOF C structures.
    Raw {
        /// Whether the data of each section follows its header.
        include_sections: bool,
    },
}

/// The name of a section type, in parentheses.
pub open spec fn section_type_name(t: u32) -> Seq<char> {
    if t == DOF_SECT_NONE {
        "(DOF_SECT_NONE)"@
    } else if t == DOF_SECT_COMMENTS {
        "(DOF_SECT_COMMENTS)"@
    } else if t == DOF_SECT_SOURCE {
        "(DOF_SECT_SOURCE)"@
    } else if t == DOF_SECT_ECBDESC {
        "(DOF_SECT_ECBDESC)"@
    } else if t == DOF_SECT_PROBEDESC {
        "(DOF_SECT_PROBEDESC)"@
    } else if t == DOF_SECT_ACTDESC {
        "(DOF_SECT_ACTDESC)"@
    } else if t == DOF_SECT_DIFOHDR {
        "(DOF_SECT_DIFOHDR)"@
    } else if t == DOF_SECT_DIF {
        "(DOF_SECT_DIF)"@
    } else if t == DOF_SECT_STRTAB {
        "(DOF_SECT_STRTAB)"@
    } else if t == DOF_SECT_VARTAB {
        "(DOF_SECT_VARTAB)"@
    } else if t == DOF_SECT_RELTAB {
        "(DOF_SECT_RELTAB)"@
    } else if t == DOF_SECT_TYPTAB {
        "(DOF_SECT_TYPTAB)"@
    } else if t == DOF_SECT_URELHDR {
        "(DOF_SECT_URELHDR)"@
    } else if t == DOF_SECT_KRELHDR {
        "(DOF_SECT_KRELHDR)"@
    } else if t == DOF_SECT_OPTDESC {
        "(DOF_SECT_OPTDESC)"@
    } else if t == DOF_SECT_PROVIDER {
        "(DOF_SECT_PROVIDER)"@
    } else if t == DOF_SECT_PROBES {
        "(DOF_SECT_PROBES)"@
    } else if t == DOF_SECT_PRARGS {
        "(DOF_SECT_PRARGS)"@
    } else if t == DOF_SECT_PROFFS {
        "(DOF_SECT_PROFFS)"@
    } else if t == DOF_SECT_INTTAB {
        "(DOF_SECT_INTTAB)"@
    } else if t == DOF_SECT_UTSNAME {
        "(DOF_SECT_UTSNAME)"@
    } else if t == DOF_SECT_XLTAB {
        "(DOF_SECT_XLTAB)"@
    } else if t == DOF_SECT_XLMEMBERS {
        "(DOF_SECT_XLMEMBERS)"@
    } else if t == DOF_SECT_XLIMPORT {
        "(DOF_SECT_XLIMPORT)"@
    } else if t == DOF_SECT_XLEXPORT {
        "(DOF_SECT_XLEXPORT)"@
    } else if t == DOF_SECT_PREXPORT {
        "(DOF_SECT_PREXPORT)"@
    } else if t == DOF_SECT_PRENOFFS {
        "(DOF_SECT_PRENOFFS)"@
    } else {
        "(unknown)"@
    }
}

/// The names of the section types, and the name of an unknown type, are
/// pairwise different.
proof fn lemma_section_names_differ()
    ensures
        "(DOF_SECT_NONE)"@ != "(DOF_SECT_COMMENTS)"@,
        "(DOF_SECT_NONE)"@ != "(DOF_SECT_SOURCE)"@,
        "(DOF_SECT_NONE)"@ != "(DOF_SECT_ECBDESC)"@,
        "(DOF_SECT_NONE)"@ != "(DOF_SECT_PROBEDESC)"@,
        "(DOF_SECT_NONE)"@ != "(DOF_SECT_ACTDESC)"@,
        "(DOF_SECT_NONE)"@ != "(DOF_SECT_DIFOHDR)"@,
        "(DOF_SECT_NONE)"@ != "(DOF_SECT_DIF)"@,
        "(DOF_SECT_NONE)"@ != "(DOF_SECT_STRTAB)"@,
        "(DOF_SECT_NONE)"@ != "(DOF_SECT_VARTAB)"@,
        "(DOF_SECT_NONE)"@ != "(DOF_SECT_RELTAB)"@,
        "(DOF_SECT_NONE)"@ != "(DOF_SECT_TYPTAB)"@,
        "(DOF_SECT_NONE)"@ != "(DOF_SECT_URELHDR)"@,
        "(DOF_SECT_NONE)"@ != "(DOF_SECT_KRELHDR)"@,
        "(DOF_SECT_NONE)"@ != "(DOF_SECT_OPTDESC)"@,
        "(DOF_SECT_NONE)"@ != "(DOF_SECT_PROVIDER)"@,
        "(DOF_SECT_NONE)"@ != "(DOF_SECT_PROBES)"@,
        "(DOF_SECT_NONE)"@ != "(DOF_SECT_PRARGS)"@,
        "(DOF_SECT_NONE)"@ != "(DOF_SECT_PROFFS)"@,
        "(DOF_SECT_NONE)"@ != "(DOF_SECT_INTTAB)"@,
        "(DOF_SECT_NONE)"@ != "(DOF_SECT_UTSNAME)"@,
        "(DOF_SECT_NONE)"@ != "(DOF_SECT_XLTAB)"@,
        "(DOF_SECT_NONE)"@ != "(DOF_SECT_XLMEMBERS)"@,
        "(DOF_SECT_NONE)"@ != "(DOF_SECT_XLIMPORT)"@,
        "(DOF_SECT_NONE)"@ != "(DOF_SECT_XLEXPORT)"@,
        "(DOF_SECT_NONE)"@ != "(DOF_SECT_PREXPORT)"@,
        "(DOF_SECT_NONE)"@ != "(DOF_SECT_PRENOFFS)"@,
        "(DOF_SECT_NONE)"@ != "(unknown)"@,
        "(DOF_SECT_COMMENTS)"@ != "(DOF_SECT_SOURCE)"@,
        "(DOF_SECT_COMMENTS)"@ != "(DOF_SECT_ECBDESC)"@,
        "(DOF_SECT_COMMENTS)"@ != "(DOF_SECT_PROBEDESC)"@,
        "(DOF_SECT_COMMENTS)"@ != "(DOF_SECT_ACTDESC)"@,
        "(DOF_SECT_COMMENTS)"@ != "(DOF_SECT_DIFOHDR)"@,
        "(DOF_SECT_COMMENTS)"@ != "(DOF_SECT_DIF)"@,
        "(DOF_SECT_COMMENTS)"@ != "(DOF_SECT_STRTAB)"@,
        "(DOF_SECT_COMMENTS)"@ != "(DOF_SECT_VARTAB)"@,
        "(DOF_SECT_COMMENTS)"@ != "(DOF_SECT_RELTAB)"@,
        "(DOF_SECT_COMMENTS)"@ != "(DOF_SECT_TYPTAB)"@,
        "(DOF_SECT_COMMENTS)"@ != "(DOF_SECT_URELHDR)"@,
        "(DOF_SECT_COMMENTS)"@ != "(DOF_SECT_KRELHDR)"@,
        "(DOF_SECT_COMMENTS)"@ != "(DOF_SECT_OPTDESC)"@,
        "(DOF_SECT_COMMENTS)"@ != "(DOF_SECT_PROVIDER)"@,
        "(DOF_SECT_COMMENTS)"@ != "(DOF_SECT_PROBES)"@,
        "(DOF_SECT_COMMENTS)"@ != "(DOF_SECT_PRARGS)"@,
        "(DOF_SECT_COMMENTS)"@ != "(DOF_SECT_PROFFS)"@,
        "(DOF_SECT_COMMENTS)"@ != "(DOF_SECT_INTTAB)"@,
        "(DOF_SECT_COMMENTS)"@ != "(DOF_SECT_UTSNAME)"@,
        "(DOF_SECT_COMMENTS)"@ != "(DOF_SECT_XLTAB)"@,
        "(DOF_SECT_COMMENTS)"@ != "(DOF_SECT_XLMEMBERS)"@,
        "(DOF_SECT_COMMENTS)"@ != "(DOF_SECT_XLIMPORT)"@,
        "(DOF_SECT_COMMENTS)"@ != "(DOF_SECT_XLEXPORT)"@,
        "(DOF_SECT_COMMENTS)"@ != "(DOF_SECT_PREXPORT)"@,
        "(DOF_SECT_COMMENTS)"@ != "(DOF_SECT_PRENOFFS)"@,
        "(DOF_SECT_COMMENTS)"@ != "(unknown)"@,
        "(DOF_SECT_SOURCE)"@ != "(DOF_SECT_ECBDESC)"@,
        "(DOF_SECT_SOURCE)"@ != "(DOF_SECT_PROBEDESC)"@,
        "(DOF_SECT_SOURCE)"@ != "(DOF_SECT_ACTDESC)"@,
        "(DOF_SECT_SOURCE)"@ != "(DOF_SECT_DIFOHDR)"@,
        "(DOF_SECT_SOURCE)"@ != "(DOF_SECT_DIF)"@,
        "(DOF_SECT_SOURCE)"@ != "(DOF_SECT_STRTAB)"@,
        "(DOF_SECT_SOURCE)"@ != "(DOF_SECT_VARTAB)"@,
        "(DOF_SECT_SOURCE)"@ != "(DOF_SECT_RELTAB)"@,
        "(DOF_SECT_SOURCE)"@ != "(DOF_SECT_TYPTAB)"@,
        "(DOF_SECT_SOURCE)"@ != "(DOF_SECT_URELHDR)"@,
        "(DOF_SECT_SOURCE)"@ != "(DOF_SECT_KRELHDR)"@,
        "(DOF_SECT_SOURCE)"@ != "(DOF_SECT_OPTDESC)"@,
        "(DOF_SECT_SOURCE)"@ != "(DOF_SECT_PROVIDER)"@,
        "(DOF_SECT_SOURCE)"@ != "(DOF_SECT_PROBES)"@,
        "(DOF_SECT_SOURCE)"@ != "(DOF_SECT_PRARGS)"@,
        "(DOF_SECT_SOURCE)"@ != "(DOF_SECT_PROFFS)"@,
        "(DOF_SECT_SOURCE)"@ != "(DOF_SECT_INTTAB)"@,
        "(DOF_SECT_SOURCE)"@ != "(DOF_SECT_UTSNAME)"@,
        "(DOF_SECT_SOURCE)"@ != "(DOF_SECT_XLTAB)"@,
        "(DOF_SECT_SOURCE)"@ != "(DOF_SECT_XLMEMBERS)"@,
        "(DOF_SECT_SOURCE)"@ != "(DOF_SECT_XLIMPORT)"@,
        "(DOF_SECT_SOURCE)"@ != "(DOF_SECT_XLEXPORT)"@,
        "(DOF_SECT_SOURCE)"@ != "(DOF_SECT_PREXPORT)"@,
        "(DOF_SECT_SOURCE)"@ != "(DOF_SECT_PRENOFFS)"@,
        "(DOF_SECT_SOURCE)"@ != "(unknown)"@,
        "(DOF_SECT_ECBDESC)"@ != "(DOF_SECT_PROBEDESC)"@,
        "(DOF_SECT_ECBDESC)"@ != "(DOF_SECT_ACTDESC)"@,
        "(DOF_SECT_ECBDESC)"@ != "(DOF_SECT_DIFOHDR)"@,
        "(DOF_SECT_ECBDESC)"@ != "(DOF_SECT_DIF)"@,
        "(DOF_SECT_ECBDESC)"@ != "(DOF_SECT_STRTAB)"@,
        "(DOF_SECT_ECBDESC)"@ != "(DOF_SECT_VARTAB)"@,
        "(DOF_SECT_ECBDESC)"@ != "(DOF_SECT_RELTAB)"@,
        "(DOF_SECT_ECBDESC)"@ != "(DOF_SECT_TYPTAB)"@,
        "(DOF_SECT_ECBDESC)"@ != "(DOF_SECT_URELHDR)"@,
        "(DOF_SECT_ECBDESC)"@ != "(DOF_SECT_KRELHDR)"@,
        "(DOF_SECT_ECBDESC)"@ != "(DOF_SECT_OPTDESC)"@,
        "(DOF_SECT_ECBDESC)"@ != "(DOF_SECT_PROVIDER)"@,
        "(DOF_SECT_ECBDESC)"@ != "(DOF_SECT_PROBES)"@,
        "(DOF_SECT_ECBDESC)"@ != "(DOF_SECT_PRARGS)"@,
        "(DOF_SECT_ECBDESC)"@ != "(DOF_SECT_PROFFS)"@,
        "(DOF_SECT_ECBDESC)"@ != "(DOF_SECT_INTTAB)"@,
        "(DOF_SECT_ECBDESC)"@ != "(DOF_SECT_UTSNAME)"@,
        "(DOF_SECT_ECBDESC)"@ != "(DOF_SECT_XLTAB)"@,
        "(DOF_SECT_ECBDESC)"@ != "(DOF_SECT_XLMEMBERS)"@,
        "(DOF_SECT_ECBDESC)"@ != "(DOF_SECT_XLIMPORT)"@,
        "(DOF_SECT_ECBDESC)"@ != "(DOF_SECT_XLEXPORT)"@,
        "(DOF_SECT_ECBDESC)"@ != "(DOF_SECT_PREXPORT)"@,
        "(DOF_SECT_ECBDESC)"@ != "(DOF_SECT_PRENOFFS)"@,
        "(DOF_SECT_ECBDESC)"@ != "(unknown)"@,
        "(DOF_SECT_PROBEDESC)"@ != "(DOF_SECT_ACTDESC)"@,
        "(DOF_SECT_PROBEDESC)"@ != "(DOF_SECT_DIFOHDR)"@,
        "(DOF_SECT_PROBEDESC)"@ != "(DOF_SECT_DIF)"@,
        "(DOF_SECT_PROBEDESC)"@ != "(DOF_SECT_STRTAB)"@,
        "(DOF_SECT_PROBEDESC)"@ != "(DOF_SECT_VARTAB)"@,
        "(DOF_SECT_PROBEDESC)"@ != "(DOF_SECT_RELTAB)"@,
        "(DOF_SECT_PROBEDESC)"@ != "(DOF_SECT_TYPTAB)"@,
        "(DOF_SECT_PROBEDESC)"@ != "(DOF_SECT_URELHDR)"@,
        "(DOF_SECT_PROBEDESC)"@ != "(DOF_SECT_KRELHDR)"@,
        "(DOF_SECT_PROBEDESC)"@ != "(DOF_SECT_OPTDESC)"@,
        "(DOF_SECT_PROBEDESC)"@ != "(DOF_SECT_PROVIDER)"@,
        "(DOF_SECT_PROBEDESC)"@ != "(DOF_SECT_PROBES)"@,
        "(DOF_SECT_PROBEDESC)"@ != "(DOF_SECT_PRARGS)"@,
        "(DOF_SECT_PROBEDESC)"@ != "(DOF_SECT_PROFFS)"@,
        "(DOF_SECT_PROBEDESC)"@ != "(DOF_SECT_INTTAB)"@,
        "(DOF_SECT_PROBEDESC)"@ != "(DOF_SECT_UTSNAME)"@,
        "(DOF_SECT_PROBEDESC)"@ != "(DOF_SECT_XLTAB)"@,
        "(DOF_SECT_PROBEDESC)"@ != "(DOF_SECT_XLMEMBERS)"@,
        "(DOF_SECT_PROBEDESC)"@ != "(DOF_SECT_XLIMPORT)"@,
        "(DOF_SECT_PROBEDESC)"@ != "(DOF_SECT_XLEXPORT)"@,
        "(DOF_SECT_PROBEDESC)"@ != "(DOF_SECT_PREXPORT)"@,
        "(DOF_SECT_PROBEDESC)"@ != "(DOF_SECT_PRENOFFS)"@,
        "(DOF_SECT_PROBEDESC)"@ != "(unknown)"@,
        "(DOF_SECT_ACTDESC)"@ != "(DOF_SECT_DIFOHDR)"@,
        "(DOF_SECT_ACTDESC)"@ != "(DOF_SECT_DIF)"@,
        "(DOF_SECT_ACTDESC)"@ != "(DOF_SECT_STRTAB)"@,
        "(DOF_SECT_ACTDESC)"@ != "(DOF_SECT_VARTAB)"@,
        "(DOF_SECT_ACTDESC)"@ != "(DOF_SECT_RELTAB)"@,
        "(DOF_SECT_ACTDESC)"@ != "(DOF_SECT_TYPTAB)"@,
        "(DOF_SECT_ACTDESC)"@ != "(DOF_SECT_URELHDR)"@,
        "(DOF_SECT_ACTDESC)"@ != "(DOF_SECT_KRELHDR)"@,
        "(DOF_SECT_ACTDESC)"@ != "(DOF_SECT_OPTDESC)"@,
        "(DOF_SECT_ACTDESC)"@ != "(DOF_SECT_PROVIDER)"@,
        "(DOF_SECT_ACTDESC)"@ != "(DOF_SECT_PROBES)"@,
        "(DOF_SECT_ACTDESC)"@ != "(DOF_SECT_PRARGS)"@,
        "(DOF_SECT_ACTDESC)"@ != "(DOF_SECT_PROFFS)"@,
        "(DOF_SECT_ACTDESC)"@ != "(DOF_SECT_INTTAB)"@,
        "(DOF_SECT_ACTDESC)"@ != "(DOF_SECT_UTSNAME)"@,
        "(DOF_SECT_ACTDESC)"@ != "(DOF_SECT_XLTAB)"@,
        "(DOF_SECT_ACTDESC)"@ != "(DOF_SECT_XLMEMBERS)"@,
        "(DOF_SECT_ACTDESC)"@ != "(DOF_SECT_XLIMPORT)"@,
        "(DOF_SECT_ACTDESC)"@ != "(DOF_SECT_XLEXPORT)"@,
        "(DOF_SECT_ACTDESC)"@ != "(DOF_SECT_PREXPORT)"@,
        "(DOF_SECT_ACTDESC)"@ != "(DOF_SECT_PRENOFFS)"@,
        "(DOF_SECT_ACTDESC)"@ != "(unknown)"@,
        "(DOF_SECT_DIFOHDR)"@ != "(DOF_SECT_DIF)"@,
        "(DOF_SECT_DIFOHDR)"@ != "(DOF_SECT_STRTAB)"@,
        "(DOF_SECT_DIFOHDR)"@ != "(DOF_SECT_VARTAB)"@,
        "(DOF_SECT_DIFOHDR)"@ != "(DOF_SECT_RELTAB)"@,
        "(DOF_SECT_DIFOHDR)"@ != "(DOF_SECT_TYPTAB)"@,
        "(DOF_SECT_DIFOHDR)"@ != "(DOF_SECT_URELHDR)"@,
        "(DOF_SECT_DIFOHDR)"@ != "(DOF_SECT_KRELHDR)"@,
        "(DOF_SECT_DIFOHDR)"@ != "(DOF_SECT_OPTDESC)"@,
        "(DOF_SECT_DIFOHDR)"@ != "(DOF_SECT_PROVIDER)"@,
        "(DOF_SECT_DIFOHDR)"@ != "(DOF_SECT_PROBES)"@,
        "(DOF_SECT_DIFOHDR)"@ != "(DOF_SECT_PRARGS)"@,
        "(DOF_SECT_DIFOHDR)"@ != "(DOF_SECT_PROFFS)"@,
        "(DOF_SECT_DIFOHDR)"@ != "(DOF_SECT_INTTAB)"@,
        "(DOF_SECT_DIFOHDR)"@ != "(DOF_SECT_UTSNAME)"@,
        "(DOF_SECT_DIFOHDR)"@ != "(DOF_SECT_XLTAB)"@,
        "(DOF_SECT_DIFOHDR)"@ != "(DOF_SECT_XLMEMBERS)"@,
        "(DOF_SECT_DIFOHDR)"@ != "(DOF_SECT_XLIMPORT)"@,
        "(DOF_SECT_DIFOHDR)"@ != "(DOF_SECT_XLEXPORT)"@,
        "(DOF_SECT_DIFOHDR)"@ != "(DOF_SECT_PREXPORT)"@,
        "(DOF_SECT_DIFOHDR)"@ != "(DOF_SECT_PRENOFFS)"@,
        "(DOF_SECT_DIFOHDR)"@ != "(unknown)"@,
        "(DOF_SECT_DIF)"@ != "(DOF_SECT_STRTAB)"@,
        "(DOF_SECT_DIF)"@ != "(DOF_SECT_VARTAB)"@,
        "(DOF_SECT_DIF)"@ != "(DOF_SECT_RELTAB)"@,
        "(DOF_SECT_DIF)"@ != "(DOF_SECT_TYPTAB)"@,
        "(DOF_SECT_DIF)"@ != "(DOF_SECT_URELHDR)"@,
        "(DOF_SECT_DIF)"@ != "(DOF_SECT_KRELHDR)"@,
        "(DOF_SECT_DIF)"@ != "(DOF_SECT_OPTDESC)"@,
        "(DOF_SECT_DIF)"@ != "(DOF_SECT_PROVIDER)"@,
        "(DOF_SECT_DIF)"@ != "(DOF_SECT_PROBES)"@,
        "(DOF_SECT_DIF)"@ != "(DOF_SECT_PRARGS)"@,
        "(DOF_SECT_DIF)"@ != "(DOF_SECT_PROFFS)"@,
        "(DOF_SECT_DIF)"@ != "(DOF_SECT_INTTAB)"@,
        "(DOF_SECT_DIF)"@ != "(DOF_SECT_UTSNAME)"@,
        "(DOF_SECT_DIF)"@ != "(DOF_SECT_XLTAB)"@,
        "(DOF_SECT_DIF)"@ != "(DOF_SECT_XLMEMBERS)"@,
        "(DOF_SECT_DIF)"@ != "(DOF_SECT_XLIMPORT)"@,
        "(DOF_SECT_DIF)"@ != "(DOF_SECT_XLEXPORT)"@,
        "(DOF_SECT_DIF)"@ != "(DOF_SECT_PREXPORT)"@,
        "(DOF_SECT_DIF)"@ != "(DOF_SECT_PRENOFFS)"@,
        "(DOF_SECT_DIF)"@ != "(unknown)"@,
        "(DOF_SECT_STRTAB)"@ != "(DOF_SECT_VARTAB)"@,
        "(DOF_SECT_STRTAB)"@ != "(DOF_SECT_RELTAB)"@,
        "(DOF_SECT_STRTAB)"@ != "(DOF_SECT_TYPTAB)"@,
        "(DOF_SECT_STRTAB)"@ != "(DOF_SECT_URELHDR)"@,
        "(DOF_SECT_STRTAB)"@ != "(DOF_SECT_KRELHDR)"@,
        "(DOF_SECT_STRTAB)"@ != "(DOF_SECT_OPTDESC)"@,
        "(DOF_SECT_STRTAB)"@ != "(DOF_SECT_PROVIDER)"@,
        "(DOF_SECT_STRTAB)"@ != "(DOF_SECT_PROBES)"@,
        "(DOF_SECT_STRTAB)"@ != "(DOF_SECT_PRARGS)"@,
        "(DOF_SECT_STRTAB)"@ != "(DOF_SECT_PROFFS)"@,
        "(DOF_SECT_STRTAB)"@ != "(DOF_SECT_INTTAB)"@,
        "(DOF_SECT_STRTAB)"@ != "(DOF_SECT_UTSNAME)"@,
        "(DOF_SECT_STRTAB)"@ != "(DOF_SECT_XLTAB)"@,
        "(DOF_SECT_STRTAB)"@ != "(DOF_SECT_XLMEMBERS)"@,
        "(DOF_SECT_STRTAB)"@ != "(DOF_SECT_XLIMPORT)"@,
        "(DOF_SECT_STRTAB)"@ != "(DOF_SECT_XLEXPORT)"@,
        "(DOF_SECT_STRTAB)"@ != "(DOF_SECT_PREXPORT)"@,
        "(DOF_SECT_STRTAB)"@ != "(DOF_SECT_PRENOFFS)"@,
        "(DOF_SECT_STRTAB)"@ != "(unknown)"@,
        "(DOF_SECT_VARTAB)"@ != "(DOF_SECT_RELTAB)"@,
        "(DOF_SECT_VARTAB)"@ != "(DOF_SECT_TYPTAB)"@,
        "(DOF_SECT_VARTAB)"@ != "(DOF_SECT_URELHDR)"@,
        "(DOF_SECT_VARTAB)"@ != "(DOF_SECT_KRELHDR)"@,
        "(DOF_SECT_VARTAB)"@ != "(DOF_SECT_OPTDESC)"@,
        "(DOF_SECT_VARTAB)"@ != "(DOF_SECT_PROVIDER)"@,
        "(DOF_SECT_VARTAB)"@ != "(DOF_SECT_PROBES)"@,
        "(DOF_SECT_VARTAB)"@ != "(DOF_SECT_PRARGS)"@,
        "(DOF_SECT_VARTAB)"@ != "(DOF_SECT_PROFFS)"@,
        "(DOF_SECT_VARTAB)"@ != "(DOF_SECT_INTTAB)"@,
        "(DOF_SECT_VARTAB)"@ != "(DOF_SECT_UTSNAME)"@,
        "(DOF_SECT_VARTAB)"@ != "(DOF_SECT_XLTAB)"@,
        "(DOF_SECT_VARTAB)"@ != "(DOF_SECT_XLMEMBERS)"@,
        "(DOF_SECT_VARTAB)"@ != "(DOF_SECT_XLIMPORT)"@,
        "(DOF_SECT_VARTAB)"@ != "(DOF_SECT_XLEXPORT)"@,
        "(DOF_SECT_VARTAB)"@ != "(DOF_SECT_PREXPORT)"@,
        "(DOF_SECT_VARTAB)"@ != "(DOF_SECT_PRENOFFS)"@,
        "(DOF_SECT_VARTAB)"@ != "(unknown)"@,
        "(DOF_SECT_RELTAB)"@ != "(DOF_SECT_TYPTAB)"@,
        "(DOF_SECT_RELTAB)"@ != "(DOF_SECT_URELHDR)"@,
        "(DOF_SECT_RELTAB)"@ != "(DOF_SECT_KRELHDR)"@,
        "(DOF_SECT_RELTAB)"@ != "(DOF_SECT_OPTDESC)"@,
        "(DOF_SECT_RELTAB)"@ != "(DOF_SECT_PROVIDER)"@,
        "(DOF_SECT_RELTAB)"@ != "(DOF_SECT_PROBES)"@,
        "(DOF_SECT_RELTAB)"@ != "(DOF_SECT_PRARGS)"@,
        "(DOF_SECT_RELTAB)"@ != "(DOF_SECT_PROFFS)"@,
        "(DOF_SECT_RELTAB)"@ != "(DOF_SECT_INTTAB)"@,
        "(DOF_SECT_RELTAB)"@ != "(DOF_SECT_UTSNAME)"@,
        "(DOF_SECT_RELTAB)"@ != "(DOF_SECT_XLTAB)"@,
        "(DOF_SECT_RELTAB)"@ != "(DOF_SECT_XLMEMBERS)"@,
        "(DOF_SECT_RELTAB)"@ != "(DOF_SECT_XLIMPORT)"@,
        "(DOF_SECT_RELTAB)"@ != "(DOF_SECT_XLEXPORT)"@,
        "(DOF_SECT_RELTAB)"@ != "(DOF_SECT_PREXPORT)"@,
        "(DOF_SECT_RELTAB)"@ != "(DOF_SECT_PRENOFFS)"@,
        "(DOF_SECT_RELTAB)"@ != "(unknown)"@,
        "(DOF_SECT_TYPTAB)"@ != "(DOF_SECT_URELHDR)"@,
        "(DOF_SECT_TYPTAB)"@ != "(DOF_SECT_KRELHDR)"@,
        "(DOF_SECT_TYPTAB)"@ != "(DOF_SECT_OPTDESC)"@,
        "(DOF_SECT_TYPTAB)"@ != "(DOF_SECT_PROVIDER)"@,
        "(DOF_SECT_TYPTAB)"@ != "(DOF_SECT_PROBES)"@,
        "(DOF_SECT_TYPTAB)"@ != "(DOF_SECT_PRARGS)"@,
        "(DOF_SECT_TYPTAB)"@ != "(DOF_SECT_PROFFS)"@,
        "(DOF_SECT_TYPTAB)"@ != "(DOF_SECT_INTTAB)"@,
        "(DOF_SECT_TYPTAB)"@ != "(DOF_SECT_UTSNAME)"@,
        "(DOF_SECT_TYPTAB)"@ != "(DOF_SECT_XLTAB)"@,
        "(DOF_SECT_TYPTAB)"@ != "(DOF_SECT_XLMEMBERS)"@,
        "(DOF_SECT_TYPTAB)"@ != "(DOF_SECT_XLIMPORT)"@,
        "(DOF_SECT_TYPTAB)"@ != "(DOF_SECT_XLEXPORT)"@,
        "(DOF_SECT_TYPTAB)"@ != "(DOF_SECT_PREXPORT)"@,
        "(DOF_SECT_TYPTAB)"@ != "(DOF_SECT_PRENOFFS)"@,
        "(DOF_SECT_TYPTAB)"@ != "(unknown)"@,
        "(DOF_SECT_URELHDR)"@ != "(DOF_SECT_KRELHDR)"@,
        "(DOF_SECT_URELHDR)"@ != "(DOF_SECT_OPTDESC)"@,
        "(DOF_SECT_URELHDR)"@ != "(DOF_SECT_PROVIDER)"@,
        "(DOF_SECT_URELHDR)"@ != "(DOF_SECT_PROBES)"@,
        "(DOF_SECT_URELHDR)"@ != "(DOF_SECT_PRARGS)"@,
        "(DOF_SECT_URELHDR)"@ != "(DOF_SECT_PROFFS)"@,
        "(DOF_SECT_URELHDR)"@ != "(DOF_SECT_INTTAB)"@,
        "(DOF_SECT_URELHDR)"@ != "(DOF_SECT_UTSNAME)"@,
        "(DOF_SECT_URELHDR)"@ != "(DOF_SECT_XLTAB)"@,
        "(DOF_SECT_URELHDR)"@ != "(DOF_SECT_XLMEMBERS)"@,
        "(DOF_SECT_URELHDR)"@ != "(DOF_SECT_XLIMPORT)"@,
        "(DOF_SECT_URELHDR)"@ != "(DOF_SECT_XLEXPORT)"@,
        "(DOF_SECT_URELHDR)"@ != "(DOF_SECT_PREXPORT)"@,
        "(DOF_SECT_URELHDR)"@ != "(DOF_SECT_PRENOFFS)"@,
        "(DOF_SECT_URELHDR)"@ != "(unknown)"@,
        "(DOF_SECT_KRELHDR)"@ != "(DOF_SECT_OPTDESC)"@,
        "(DOF_SECT_KRELHDR)"@ != "(DOF_SECT_PROVIDER)"@,
        "(DOF_SECT_KRELHDR)"@ != "(DOF_SECT_PROBES)"@,
        "(DOF_SECT_KRELHDR)"@ != "(DOF_SECT_PRARGS)"@,
        "(DOF_SECT_KRELHDR)"@ != "(DOF_SECT_PROFFS)"@,
        "(DOF_SECT_KRELHDR)"@ != "(DOF_SECT_INTTAB)"@,
        "(DOF_SECT_KRELHDR)"@ != "(DOF_SECT_UTSNAME)"@,
        "(DOF_SECT_KRELHDR)"@ != "(DOF_SECT_XLTAB)"@,
        "(DOF_SECT_KRELHDR)"@ != "(DOF_SECT_XLMEMBERS)"@,
        "(DOF_SECT_KRELHDR)"@ != "(DOF_SECT_XLIMPORT)"@,
        "(DOF_SECT_KRELHDR)"@ != "(DOF_SECT_XLEXPORT)"@,
        "(DOF_SECT_KRELHDR)"@ != "(DOF_SECT_PREXPORT)"@,
        "(DOF_SECT_KRELHDR)"@ != "(DOF_SECT_PRENOFFS)"@,
        "(DOF_SECT_KRELHDR)"@ != "(unknown)"@,
        "(DOF_SECT_OPTDESC)"@ != "(DOF_SECT_PROVIDER)"@,
        "(DOF_SECT_OPTDESC)"@ != "(DOF_SECT_PROBES)"@,
        "(DOF_SECT_OPTDESC)"@ != "(DOF_SECT_PRARGS)"@,
        "(DOF_SECT_OPTDESC)"@ != "(DOF_SECT_PROFFS)"@,
        "(DOF_SECT_OPTDESC)"@ != "(DOF_SECT_INTTAB)"@,
        "(DOF_SECT_OPTDESC)"@ != "(DOF_SECT_UTSNAME)"@,
        "(DOF_SECT_OPTDESC)"@ != "(DOF_SECT_XLTAB)"@,
        "(DOF_SECT_OPTDESC)"@ != "(DOF_SECT_XLMEMBERS)"@,
        "(DOF_SECT_OPTDESC)"@ != "(DOF_SECT_XLIMPORT)"@,
        "(DOF_SECT_OPTDESC)"@ != "(DOF_SECT_XLEXPORT)"@,
        "(DOF_SECT_OPTDESC)"@ != "(DOF_SECT_PREXPORT)"@,
        "(DOF_SECT_OPTDESC)"@ != "(DOF_SECT_PRENOFFS)"@,
        "(DOF_SECT_OPTDESC)"@ != "(unknown)"@,
        "(DOF_SECT_PROVIDER)"@ != "(DOF_SECT_PROBES)"@,
        "(DOF_SECT_PROVIDER)"@ != "(DOF_SECT_PRARGS)"@,
        "(DOF_SECT_PROVIDER)"@ != "(DOF_SECT_PROFFS)"@,
        "(DOF_SECT_PROVIDER)"@ != "(DOF_SECT_INTTAB)"@,
        "(DOF_SECT_PROVIDER)"@ != "(DOF_SECT_UTSNAME)"@,
        "(DOF_SECT_PROVIDER)"@ != "(DOF_SECT_XLTAB)"@,
        "(DOF_SECT_PROVIDER)"@ != "(DOF_SECT_XLMEMBERS)"@,
        "(DOF_SECT_PROVIDER)"@ != "(DOF_SECT_XLIMPORT)"@,
        "(DOF_SECT_PROVIDER)"@ != "(DOF_SECT_XLEXPORT)"@,
        "(DOF_SECT_PROVIDER)"@ != "(DOF_SECT_PREXPORT)"@,
        "(DOF_SECT_PROVIDER)"@ != "(DOF_SECT_PRENOFFS)"@,
        "(DOF_SECT_PROVIDER)"@ != "(unknown)"@,
        "(DOF_SECT_PROBES)"@ != "(DOF_SECT_PRARGS)"@,
        "(DOF_SECT_PROBES)"@ != "(DOF_SECT_PROFFS)"@,
        "(DOF_SECT_PROBES)"@ != "(DOF_SECT_INTTAB)"@,
        "(DOF_SECT_PROBES)"@ != "(DOF_SECT_UTSNAME)"@,
        "(DOF_SECT_PROBES)"@ != "(DOF_SECT_XLTAB)"@,
        "(DOF_SECT_PROBES)"@ != "(DOF_SECT_XLMEMBERS)"@,
        "(DOF_SECT_PROBES)"@ != "(DOF_SECT_XLIMPORT)"@,
        "(DOF_SECT_PROBES)"@ != "(DOF_SECT_XLEXPORT)"@,
        "(DOF_SECT_PROBES)"@ != "(DOF_SECT_PREXPORT)"@,
        "(DOF_SECT_PROBES)"@ != "(DOF_SECT_PRENOFFS)"@,
        "(DOF_SECT_PROBES)"@ != "(unknown)"@,
        "(DOF_SECT_PRARGS)"@ != "(DOF_SECT_PROFFS)"@,
        "(DOF_SECT_PRARGS)"@ != "(DOF_SECT_INTTAB)"@,
        "(DOF_SECT_PRARGS)"@ != "(DOF_SECT_UTSNAME)"@,
        "(DOF_SECT_PRARGS)"@ != "(DOF_SECT_XLTAB)"@,
        "(DOF_SECT_PRARGS)"@ != "(DOF_SECT_XLMEMBERS)"@,
        "(DOF_SECT_PRARGS)"@ != "(DOF_SECT_XLIMPORT)"@,
        "(DOF_SECT_PRARGS)"@ != "(DOF_SECT_XLEXPORT)"@,
        "(DOF_SECT_PRARGS)"@ != "(DOF_SECT_PREXPORT)"@,
        "(DOF_SECT_PRARGS)"@ != "(DOF_SECT_PRENOFFS)"@,
        "(DOF_SECT_PRARGS)"@ != "(unknown)"@,
        "(DOF_SECT_PROFFS)"@ != "(DOF_SECT_INTTAB)"@,
        "(DOF_SECT_PROFFS)"@ != "(DOF_SECT_UTSNAME)"@,
        "(DOF_SECT_PROFFS)"@ != "(DOF_SECT_XLTAB)"@,
        "(DOF_SECT_PROFFS)"@ != "(DOF_SECT_XLMEMBERS)"@,
        "(DOF_SECT_PROFFS)"@ != "(DOF_SECT_XLIMPORT)"@,
        "(DOF_SECT_PROFFS)"@ != "(DOF_SECT_XLEXPORT)"@,
        "(DOF_SECT_PROFFS)"@ != "(DOF_SECT_PREXPORT)"@,
        "(DOF_SECT_PROFFS)"@ != "(DOF_SECT_PRENOFFS)"@,
        "(DOF_SECT_PROFFS)"@ != "(unknown)"@,
        "(DOF_SECT_INTTAB)"@ != "(DOF_SECT_UTSNAME)"@,
        "(DOF_SECT_INTTAB)"@ != "(DOF_SECT_XLTAB)"@,
        "(DOF_SECT_INTTAB)"@ != "(DOF_SECT_XLMEMBERS)"@,
        "(DOF_SECT_INTTAB)"@ != "(DOF_SECT_XLIMPORT)"@,
        "(DOF_SECT_INTTAB)"@ != "(DOF_SECT_XLEXPORT)"@,
        "(DOF_SECT_INTTAB)"@ != "(DOF_SECT_PREXPORT)"@,
        "(DOF_SECT_INTTAB)"@ != "(DOF_SECT_PRENOFFS)"@,
        "(DOF_SECT_INTTAB)"@ != "(unknown)"@,
        "(DOF_SECT_UTSNAME)"@ != "(DOF_SECT_XLTAB)"@,
        "(DOF_SECT_UTSNAME)"@ != "(DOF_SECT_XLMEMBERS)"@,
        "(DOF_SECT_UTSNAME)"@ != "(DOF_SECT_XLIMPORT)"@,
        "(DOF_SECT_UTSNAME)"@ != "(DOF_SECT_XLEXPORT)"@,
        "(DOF_SECT_UTSNAME)"@ != "(DOF_SECT_PREXPORT)"@,
        "(DOF_SECT_UTSNAME)"@ != "(DOF_SECT_PRENOFFS)"@,
        "(DOF_SECT_UTSNAME)"@ != "(unknown)"@,
        "(DOF_SECT_XLTAB)"@ != "(DOF_SECT_XLMEMBERS)"@,
        "(DOF_SECT_XLTAB)"@ != "(DOF_SECT_XLIMPORT)"@,
        "(DOF_SECT_XLTAB)"@ != "(DOF_SECT_XLEXPORT)"@,
        "(DOF_SECT_XLTAB)"@ != "(DOF_SECT_PREXPORT)"@,
        "(DOF_SECT_XLTAB)"@ != "(DOF_SECT_PRENOFFS)"@,
        "(DOF_SECT_XLTAB)"@ != "(unknown)"@,
        "(DOF_SECT_XLMEMBERS)"@ != "(DOF_SECT_XLIMPORT)"@,
        "(DOF_SECT_XLMEMBERS)"@ != "(DOF_SECT_XLEXPORT)"@,
        "(DOF_SECT_XLMEMBERS)"@ != "(DOF_SECT_PREXPORT)"@,
        "(DOF_SECT_XLMEMBERS)"@ != "(DOF_SECT_PRENOFFS)"@,
        "(DOF_SECT_XLMEMBERS)"@ != "(unknown)"@,
        "(DOF_SECT_XLIMPORT)"@ != "(DOF_SECT_XLEXPORT)"@,
        "(DOF_SECT_XLIMPORT)"@ != "(DOF_SECT_PREXPORT)"@,
        "(DOF_SECT_XLIMPORT)"@ != "(DOF_SECT_PRENOFFS)"@,
        "(DOF_SECT_XLIMPORT)"@ != "(unknown)"@,
        "(DOF_SECT_XLEXPORT)"@ != "(DOF_SECT_PREXPORT)"@,
        "(DOF_SECT_XLEXPORT)"@ != "(DOF_SECT_PRENOFFS)"@,
        "(DOF_SECT_XLEXPORT)"@ != "(unknown)"@,
        "(DOF_SECT_PREXPORT)"@ != "(DOF_SECT_PRENOFFS)"@,
        "(DOF_SECT_PREXPORT)"@ != "(unknown)"@,
        "(DOF_SECT_PRENOFFS)"@ != "(unknown)"@,
        "(DOF_SECT_NONE)"@.subrange(0, 10) == "(DOF_SECT_"@,
        "(DOF_SECT_NONE)"@.last() == ')',
        "(DOF_SECT_COMMENTS)"@.subrange(0, 10) == "(DOF_SECT_"@,
        "(DOF_SECT_COMMENTS)"@.last() == ')',
        "(DOF_SECT_SOURCE)"@.subrange(0, 10) == "(DOF_SECT_"@,
        "(DOF_SECT_SOURCE)"@.last() == ')',
        "(DOF_SECT_ECBDESC)"@.subrange(0, 10) == "(DOF_SECT_"@,
        "(DOF_SECT_ECBDESC)"@.last() == ')',
        "(DOF_SECT_PROBEDESC)"@.subrange(0, 10) == "(DOF_SECT_"@,
        "(DOF_SECT_PROBEDESC)"@.last() == ')',
        "(DOF_SECT_ACTDESC)"@.subrange(0, 10) == "(DOF_SECT_"@,
        "(DOF_SECT_ACTDESC)"@.last() == ')',
        "(DOF_SECT_DIFOHDR)"@.subrange(0, 10) == "(DOF_SECT_"@,
        "(DOF_SECT_DIFOHDR)"@.last() == ')',
        "(DOF_SECT_DIF)"@.subrange(0, 10) == "(DOF_SECT_"@,
        "(DOF_SECT_DIF)"@.last() == ')',
        "(DOF_SECT_STRTAB)"@.subrange(0, 10) == "(DOF_SECT_"@,
        "(DOF_SECT_STRTAB)"@.last() == ')',
        "(DOF_SECT_VARTAB)"@.subrange(0, 10) == "(DOF_SECT_"@,
        "(DOF_SECT_VARTAB)"@.last() == ')',
        "(DOF_SECT_RELTAB)"@.subrange(0, 10) == "(DOF_SECT_"@,
        "(DOF_SECT_RELTAB)"@.last() == ')',
        "(DOF_SECT_TYPTAB)"@.subrange(0, 10) == "(DOF_SECT_"@,
        "(DOF_SECT_TYPTAB)"@.last() == ')',
        "(DOF_SECT_URELHDR)"@.subrange(0, 10) == "(DOF_SECT_"@,
        "(DOF_SECT_URELHDR)"@.last() == ')',
        "(DOF_SECT_KRELHDR)"@.subrange(0, 10) == "(DOF_SECT_"@,
        "(DOF_SECT_KRELHDR)"@.last() == ')',
        "(DOF_SECT_OPTDESC)"@.subrange(0, 10) == "(DOF_SECT_"@,
        "(DOF_SECT_OPTDESC)"@.last() == ')',
        "(DOF_SECT_PROVIDER)"@.subrange(0, 10) == "(DOF_SECT_"@,
        "(DOF_SECT_PROVIDER)"@.last() == ')',
        "(DOF_SECT_PROBES)"@.subrange(0, 10) == "(DOF_SECT_"@,
        "(DOF_SECT_PROBES)"@.last() == ')',
        "(DOF_SECT_PRARGS)"@.subrange(0, 10) == "(DOF_SECT_"@,
        "(DOF_SECT_PRARGS)"@.last() == ')',
        "(DOF_SECT_PROFFS)"@.subrange(0, 10) == "(DOF_SECT_"@,
        "(DOF_SECT_PROFFS)"@.last() == ')',
        "(DOF_SECT_INTTAB)"@.subrange(0, 10) == "(DOF_SECT_"@,
        "(DOF_SECT_INTTAB)"@.last() == ')',
        "(DOF_SECT_UTSNAME)"@.subrange(0, 10) == "(DOF_SECT_"@,
        "(DOF_SECT_UTSNAME)"@.last() == ')',
        "(DOF_SECT_XLTAB)"@.subrange(0, 10) == "(DOF_SECT_"@,
        "(DOF_SECT_XLTAB)"@.last() == ')',
        "(DOF_SECT_XLMEMBERS)"@.subrange(0, 10) == "(DOF_SECT_"@,
        "(DOF_SECT_XLMEMBERS)"@.last() == ')',
        "(DOF_SECT_XLIMPORT)"@.subrange(0, 10) == "(DOF_SECT_"@,
        "(DOF_SECT_XLIMPORT)"@.last() == ')',
        "(DOF_SECT_XLEXPORT)"@.subrange(0, 10) == "(DOF_SECT_"@,
        "(DOF_SECT_XLEXPORT)"@.last() == ')',
        "(DOF_SECT_PREXPORT)"@.subrange(0, 10) == "(DOF_SECT_"@,
        "(DOF_SECT_PREXPORT)"@.last() == ')',
        "(DOF_SECT_PRENOFFS)"@.subrange(0, 10) == "(DOF_SECT_"@,
        "(DOF_SECT_PRENOFFS)"@.last() == ')',
{
    reveal_strlit("(DOF_SECT_NONE)");
    reveal_strlit("(DOF_SECT_COMMENTS)");
    reveal_strlit("(DOF_SECT_SOURCE)");
    reveal_strlit("(DOF_SECT_ECBDESC)");
    reveal_strlit("(DOF_SECT_PROBEDESC)");
    reveal_strlit("(DOF_SECT_ACTDESC)");
    reveal_strlit("(DOF_SECT_DIFOHDR)");
    reveal_strlit("(DOF_SECT_DIF)");
    reveal_strlit("(DOF_SECT_STRTAB)");
    reveal_strlit("(DOF_SECT_VARTAB)");
    reveal_strlit("(DOF_SECT_RELTAB)");
    reveal_strlit("(DOF_SECT_TYPTAB)");
    reveal_strlit("(DOF_SECT_URELHDR)");
    reveal_strlit("(DOF_SECT_KRELHDR)");
    reveal_strlit("(DOF_SECT_OPTDESC)");
    reveal_strlit("(DOF_SECT_PROVIDER)");
    reveal_strlit("(DOF_SECT_PROBES)");
    reveal_strlit("(DOF_SECT_PRARGS)");
    reveal_strlit("(DOF_SECT_PROFFS)");
    reveal_strlit("(DOF_SECT_INTTAB)");
    reveal_strlit("(DOF_SECT_UTSNAME)");
    reveal_strlit("(DOF_SECT_XLTAB)");
    reveal_strlit("(DOF_SECT_XLMEMBERS)");
    reveal_strlit("(DOF_SECT_XLIMPORT)");
    reveal_strlit("(DOF_SECT_XLEXPORT)");
    reveal_strlit("(DOF_SECT_PREXPORT)");
    reveal_strlit("(DOF_SECT_PRENOFFS)");
    reveal_strlit("(unknown)");
    reveal_strlit("(DOF_SECT_");
    assert("(DOF_SECT_NONE)"@ != "(DOF_SECT_COMMENTS)"@) by { assert("(DOF_SECT_NONE)"@.len() != "(DOF_SECT_COMMENTS)"@.len()); }
    assert("(DOF_SECT_NONE)"@ != "(DOF_SECT_SOURCE)"@) by { assert("(DOF_SECT_NONE)"@.len() != "(DOF_SECT_SOURCE)"@.len()); }
    assert("(DOF_SECT_NONE)"@ != "(DOF_SECT_ECBDESC)"@) by { assert("(DOF_SECT_NONE)"@.len() != "(DOF_SECT_ECBDESC)"@.len()); }
    assert("(DOF_SECT_NONE)"@ != "(DOF_SECT_PROBEDESC)"@) by { assert("(DOF_SECT_NONE)"@.len() != "(DOF_SECT_PROBEDESC)"@.len()); }
    assert("(DOF_SECT_NONE)"@ != "(DOF_SECT_ACTDESC)"@) by { assert("(DOF_SECT_NONE)"@.len() != "(DOF_SECT_ACTDESC)"@.len()); }
    assert("(DOF_SECT_NONE)"@ != "(DOF_SECT_DIFOHDR)"@) by { assert("(DOF_SECT_NONE)"@.len() != "(DOF_SECT_DIFOHDR)"@.len()); }
    assert("(DOF_SECT_NONE)"@ != "(DOF_SECT_DIF)"@) by { assert("(DOF_SECT_NONE)"@.len() != "(DOF_SECT_DIF)"@.len()); }
    assert("(DOF_SECT_NONE)"@ != "(DOF_SECT_STRTAB)"@) by { assert("(DOF_SECT_NONE)"@.len() != "(DOF_SECT_STRTAB)"@.len()); }
    assert("(DOF_SECT_NONE)"@ != "(DOF_SECT_VARTAB)"@) by { assert("(DOF_SECT_NONE)"@.len() != "(DOF_SECT_VARTAB)"@.len()); }
    assert("(DOF_SECT_NONE)"@ != "(DOF_SECT_RELTAB)"@) by { assert("(DOF_SECT_NONE)"@.len() != "(DOF_SECT_RELTAB)"@.len()); }
    assert("(DOF_SECT_NONE)"@ != "(DOF_SECT_TYPTAB)"@) by { assert("(DOF_SECT_NONE)"@.len() != "(DOF_SECT_TYPTAB)"@.len()); }
    assert("(DOF_SECT_NONE)"@ != "(DOF_SECT_URELHDR)"@) by { assert("(DOF_SECT_NONE)"@.len() != "(DOF_SECT_URELHDR)"@.len()); }
    assert("(DOF_SECT_NONE)"@ != "(DOF_SECT_KRELHDR)"@) by { assert("(DOF_SECT_NONE)"@.len() != "(DOF_SECT_KRELHDR)"@.len()); }
    assert("(DOF_SECT_NONE)"@ != "(DOF_SECT_OPTDESC)"@) by { assert("(DOF_SECT_NONE)"@.len() != "(DOF_SECT_OPTDESC)"@.len()); }
    assert("(DOF_SECT_NONE)"@ != "(DOF_SECT_PROVIDER)"@) by { assert("(DOF_SECT_NONE)"@.len() != "(DOF_SECT_PROVIDER)"@.len()); }
    assert("(DOF_SECT_NONE)"@ != "(DOF_SECT_PROBES)"@) by { assert("(DOF_SECT_NONE)"@.len() != "(DOF_SECT_PROBES)"@.len()); }
    assert("(DOF_SECT_NONE)"@ != "(DOF_SECT_PRARGS)"@) by { assert("(DOF_SECT_NONE)"@.len() != "(DOF_SECT_PRARGS)"@.len()); }
    assert("(DOF_SECT_NONE)"@ != "(DOF_SECT_PROFFS)"@) by { assert("(DOF_SECT_NONE)"@.len() != "(DOF_SECT_PROFFS)"@.len()); }
    assert("(DOF_SECT_NONE)"@ != "(DOF_SECT_INTTAB)"@) by { assert("(DOF_SECT_NONE)"@.len() != "(DOF_SECT_INTTAB)"@.len()); }
    assert("(DOF_SECT_NONE)"@ != "(DOF_SECT_UTSNAME)"@) by { assert("(DOF_SECT_NONE)"@.len() != "(DOF_SECT_UTSNAME)"@.len()); }
    assert("(DOF_SECT_NONE)"@ != "(DOF_SECT_XLTAB)"@) by { assert("(DOF_SECT_NONE)"@.len() != "(DOF_SECT_XLTAB)"@.len()); }
    assert("(DOF_SECT_NONE)"@ != "(DOF_SECT_XLMEMBERS)"@) by { assert("(DOF_SECT_NONE)"@.len() != "(DOF_SECT_XLMEMBERS)"@.len()); }
    assert("(DOF_SECT_NONE)"@ != "(DOF_SECT_XLIMPORT)"@) by { assert("(DOF_SECT_NONE)"@.len() != "(DOF_SECT_XLIMPORT)"@.len()); }
    assert("(DOF_SECT_NONE)"@ != "(DOF_SECT_XLEXPORT)"@) by { assert("(DOF_SECT_NONE)"@.len() != "(DOF_SECT_XLEXPORT)"@.len()); }
    assert("(DOF_SECT_NONE)"@ != "(DOF_SECT_PREXPORT)"@) by { assert("(DOF_SECT_NONE)"@.len() != "(DOF_SECT_PREXPORT)"@.len()); }
    assert("(DOF_SECT_NONE)"@ != "(DOF_SECT_PRENOFFS)"@) by { assert("(DOF_SECT_NONE)"@.len() != "(DOF_SECT_PRENOFFS)"@.len()); }
    assert("(DOF_SECT_NONE)"@ != "(unknown)"@) by { assert("(DOF_SECT_NONE)"@.len() != "(unknown)"@.len()); }
    assert("(DOF_SECT_COMMENTS)"@ != "(DOF_SECT_SOURCE)"@) by { assert("(DOF_SECT_COMMENTS)"@.len() != "(DOF_SECT_SOURCE)"@.len()); }
    assert("(DOF_SECT_COMMENTS)"@ != "(DOF_SECT_ECBDESC)"@) by { assert("(DOF_SECT_COMMENTS)"@.len() != "(DOF_SECT_ECBDESC)"@.len()); }
    assert("(DOF_SECT_COMMENTS)"@ != "(DOF_SECT_PROBEDESC)"@) by { assert("(DOF_SECT_COMMENTS)"@.len() != "(DOF_SECT_PROBEDESC)"@.len()); }
    assert("(DOF_SECT_COMMENTS)"@ != "(DOF_SECT_ACTDESC)"@) by { assert("(DOF_SECT_COMMENTS)"@.len() != "(DOF_SECT_ACTDESC)"@.len()); }
    assert("(DOF_SECT_COMMENTS)"@ != "(DOF_SECT_DIFOHDR)"@) by { assert("(DOF_SECT_COMMENTS)"@.len() != "(DOF_SECT_DIFOHDR)"@.len()); }
    assert("(DOF_SECT_COMMENTS)"@ != "(DOF_SECT_DIF)"@) by { assert("(DOF_SECT_COMMENTS)"@.len() != "(DOF_SECT_DIF)"@.len()); }
    assert("(DOF_SECT_COMMENTS)"@ != "(DOF_SECT_STRTAB)"@) by { assert("(DOF_SECT_COMMENTS)"@.len() != "(DOF_SECT_STRTAB)"@.len()); }
    assert("(DOF_SECT_COMMENTS)"@ != "(DOF_SECT_VARTAB)"@) by { assert("(DOF_SECT_COMMENTS)"@.len() != "(DOF_SECT_VARTAB)"@.len()); }
    assert("(DOF_SECT_COMMENTS)"@ != "(DOF_SECT_RELTAB)"@) by { assert("(DOF_SECT_COMMENTS)"@.len() != "(DOF_SECT_RELTAB)"@.len()); }
    assert("(DOF_SECT_COMMENTS)"@ != "(DOF_SECT_TYPTAB)"@) by { assert("(DOF_SECT_COMMENTS)"@.len() != "(DOF_SECT_TYPTAB)"@.len()); }
    assert("(DOF_SECT_COMMENTS)"@ != "(DOF_SECT_URELHDR)"@) by { assert("(DOF_SECT_COMMENTS)"@.len() != "(DOF_SECT_URELHDR)"@.len()); }
    assert("(DOF_SECT_COMMENTS)"@ != "(DOF_SECT_KRELHDR)"@) by { assert("(DOF_SECT_COMMENTS)"@.len() != "(DOF_SECT_KRELHDR)"@.len()); }
    assert("(DOF_SECT_COMMENTS)"@ != "(DOF_SECT_OPTDESC)"@) by { assert("(DOF_SECT_COMMENTS)"@.len() != "(DOF_SECT_OPTDESC)"@.len()); }
    assert("(DOF_SECT_COMMENTS)"@ != "(DOF_SECT_PROVIDER)"@) by { assert("(DOF_SECT_COMMENTS)"@[10] != "(DOF_SECT_PROVIDER)"@[10]); }
    assert("(DOF_SECT_COMMENTS)"@ != "(DOF_SECT_PROBES)"@) by { assert("(DOF_SECT_COMMENTS)"@.len() != "(DOF_SECT_PROBES)"@.len()); }
    assert("(DOF_SECT_COMMENTS)"@ != "(DOF_SECT_PRARGS)"@) by { assert("(DOF_SECT_COMMENTS)"@.len() != "(DOF_SECT_PRARGS)"@.len()); }
    assert("(DOF_SECT_COMMENTS)"@ != "(DOF_SECT_PROFFS)"@) by { assert("(DOF_SECT_COMMENTS)"@.len() != "(DOF_SECT_PROFFS)"@.len()); }
    assert("(DOF_SECT_COMMENTS)"@ != "(DOF_SECT_INTTAB)"@) by { assert("(DOF_SECT_COMMENTS)"@.len() != "(DOF_SECT_INTTAB)"@.len()); }
    assert("(DOF_SECT_COMMENTS)"@ != "(DOF_SECT_UTSNAME)"@) by { assert("(DOF_SECT_COMMENTS)"@.len() != "(DOF_SECT_UTSNAME)"@.len()); }
    assert("(DOF_SECT_COMMENTS)"@ != "(DOF_SECT_XLTAB)"@) by { assert("(DOF_SECT_COMMENTS)"@.len() != "(DOF_SECT_XLTAB)"@.len()); }
    assert("(DOF_SECT_COMMENTS)"@ != "(DOF_SECT_XLMEMBERS)"@) by { assert("(DOF_SECT_COMMENTS)"@.len() != "(DOF_SECT_XLMEMBERS)"@.len()); }
    assert("(DOF_SECT_COMMENTS)"@ != "(DOF_SECT_XLIMPORT)"@) by { assert("(DOF_SECT_COMMENTS)"@[10] != "(DOF_SECT_XLIMPORT)"@[10]); }
    assert("(DOF_SECT_COMMENTS)"@ != "(DOF_SECT_XLEXPORT)"@) by { assert("(DOF_SECT_COMMENTS)"@[10] != "(DOF_SECT_XLEXPORT)"@[10]); }
    assert("(DOF_SECT_COMMENTS)"@ != "(DOF_SECT_PREXPORT)"@) by { assert("(DOF_SECT_COMMENTS)"@[10] != "(DOF_SECT_PREXPORT)"@[10]); }
    assert("(DOF_SECT_COMMENTS)"@ != "(DOF_SECT_PRENOFFS)"@) by { assert("(DOF_SECT_COMMENTS)"@[10] != "(DOF_SECT_PRENOFFS)"@[10]); }
    assert("(DOF_SECT_COMMENTS)"@ != "(unknown)"@) by { assert("(DOF_SECT_COMMENTS)"@.len() != "(unknown)"@.len()); }
    assert("(DOF_SECT_SOURCE)"@ != "(DOF_SECT_ECBDESC)"@) by { assert("(DOF_SECT_SOURCE)"@.len() != "(DOF_SECT_ECBDESC)"@.len()); }
    assert("(DOF_SECT_SOURCE)"@ != "(DOF_SECT_PROBEDESC)"@) by { assert("(DOF_SECT_SOURCE)"@.len() != "(DOF_SECT_PROBEDESC)"@.len()); }
    assert("(DOF_SECT_SOURCE)"@ != "(DOF_SECT_ACTDESC)"@) by { assert("(DOF_SECT_SOURCE)"@.len() != "(DOF_SECT_ACTDESC)"@.len()); }
    assert("(DOF_SECT_SOURCE)"@ != "(DOF_SECT_DIFOHDR)"@) by { assert("(DOF_SECT_SOURCE)"@.len() != "(DOF_SECT_DIFOHDR)"@.len()); }
    assert("(DOF_SECT_SOURCE)"@ != "(DOF_SECT_DIF)"@) by { assert("(DOF_SECT_SOURCE)"@.len() != "(DOF_SECT_DIF)"@.len()); }
    assert("(DOF_SECT_SOURCE)"@ != "(DOF_SECT_STRTAB)"@) by { assert("(DOF_SECT_SOURCE)"@[11] != "(DOF_SECT_STRTAB)"@[11]); }
    assert("(DOF_SECT_SOURCE)"@ != "(DOF_SECT_VARTAB)"@) by { assert("(DOF_SECT_SOURCE)"@[10] != "(DOF_SECT_VARTAB)"@[10]); }
    assert("(DOF_SECT_SOURCE)"@ != "(DOF_SECT_RELTAB)"@) by { assert("(DOF_SECT_SOURCE)"@[10] != "(DOF_SECT_RELTAB)"@[10]); }
    assert("(DOF_SECT_SOURCE)"@ != "(DOF_SECT_TYPTAB)"@) by { assert("(DOF_SECT_SOURCE)"@[10] != "(DOF_SECT_TYPTAB)"@[10]); }
    assert("(DOF_SECT_SOURCE)"@ != "(DOF_SECT_URELHDR)"@) by { assert("(DOF_SECT_SOURCE)"@.len() != "(DOF_SECT_URELHDR)"@.len()); }
    assert("(DOF_SECT_SOURCE)"@ != "(DOF_SECT_KRELHDR)"@) by { assert("(DOF_SECT_SOURCE)"@.len() != "(DOF_SECT_KRELHDR)"@.len()); }
    assert("(DOF_SECT_SOURCE)"@ != "(DOF_SECT_OPTDESC)"@) by { assert("(DOF_SECT_SOURCE)"@.len() != "(DOF_SECT_OPTDESC)"@.len()); }
    assert("(DOF_SECT_SOURCE)"@ != "(DOF_SECT_PROVIDER)"@) by { assert("(DOF_SECT_SOURCE)"@.len() != "(DOF_SECT_PROVIDER)"@.len()); }
    assert("(DOF_SECT_SOURCE)"@ != "(DOF_SECT_PROBES)"@) by { assert("(DOF_SECT_SOURCE)"@[10] != "(DOF_SECT_PROBES)"@[10]); }
    assert("(DOF_SECT_SOURCE)"@ != "(DOF_SECT_PRARGS)"@) by { assert("(DOF_SECT_SOURCE)"@[10] != "(DOF_SECT_PRARGS)"@[10]); }
    assert("(DOF_SECT_SOURCE)"@ != "(DOF_SECT_PROFFS)"@) by { assert("(DOF_SECT_SOURCE)"@[10] != "(DOF_SECT_PROFFS)"@[10]); }
    assert("(DOF_SECT_SOURCE)"@ != "(DOF_SECT_INTTAB)"@) by { assert("(DOF_SECT_SOURCE)"@[10] != "(DOF_SECT_INTTAB)"@[10]); }
    assert("(DOF_SECT_SOURCE)"@ != "(DOF_SECT_UTSNAME)"@) by { assert("(DOF_SECT_SOURCE)"@.len() != "(DOF_SECT_UTSNAME)"@.len()); }
    assert("(DOF_SECT_SOURCE)"@ != "(DOF_SECT_XLTAB)"@) by { assert("(DOF_SECT_SOURCE)"@.len() != "(DOF_SECT_XLTAB)"@.len()); }
    assert("(DOF_SECT_SOURCE)"@ != "(DOF_SECT_XLMEMBERS)"@) by { assert("(DOF_SECT_SOURCE)"@.len() != "(DOF_SECT_XLMEMBERS)"@.len()); }
    assert("(DOF_SECT_SOURCE)"@ != "(DOF_SECT_XLIMPORT)"@) by { assert("(DOF_SECT_SOURCE)"@.len() != "(DOF_SECT_XLIMPORT)"@.len()); }
    assert("(DOF_SECT_SOURCE)"@ != "(DOF_SECT_XLEXPORT)"@) by { assert("(DOF_SECT_SOURCE)"@.len() != "(DOF_SECT_XLEXPORT)"@.len()); }
    assert("(DOF_SECT_SOURCE)"@ != "(DOF_SECT_PREXPORT)"@) by { assert("(DOF_SECT_SOURCE)"@.len() != "(DOF_SECT_PREXPORT)"@.len()); }
    assert("(DOF_SECT_SOURCE)"@ != "(DOF_SECT_PRENOFFS)"@) by { assert("(DOF_SECT_SOURCE)"@.len() != "(DOF_SECT_PRENOFFS)"@.len()); }
    assert("(DOF_SECT_SOURCE)"@ != "(unknown)"@) by { assert("(DOF_SECT_SOURCE)"@.len() != "(unknown)"@.len()); }
    assert("(DOF_SECT_ECBDESC)"@ != "(DOF_SECT_PROBEDESC)"@) by { assert("(DOF_SECT_ECBDESC)"@.len() != "(DOF_SECT_PROBEDESC)"@.len()); }
    assert("(DOF_SECT_ECBDESC)"@ != "(DOF_SECT_ACTDESC)"@) by { assert("(DOF_SECT_ECBDESC)"@[10] != "(DOF_SECT_ACTDESC)"@[10]); }
    assert("(DOF_SECT_ECBDESC)"@ != "(DOF_SECT_DIFOHDR)"@) by { assert("(DOF_SECT_ECBDESC)"@[10] != "(DOF_SECT_DIFOHDR)"@[10]); }
    assert("(DOF_SECT_ECBDESC)"@ != "(DOF_SECT_DIF)"@) by { assert("(DOF_SECT_ECBDESC)"@.len() != "(DOF_SECT_DIF)"@.len()); }
    assert("(DOF_SECT_ECBDESC)"@ != "(DOF_SECT_STRTAB)"@) by { assert("(DOF_SECT_ECBDESC)"@.len() != "(DOF_SECT_STRTAB)"@.len()); }
    assert("(DOF_SECT_ECBDESC)"@ != "(DOF_SECT_VARTAB)"@) by { assert("(DOF_SECT_ECBDESC)"@.len() != "(DOF_SECT_VARTAB)"@.len()); }
    assert("(DOF_SECT_ECBDESC)"@ != "(DOF_SECT_RELTAB)"@) by { assert("(DOF_SECT_ECBDESC)"@.len() != "(DOF_SECT_RELTAB)"@.len()); }
    assert("(DOF_SECT_ECBDESC)"@ != "(DOF_SECT_TYPTAB)"@) by { assert("(DOF_SECT_ECBDESC)"@.len() != "(DOF_SECT_TYPTAB)"@.len()); }
    assert("(DOF_SECT_ECBDESC)"@ != "(DOF_SECT_URELHDR)"@) by { assert("(DOF_SECT_ECBDESC)"@[10] != "(DOF_SECT_URELHDR)"@[10]); }
    assert("(DOF_SECT_ECBDESC)"@ != "(DOF_SECT_KRELHDR)"@) by { assert("(DOF_SECT_ECBDESC)"@[10] != "(DOF_SECT_KRELHDR)"@[10]); }
    assert("(DOF_SECT_ECBDESC)"@ != "(DOF_SECT_OPTDESC)"@) by { assert("(DOF_SECT_ECBDESC)"@[10] != "(DOF_SECT_OPTDESC)"@[10]); }
    assert("(DOF_SECT_ECBDESC)"@ != "(DOF_SECT_PROVIDER)"@) by { assert("(DOF_SECT_ECBDESC)"@.len() != "(DOF_SECT_PROVIDER)"@.len()); }
    assert("(DOF_SECT_ECBDESC)"@ != "(DOF_SECT_PROBES)"@) by { assert("(DOF_SECT_ECBDESC)"@.len() != "(DOF_SECT_PROBES)"@.len()); }
    assert("(DOF_SECT_ECBDESC)"@ != "(DOF_SECT_PRARGS)"@) by { assert("(DOF_SECT_ECBDESC)"@.len() != "(DOF_SECT_PRARGS)"@.len()); }
    assert("(DOF_SECT_ECBDESC)"@ != "(DOF_SECT_PROFFS)"@) by { assert("(DOF_SECT_ECBDESC)"@.len() != "(DOF_SECT_PROFFS)"@.len()); }
    assert("(DOF_SECT_ECBDESC)"@ != "(DOF_SECT_INTTAB)"@) by { assert("(DOF_SECT_ECBDESC)"@.len() != "(DOF_SECT_INTTAB)"@.len()); }
    assert("(DOF_SECT_ECBDESC)"@ != "(DOF_SECT_UTSNAME)"@) by { assert("(DOF_SECT_ECBDESC)"@[10] != "(DOF_SECT_UTSNAME)"@[10]); }
    assert("(DOF_SECT_ECBDESC)"@ != "(DOF_SECT_XLTAB)"@) by { assert("(DOF_SECT_ECBDESC)"@.len() != "(DOF_SECT_XLTAB)"@.len()); }
    assert("(DOF_SECT_ECBDESC)"@ != "(DOF_SECT_XLMEMBERS)"@) by { assert("(DOF_SECT_ECBDESC)"@.len() != "(DOF_SECT_XLMEMBERS)"@.len()); }
    assert("(DOF_SECT_ECBDESC)"@ != "(DOF_SECT_XLIMPORT)"@) by { assert("(DOF_SECT_ECBDESC)"@.len() != "(DOF_SECT_XLIMPORT)"@.len()); }
    assert("(DOF_SECT_ECBDESC)"@ != "(DOF_SECT_XLEXPORT)"@) by { assert("(DOF_SECT_ECBDESC)"@.len() != "(DOF_SECT_XLEXPORT)"@.len()); }
    assert("(DOF_SECT_ECBDESC)"@ != "(DOF_SECT_PREXPORT)"@) by { assert("(DOF_SECT_ECBDESC)"@.len() != "(DOF_SECT_PREXPORT)"@.len()); }
    assert("(DOF_SECT_ECBDESC)"@ != "(DOF_SECT_PRENOFFS)"@) by { assert("(DOF_SECT_ECBDESC)"@.len() != "(DOF_SECT_PRENOFFS)"@.len()); }
    assert("(DOF_SECT_ECBDESC)"@ != "(unknown)"@) by { assert("(DOF_SECT_ECBDESC)"@.len() != "(unknown)"@.len()); }
    assert("(DOF_SECT_PROBEDESC)"@ != "(DOF_SECT_ACTDESC)"@) by { assert("(DOF_SECT_PROBEDESC)"@.len() != "(DOF_SECT_ACTDESC)"@.len()); }
    assert("(DOF_SECT_PROBEDESC)"@ != "(DOF_SECT_DIFOHDR)"@) by { assert("(DOF_SECT_PROBEDESC)"@.len() != "(DOF_SECT_DIFOHDR)"@.len()); }
    assert("(DOF_SECT_PROBEDESC)"@ != "(DOF_SECT_DIF)"@) by { assert("(DOF_SECT_PROBEDESC)"@.len() != "(DOF_SECT_DIF)"@.len()); }
    assert("(DOF_SECT_PROBEDESC)"@ != "(DOF_SECT_STRTAB)"@) by { assert("(DOF_SECT_PROBEDESC)"@.len() != "(DOF_SECT_STRTAB)"@.len()); }
    assert("(DOF_SECT_PROBEDESC)"@ != "(DOF_SECT_VARTAB)"@) by { assert("(DOF_SECT_PROBEDESC)"@.len() != "(DOF_SECT_VARTAB)"@.len()); }
    assert("(DOF_SECT_PROBEDESC)"@ != "(DOF_SECT_RELTAB)"@) by { assert("(DOF_SECT_PROBEDESC)"@.len() != "(DOF_SECT_RELTAB)"@.len()); }
    assert("(DOF_SECT_PROBEDESC)"@ != "(DOF_SECT_TYPTAB)"@) by { assert("(DOF_SECT_PROBEDESC)"@.len() != "(DOF_SECT_TYPTAB)"@.len()); }
    assert("(DOF_SECT_PROBEDESC)"@ != "(DOF_SECT_URELHDR)"@) by { assert("(DOF_SECT_PROBEDESC)"@.len() != "(DOF_SECT_URELHDR)"@.len()); }
    assert("(DOF_SECT_PROBEDESC)"@ != "(DOF_SECT_KRELHDR)"@) by { assert("(DOF_SECT_PROBEDESC)"@.len() != "(DOF_SECT_KRELHDR)"@.len()); }
    assert("(DOF_SECT_PROBEDESC)"@ != "(DOF_SECT_OPTDESC)"@) by { assert("(DOF_SECT_PROBEDESC)"@.len() != "(DOF_SECT_OPTDESC)"@.len()); }
    assert("(DOF_SECT_PROBEDESC)"@ != "(DOF_SECT_PROVIDER)"@) by { assert("(DOF_SECT_PROBEDESC)"@.len() != "(DOF_SECT_PROVIDER)"@.len()); }
    assert("(DOF_SECT_PROBEDESC)"@ != "(DOF_SECT_PROBES)"@) by { assert("(DOF_SECT_PROBEDESC)"@.len() != "(DOF_SECT_PROBES)"@.len()); }
    assert("(DOF_SECT_PROBEDESC)"@ != "(DOF_SECT_PRARGS)"@) by { assert("(DOF_SECT_PROBEDESC)"@.len() != "(DOF_SECT_PRARGS)"@.len()); }
    assert("(DOF_SECT_PROBEDESC)"@ != "(DOF_SECT_PROFFS)"@) by { assert("(DOF_SECT_PROBEDESC)"@.len() != "(DOF_SECT_PROFFS)"@.len()); }
    assert("(DOF_SECT_PROBEDESC)"@ != "(DOF_SECT_INTTAB)"@) by { assert("(DOF_SECT_PROBEDESC)"@.len() != "(DOF_SECT_INTTAB)"@.len()); }
    assert("(DOF_SECT_PROBEDESC)"@ != "(DOF_SECT_UTSNAME)"@) by { assert("(DOF_SECT_PROBEDESC)"@.len() != "(DOF_SECT_UTSNAME)"@.len()); }
    assert("(DOF_SECT_PROBEDESC)"@ != "(DOF_SECT_XLTAB)"@) by { assert("(DOF_SECT_PROBEDESC)"@.len() != "(DOF_SECT_XLTAB)"@.len()); }
    assert("(DOF_SECT_PROBEDESC)"@ != "(DOF_SECT_XLMEMBERS)"@) by { assert("(DOF_SECT_PROBEDESC)"@[10] != "(DOF_SECT_XLMEMBERS)"@[10]); }
    assert("(DOF_SECT_PROBEDESC)"@ != "(DOF_SECT_XLIMPORT)"@) by { assert("(DOF_SECT_PROBEDESC)"@.len() != "(DOF_SECT_XLIMPORT)"@.len()); }
    assert("(DOF_SECT_PROBEDESC)"@ != "(DOF_SECT_XLEXPORT)"@) by { assert("(DOF_SECT_PROBEDESC)"@.len() != "(DOF_SECT_XLEXPORT)"@.len()); }
    assert("(DOF_SECT_PROBEDESC)"@ != "(DOF_SECT_PREXPORT)"@) by { assert("(DOF_SECT_PROBEDESC)"@.len() != "(DOF_SECT_PREXPORT)"@.len()); }
    assert("(DOF_SECT_PROBEDESC)"@ != "(DOF_SECT_PRENOFFS)"@) by { assert("(DOF_SECT_PROBEDESC)"@.len() != "(DOF_SECT_PRENOFFS)"@.len()); }
    assert("(DOF_SECT_PROBEDESC)"@ != "(unknown)"@) by { assert("(DOF_SECT_PROBEDESC)"@.len() != "(unknown)"@.len()); }
    assert("(DOF_SECT_ACTDESC)"@ != "(DOF_SECT_DIFOHDR)"@) by { assert("(DOF_SECT_ACTDESC)"@[10] != "(DOF_SECT_DIFOHDR)"@[10]); }
    assert("(DOF_SECT_ACTDESC)"@ != "(DOF_SECT_DIF)"@) by { assert("(DOF_SECT_ACTDESC)"@.len() != "(DOF_SECT_DIF)"@.len()); }
    assert("(DOF_SECT_ACTDESC)"@ != "(DOF_SECT_STRTAB)"@) by { assert("(DOF_SECT_ACTDESC)"@.len() != "(DOF_SECT_STRTAB)"@.len()); }
    assert("(DOF_SECT_ACTDESC)"@ != "(DOF_SECT_VARTAB)"@) by { assert("(DOF_SECT_ACTDESC)"@.len() != "(DOF_SECT_VARTAB)"@.len()); }
    assert("(DOF_SECT_ACTDESC)"@ != "(DOF_SECT_RELTAB)"@) by { assert("(DOF_SECT_ACTDESC)"@.len() != "(DOF_SECT_RELTAB)"@.len()); }
    assert("(DOF_SECT_ACTDESC)"@ != "(DOF_SECT_TYPTAB)"@) by { assert("(DOF_SECT_ACTDESC)"@.len() != "(DOF_SECT_TYPTAB)"@.len()); }
    assert("(DOF_SECT_ACTDESC)"@ != "(DOF_SECT_URELHDR)"@) by { assert("(DOF_SECT_ACTDESC)"@[10] != "(DOF_SECT_URELHDR)"@[10]); }
    assert("(DOF_SECT_ACTDESC)"@ != "(DOF_SECT_KRELHDR)"@) by { assert("(DOF_SECT_ACTDESC)"@[10] != "(DOF_SECT_KRELHDR)"@[10]); }
    assert("(DOF_SECT_ACTDESC)"@ != "(DOF_SECT_OPTDESC)"@) by { assert("(DOF_SECT_ACTDESC)"@[10] != "(DOF_SECT_OPTDESC)"@[10]); }
    assert("(DOF_SECT_ACTDESC)"@ != "(DOF_SECT_PROVIDER)"@) by { assert("(DOF_SECT_ACTDESC)"@.len() != "(DOF_SECT_PROVIDER)"@.len()); }
    assert("(DOF_SECT_ACTDESC)"@ != "(DOF_SECT_PROBES)"@) by { assert("(DOF_SECT_ACTDESC)"@.len() != "(DOF_SECT_PROBES)"@.len()); }
    assert("(DOF_SECT_ACTDESC)"@ != "(DOF_SECT_PRARGS)"@) by { assert("(DOF_SECT_ACTDESC)"@.len() != "(DOF_SECT_PRARGS)"@.len()); }
    assert("(DOF_SECT_ACTDESC)"@ != "(DOF_SECT_PROFFS)"@) by { assert("(DOF_SECT_ACTDESC)"@.len() != "(DOF_SECT_PROFFS)"@.len()); }
    assert("(DOF_SECT_ACTDESC)"@ != "(DOF_SECT_INTTAB)"@) by { assert("(DOF_SECT_ACTDESC)"@.len() != "(DOF_SECT_INTTAB)"@.len()); }
    assert("(DOF_SECT_ACTDESC)"@ != "(DOF_SECT_UTSNAME)"@) by { assert("(DOF_SECT_ACTDESC)"@[10] != "(DOF_SECT_UTSNAME)"@[10]); }
    assert("(DOF_SECT_ACTDESC)"@ != "(DOF_SECT_XLTAB)"@) by { assert("(DOF_SECT_ACTDESC)"@.len() != "(DOF_SECT_XLTAB)"@.len()); }
    assert("(DOF_SECT_ACTDESC)"@ != "(DOF_SECT_XLMEMBERS)"@) by { assert("(DOF_SECT_ACTDESC)"@.len() != "(DOF_SECT_XLMEMBERS)"@.len()); }
    assert("(DOF_SECT_ACTDESC)"@ != "(DOF_SECT_XLIMPORT)"@) by { assert("(DOF_SECT_ACTDESC)"@.len() != "(DOF_SECT_XLIMPORT)"@.len()); }
    assert("(DOF_SECT_ACTDESC)"@ != "(DOF_SECT_XLEXPORT)"@) by { assert("(DOF_SECT_ACTDESC)"@.len() != "(DOF_SECT_XLEXPORT)"@.len()); }
    assert("(DOF_SECT_ACTDESC)"@ != "(DOF_SECT_PREXPORT)"@) by { assert("(DOF_SECT_ACTDESC)"@.len() != "(DOF_SECT_PREXPORT)"@.len()); }
    assert("(DOF_SECT_ACTDESC)"@ != "(DOF_SECT_PRENOFFS)"@) by { assert("(DOF_SECT_ACTDESC)"@.len() != "(DOF_SECT_PRENOFFS)"@.len()); }
    assert("(DOF_SECT_ACTDESC)"@ != "(unknown)"@) by { assert("(DOF_SECT_ACTDESC)"@.len() != "(unknown)"@.len()); }
    assert("(DOF_SECT_DIFOHDR)"@ != "(DOF_SECT_DIF)"@) by { assert("(DOF_SECT_DIFOHDR)"@.len() != "(DOF_SECT_DIF)"@.len()); }
    assert("(DOF_SECT_DIFOHDR)"@ != "(DOF_SECT_STRTAB)"@) by { assert("(DOF_SECT_DIFOHDR)"@.len() != "(DOF_SECT_STRTAB)"@.len()); }
    assert("(DOF_SECT_DIFOHDR)"@ != "(DOF_SECT_VARTAB)"@) by { assert("(DOF_SECT_DIFOHDR)"@.len() != "(DOF_SECT_VARTAB)"@.len()); }
    assert("(DOF_SECT_DIFOHDR)"@ != "(DOF_SECT_RELTAB)"@) by { assert("(DOF_SECT_DIFOHDR)"@.len() != "(DOF_SECT_RELTAB)"@.len()); }
    assert("(DOF_SECT_DIFOHDR)"@ != "(DOF_SECT_TYPTAB)"@) by { assert("(DOF_SECT_DIFOHDR)"@.len() != "(DOF_SECT_TYPTAB)"@.len()); }
    assert("(DOF_SECT_DIFOHDR)"@ != "(DOF_SECT_URELHDR)"@) by { assert("(DOF_SECT_DIFOHDR)"@[10] != "(DOF_SECT_URELHDR)"@[10]); }
    assert("(DOF_SECT_DIFOHDR)"@ != "(DOF_SECT_KRELHDR)"@) by { assert("(DOF_SECT_DIFOHDR)"@[10] != "(DOF_SECT_KRELHDR)"@[10]); }
    assert("(DOF_SECT_DIFOHDR)"@ != "(DOF_SECT_OPTDESC)"@) by { assert("(DOF_SECT_DIFOHDR)"@[10] != "(DOF_SECT_OPTDESC)"@[10]); }
    assert("(DOF_SECT_DIFOHDR)"@ != "(DOF_SECT_PROVIDER)"@) by { assert("(DOF_SECT_DIFOHDR)"@.len() != "(DOF_SECT_PROVIDER)"@.len()); }
    assert("(DOF_SECT_DIFOHDR)"@ != "(DOF_SECT_PROBES)"@) by { assert("(DOF_SECT_DIFOHDR)"@.len() != "(DOF_SECT_PROBES)"@.len()); }
    assert("(DOF_SECT_DIFOHDR)"@ != "(DOF_SECT_PRARGS)"@) by { assert("(DOF_SECT_DIFOHDR)"@.len() != "(DOF_SECT_PRARGS)"@.len()); }
    assert("(DOF_SECT_DIFOHDR)"@ != "(DOF_SECT_PROFFS)"@) by { assert("(DOF_SECT_DIFOHDR)"@.len() != "(DOF_SECT_PROFFS)"@.len()); }
    assert("(DOF_SECT_DIFOHDR)"@ != "(DOF_SECT_INTTAB)"@) by { assert("(DOF_SECT_DIFOHDR)"@.len() != "(DOF_SECT_INTTAB)"@.len()); }
    assert("(DOF_SECT_DIFOHDR)"@ != "(DOF_SECT_UTSNAME)"@) by { assert("(DOF_SECT_DIFOHDR)"@[10] != "(DOF_SECT_UTSNAME)"@[10]); }
    assert("(DOF_SECT_DIFOHDR)"@ != "(DOF_SECT_XLTAB)"@) by { assert("(DOF_SECT_DIFOHDR)"@.len() != "(DOF_SECT_XLTAB)"@.len()); }
    assert("(DOF_SECT_DIFOHDR)"@ != "(DOF_SECT_XLMEMBERS)"@) by { assert("(DOF_SECT_DIFOHDR)"@.len() != "(DOF_SECT_XLMEMBERS)"@.len()); }
    assert("(DOF_SECT_DIFOHDR)"@ != "(DOF_SECT_XLIMPORT)"@) by { assert("(DOF_SECT_DIFOHDR)"@.len() != "(DOF_SECT_XLIMPORT)"@.len()); }
    assert("(DOF_SECT_DIFOHDR)"@ != "(DOF_SECT_XLEXPORT)"@) by { assert("(DOF_SECT_DIFOHDR)"@.len() != "(DOF_SECT_XLEXPORT)"@.len()); }
    assert("(DOF_SECT_DIFOHDR)"@ != "(DOF_SECT_PREXPORT)"@) by { assert("(DOF_SECT_DIFOHDR)"@.len() != "(DOF_SECT_PREXPORT)"@.len()); }
    assert("(DOF_SECT_DIFOHDR)"@ != "(DOF_SECT_PRENOFFS)"@) by { assert("(DOF_SECT_DIFOHDR)"@.len() != "(DOF_SECT_PRENOFFS)"@.len()); }
    assert("(DOF_SECT_DIFOHDR)"@ != "(unknown)"@) by { assert("(DOF_SECT_DIFOHDR)"@.len() != "(unknown)"@.len()); }
    assert("(DOF_SECT_DIF)"@ != "(DOF_SECT_STRTAB)"@) by { assert("(DOF_SECT_DIF)"@.len() != "(DOF_SECT_STRTAB)"@.len()); }
    assert("(DOF_SECT_DIF)"@ != "(DOF_SECT_VARTAB)"@) by { assert("(DOF_SECT_DIF)"@.len() != "(DOF_SECT_VARTAB)"@.len()); }
    assert("(DOF_SECT_DIF)"@ != "(DOF_SECT_RELTAB)"@) by { assert("(DOF_SECT_DIF)"@.len() != "(DOF_SECT_RELTAB)"@.len()); }
    assert("(DOF_SECT_DIF)"@ != "(DOF_SECT_TYPTAB)"@) by { assert("(DOF_SECT_DIF)"@.len() != "(DOF_SECT_TYPTAB)"@.len()); }
    assert("(DOF_SECT_DIF)"@ != "(DOF_SECT_URELHDR)"@) by { assert("(DOF_SECT_DIF)"@.len() != "(DOF_SECT_URELHDR)"@.len()); }
    assert("(DOF_SECT_DIF)"@ != "(DOF_SECT_KRELHDR)"@) by { assert("(DOF_SECT_DIF)"@.len() != "(DOF_SECT_KRELHDR)"@.len()); }
    assert("(DOF_SECT_DIF)"@ != "(DOF_SECT_OPTDESC)"@) by { assert("(DOF_SECT_DIF)"@.len() != "(DOF_SECT_OPTDESC)"@.len()); }
    assert("(DOF_SECT_DIF)"@ != "(DOF_SECT_PROVIDER)"@) by { assert("(DOF_SECT_DIF)"@.len() != "(DOF_SECT_PROVIDER)"@.len()); }
    assert("(DOF_SECT_DIF)"@ != "(DOF_SECT_PROBES)"@) by { assert("(DOF_SECT_DIF)"@.len() != "(DOF_SECT_PROBES)"@.len()); }
    assert("(DOF_SECT_DIF)"@ != "(DOF_SECT_PRARGS)"@) by { assert("(DOF_SECT_DIF)"@.len() != "(DOF_SECT_PRARGS)"@.len()); }
    assert("(DOF_SECT_DIF)"@ != "(DOF_SECT_PROFFS)"@) by { assert("(DOF_SECT_DIF)"@.len() != "(DOF_SECT_PROFFS)"@.len()); }
    assert("(DOF_SECT_DIF)"@ != "(DOF_SECT_INTTAB)"@) by { assert("(DOF_SECT_DIF)"@.len() != "(DOF_SECT_INTTAB)"@.len()); }
    assert("(DOF_SECT_DIF)"@ != "(DOF_SECT_UTSNAME)"@) by { assert("(DOF_SECT_DIF)"@.len() != "(DOF_SECT_UTSNAME)"@.len()); }
    assert("(DOF_SECT_DIF)"@ != "(DOF_SECT_XLTAB)"@) by { assert("(DOF_SECT_DIF)"@.len() != "(DOF_SECT_XLTAB)"@.len()); }
    assert("(DOF_SECT_DIF)"@ != "(DOF_SECT_XLMEMBERS)"@) by { assert("(DOF_SECT_DIF)"@.len() != "(DOF_SECT_XLMEMBERS)"@.len()); }
    assert("(DOF_SECT_DIF)"@ != "(DOF_SECT_XLIMPORT)"@) by { assert("(DOF_SECT_DIF)"@.len() != "(DOF_SECT_XLIMPORT)"@.len()); }
    assert("(DOF_SECT_DIF)"@ != "(DOF_SECT_XLEXPORT)"@) by { assert("(DOF_SECT_DIF)"@.len() != "(DOF_SECT_XLEXPORT)"@.len()); }
    assert("(DOF_SECT_DIF)"@ != "(DOF_SECT_PREXPORT)"@) by { assert("(DOF_SECT_DIF)"@.len() != "(DOF_SECT_PREXPORT)"@.len()); }
    assert("(DOF_SECT_DIF)"@ != "(DOF_SECT_PRENOFFS)"@) by { assert("(DOF_SECT_DIF)"@.len() != "(DOF_SECT_PRENOFFS)"@.len()); }
    assert("(DOF_SECT_DIF)"@ != "(unknown)"@) by { assert("(DOF_SECT_DIF)"@.len() != "(unknown)"@.len()); }
    assert("(DOF_SECT_STRTAB)"@ != "(DOF_SECT_VARTAB)"@) by { assert("(DOF_SECT_STRTAB)"@[10] != "(DOF_SECT_VARTAB)"@[10]); }
    assert("(DOF_SECT_STRTAB)"@ != "(DOF_SECT_RELTAB)"@) by { assert("(DOF_SECT_STRTAB)"@[10] != "(DOF_SECT_RELTAB)"@[10]); }
    assert("(DOF_SECT_STRTAB)"@ != "(DOF_SECT_TYPTAB)"@) by { assert("(DOF_SECT_STRTAB)"@[10] != "(DOF_SECT_TYPTAB)"@[10]); }
    assert("(DOF_SECT_STRTAB)"@ != "(DOF_SECT_URELHDR)"@) by { assert("(DOF_SECT_STRTAB)"@.len() != "(DOF_SECT_URELHDR)"@.len()); }
    assert("(DOF_SECT_STRTAB)"@ != "(DOF_SECT_KRELHDR)"@) by { assert("(DOF_SECT_STRTAB)"@.len() != "(DOF_SECT_KRELHDR)"@.len()); }
    assert("(DOF_SECT_STRTAB)"@ != "(DOF_SECT_OPTDESC)"@) by { assert("(DOF_SECT_STRTAB)"@.len() != "(DOF_SECT_OPTDESC)"@.len()); }
    assert("(DOF_SECT_STRTAB)"@ != "(DOF_SECT_PROVIDER)"@) by { assert("(DOF_SECT_STRTAB)"@.len() != "(DOF_SECT_PROVIDER)"@.len()); }
    assert("(DOF_SECT_STRTAB)"@ != "(DOF_SECT_PROBES)"@) by { assert("(DOF_SECT_STRTAB)"@[10] != "(DOF_SECT_PROBES)"@[10]); }
    assert("(DOF_SECT_STRTAB)"@ != "(DOF_SECT_PRARGS)"@) by { assert("(DOF_SECT_STRTAB)"@[10] != "(DOF_SECT_PRARGS)"@[10]); }
    assert("(DOF_SECT_STRTAB)"@ != "(DOF_SECT_PROFFS)"@) by { assert("(DOF_SECT_STRTAB)"@[10] != "(DOF_SECT_PROFFS)"@[10]); }
    assert("(DOF_SECT_STRTAB)"@ != "(DOF_SECT_INTTAB)"@) by { assert("(DOF_SECT_STRTAB)"@[10] != "(DOF_SECT_INTTAB)"@[10]); }
    assert("(DOF_SECT_STRTAB)"@ != "(DOF_SECT_UTSNAME)"@) by { assert("(DOF_SECT_STRTAB)"@.len() != "(DOF_SECT_UTSNAME)"@.len()); }
    assert("(DOF_SECT_STRTAB)"@ != "(DOF_SECT_XLTAB)"@) by { assert("(DOF_SECT_STRTAB)"@.len() != "(DOF_SECT_XLTAB)"@.len()); }
    assert("(DOF_SECT_STRTAB)"@ != "(DOF_SECT_XLMEMBERS)"@) by { assert("(DOF_SECT_STRTAB)"@.len() != "(DOF_SECT_XLMEMBERS)"@.len()); }
    assert("(DOF_SECT_STRTAB)"@ != "(DOF_SECT_XLIMPORT)"@) by { assert("(DOF_SECT_STRTAB)"@.len() != "(DOF_SECT_XLIMPORT)"@.len()); }
    assert("(DOF_SECT_STRTAB)"@ != "(DOF_SECT_XLEXPORT)"@) by { assert("(DOF_SECT_STRTAB)"@.len() != "(DOF_SECT_XLEXPORT)"@.len()); }
    assert("(DOF_SECT_STRTAB)"@ != "(DOF_SECT_PREXPORT)"@) by { assert("(DOF_SECT_STRTAB)"@.len() != "(DOF_SECT_PREXPORT)"@.len()); }
    assert("(DOF_SECT_STRTAB)"@ != "(DOF_SECT_PRENOFFS)"@) by { assert("(DOF_SECT_STRTAB)"@.len() != "(DOF_SECT_PRENOFFS)"@.len()); }
    assert("(DOF_SECT_STRTAB)"@ != "(unknown)"@) by { assert("(DOF_SECT_STRTAB)"@.len() != "(unknown)"@.len()); }
    assert("(DOF_SECT_VARTAB)"@ != "(DOF_SECT_RELTAB)"@) by { assert("(DOF_SECT_VARTAB)"@[10] != "(DOF_SECT_RELTAB)"@[10]); }
    assert("(DOF_SECT_VARTAB)"@ != "(DOF_SECT_TYPTAB)"@) by { assert("(DOF_SECT_VARTAB)"@[10] != "(DOF_SECT_TYPTAB)"@[10]); }
    assert("(DOF_SECT_VARTAB)"@ != "(DOF_SECT_URELHDR)"@) by { assert("(DOF_SECT_VARTAB)"@.len() != "(DOF_SECT_URELHDR)"@.len()); }
    assert("(DOF_SECT_VARTAB)"@ != "(DOF_SECT_KRELHDR)"@) by { assert("(DOF_SECT_VARTAB)"@.len() != "(DOF_SECT_KRELHDR)"@.len()); }
    assert("(DOF_SECT_VARTAB)"@ != "(DOF_SECT_OPTDESC)"@) by { assert("(DOF_SECT_VARTAB)"@.len() != "(DOF_SECT_OPTDESC)"@.len()); }
    assert("(DOF_SECT_VARTAB)"@ != "(DOF_SECT_PROVIDER)"@) by { assert("(DOF_SECT_VARTAB)"@.len() != "(DOF_SECT_PROVIDER)"@.len()); }
    assert("(DOF_SECT_VARTAB)"@ != "(DOF_SECT_PROBES)"@) by { assert("(DOF_SECT_VARTAB)"@[10] != "(DOF_SECT_PROBES)"@[10]); }
    assert("(DOF_SECT_VARTAB)"@ != "(DOF_SECT_PRARGS)"@) by { assert("(DOF_SECT_VARTAB)"@[10] != "(DOF_SECT_PRARGS)"@[10]); }
    assert("(DOF_SECT_VARTAB)"@ != "(DOF_SECT_PROFFS)"@) by { assert("(DOF_SECT_VARTAB)"@[10] != "(DOF_SECT_PROFFS)"@[10]); }
    assert("(DOF_SECT_VARTAB)"@ != "(DOF_SECT_INTTAB)"@) by { assert("(DOF_SECT_VARTAB)"@[10] != "(DOF_SECT_INTTAB)"@[10]); }
    assert("(DOF_SECT_VARTAB)"@ != "(DOF_SECT_UTSNAME)"@) by { assert("(DOF_SECT_VARTAB)"@.len() != "(DOF_SECT_UTSNAME)"@.len()); }
    assert("(DOF_SECT_VARTAB)"@ != "(DOF_SECT_XLTAB)"@) by { assert("(DOF_SECT_VARTAB)"@.len() != "(DOF_SECT_XLTAB)"@.len()); }
    assert("(DOF_SECT_VARTAB)"@ != "(DOF_SECT_XLMEMBERS)"@) by { assert("(DOF_SECT_VARTAB)"@.len() != "(DOF_SECT_XLMEMBERS)"@.len()); }
    assert("(DOF_SECT_VARTAB)"@ != "(DOF_SECT_XLIMPORT)"@) by { assert("(DOF_SECT_VARTAB)"@.len() != "(DOF_SECT_XLIMPORT)"@.len()); }
    assert("(DOF_SECT_VARTAB)"@ != "(DOF_SECT_XLEXPORT)"@) by { assert("(DOF_SECT_VARTAB)"@.len() != "(DOF_SECT_XLEXPORT)"@.len()); }
    assert("(DOF_SECT_VARTAB)"@ != "(DOF_SECT_PREXPORT)"@) by { assert("(DOF_SECT_VARTAB)"@.len() != "(DOF_SECT_PREXPORT)"@.len()); }
    assert("(DOF_SECT_VARTAB)"@ != "(DOF_SECT_PRENOFFS)"@) by { assert("(DOF_SECT_VARTAB)"@.len() != "(DOF_SECT_PRENOFFS)"@.len()); }
    assert("(DOF_SECT_VARTAB)"@ != "(unknown)"@) by { assert("(DOF_SECT_VARTAB)"@.len() != "(unknown)"@.len()); }
    assert("(DOF_SECT_RELTAB)"@ != "(DOF_SECT_TYPTAB)"@) by { assert("(DOF_SECT_RELTAB)"@[10] != "(DOF_SECT_TYPTAB)"@[10]); }
    assert("(DOF_SECT_RELTAB)"@ != "(DOF_SECT_URELHDR)"@) by { assert("(DOF_SECT_RELTAB)"@.len() != "(DOF_SECT_URELHDR)"@.len()); }
    assert("(DOF_SECT_RELTAB)"@ != "(DOF_SECT_KRELHDR)"@) by { assert("(DOF_SECT_RELTAB)"@.len() != "(DOF_SECT_KRELHDR)"@.len()); }
    assert("(DOF_SECT_RELTAB)"@ != "(DOF_SECT_OPTDESC)"@) by { assert("(DOF_SECT_RELTAB)"@.len() != "(DOF_SECT_OPTDESC)"@.len()); }
    assert("(DOF_SECT_RELTAB)"@ != "(DOF_SECT_PROVIDER)"@) by { assert("(DOF_SECT_RELTAB)"@.len() != "(DOF_SECT_PROVIDER)"@.len()); }
    assert("(DOF_SECT_RELTAB)"@ != "(DOF_SECT_PROBES)"@) by { assert("(DOF_SECT_RELTAB)"@[10] != "(DOF_SECT_PROBES)"@[10]); }
    assert("(DOF_SECT_RELTAB)"@ != "(DOF_SECT_PRARGS)"@) by { assert("(DOF_SECT_RELTAB)"@[10] != "(DOF_SECT_PRARGS)"@[10]); }
    assert("(DOF_SECT_RELTAB)"@ != "(DOF_SECT_PROFFS)"@) by { assert("(DOF_SECT_RELTAB)"@[10] != "(DOF_SECT_PROFFS)"@[10]); }
    assert("(DOF_SECT_RELTAB)"@ != "(DOF_SECT_INTTAB)"@) by { assert("(DOF_SECT_RELTAB)"@[10] != "(DOF_SECT_INTTAB)"@[10]); }
    assert("(DOF_SECT_RELTAB)"@ != "(DOF_SECT_UTSNAME)"@) by { assert("(DOF_SECT_RELTAB)"@.len() != "(DOF_SECT_UTSNAME)"@.len()); }
    assert("(DOF_SECT_RELTAB)"@ != "(DOF_SECT_XLTAB)"@) by { assert("(DOF_SECT_RELTAB)"@.len() != "(DOF_SECT_XLTAB)"@.len()); }
    assert("(DOF_SECT_RELTAB)"@ != "(DOF_SECT_XLMEMBERS)"@) by { assert("(DOF_SECT_RELTAB)"@.len() != "(DOF_SECT_XLMEMBERS)"@.len()); }
    assert("(DOF_SECT_RELTAB)"@ != "(DOF_SECT_XLIMPORT)"@) by { assert("(DOF_SECT_RELTAB)"@.len() != "(DOF_SECT_XLIMPORT)"@.len()); }
    assert("(DOF_SECT_RELTAB)"@ != "(DOF_SECT_XLEXPORT)"@) by { assert("(DOF_SECT_RELTAB)"@.len() != "(DOF_SECT_XLEXPORT)"@.len()); }
    assert("(DOF_SECT_RELTAB)"@ != "(DOF_SECT_PREXPORT)"@) by { assert("(DOF_SECT_RELTAB)"@.len() != "(DOF_SECT_PREXPORT)"@.len()); }
    assert("(DOF_SECT_RELTAB)"@ != "(DOF_SECT_PRENOFFS)"@) by { assert("(DOF_SECT_RELTAB)"@.len() != "(DOF_SECT_PRENOFFS)"@.len()); }
    assert("(DOF_SECT_RELTAB)"@ != "(unknown)"@) by { assert("(DOF_SECT_RELTAB)"@.len() != "(unknown)"@.len()); }
    assert("(DOF_SECT_TYPTAB)"@ != "(DOF_SECT_URELHDR)"@) by { assert("(DOF_SECT_TYPTAB)"@.len() != "(DOF_SECT_URELHDR)"@.len()); }
    assert("(DOF_SECT_TYPTAB)"@ != "(DOF_SECT_KRELHDR)"@) by { assert("(DOF_SECT_TYPTAB)"@.len() != "(DOF_SECT_KRELHDR)"@.len()); }
    assert("(DOF_SECT_TYPTAB)"@ != "(DOF_SECT_OPTDESC)"@) by { assert("(DOF_SECT_TYPTAB)"@.len() != "(DOF_SECT_OPTDESC)"@.len()); }
    assert("(DOF_SECT_TYPTAB)"@ != "(DOF_SECT_PROVIDER)"@) by { assert("(DOF_SECT_TYPTAB)"@.len() != "(DOF_SECT_PROVIDER)"@.len()); }
    assert("(DOF_SECT_TYPTAB)"@ != "(DOF_SECT_PROBES)"@) by { assert("(DOF_SECT_TYPTAB)"@[10] != "(DOF_SECT_PROBES)"@[10]); }
    assert("(DOF_SECT_TYPTAB)"@ != "(DOF_SECT_PRARGS)"@) by { assert("(DOF_SECT_TYPTAB)"@[10] != "(DOF_SECT_PRARGS)"@[10]); }
    assert("(DOF_SECT_TYPTAB)"@ != "(DOF_SECT_PROFFS)"@) by { assert("(DOF_SECT_TYPTAB)"@[10] != "(DOF_SECT_PROFFS)"@[10]); }
    assert("(DOF_SECT_TYPTAB)"@ != "(DOF_SECT_INTTAB)"@) by { assert("(DOF_SECT_TYPTAB)"@[10] != "(DOF_SECT_INTTAB)"@[10]); }
    assert("(DOF_SECT_TYPTAB)"@ != "(DOF_SECT_UTSNAME)"@) by { assert("(DOF_SECT_TYPTAB)"@.len() != "(DOF_SECT_UTSNAME)"@.len()); }
    assert("(DOF_SECT_TYPTAB)"@ != "(DOF_SECT_XLTAB)"@) by { assert("(DOF_SECT_TYPTAB)"@.len() != "(DOF_SECT_XLTAB)"@.len()); }
    assert("(DOF_SECT_TYPTAB)"@ != "(DOF_SECT_XLMEMBERS)"@) by { assert("(DOF_SECT_TYPTAB)"@.len() != "(DOF_SECT_XLMEMBERS)"@.len()); }
    assert("(DOF_SECT_TYPTAB)"@ != "(DOF_SECT_XLIMPORT)"@) by { assert("(DOF_SECT_TYPTAB)"@.len() != "(DOF_SECT_XLIMPORT)"@.len()); }
    assert("(DOF_SECT_TYPTAB)"@ != "(DOF_SECT_XLEXPORT)"@) by { assert("(DOF_SECT_TYPTAB)"@.len() != "(DOF_SECT_XLEXPORT)"@.len()); }
    assert("(DOF_SECT_TYPTAB)"@ != "(DOF_SECT_PREXPORT)"@) by { assert("(DOF_SECT_TYPTAB)"@.len() != "(DOF_SECT_PREXPORT)"@.len()); }
    assert("(DOF_SECT_TYPTAB)"@ != "(DOF_SECT_PRENOFFS)"@) by { assert("(DOF_SECT_TYPTAB)"@.len() != "(DOF_SECT_PRENOFFS)"@.len()); }
    assert("(DOF_SECT_TYPTAB)"@ != "(unknown)"@) by { assert("(DOF_SECT_TYPTAB)"@.len() != "(unknown)"@.len()); }
    assert("(DOF_SECT_URELHDR)"@ != "(DOF_SECT_KRELHDR)"@) by { assert("(DOF_SECT_URELHDR)"@[10] != "(DOF_SECT_KRELHDR)"@[10]); }
    assert("(DOF_SECT_URELHDR)"@ != "(DOF_SECT_OPTDESC)"@) by { assert("(DOF_SECT_URELHDR)"@[10] != "(DOF_SECT_OPTDESC)"@[10]); }
    assert("(DOF_SECT_URELHDR)"@ != "(DOF_SECT_PROVIDER)"@) by { assert("(DOF_SECT_URELHDR)"@.len() != "(DOF_SECT_PROVIDER)"@.len()); }
    assert("(DOF_SECT_URELHDR)"@ != "(DOF_SECT_PROBES)"@) by { assert("(DOF_SECT_URELHDR)"@.len() != "(DOF_SECT_PROBES)"@.len()); }
    assert("(DOF_SECT_URELHDR)"@ != "(DOF_SECT_PRARGS)"@) by { assert("(DOF_SECT_URELHDR)"@.len() != "(DOF_SECT_PRARGS)"@.len()); }
    assert("(DOF_SECT_URELHDR)"@ != "(DOF_SECT_PROFFS)"@) by { assert("(DOF_SECT_URELHDR)"@.len() != "(DOF_SECT_PROFFS)"@.len()); }
    assert("(DOF_SECT_URELHDR)"@ != "(DOF_SECT_INTTAB)"@) by { assert("(DOF_SECT_URELHDR)"@.len() != "(DOF_SECT_INTTAB)"@.len()); }
    assert("(DOF_SECT_URELHDR)"@ != "(DOF_SECT_UTSNAME)"@) by { assert("(DOF_SECT_URELHDR)"@[11] != "(DOF_SECT_UTSNAME)"@[11]); }
    assert("(DOF_SECT_URELHDR)"@ != "(DOF_SECT_XLTAB)"@) by { assert("(DOF_SECT_URELHDR)"@.len() != "(DOF_SECT_XLTAB)"@.len()); }
    assert("(DOF_SECT_URELHDR)"@ != "(DOF_SECT_XLMEMBERS)"@) by { assert("(DOF_SECT_URELHDR)"@.len() != "(DOF_SECT_XLMEMBERS)"@.len()); }
    assert("(DOF_SECT_URELHDR)"@ != "(DOF_SECT_XLIMPORT)"@) by { assert("(DOF_SECT_URELHDR)"@.len() != "(DOF_SECT_XLIMPORT)"@.len()); }
    assert("(DOF_SECT_URELHDR)"@ != "(DOF_SECT_XLEXPORT)"@) by { assert("(DOF_SECT_URELHDR)"@.len() != "(DOF_SECT_XLEXPORT)"@.len()); }
    assert("(DOF_SECT_URELHDR)"@ != "(DOF_SECT_PREXPORT)"@) by { assert("(DOF_SECT_URELHDR)"@.len() != "(DOF_SECT_PREXPORT)"@.len()); }
    assert("(DOF_SECT_URELHDR)"@ != "(DOF_SECT_PRENOFFS)"@) by { assert("(DOF_SECT_URELHDR)"@.len() != "(DOF_SECT_PRENOFFS)"@.len()); }
    assert("(DOF_SECT_URELHDR)"@ != "(unknown)"@) by { assert("(DOF_SECT_URELHDR)"@.len() != "(unknown)"@.len()); }
    assert("(DOF_SECT_KRELHDR)"@ != "(DOF_SECT_OPTDESC)"@) by { assert("(DOF_SECT_KRELHDR)"@[10] != "(DOF_SECT_OPTDESC)"@[10]); }
    assert("(DOF_SECT_KRELHDR)"@ != "(DOF_SECT_PROVIDER)"@) by { assert("(DOF_SECT_KRELHDR)"@.len() != "(DOF_SECT_PROVIDER)"@.len()); }
    assert("(DOF_SECT_KRELHDR)"@ != "(DOF_SECT_PROBES)"@) by { assert("(DOF_SECT_KRELHDR)"@.len() != "(DOF_SECT_PROBES)"@.len()); }
    assert("(DOF_SECT_KRELHDR)"@ != "(DOF_SECT_PRARGS)"@) by { assert("(DOF_SECT_KRELHDR)"@.len() != "(DOF_SECT_PRARGS)"@.len()); }
    assert("(DOF_SECT_KRELHDR)"@ != "(DOF_SECT_PROFFS)"@) by { assert("(DOF_SECT_KRELHDR)"@.len() != "(DOF_SECT_PROFFS)"@.len()); }
    assert("(DOF_SECT_KRELHDR)"@ != "(DOF_SECT_INTTAB)"@) by { assert("(DOF_SECT_KRELHDR)"@.len() != "(DOF_SECT_INTTAB)"@.len()); }
    assert("(DOF_SECT_KRELHDR)"@ != "(DOF_SECT_UTSNAME)"@) by { assert("(DOF_SECT_KRELHDR)"@[10] != "(DOF_SECT_UTSNAME)"@[10]); }
    assert("(DOF_SECT_KRELHDR)"@ != "(DOF_SECT_XLTAB)"@) by { assert("(DOF_SECT_KRELHDR)"@.len() != "(DOF_SECT_XLTAB)"@.len()); }
    assert("(DOF_SECT_KRELHDR)"@ != "(DOF_SECT_XLMEMBERS)"@) by { assert("(DOF_SECT_KRELHDR)"@.len() != "(DOF_SECT_XLMEMBERS)"@.len()); }
    assert("(DOF_SECT_KRELHDR)"@ != "(DOF_SECT_XLIMPORT)"@) by { assert("(DOF_SECT_KRELHDR)"@.len() != "(DOF_SECT_XLIMPORT)"@.len()); }
    assert("(DOF_SECT_KRELHDR)"@ != "(DOF_SECT_XLEXPORT)"@) by { assert("(DOF_SECT_KRELHDR)"@.len() != "(DOF_SECT_XLEXPORT)"@.len()); }
    assert("(DOF_SECT_KRELHDR)"@ != "(DOF_SECT_PREXPORT)"@) by { assert("(DOF_SECT_KRELHDR)"@.len() != "(DOF_SECT_PREXPORT)"@.len()); }
    assert("(DOF_SECT_KRELHDR)"@ != "(DOF_SECT_PRENOFFS)"@) by { assert("(DOF_SECT_KRELHDR)"@.len() != "(DOF_SECT_PRENOFFS)"@.len()); }
    assert("(DOF_SECT_KRELHDR)"@ != "(unknown)"@) by { assert("(DOF_SECT_KRELHDR)"@.len() != "(unknown)"@.len()); }
    assert("(DOF_SECT_OPTDESC)"@ != "(DOF_SECT_PROVIDER)"@) by { assert("(DOF_SECT_OPTDESC)"@.len() != "(DOF_SECT_PROVIDER)"@.len()); }
    assert("(DOF_SECT_OPTDESC)"@ != "(DOF_SECT_PROBES)"@) by { assert("(DOF_SECT_OPTDESC)"@.len() != "(DOF_SECT_PROBES)"@.len()); }
    assert("(DOF_SECT_OPTDESC)"@ != "(DOF_SECT_PRARGS)"@) by { assert("(DOF_SECT_OPTDESC)"@.len() != "(DOF_SECT_PRARGS)"@.len()); }
    assert("(DOF_SECT_OPTDESC)"@ != "(DOF_SECT_PROFFS)"@) by { assert("(DOF_SECT_OPTDESC)"@.len() != "(DOF_SECT_PROFFS)"@.len()); }
    assert("(DOF_SECT_OPTDESC)"@ != "(DOF_SECT_INTTAB)"@) by { assert("(DOF_SECT_OPTDESC)"@.len() != "(DOF_SECT_INTTAB)"@.len()); }
    assert("(DOF_SECT_OPTDESC)"@ != "(DOF_SECT_UTSNAME)"@) by { assert("(DOF_SECT_OPTDESC)"@[10] != "(DOF_SECT_UTSNAME)"@[10]); }
    assert("(DOF_SECT_OPTDESC)"@ != "(DOF_SECT_XLTAB)"@) by { assert("(DOF_SECT_OPTDESC)"@.len() != "(DOF_SECT_XLTAB)"@.len()); }
    assert("(DOF_SECT_OPTDESC)"@ != "(DOF_SECT_XLMEMBERS)"@) by { assert("(DOF_SECT_OPTDESC)"@.len() != "(DOF_SECT_XLMEMBERS)"@.len()); }
    assert("(DOF_SECT_OPTDESC)"@ != "(DOF_SECT_XLIMPORT)"@) by { assert("(DOF_SECT_OPTDESC)"@.len() != "(DOF_SECT_XLIMPORT)"@.len()); }
    assert("(DOF_SECT_OPTDESC)"@ != "(DOF_SECT_XLEXPORT)"@) by { assert("(DOF_SECT_OPTDESC)"@.len() != "(DOF_SECT_XLEXPORT)"@.len()); }
    assert("(DOF_SECT_OPTDESC)"@ != "(DOF_SECT_PREXPORT)"@) by { assert("(DOF_SECT_OPTDESC)"@.len() != "(DOF_SECT_PREXPORT)"@.len()); }
    assert("(DOF_SECT_OPTDESC)"@ != "(DOF_SECT_PRENOFFS)"@) by { assert("(DOF_SECT_OPTDESC)"@.len() != "(DOF_SECT_PRENOFFS)"@.len()); }
    assert("(DOF_SECT_OPTDESC)"@ != "(unknown)"@) by { assert("(DOF_SECT_OPTDESC)"@.len() != "(unknown)"@.len()); }
    assert("(DOF_SECT_PROVIDER)"@ != "(DOF_SECT_PROBES)"@) by { assert("(DOF_SECT_PROVIDER)"@.len() != "(DOF_SECT_PROBES)"@.len()); }
    assert("(DOF_SECT_PROVIDER)"@ != "(DOF_SECT_PRARGS)"@) by { assert("(DOF_SECT_PROVIDER)"@.len() != "(DOF_SECT_PRARGS)"@.len()); }
    assert("(DOF_SECT_PROVIDER)"@ != "(DOF_SECT_PROFFS)"@) by { assert("(DOF_SECT_PROVIDER)"@.len() != "(DOF_SECT_PROFFS)"@.len()); }
    assert("(DOF_SECT_PROVIDER)"@ != "(DOF_SECT_INTTAB)"@) by { assert("(DOF_SECT_PROVIDER)"@.len() != "(DOF_SECT_INTTAB)"@.len()); }
    assert("(DOF_SECT_PROVIDER)"@ != "(DOF_SECT_UTSNAME)"@) by { assert("(DOF_SECT_PROVIDER)"@.len() != "(DOF_SECT_UTSNAME)"@.len()); }
    assert("(DOF_SECT_PROVIDER)"@ != "(DOF_SECT_XLTAB)"@) by { assert("(DOF_SECT_PROVIDER)"@.len() != "(DOF_SECT_XLTAB)"@.len()); }
    assert("(DOF_SECT_PROVIDER)"@ != "(DOF_SECT_XLMEMBERS)"@) by { assert("(DOF_SECT_PROVIDER)"@.len() != "(DOF_SECT_XLMEMBERS)"@.len()); }
    assert("(DOF_SECT_PROVIDER)"@ != "(DOF_SECT_XLIMPORT)"@) by { assert("(DOF_SECT_PROVIDER)"@[10] != "(DOF_SECT_XLIMPORT)"@[10]); }
    assert("(DOF_SECT_PROVIDER)"@ != "(DOF_SECT_XLEXPORT)"@) by { assert("(DOF_SECT_PROVIDER)"@[10] != "(DOF_SECT_XLEXPORT)"@[10]); }
    assert("(DOF_SECT_PROVIDER)"@ != "(DOF_SECT_PREXPORT)"@) by { assert("(DOF_SECT_PROVIDER)"@[12] != "(DOF_SECT_PREXPORT)"@[12]); }
    assert("(DOF_SECT_PROVIDER)"@ != "(DOF_SECT_PRENOFFS)"@) by { assert("(DOF_SECT_PROVIDER)"@[12] != "(DOF_SECT_PRENOFFS)"@[12]); }
    assert("(DOF_SECT_PROVIDER)"@ != "(unknown)"@) by { assert("(DOF_SECT_PROVIDER)"@.len() != "(unknown)"@.len()); }
    assert("(DOF_SECT_PROBES)"@ != "(DOF_SECT_PRARGS)"@) by { assert("(DOF_SECT_PROBES)"@[12] != "(DOF_SECT_PRARGS)"@[12]); }
    assert("(DOF_SECT_PROBES)"@ != "(DOF_SECT_PROFFS)"@) by { assert("(DOF_SECT_PROBES)"@[13] != "(DOF_SECT_PROFFS)"@[13]); }
    assert("(DOF_SECT_PROBES)"@ != "(DOF_SECT_INTTAB)"@) by { assert("(DOF_SECT_PROBES)"@[10] != "(DOF_SECT_INTTAB)"@[10]); }
    assert("(DOF_SECT_PROBES)"@ != "(DOF_SECT_UTSNAME)"@) by { assert("(DOF_SECT_PROBES)"@.len() != "(DOF_SECT_UTSNAME)"@.len()); }
    assert("(DOF_SECT_PROBES)"@ != "(DOF_SECT_XLTAB)"@) by { assert("(DOF_SECT_PROBES)"@.len() != "(DOF_SECT_XLTAB)"@.len()); }
    assert("(DOF_SECT_PROBES)"@ != "(DOF_SECT_XLMEMBERS)"@) by { assert("(DOF_SECT_PROBES)"@.len() != "(DOF_SECT_XLMEMBERS)"@.len()); }
    assert("(DOF_SECT_PROBES)"@ != "(DOF_SECT_XLIMPORT)"@) by { assert("(DOF_SECT_PROBES)"@.len() != "(DOF_SECT_XLIMPORT)"@.len()); }
    assert("(DOF_SECT_PROBES)"@ != "(DOF_SECT_XLEXPORT)"@) by { assert("(DOF_SECT_PROBES)"@.len() != "(DOF_SECT_XLEXPORT)"@.len()); }
    assert("(DOF_SECT_PROBES)"@ != "(DOF_SECT_PREXPORT)"@) by { assert("(DOF_SECT_PROBES)"@.len() != "(DOF_SECT_PREXPORT)"@.len()); }
    assert("(DOF_SECT_PROBES)"@ != "(DOF_SECT_PRENOFFS)"@) by { assert("(DOF_SECT_PROBES)"@.len() != "(DOF_SECT_PRENOFFS)"@.len()); }
    assert("(DOF_SECT_PROBES)"@ != "(unknown)"@) by { assert("(DOF_SECT_PROBES)"@.len() != "(unknown)"@.len()); }
    assert("(DOF_SECT_PRARGS)"@ != "(DOF_SECT_PROFFS)"@) by { assert("(DOF_SECT_PRARGS)"@[12] != "(DOF_SECT_PROFFS)"@[12]); }
    assert("(DOF_SECT_PRARGS)"@ != "(DOF_SECT_INTTAB)"@) by { assert("(DOF_SECT_PRARGS)"@[10] != "(DOF_SECT_INTTAB)"@[10]); }
    assert("(DOF_SECT_PRARGS)"@ != "(DOF_SECT_UTSNAME)"@) by { assert("(DOF_SECT_PRARGS)"@.len() != "(DOF_SECT_UTSNAME)"@.len()); }
    assert("(DOF_SECT_PRARGS)"@ != "(DOF_SECT_XLTAB)"@) by { assert("(DOF_SECT_PRARGS)"@.len() != "(DOF_SECT_XLTAB)"@.len()); }
    assert("(DOF_SECT_PRARGS)"@ != "(DOF_SECT_XLMEMBERS)"@) by { assert("(DOF_SECT_PRARGS)"@.len() != "(DOF_SECT_XLMEMBERS)"@.len()); }
    assert("(DOF_SECT_PRARGS)"@ != "(DOF_SECT_XLIMPORT)"@) by { assert("(DOF_SECT_PRARGS)"@.len() != "(DOF_SECT_XLIMPORT)"@.len()); }
    assert("(DOF_SECT_PRARGS)"@ != "(DOF_SECT_XLEXPORT)"@) by { assert("(DOF_SECT_PRARGS)"@.len() != "(DOF_SECT_XLEXPORT)"@.len()); }
    assert("(DOF_SECT_PRARGS)"@ != "(DOF_SECT_PREXPORT)"@) by { assert("(DOF_SECT_PRARGS)"@.len() != "(DOF_SECT_PREXPORT)"@.len()); }
    assert("(DOF_SECT_PRARGS)"@ != "(DOF_SECT_PRENOFFS)"@) by { assert("(DOF_SECT_PRARGS)"@.len() != "(DOF_SECT_PRENOFFS)"@.len()); }
    assert("(DOF_SECT_PRARGS)"@ != "(unknown)"@) by { assert("(DOF_SECT_PRARGS)"@.len() != "(unknown)"@.len()); }
    assert("(DOF_SECT_PROFFS)"@ != "(DOF_SECT_INTTAB)"@) by { assert("(DOF_SECT_PROFFS)"@[10] != "(DOF_SECT_INTTAB)"@[10]); }
    assert("(DOF_SECT_PROFFS)"@ != "(DOF_SECT_UTSNAME)"@) by { assert("(DOF_SECT_PROFFS)"@.len() != "(DOF_SECT_UTSNAME)"@.len()); }
    assert("(DOF_SECT_PROFFS)"@ != "(DOF_SECT_XLTAB)"@) by { assert("(DOF_SECT_PROFFS)"@.len() != "(DOF_SECT_XLTAB)"@.len()); }
    assert("(DOF_SECT_PROFFS)"@ != "(DOF_SECT_XLMEMBERS)"@) by { assert("(DOF_SECT_PROFFS)"@.len() != "(DOF_SECT_XLMEMBERS)"@.len()); }
    assert("(DOF_SECT_PROFFS)"@ != "(DOF_SECT_XLIMPORT)"@) by { assert("(DOF_SECT_PROFFS)"@.len() != "(DOF_SECT_XLIMPORT)"@.len()); }
    assert("(DOF_SECT_PROFFS)"@ != "(DOF_SECT_XLEXPORT)"@) by { assert("(DOF_SECT_PROFFS)"@.len() != "(DOF_SECT_XLEXPORT)"@.len()); }
    assert("(DOF_SECT_PROFFS)"@ != "(DOF_SECT_PREXPORT)"@) by { assert("(DOF_SECT_PROFFS)"@.len() != "(DOF_SECT_PREXPORT)"@.len()); }
    assert("(DOF_SECT_PROFFS)"@ != "(DOF_SECT_PRENOFFS)"@) by { assert("(DOF_SECT_PROFFS)"@.len() != "(DOF_SECT_PRENOFFS)"@.len()); }
    assert("(DOF_SECT_PROFFS)"@ != "(unknown)"@) by { assert("(DOF_SECT_PROFFS)"@.len() != "(unknown)"@.len()); }
    assert("(DOF_SECT_INTTAB)"@ != "(DOF_SECT_UTSNAME)"@) by { assert("(DOF_SECT_INTTAB)"@.len() != "(DOF_SECT_UTSNAME)"@.len()); }
    assert("(DOF_SECT_INTTAB)"@ != "(DOF_SECT_XLTAB)"@) by { assert("(DOF_SECT_INTTAB)"@.len() != "(DOF_SECT_XLTAB)"@.len()); }
    assert("(DOF_SECT_INTTAB)"@ != "(DOF_SECT_XLMEMBERS)"@) by { assert("(DOF_SECT_INTTAB)"@.len() != "(DOF_SECT_XLMEMBERS)"@.len()); }
    assert("(DOF_SECT_INTTAB)"@ != "(DOF_SECT_XLIMPORT)"@) by { assert("(DOF_SECT_INTTAB)"@.len() != "(DOF_SECT_XLIMPORT)"@.len()); }
    assert("(DOF_SECT_INTTAB)"@ != "(DOF_SECT_XLEXPORT)"@) by { assert("(DOF_SECT_INTTAB)"@.len() != "(DOF_SECT_XLEXPORT)"@.len()); }
    assert("(DOF_SECT_INTTAB)"@ != "(DOF_SECT_PREXPORT)"@) by { assert("(DOF_SECT_INTTAB)"@.len() != "(DOF_SECT_PREXPORT)"@.len()); }
    assert("(DOF_SECT_INTTAB)"@ != "(DOF_SECT_PRENOFFS)"@) by { assert("(DOF_SECT_INTTAB)"@.len() != "(DOF_SECT_PRENOFFS)"@.len()); }
    assert("(DOF_SECT_INTTAB)"@ != "(unknown)"@) by { assert("(DOF_SECT_INTTAB)"@.len() != "(unknown)"@.len()); }
    assert("(DOF_SECT_UTSNAME)"@ != "(DOF_SECT_XLTAB)"@) by { assert("(DOF_SECT_UTSNAME)"@.len() != "(DOF_SECT_XLTAB)"@.len()); }
    assert("(DOF_SECT_UTSNAME)"@ != "(DOF_SECT_XLMEMBERS)"@) by { assert("(DOF_SECT_UTSNAME)"@.len() != "(DOF_SECT_XLMEMBERS)"@.len()); }
    assert("(DOF_SECT_UTSNAME)"@ != "(DOF_SECT_XLIMPORT)"@) by { assert("(DOF_SECT_UTSNAME)"@.len() != "(DOF_SECT_XLIMPORT)"@.len()); }
    assert("(DOF_SECT_UTSNAME)"@ != "(DOF_SECT_XLEXPORT)"@) by { assert("(DOF_SECT_UTSNAME)"@.len() != "(DOF_SECT_XLEXPORT)"@.len()); }
    assert("(DOF_SECT_UTSNAME)"@ != "(DOF_SECT_PREXPORT)"@) by { assert("(DOF_SECT_UTSNAME)"@.len() != "(DOF_SECT_PREXPORT)"@.len()); }
    assert("(DOF_SECT_UTSNAME)"@ != "(DOF_SECT_PRENOFFS)"@) by { assert("(DOF_SECT_UTSNAME)"@.len() != "(DOF_SECT_PRENOFFS)"@.len()); }
    assert("(DOF_SECT_UTSNAME)"@ != "(unknown)"@) by { assert("(DOF_SECT_UTSNAME)"@.len() != "(unknown)"@.len()); }
    assert("(DOF_SECT_XLTAB)"@ != "(DOF_SECT_XLMEMBERS)"@) by { assert("(DOF_SECT_XLTAB)"@.len() != "(DOF_SECT_XLMEMBERS)"@.len()); }
    assert("(DOF_SECT_XLTAB)"@ != "(DOF_SECT_XLIMPORT)"@) by { assert("(DOF_SECT_XLTAB)"@.len() != "(DOF_SECT_XLIMPORT)"@.len()); }
    assert("(DOF_SECT_XLTAB)"@ != "(DOF_SECT_XLEXPORT)"@) by { assert("(DOF_SECT_XLTAB)"@.len() != "(DOF_SECT_XLEXPORT)"@.len()); }
    assert("(DOF_SECT_XLTAB)"@ != "(DOF_SECT_PREXPORT)"@) by { assert("(DOF_SECT_XLTAB)"@.len() != "(DOF_SECT_PREXPORT)"@.len()); }
    assert("(DOF_SECT_XLTAB)"@ != "(DOF_SECT_PRENOFFS)"@) by { assert("(DOF_SECT_XLTAB)"@.len() != "(DOF_SECT_PRENOFFS)"@.len()); }
    assert("(DOF_SECT_XLTAB)"@ != "(unknown)"@) by { assert("(DOF_SECT_XLTAB)"@.len() != "(unknown)"@.len()); }
    assert("(DOF_SECT_XLMEMBERS)"@ != "(DOF_SECT_XLIMPORT)"@) by { assert("(DOF_SECT_XLMEMBERS)"@.len() != "(DOF_SECT_XLIMPORT)"@.len()); }
    assert("(DOF_SECT_XLMEMBERS)"@ != "(DOF_SECT_XLEXPORT)"@) by { assert("(DOF_SECT_XLMEMBERS)"@.len() != "(DOF_SECT_XLEXPORT)"@.len()); }
    assert("(DOF_SECT_XLMEMBERS)"@ != "(DOF_SECT_PREXPORT)"@) by { assert("(DOF_SECT_XLMEMBERS)"@.len() != "(DOF_SECT_PREXPORT)"@.len()); }
    assert("(DOF_SECT_XLMEMBERS)"@ != "(DOF_SECT_PRENOFFS)"@) by { assert("(DOF_SECT_XLMEMBERS)"@.len() != "(DOF_SECT_PRENOFFS)"@.len()); }
    assert("(DOF_SECT_XLMEMBERS)"@ != "(unknown)"@) by { assert("(DOF_SECT_XLMEMBERS)"@.len() != "(unknown)"@.len()); }
    assert("(DOF_SECT_XLIMPORT)"@ != "(DOF_SECT_XLEXPORT)"@) by { assert("(DOF_SECT_XLIMPORT)"@[12] != "(DOF_SECT_XLEXPORT)"@[12]); }
    assert("(DOF_SECT_XLIMPORT)"@ != "(DOF_SECT_PREXPORT)"@) by { assert("(DOF_SECT_XLIMPORT)"@[10] != "(DOF_SECT_PREXPORT)"@[10]); }
    assert("(DOF_SECT_XLIMPORT)"@ != "(DOF_SECT_PRENOFFS)"@) by { assert("(DOF_SECT_XLIMPORT)"@[10] != "(DOF_SECT_PRENOFFS)"@[10]); }
    assert("(DOF_SECT_XLIMPORT)"@ != "(unknown)"@) by { assert("(DOF_SECT_XLIMPORT)"@.len() != "(unknown)"@.len()); }
    assert("(DOF_SECT_XLEXPORT)"@ != "(DOF_SECT_PREXPORT)"@) by { assert("(DOF_SECT_XLEXPORT)"@[10] != "(DOF_SECT_PREXPORT)"@[10]); }
    assert("(DOF_SECT_XLEXPORT)"@ != "(DOF_SECT_PRENOFFS)"@) by { assert("(DOF_SECT_XLEXPORT)"@[10] != "(DOF_SECT_PRENOFFS)"@[10]); }
    assert("(DOF_SECT_XLEXPORT)"@ != "(unknown)"@) by { assert("(DOF_SECT_XLEXPORT)"@.len() != "(unknown)"@.len()); }
    assert("(DOF_SECT_PREXPORT)"@ != "(DOF_SECT_PRENOFFS)"@) by { assert("(DOF_SECT_PREXPORT)"@[13] != "(DOF_SECT_PRENOFFS)"@[13]); }
    assert("(DOF_SECT_PREXPORT)"@ != "(unknown)"@) by { assert("(DOF_SECT_PREXPORT)"@.len() != "(unknown)"@.len()); }
    assert("(DOF_SECT_PRENOFFS)"@ != "(unknown)"@) by { assert("(DOF_SECT_PRENOFFS)"@.len() != "(unknown)"@.len()); }
    assert("(DOF_SECT_NONE)"@.subrange(0, 10) =~= "(DOF_SECT_"@);
    assert("(DOF_SECT_COMMENTS)"@.subrange(0, 10) =~= "(DOF_SECT_"@);
    assert("(DOF_SECT_SOURCE)"@.subrange(0, 10) =~= "(DOF_SECT_"@);
    assert("(DOF_SECT_ECBDESC)"@.subrange(0, 10) =~= "(DOF_SECT_"@);
    assert("(DOF_SECT_PROBEDESC)"@.subrange(0, 10) =~= "(DOF_SECT_"@);
    assert("(DOF_SECT_ACTDESC)"@.subrange(0, 10) =~= "(DOF_SECT_"@);
    assert("(DOF_SECT_DIFOHDR)"@.subrange(0, 10) =~= "(DOF_SECT_"@);
    assert("(DOF_SECT_DIF)"@.subrange(0, 10) =~= "(DOF_SECT_"@);
    assert("(DOF_SECT_STRTAB)"@.subrange(0, 10) =~= "(DOF_SECT_"@);
    assert("(DOF_SECT_VARTAB)"@.subrange(0, 10) =~= "(DOF_SECT_"@);
    assert("(DOF_SECT_RELTAB)"@.subrange(0, 10) =~= "(DOF_SECT_"@);
    assert("(DOF_SECT_TYPTAB)"@.subrange(0, 10) =~= "(DOF_SECT_"@);
    assert("(DOF_SECT_URELHDR)"@.subrange(0, 10) =~= "(DOF_SECT_"@);
    assert("(DOF_SECT_KRELHDR)"@.subrange(0, 10) =~= "(DOF_SECT_"@);
    assert("(DOF_SECT_OPTDESC)"@.subrange(0, 10) =~= "(DOF_SECT_"@);
    assert("(DOF_SECT_PROVIDER)"@.subrange(0, 10) =~= "(DOF_SECT_"@);
    assert("(DOF_SECT_PROBES)"@.subrange(0, 10) =~= "(DOF_SECT_"@);
    assert("(DOF_SECT_PRARGS)"@.subrange(0, 10) =~= "(DOF_SECT_"@);
    assert("(DOF_SECT_PROFFS)"@.subrange(0, 10) =~= "(DOF_SECT_"@);
    assert("(DOF_SECT_INTTAB)"@.subrange(0, 10) =~= "(DOF_SECT_"@);
    assert("(DOF_SECT_UTSNAME)"@.subrange(0, 10) =~= "(DOF_SECT_"@);
    assert("(DOF_SECT_XLTAB)"@.subrange(0, 10) =~= "(DOF_SECT_"@);
    assert("(DOF_SECT_XLMEMBERS)"@.subrange(0, 10) =~= "(DOF_SECT_"@);
    assert("(DOF_SECT_XLIMPORT)"@.subrange(0, 10) =~= "(DOF_SECT_"@);
    assert("(DOF_SECT_XLEXPORT)"@.subrange(0, 10) =~= "(DOF_SECT_"@);
    assert("(DOF_SECT_PREXPORT)"@.subrange(0, 10) =~= "(DOF_SECT_"@);
    assert("(DOF_SECT_PRENOFFS)"@.subrange(0, 10) =~= "(DOF_SECT_"@);
}

/// Each known section type has a name of its own: two different section
/// types below `DOF_SECT_PRENOFFS` or equal to it are printed with different
/// names, each of the form `(DOF_SECT_...)`, and never as unknown.
pub proof fn lemma_section_type_names_distinct(a: u32, b: u32)
    requires
        a <= DOF_SECT_PRENOFFS,
        b <= DOF_SECT_PRENOFFS,
        a != b,
    ensures
        section_type_name(a) != section_type_name(b),
        section_type_name(a) != "(unknown)"@,
        section_type_name(a).subrange(0, 10) == "(DOF_SECT_"@,
        section_type_name(a).last() == ')',
{
    lemma_section_names_differ();
}

fn section_type_str(t: u32) -> (r: &'static str)
    ensures
        r@ == section_type_name(t),
{
    if t == DOF_SECT_NONE {
        "(DOF_SECT_NONE)"
    } else if t == DOF_SECT_COMMENTS {
        "(DOF_SECT_COMMENTS)"
    } else if t == DOF_SECT_SOURCE {
        "(DOF_SECT_SOURCE)"
    } else if t == DOF_SECT_ECBDESC {
        "(DOF_SECT_ECBDESC)"
    } else if t == DOF_SECT_PROBEDESC {
        "(DOF_SECT_PROBEDESC)"
    } else if t == DOF_SECT_ACTDESC {
        "(DOF_SECT_ACTDESC)"
    } else if t == DOF_SECT_DIFOHDR {
        "(DOF_SECT_DIFOHDR)"
    } else if t == DOF_SECT_DIF {
        "(DOF_SECT_DIF)"
    } else if t == DOF_SECT_STRTAB {
        "(DOF_SECT_STRTAB)"
    } else if t == DOF_SECT_VARTAB {
        "(DOF_SECT_VARTAB)"
    } else if t == DOF_SECT_RELTAB {
        "(DOF_SECT_RELTAB)"
    } else if t == DOF_SECT_TYPTAB {
        "(DOF_SECT_TYPTAB)"
    } else if t == DOF_SECT_URELHDR {
        "(DOF_SECT_URELHDR)"
    } else if t == DOF_SECT_KRELHDR {
        "(DOF_SECT_KRELHDR)"
    } else if t == DOF_SECT_OPTDESC {
        "(DOF_SECT_OPTDESC)"
    } else if t == DOF_SECT_PROVIDER {
        "(DOF_SECT_PROVIDER)"
    } else if t == DOF_SECT_PROBES {
        "(DOF_SECT_PROBES)"
    } else if t == DOF_SECT_PRARGS {
        "(DOF_SECT_PRARGS)"
    } else if t == DOF_SECT_PROFFS {
        "(DOF_SECT_PROFFS)"
    } else if t == DOF_SECT_INTTAB {
        "(DOF_SECT_INTTAB)"
    } else if t == DOF_SECT_UTSNAME {
        "(DOF_SECT_UTSNAME)"
    } else if t == DOF_SECT_XLTAB {
        "(DOF_SECT_XLTAB)"
    } else if t == DOF_SECT_XLMEMBERS {
        "(DOF_SECT_XLMEMBERS)"
    } else if t == DOF_SECT_XLIMPORT {
        "(DOF_SECT_XLIMPORT)"
    } else if t == DOF_SECT_XLEXPORT {
        "(DOF_SECT_XLEXPORT)"
    } else if t == DOF_SECT_PREXPORT {
        "(DOF_SECT_PREXPORT)"
    } else if t == DOF_SECT_PRENOFFS {
        "(DOF_SECT_PRENOFFS)"
    } else {
        "(unknown)"
    }
}

/// A line `label` and the value, in decimal.
pub open spec fn value_line(label: Seq<char>, value: nat) -> Seq<char> {
    label + decimal(value) + seq!['\n']
}

/// The text of section header `sec`, the section at `index`.
pub open spec fn dof_sec_text(sec: dof_sec, index: nat) -> Seq<char> {
    "DOF section "@ + decimal(index) + " ("@ + hex(index) + ")\n"@ + "  dofs_type:    "@ + decimal(
        sec.dofs_type as nat,
    ) + " "@ + section_type_name(sec.dofs_type) + "\n"@ + value_line(
        "  dofs_align:   "@,
        sec.dofs_align as nat,
    ) + value_line("  dofs_flags:   "@, sec.dofs_flags as nat) + value_line(
        "  dofs_entsize: "@,
        sec.dofs_entsize as nat,
    ) + value_line("  dofs_offset:  "@, sec.dofs_offset as nat) + value_line(
        "  dofs_size:    "@,
        sec.dofs_size as nat,
    )
}

fn push_value_line(out: &mut String, label: &str, value: u64)
    ensures
        final(out)@ == old(out)@ + value_line(label@, value as nat),
{
    proof {
        reveal_strlit("\n");
    }
    out.append(label);
    let d = decimal_string(value);
    out.append(d.as_str());
    out.append("\n");
}

/// Format a DOF section header, the section at `index`, as text.
pub fn fmt_dof_sec(sec: &dof_sec, index: usize) -> (r: String)
    ensures
        r@ == dof_sec_text(*sec, index as nat),
{
    let mut ret = String::new();
    ret.append("DOF section ");
    let d = decimal_string(index as u64);
    ret.append(d.as_str());
    ret.append(" (");
    let h = hex_string(index as u64);
    ret.append(h.as_str());
    ret.append(")\n");
    ret.append("  dofs_type:    ");
    let t = decimal_string(sec.dofs_type as u64);
    ret.append(t.as_str());
    ret.append(" ");
    ret.append(section_type_str(sec.dofs_type));
    ret.append("\n");
    push_value_line(&mut ret, "  dofs_align:   ", sec.dofs_align as u64);
    push_value_line(&mut ret, "  dofs_flags:   ", sec.dofs_flags as u64);
    push_value_line(&mut ret, "  dofs_entsize: ", sec.dofs_entsize as u64);
    push_value_line(&mut ret, "  dofs_offset:  ", sec.dofs_offset);
    push_value_line(&mut ret, "  dofs_size:    ", sec.dofs_size);
    proof {
        assert(ret@ =~= dof_sec_text(*sec, index as nat));
    }
    ret
}

// ---------------------------------------------------------------------------
// The data of a section
// ---------------------------------------------------------------------------

/// `pretty_hex::pretty_hex`: the multi-line hex dump of `data`, with
/// addresses, hex digits and ASCII, in the crate's default layout.
pub uninterp spec fn pretty_hex_text(data: Seq<u8>) -> Seq<char>;

/// `pretty_hex::pretty_hex` on `data`: its result is `pretty_hex_text` of
/// the bytes, which depends on the bytes alone.
#[verifier::external_body]
fn hex_dump(data: &[u8]) -> (r: String)
    ensures
        r@ == pretty_hex_text(data@),
{
    pretty_hex::pretty_hex(&data)
}

/// One field of a structure as its alternate debug form in hex shows it.
pub open spec fn field_line(name: Seq<char>, value: nat) -> Seq<char> {
    "    "@ + name + ": "@ + hex(value) + ",\n"@
}

pub open spec fn probe_text(p: dof_probe) -> Seq<char> {
    "dof_probe {\n"@ + field_line("dofpr_addr"@, p.dofpr_addr as nat) + field_line(
        "dofpr_func"@,
        p.dofpr_func as nat,
    ) + field_line("dofpr_name"@, p.dofpr_name as nat) + field_line(
        "dofpr_nargv"@,
        p.dofpr_nargv as nat,
    ) + field_line("dofpr_xargv"@, p.dofpr_xargv as nat) + field_line(
        "dofpr_argidx"@,
        p.dofpr_argidx as nat,
    ) + field_line("dofpr_offidx"@, p.dofpr_offidx as nat) + field_line(
        "dofpr_nargc"@,
        p.dofpr_nargc as nat,
    ) + field_line("dofpr_xargc"@, p.dofpr_xargc as nat) + field_line(
        "dofpr_noffs"@,
        p.dofpr_noffs as nat,
    ) + field_line("dofpr_enoffidx"@, p.dofpr_enoffidx as nat) + field_line(
        "dofpr_nenoffs"@,
        p.dofpr_nenoffs as nat,
    ) + field_line("dofpr_pad1"@, p.dofpr_pad1 as nat) + field_line(
        "dofpr_pad2"@,
        p.dofpr_pad2 as nat,
    ) + "}"@
}

pub open spec fn provider_text(p: dof_provider) -> Seq<char> {
    "dof_provider {\n"@ + field_line("dofpv_strtab"@, p.dofpv_strtab as nat) + field_line(
        "dofpv_probes"@,
        p.dofpv_probes as nat,
    ) + field_line("dofpv_prargs"@, p.dofpv_prargs as nat) + field_line(
        "dofpv_proffs"@,
        p.dofpv_proffs as nat,
    ) + field_line("dofpv_name"@, p.dofpv_name as nat) + field_line(
        "dofpv_provattr"@,
        p.dofpv_provattr as nat,
    ) + field_line("dofpv_modattr"@, p.dofpv_modattr as nat) + field_line(
        "dofpv_funcattr"@,
        p.dofpv_funcattr as nat,
    ) + field_line("dofpv_nameattr"@, p.dofpv_nameattr as nat) + field_line(
        "dofpv_argsattr"@,
        p.dofpv_argsattr as nat,
    ) + field_line("dofpv_prenoffs"@, p.dofpv_prenoffs as nat) + "}"@
}

pub open spec fn relodesc_text(r: dof_relodesc) -> Seq<char> {
    "dof_relodesc {\n"@ + field_line("dofr_name"@, r.dofr_name as nat) + field_line(
        "dofr_type"@,
        r.dofr_type as nat,
    ) + field_line("dofr_offset"@, r.dofr_offset as nat) + field_line(
        "dofr_data"@,
        r.dofr_data as nat,
    ) + "}"@
}

pub open spec fn relohdr_text(r: dof_relohdr) -> Seq<char> {
    "dof_relohdr {\n"@ + field_line("dofr_strtab"@, r.dofr_strtab as nat) + field_line(
        "dofr_relsec"@,
        r.dofr_relsec as nat,
    ) + field_line("dofr_tgtsec"@, r.dofr_tgtsec as nat) + "}"@
}

/// The size of one record of the section types whose records are shown one
/// by one; zero for other types.
pub open spec fn record_size(t: u32) -> nat {
    if t == DOF_SECT_PROBES {
        48
    } else if t == DOF_SECT_RELTAB {
        24
    } else if t == DOF_SECT_URELHDR {
        12
    } else if t == DOF_SECT_PROVIDER {
        44
    } else {
        0
    }
}

/// The text of one record of a section of type `t`.
pub open spec fn record_text(t: u32, chunk: Seq<u8>, ord: ByteOrder) -> Seq<char> {
    if t == DOF_SECT_PROBES {
        probe_text(probe_of(chunk, ord))
    } else if t == DOF_SECT_RELTAB {
        relodesc_text(relodesc_of(chunk, ord))
    } else if t == DOF_SECT_URELHDR {
        relohdr_text(relohdr_of(chunk, ord))
    } else {
        provider_text(provider_of(chunk, ord))
    }
}

/// The texts of the first `k` records of `data`, one per line.
pub open spec fn records_text(t: u32, data: Seq<u8>, k: nat, ord: ByteOrder) -> Seq<char>
    decreases k,
{
    let n = record_size(t) as int;
    if k == 0 {
        seq![]
    } else if k == 1 {
        record_text(t, data.subrange(0, n), ord)
    } else {
        records_text(t, data, (k - 1) as nat, ord) + "\n"@ + record_text(
            t,
            data.subrange(n * (k - 1), n * k), ord,
        )
    }
}

/// The text of the data of a section of type `t`: its records one by one
/// for probe, relocation and provider sections, else a hex dump.
pub open spec fn sec_data_text(t: u32, data: Seq<u8>, ord: ByteOrder) -> Seq<char> {
    if record_size(t) > 0 {
        records_text(t, data, data.len() / record_size(t), ord)
    } else {
        pretty_hex_text(data)
    }
}

fn push_field(out: &mut String, name: &str, value: u64)
    ensures
        final(out)@ == old(out)@ + field_line(name@, value as nat),
{
    out.append("    ");
    out.append(name);
    out.append(": ");
    let h = hex_string(value);
    out.append(h.as_str());
    out.append(",\n");
}

fn push_probe_text(out: &mut String, p: dof_probe)
    ensures
        final(out)@ == old(out)@ + probe_text(p),
{
    let ghost o = out@;
    out.append("dof_probe {\n");
    push_field(out, "dofpr_addr", p.dofpr_addr);
    push_field(out, "dofpr_func", p.dofpr_func as u64);
    push_field(out, "dofpr_name", p.dofpr_name as u64);
    push_field(out, "dofpr_nargv", p.dofpr_nargv as u64);
    push_field(out, "dofpr_xargv", p.dofpr_xargv as u64);
    push_field(out, "dofpr_argidx", p.dofpr_argidx as u64);
    push_field(out, "dofpr_offidx", p.dofpr_offidx as u64);
    push_field(out, "dofpr_nargc", p.dofpr_nargc as u64);
    push_field(out, "dofpr_xargc", p.dofpr_xargc as u64);
    push_field(out, "dofpr_noffs", p.dofpr_noffs as u64);
    push_field(out, "dofpr_enoffidx", p.dofpr_enoffidx as u64);
    push_field(out, "dofpr_nenoffs", p.dofpr_nenoffs as u64);
    push_field(out, "dofpr_pad1", p.dofpr_pad1 as u64);
    push_field(out, "dofpr_pad2", p.dofpr_pad2 as u64);
    out.append("}");
    proof {
        assert(out@ =~= o + probe_text(p));
    }
}

fn push_provider_text(out: &mut String, p: dof_provider)
    ensures
        final(out)@ == old(out)@ + provider_text(p),
{
    let ghost o = out@;
    out.append("dof_provider {\n");
    push_field(out, "dofpv_strtab", p.dofpv_strtab as u64);
    push_field(out, "dofpv_probes", p.dofpv_probes as u64);
    push_field(out, "dofpv_prargs", p.dofpv_prargs as u64);
    push_field(out, "dofpv_proffs", p.dofpv_proffs as u64);
    push_field(out, "dofpv_name", p.dofpv_name as u64);
    push_field(out, "dofpv_provattr", p.dofpv_provattr as u64);
    push_field(out, "dofpv_modattr", p.dofpv_modattr as u64);
    push_field(out, "dofpv_funcattr", p.dofpv_funcattr as u64);
    push_field(out, "dofpv_nameattr", p.dofpv_nameattr as u64);
    push_field(out, "dofpv_argsattr", p.dofpv_argsattr as u64);
    push_field(out, "dofpv_prenoffs", p.dofpv_prenoffs as u64);
    out.append("}");
    proof {
        assert(out@ =~= o + provider_text(p));
    }
}

fn push_relodesc_text(out: &mut String, r: dof_relodesc)
    ensures
        final(out)@ == old(out)@ + relodesc_text(r),
{
    let ghost o = out@;
    out.append("dof_relodesc {\n");
    push_field(out, "dofr_name", r.dofr_name as u64);
    push_field(out, "dofr_type", r.dofr_type as u64);
    push_field(out, "dofr_offset", r.dofr_offset);
    push_field(out, "dofr_data", r.dofr_data);
    out.append("}");
    proof {
        assert(out@ =~= o + relodesc_text(r));
    }
}

fn push_relohdr_text(out: &mut String, r: dof_relohdr)
    ensures
        final(out)@ == old(out)@ + relohdr_text(r),
{
    let ghost o = out@;
    out.append("dof_relohdr {\n");
    push_field(out, "dofr_strtab", r.dofr_strtab as u64);
    push_field(out, "dofr_relsec", r.dofr_relsec as u64);
    push_field(out, "dofr_tgtsec", r.dofr_tgtsec as u64);
    out.append("}");
    proof {
        assert(out@ =~= o + relohdr_text(r));
    }
}

fn push_record_text(out: &mut String, t: u32, data: &[u8], at: usize, ord: ByteOrder)
    requires
        record_size(t) > 0,
        at + record_size(t) <= data@.len(),
    ensures
        final(out)@ == old(out)@ + record_text(t, data@.subrange(at as int, at + record_size(t)), ord),
{
    if t == DOF_SECT_PROBES {
        let p = dof_probe::read_from(data, at, ord);
        push_probe_text(out, p);
    } else if t == DOF_SECT_RELTAB {
        let r = dof_relodesc::read_from(data, at, ord);
        push_relodesc_text(out, r);
    } else if t == DOF_SECT_URELHDR {
        let r = dof_relohdr::read_from(data, at, ord);
        push_relohdr_text(out, r);
    } else {
        let p = dof_provider::read_from(data, at, ord);
        push_provider_text(out, p);
    }
}

/// Format the data of a DOF section, whose integers are in the byte order of
/// the machine, as text: the records of a probe, relocation or provider
/// section one by one, the data of other sections as a hex dump.
pub fn fmt_dof_sec_data(sec: &dof_sec, data: &Vec<u8>) -> (r: String)
    requires
        record_size(sec.dofs_type) > 0 ==> data@.len() % record_size(sec.dofs_type) == 0,
    ensures
        r@ == sec_data_text(sec.dofs_type, data@, ByteOrder::Little) || r@ == sec_data_text(
            sec.dofs_type,
            data@,
            ByteOrder::Big,
        ),
{
    fmt_dof_sec_data_in_order(sec, data, native_order())
}

/// Format the data of a DOF section, whose integers are in the byte order
/// `ord`, as text: the records of a probe, relocation or provider section
/// one by one, the data of other sections as a hex dump.
#[verifier::rlimit(40)]
pub fn fmt_dof_sec_data_in_order(sec: &dof_sec, data: &Vec<u8>, ord: ByteOrder) -> (r: String)
    requires
        record_size(sec.dofs_type) > 0 ==> data@.len() % record_size(sec.dofs_type) == 0,
    ensures
        r@ == sec_data_text(sec.dofs_type, data@, ord),
{
    let t = sec.dofs_type;
    let size: usize = if t == DOF_SECT_PROBES {
        48
    } else if t == DOF_SECT_RELTAB {
        24
    } else if t == DOF_SECT_URELHDR {
        12
    } else if t == DOF_SECT_PROVIDER {
        44
    } else {
        0
    };
    let bytes = data.as_slice();
    if size == 0 {
        return hex_dump(bytes);
    }
    let n = bytes.len();
    let count = n / size;
    let mut out = String::new();
    let mut k: usize = 0;
    while k < count
        invariant
            size == record_size(t),
            size > 0,
            n == bytes@.len(),
            bytes@ == data@,
            n % size == 0,
            count == n / size,
            0 <= k <= count,
            out@ == records_text(t, bytes@, k as nat, ord),
        decreases count - k,
    {
        proof {
            assert(size * (k + 1) <= n) by (nonlinear_arith)
                requires
                    k < count,
                    count == n / size,
                    n % size == 0,
                    size > 0,
            ;
        }
        let at = size * k;
        if k > 0 {
            out.append("\n");
        }
        push_record_text(&mut out, t, bytes, at, ord);
        proof {
            assert(at + size == size * (k + 1)) by (nonlinear_arith)
                requires
                    at == size * k,
            ;
        }
        k = k + 1;
    }
    out
}

// ---------------------------------------------------------------------------
// Whole DOF sections, as their C structures
// ---------------------------------------------------------------------------

/// One field of a structure as its alternate debug form shows it, in decimal.
pub open spec fn dec_field_line(name: Seq<char>, value: nat) -> Seq<char> {
    "    "@ + name + ": "@ + decimal(value) + ",\n"@
}

/// The first `k` identification bytes, one per line.
pub open spec fn ident_lines(b: Seq<u8>, k: nat) -> Seq<char>
    decreases k,
{
    if k == 0 {
        seq![]
    } else {
        ident_lines(b, (k - 1) as nat) + "        "@ + decimal(b[k - 1] as nat) + ",\n"@
    }
}

/// The file header held in the first 64 bytes of `b`, as the alternate debug
/// form of `dof_hdr` shows it.
pub open spec fn hdr_text(b: Seq<u8>, ord: ByteOrder) -> Seq<char> {
    "dof_hdr {\n    dofh_ident: [\n"@ + ident_lines(b, 16) + "    ],\n"@ + dec_field_line(
        "dofh_flags"@,
        read_u32(b, 16, ord) as nat,
    ) + dec_field_line("dofh_hdrsize"@, read_u32(b, 20, ord) as nat) + dec_field_line(
        "dofh_secsize"@,
        read_u32(b, 24, ord) as nat,
    ) + dec_field_line("dofh_secnum"@, read_u32(b, 28, ord) as nat) + dec_field_line(
        "dofh_secoff"@,
        read_u64(b, 32, ord) as nat,
    ) + dec_field_line("dofh_loadsz"@, read_u64(b, 40, ord) as nat) + dec_field_line(
        "dofh_filesz"@,
        read_u64(b, 48, ord) as nat,
    ) + dec_field_line("dofh_pad"@, read_u64(b, 56, ord) as nat) + "}"@
}

fn push_dec_field(out: &mut String, name: &str, value: u64)
    ensures
        final(out)@ == old(out)@ + dec_field_line(name@, value as nat),
{
    out.append("    ");
    out.append(name);
    out.append(": ");
    let d = decimal_string(value);
    out.append(d.as_str());
    out.append(",\n");
}

/// Format a DOF file header as the alternate debug form of its C structure.
pub fn fmt_dof_hdr(h: &dof_hdr) -> (r: String)
    ensures
        forall|b: Seq<u8>, ord: ByteOrder| hdr_decodes(b, *h, ord) ==> r@ == #[trigger] hdr_text(b, ord),
{
    let mut out = String::new();
    out.append("dof_hdr {\n    dofh_ident: [\n");
    let ghost start = out@;
    let mut k: usize = 0;
    while k < 16
        invariant
            0 <= k <= 16,
            out@ == start + ident_lines(h.dofh_ident@, k as nat),
        decreases 16 - k,
    {
        out.append("        ");
        let d = decimal_string(h.dofh_ident[k] as u64);
        out.append(d.as_str());
        out.append(",\n");
        k = k + 1;
    }
    out.append("    ],\n");
    push_dec_field(&mut out, "dofh_flags", h.dofh_flags as u64);
    push_dec_field(&mut out, "dofh_hdrsize", h.dofh_hdrsize as u64);
    push_dec_field(&mut out, "dofh_secsize", h.dofh_secsize as u64);
    push_dec_field(&mut out, "dofh_secnum", h.dofh_secnum as u64);
    push_dec_field(&mut out, "dofh_secoff", h.dofh_secoff);
    push_dec_field(&mut out, "dofh_loadsz", h.dofh_loadsz);
    push_dec_field(&mut out, "dofh_filesz", h.dofh_filesz);
    push_dec_field(&mut out, "dofh_pad", h.dofh_pad);
    out.append("}");
    proof {
        assert forall|b: Seq<u8>, ord: ByteOrder| hdr_decodes(b, *h, ord) implies out@ == #[trigger] hdr_text(b, ord) by {
            assert(h.dofh_ident@.subrange(0, 16) =~= h.dofh_ident@);
            assert(b.subrange(0, 16).subrange(0, 16) =~= b.subrange(0, 16));
            lemma_ident_lines_prefix(h.dofh_ident@, b, 16);
            assert(out@ =~= hdr_text(b, ord));
        }
    }
    out
}

/// The identification lines depend on the first `k` bytes alone.
pub proof fn lemma_ident_lines_prefix(a: Seq<u8>, b: Seq<u8>, k: nat)
    requires
        k <= a.len(),
        k <= b.len(),
        a.subrange(0, k as int) == b.subrange(0, k as int),
    ensures
        ident_lines(a, k) == ident_lines(b, k),
    decreases k,
{
    if k > 0 {
        assert(a[k - 1] == a.subrange(0, k as int)[k - 1]);
        assert(b[k - 1] == b.subrange(0, k as int)[k - 1]);
        assert(a.subrange(0, k - 1) =~= a.subrange(0, k as int).subrange(0, k - 1));
        assert(b.subrange(0, k - 1) =~= b.subrange(0, k as int).subrange(0, k - 1));
        lemma_ident_lines_prefix(a, b, (k - 1) as nat);
    }
}

/// Each section of a record type holds a whole number of records.
pub open spec fn records_whole(secs: Seq<(dof_sec, Seq<u8>)>) -> bool {
    forall|k: int|
        0 <= k < secs.len() ==> (record_size(#[trigger] secs[k].0.dofs_type) > 0 ==> secs[k].1.len()
            % record_size(secs[k].0.dofs_type) == 0)
}

/// The text of section `e`, the section at `index`: its header followed,
/// where `with_data` holds, by its data.
pub open spec fn entry_text(e: (dof_sec, Seq<u8>), index: nat, with_data: bool, ord: ByteOrder) -> Seq<char> {
    dof_sec_text(e.0, index) + "\n"@ + if with_data {
        sec_data_text(e.0.dofs_type, e.1, ord) + "\n"@
    } else {
        seq![]
    }
}

/// The texts of the first `k` sections.
pub open spec fn sections_text(secs: Seq<(dof_sec, Seq<u8>)>, with_data: bool, k: nat, ord: ByteOrder) -> Seq<char>
    decreases k,
{
    if k == 0 {
        seq![]
    } else {
        sections_text(secs, with_data, (k - 1) as nat, ord) + entry_text(secs[k - 1], (k - 1) as nat, with_data, ord)
    }
}

/// The raw text of one DOF section: its file header, then each section; the
/// error where its headers cannot be read, and a `ParseError` where its
/// bytes end early or, with the data included, a record section holds part
/// of a record.
pub open spec fn raw_dof_text(buf: Seq<u8>, with_data: bool, ord: ByteOrder) -> Result<Seq<char>, Error> {
    match raw_sections(buf, ord) {
        None => Err(Error::ParseError),
        Some(Err(e)) => Err(e),
        Some(Ok(secs)) => if with_data && !records_whole(secs) {
            Err(Error::ParseError)
        } else {
            Ok(hdr_text(buf.subrange(0, 64), ord) + "\n"@ + sections_text(secs, with_data, secs.len(), ord))
        },
    }
}

/// The raw texts of DOF sections one after the other, up to the first that
/// fails, whose error it is.
pub open spec fn dof_text(bufs: Seq<Seq<u8>>, with_data: bool, ord: ByteOrder) -> Result<Seq<char>, Error>
    decreases bufs.len(),
{
    if bufs.len() == 0 {
        Ok(seq![])
    } else {
        match dof_text(bufs.drop_last(), with_data, ord) {
            Err(e) => Err(e),
            Ok(t) => match raw_dof_text(bufs.last(), with_data, ord) {
                Err(e) => Err(e),
                Ok(u) => Ok(t + u),
            },
        }
    }
}

/// Once a DOF section fails, the texts of all of them fail the same way.
pub proof fn lemma_dof_text_stops(bufs: Seq<Seq<u8>>, with_data: bool, j: nat, ord: ByteOrder)
    requires
        j <= bufs.len(),
        dof_text(bufs.take(j as int), with_data, ord) is Err,
    ensures
        dof_text(bufs, with_data, ord) == dof_text(bufs.take(j as int), with_data, ord),
    decreases bufs.len() - j,
{
    if j == bufs.len() {
        assert(bufs.take(j as int) =~= bufs);
    } else {
        assert(bufs.take((j + 1) as int).drop_last() =~= bufs.take(j as int));
        lemma_dof_text_stops(bufs, with_data, j + 1, ord);
    }
}

fn record_size_exec(t: u32) -> (n: usize)
    ensures
        n == record_size(t),
{
    if t == DOF_SECT_PROBES {
        48
    } else if t == DOF_SECT_RELTAB {
        24
    } else if t == DOF_SECT_URELHDR {
        12
    } else if t == DOF_SECT_PROVIDER {
        44
    } else {
        0
    }
}

/// The text of one section, the section at `index`; `None` where its data is
/// to be shown and it holds part of a record.
fn fmt_raw_entry(sec: &dof_sec, data: &Vec<u8>, index: usize, with_data: bool, ord: ByteOrder) -> (r: Option<String>)
    ensures
        match r {
            Some(t) => (with_data ==> (record_size(sec.dofs_type) > 0 ==> data@.len() % record_size(
                sec.dofs_type) == 0)) && t@ == entry_text((*sec, data@), index as nat, with_data, ord),
            None => with_data && record_size(sec.dofs_type) > 0 && data@.len() % record_size(
                sec.dofs_type) != 0,
        },
{
    let mut out = fmt_dof_sec(sec, index);
    out.append("\n");
    if with_data {
        let size = record_size_exec(sec.dofs_type);
        if size > 0 && data.len() % size != 0 {
            return None;
        }
        let d = fmt_dof_sec_data_in_order(sec, data, ord);
        out.append(d.as_str());
        out.append("\n");
    }
    proof {
        assert(out@ =~= entry_text((*sec, data@), index as nat, with_data, ord));
    }
    Some(out)
}

/// The raw text of one DOF section.
#[verifier::rlimit(60)]
fn fmt_raw_section(buf: &[u8], include_sections: bool, ord: ByteOrder) -> (r: Result<String, Error>)
    ensures
        match r {
            Ok(t) => raw_dof_text(buf@, include_sections, ord) == Ok::<Seq<char>, Error>(t@),
            Err(e) => raw_dof_text(buf@, include_sections, ord) == Err::<Seq<char>, Error>(e),
        },
{
    let (header, sections) = match deserialize_raw_sections_in_order(buf, ord) {
        Err(e) => return Err(e),
        Ok(hs) => hs,
    };
    let ghost secs = raw_view(sections@);
    let mut out = fmt_dof_hdr(&header);
    out.append("\n");
    let ghost head = out@;
    proof {
        assert(head == hdr_text(buf@.subrange(0, 64), ord) + "\n"@);
    }
    let n = sections.len();
    let mut k: usize = 0;
    while k < n
        invariant
            n == sections@.len(),
            secs == raw_view(sections@),
            raw_result(buf@, ord) == Ok::<Seq<(dof_sec, Seq<u8>)>, Error>(secs),
            head == hdr_text(buf@.subrange(0, 64), ord) + "\n"@,
            0 <= k <= n,
            out@ == head + sections_text(secs, include_sections, k as nat, ord),
            include_sections ==> forall|q: int|
                0 <= q < k ==> (record_size(#[trigger] secs[q].0.dofs_type) > 0 ==> secs[q].1.len()
                    % record_size(secs[q].0.dofs_type) == 0),
        decreases n - k,
    {
        let sec = &sections[k].0;
        let data = &sections[k].1;
        proof {
            assert(secs[k as int] == (*sec, data@));
        }
        let piece = match fmt_raw_entry(sec, data, k, include_sections, ord) {
            Some(p) => p,
            None => {
                proof {
                    assert(!records_whole(secs));
                }
                return Err(Error::ParseError);
            },
        };
        let ghost before = out@;
        out.append(piece.as_str());
        proof {
            let kk = k as nat;
            assert(sections_text(secs, include_sections, kk + 1, ord) == sections_text(secs, include_sections, kk, ord)
                + entry_text(secs[k as int], kk, include_sections, ord));
            assert(out@ =~= head + sections_text(secs, include_sections, kk + 1, ord));
        }
        k = k + 1;
    }
    Ok(out)
}

/// The plain view of several DOF sections.
pub open spec fn bufs_view(v: Seq<Vec<u8>>) -> Seq<Seq<u8>> {
    v.map_values(|b: Vec<u8>| b@)
}

/// What formatting raw DOF sections gave, in the terms of `dof_text`.
pub open spec fn raw_formatted(r: Result<Option<String>, Error>) -> Result<Seq<char>, Error> {
    match r {
        Err(e) => Err(e),
        Ok(None) => Ok(seq![]),
        Ok(Some(t)) => Ok(t@),
    }
}

/// Format DOF sections, whose integers are in the byte order of the
/// machine, as their underlying C structures; see `fmt_dof_raw_in_order`.
pub fn fmt_dof_raw(sections: &Vec<Vec<u8>>, include_sections: bool) -> (r: Result<Option<String>, Error>)
    ensures
        raw_formatted(r) == dof_text(bufs_view(sections@), include_sections, ByteOrder::Little)
            || raw_formatted(r) == dof_text(bufs_view(sections@), include_sections, ByteOrder::Big),
        r matches Ok(Some(t)) ==> t@.len() > 0,
{
    fmt_dof_raw_in_order(sections, include_sections, native_order())
}

/// Format DOF sections as their underlying C structures: for each, its file
/// header and each section header, followed, where `include_sections` holds,
/// by the section's data. `Ok(None)` where there is no section; the error of
/// the first section that cannot be read, a `ParseError` where its bytes end
/// early or, with the data included, a record section holds part of a
/// record.
pub fn fmt_dof_raw_in_order(sections: &Vec<Vec<u8>>, include_sections: bool, ord: ByteOrder) -> (r: Result<Option<String>, Error>)
    ensures
        match r {
            Err(e) => dof_text(bufs_view(sections@), include_sections, ord) == Err::<Seq<char>, Error>(e),
            Ok(None) => dof_text(bufs_view(sections@), include_sections, ord) == Ok::<Seq<char>, Error>(
                seq![],
            ),
            Ok(Some(t)) => t@.len() > 0 && dof_text(bufs_view(sections@), include_sections, ord) == Ok::<
                Seq<char>,
                Error,
            >(t@),
        },
{
    let ghost bv = bufs_view(sections@);
    let mut out = String::new();
    let n = sections.len();
    let mut j: usize = 0;
    proof {
        assert(bv.take(0) =~= Seq::<Seq<u8>>::empty());
    }
    while j < n
        invariant
            n == sections@.len(),
            bv == bufs_view(sections@),
            0 <= j <= n,
            dof_text(bv.take(j as int), include_sections, ord) == Ok::<Seq<char>, Error>(out@),
        decreases n - j,
    {
        proof {
            assert(bv.take((j + 1) as int).drop_last() =~= bv.take(j as int));
            assert(bv.take((j + 1) as int).last() == sections@[j as int]@);
        }
        match fmt_raw_section(sections[j].as_slice(), include_sections, ord) {
            Err(e) => {
                proof {
                    lemma_dof_text_stops(bv, include_sections, (j + 1) as nat, ord);
                }
                return Err(e);
            },
            Ok(t) => {
                out.append(t.as_str());
            },
        }
        j = j + 1;
    }
    proof {
        assert(bv.take(n as int) =~= bv);
    }
    if out.unicode_len() == 0 {
        proof {
            assert(out@ =~= Seq::<char>::empty());
        }
        Ok(None)
    } else {
        Ok(Some(out))
    }
}

} // verus!
