//! Statically-defined DTrace probes for Rust: provider definitions, the DTrace
//! Object Format, and the probe records that tie them together.

pub mod text;
pub mod bytes;
pub mod types;
pub mod grammar;
pub mod parser;
pub mod dtrace;
pub mod header;
pub mod builder;
pub mod dof;
pub mod dof_raw;
pub mod ser;
pub mod des;
pub mod roundtrip;
pub mod record;
pub mod fmt;
pub mod definition;
pub mod stapsdt;
pub mod asm_records;
pub mod object;
pub mod registration;
pub mod attr;
pub mod readback;

use vstd::prelude::*;
use crate::parser::DTraceError;
use crate::record::{opt_view, process_records, processed, resolved_ok, try_process_section_in_order};
use crate::registration::{first_address, first_probe_address, module_name, module_name_field, registration_of, Registration};
use crate::ser::{dof_size_bound, try_serialize_section_in_order};
use crate::dof::Section;
use crate::bytes::{native_order, ByteOrder};



verus! {

/// Errors related to building DTrace probes into Rust code.
#[derive(Debug)]
pub enum Error {
    /// The provider definition could not be read.
    ParseError(DTraceError),
    /// The bytes of a probe record ran out before its fixed fields did.
    IO,
    /// The object file holds no valid probe information.
    InvalidFile,
    /// DTrace itself could not be called.
    DTraceError,
}

/// What registering the probe records `data`, whose integers are in the
/// byte order `ord`, gives, with `after` the records as the pass leaves them:
/// `None` where the records cannot be read at all, or their DOF does not fit
/// in memory; otherwise each handled record marked, and the error of the pass
/// or the DOF of the section it builds, in the order `ord`, with the field
/// that names the module of the object that `object_at` gives for the
/// address of the first probe.
pub open spec fn registered<F: Fn(u64) -> Option<String>, G: Fn(u64) -> Option<String>>(
    data: Seq<u8>,
    after: Seq<u8>,
    r: Option<Result<Registration, Error>>,
    function_at: F,
    object_at: G,
    ord: ByteOrder,
) -> bool {
    match r {
        None => process_records(data, ord) is None || exists|sec: Section|
            processed(data, Ok(sec), function_at, ord) && dof_size_bound(sec@, ord) > usize::MAX,
        Some(res) => after == process_records(data, ord)->Some_0.1 && match res {
            Err(e) => processed(data, Err(e), function_at, ord),
            Ok(reg) => exists|sec: Section, path: Option<String>|
                {
                    &&& processed(data, Ok(sec), function_at, ord)
                    &&& match first_address(sec@) {
                        Some(a) => call_ensures(object_at, (a,), path),
                        None => path is None,
                    }
                    &&& registration_of(sec@, opt_view(path), ord) == (reg.dof@, reg.module_field@)
                },
        },
    }
}

/// Register an application's probe points with DTrace, on systems whose
/// linker does not, where the probe records hold their integers in the byte
/// order `ord`: read the probe records of the process's probe-record
/// section `data`, marking each handled record so that no later call
/// registers it again, and give what the kernel is to be handed, in the same
/// order. The function that holds each probe is named after what
/// `function_at` gives for its address, and the module after the object that
/// `object_at` gives for the address of the first probe. `None` where the
/// records cannot be read at all, or their DOF does not fit in memory.
pub fn register_probes_in_order<F: Fn(u64) -> Option<String>, G: Fn(u64) -> Option<String>>(
    data: &mut [u8],
    function_at: F,
    object_at: G,
    ord: ByteOrder,
) -> (r: Option<Result<Registration, Error>>)
    requires
        forall|a: u64| call_requires(function_at, (a,)),
        forall|a: u64, x: Option<String>| call_ensures(function_at, (a,), x) ==> resolved_ok(x),
        forall|a: u64| call_requires(object_at, (a,)),
    ensures
        registered(old(data)@, final(data)@, r, function_at, object_at, ord),
{
    let ghost d0 = data@;
    let sec = match try_process_section_in_order(data, function_at, ord) {
        None => return None,
        Some(Err(e)) => return Some(Err(e)),
        Some(Ok(s)) => s,
    };
    let path = match first_probe_address(&sec) {
        Some(a) => object_at(a),
        None => None,
    };
    let ghost p = path;
    let name = module_name(&sec, path);
    let module_field = module_name_field(name.as_str());
    match try_serialize_section_in_order(&sec, ord) {
        None => None,
        Some(dof) => {
            proof {
                assert(registration_of(sec@, opt_view(p), ord) == (dof@, module_field@));
            }
            Some(Ok(Registration { dof, module_field }))
        },
    }
}

/// Register an application's probe points with DTrace, on systems whose
/// linker does not; the probe records and the DOF handed to the kernel hold
/// their integers in the byte order of the machine. See
/// `register_probes_in_order`.
pub fn register_probes<F: Fn(u64) -> Option<String>, G: Fn(u64) -> Option<String>>(
    data: &mut [u8],
    function_at: F,
    object_at: G,
) -> (r: Option<Result<Registration, Error>>)
    requires
        forall|a: u64| call_requires(function_at, (a,)),
        forall|a: u64, x: Option<String>| call_ensures(function_at, (a,), x) ==> resolved_ok(x),
        forall|a: u64| call_requires(object_at, (a,)),
    ensures
        registered(old(data)@, final(data)@, r, function_at, object_at, ByteOrder::Little) || registered(
            old(data)@,
            final(data)@,
            r,
            function_at,
            object_at,
            ByteOrder::Big,
        ),
{
    register_probes_in_order(data, function_at, object_at, native_order())
}

/// Build the providers of a D source file into an object that the
/// application links against. Where probes are built by the probe macros
/// themselves, there is nothing to build and this always succeeds.
pub fn build_providers(source: &str) -> (r: Result<(), DTraceError>)
    ensures
        r is Ok,
{
    Ok(())
}

} // verus!
