//! What the kernel is told of a process's probes when they are registered
//! with DTrace: the DOF section that holds them, under the name of the module
//! that defines them.

use vstd::prelude::*;
use crate::bytes::ByteOrder;
use vstd::string::*;
use crate::dof::{Section, SectionView};
use crate::ser::dof_bytes;
use vstd::utf8::encode_utf8;
use crate::grammar::chars_of;
use crate::text::{hex, hex_string, rfind, rfind_exec, lemma_rfind_before};

verus! {

/// The size of the module name field of the kernel's helper structure,
/// its closing NUL included.
pub const MODULE_NAME_FIELD_SIZE: usize = 64;

/// The address of the first probe of the first provider, where it has one.
pub open spec fn first_address(s: SectionView) -> Option<u64> {
    if s.providers.len() > 0 && s.providers[0].probes.len() > 0 {
        Some(s.providers[0].probes[0].address)
    } else {
        None
    }
}

/// The part of a path after its last `/`; the whole path where it has none.
pub open spec fn last_component(p: Seq<char>) -> Seq<char> {
    match rfind(p, '/') {
        Some(i) => p.skip(i + 1),
        None => p,
    }
}

/// The name under which the probes of `s` are registered: the file name of
/// the object that holds the first probe, where `path` gives its path, else
/// `?` and the probe's address in hex; `unknown-module` where the first
/// provider has no probe.
pub open spec fn module_name_of(s: SectionView, path: Option<Seq<char>>) -> Seq<char> {
    match first_address(s) {
        None => "unknown-module"@,
        Some(a) => match path {
            Some(p) => last_component(p),
            None => seq!['?'] + hex(a as nat),
        },
    }
}

/// The module name field: the first 63 bytes of the name, the rest zero.
pub open spec fn module_field_of(b: Seq<u8>) -> Seq<u8> {
    Seq::new(
        MODULE_NAME_FIELD_SIZE as nat,
        |i: int|
            if i < MODULE_NAME_FIELD_SIZE - 1 && i < b.len() {
                b[i]
            } else {
                0u8
            },
    )
}

/// The address of the first probe of the first provider, whose object names
/// the module.
pub fn first_probe_address(section: &Section) -> (r: Option<u64>)
    ensures
        r == first_address(section@),
{
    if section.providers.len() > 0 && section.providers[0].probes.len() > 0 {
        Some(section.providers[0].probes[0].address)
    } else {
        None
    }
}

/// The file name in a path.
fn file_name(path: &str) -> (r: String)
    ensures
        r@ == last_component(path@),
{
    let c = chars_of(path);
    let n = c.len();
    proof {
        lemma_rfind_before(path@, '/', path@.len() as int);
    }
    match rfind_exec(&c, '/') {
        Some(i) => {
            let tail = path.substring_char(i + 1, n);
            proof {
                assert(tail@ =~= path@.skip(i + 1));
            }
            tail.to_string()
        },
        None => path.to_string(),
    }
}

/// The name under which the probes of `section` are registered; `path` is
/// the path of the object that holds the first probe, where it is known.
pub fn module_name(section: &Section, path: Option<String>) -> (r: String)
    ensures
        r@ == module_name_of(
            section@,
            match path {
                Some(p) => Some(p@),
                None => None,
            },
        ),
{
    proof {
        reveal_strlit("unknown-module");
        reveal_strlit("?");
    }
    match first_probe_address(section) {
        None => String::from_str("unknown-module"),
        Some(a) => match path {
            Some(p) => file_name(p.as_str()),
            None => {
                let mut r = String::from_str("?");
                let h = hex_string(a);
                r.append(h.as_str());
                r
            },
        },
    }
}

/// The module name field of the kernel's helper structure for `name`.
pub fn module_name_field(name: &str) -> (r: Vec<u8>)
    ensures
        r@ == module_field_of(name.spec_bytes()),
{
    let b = name.as_bytes();
    let mut r: Vec<u8> = Vec::new();
    let mut i: usize = 0;
    while i < MODULE_NAME_FIELD_SIZE
        invariant
            b@ == name.spec_bytes(),
            0 <= i <= MODULE_NAME_FIELD_SIZE,
            r@ == module_field_of(b@).take(i as int),
        decreases MODULE_NAME_FIELD_SIZE - i,
    {
        let v: u8 = if i < MODULE_NAME_FIELD_SIZE - 1 && i < b.len() {
            b[i]
        } else {
            0
        };
        r.push(v);
        proof {
            assert(r@ =~= module_field_of(b@).take(i + 1));
        }
        i = i + 1;
    }
    proof {
        assert(module_field_of(b@).take(MODULE_NAME_FIELD_SIZE as int) =~= module_field_of(b@));
    }
    r
}

/// What the kernel is handed to register the probes of a process: the DOF
/// of the probes, and the field that names the module that holds them.
pub struct Registration {
    pub dof: Vec<u8>,
    pub module_field: Vec<u8>,
}

/// The registration of the probes of section `s`, where `path` is the path
/// of the object that holds its first probe, where known.
pub open spec fn registration_of(s: SectionView, path: Option<Seq<char>>, ord: ByteOrder) -> (Seq<u8>, Seq<u8>) {
    (dof_bytes(s, ord), module_field_of(encode_utf8(module_name_of(s, path))))
}

} // verus!
