//! Finding the DOF sections of an object file (ELF or Mach-O).

use vstd::prelude::*;
use crate::bytes::{native_order, ByteOrder};
use crate::dof::{Error, dof_magic, DataModel, DataEncoding, ProviderView, Section};
use crate::des::{is_dof_section, deserialize_sections_in_order, section_value, sections_of, sections_read};
use goblin::error::Error as ObjectReadError;

verus! {

#[verifier::external_type_specification]
#[verifier::external_body]
pub struct ExObjectReadError(ObjectReadError);

/// The sections of an object file as the object reader finds them.
pub enum ObjectSections {
    /// An ELF file: the offset and size of each section.
    Elf(Vec<(u64, u64)>),
    /// A Mach-O file for one architecture: the bytes of each section of each
    /// segment, `None` for a section that could not be read.
    Mach(Vec<Option<Vec<u8>>>),
    /// A Mach-O file for several architectures.
    MachFat,
    /// Another kind of object file.
    Other,
}

/// The sections of an object file as plain values.
pub enum ObjectLayout {
    Elf(Seq<(u64, u64)>),
    Mach(Seq<Option<Seq<u8>>>),
    MachFat,
    Other,
}

pub open spec fn opt_bytes(o: Option<Vec<u8>>) -> Option<Seq<u8>> {
    match o {
        Some(v) => Some(v@),
        None => None,
    }
}

impl View for ObjectSections {
    type V = ObjectLayout;

    open spec fn view(&self) -> ObjectLayout {
        match self {
            ObjectSections::Elf(hs) => ObjectLayout::Elf(hs@),
            ObjectSections::Mach(items) => ObjectLayout::Mach(
                items@.map_values(|o: Option<Vec<u8>>| opt_bytes(o)),
            ),
            ObjectSections::MachFat => ObjectLayout::MachFat,
            ObjectSections::Other => ObjectLayout::Other,
        }
    }
}

/// The sections that `goblin::Object::parse` finds in `data`, `None` where
/// it rejects the data.
pub uninterp spec fn object_layout(data: Seq<u8>) -> Option<ObjectLayout>;

/// `goblin::Object::parse` on `data`, with the sections it finds taken as
/// plain values: the offset and size of each section of an ELF file, the
/// bytes of each section of a Mach-O file. What it finds depends on the bytes
/// alone; it is named `object_layout`, `None` where parsing fails. That it
/// returns, rather than panics, on every malformed byte string rests on
/// goblin alone; nothing here shows it.
#[verifier::external_body]
fn parse_object(data: &[u8]) -> (r: Result<ObjectSections, ObjectReadError>)
    ensures
        match r {
            Ok(s) => object_layout(data@) == Some(s@),
            Err(_) => object_layout(data@) is None,
        },
{
    match goblin::Object::parse(data) {
        Ok(goblin::Object::Elf(elf)) => Ok(ObjectSections::Elf(
            elf.section_headers.iter().map(|s| (s.sh_offset, s.sh_size)).collect(),
        )),
        Ok(goblin::Object::Mach(goblin::mach::Mach::Binary(m))) => Ok(ObjectSections::Mach(
            m.segments.sections().flatten().map(|s| s.ok().map(|(_, d)| d.to_vec())).collect(),
        )),
        Ok(goblin::Object::Mach(_)) => Ok(ObjectSections::MachFat),
        Ok(_) => Ok(ObjectSections::Other),
        Err(e) => Err(e),
    }
}

/// The bytes open with the DOF magic bytes.
pub open spec fn is_dof(b: Seq<u8>) -> bool {
    b.len() >= 4 && b.subrange(0, 4) == dof_magic()
}

/// The byte strings of `items` that are DOF sections, in order.
pub open spec fn dof_only(items: Seq<Seq<u8>>) -> Seq<Seq<u8>>
    decreases items.len(),
{
    if items.len() == 0 {
        seq![]
    } else if is_dof(items.last()) {
        dof_only(items.drop_last()).push(items.last())
    } else {
        dof_only(items.drop_last())
    }
}

/// The section at `h` (offset and size) lies within `data`.
pub open spec fn in_file(data: Seq<u8>, h: (u64, u64)) -> bool {
    h.0 + h.1 <= data.len()
}

/// The bytes of each ELF section, `None` where one lies outside the file.
pub open spec fn elf_sections(data: Seq<u8>, hs: Seq<(u64, u64)>) -> Option<Seq<Seq<u8>>> {
    if forall|k: int| 0 <= k < hs.len() ==> #[trigger] in_file(data, hs[k]) {
        Some(Seq::new(hs.len(), |k: int| data.subrange(hs[k].0 as int, hs[k].0 + hs[k].1)))
    } else {
        None
    }
}

/// The Mach-O sections that could be read.
pub open spec fn readable(items: Seq<Option<Seq<u8>>>) -> Seq<Seq<u8>>
    decreases items.len(),
{
    if items.len() == 0 {
        seq![]
    } else {
        match items.last() {
            Some(d) => readable(items.drop_last()).push(d),
            None => readable(items.drop_last()),
        }
    }
}

/// The DOF sections of an object file whose sections are `layout`: a
/// `ParseError` where an ELF section lies outside the file.
pub open spec fn dof_sections_of(data: Seq<u8>, layout: ObjectLayout) -> Result<Seq<Seq<u8>>, Error> {
    match layout {
        ObjectLayout::Elf(hs) => match elf_sections(data, hs) {
            Some(ss) => Ok(dof_only(ss)),
            None => Err(Error::ParseError),
        },
        ObjectLayout::Mach(items) => Ok(dof_only(readable(items))),
        _ => Err(Error::UnsupportedObjectFile),
    }
}

pub open spec fn sections_view(v: Seq<Vec<u8>>) -> Seq<Seq<u8>> {
    v.map_values(|d: Vec<u8>| d@)
}

pub open spec fn found_view(r: Result<Vec<Vec<u8>>, Error>) -> Result<Seq<Seq<u8>>, Error> {
    match r {
        Ok(v) => Ok(sections_view(v@)),
        Err(e) => Err(e),
    }
}

fn copy_bytes(b: &[u8], start: usize, end: usize) -> (r: Vec<u8>)
    requires
        start <= end <= b@.len(),
    ensures
        r@ == b@.subrange(start as int, end as int),
{
    let mut r: Vec<u8> = Vec::new();
    let mut i = start;
    while i < end
        invariant
            start <= i <= end <= b@.len(),
            r@ == b@.subrange(start as int, i as int),
        decreases end - i,
    {
        r.push(b[i]);
        proof {
            assert(b@.subrange(start as int, i + 1) =~= b@.subrange(start as int, i as int).push(
                b@[i as int],
            ));
        }
        i = i + 1;
    }
    r
}

/// The DOF sections of the object file `data`, whose sections the object
/// reader found to be `layout`.
pub fn dof_sections_in(data: &[u8], layout: &ObjectSections) -> (r: Result<Vec<Vec<u8>>, Error>)
    ensures
        found_view(r) == dof_sections_of(data@, layout@),
{
    match layout {
        ObjectSections::Elf(hs) => {
            let len = data.len();
            let n = hs.len();
            let mut out: Vec<Vec<u8>> = Vec::new();
            let mut k: usize = 0;
            while k < n
                invariant
                    layout@ == ObjectLayout::Elf(hs@),
                    len == data@.len(),
                    n == hs@.len(),
                    0 <= k <= n,
                    forall|q: int| 0 <= q < k ==> #[trigger] in_file(data@, hs@[q]),
                    sections_view(out@) == dof_only(
                        Seq::new(k as nat, |q: int| data@.subrange(hs@[q].0 as int, hs@[q].0 + hs@[q].1)),
                    ),
                decreases n - k,
            {
                let (off, size) = hs[k];
                if off > len as u64 || size > len as u64 - off {
                    proof {
                        assert(!in_file(data@, hs@[k as int]));
                        assert(layout@ == ObjectLayout::Elf(hs@));
                        assert(elf_sections(data@, hs@) is None);
                    }
                    return Err(Error::ParseError);
                }
                let start = off as usize;
                let end = start + size as usize;
                let ghost items = Seq::new(
                    (k + 1) as nat,
                    |q: int| data@.subrange(hs@[q].0 as int, hs@[q].0 + hs@[q].1),
                );
                proof {
                    assert(items.drop_last() =~= Seq::new(
                        k as nat,
                        |q: int| data@.subrange(hs@[q].0 as int, hs@[q].0 + hs@[q].1),
                    ));
                }
                let bytes = copy_bytes(data, start, end);
                let ghost before = sections_view(out@);
                if is_dof_section(bytes.as_slice()) {
                    out.push(bytes);
                    proof {
                        assert(sections_view(out@) =~= before.push(bytes@));
                    }
                }
                proof {
                    assert(items.last() == bytes@);
                    assert(sections_view(out@) == dof_only(items));
                }
                k = k + 1;
            }
            proof {
                let ss = Seq::new(n as nat, |q: int| data@.subrange(hs@[q].0 as int, hs@[q].0 + hs@[q].1));
                assert(elf_sections(data@, hs@) == Some(ss));
            }
            Ok(out)
        },
        ObjectSections::Mach(items) => {
            let ghost iv = items@.map_values(|o: Option<Vec<u8>>| opt_bytes(o));
            let n = items.len();
            let mut out: Vec<Vec<u8>> = Vec::new();
            let mut k: usize = 0;
            while k < n
                invariant
                    n == items@.len(),
                    iv == items@.map_values(|o: Option<Vec<u8>>| opt_bytes(o)),
                    0 <= k <= n,
                    sections_view(out@) == dof_only(readable(iv.take(k as int))),
                decreases n - k,
            {
                proof {
                    assert(iv.take(k + 1).drop_last() =~= iv.take(k as int));
                    assert(iv.take(k + 1).last() == opt_bytes(items@[k as int]));
                }
                let ghost before = sections_view(out@);
                match &items[k] {
                    Some(d) => {
                        let ghost r0 = readable(iv.take(k as int));
                        proof {
                            assert(readable(iv.take(k + 1)) == r0.push(d@));
                            assert(r0.push(d@).drop_last() =~= r0);
                        }
                        if is_dof_section(d.as_slice()) {
                            out.push(d.clone());
                            proof {
                                assert(sections_view(out@) =~= before.push(d@));
                            }
                        }
                    },
                    None => {
                        proof {
                            assert(readable(iv.take(k + 1)) == readable(iv.take(k as int)));
                        }
                    },
                }
                k = k + 1;
            }
            proof {
                assert(iv.take(n as int) =~= iv);
            }
            Ok(out)
        },
        _ => Err(Error::UnsupportedObjectFile),
    }
}

/// The raw bytes of each DOF section of the object file `data`; a
/// `ParseError` where a section of the file lies outside it.
pub fn collect_dof_sections(data: &[u8]) -> (r: Result<Vec<Vec<u8>>, Error>)
    ensures
        match object_layout(data@) {
            None => r matches Err(e) && e is ObjectError,
            Some(layout) => found_view(r) == dof_sections_of(data@, layout),
        },
{
    match parse_object(data) {
        Ok(layout) => dof_sections_in(data, &layout),
        Err(e) => Err(Error::ObjectError(e)),
    }
}

/// What reading the DOF sections of an object file whose sections are
/// `layout` gives: what each holds, or the error of the first that fails.
pub open spec fn dof_contents_of(data: Seq<u8>, layout: ObjectLayout, ord: ByteOrder) -> Result<
    Seq<(Seq<ProviderView>, (DataModel, DataEncoding, u8))>,
    Error,
> {
    match dof_sections_of(data, layout) {
        Err(e) => Err(e),
        Ok(bufs) => sections_of(bufs, ord),
    }
}

/// Extract and deserialize the DOF sections, whose integers are in the byte
/// order `ord`, of the object file `data`.
pub fn extract_dof_sections_in_order(data: &[u8], ord: ByteOrder) -> (r: Result<Vec<Section>, Error>)
    ensures
        match object_layout(data@) {
            None => r matches Err(e) && e is ObjectError,
            Some(layout) => match r {
                Err(e) => dof_contents_of(data@, layout, ord) == Err::<
                    Seq<(Seq<ProviderView>, (DataModel, DataEncoding, u8))>,
                    Error,
                >(e),
                Ok(v) => dof_contents_of(data@, layout, ord) == Ok::<
                    Seq<(Seq<ProviderView>, (DataModel, DataEncoding, u8))>,
                    Error,
                >(v@.map_values(|s: Section| section_value(s))),
            },
        },
{
    match collect_dof_sections(data) {
        Err(e) => Err(e),
        Ok(bufs) => {
            proof {
                assert(bufs@.map_values(|b: Vec<u8>| b@) =~= sections_view(bufs@));
            }
            deserialize_sections_in_order(&bufs, ord)
        },
    }
}

/// Extract and deserialize the DOF sections, whose integers are in the byte
/// order of the machine, of the object file `data`.
pub fn extract_dof_sections(data: &[u8]) -> (r: Result<Vec<Section>, Error>)
    ensures
        match object_layout(data@) {
            None => r matches Err(e) && e is ObjectError,
            Some(layout) => sections_read(r) == dof_contents_of(data@, layout, ByteOrder::Little)
                || sections_read(r) == dof_contents_of(data@, layout, ByteOrder::Big),
        },
{
    extract_dof_sections_in_order(data, native_order())
}

} // verus!
