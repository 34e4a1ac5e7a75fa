//! Types representing DTrace Object Format data structures.
//!
//! A [`Section`] represents a complete DTrace Object Format section as
//! contained in an object file. It holds one or more [`Provider`]s, each with
//! one or more [`Probe`]s. A `Probe` holds all the information required to
//! locate a probe callsite within an object file.

use vstd::prelude::*;
use crate::bytes::{native_order, ByteOrder};
use goblin::error::Error as ObjectReadError;

verus! {

/// The magic bytes that open a DOF section: `\x7fDOF`.
pub open spec fn dof_magic() -> Seq<u8> {
    seq![0x7fu8, 0x44u8, 0x4fu8, 0x46u8]
}

/// Errors related to building or reading the DOF format.
#[derive(Debug)]
pub enum Error {
    /// The DOF identifier is invalid, such as invalid magic bytes.
    InvalidIdentifier,
    /// The data does not match the expected layout of a structure.
    ParseError,
    /// Attempt to read from an unsupported object file format.
    UnsupportedObjectFile,
    /// The object file could not be parsed.
    ObjectError(ObjectReadError),
}

/// The DTrace data model, i.e. the pointer width of the platform.
#[derive(Debug, Clone, Copy, PartialEq, Eq, Structural)]
pub enum DataModel {
    Unspecified,
    ILP32,
    LP64,
}

/// The byte that stands for a data model in a DOF identifier.
pub open spec fn model_byte(m: DataModel) -> u8 {
    match m {
        DataModel::Unspecified => 0,
        DataModel::ILP32 => 1,
        DataModel::LP64 => 2,
    }
}

/// The data model a byte stands for, if any.
pub open spec fn model_of(x: u8) -> Option<DataModel> {
    if x == 0 {
        Some(DataModel::Unspecified)
    } else if x == 1 {
        Some(DataModel::ILP32)
    } else if x == 2 {
        Some(DataModel::LP64)
    } else {
        None
    }
}

impl DataModel {
    /// The data model for the given byte, or `InvalidIdentifier`.
    pub fn try_from(x: u8) -> (r: Result<DataModel, Error>)
        ensures
            match r {
                Ok(m) => model_of(x) == Some(m),
                Err(e) => model_of(x) is None && e is InvalidIdentifier,
            },
    {
        if x == 0 {
            Ok(DataModel::Unspecified)
        } else if x == 1 {
            Ok(DataModel::ILP32)
        } else if x == 2 {
            Ok(DataModel::LP64)
        } else {
            Err(Error::InvalidIdentifier)
        }
    }

    /// The byte that stands for this data model.
    pub fn as_u8(&self) -> (r: u8)
        ensures
            r == model_byte(*self),
    {
        match self {
            DataModel::Unspecified => 0,
            DataModel::ILP32 => 1,
            DataModel::LP64 => 2,
        }
    }
}

impl Default for DataModel {
    /// The data model of the platform: `LP64` where pointers are 64 bits wide,
    /// else `ILP32`.
    fn default() -> (r: DataModel)
        ensures
            r == (if usize::BITS == 64 {
                DataModel::LP64
            } else {
                DataModel::ILP32
            }),
    {
        if usize::BITS == 64 {
            DataModel::LP64
        } else {
            DataModel::ILP32
        }
    }
}

/// The endianness of the platform.
#[derive(Debug, Clone, Copy, PartialEq, Eq, Structural)]
pub enum DataEncoding {
    Unspecified,
    LittleEndian,
    BigEndian,
}

/// The byte that stands for a data encoding in a DOF identifier.
pub open spec fn encoding_byte(e: DataEncoding) -> u8 {
    match e {
        DataEncoding::Unspecified => 0,
        DataEncoding::LittleEndian => 1,
        DataEncoding::BigEndian => 2,
    }
}

/// The data encoding a byte stands for, if any.
pub open spec fn encoding_of(x: u8) -> Option<DataEncoding> {
    if x == 0 {
        Some(DataEncoding::Unspecified)
    } else if x == 1 {
        Some(DataEncoding::LittleEndian)
    } else if x == 2 {
        Some(DataEncoding::BigEndian)
    } else {
        None
    }
}

impl DataEncoding {
    /// The data encoding for the given byte, or `InvalidIdentifier`.
    pub fn try_from(x: u8) -> (r: Result<DataEncoding, Error>)
        ensures
            match r {
                Ok(e) => encoding_of(x) == Some(e),
                Err(e) => encoding_of(x) is None && e is InvalidIdentifier,
            },
    {
        if x == 0 {
            Ok(DataEncoding::Unspecified)
        } else if x == 1 {
            Ok(DataEncoding::LittleEndian)
        } else if x == 2 {
            Ok(DataEncoding::BigEndian)
        } else {
            Err(Error::InvalidIdentifier)
        }
    }

    /// The byte that stands for this data encoding.
    pub fn as_u8(&self) -> (r: u8)
        ensures
            r == encoding_byte(*self),
    {
        match self {
            DataEncoding::Unspecified => 0,
            DataEncoding::LittleEndian => 1,
            DataEncoding::BigEndian => 2,
        }
    }
}

/// The data encoding that stands for the byte order `ord`.
pub open spec fn encoding_for(ord: ByteOrder) -> DataEncoding {
    match ord {
        ByteOrder::Little => DataEncoding::LittleEndian,
        ByteOrder::Big => DataEncoding::BigEndian,
    }
}

impl DataEncoding {
    /// The data encoding that stands for the byte order `ord`.
    pub fn for_order(ord: ByteOrder) -> (r: DataEncoding)
        ensures
            r == encoding_for(ord),
    {
        match ord {
            ByteOrder::Little => DataEncoding::LittleEndian,
            ByteOrder::Big => DataEncoding::BigEndian,
        }
    }
}

impl Default for DataEncoding {
    /// The byte order of the machine.
    fn default() -> (r: DataEncoding)
        ensures
            r == encoding_for(ByteOrder::Little) || r == encoding_for(ByteOrder::Big),
    {
        DataEncoding::for_order(native_order())
    }
}

/// Static identifying information about a DOF section (such as version numbers).
#[derive(Debug, Clone, Copy)]
pub struct Ident {
    pub magic: [u8; 4],
    pub model: DataModel,
    pub encoding: DataEncoding,
    pub version: u8,
}

/// The size of an `Ident` in memory: four magic bytes, the model, the
/// encoding and the version.
pub const IDENT_SIZE: usize = 7;

/// What the identifying bytes `b` decode to: the model, encoding and version,
/// or the error.
pub open spec fn ident_of(b: Seq<u8>) -> Result<(DataModel, DataEncoding, u8), Error> {
    if b.len() < IDENT_SIZE {
        Err(Error::ParseError)
    } else if b.subrange(0, 4) != dof_magic() {
        Err(Error::InvalidIdentifier)
    } else {
        match (model_of(b[4]), encoding_of(b[5])) {
            (Some(m), Some(e)) => Ok((m, e, b[6])),
            _ => Err(Error::InvalidIdentifier),
        }
    }
}

/// The DOF version that probes are registered with: version 2 knows
/// is-enabled probes.
pub const DOF_VERSION: u8 = 2;

/// `id` identifies DOF built for this platform with its integers in the
/// byte order `ord`: DOF's magic bytes, the platform's data model, the
/// encoding of `ord`, and version 2.
pub open spec fn is_platform_ident(id: Ident, ord: ByteOrder) -> bool {
    &&& id.magic@ == dof_magic()
    &&& id.model == (if usize::BITS == 64 {
        DataModel::LP64
    } else {
        DataModel::ILP32
    })
    &&& id.encoding == encoding_for(ord)
    &&& id.version == DOF_VERSION
}

impl Ident {
    /// The identifier of DOF built for this platform with its integers in the
    /// byte order `ord`.
    pub fn for_order(ord: ByteOrder) -> (r: Ident)
        ensures
            is_platform_ident(r, ord),
    {
        let magic: [u8; 4] = [0x7f, 0x44, 0x4f, 0x46];
        proof {
            assert(magic@ =~= dof_magic());
        }
        Ident { magic, model: DataModel::default(), encoding: DataEncoding::for_order(ord), version: DOF_VERSION }
    }
}

impl Default for Ident {
    /// The identifier of DOF built for this platform: DOF's magic bytes, the
    /// platform's data model and byte order, and version 2.
    fn default() -> (r: Ident)
        ensures
            is_platform_ident(r, ByteOrder::Little) || is_platform_ident(r, ByteOrder::Big),
    {
        Ident::for_order(native_order())
    }
}

/// The sixteen identifying bytes of a DOF header for `id`.
pub open spec fn ident_bytes(id: Ident) -> Seq<u8> {
    id.magic@ + seq![model_byte(id.model), encoding_byte(id.encoding), id.version] + Seq::new(
        9,
        |i: int| 0u8,
    )
}

impl Ident {
    /// Read an identifier from the start of `buf`.
    pub fn try_from(buf: &[u8]) -> (r: Result<Ident, Error>)
        ensures
            match r {
                Ok(id) => id.magic@ == dof_magic() && ident_of(buf@) == Ok::<
                    (DataModel, DataEncoding, u8),
                    Error,
                >((id.model, id.encoding, id.version)),
                Err(e) => ident_of(buf@) == Err::<(DataModel, DataEncoding, u8), Error>(e),
            },
    {
        if buf.len() < IDENT_SIZE {
            return Err(Error::ParseError);
        }
        if !(buf[0] == 0x7f && buf[1] == 0x44 && buf[2] == 0x4f && buf[3] == 0x46) {
            proof {
                if buf@.subrange(0, 4) == dof_magic() {
                    assert(buf@.subrange(0, 4)[0] == buf@[0]);
                    assert(buf@.subrange(0, 4)[1] == buf@[1]);
                    assert(buf@.subrange(0, 4)[2] == buf@[2]);
                    assert(buf@.subrange(0, 4)[3] == buf@[3]);
                }
            }
            return Err(Error::InvalidIdentifier);
        }
        proof {
            assert(buf@.subrange(0, 4) =~= dof_magic());
        }
        let model = match DataModel::try_from(buf[4]) {
            Ok(m) => m,
            Err(e) => return Err(e),
        };
        let encoding = match DataEncoding::try_from(buf[5]) {
            Ok(e) => e,
            Err(e) => return Err(e),
        };
        let version = buf[6];
        let magic: [u8; 4] = [buf[0], buf[1], buf[2], buf[3]];
        proof {
            assert(magic@ =~= dof_magic());
        }
        Ok(Ident { magic, model, encoding, version })
    }

    /// The sixteen identifying bytes of a DOF header: the magic, model,
    /// encoding and version, then zeros.
    pub fn as_bytes(&self) -> (r: [u8; 16])
        ensures
            r@ == ident_bytes(*self),
    {
        let r: [u8; 16] = [
            self.magic[0],
            self.magic[1],
            self.magic[2],
            self.magic[3],
            self.model.as_u8(),
            self.encoding.as_u8(),
            self.version,
            0,
            0,
            0,
            0,
            0,
            0,
            0,
            0,
            0,
        ];
        proof {
            assert(r@ =~= ident_bytes(*self));
        }
        r
    }
}

/// Information about a single DTrace probe.
#[derive(Debug, Clone)]
pub struct Probe {
    /// Name of this probe.
    pub name: String,
    /// Name of the function containing this probe.
    pub function: String,
    /// Address or offset in the resulting object code.
    pub address: u64,
    /// Offsets in the containing function at which this probe occurs.
    pub offsets: Vec<u32>,
    /// Offsets in the containing function at which this probe's is-enabled
    /// functions occur.
    pub enabled_offsets: Vec<u32>,
}

/// A probe as plain values.
pub struct ProbeView {
    pub name: Seq<char>,
    pub function: Seq<char>,
    pub address: u64,
    pub offsets: Seq<u32>,
    pub enabled_offsets: Seq<u32>,
}

impl View for Probe {
    type V = ProbeView;

    open spec fn view(&self) -> ProbeView {
        ProbeView {
            name: self.name@,
            function: self.function@,
            address: self.address,
            offsets: self.offsets@,
            enabled_offsets: self.enabled_offsets@,
        }
    }
}

/// Information about a single provider.
#[derive(Debug, Clone)]
pub struct Provider {
    /// Name of the provider.
    pub name: String,
    /// List of probes this provider exports.
    pub probes: Vec<Probe>,
}

/// A provider as plain values.
pub struct ProviderView {
    pub name: Seq<char>,
    pub probes: Seq<ProbeView>,
}

impl View for Provider {
    type V = ProviderView;

    open spec fn view(&self) -> ProviderView {
        ProviderView { name: self.name@, probes: self.probes@.map_values(|p: Probe| p@) }
    }
}

/// Representation of a DOF section of an object file.
#[derive(Debug, Clone)]
pub struct Section {
    /// The identifying bytes of this section.
    pub ident: Ident,
    /// The list of providers defined in this section.
    pub providers: Vec<Provider>,
}

/// A section as plain values.
pub struct SectionView {
    pub ident: Ident,
    pub providers: Seq<ProviderView>,
}

impl View for Section {
    type V = SectionView;

    open spec fn view(&self) -> SectionView {
        SectionView { ident: self.ident, providers: self.providers@.map_values(|p: Provider| p@) }
    }
}

/// Reading back the byte of a data model or an encoding gives it again.
pub proof fn lemma_model_encoding_roundtrip(m: DataModel, e: DataEncoding)
    ensures
        model_of(model_byte(m)) == Some(m),
        encoding_of(encoding_byte(e)) == Some(e),
{
}

/// Reading back the identifying bytes of an identifier with DOF's magic gives
/// its model, encoding and version.
pub proof fn lemma_ident_roundtrip(id: Ident)
    requires
        id.magic@ == dof_magic(),
    ensures
        ident_of(ident_bytes(id)) == Ok::<(DataModel, DataEncoding, u8), Error>(
            (id.model, id.encoding, id.version),
        ),
{
    let b = ident_bytes(id);
    assert(b.subrange(0, 4) =~= id.magic@);
    lemma_model_encoding_roundtrip(id.model, id.encoding);
}

} // verus!
