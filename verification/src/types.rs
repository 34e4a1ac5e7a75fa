//! The data types that a probe argument may have, as a D provider definition
//! names them.

use vstd::prelude::*;
use vstd::string::*;

verus! {

/// Whether an integer type is signed.
#[derive(Clone, Copy, Debug, PartialEq, Eq, Structural)]
pub enum Sign {
    Signed,
    Unsigned,
}

/// The width of an integer type; `Pointer` is the width of a pointer.
#[derive(Clone, Copy, Debug, PartialEq, Eq, Structural)]
pub enum BitWidth {
    Bit8,
    Bit16,
    Bit32,
    Bit64,
    Pointer,
}

/// An integer type, such as `uint8_t`.
#[derive(Clone, Copy, Debug, PartialEq, Eq, Structural)]
pub struct Integer {
    pub sign: Sign,
    pub width: BitWidth,
}

/// The data type of a single probe argument.
#[derive(Clone, Copy, Debug, PartialEq, Eq, Structural)]
pub enum DataType {
    /// An integer, such as `int32_t`.
    Integer(Integer),
    /// A pointer to an integer, such as `uint8_t*`.
    Pointer(Integer),
    /// A C string, `char*`.
    String,
}

/// A data type as the grammar reads it. Besides the types of `DataType`, the
/// legacy dialect of the grammar also names a real type and `string`.
#[derive(Clone, Copy, Debug, PartialEq, Eq, Structural)]
pub enum TypeName {
    Known(DataType),
    Real,
    Text,
}

/// The C name of an integer type, such as `uint8_t`.
pub open spec fn c_integer_name(n: Integer) -> Seq<char> {
    match (n.sign, n.width) {
        (Sign::Unsigned, BitWidth::Bit8) => "uint8_t"@,
        (Sign::Unsigned, BitWidth::Bit16) => "uint16_t"@,
        (Sign::Unsigned, BitWidth::Bit32) => "uint32_t"@,
        (Sign::Unsigned, BitWidth::Bit64) => "uint64_t"@,
        (Sign::Unsigned, BitWidth::Pointer) => "uintptr_t"@,
        (Sign::Signed, BitWidth::Bit8) => "int8_t"@,
        (Sign::Signed, BitWidth::Bit16) => "int16_t"@,
        (Sign::Signed, BitWidth::Bit32) => "int32_t"@,
        (Sign::Signed, BitWidth::Bit64) => "int64_t"@,
        (Sign::Signed, BitWidth::Pointer) => "intptr_t"@,
    }
}

/// The Rust name of an integer type, such as `u8`.
pub open spec fn rust_integer_name(n: Integer) -> Seq<char> {
    match (n.sign, n.width) {
        (Sign::Unsigned, BitWidth::Bit8) => "u8"@,
        (Sign::Unsigned, BitWidth::Bit16) => "u16"@,
        (Sign::Unsigned, BitWidth::Bit32) => "u32"@,
        (Sign::Unsigned, BitWidth::Bit64) => "u64"@,
        (Sign::Unsigned, BitWidth::Pointer) => "usize"@,
        (Sign::Signed, BitWidth::Bit8) => "i8"@,
        (Sign::Signed, BitWidth::Bit16) => "i16"@,
        (Sign::Signed, BitWidth::Bit32) => "i32"@,
        (Sign::Signed, BitWidth::Bit64) => "i64"@,
        (Sign::Signed, BitWidth::Pointer) => "isize"@,
    }
}

/// The Rust FFI name of an integer type, such as `::std::os::raw::c_uchar`.
pub open spec fn ffi_integer_name(n: Integer) -> Seq<char> {
    match (n.sign, n.width) {
        (Sign::Unsigned, BitWidth::Bit8) => "::std::os::raw::c_uchar"@,
        (Sign::Unsigned, BitWidth::Bit16) => "::std::os::raw::c_ushort"@,
        (Sign::Unsigned, BitWidth::Bit32) => "::std::os::raw::c_uint"@,
        (Sign::Unsigned, BitWidth::Bit64) => "::std::os::raw::c_ulonglong"@,
        (Sign::Unsigned, BitWidth::Pointer) => "usize"@,
        (Sign::Signed, BitWidth::Bit8) => "::std::os::raw::c_schar"@,
        (Sign::Signed, BitWidth::Bit16) => "::std::os::raw::c_short"@,
        (Sign::Signed, BitWidth::Bit32) => "::std::os::raw::c_int"@,
        (Sign::Signed, BitWidth::Bit64) => "::std::os::raw::c_longlong"@,
        (Sign::Signed, BitWidth::Pointer) => "isize"@,
    }
}

/// The C name of a data type, as it stands in D source: `uint8_t`,
/// `uint8_t*`, `char*`.
pub open spec fn c_type_name(t: DataType) -> Seq<char> {
    match t {
        DataType::Integer(n) => c_integer_name(n),
        DataType::Pointer(n) => c_integer_name(n) + "*"@,
        DataType::String => "char*"@,
    }
}

/// The Rust name of a data type: `u8`, `*const u8`, `&str`.
pub open spec fn rust_type_name(t: DataType) -> Seq<char> {
    match t {
        DataType::Integer(n) => rust_integer_name(n),
        DataType::Pointer(n) => "*const "@ + rust_integer_name(n),
        DataType::String => "&str"@,
    }
}

/// The Rust FFI name of a data type.
pub open spec fn ffi_type_name(t: DataType) -> Seq<char> {
    match t {
        DataType::Integer(n) => ffi_integer_name(n),
        DataType::Pointer(n) => "*const "@ + ffi_integer_name(n),
        DataType::String => "*const ::std::os::raw::c_char"@,
    }
}

fn c_integer_str(n: Integer) -> (s: &'static str)
    ensures
        s@ == c_integer_name(n),
{
    match (n.sign, n.width) {
        (Sign::Unsigned, BitWidth::Bit8) => "uint8_t",
        (Sign::Unsigned, BitWidth::Bit16) => "uint16_t",
        (Sign::Unsigned, BitWidth::Bit32) => "uint32_t",
        (Sign::Unsigned, BitWidth::Bit64) => "uint64_t",
        (Sign::Unsigned, BitWidth::Pointer) => "uintptr_t",
        (Sign::Signed, BitWidth::Bit8) => "int8_t",
        (Sign::Signed, BitWidth::Bit16) => "int16_t",
        (Sign::Signed, BitWidth::Bit32) => "int32_t",
        (Sign::Signed, BitWidth::Bit64) => "int64_t",
        (Sign::Signed, BitWidth::Pointer) => "intptr_t",
    }
}

fn rust_integer_str(n: Integer) -> (s: &'static str)
    ensures
        s@ == rust_integer_name(n),
{
    match (n.sign, n.width) {
        (Sign::Unsigned, BitWidth::Bit8) => "u8",
        (Sign::Unsigned, BitWidth::Bit16) => "u16",
        (Sign::Unsigned, BitWidth::Bit32) => "u32",
        (Sign::Unsigned, BitWidth::Bit64) => "u64",
        (Sign::Unsigned, BitWidth::Pointer) => "usize",
        (Sign::Signed, BitWidth::Bit8) => "i8",
        (Sign::Signed, BitWidth::Bit16) => "i16",
        (Sign::Signed, BitWidth::Bit32) => "i32",
        (Sign::Signed, BitWidth::Bit64) => "i64",
        (Sign::Signed, BitWidth::Pointer) => "isize",
    }
}

fn ffi_integer_str(n: Integer) -> (s: &'static str)
    ensures
        s@ == ffi_integer_name(n),
{
    match (n.sign, n.width) {
        (Sign::Unsigned, BitWidth::Bit8) => "::std::os::raw::c_uchar",
        (Sign::Unsigned, BitWidth::Bit16) => "::std::os::raw::c_ushort",
        (Sign::Unsigned, BitWidth::Bit32) => "::std::os::raw::c_uint",
        (Sign::Unsigned, BitWidth::Bit64) => "::std::os::raw::c_ulonglong",
        (Sign::Unsigned, BitWidth::Pointer) => "usize",
        (Sign::Signed, BitWidth::Bit8) => "::std::os::raw::c_schar",
        (Sign::Signed, BitWidth::Bit16) => "::std::os::raw::c_short",
        (Sign::Signed, BitWidth::Bit32) => "::std::os::raw::c_int",
        (Sign::Signed, BitWidth::Bit64) => "::std::os::raw::c_longlong",
        (Sign::Signed, BitWidth::Pointer) => "isize",
    }
}

impl DataType {
    /// The C type of this data type, as it stands in D source.
    pub fn to_c_type(&self) -> (s: String)
        ensures
            s@ == c_type_name(*self),
    {
        match *self {
            DataType::Integer(n) => String::from_str(c_integer_str(n)),
            DataType::Pointer(n) => {
                let mut s = String::from_str(c_integer_str(n));
                s.append("*");
                s
            },
            DataType::String => String::from_str("char*"),
        }
    }

    /// The native Rust type of this data type.
    pub fn to_rust_type(&self) -> (s: String)
        ensures
            s@ == rust_type_name(*self),
    {
        match *self {
            DataType::Integer(n) => String::from_str(rust_integer_str(n)),
            DataType::Pointer(n) => {
                let mut s = String::from_str("*const ");
                s.append(rust_integer_str(n));
                s
            },
            DataType::String => String::from_str("&str"),
        }
    }

    /// The Rust FFI type of this data type.
    pub fn to_rust_ffi_type(&self) -> (s: String)
        ensures
            s@ == ffi_type_name(*self),
    {
        match *self {
            DataType::Integer(n) => String::from_str(ffi_integer_str(n)),
            DataType::Pointer(n) => {
                let mut s = String::from_str("*const ");
                s.append(ffi_integer_str(n));
                s
            },
            DataType::String => String::from_str("*const ::std::os::raw::c_char"),
        }
    }
}

} // verus!
