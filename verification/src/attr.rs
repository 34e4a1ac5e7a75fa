//! The rules for providers written as Rust modules: which argument types D
//! knows, what type a probe argument has, and which probe functions and `use`
//! items a provider module may hold.

use vstd::prelude::*;
use vstd::string::*;
use crate::definition::DataType;
use crate::types::{BitWidth, DataType as NativeDataType, Integer, Sign, c_integer_name, ffi_integer_name, rust_integer_name};

verus! {

/// The names of the Rust types that have an analog in D.
pub open spec fn simple_type_names() -> Seq<Seq<char>> {
    seq![
        "u8"@, "u16"@, "u32"@, "u64"@, "i8"@, "i16"@, "i32"@, "i64"@, "String"@, "str"@,
    ]
}

/// The integer that a Rust integer type name stands for.
pub open spec fn integer_named(name: Seq<char>) -> Option<Integer> {
    if name == "u8"@ {
        Some(Integer { sign: Sign::Unsigned, width: BitWidth::Bit8 })
    } else if name == "u16"@ {
        Some(Integer { sign: Sign::Unsigned, width: BitWidth::Bit16 })
    } else if name == "u32"@ {
        Some(Integer { sign: Sign::Unsigned, width: BitWidth::Bit32 })
    } else if name == "u64"@ {
        Some(Integer { sign: Sign::Unsigned, width: BitWidth::Bit64 })
    } else if name == "i8"@ {
        Some(Integer { sign: Sign::Signed, width: BitWidth::Bit8 })
    } else if name == "i16"@ {
        Some(Integer { sign: Sign::Signed, width: BitWidth::Bit16 })
    } else if name == "i32"@ {
        Some(Integer { sign: Sign::Signed, width: BitWidth::Bit32 })
    } else if name == "i64"@ {
        Some(Integer { sign: Sign::Signed, width: BitWidth::Bit64 })
    } else {
        None
    }
}

/// The Rust name of an integer type names that type: it begins with `i`
/// exactly when the integer is signed, and, for a fixed width, the attribute
/// macro reads it back as the same integer type. Its C name begins with `u`
/// exactly when the integer is unsigned.
pub proof fn lemma_rust_integer_name_reads_back(n: Integer)
    ensures
        (rust_integer_name(n)[0] == 'i') <==> n.sign == Sign::Signed,
        (c_integer_name(n)[0] == 'u') <==> n.sign == Sign::Unsigned,
        n.width != BitWidth::Pointer ==> integer_named(rust_integer_name(n)) == Some(n),
{
    reveal_strlit("u8");
    reveal_strlit("u16");
    reveal_strlit("u32");
    reveal_strlit("u64");
    reveal_strlit("usize");
    reveal_strlit("i8");
    reveal_strlit("i16");
    reveal_strlit("i32");
    reveal_strlit("i64");
    reveal_strlit("isize");
    reveal_strlit("uint8_t");
    reveal_strlit("uint16_t");
    reveal_strlit("uint32_t");
    reveal_strlit("uint64_t");
    reveal_strlit("uintptr_t");
    reveal_strlit("int8_t");
    reveal_strlit("int16_t");
    reveal_strlit("int32_t");
    reveal_strlit("int64_t");
    reveal_strlit("intptr_t");
    assert("u16"@ != "u8"@) by { assert("u16"@.len() != "u8"@.len()); }
    assert("u16"@ != "u32"@) by { assert("u16"@[1] != "u32"@[1]); }
    assert("u16"@ != "u64"@) by { assert("u16"@[1] != "u64"@[1]); }
    assert("u32"@ != "u8"@) by { assert("u32"@.len() != "u8"@.len()); }
    assert("u32"@ != "u64"@) by { assert("u32"@[1] != "u64"@[1]); }
    assert("u64"@ != "u8"@) by { assert("u64"@.len() != "u8"@.len()); }
    assert("i8"@ != "u8"@) by { assert("i8"@[0] != "u8"@[0]); }
    assert("i8"@ != "u16"@) by { assert("i8"@.len() != "u16"@.len()); }
    assert("i8"@ != "u32"@) by { assert("i8"@.len() != "u32"@.len()); }
    assert("i8"@ != "u64"@) by { assert("i8"@.len() != "u64"@.len()); }
    assert("i16"@ != "u8"@) by { assert("i16"@.len() != "u8"@.len()); }
    assert("i16"@ != "u16"@) by { assert("i16"@[0] != "u16"@[0]); }
    assert("i16"@ != "u32"@) by { assert("i16"@[0] != "u32"@[0]); }
    assert("i16"@ != "u64"@) by { assert("i16"@[0] != "u64"@[0]); }
    assert("i16"@ != "i8"@) by { assert("i16"@.len() != "i8"@.len()); }
    assert("i16"@ != "i32"@) by { assert("i16"@[1] != "i32"@[1]); }
    assert("i16"@ != "i64"@) by { assert("i16"@[1] != "i64"@[1]); }
    assert("i32"@ != "u8"@) by { assert("i32"@.len() != "u8"@.len()); }
    assert("i32"@ != "u16"@) by { assert("i32"@[0] != "u16"@[0]); }
    assert("i32"@ != "u32"@) by { assert("i32"@[0] != "u32"@[0]); }
    assert("i32"@ != "u64"@) by { assert("i32"@[0] != "u64"@[0]); }
    assert("i32"@ != "i8"@) by { assert("i32"@.len() != "i8"@.len()); }
    assert("i32"@ != "i64"@) by { assert("i32"@[1] != "i64"@[1]); }
    assert("i64"@ != "u8"@) by { assert("i64"@.len() != "u8"@.len()); }
    assert("i64"@ != "u16"@) by { assert("i64"@[0] != "u16"@[0]); }
    assert("i64"@ != "u32"@) by { assert("i64"@[0] != "u32"@[0]); }
    assert("i64"@ != "u64"@) by { assert("i64"@[0] != "u64"@[0]); }
    assert("i64"@ != "i8"@) by { assert("i64"@.len() != "i8"@.len()); }
}

/// The names of the fixed-width integer types are pairwise different in
/// each of the three tables.
proof fn lemma_integer_names_differ()
    ensures
        "u8"@ != "u16"@,
        "u8"@ != "u32"@,
        "u8"@ != "u64"@,
        "u8"@ != "i8"@,
        "u8"@ != "i16"@,
        "u8"@ != "i32"@,
        "u8"@ != "i64"@,
        "u16"@ != "u32"@,
        "u16"@ != "u64"@,
        "u16"@ != "i8"@,
        "u16"@ != "i16"@,
        "u16"@ != "i32"@,
        "u16"@ != "i64"@,
        "u32"@ != "u64"@,
        "u32"@ != "i8"@,
        "u32"@ != "i16"@,
        "u32"@ != "i32"@,
        "u32"@ != "i64"@,
        "u64"@ != "i8"@,
        "u64"@ != "i16"@,
        "u64"@ != "i32"@,
        "u64"@ != "i64"@,
        "i8"@ != "i16"@,
        "i8"@ != "i32"@,
        "i8"@ != "i64"@,
        "i16"@ != "i32"@,
        "i16"@ != "i64"@,
        "i32"@ != "i64"@,
        "uint8_t"@ != "uint16_t"@,
        "uint8_t"@ != "uint32_t"@,
        "uint8_t"@ != "uint64_t"@,
        "uint8_t"@ != "int8_t"@,
        "uint8_t"@ != "int16_t"@,
        "uint8_t"@ != "int32_t"@,
        "uint8_t"@ != "int64_t"@,
        "uint16_t"@ != "uint32_t"@,
        "uint16_t"@ != "uint64_t"@,
        "uint16_t"@ != "int8_t"@,
        "uint16_t"@ != "int16_t"@,
        "uint16_t"@ != "int32_t"@,
        "uint16_t"@ != "int64_t"@,
        "uint32_t"@ != "uint64_t"@,
        "uint32_t"@ != "int8_t"@,
        "uint32_t"@ != "int16_t"@,
        "uint32_t"@ != "int32_t"@,
        "uint32_t"@ != "int64_t"@,
        "uint64_t"@ != "int8_t"@,
        "uint64_t"@ != "int16_t"@,
        "uint64_t"@ != "int32_t"@,
        "uint64_t"@ != "int64_t"@,
        "int8_t"@ != "int16_t"@,
        "int8_t"@ != "int32_t"@,
        "int8_t"@ != "int64_t"@,
        "int16_t"@ != "int32_t"@,
        "int16_t"@ != "int64_t"@,
        "int32_t"@ != "int64_t"@,
        "::std::os::raw::c_uchar"@ != "::std::os::raw::c_ushort"@,
        "::std::os::raw::c_uchar"@ != "::std::os::raw::c_uint"@,
        "::std::os::raw::c_uchar"@ != "::std::os::raw::c_ulonglong"@,
        "::std::os::raw::c_uchar"@ != "::std::os::raw::c_schar"@,
        "::std::os::raw::c_uchar"@ != "::std::os::raw::c_short"@,
        "::std::os::raw::c_uchar"@ != "::std::os::raw::c_int"@,
        "::std::os::raw::c_uchar"@ != "::std::os::raw::c_longlong"@,
        "::std::os::raw::c_ushort"@ != "::std::os::raw::c_uint"@,
        "::std::os::raw::c_ushort"@ != "::std::os::raw::c_ulonglong"@,
        "::std::os::raw::c_ushort"@ != "::std::os::raw::c_schar"@,
        "::std::os::raw::c_ushort"@ != "::std::os::raw::c_short"@,
        "::std::os::raw::c_ushort"@ != "::std::os::raw::c_int"@,
        "::std::os::raw::c_ushort"@ != "::std::os::raw::c_longlong"@,
        "::std::os::raw::c_uint"@ != "::std::os::raw::c_ulonglong"@,
        "::std::os::raw::c_uint"@ != "::std::os::raw::c_schar"@,
        "::std::os::raw::c_uint"@ != "::std::os::raw::c_short"@,
        "::std::os::raw::c_uint"@ != "::std::os::raw::c_int"@,
        "::std::os::raw::c_uint"@ != "::std::os::raw::c_longlong"@,
        "::std::os::raw::c_ulonglong"@ != "::std::os::raw::c_schar"@,
        "::std::os::raw::c_ulonglong"@ != "::std::os::raw::c_short"@,
        "::std::os::raw::c_ulonglong"@ != "::std::os::raw::c_int"@,
        "::std::os::raw::c_ulonglong"@ != "::std::os::raw::c_longlong"@,
        "::std::os::raw::c_schar"@ != "::std::os::raw::c_short"@,
        "::std::os::raw::c_schar"@ != "::std::os::raw::c_int"@,
        "::std::os::raw::c_schar"@ != "::std::os::raw::c_longlong"@,
        "::std::os::raw::c_short"@ != "::std::os::raw::c_int"@,
        "::std::os::raw::c_short"@ != "::std::os::raw::c_longlong"@,
        "::std::os::raw::c_int"@ != "::std::os::raw::c_longlong"@,
{
    reveal_strlit("u8");
    reveal_strlit("u16");
    reveal_strlit("u32");
    reveal_strlit("u64");
    reveal_strlit("i8");
    reveal_strlit("i16");
    reveal_strlit("i32");
    reveal_strlit("i64");
    reveal_strlit("uint8_t");
    reveal_strlit("uint16_t");
    reveal_strlit("uint32_t");
    reveal_strlit("uint64_t");
    reveal_strlit("int8_t");
    reveal_strlit("int16_t");
    reveal_strlit("int32_t");
    reveal_strlit("int64_t");
    reveal_strlit("::std::os::raw::c_uchar");
    reveal_strlit("::std::os::raw::c_ushort");
    reveal_strlit("::std::os::raw::c_uint");
    reveal_strlit("::std::os::raw::c_ulonglong");
    reveal_strlit("::std::os::raw::c_schar");
    reveal_strlit("::std::os::raw::c_short");
    reveal_strlit("::std::os::raw::c_int");
    reveal_strlit("::std::os::raw::c_longlong");
    assert("u8"@ != "u16"@) by { assert("u8"@.len() != "u16"@.len()); }
    assert("u8"@ != "u32"@) by { assert("u8"@.len() != "u32"@.len()); }
    assert("u8"@ != "u64"@) by { assert("u8"@.len() != "u64"@.len()); }
    assert("u8"@ != "i8"@) by { assert("u8"@[0] != "i8"@[0]); }
    assert("u8"@ != "i16"@) by { assert("u8"@.len() != "i16"@.len()); }
    assert("u8"@ != "i32"@) by { assert("u8"@.len() != "i32"@.len()); }
    assert("u8"@ != "i64"@) by { assert("u8"@.len() != "i64"@.len()); }
    assert("u16"@ != "u32"@) by { assert("u16"@[1] != "u32"@[1]); }
    assert("u16"@ != "u64"@) by { assert("u16"@[1] != "u64"@[1]); }
    assert("u16"@ != "i8"@) by { assert("u16"@.len() != "i8"@.len()); }
    assert("u16"@ != "i16"@) by { assert("u16"@[0] != "i16"@[0]); }
    assert("u16"@ != "i32"@) by { assert("u16"@[0] != "i32"@[0]); }
    assert("u16"@ != "i64"@) by { assert("u16"@[0] != "i64"@[0]); }
    assert("u32"@ != "u64"@) by { assert("u32"@[1] != "u64"@[1]); }
    assert("u32"@ != "i8"@) by { assert("u32"@.len() != "i8"@.len()); }
    assert("u32"@ != "i16"@) by { assert("u32"@[0] != "i16"@[0]); }
    assert("u32"@ != "i32"@) by { assert("u32"@[0] != "i32"@[0]); }
    assert("u32"@ != "i64"@) by { assert("u32"@[0] != "i64"@[0]); }
    assert("u64"@ != "i8"@) by { assert("u64"@.len() != "i8"@.len()); }
    assert("u64"@ != "i16"@) by { assert("u64"@[0] != "i16"@[0]); }
    assert("u64"@ != "i32"@) by { assert("u64"@[0] != "i32"@[0]); }
    assert("u64"@ != "i64"@) by { assert("u64"@[0] != "i64"@[0]); }
    assert("i8"@ != "i16"@) by { assert("i8"@.len() != "i16"@.len()); }
    assert("i8"@ != "i32"@) by { assert("i8"@.len() != "i32"@.len()); }
    assert("i8"@ != "i64"@) by { assert("i8"@.len() != "i64"@.len()); }
    assert("i16"@ != "i32"@) by { assert("i16"@[1] != "i32"@[1]); }
    assert("i16"@ != "i64"@) by { assert("i16"@[1] != "i64"@[1]); }
    assert("i32"@ != "i64"@) by { assert("i32"@[1] != "i64"@[1]); }
    assert("uint8_t"@ != "uint16_t"@) by { assert("uint8_t"@.len() != "uint16_t"@.len()); }
    assert("uint8_t"@ != "uint32_t"@) by { assert("uint8_t"@.len() != "uint32_t"@.len()); }
    assert("uint8_t"@ != "uint64_t"@) by { assert("uint8_t"@.len() != "uint64_t"@.len()); }
    assert("uint8_t"@ != "int8_t"@) by { assert("uint8_t"@.len() != "int8_t"@.len()); }
    assert("uint8_t"@ != "int16_t"@) by { assert("uint8_t"@[0] != "int16_t"@[0]); }
    assert("uint8_t"@ != "int32_t"@) by { assert("uint8_t"@[0] != "int32_t"@[0]); }
    assert("uint8_t"@ != "int64_t"@) by { assert("uint8_t"@[0] != "int64_t"@[0]); }
    assert("uint16_t"@ != "uint32_t"@) by { assert("uint16_t"@[4] != "uint32_t"@[4]); }
    assert("uint16_t"@ != "uint64_t"@) by { assert("uint16_t"@[4] != "uint64_t"@[4]); }
    assert("uint16_t"@ != "int8_t"@) by { assert("uint16_t"@.len() != "int8_t"@.len()); }
    assert("uint16_t"@ != "int16_t"@) by { assert("uint16_t"@.len() != "int16_t"@.len()); }
    assert("uint16_t"@ != "int32_t"@) by { assert("uint16_t"@.len() != "int32_t"@.len()); }
    assert("uint16_t"@ != "int64_t"@) by { assert("uint16_t"@.len() != "int64_t"@.len()); }
    assert("uint32_t"@ != "uint64_t"@) by { assert("uint32_t"@[4] != "uint64_t"@[4]); }
    assert("uint32_t"@ != "int8_t"@) by { assert("uint32_t"@.len() != "int8_t"@.len()); }
    assert("uint32_t"@ != "int16_t"@) by { assert("uint32_t"@.len() != "int16_t"@.len()); }
    assert("uint32_t"@ != "int32_t"@) by { assert("uint32_t"@.len() != "int32_t"@.len()); }
    assert("uint32_t"@ != "int64_t"@) by { assert("uint32_t"@.len() != "int64_t"@.len()); }
    assert("uint64_t"@ != "int8_t"@) by { assert("uint64_t"@.len() != "int8_t"@.len()); }
    assert("uint64_t"@ != "int16_t"@) by { assert("uint64_t"@.len() != "int16_t"@.len()); }
    assert("uint64_t"@ != "int32_t"@) by { assert("uint64_t"@.len() != "int32_t"@.len()); }
    assert("uint64_t"@ != "int64_t"@) by { assert("uint64_t"@.len() != "int64_t"@.len()); }
    assert("int8_t"@ != "int16_t"@) by { assert("int8_t"@.len() != "int16_t"@.len()); }
    assert("int8_t"@ != "int32_t"@) by { assert("int8_t"@.len() != "int32_t"@.len()); }
    assert("int8_t"@ != "int64_t"@) by { assert("int8_t"@.len() != "int64_t"@.len()); }
    assert("int16_t"@ != "int32_t"@) by { assert("int16_t"@[3] != "int32_t"@[3]); }
    assert("int16_t"@ != "int64_t"@) by { assert("int16_t"@[3] != "int64_t"@[3]); }
    assert("int32_t"@ != "int64_t"@) by { assert("int32_t"@[3] != "int64_t"@[3]); }
    assert("::std::os::raw::c_uchar"@ != "::std::os::raw::c_ushort"@) by { assert("::std::os::raw::c_uchar"@.len() != "::std::os::raw::c_ushort"@.len()); }
    assert("::std::os::raw::c_uchar"@ != "::std::os::raw::c_uint"@) by { assert("::std::os::raw::c_uchar"@.len() != "::std::os::raw::c_uint"@.len()); }
    assert("::std::os::raw::c_uchar"@ != "::std::os::raw::c_ulonglong"@) by { assert("::std::os::raw::c_uchar"@.len() != "::std::os::raw::c_ulonglong"@.len()); }
    assert("::std::os::raw::c_uchar"@ != "::std::os::raw::c_schar"@) by { assert("::std::os::raw::c_uchar"@[18] != "::std::os::raw::c_schar"@[18]); }
    assert("::std::os::raw::c_uchar"@ != "::std::os::raw::c_short"@) by { assert("::std::os::raw::c_uchar"@[18] != "::std::os::raw::c_short"@[18]); }
    assert("::std::os::raw::c_uchar"@ != "::std::os::raw::c_int"@) by { assert("::std::os::raw::c_uchar"@.len() != "::std::os::raw::c_int"@.len()); }
    assert("::std::os::raw::c_uchar"@ != "::std::os::raw::c_longlong"@) by { assert("::std::os::raw::c_uchar"@.len() != "::std::os::raw::c_longlong"@.len()); }
    assert("::std::os::raw::c_ushort"@ != "::std::os::raw::c_uint"@) by { assert("::std::os::raw::c_ushort"@.len() != "::std::os::raw::c_uint"@.len()); }
    assert("::std::os::raw::c_ushort"@ != "::std::os::raw::c_ulonglong"@) by { assert("::std::os::raw::c_ushort"@.len() != "::std::os::raw::c_ulonglong"@.len()); }
    assert("::std::os::raw::c_ushort"@ != "::std::os::raw::c_schar"@) by { assert("::std::os::raw::c_ushort"@.len() != "::std::os::raw::c_schar"@.len()); }
    assert("::std::os::raw::c_ushort"@ != "::std::os::raw::c_short"@) by { assert("::std::os::raw::c_ushort"@.len() != "::std::os::raw::c_short"@.len()); }
    assert("::std::os::raw::c_ushort"@ != "::std::os::raw::c_int"@) by { assert("::std::os::raw::c_ushort"@.len() != "::std::os::raw::c_int"@.len()); }
    assert("::std::os::raw::c_ushort"@ != "::std::os::raw::c_longlong"@) by { assert("::std::os::raw::c_ushort"@.len() != "::std::os::raw::c_longlong"@.len()); }
    assert("::std::os::raw::c_uint"@ != "::std::os::raw::c_ulonglong"@) by { assert("::std::os::raw::c_uint"@.len() != "::std::os::raw::c_ulonglong"@.len()); }
    assert("::std::os::raw::c_uint"@ != "::std::os::raw::c_schar"@) by { assert("::std::os::raw::c_uint"@.len() != "::std::os::raw::c_schar"@.len()); }
    assert("::std::os::raw::c_uint"@ != "::std::os::raw::c_short"@) by { assert("::std::os::raw::c_uint"@.len() != "::std::os::raw::c_short"@.len()); }
    assert("::std::os::raw::c_uint"@ != "::std::os::raw::c_int"@) by { assert("::std::os::raw::c_uint"@.len() != "::std::os::raw::c_int"@.len()); }
    assert("::std::os::raw::c_uint"@ != "::std::os::raw::c_longlong"@) by { assert("::std::os::raw::c_uint"@.len() != "::std::os::raw::c_longlong"@.len()); }
    assert("::std::os::raw::c_ulonglong"@ != "::std::os::raw::c_schar"@) by { assert("::std::os::raw::c_ulonglong"@.len() != "::std::os::raw::c_schar"@.len()); }
    assert("::std::os::raw::c_ulonglong"@ != "::std::os::raw::c_short"@) by { assert("::std::os::raw::c_ulonglong"@.len() != "::std::os::raw::c_short"@.len()); }
    assert("::std::os::raw::c_ulonglong"@ != "::std::os::raw::c_int"@) by { assert("::std::os::raw::c_ulonglong"@.len() != "::std::os::raw::c_int"@.len()); }
    assert("::std::os::raw::c_ulonglong"@ != "::std::os::raw::c_longlong"@) by { assert("::std::os::raw::c_ulonglong"@.len() != "::std::os::raw::c_longlong"@.len()); }
    assert("::std::os::raw::c_schar"@ != "::std::os::raw::c_short"@) by { assert("::std::os::raw::c_schar"@[19] != "::std::os::raw::c_short"@[19]); }
    assert("::std::os::raw::c_schar"@ != "::std::os::raw::c_int"@) by { assert("::std::os::raw::c_schar"@.len() != "::std::os::raw::c_int"@.len()); }
    assert("::std::os::raw::c_schar"@ != "::std::os::raw::c_longlong"@) by { assert("::std::os::raw::c_schar"@.len() != "::std::os::raw::c_longlong"@.len()); }
    assert("::std::os::raw::c_short"@ != "::std::os::raw::c_int"@) by { assert("::std::os::raw::c_short"@.len() != "::std::os::raw::c_int"@.len()); }
    assert("::std::os::raw::c_short"@ != "::std::os::raw::c_longlong"@) by { assert("::std::os::raw::c_short"@.len() != "::std::os::raw::c_longlong"@.len()); }
    assert("::std::os::raw::c_int"@ != "::std::os::raw::c_longlong"@) by { assert("::std::os::raw::c_int"@.len() != "::std::os::raw::c_longlong"@.len()); }
}

/// The C, Rust and Rust FFI names of an integer type of fixed width agree:
/// the C name is `int` or `uint` followed by the digits of the Rust name and
/// `_t`, the FFI name is the C type name of `std::os::raw`, with a `u` after
/// `c_` exactly when the integer is unsigned, and different integer types
/// have different names in each.
pub proof fn lemma_integer_names_agree(n: Integer, m: Integer)
    requires
        n.width != BitWidth::Pointer,
        m.width != BitWidth::Pointer,
    ensures
        c_integer_name(n) == (if n.sign == Sign::Unsigned {
            "uint"@
        } else {
            "int"@
        }) + rust_integer_name(n).subrange(1, rust_integer_name(n).len() as int) + "_t"@,
        ffi_integer_name(n).subrange(0, 18) == "::std::os::raw::c_"@,
        (ffi_integer_name(n)[18] == 'u') <==> n.sign == Sign::Unsigned,
        n != m ==> rust_integer_name(n) != rust_integer_name(m),
        n != m ==> c_integer_name(n) != c_integer_name(m),
        n != m ==> ffi_integer_name(n) != ffi_integer_name(m),
{
    lemma_integer_names_differ();
    reveal_strlit("u8");
    reveal_strlit("u16");
    reveal_strlit("u32");
    reveal_strlit("u64");
    reveal_strlit("i8");
    reveal_strlit("i16");
    reveal_strlit("i32");
    reveal_strlit("i64");
    reveal_strlit("uint8_t");
    reveal_strlit("uint16_t");
    reveal_strlit("uint32_t");
    reveal_strlit("uint64_t");
    reveal_strlit("int8_t");
    reveal_strlit("int16_t");
    reveal_strlit("int32_t");
    reveal_strlit("int64_t");
    reveal_strlit("::std::os::raw::c_uchar");
    reveal_strlit("::std::os::raw::c_ushort");
    reveal_strlit("::std::os::raw::c_uint");
    reveal_strlit("::std::os::raw::c_ulonglong");
    reveal_strlit("::std::os::raw::c_schar");
    reveal_strlit("::std::os::raw::c_short");
    reveal_strlit("::std::os::raw::c_int");
    reveal_strlit("::std::os::raw::c_longlong");
    reveal_strlit("uint");
    reveal_strlit("int");
    reveal_strlit("_t");
    reveal_strlit("::std::os::raw::c_");
    assert(c_integer_name(n) =~= (if n.sign == Sign::Unsigned {
        "uint"@
    } else {
        "int"@
    }) + rust_integer_name(n).subrange(1, rust_integer_name(n).len() as int) + "_t"@);
    assert(ffi_integer_name(n).subrange(0, 18) =~= "::std::os::raw::c_"@);
}

/// The segments of a path joined by `::`.
pub open spec fn path_text(segments: Seq<Seq<char>>) -> Seq<char>
    decreases segments.len(),
{
    if segments.len() == 0 {
        seq![]
    } else if segments.len() == 1 {
        segments[0]
    } else {
        path_text(segments.drop_last()) + "::"@ + segments.last()
    }
}


/// The native type that a single-identifier path names, where it names one.
pub open spec fn native_named(name: Seq<char>) -> Option<NativeDataType> {
    match integer_named(name) {
        Some(n) => Some(NativeDataType::Integer(n)),
        None => if name == "String"@ || name == "str"@ {
            Some(NativeDataType::String)
        } else {
            None
        },
    }
}

/// `d` is the type of a probe argument whose type is a path: `ident` is the
/// path as a single identifier where it is one, `segments` the identifiers of
/// its segments, and `is_reference` whether the argument is a reference to
/// it. A path that names no native type is passed serialized, and its text
/// is the path, after `&` for a reference.
pub open spec fn is_type_of_path(d: DataType, ident: Option<Seq<char>>, segments: Seq<Seq<char>>, is_reference: bool) -> bool {
    let native = match ident {
        Some(name) => native_named(name),
        None => None,
    };
    match native {
        Some(t) => d == DataType::Native(t),
        None => d matches DataType::Serializable(text) && text@ == (if is_reference {
            "&"@
        } else {
            seq![]
        }) + path_text(segments),
    }
}

/// Whether two strings hold the same characters.
fn str_eq(a: &str, b: &str) -> (r: bool)
    ensures
        r == (a@ == b@),
{
    let n = a.unicode_len();
    if n != b.unicode_len() {
        return false;
    }
    let mut k: usize = 0;
    while k < n
        invariant
            n == a@.len(),
            n == b@.len(),
            0 <= k <= n,
            forall|q: int| 0 <= q < k ==> a@[q] == b@[q],
        decreases n - k,
    {
        if a.get_char(k) != b.get_char(k) {
            return false;
        }
        k = k + 1;
    }
    proof {
        assert(a@ =~= b@);
    }
    true
}

/// Whether `ident` names a Rust type that has an analog in D, rather than one
/// that is serialized.
pub fn is_simple_type(ident: &str) -> (r: bool)
    ensures
        r == simple_type_names().contains(ident@),
{
    proof {
        reveal_strlit("u8");
        reveal_strlit("u16");
        reveal_strlit("u32");
        reveal_strlit("u64");
        reveal_strlit("i8");
        reveal_strlit("i16");
        reveal_strlit("i32");
        reveal_strlit("i64");
        reveal_strlit("String");
        reveal_strlit("str");
    }
    let names = ["u8", "u16", "u32", "u64", "i8", "i16", "i32", "i64", "String", "str"];
    let mut k: usize = 0;
    while k < 10
        invariant
            0 <= k <= 10,
            forall|q: int| 0 <= q < 10 ==> #[trigger] names@[q]@ == simple_type_names()[q],
            forall|q: int| 0 <= q < k ==> simple_type_names()[q] != ident@,
        decreases 10 - k,
    {
        if str_eq(names[k], ident) {
            proof {
                assert(simple_type_names()[k as int] == ident@);
            }
            return true;
        }
        k = k + 1;
    }
    false
}

/// The native type that a single-identifier path names, where it names one.
fn native_named_exec(name: &str) -> (r: Option<NativeDataType>)
    ensures
        r == native_named(name@),
{
    proof {
        reveal_strlit("u8");
        reveal_strlit("u16");
        reveal_strlit("u32");
        reveal_strlit("u64");
        reveal_strlit("i8");
        reveal_strlit("i16");
        reveal_strlit("i32");
        reveal_strlit("i64");
        reveal_strlit("String");
        reveal_strlit("str");
    }
    if str_eq(name, "u8") {
        Some(NativeDataType::Integer(Integer { sign: Sign::Unsigned, width: BitWidth::Bit8 }))
    } else if str_eq(name, "u16") {
        Some(NativeDataType::Integer(Integer { sign: Sign::Unsigned, width: BitWidth::Bit16 }))
    } else if str_eq(name, "u32") {
        Some(NativeDataType::Integer(Integer { sign: Sign::Unsigned, width: BitWidth::Bit32 }))
    } else if str_eq(name, "u64") {
        Some(NativeDataType::Integer(Integer { sign: Sign::Unsigned, width: BitWidth::Bit64 }))
    } else if str_eq(name, "i8") {
        Some(NativeDataType::Integer(Integer { sign: Sign::Signed, width: BitWidth::Bit8 }))
    } else if str_eq(name, "i16") {
        Some(NativeDataType::Integer(Integer { sign: Sign::Signed, width: BitWidth::Bit16 }))
    } else if str_eq(name, "i32") {
        Some(NativeDataType::Integer(Integer { sign: Sign::Signed, width: BitWidth::Bit32 }))
    } else if str_eq(name, "i64") {
        Some(NativeDataType::Integer(Integer { sign: Sign::Signed, width: BitWidth::Bit64 }))
    } else if str_eq(name, "String") || str_eq(name, "str") {
        Some(NativeDataType::String)
    } else {
        None
    }
}

/// The type of a probe argument whose type is a path; see `is_type_of_path`.
pub fn data_type_from_path(ident: Option<&str>, segments: &Vec<String>, is_reference: bool) -> (r: DataType)
    ensures
        is_type_of_path(
            r,
            match ident {
                Some(i) => Some(i@),
                None => None,
            },
            segments@.map_values(|s: String| s@),
            is_reference,
        ),
{
    let native = match ident {
        Some(name) => native_named_exec(name),
        None => None,
    };
    match native {
        Some(t) => DataType::Native(t),
        None => {
            let ghost sv = segments@.map_values(|s: String| s@);
            proof {
                reveal_strlit("&");
                reveal_strlit("::");
            }
            let mut text = if is_reference {
                String::from_str("&")
            } else {
                String::new()
            };
            let ghost prefix = text@;
            let mut k: usize = 0;
            while k < segments.len()
                invariant
                    sv == segments@.map_values(|s: String| s@),
                    0 <= k <= segments@.len(),
                    text@ == prefix + path_text(sv.take(k as int)),
                decreases segments@.len() - k,
            {
                if k > 0 {
                    text.append("::");
                }
                text.append(segments[k].as_str());
                proof {
                    assert(sv.take(k + 1).drop_last() =~= sv.take(k as int));
                    if k == 0 {
                        assert(sv.take(1) =~= seq![sv[0]]);
                    }
                }
                k = k + 1;
            }
            proof {
                assert(sv.take(segments@.len() as int) =~= sv);
            }
            DataType::Serializable(text)
        },
    }
}

// ---------------------------------------------------------------------------
// Probe functions and `use` items
// ---------------------------------------------------------------------------

/// What a probe function's signature may not have, in the order in which it
/// is checked, and the message that refuses it.
pub open spec fn signature_error(is_unsafe: bool, has_abi: bool, is_async: bool, is_generic: bool, has_return_type: bool) -> Option<Seq<char>> {
    if is_unsafe {
        Some("Probe functions may not be unsafe"@)
    } else if has_abi {
        Some("Probe functions may not specify an ABI"@)
    } else if is_async {
        Some("Probe functions may not be async"@)
    } else if is_generic {
        Some("Probe functions may not be generic"@)
    } else if has_return_type {
        Some("Probe functions may not specify a return type"@)
    } else {
        None
    }
}

/// Check the signature of a probe function: the message that refuses it, or
/// `None` where it is fine.
pub fn check_probe_function_signature(is_unsafe: bool, has_abi: bool, is_async: bool, is_generic: bool, has_return_type: bool) -> (r: Option<&'static str>)
    ensures
        match r {
            Some(m) => signature_error(is_unsafe, has_abi, is_async, is_generic, has_return_type) == Some(m@),
            None => signature_error(is_unsafe, has_abi, is_async, is_generic, has_return_type) is None,
        },
{
    proof {
        reveal_strlit("Probe functions may not be unsafe");
        reveal_strlit("Probe functions may not specify an ABI");
        reveal_strlit("Probe functions may not be async");
        reveal_strlit("Probe functions may not be generic");
        reveal_strlit("Probe functions may not specify a return type");
    }
    if is_unsafe {
        Some("Probe functions may not be unsafe")
    } else if has_abi {
        Some("Probe functions may not specify an ABI")
    } else if is_async {
        Some("Probe functions may not be async")
    } else if is_generic {
        Some("Probe functions may not be generic")
    } else if has_return_type {
        Some("Probe functions may not specify a return type")
    } else {
        None
    }
}

/// What an item of a provider module is, as far as the provider rules go.
#[derive(Clone, Copy, Debug, PartialEq, Eq, Structural)]
pub enum ModuleItemKind {
    /// A function, which declares a probe.
    Function,
    /// A `use` item.
    Use,
    /// Anything else.
    Other,
}

/// Why a provider module named `name` is refused before its items are read:
/// it is named `provider`, or it has no body.
pub open spec fn module_error(name: Seq<char>, has_body: bool) -> Option<Seq<char>> {
    if name == "provider"@ {
        Some("Provider modules may not be named \"provider\""@)
    } else if !has_body {
        Some("Provider modules must have one or more probes"@)
    } else {
        None
    }
}

/// Why an item of a provider module is refused for its kind or its name
/// alone: a function named `probe`, or an item that is neither a function
/// nor a `use` item.
pub open spec fn module_item_error(kind: ModuleItemKind, name: Seq<char>) -> Option<Seq<char>> {
    match kind {
        ModuleItemKind::Function => if name == "probe"@ {
            Some("Probe functions may not be named \"probe\""@)
        } else {
            None
        },
        ModuleItemKind::Use => None,
        ModuleItemKind::Other => Some(
            "Provider modules may only include empty functions or use statements"@,
        ),
    }
}

/// Check a provider module named `name` before its items are read: the
/// message that refuses it, or `None` where it may hold probes.
pub fn check_provider_module(name: &str, has_body: bool) -> (r: Option<&'static str>)
    ensures
        match r {
            Some(m) => module_error(name@, has_body) == Some(m@),
            None => module_error(name@, has_body) is None,
        },
{
    proof {
        reveal_strlit("provider");
        reveal_strlit("Provider modules may not be named \"provider\"");
        reveal_strlit("Provider modules must have one or more probes");
    }
    if str_eq(name, "provider") {
        Some("Provider modules may not be named \"provider\"")
    } else if !has_body {
        Some("Provider modules must have one or more probes")
    } else {
        None
    }
}

/// Check an item of a provider module by its kind and, for a function, its
/// name: the message that refuses it, or `None` where it may stand.
pub fn check_module_item(kind: ModuleItemKind, name: &str) -> (r: Option<&'static str>)
    ensures
        match r {
            Some(m) => module_item_error(kind, name@) == Some(m@),
            None => module_item_error(kind, name@) is None,
        },
{
    proof {
        reveal_strlit("probe");
        reveal_strlit("Probe functions may not be named \"probe\"");
        reveal_strlit("Provider modules may only include empty functions or use statements");
    }
    match kind {
        ModuleItemKind::Function => if str_eq(name, "probe") {
            Some("Probe functions may not be named \"probe\"")
        } else {
            None
        },
        ModuleItemKind::Use => None,
        ModuleItemKind::Other => Some("Provider modules may only include empty functions or use statements"),
    }
}

/// Whether a `use` item whose leading path segments are `path` imports
/// relatively, through `super`, which the generated macros cannot do.
pub fn use_path_is_relative(path: &Vec<String>) -> (r: bool)
    ensures
        r == exists|i: int| 0 <= i < path@.len() && #[trigger] path@[i]@ == "super"@,
{
    proof {
        reveal_strlit("super");
    }
    let mut k: usize = 0;
    while k < path.len()
        invariant
            0 <= k <= path@.len(),
            forall|q: int| 0 <= q < k ==> #[trigger] path@[q]@ != "super"@,
        decreases path@.len() - k,
    {
        if str_eq(path[k].as_str(), "super") {
            return true;
        }
        k = k + 1;
    }
    false
}

} // verus!
