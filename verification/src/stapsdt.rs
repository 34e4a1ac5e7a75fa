//! The GNU assembler operands of STAPSDT probe arguments.
//!
//! A SystemTap probe names each argument as `N@OP`: `N` is the size of the
//! argument in bytes, negative where it is signed, and `OP` the assembler
//! operand that reads it. The register that holds each argument is left to the
//! compiler: the operand names it as `{arg_N}`, with a suffix that selects the
//! width of the register.

use vstd::prelude::*;
use vstd::string::*;
use crate::text::{decimal, decimal_string, digit_char};
use crate::types::{BitWidth, Integer, Sign, DataType as NativeDataType};
use crate::definition::DataType;

verus! {

/// The architectures that STAPSDT probes are built for.
#[derive(Clone, Copy, Debug, PartialEq, Eq, Structural)]
pub enum Arch {
    X86_64,
    AArch64,
}

/// The register suffix that reads an integer of the given width.
pub open spec fn register_suffix(width: BitWidth, arch: Arch) -> Seq<char> {
    match arch {
        Arch::AArch64 => ":x"@,
        Arch::X86_64 => match width {
            BitWidth::Bit8 => ""@,
            BitWidth::Bit16 => ":x"@,
            BitWidth::Bit32 => ":e"@,
            BitWidth::Bit64 => ":r"@,
            BitWidth::Pointer => if usize::BITS == 32 {
                ":e"@
            } else {
                ":r"@
            },
        },
    }
}

/// The operand that reads an integer argument by name.
pub open spec fn asm_op(width: BitWidth, reg_index: nat, arch: Arch) -> Seq<char> {
    "{arg_"@ + decimal(reg_index) + register_suffix(width, arch) + "}"@
}

/// Convert an integer type and an argument index into a GNU assembler
/// operand that reads the integer's value from the argument by name, such as
/// `{arg_0:e}`. Up to six probe arguments are supported.
pub fn integer_to_asm_op(integer: &Integer, reg_index: u8, arch: Arch) -> (r: String)
    requires
        reg_index <= 5,
    ensures
        r@ == asm_op(integer.width, reg_index as nat, arch),
{
    let suffix: &str = match arch {
        Arch::AArch64 => ":x",
        Arch::X86_64 => match integer.width {
            BitWidth::Bit8 => "",
            BitWidth::Bit16 => ":x",
            BitWidth::Bit32 => ":e",
            BitWidth::Bit64 => ":r",
            BitWidth::Pointer => if usize::BITS == 32 {
                ":e"
            } else {
                ":r"
            },
        },
    };
    let mut r = String::from_str("{arg_");
    let d = decimal_string(reg_index as u64);
    r.append(d.as_str());
    r.append(suffix);
    r.append("}");
    r
}

/// The size of an integer argument in bytes, negative where it is signed.
pub open spec fn arg_size(integer: Integer) -> Seq<char> {
    match integer.width {
        BitWidth::Bit8 => if integer.sign == Sign::Unsigned {
            "1"@
        } else {
            "-1"@
        },
        BitWidth::Bit16 => if integer.sign == Sign::Unsigned {
            "2"@
        } else {
            "-2"@
        },
        BitWidth::Bit32 => if integer.sign == Sign::Unsigned {
            "4"@
        } else {
            "-4"@
        },
        BitWidth::Bit64 => if integer.sign == Sign::Unsigned {
            "8"@
        } else {
            "-8"@
        },
        BitWidth::Pointer => if usize::BITS == 32 {
            "4"@
        } else {
            "8"@
        },
    }
}

/// The size in bytes of an integer of width `w`.
pub open spec fn width_in_bytes(w: BitWidth) -> nat {
    match w {
        BitWidth::Bit8 => 1,
        BitWidth::Bit16 => 2,
        BitWidth::Bit32 => 4,
        BitWidth::Bit64 => 8,
        BitWidth::Pointer => (usize::BITS / 8) as nat,
    }
}

/// The STAPSDT size of an integer argument is its size in bytes, a single
/// digit, with a minus sign before it exactly when the integer is signed; a
/// pointer-width integer is sized as unsigned.
pub proof fn lemma_arg_size_sign_and_width(n: Integer)
    ensures
        arg_size(n).len() == (if arg_size(n)[0] == '-' {
            2int
        } else {
            1int
        }),
        arg_size(n).last() == digit_char(width_in_bytes(n.width)),
        n.width != BitWidth::Pointer ==> ((arg_size(n)[0] == '-') <==> n.sign == Sign::Signed),
        n.width == BitWidth::Pointer ==> arg_size(n)[0] != '-',
{
    reveal_strlit("1");
    reveal_strlit("-1");
    reveal_strlit("2");
    reveal_strlit("-2");
    reveal_strlit("4");
    reveal_strlit("-4");
    reveal_strlit("8");
    reveal_strlit("-8");
    assert(usize::BITS == 32 || usize::BITS == 64);
}

/// Convert an integer type into its STAPSDT argument size.
pub fn integer_to_arg_size(integer: &Integer) -> (r: &'static str)
    ensures
        r@ == arg_size(*integer),
{
    match integer.width {
        BitWidth::Bit8 => match integer.sign {
            Sign::Unsigned => "1",
            _ => "-1",
        },
        BitWidth::Bit16 => match integer.sign {
            Sign::Unsigned => "2",
            _ => "-2",
        },
        BitWidth::Bit32 => match integer.sign {
            Sign::Unsigned => "4",
            _ => "-4",
        },
        BitWidth::Bit64 => match integer.sign {
            Sign::Unsigned => "8",
            _ => "-8",
        },
        BitWidth::Pointer => if usize::BITS == 32 {
            "4"
        } else {
            "8"
        },
    }
}

/// An unsigned integer as wide as a pointer.
pub open spec fn pointer_integer() -> Integer {
    Integer { sign: Sign::Unsigned, width: BitWidth::Pointer }
}

/// The unsigned 64-bit integer that carries a unique ID.
pub open spec fn unique_id_integer() -> Integer {
    Integer { sign: Sign::Unsigned, width: BitWidth::Bit64 }
}

/// The operand of an argument of a native type: an integer is read as it is,
/// a pointer to an integer is read through, a string as its pointer.
pub open spec fn native_asm_op(typ: NativeDataType, reg_index: nat, arch: Arch) -> Seq<char> {
    match typ {
        NativeDataType::Integer(n) => asm_op(n.width, reg_index, arch),
        NativeDataType::Pointer(_) => "("@ + asm_op(BitWidth::Pointer, reg_index, arch) + ")"@,
        NativeDataType::String => asm_op(BitWidth::Pointer, reg_index, arch),
    }
}

/// The argument size of a native type.
pub open spec fn native_arg_size(typ: NativeDataType) -> Seq<char> {
    match typ {
        NativeDataType::Integer(n) => arg_size(n),
        _ => arg_size(pointer_integer()),
    }
}

/// The operand of an argument of any type.
pub open spec fn type_asm_op(typ: DataType, reg_index: nat, arch: Arch) -> Seq<char> {
    match typ {
        DataType::Native(ty) => native_asm_op(ty, reg_index, arch),
        DataType::UniqueId => asm_op(BitWidth::Bit64, reg_index, arch),
        DataType::Serializable(_) => asm_op(BitWidth::Pointer, reg_index, arch),
    }
}

/// The argument size of any type.
pub open spec fn type_arg_size(typ: DataType) -> Seq<char> {
    match typ {
        DataType::Native(ty) => native_arg_size(ty),
        DataType::UniqueId => arg_size(unique_id_integer()),
        DataType::Serializable(_) => arg_size(pointer_integer()),
    }
}

/// Convert a native type and an argument index to its GNU assembler operand.
fn native_data_type_to_asm_op(typ: &NativeDataType, reg_index: u8, arch: Arch) -> (r: String)
    requires
        reg_index <= 5,
    ensures
        r@ == native_asm_op(*typ, reg_index as nat, arch),
{
    let pointer = Integer { sign: Sign::Unsigned, width: BitWidth::Pointer };
    match typ {
        NativeDataType::Integer(n) => integer_to_asm_op(n, reg_index, arch),
        NativeDataType::Pointer(_) => {
            let mut r = String::from_str("(");
            let op = integer_to_asm_op(&pointer, reg_index, arch);
            r.append(op.as_str());
            r.append(")");
            r
        },
        NativeDataType::String => integer_to_asm_op(&pointer, reg_index, arch),
    }
}

/// Convert a native type to its STAPSDT argument size.
fn native_data_type_to_arg_size(typ: &NativeDataType) -> (r: &'static str)
    ensures
        r@ == native_arg_size(*typ),
{
    match typ {
        NativeDataType::Integer(n) => integer_to_arg_size(n),
        _ => integer_to_arg_size(&Integer { sign: Sign::Unsigned, width: BitWidth::Pointer }),
    }
}

/// Convert a type and an argument index to its GNU assembler operand.
fn data_type_to_asm_op(typ: &DataType, reg_index: u8, arch: Arch) -> (r: String)
    requires
        reg_index <= 5,
    ensures
        r@ == type_asm_op(*typ, reg_index as nat, arch),
{
    match typ {
        DataType::Native(ty) => native_data_type_to_asm_op(ty, reg_index, arch),
        DataType::UniqueId => integer_to_asm_op(
            &Integer { sign: Sign::Unsigned, width: BitWidth::Bit64 },
            reg_index,
            arch,
        ),
        DataType::Serializable(_) => integer_to_asm_op(
            &Integer { sign: Sign::Unsigned, width: BitWidth::Pointer },
            reg_index,
            arch,
        ),
    }
}

/// Convert a type to its STAPSDT argument size.
fn data_type_to_arg_size(typ: &DataType) -> (r: &'static str)
    ensures
        r@ == type_arg_size(*typ),
{
    match typ {
        DataType::Native(ty) => native_data_type_to_arg_size(ty),
        DataType::UniqueId => integer_to_arg_size(&Integer { sign: Sign::Unsigned, width: BitWidth::Bit64 }),
        DataType::Serializable(_) => integer_to_arg_size(
            &Integer { sign: Sign::Unsigned, width: BitWidth::Pointer },
        ),
    }
}

/// Format a probe argument, the one at `reg_index`, in the SystemTap argument
/// format `N@OP`, such as `-4@{arg_1:e}`.
pub fn format_argument(reg_index: usize, typ: &DataType, arch: Arch) -> (r: String)
    requires
        reg_index <= 5,
    ensures
        r@ == type_arg_size(*typ) + "@"@ + type_asm_op(*typ, reg_index as nat, arch),
{
    let mut r = String::from_str(data_type_to_arg_size(typ));
    r.append("@");
    let op = data_type_to_asm_op(typ, reg_index as u8, arch);
    r.append(op.as_str());
    r
}

// ---------------------------------------------------------------------------
// Registers of probe arguments
// ---------------------------------------------------------------------------

/// The number of probe arguments that are passed in registers.
pub const MAX_PROBE_ARGS: usize = 6;

/// An argument of type `t` needs a byte register on `arch`: a one-byte
/// integer on x86-64.
pub open spec fn needs_reg_byte(t: DataType, arch: Arch) -> bool {
    &&& arch == Arch::X86_64
    &&& (t matches DataType::Native(NativeDataType::Integer(n)) && n.width == BitWidth::Bit8)
}

/// Whether an argument of type `typ` is passed in a byte register on `arch`.
pub fn use_reg_byte(typ: &DataType, arch: Arch) -> (r: bool)
    ensures
        r == needs_reg_byte(*typ, arch),
{
    match arch {
        Arch::X86_64 => match typ {
            DataType::Native(NativeDataType::Integer(n)) => match n.width {
                BitWidth::Bit8 => true,
                _ => false,
            },
            _ => false,
        },
        Arch::AArch64 => false,
    }
}

/// The register that carries argument `i` of a probe call on `arch`: the
/// calling convention's first six argument registers.
pub open spec fn abi_register_name(arch: Arch, i: int) -> Seq<char> {
    match arch {
        Arch::X86_64 => seq!["rdi"@, "rsi"@, "rdx"@, "rcx"@, "r8"@, "r9"@][i],
        Arch::AArch64 => seq!["x0"@, "x1"@, "x2"@, "x3"@, "x4"@, "x5"@][i],
    }
}

/// The register that carries argument `i` of a probe call on `arch`.
pub fn abi_register(arch: Arch, i: usize) -> (r: &'static str)
    requires
        i < MAX_PROBE_ARGS,
    ensures
        r@ == abi_register_name(arch, i as int),
{
    proof {
        reveal_strlit("rdi");
        reveal_strlit("rsi");
        reveal_strlit("rdx");
        reveal_strlit("rcx");
        reveal_strlit("r8");
        reveal_strlit("r9");
        reveal_strlit("x0");
        reveal_strlit("x1");
        reveal_strlit("x2");
        reveal_strlit("x3");
        reveal_strlit("x4");
        reveal_strlit("x5");
    }
    match arch {
        Arch::X86_64 => if i == 0 {
            "rdi"
        } else if i == 1 {
            "rsi"
        } else if i == 2 {
            "rdx"
        } else if i == 3 {
            "rcx"
        } else if i == 4 {
            "r8"
        } else {
            "r9"
        },
        Arch::AArch64 => if i == 0 {
            "x0"
        } else if i == 1 {
            "x1"
        } else if i == 2 {
            "x2"
        } else if i == 3 {
            "x3"
        } else if i == 4 {
            "x4"
        } else {
            "x5"
        },
    }
}

} // verus!
