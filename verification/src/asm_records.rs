//! The assembler text that each probe site emits: the DTrace probe record
//! that `process_section` reads back, and the STAPSDT notes that SystemTap
//! reads on Linux.

use vstd::prelude::*;
use vstd::string::*;
use crate::text::{decimal, decimal_string};
use crate::grammar::chars_of;
use crate::definition::{DataType, c_type_of, joined};
use crate::record::PROBE_REC_VERSION;
use crate::stapsdt::{Arch, format_argument, type_arg_size, type_asm_op};

verus! {

/// The operating systems whose linkers the probe records are laid out for.
#[derive(Clone, Copy, Debug, PartialEq, Eq, Structural)]
pub enum TargetOs {
    Linux,
    MacOs,
    Illumos,
    FreeBsd,
}

/// `s` with each `__`, from left to right, replaced by `-`, as
/// `str::replace("__", "-")` gives it.
pub open spec fn undunder(s: Seq<char>) -> Seq<char>
    decreases s.len(),
{
    if s.len() < 2 {
        s
    } else if s[0] == '_' && s[1] == '_' {
        seq!['-'] + undunder(s.skip(2))
    } else {
        seq![s[0]] + undunder(s.skip(1))
    }
}

/// Replace each `__` in `s` by `-`.
pub fn replace_dunders(s: &str) -> (r: String)
    ensures
        r@ == undunder(s@),
{
    let c = chars_of(s);
    let n = c.len();
    let mut r = String::new();
    let mut i: usize = 0;
    proof {
        assert(s@.skip(0) =~= s@);
    }
    while i < n
        invariant
            n == s@.len(),
            c@ == s@,
            0 <= i <= n,
            r@ + undunder(s@.skip(i as int)) == undunder(s@),
        decreases n - i,
    {
        let ghost rest = s@.skip(i as int);
        if i + 1 < n && c[i] == '_' && c[i + 1] == '_' {
            proof {
                reveal_strlit("-");
                assert(rest[0] == '_' && rest[1] == '_');
                assert(rest.skip(2) =~= s@.skip(i + 2));
            }
            r.append("-");
            i = i + 2;
        } else {
            proof {
                if rest.len() >= 2 {
                    assert(rest.skip(1) =~= s@.skip(i + 1));
                } else {
                    assert(rest =~= seq![rest[0]]);
                    assert(s@.skip(i + 1).len() == 0);
                    assert(undunder(s@.skip(i + 1)) =~= Seq::<char>::empty());
                }
            }
            let one = s.substring_char(i, i + 1);
            proof {
                assert(one@ =~= seq![rest[0]]);
            }
            r.append(one);
            i = i + 1;
        }
    }
    proof {
        assert(s@.skip(n as int) =~= Seq::<char>::empty());
    }
    r
}

/// The assembler text of a DTrace probe record, from its parts.
pub open spec fn dtrace_record_text(section_ident: Seq<char>, version: Seq<char>, n_args: Seq<char>, flags: Seq<char>, prov: Seq<char>, probe: Seq<char>, arguments: Seq<char>, yeet: Seq<char>) -> Seq<char> {
    "\n                    .pushsection "@
        + section_ident
        + "\n                    .balign 8\n            991:\n                    .4byte 992f-991b    // length\n                    .byte "@
        + version
        + "\n                    .byte "@
        + n_args
        + "\n                    .2byte "@
        + flags
        + "\n                    .8byte 990b         // address\n                    .asciz \""@
        + prov
        + "\"\n                    .asciz \""@
        + probe
        + "\"\n                    "@
        + arguments
        + "         // null-terminated strings for each argument\n                    .balign 8\n            992:    .popsection\n                    "@
        + yeet
        + "\n        "@
}

fn fill_dtrace_record(section_ident: &str, version: &str, n_args: &str, flags: &str, prov: &str, probe: &str, arguments: &str, yeet: &str) -> (r: String)
    ensures
        r@ == dtrace_record_text(section_ident@, version@, n_args@, flags@, prov@, probe@, arguments@, yeet@),
{
    let mut s = String::new();
    s.append("\n                    .pushsection ");
    s.append(section_ident);
    s.append("\n                    .balign 8\n            991:\n                    .4byte 992f-991b    // length\n                    .byte ");
    s.append(version);
    s.append("\n                    .byte ");
    s.append(n_args);
    s.append("\n                    .2byte ");
    s.append(flags);
    s.append("\n                    .8byte 990b         // address\n                    .asciz \"");
    s.append(prov);
    s.append("\"\n                    .asciz \"");
    s.append(probe);
    s.append("\"\n                    ");
    s.append(arguments);
    s.append("         // null-terminated strings for each argument\n                    .balign 8\n            992:    .popsection\n                    ");
    s.append(yeet);
    s.append("\n        ");
    s
}

/// The assembler text of a STAPSDT is-enabled probe and its semaphore, from its parts.
pub open spec fn stapsdt_isenabled_text(sema_name: Seq<char>, section_ident: Seq<char>, prov: Seq<char>, probe: Seq<char>) -> Seq<char> {
    "\n        // First define the semaphore\n            .ifndef "@
        + sema_name
        + "\n                    .pushsection .probes, \"aw\", \"progbits\"\n                    .weak "@
        + sema_name
        + "\n                    .hidden "@
        + sema_name
        + "\n            "@
        + sema_name
        + ":\n                    .zero 2\n                    .type "@
        + sema_name
        + ", @object\n                    .size "@
        + sema_name
        + ", 2\n                    .popsection\n            .endif\n        // Second define the is_enabled probe which uses the semaphore\n                    .pushsection "@
        + section_ident
        + "\n                    .balign 4\n                    .4byte 992f-991f, 994f-993f, 3    // length, type\n            991:\n                    .asciz \"stapsdt\"        // vendor string\n            992:\n                    .balign 4\n            993:\n                    .8byte 990b             // probe PC address\n                    .8byte _.stapsdt.base   // link-time sh_addr of base .stapsdt.base section\n                    .8byte "@
        + sema_name
        + "      // link-time address of the semaphore variable, zero if no associated semaphore\n                    .asciz \""@
        + prov
        + "\"         // provider name\n                    .asciz \""@
        + probe
        + "\"        // probe name\n                    .asciz \"\"               // is_enabled probe takes no parameters\n            994:\n                    .balign 4\n                    .popsection\n            // Finally define the base for whatever it is needed (RIP).\n            .ifndef _.stapsdt.base\n                    .pushsection .stapsdt.base, \"aG\", \"progbits\", .stapsdt.base, comdat\n                    .weak _.stapsdt.base\n                    .hidden _.stapsdt.base\n            _.stapsdt.base:\n                    .space 1\n                    .size _.stapsdt.base, 1\n                    .popsection\n            .endif\n        "@
}

fn fill_stapsdt_isenabled(sema_name: &str, section_ident: &str, prov: &str, probe: &str) -> (r: String)
    ensures
        r@ == stapsdt_isenabled_text(sema_name@, section_ident@, prov@, probe@),
{
    let mut s = String::new();
    s.append("\n        // First define the semaphore\n            .ifndef ");
    s.append(sema_name);
    s.append("\n                    .pushsection .probes, \"aw\", \"progbits\"\n                    .weak ");
    s.append(sema_name);
    s.append("\n                    .hidden ");
    s.append(sema_name);
    s.append("\n            ");
    s.append(sema_name);
    s.append(":\n                    .zero 2\n                    .type ");
    s.append(sema_name);
    s.append(", @object\n                    .size ");
    s.append(sema_name);
    s.append(", 2\n                    .popsection\n            .endif\n        // Second define the is_enabled probe which uses the semaphore\n                    .pushsection ");
    s.append(section_ident);
    s.append("\n                    .balign 4\n                    .4byte 992f-991f, 994f-993f, 3    // length, type\n            991:\n                    .asciz \"stapsdt\"        // vendor string\n            992:\n                    .balign 4\n            993:\n                    .8byte 990b             // probe PC address\n                    .8byte _.stapsdt.base   // link-time sh_addr of base .stapsdt.base section\n                    .8byte ");
    s.append(sema_name);
    s.append("      // link-time address of the semaphore variable, zero if no associated semaphore\n                    .asciz \"");
    s.append(prov);
    s.append("\"         // provider name\n                    .asciz \"");
    s.append(probe);
    s.append("\"        // probe name\n                    .asciz \"\"               // is_enabled probe takes no parameters\n            994:\n                    .balign 4\n                    .popsection\n            // Finally define the base for whatever it is needed (RIP).\n            .ifndef _.stapsdt.base\n                    .pushsection .stapsdt.base, \"aG\", \"progbits\", .stapsdt.base, comdat\n                    .weak _.stapsdt.base\n                    .hidden _.stapsdt.base\n            _.stapsdt.base:\n                    .space 1\n                    .size _.stapsdt.base, 1\n                    .popsection\n            .endif\n        ");
    s
}

/// The assembler text of a STAPSDT probe, from its parts.
pub open spec fn stapsdt_probe_text(section_ident: Seq<char>, prov: Seq<char>, probe: Seq<char>, arguments: Seq<char>) -> Seq<char> {
    "\n        // First define the actual DTrace probe\n                    .pushsection "@
        + section_ident
        + "\n                    .balign 4\n                    .4byte 992f-991f, 994f-993f, 3    // length, type\n            991:\n                    .asciz \"stapsdt\"        // vendor string\n            992:\n                    .balign 4\n            993:\n                    .8byte 990b             // probe PC address\n                    .8byte _.stapsdt.base   // link-time sh_addr of base .stapsdt.base section\n                    .8byte 0                // probe doesn't use semaphore\n                    .asciz \""@
        + prov
        + "\"         // provider name\n                    .asciz \""@
        + probe
        + "\"        // probe name\n                    .asciz \""@
        + arguments
        + "\"    // argument format (null-terminated string)\n            994:\n                    .balign 4\n                    .popsection\n            // Finally define the base for whatever it is needed (RIP).\n            .ifndef _.stapsdt.base\n                    .pushsection .stapsdt.base, \"aG\", \"progbits\", .stapsdt.base, comdat\n                    .weak _.stapsdt.base\n                    .hidden _.stapsdt.base\n            _.stapsdt.base:\n                    .space 1\n                    .size _.stapsdt.base, 1\n                    .popsection\n            .endif\n        "@
}

fn fill_stapsdt_probe(section_ident: &str, prov: &str, probe: &str, arguments: &str) -> (r: String)
    ensures
        r@ == stapsdt_probe_text(section_ident@, prov@, probe@, arguments@),
{
    let mut s = String::new();
    s.append("\n        // First define the actual DTrace probe\n                    .pushsection ");
    s.append(section_ident);
    s.append("\n                    .balign 4\n                    .4byte 992f-991f, 994f-993f, 3    // length, type\n            991:\n                    .asciz \"stapsdt\"        // vendor string\n            992:\n                    .balign 4\n            993:\n                    .8byte 990b             // probe PC address\n                    .8byte _.stapsdt.base   // link-time sh_addr of base .stapsdt.base section\n                    .8byte 0                // probe doesn't use semaphore\n                    .asciz \"");
    s.append(prov);
    s.append("\"         // provider name\n                    .asciz \"");
    s.append(probe);
    s.append("\"        // probe name\n                    .asciz \"");
    s.append(arguments);
    s.append("\"    // argument format (null-terminated string)\n            994:\n                    .balign 4\n                    .popsection\n            // Finally define the base for whatever it is needed (RIP).\n            .ifndef _.stapsdt.base\n                    .pushsection .stapsdt.base, \"aG\", \"progbits\", .stapsdt.base, comdat\n                    .weak _.stapsdt.base\n                    .hidden _.stapsdt.base\n            _.stapsdt.base:\n                    .space 1\n                    .size _.stapsdt.base, 1\n                    .popsection\n            .endif\n        ");
    s
}

/// The section a DTrace probe record is written to.
pub open spec fn dtrace_section_ident(os: TargetOs) -> Seq<char> {
    if os == TargetOs::FreeBsd {
        "set_dtrace_probes,\"awR\",\"progbits\""@
    } else {
        "set_dtrace_probes,\"aw\",\"progbits\""@
    }
}

/// The section a probe record is written to where there is no linker support.
pub open spec fn no_linker_section_ident(os: TargetOs) -> Seq<char> {
    if os == TargetOs::MacOs {
        "__DATA,__dtrace_probes,regular,no_dead_strip"@
    } else {
        "set_dtrace_probes,\"a\",\"progbits\""@
    }
}

/// What keeps the illumos linker from dropping the probe section: a
/// reference to the record from another section.
pub open spec fn yeet_text(os: TargetOs) -> Seq<char> {
    if os == TargetOs::Illumos {
        "\n                    .pushsection yeet_dtrace_probes\n                    .8byte 991b\n                    .popsection\n                "@
    } else {
        ""@
    }
}

/// The `.asciz` line of each argument type, one per line.
pub open spec fn argument_lines(types: Option<Seq<DataType>>) -> Seq<char> {
    match types {
        None => seq![],
        Some(ts) => joined(ts.map_values(|t: DataType| ".asciz \""@ + c_type_of(t) + "\""@), "\n"@),
    }
}

fn dtrace_section_str(os: TargetOs) -> (r: &'static str)
    ensures
        r@ == dtrace_section_ident(os),
{
    if os == TargetOs::FreeBsd {
        "set_dtrace_probes,\"awR\",\"progbits\""
    } else {
        "set_dtrace_probes,\"aw\",\"progbits\""
    }
}

fn no_linker_section_str(os: TargetOs) -> (r: &'static str)
    ensures
        r@ == no_linker_section_ident(os),
{
    if os == TargetOs::MacOs {
        "__DATA,__dtrace_probes,regular,no_dead_strip"
    } else {
        "set_dtrace_probes,\"a\",\"progbits\""
    }
}

fn yeet_str(os: TargetOs) -> (r: &'static str)
    ensures
        r@ == yeet_text(os),
{
    if os == TargetOs::Illumos {
        "\n                    .pushsection yeet_dtrace_probes\n                    .8byte 991b\n                    .popsection\n                "
    } else {
        ""
    }
}

fn argument_lines_exec(types: Option<&[DataType]>) -> (r: String)
    ensures
        r@ == argument_lines(match types {
            None => None,
            Some(ts) => Some(ts@),
        }),
{
    match types {
        None => String::new(),
        Some(ts) => {
            let ghost ls = ts@.map_values(|t: DataType| ".asciz \""@ + c_type_of(t) + "\""@);
            let mut out = String::new();
            let mut k: usize = 0;
            while k < ts.len()
                invariant
                    0 <= k <= ts@.len(),
                    ls == ts@.map_values(|t: DataType| ".asciz \""@ + c_type_of(t) + "\""@),
                    out@ == joined(ls.take(k as int), "\n"@),
                decreases ts@.len() - k,
            {
                if k > 0 {
                    out.append("\n");
                }
                out.append(".asciz \"");
                let c = ts[k].to_c_type();
                out.append(c.as_str());
                out.append("\"");
                proof {
                    assert(ls.take(k + 1).drop_last() =~= ls.take(k as int));
                    if k == 0 {
                        assert(ls.take(1) =~= seq![ls[0]]);
                    }
                }
                k = k + 1;
            }
            proof {
                assert(ls.take(ts@.len() as int) =~= ls);
            }
            out
        },
    }
}

/// The number of argument types of a record: none for an is-enabled record.
pub open spec fn n_args_of(types: Option<Seq<DataType>>) -> nat {
    match types {
        None => 0,
        Some(ts) => ts.len(),
    }
}

/// The flags of a record: 1 for an is-enabled record, 0 for a probe.
pub open spec fn flags_of(types: Option<Seq<DataType>>) -> Seq<char> {
    if types is None {
        "1"@
    } else {
        "0"@
    }
}

pub open spec fn opt_types(types: Option<&[DataType]>) -> Option<Seq<DataType>> {
    match types {
        None => None,
        Some(ts) => Some(ts@),
    }
}

/// Construct the assembler text of the DTrace probe record of a probe site;
/// an is-enabled site where `types` is `None`. A `__` in the provider or probe
/// name becomes `-`.
pub fn emit_probe_record(prov: &str, probe: &str, types: Option<&[DataType]>, os: TargetOs) -> (r:
    String)
    ensures
        r@ == dtrace_record_text(
            dtrace_section_ident(os),
            decimal(PROBE_REC_VERSION as nat),
            decimal(n_args_of(opt_types(types))),
            flags_of(opt_types(types)),
            undunder(prov@),
            undunder(probe@),
            argument_lines(opt_types(types)),
            yeet_text(os),
        ),
{
    let version = decimal_string(PROBE_REC_VERSION as u64);
    let n_args: usize = match types {
        None => 0,
        Some(ts) => ts.len(),
    };
    let n = decimal_string(n_args as u64);
    let flags = if types.is_none() {
        "1"
    } else {
        "0"
    };
    let p = replace_dunders(prov);
    let q = replace_dunders(probe);
    let args = argument_lines_exec(types);
    fill_dtrace_record(
        dtrace_section_str(os),
        version.as_str(),
        n.as_str(),
        flags,
        p.as_str(),
        q.as_str(),
        args.as_str(),
        yeet_str(os),
    )
}

/// Construct the assembler text of the probe record of a probe site where
/// there is no linker support; an is-enabled site where `types` is `None`.
pub fn asm_rec(prov: &str, probe: &str, types: Option<&[DataType]>, os: TargetOs) -> (r: String)
    ensures
        r@ == dtrace_record_text(
            no_linker_section_ident(os),
            decimal(PROBE_REC_VERSION as nat),
            decimal(n_args_of(opt_types(types))),
            flags_of(opt_types(types)),
            prov@,
            probe@,
            argument_lines(opt_types(types)),
            yeet_text(os),
        ),
{
    let version = decimal_string(PROBE_REC_VERSION as u64);
    let n_args: usize = match types {
        None => 0,
        Some(ts) => ts.len(),
    };
    let n = decimal_string(n_args as u64);
    let flags = if types.is_none() {
        "1"
    } else {
        "0"
    };
    let args = argument_lines_exec(types);
    fill_dtrace_record(
        no_linker_section_str(os),
        version.as_str(),
        n.as_str(),
        flags,
        prov,
        probe,
        args.as_str(),
        yeet_str(os),
    )
}

/// The section of a STAPSDT note.
pub open spec fn stapsdt_section() -> Seq<char> {
    ".note.stapsdt, \"\", \"note\""@
}

/// The name of the semaphore of a STAPSDT probe.
pub open spec fn sema_name(prov: Seq<char>, probe: Seq<char>) -> Seq<char> {
    "__usdt_sema_"@ + prov + "_"@ + probe
}

/// Construct the assembler text of the STAPSDT is-enabled probe of a probe
/// site, with the semaphore that tells whether the probe is enabled.
pub fn emit_isenabled_probe_record(prov: &str, probe: &str) -> (r: String)
    ensures
        r@ == stapsdt_isenabled_text(sema_name(prov@, probe@), stapsdt_section(), prov@, undunder(probe@)),
{
    let mut sema = String::from_str("__usdt_sema_");
    sema.append(prov);
    sema.append("_");
    sema.append(probe);
    let q = replace_dunders(probe);
    fill_stapsdt_isenabled(sema.as_str(), ".note.stapsdt, \"\", \"note\"", prov, q.as_str())
}

/// The argument formats of a STAPSDT probe, separated by spaces.
pub open spec fn stapsdt_arguments(types: Option<Seq<DataType>>, arch: Arch) -> Seq<char> {
    match types {
        None => seq![],
        Some(ts) => joined(
            Seq::new(ts.len(), |k: int| type_arg_size(ts[k]) + "@"@ + type_asm_op(ts[k], k as nat, arch)),
            " "@,
        ),
    }
}

/// Construct the assembler text of the STAPSDT probe of a probe site, with
/// the format of each of its (at most six) arguments.
pub fn emit_stapsdt_probe_record(prov: &str, probe: &str, types: Option<&[DataType]>, arch: Arch) -> (r:
    String)
    requires
        types matches Some(ts) ==> ts@.len() <= 6,
    ensures
        r@ == stapsdt_probe_text(stapsdt_section(), prov@, undunder(probe@), stapsdt_arguments(opt_types(types), arch)),
{
    let mut args = String::new();
    match types {
        None => {},
        Some(ts) => {
            let ghost ls = Seq::new(
                ts@.len(),
                |k: int| type_arg_size(ts@[k]) + "@"@ + type_asm_op(ts@[k], k as nat, arch),
            );
            let mut k: usize = 0;
            while k < ts.len()
                invariant
                    ts@.len() <= 6,
                    0 <= k <= ts@.len(),
                    ls == Seq::new(
                        ts@.len(),
                        |k: int| type_arg_size(ts@[k]) + "@"@ + type_asm_op(ts@[k], k as nat, arch),
                    ),
                    args@ == joined(ls.take(k as int), " "@),
                decreases ts@.len() - k,
            {
                if k > 0 {
                    args.append(" ");
                }
                let a = format_argument(k, &ts[k], arch);
                args.append(a.as_str());
                proof {
                    assert(ls.take(k + 1).drop_last() =~= ls.take(k as int));
                    if k == 0 {
                        assert(ls.take(1) =~= seq![ls[0]]);
                    }
                }
                k = k + 1;
            }
            proof {
                assert(ls.take(ts@.len() as int) =~= ls);
            }
        },
    }
    let q = replace_dunders(probe);
    fill_stapsdt_probe(".note.stapsdt, \"\", \"note\"", prov, q.as_str(), args.as_str())
}

} // verus!
