use usdt::definition::{format_probe, module_ident_for_provider, type_check_for, DataType, Probe, Provider, TypeCheck, TypeShape};
use usdt::parser::File;
use usdt::register_probes;
use usdt::stapsdt::{abi_register, format_argument, integer_to_asm_op, integer_to_arg_size, use_reg_byte, Arch};
use usdt::text::replace_str;
use usdt::types::{BitWidth, DataType as DType, Integer, Sign};

fn sint(width: BitWidth) -> Integer {
    Integer { sign: Sign::Signed, width }
}

fn uint(width: BitWidth) -> Integer {
    Integer { sign: Sign::Unsigned, width }
}

fn probe_record(address: u64, provider: &str, probe: &str) -> Vec<u8> {
    let mut rec = Vec::<u8>::new();
    rec.extend_from_slice(&0u32.to_ne_bytes());
    rec.push(usdt::record::PROBE_REC_VERSION);
    rec.push(0);
    rec.extend_from_slice(&0u16.to_ne_bytes());
    rec.extend_from_slice(&address.to_ne_bytes());
    rec.extend_from_slice(provider.as_bytes());
    rec.push(0);
    rec.extend_from_slice(probe.as_bytes());
    rec.push(0);
    let len = rec.len() as u32;
    rec[0..4].copy_from_slice(&len.to_ne_bytes());
    rec
}

#[test]
fn main_test_main() {
    let mut data = probe_record(0x1234, "stuff", "start");
    data.extend(probe_record(0x1240, "stuff", "stop"));
    let reg = register_probes(&mut data, |_| None, |_| Some(String::from("/usr/bin/app")))
        .unwrap()
        .unwrap();
    assert_eq!(&reg.dof[0..4], &[0x7f, b'D', b'O', b'F']);
    assert_eq!(reg.module_field.len(), 64);
    assert_eq!(&reg.module_field[0..3], b"app");
    assert!(reg.module_field[3..].iter().all(|b| *b == 0));

    // A second call finds every record already handled.
    let again = register_probes(&mut data, |_| None, |_| None).unwrap().unwrap();
    assert_eq!(&again.module_field[0..14], b"unknown-module");
    assert!(again.dof.len() < reg.dof.len());
}

#[test]
fn test_probe_to_d_source() {
    let probe = Probe {
        name: String::from("my_probe"),
        types: vec![DataType::Native(DType::Integer(uint(BitWidth::Bit8)))],
    };
    assert_eq!(probe.to_d_source(), "probe my_probe(uint8_t);");
}

#[test]
fn test_provider_to_d_source() {
    let probe = Probe {
        name: String::from("my_probe"),
        types: vec![DataType::Native(DType::Integer(uint(BitWidth::Bit8)))],
    };
    let provider = Provider {
        name: String::from("my_provider"),
        probes: vec![probe],
        use_statements: vec![],
    };
    assert_eq!(provider.to_d_source(), "provider my_provider {\n\tprobe my_probe(uint8_t);\n};");
}

#[test]
fn test_d_source_of_several() {
    let probes = vec![
        Probe {
            name: String::from("start"),
            types: vec![
                DataType::Native(DType::Integer(sint(BitWidth::Bit32))),
                DataType::Native(DType::String),
                DataType::UniqueId,
                DataType::Serializable(String::from("MyArg")),
            ],
        },
        Probe { name: String::from("stop"), types: vec![] },
    ];
    assert_eq!(probes[0].to_d_source(), "probe start(int32_t, char*, uint64_t, char*);");
    assert_eq!(probes[1].to_d_source(), "probe stop();");
    let provider = Provider { name: String::from("p"), probes, use_statements: vec![] };
    assert_eq!(
        provider.to_d_source(),
        "provider p {\n\tprobe start(int32_t, char*, uint64_t, char*);\n\tprobe stop();\n};"
    );
}

#[test]
fn test_data_type_names() {
    let t = DataType::Serializable(String::from("Vec<u8>"));
    assert_eq!(t.to_c_type(), "char*");
    assert_eq!(t.to_rust_type(), "Vec<u8>");
    assert_eq!(t.to_rust_ffi_type(), "*const ::std::os::raw::c_char");
    assert_eq!(DataType::UniqueId.to_rust_ffi_type(), "u64");
    assert_eq!(DataType::UniqueId.to_rust_type(), "::usdt::UniqueId");
    let n = DataType::Native(DType::Pointer(uint(BitWidth::Bit16)));
    assert_eq!(n.to_c_type(), "uint16_t*");
}

#[test]
fn integer_to_asm_op_tests() {
    let x86 = Arch::X86_64;
    assert_eq!(integer_to_asm_op(&uint(BitWidth::Bit8), 0, x86), "{arg_0}");
    assert_eq!(integer_to_asm_op(&uint(BitWidth::Bit16), 0, x86), "{arg_0:x}");
    assert_eq!(integer_to_asm_op(&uint(BitWidth::Bit32), 0, x86), "{arg_0:e}");
    assert_eq!(integer_to_asm_op(&uint(BitWidth::Bit64), 0, x86), "{arg_0:r}");
    assert_eq!(integer_to_asm_op(&uint(BitWidth::Pointer), 0, x86), "{arg_0:r}");
    assert_eq!(integer_to_asm_op(&uint(BitWidth::Bit8), 1, x86), "{arg_1}");
    assert_eq!(integer_to_asm_op(&uint(BitWidth::Bit16), 1, x86), "{arg_1:x}");
    assert_eq!(integer_to_asm_op(&uint(BitWidth::Bit32), 1, x86), "{arg_1:e}");
    assert_eq!(integer_to_asm_op(&uint(BitWidth::Bit64), 1, x86), "{arg_1:r}");
    assert_eq!(integer_to_asm_op(&uint(BitWidth::Pointer), 1, x86), "{arg_1:r}");

    // GNU Assembly syntax for SystemTap only uses the extended register.
    let arm = Arch::AArch64;
    assert_eq!(integer_to_asm_op(&uint(BitWidth::Bit8), 0, arm), "{arg_0:x}");
    assert_eq!(integer_to_asm_op(&uint(BitWidth::Bit16), 0, arm), "{arg_0:x}");
    assert_eq!(integer_to_asm_op(&uint(BitWidth::Bit32), 0, arm), "{arg_0:x}");
    assert_eq!(integer_to_asm_op(&uint(BitWidth::Bit64), 0, arm), "{arg_0:x}");
    assert_eq!(integer_to_asm_op(&uint(BitWidth::Pointer), 0, arm), "{arg_0:x}");
    assert_eq!(integer_to_asm_op(&uint(BitWidth::Bit8), 1, arm), "{arg_1:x}");
    assert_eq!(integer_to_asm_op(&uint(BitWidth::Bit16), 1, arm), "{arg_1:x}");
    assert_eq!(integer_to_asm_op(&uint(BitWidth::Bit32), 1, arm), "{arg_1:x}");
    assert_eq!(integer_to_asm_op(&uint(BitWidth::Bit64), 1, arm), "{arg_1:x}");
    assert_eq!(integer_to_asm_op(&uint(BitWidth::Pointer), 1, arm), "{arg_1:x}");
}

#[test]
fn format_argument_tests() {
    let x86 = Arch::X86_64;
    assert_eq!(format_argument(0, &DataType::UniqueId, x86), "8@{arg_0:r}");
    assert_eq!(format_argument(4, &DataType::Native(DType::String), x86), "8@{arg_4:r}");
    assert_eq!(
        format_argument(4, &DataType::Native(DType::Integer(uint(BitWidth::Bit32))), x86),
        "4@{arg_4:e}"
    );
    assert_eq!(
        format_argument(3, &DataType::Native(DType::Integer(sint(BitWidth::Bit16))), x86),
        "-2@{arg_3:x}"
    );
    let arm = Arch::AArch64;
    assert_eq!(format_argument(0, &DataType::UniqueId, arm), "8@{arg_0:x}");
    assert_eq!(format_argument(4, &DataType::Native(DType::String), arm), "8@{arg_4:x}");
    assert_eq!(
        format_argument(4, &DataType::Native(DType::Integer(uint(BitWidth::Bit32))), arm),
        "4@{arg_4:x}"
    );
    assert_eq!(
        format_argument(3, &DataType::Native(DType::Integer(sint(BitWidth::Bit16))), arm),
        "-2@{arg_3:x}"
    );
}

#[test]
fn test_pointer_arguments() {
    let x86 = Arch::X86_64;
    assert_eq!(
        format_argument(2, &DataType::Native(DType::Pointer(sint(BitWidth::Bit64))), x86),
        "8@({arg_2:r})"
    );
    assert_eq!(integer_to_arg_size(&sint(BitWidth::Bit8)), "-1");
    assert_eq!(integer_to_arg_size(&uint(BitWidth::Bit64)), "8");
}

#[test]
fn test_format_probe() {
    let format = Some("probe_{provider}_{probe}".to_string());
    assert_eq!(format_probe(&format, "foo", "bar"), "probe_foo_bar");
    assert_eq!(format_probe(&None, "foo", "bar"), "foo_bar");
    assert_eq!(format_probe(&None, "test", "start"), "test_start");
    assert_eq!(format_probe(&Some("{probe}".to_string()), "foo", "bar"), "bar");
    let format = Some("foo_{provider}_{probe}".to_string());
    assert_eq!(format_probe(&format, "test", "start_work"), "foo_test_start_work");
    let format = Some("{probe}{probe}".to_string());
    assert_eq!(format_probe(&format, "p", "q"), "qq");
}

#[test]
fn test_replace_str() {
    assert_eq!(replace_str("aaa", "aa", "b"), "ba");
    assert_eq!(replace_str("x{y}z{y}", "{y}", ""), "xz");
    assert_eq!(replace_str("", "a", "b"), "");
    assert_eq!(replace_str("abc", "abcd", "z"), "abc");
}

#[test]
fn test_module_ident_for_provider() {
    let provider = Provider { name: "foo".to_string(), probes: vec![], use_statements: vec![] };
    assert_eq!(module_ident_for_provider(&provider), "__usdt_private_foo");
}

#[test]
fn test_from_parsed_provider() {
    let file = File::parse("provider foo { probe bar(uint8_t, char*); probe baz(); };").unwrap();
    let provider = Provider::from(&file.providers()[0]);
    assert_eq!(provider.name, "foo");
    assert!(provider.use_statements.is_empty());
    assert_eq!(provider.probes.len(), 2);
    assert_eq!(provider.probes[0].name, "bar");
    assert_eq!(
        provider.probes[0].types,
        vec![DataType::Native(DType::Integer(uint(BitWidth::Bit8))), DataType::Native(DType::String)]
    );
    assert!(provider.probes[1].types.is_empty());
    assert_eq!(provider.to_d_source(), "provider foo {\n\tprobe bar(uint8_t, char*);\n\tprobe baz();\n};");
    let probe = Probe::from(&file.providers()[0].probes()[1]);
    assert_eq!(probe.name, "baz");
    assert_eq!(DataType::from(DType::String), DataType::Native(DType::String));
}

#[test]
fn test_argument_registers() {
    let byte = DataType::Native(DType::Integer(sint(BitWidth::Bit8)));
    let word = DataType::Native(DType::Integer(uint(BitWidth::Bit64)));
    assert!(use_reg_byte(&byte, Arch::X86_64));
    assert!(!use_reg_byte(&byte, Arch::AArch64));
    assert!(!use_reg_byte(&word, Arch::X86_64));
    assert!(!use_reg_byte(&DataType::UniqueId, Arch::X86_64));
    let x86: Vec<&str> = (0..6).map(|i| abi_register(Arch::X86_64, i)).collect();
    assert_eq!(x86, vec!["rdi", "rsi", "rdx", "rcx", "r8", "r9"]);
    let arm: Vec<&str> = (0..6).map(|i| abi_register(Arch::AArch64, i)).collect();
    assert_eq!(arm, vec!["x0", "x1", "x2", "x3", "x4", "x5"]);
}

#[test]
fn test_d_source_reads_back() {
    let provider = Provider {
        name: "my_provider".to_string(),
        probes: vec![
            Probe { name: "start".to_string(), types: vec![DataType::Native(DType::Integer(uint(BitWidth::Bit8)))] },
            Probe {
                name: "stop".to_string(),
                types: vec![
                    DataType::Native(DType::String),
                    DataType::Native(DType::Pointer(sint(BitWidth::Bit64))),
                    DataType::Native(DType::Integer(uint(BitWidth::Pointer))),
                ],
            },
            Probe { name: "idle".to_string(), types: vec![] },
        ],
        use_statements: vec![],
    };
    let file = File::parse(&provider.to_d_source()).unwrap();
    assert_eq!(file.providers().len(), 1);
    let back = Provider::from(&file.providers()[0]);
    assert_eq!(back.name, provider.name);
    assert_eq!(back.probes.len(), 3);
    for (a, b) in back.probes.iter().zip(provider.probes.iter()) {
        assert_eq!(a.name, b.name);
        assert_eq!(a.types, b.types);
    }
}

#[test]
fn type_check_choice() {
    let ser = DataType::Serializable(String::from("Vec<u8>"));
    assert_eq!(type_check_for(&ser, TypeShape::SliceRef), TypeCheck::AsRefSlice);
    assert_eq!(type_check_for(&ser, TypeShape::OtherRef), TypeCheck::BorrowReferent);
    assert_eq!(type_check_for(&ser, TypeShape::Array), TypeCheck::AsRefSlice);
    assert_eq!(type_check_for(&ser, TypeShape::Path), TypeCheck::BorrowType);
    assert_eq!(type_check_for(&ser, TypeShape::Other), TypeCheck::Exact);
    assert_eq!(type_check_for(&DataType::Native(DType::String), TypeShape::Path), TypeCheck::AsRefStr);
    assert_eq!(type_check_for(&DataType::UniqueId, TypeShape::Path), TypeCheck::BorrowRustType);
    assert_eq!(
        type_check_for(&DataType::Native(DType::Integer(uint(BitWidth::Bit8))), TypeShape::Other),
        TypeCheck::BorrowRustType
    );
}
