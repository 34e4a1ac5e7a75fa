use usdt::asm_records::{asm_rec, emit_isenabled_probe_record, emit_probe_record, emit_stapsdt_probe_record, replace_dunders, TargetOs};
use usdt::definition::DataType;
use usdt::bytes::ByteOrder;
use usdt::dof::{DataEncoding, Probe, Provider, Section};
use usdt::record::{
    limit_string_length, process_section, process_section_in_order, try_process_section,
    try_process_section_in_order, MAX_PROBE_NAME_LEN,
    MAX_PROVIDER_NAME_LEN, PROBE_REC_VERSION,
};
use usdt::stapsdt::Arch;
use usdt::types::{BitWidth, DataType as DType, Integer, Sign};
use usdt::Error;

fn write_cstr(v: &mut Vec<u8>, s: &str) {
    v.extend_from_slice(s.as_bytes());
    v.push(0);
}

fn record(version: u8, flags: u16, address: u64, provider: &str, probe: &str, args: &[&str]) -> Vec<u8> {
    let mut rec = Vec::<u8>::new();
    rec.extend_from_slice(&0u32.to_ne_bytes());
    rec.push(version);
    rec.push(args.len() as u8);
    rec.extend_from_slice(&flags.to_ne_bytes());
    rec.extend_from_slice(&address.to_ne_bytes());
    write_cstr(&mut rec, provider);
    write_cstr(&mut rec, probe);
    for a in args {
        write_cstr(&mut rec, a);
    }
    let len = rec.len() as u32;
    rec[0..4].copy_from_slice(&len.to_ne_bytes());
    rec
}

// Write two probe records, from the same provider.
fn make_record(version: u8) -> Vec<u8> {
    let mut data = record(version, 0, 0x1234, "provider", "probe", &[]);
    data.extend(record(version, 0, 0x12ab, "provider", "probe", &[]));
    data
}

fn no_symbols(_: u64) -> Option<String> {
    None
}

fn get_provider<'a>(section: &'a Section, name: &str) -> Option<&'a Provider> {
    section.providers.iter().find(|p| p.name == name)
}

fn get_probe<'a>(provider: &'a Provider, name: &str) -> Option<&'a Probe> {
    provider.probes.iter().find(|p| p.name == name)
}

#[test]
fn test_process_probe_record() {
    let mut rec = record(PROBE_REC_VERSION, 0, 0x1234, "provider", "probe", &[]);
    let section = process_section(&mut rec, no_symbols).unwrap();
    let probe = get_probe(get_provider(&section, "provider").unwrap(), "probe").unwrap();
    assert_eq!(probe.name, "probe");
    assert_eq!(probe.address, 0x1234);
}

#[test]
fn test_process_probe_record_long_names() {
    let long_name: String = std::iter::repeat("p").take(130).collect();
    let mut rec = record(PROBE_REC_VERSION, 0, 0x1234, &long_name, &long_name, &[]);
    let section = process_section(&mut rec, no_symbols).unwrap();

    let expected_provider_name = &long_name[..MAX_PROVIDER_NAME_LEN - 1];
    let expected_probe_name = &long_name[..MAX_PROBE_NAME_LEN - 1];

    assert!(get_provider(&section, &long_name).is_none());
    let probe = get_probe(get_provider(&section, expected_provider_name).unwrap(), expected_probe_name).unwrap();
    assert_eq!(probe.name, expected_probe_name);
    assert_eq!(probe.address, 0x1234);
}

#[test]
fn test_process_section() {
    let mut data = make_record(PROBE_REC_VERSION);
    let section = process_section(&mut data, no_symbols).unwrap();
    let probe = get_probe(get_provider(&section, "provider").unwrap(), "probe").unwrap();
    assert_eq!(probe.name, "probe");
    assert_eq!(probe.address, 0x1234);
    assert_eq!(probe.offsets, vec![0, 0x12ab - 0x1234]);
}

#[test]
fn test_re_process_section() {
    // Re-processing the same section returns zero probes, as they have all
    // been processed before.
    let mut data = make_record(PROBE_REC_VERSION);
    let section = process_section(&mut data, no_symbols).unwrap();
    assert_eq!(section.providers.len(), 1);
    assert_eq!(data[4], u8::MAX);
    let section = process_section(&mut data, no_symbols).unwrap();
    assert_eq!(data[4], u8::MAX);
    assert_eq!(section.providers.len(), 0);
}

#[test]
fn test_process_section_future_version() {
    // A future version number in a probe record is not modified, but the
    // probes are still skipped.
    let mut data = make_record(PROBE_REC_VERSION + 1);
    let section = process_section(&mut data, no_symbols).unwrap();
    assert_eq!(section.providers.len(), 0);
    assert_eq!(data[4], PROBE_REC_VERSION + 1);
}

#[test]
fn test_process_section_sorts_and_names() {
    let mut data = record(PROBE_REC_VERSION, 0, 0x3000, "zeta", "b", &["uint8_t"]);
    data.extend(record(PROBE_REC_VERSION, 1, 0x3010, "zeta", "b", &[]));
    data.extend(record(PROBE_REC_VERSION, 0, 0x1000, "alpha", "z", &[]));
    data.extend(record(PROBE_REC_VERSION, 0, 0x2000, "alpha", "a", &[]));
    let section = process_section(&mut data, |addr: u64| {
        if addr == 0x1000 {
            Some(String::from("resolved_fn"))
        } else {
            None
        }
    })
    .unwrap();
    let names: Vec<&str> = section.providers.iter().map(|p| p.name.as_str()).collect();
    assert_eq!(names, vec!["alpha", "zeta"]);
    let alpha = &section.providers[0];
    let probes: Vec<&str> = alpha.probes.iter().map(|p| p.name.as_str()).collect();
    assert_eq!(probes, vec!["a", "z"]);
    assert_eq!(alpha.probes[1].function, "resolved_fn");
    assert_eq!(alpha.probes[0].function, "?0x2000");
    let zeta = &section.providers[1];
    assert_eq!(zeta.probes[0].offsets, vec![0]);
    assert_eq!(zeta.probes[0].enabled_offsets, vec![0x10]);
    assert_eq!(section.ident.version, 2);
    // every record is now marked
    let again = process_section(&mut data, no_symbols).unwrap();
    assert!(again.providers.is_empty());
}

#[test]
fn test_process_section_short_record() {
    // a record that ends within its fixed fields
    let mut data = 8u32.to_ne_bytes().to_vec();
    data.extend([PROBE_REC_VERSION, 0, 0, 0]);
    assert!(matches!(process_section(&mut data, no_symbols), Err(Error::IO)));
    assert_eq!(data[4], u8::MAX);
}

#[test]
fn test_process_section_unreadable() {
    // a length that runs past the data
    let mut data = 200u32.to_ne_bytes().to_vec();
    data.extend([PROBE_REC_VERSION, 0, 0, 0]);
    assert!(try_process_section(&mut data, no_symbols).is_none());
    // a site below the address of its probe
    let mut data = record(PROBE_REC_VERSION, 0, 0x2000, "p", "q", &[]);
    data.extend(record(PROBE_REC_VERSION, 0, 0x1000, "p", "q", &[]));
    assert!(try_process_section(&mut data, no_symbols).is_none());
}

#[test]
fn test_limit_string_length() {
    assert_eq!(limit_string_length("abcdef", 4).unwrap(), "abc");
    assert_eq!(limit_string_length("ab", 4).unwrap(), "ab");
    // the cut would fall inside the two bytes of 'é'
    assert!(limit_string_length("aé", 3).is_none());
    assert_eq!(limit_string_length("aé", 4).unwrap(), "aé");
}

fn types() -> Vec<DataType> {
    vec![
        DataType::Native(DType::Pointer(Integer { sign: Sign::Unsigned, width: BitWidth::Bit8 })),
        DataType::Native(DType::String),
    ]
}

#[test]
fn test_emit_probe_record() {
    let provider = "provider";
    let probe = "probe";
    let types = types();
    let record = emit_probe_record(provider, probe, Some(types.as_slice()), TargetOs::Linux);
    let mut lines = record.lines();
    println!("{}", record);
    lines.next(); // empty line
    assert!(lines.next().unwrap().find(".pushsection").is_some());
    let mut lines = lines.skip(3);
    assert!(lines.next().unwrap().find(&format!(".byte {}", PROBE_REC_VERSION)).is_some());
    assert!(lines.next().unwrap().find(&format!(".byte {}", types.len())).is_some());
    for (typ, line) in types.iter().zip(lines.skip(4)) {
        assert!(line.find(&format!(".asciz \"{}\"", typ.to_c_type())).is_some());
    }
}

#[test]
fn test_emit_probe_record_dunders() {
    let provider = "provider";
    let probe = "my__probe";
    let types = types();
    let record = emit_probe_record(provider, probe, Some(types.as_slice()), TargetOs::Linux);
    assert!(record.contains("my-probe"), "Expected double-underscores to be translated to a single dash");
}

#[test]
fn test_emit_probe_record_targets() {
    let enabled = emit_probe_record("p", "q", None, TargetOs::FreeBsd);
    assert!(enabled.contains(".pushsection set_dtrace_probes,\"awR\",\"progbits\"\n"));
    assert!(enabled.contains(".byte 0\n"));
    assert!(enabled.contains(".2byte 1\n"));
    assert!(!enabled.contains("yeet"));
    let illumos = emit_probe_record("p", "q", None, TargetOs::Illumos);
    assert!(illumos.contains(".pushsection yeet_dtrace_probes"));
}

#[test]
fn test_asm_rec() {
    let provider = "provider";
    let probe = "probe";
    let types = vec![
        DataType::Native(DType::Integer(Integer { sign: Sign::Unsigned, width: BitWidth::Bit8 })),
        DataType::Native(DType::String),
    ];
    let record = asm_rec(provider, probe, Some(types.as_slice()), TargetOs::Linux);
    let mut lines = record.lines();
    println!("{}", record);
    lines.next(); // empty line
    assert!(lines.next().unwrap().find(".pushsection").is_some());
    let mut lines = lines.skip(3);
    assert!(lines.next().unwrap().find(&format!(".byte {}", PROBE_REC_VERSION)).is_some());
    assert!(lines.next().unwrap().find(&format!(".byte {}", types.len())).is_some());
    for (typ, line) in types.iter().zip(lines.skip(4)) {
        assert!(line.find(&format!(".asciz \"{}\"", typ.to_c_type())).is_some());
    }
    let mac = asm_rec("a__b", "c", None, TargetOs::MacOs);
    assert!(mac.contains("__DATA,__dtrace_probes,regular,no_dead_strip"));
    assert!(mac.contains(".asciz \"a__b\""));
}

#[test]
fn test_replace_dunders() {
    assert_eq!(replace_dunders("a__b"), "a-b");
    assert_eq!(replace_dunders("___"), "-_");
    assert_eq!(replace_dunders("____x"), "--x");
    assert_eq!(replace_dunders("plain_name"), "plain_name");
    assert_eq!(replace_dunders(""), "");
}

#[test]
fn test_stapsdt_records() {
    let types = vec![
        DataType::UniqueId,
        DataType::Native(DType::Integer(Integer { sign: Sign::Signed, width: BitWidth::Bit16 })),
    ];
    let rec = emit_stapsdt_probe_record("prov", "my__probe", Some(types.as_slice()), Arch::X86_64);
    assert!(rec.contains(".asciz \"my-probe\""));
    assert!(rec.contains(".asciz \"8@{arg_0:r} -2@{arg_1:x}\""));
    let enabled = emit_isenabled_probe_record("prov", "my__probe");
    assert!(enabled.contains(".ifndef __usdt_sema_prov_my__probe\n"));
    assert!(enabled.contains(".asciz \"my-probe\""));
}

fn record_in(big: bool, address: u64, provider: &str, probe: &str) -> Vec<u8> {
    let conv32 = |x: u32| if big { x.to_be_bytes() } else { x.to_le_bytes() };
    let mut rec = Vec::<u8>::new();
    rec.extend_from_slice(&conv32(0));
    rec.push(PROBE_REC_VERSION);
    rec.push(0);
    rec.extend_from_slice(&if big { 0u16.to_be_bytes() } else { 0u16.to_le_bytes() });
    rec.extend_from_slice(&if big { address.to_be_bytes() } else { address.to_le_bytes() });
    write_cstr(&mut rec, provider);
    write_cstr(&mut rec, probe);
    let len = rec.len() as u32;
    rec[0..4].copy_from_slice(&conv32(len));
    rec
}

#[test]
fn test_process_section_in_either_byte_order() {
    for (big, ord) in [(false, ByteOrder::Little), (true, ByteOrder::Big)] {
        let mut data = record_in(big, 0x1234, "provider", "probe");
        data.extend(record_in(big, 0x12ab, "provider", "probe"));
        let section = process_section_in_order(&mut data, no_symbols, ord).unwrap();
        let probe = get_probe(get_provider(&section, "provider").unwrap(), "probe").unwrap();
        assert_eq!(probe.address, 0x1234);
        assert_eq!(probe.offsets, vec![0, 0x12ab - 0x1234]);
        assert_eq!(section.ident.encoding, if big { DataEncoding::BigEndian } else { DataEncoding::LittleEndian });
        assert_eq!(data[4], u8::MAX);
        // records of the other order are not read at all
        let mut other = record_in(!big, 0x1234, "provider", "probe");
        let other_ord = if big { ByteOrder::Little } else { ByteOrder::Big };
        assert!(try_process_section_in_order(&mut other, no_symbols, ord).is_none());
        assert!(try_process_section_in_order(&mut other, no_symbols, other_ord).is_some());
    }
}

#[test]
fn test_process_section_unreadable_is_io() {
    let mut data = 200u32.to_ne_bytes().to_vec();
    data.extend([PROBE_REC_VERSION, 0, 0, 0]);
    assert!(matches!(process_section(&mut data, no_symbols), Err(Error::IO)));
}
