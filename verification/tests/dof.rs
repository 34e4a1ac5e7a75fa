use usdt::bytes::{native_order, ByteOrder};
use usdt::des::{
    deserialize_raw_sections, deserialize_raw_sections_in_order, deserialize_section, deserialize_section_in_order,
    deserialize_sections, is_dof_section,
};
use usdt::dof::{DataEncoding, DataModel, Error, Ident, Probe, Provider, Section};
use usdt::dof_raw::{dof_probe, dof_provider, dof_relodesc, dof_sec, DOF_SECT_PROBES, DOF_SECT_PROFFS, DOF_SECT_PROVIDER, DOF_SECT_STRTAB};
use usdt::fmt::{fmt_dof_hdr, fmt_dof_raw, fmt_dof_sec, fmt_dof_sec_data, FormatMode};
use usdt::object::{collect_dof_sections, extract_dof_sections};
use usdt::ser::{
    build_section_data, build_section_data_in_order, build_section_headers, serialize_section,
    serialize_section_in_order, try_serialize_section,
};

fn probe(name: &str, function: &str, address: u64, offsets: Vec<u32>, enabled: Vec<u32>) -> Probe {
    Probe {
        name: name.to_string(),
        function: function.to_string(),
        address,
        offsets,
        enabled_offsets: enabled,
    }
}

fn sample_section() -> Section {
    Section {
        ident: Ident::default(),
        providers: vec![
            Provider {
                name: "foo".to_string(),
                probes: vec![
                    probe("start", "main", 0x1000, vec![0, 8], vec![4]),
                    probe("stop", "main", 0x1100, vec![12], vec![]),
                ],
            },
            Provider {
                name: "bar".to_string(),
                probes: vec![probe("go", "worker", 0x2000, vec![], vec![0, 2, 4])],
            },
        ],
    }
}

#[test]
fn test_padding() {
    let sections = vec![
        (DOF_SECT_STRTAB, vec![96_u8]),
        (DOF_SECT_PROFFS, vec![0x11_u8, 0x22_u8, 0x33_u8, 0x44_u8]),
    ];

    assert_eq!(sections[0].1.len(), 1);

    let (_, section_data, size) = build_section_headers(sections, 0);

    assert_eq!(section_data[0].len(), 4);
    assert_eq!(size, 8);
}

#[test]
fn test_section_headers_offsets_and_alignment() {
    let sections = vec![
        (DOF_SECT_STRTAB, vec![0_u8, 97, 0]),
        (DOF_SECT_PROBES, vec![0_u8; 48]),
        (DOF_SECT_PROVIDER, vec![0_u8; 44]),
    ];
    let (headers, data, size) = build_section_headers(sections, 160);
    assert_eq!(headers.len(), 3);
    assert_eq!(headers[0].dofs_offset, 160);
    assert_eq!(headers[0].dofs_align, 1);
    // the string table is padded so that the probes start on 8 bytes
    assert_eq!(data[0].len(), 8);
    assert_eq!(headers[1].dofs_offset, 168);
    assert_eq!(headers[1].dofs_align, 8);
    assert_eq!(headers[1].dofs_entsize, 48);
    assert_eq!(headers[2].dofs_offset, 216);
    assert_eq!(headers[2].dofs_entsize, 44);
    assert_eq!(headers[2].dofs_size, 44);
    assert_eq!(size, 260);
}

#[test]
fn test_string_table_is_shared() {
    let section = sample_section();
    let data = build_section_data(&section);
    // the string table, the two offset tables, a probe section and a provider section per provider
    assert_eq!(data.len(), 7);
    assert_eq!(data[0].0, DOF_SECT_STRTAB);
    // "main" is written once though two probes name it
    assert_eq!(data[0].1, b"\0foo\0main\0start\0stop\0bar\0worker\0go\0".to_vec());
    assert_eq!(data[1].0, DOF_SECT_PROFFS);
    assert_eq!(data[1].1, [0u32.to_ne_bytes(), 8u32.to_ne_bytes(), 12u32.to_ne_bytes()].concat());
    assert_eq!(data[3].0, DOF_SECT_PROBES);
    assert_eq!(data[3].1.len(), 96);
    assert_eq!(data[5].0, DOF_SECT_PROVIDER);
    assert_eq!(data[5].1.len(), 44);
}

#[test]
fn test_section_roundtrip() {
    let section = sample_section();
    let bytes = section.as_bytes();
    assert!(is_dof_section(&bytes));
    let back = Section::from_bytes(&bytes).unwrap();
    assert_eq!(back.ident.magic, [0x7f, b'D', b'O', b'F']);
    assert_eq!(back.ident.version, section.ident.version);
    assert_eq!(back.providers.len(), 2);
    for (a, b) in back.providers.iter().zip(section.providers.iter()) {
        assert_eq!(a.name, b.name);
        assert_eq!(a.probes.len(), b.probes.len());
        for (p, q) in a.probes.iter().zip(b.probes.iter()) {
            assert_eq!(p.name, q.name);
            assert_eq!(p.function, q.function);
            assert_eq!(p.address, q.address);
            assert_eq!(p.offsets, q.offsets);
            assert_eq!(p.enabled_offsets, q.enabled_offsets);
        }
    }
}

#[test]
fn test_serialized_header() {
    let section = sample_section();
    let bytes = serialize_section(&section);
    assert_eq!(&bytes[0..4], &[0x7f, b'D', b'O', b'F']);
    // header size, section header size, number of sections
    assert_eq!(&bytes[20..24], &64u32.to_ne_bytes());
    assert_eq!(&bytes[24..28], &32u32.to_ne_bytes());
    assert_eq!(&bytes[28..32], &7u32.to_ne_bytes());
    // load and file size are the length of the whole
    let len = bytes.len() as u64;
    assert_eq!(&bytes[40..48], &len.to_ne_bytes());
    assert_eq!(&bytes[48..56], &len.to_ne_bytes());
}

#[test]
fn test_raw_sections() {
    let section = sample_section();
    let bytes = section.as_bytes();
    let (header, sections) = deserialize_raw_sections(&bytes).unwrap();
    assert_eq!(header.dofh_secnum, 7);
    assert_eq!(header.dofh_secoff, 64);
    assert_eq!(sections.len(), 7);
    assert_eq!(sections[0].0.dofs_type, DOF_SECT_STRTAB);
    assert_eq!(sections[0].1, b"\0foo\0main\0start\0stop\0bar\0worker\0go\0".to_vec());
    assert_eq!(sections[6].0.dofs_type, DOF_SECT_PROVIDER);
}

#[test]
fn test_bad_magic() {
    let mut bytes = sample_section().as_bytes();
    bytes[1] = b'X';
    assert!(!is_dof_section(&bytes));
    assert!(matches!(deserialize_section(&bytes), Err(Error::InvalidIdentifier)));
}

#[test]
fn test_bad_model() {
    let mut bytes = sample_section().as_bytes();
    bytes[4] = 9;
    assert!(matches!(deserialize_section(&bytes), Err(Error::InvalidIdentifier)));
}

#[test]
fn test_bad_section_header_size() {
    let mut bytes = sample_section().as_bytes();
    bytes[24] = 31;
    assert!(matches!(deserialize_section(&bytes), Err(Error::ParseError)));
}

#[test]
fn test_unreadable_bytes() {
    assert!(matches!(deserialize_section(&[0x7f, b'D', b'O', b'F']), Err(Error::ParseError)));
    assert!(matches!(deserialize_sections(&vec![vec![0x7f, b'D', b'O', b'F']]), Err(Error::ParseError)));
    let mut bytes = sample_section().as_bytes();
    let n = bytes.len();
    bytes.truncate(n - 10);
    assert!(matches!(deserialize_section(&bytes), Err(Error::ParseError)));
    assert!(matches!(Section::from_bytes(&bytes), Err(Error::ParseError)));
}

#[test]
fn test_ident() {
    let id = Ident::try_from(&[0x7f, b'D', b'O', b'F', 2, 1, 2][..]).unwrap();
    assert_eq!(id.model, DataModel::LP64);
    assert_eq!(id.encoding, DataEncoding::LittleEndian);
    assert_eq!(id.version, 2);
    assert_eq!(
        id.as_bytes(),
        [0x7f, b'D', b'O', b'F', 2, 1, 2, 0, 0, 0, 0, 0, 0, 0, 0, 0]
    );
    assert!(matches!(Ident::try_from(&[0x7f, b'D', b'O'][..]), Err(Error::ParseError)));
    assert!(matches!(
        Ident::try_from(&[0x7f, b'D', b'O', b'F', 2, 3, 2][..]),
        Err(Error::InvalidIdentifier)
    ));
    assert_eq!(DataModel::try_from(1).unwrap(), DataModel::ILP32);
    assert!(DataEncoding::try_from(3).is_err());
}

#[test]
fn test_defaults() {
    let id = Ident::default();
    assert_eq!(id.magic, [0x7f, b'D', b'O', b'F']);
    assert_eq!(id.version, 2);
    if usize::BITS == 64 {
        assert_eq!(id.model, DataModel::LP64);
    } else {
        assert_eq!(id.model, DataModel::ILP32);
    }
    let expected = if u16::from_ne_bytes([1, 0]) == 1 {
        DataEncoding::LittleEndian
    } else {
        DataEncoding::BigEndian
    };
    assert_eq!(id.encoding, expected);
}

#[test]
fn test_fmt_dof_sec() {
    let sec = dof_sec {
        dofs_type: DOF_SECT_PROBES,
        dofs_align: 8,
        dofs_flags: 1,
        dofs_entsize: 48,
        dofs_offset: 264,
        dofs_size: 96,
    };
    assert_eq!(
        fmt_dof_sec(&sec, 10),
        "DOF section 10 (0xa)\n  dofs_type:    16 (DOF_SECT_PROBES)\n  dofs_align:   8\n  dofs_flags:   1\n  dofs_entsize: 48\n  dofs_offset:  264\n  dofs_size:    96\n"
    );
    let other = dof_sec { dofs_type: 99, ..sec };
    assert!(fmt_dof_sec(&other, 0).contains("99 (unknown)"));
}

#[test]
fn test_fmt_dof_sec_data() {
    let sec = dof_sec {
        dofs_type: DOF_SECT_PROVIDER,
        dofs_align: 4,
        dofs_flags: 1,
        dofs_entsize: 44,
        dofs_offset: 0,
        dofs_size: 44,
    };
    let mut data = vec![0u8; 44];
    data[4] = 5;
    data[16] = 0x1f;
    let text = fmt_dof_sec_data(&sec, &data);
    assert!(text.starts_with("dof_provider {\n    dofpv_strtab: 0x0,\n    dofpv_probes: 0x5,\n"));
    assert!(text.contains("    dofpv_name: 0x1f,\n"));
    assert!(text.ends_with("    dofpv_prenoffs: 0x0,\n}"));

    let strtab = dof_sec { dofs_type: DOF_SECT_STRTAB, ..sec };
    let dump = fmt_dof_sec_data(&strtab, &b"\0foo\0".to_vec());
    assert_eq!(dump, pretty_hex::pretty_hex(&b"\0foo\0".to_vec()));
}

#[test]
fn test_fmt_probe_records() {
    let section = sample_section();
    let data = build_section_data(&section);
    let sec = dof_sec {
        dofs_type: DOF_SECT_PROBES,
        dofs_align: 8,
        dofs_flags: 1,
        dofs_entsize: 48,
        dofs_offset: 0,
        dofs_size: 96,
    };
    let text = fmt_dof_sec_data(&sec, &data[3].1);
    assert_eq!(text.matches("dof_probe {").count(), 2);
    assert!(text.contains("}\ndof_probe {"));
    assert!(text.contains("    dofpr_addr: 0x1000,\n"));
    assert!(text.contains("    dofpr_addr: 0x1100,\n"));
    assert!(text.contains("    dofpr_noffs: 0x2,\n"));
    let _ = FormatMode::Raw { include_sections: true };
}

#[test]
fn test_collect_from_unknown_object() {
    let result = collect_dof_sections(b"definitely not an object file");
    assert!(matches!(result, Err(Error::UnsupportedObjectFile) | Err(Error::ObjectError(_))));
}

#[test]
fn test_fmt_dof_hdr_matches_debug() {
    let bytes = sample_section().as_bytes();
    let (header, _) = deserialize_raw_sections(&bytes).unwrap();
    assert_eq!(fmt_dof_hdr(&header), format!("{:#?}", header));
    assert!(fmt_dof_hdr(&header).starts_with("dof_hdr {\n    dofh_ident: [\n        127,\n        68,\n"));
}

#[test]
fn test_fmt_dof_raw() {
    let bytes = sample_section().as_bytes();
    let (header, sections) = deserialize_raw_sections(&bytes).unwrap();
    let mut headers_only = format!("{:#?}\n", header);
    let mut with_data = headers_only.clone();
    for (index, (sec, data)) in sections.iter().enumerate() {
        headers_only.push_str(&format!("{}\n", fmt_dof_sec(sec, index)));
        with_data.push_str(&format!("{}\n", fmt_dof_sec(sec, index)));
        with_data.push_str(&format!("{}\n", fmt_dof_sec_data(sec, data)));
    }
    let two = vec![bytes.clone(), bytes.clone()];
    match fmt_dof_raw(&vec![bytes.clone()], false) {
        Ok(Some(text)) => assert_eq!(text, headers_only),
        _ => panic!("expected the text of the headers"),
    }
    match fmt_dof_raw(&vec![bytes.clone()], true) {
        Ok(Some(text)) => assert_eq!(text, with_data),
        _ => panic!("expected the text of the headers and data"),
    }
    match fmt_dof_raw(&two, false) {
        Ok(Some(text)) => assert_eq!(text, format!("{}{}", headers_only, headers_only)),
        _ => panic!("expected the text of both sections"),
    }
}

#[test]
fn test_fmt_dof_raw_failures() {
    assert!(matches!(fmt_dof_raw(&vec![], true), Ok(None)));
    let good = sample_section().as_bytes();
    let mut bad_size = good.clone();
    bad_size[24] = 31;
    assert!(matches!(deserialize_raw_sections(&bad_size), Err(Error::ParseError)));
    assert!(matches!(fmt_dof_raw(&vec![good.clone(), bad_size.clone()], false), Err(Error::ParseError)));
    let short = good[..40].to_vec();
    assert!(matches!(fmt_dof_raw(&vec![short.clone()], false), Err(Error::ParseError)));
    assert!(matches!(fmt_dof_raw(&vec![vec![0x7f, b'D', b'O', b'F']], true), Err(Error::ParseError)));
    assert!(matches!(fmt_dof_raw(&vec![short, bad_size], false), Err(Error::ParseError)));
}

#[test]
fn test_fmt_records_match_debug() {
    let mut data: Vec<u8> = (0u8..96).collect();
    let probes = dof_sec {
        dofs_type: DOF_SECT_PROBES,
        dofs_align: 8,
        dofs_flags: 1,
        dofs_entsize: 48,
        dofs_offset: 0,
        dofs_size: 96,
    };
    let expected = format!(
        "{:#x?}\n{:#x?}",
        dof_probe::read_from(&data, 0, native_order()),
        dof_probe::read_from(&data, 48, native_order())
    );
    assert_eq!(fmt_dof_sec_data(&probes, &data), expected);

    data.truncate(44);
    let provider = dof_sec { dofs_type: DOF_SECT_PROVIDER, dofs_entsize: 44, dofs_size: 44, ..probes };
    assert_eq!(fmt_dof_sec_data(&provider, &data), format!("{:#x?}", dof_provider::read_from(&data, 0, native_order())));

    data.truncate(24);
    let reltab = dof_sec { dofs_type: usdt::dof_raw::DOF_SECT_RELTAB, dofs_entsize: 24, dofs_size: 24, ..probes };
    assert_eq!(fmt_dof_sec_data(&reltab, &data), format!("{:#x?}", dof_relodesc::read_from(&data, 0, native_order())));
}

/// A little-endian ELF64 relocatable file whose only section holds `payload`.
fn elf_with_section(payload: &[u8]) -> Vec<u8> {
    let mut f: Vec<u8> = Vec::new();
    f.extend_from_slice(&[0x7f, b'E', b'L', b'F', 2, 1, 1, 0]);
    f.extend_from_slice(&[0u8; 8]);
    f.extend_from_slice(&1u16.to_le_bytes()); // e_type
    f.extend_from_slice(&62u16.to_le_bytes()); // e_machine
    f.extend_from_slice(&1u32.to_le_bytes()); // e_version
    f.extend_from_slice(&0u64.to_le_bytes()); // e_entry
    f.extend_from_slice(&0u64.to_le_bytes()); // e_phoff
    let data_off = 64u64;
    let mut padded = payload.to_vec();
    while padded.len() % 8 != 0 {
        padded.push(0);
    }
    let shoff = data_off + padded.len() as u64;
    f.extend_from_slice(&shoff.to_le_bytes()); // e_shoff
    f.extend_from_slice(&0u32.to_le_bytes()); // e_flags
    f.extend_from_slice(&64u16.to_le_bytes()); // e_ehsize
    f.extend_from_slice(&56u16.to_le_bytes()); // e_phentsize
    f.extend_from_slice(&0u16.to_le_bytes()); // e_phnum
    f.extend_from_slice(&64u16.to_le_bytes()); // e_shentsize
    f.extend_from_slice(&2u16.to_le_bytes()); // e_shnum
    f.extend_from_slice(&0u16.to_le_bytes()); // e_shstrndx
    assert_eq!(f.len(), 64);
    f.extend_from_slice(&padded);
    f.extend_from_slice(&[0u8; 64]);
    f.extend_from_slice(&0u32.to_le_bytes()); // sh_name
    f.extend_from_slice(&1u32.to_le_bytes()); // sh_type: PROGBITS
    f.extend_from_slice(&2u64.to_le_bytes()); // sh_flags: ALLOC
    f.extend_from_slice(&0u64.to_le_bytes()); // sh_addr
    f.extend_from_slice(&data_off.to_le_bytes()); // sh_offset
    f.extend_from_slice(&(payload.len() as u64).to_le_bytes()); // sh_size
    f.extend_from_slice(&0u32.to_le_bytes()); // sh_link
    f.extend_from_slice(&0u32.to_le_bytes()); // sh_info
    f.extend_from_slice(&8u64.to_le_bytes()); // sh_addralign
    f.extend_from_slice(&0u64.to_le_bytes()); // sh_entsize
    f
}

#[test]
fn test_deserialize_sections() {
    let good = sample_section().as_bytes();
    match deserialize_sections(&vec![good.clone(), good.clone()]) {
        Ok(v) => {
            assert_eq!(v.len(), 2);
            assert_eq!(v[1].providers.len(), 2);
            assert_eq!(v[1].providers[1].probes[0].enabled_offsets, vec![0, 2, 4]);
        }
        _ => panic!("expected two sections"),
    }
    let mut bad = good.clone();
    bad[1] = b'X';
    assert!(matches!(deserialize_sections(&vec![good.clone(), bad.clone()]), Err(Error::InvalidIdentifier)));
    assert!(matches!(deserialize_sections(&vec![good[..40].to_vec(), bad]), Err(Error::ParseError)));
    assert!(matches!(deserialize_sections(&vec![]), Ok(v) if v.is_empty()));
}

#[test]
fn test_extract_from_elf() {
    let dof = sample_section().as_bytes();
    let elf = elf_with_section(&dof);
    match collect_dof_sections(&elf) {
        Ok(v) => assert_eq!(v, vec![dof.clone()]),
        other => panic!("unexpected result: {:?}", other.map(|v| v.len())),
    }
    match extract_dof_sections(&elf) {
        Ok(v) => {
            assert_eq!(v.len(), 1);
            assert_eq!(v[0].providers[0].name, "foo");
            assert_eq!(v[0].providers[0].probes[1].name, "stop");
        }
        _ => panic!("expected the section of the file"),
    }
    let plain = elf_with_section(b"not dof at all");
    assert!(matches!(extract_dof_sections(&plain), Ok(v) if v.is_empty()));
}

#[test]
fn test_try_serialize_section() {
    let section = sample_section();
    let bytes = try_serialize_section(&section).expect("a small section fits");
    assert_eq!(bytes, serialize_section(&section));
    assert_eq!(bytes, section.as_bytes());
    let empty = Section { ident: Ident::default(), providers: vec![] };
    let b = try_serialize_section(&empty).unwrap();
    assert!(is_dof_section(&b));
}

#[test]
fn test_ident_bytes_read_back() {
    for model in [DataModel::Unspecified, DataModel::ILP32, DataModel::LP64] {
        for encoding in [DataEncoding::Unspecified, DataEncoding::LittleEndian, DataEncoding::BigEndian] {
            let id = Ident { magic: [0x7f, b'D', b'O', b'F'], model, encoding, version: 9 };
            let back = Ident::try_from(&id.as_bytes()[..]).unwrap();
            assert_eq!(back.model, model);
            assert_eq!(back.encoding, encoding);
            assert_eq!(back.version, 9);
            assert_eq!(back.magic, id.magic);
        }
    }
}

#[test]
fn test_section_in_either_byte_order() {
    let section = sample_section();
    let little = serialize_section_in_order(&section, ByteOrder::Little);
    let big = serialize_section_in_order(&section, ByteOrder::Big);
    assert_eq!(little.len(), big.len());
    assert_eq!(&little[20..24], &64u32.to_le_bytes());
    assert_eq!(&big[20..24], &64u32.to_be_bytes());
    let data = build_section_data_in_order(&section, ByteOrder::Big);
    assert_eq!(data[1].1, [0u32.to_be_bytes(), 8u32.to_be_bytes(), 12u32.to_be_bytes()].concat());
    // each reads back in the order it was written in
    let back = deserialize_section_in_order(&big, ByteOrder::Big).unwrap();
    assert_eq!(back.providers.len(), 2);
    assert_eq!(back.providers[0].probes[0].offsets, vec![0, 8]);
    let (header, _) = deserialize_raw_sections_in_order(&little, ByteOrder::Little).unwrap();
    assert_eq!(header.dofh_secnum, 7);
    // the machine's order is one of the two
    let native = serialize_section(&section);
    assert!(native == little || native == big);
}
