use usdt::dof::{Ident, Probe, Provider, Section};
use usdt::registration::{first_probe_address, module_name, module_name_field};

fn section_with(providers: Vec<Provider>) -> Section {
    Section { ident: Ident::default(), providers }
}

fn provider(name: &str, addresses: &[u64]) -> Provider {
    Provider {
        name: name.to_string(),
        probes: addresses
            .iter()
            .enumerate()
            .map(|(i, a)| Probe {
                name: format!("p{}", i),
                function: "f".to_string(),
                address: *a,
                offsets: vec![0],
                enabled_offsets: vec![],
            })
            .collect(),
    }
}

#[test]
fn test_module_name_from_path() {
    let section = section_with(vec![provider("a", &[0x1000, 0x2000]), provider("b", &[0x3000])]);
    assert_eq!(first_probe_address(&section), Some(0x1000));
    assert_eq!(module_name(&section, Some("/usr/lib/libfoo.so".to_string())), "libfoo.so");
    assert_eq!(module_name(&section, Some("plain".to_string())), "plain");
    assert_eq!(module_name(&section, Some("/trailing/".to_string())), "");
    assert_eq!(module_name(&section, None), "?0x1000");
}

#[test]
fn test_unknown_module() {
    let empty = section_with(vec![]);
    assert_eq!(first_probe_address(&empty), None);
    assert_eq!(module_name(&empty, None), "unknown-module");
    let no_probes = section_with(vec![provider("a", &[]), provider("b", &[0x10])]);
    assert_eq!(first_probe_address(&no_probes), None);
    assert_eq!(module_name(&no_probes, Some("/x/y".to_string())), "unknown-module");
}

#[test]
fn test_module_name_field() {
    let field = module_name_field("abc");
    assert_eq!(field.len(), 64);
    assert_eq!(&field[..4], &[b'a', b'b', b'c', 0]);
    assert!(field[3..].iter().all(|b| *b == 0));
    let long = "x".repeat(100);
    let field = module_name_field(&long);
    assert_eq!(field.len(), 64);
    assert!(field[..63].iter().all(|b| *b == b'x'));
    assert_eq!(field[63], 0);
}
