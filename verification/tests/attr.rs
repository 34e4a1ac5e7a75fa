use usdt::attr::{check_module_item, check_probe_function_signature, check_provider_module, data_type_from_path, is_simple_type, use_path_is_relative, ModuleItemKind};
use usdt::definition::DataType;
use usdt::types::{BitWidth, DataType as DType, Integer, Sign};

fn path_type(path: &syn::Path, is_reference: bool) -> DataType {
    let ident = path.get_ident().map(|i| i.to_string());
    let segments: Vec<String> = path.segments.iter().map(|s| s.ident.to_string()).collect();
    data_type_from_path(ident.as_deref(), &segments, is_reference)
}

fn signature_check(s: &str) -> Option<&'static str> {
    let sig = syn::parse_str::<syn::Signature>(s).unwrap();
    check_probe_function_signature(
        sig.unsafety.is_some(),
        sig.abi.is_some(),
        sig.asyncness.is_some(),
        !sig.generics.params.is_empty(),
        !matches!(sig.output, syn::ReturnType::Default),
    )
}

fn use_tree_idents(tree: &syn::UseTree) -> Vec<String> {
    match tree {
        syn::UseTree::Path(p) => {
            let mut v = vec![p.ident.to_string()];
            v.extend(use_tree_idents(&p.tree));
            v
        }
        _ => vec![],
    }
}

fn use_is_ok(s: &str) -> bool {
    let item = syn::parse_str::<syn::ItemUse>(s).unwrap();
    !use_path_is_relative(&use_tree_idents(&item.tree))
}

#[test]
fn test_is_simple_type() {
    assert!(is_simple_type("u8"));
    assert!(!is_simple_type("Foo"));
    assert!(is_simple_type("str"));
    assert!(!is_simple_type("u128"));
}

#[test]
fn test_data_type_from_path() {
    assert_eq!(
        path_type(&syn::parse_str("u8").unwrap(), false),
        DataType::Native(DType::Integer(Integer { sign: Sign::Unsigned, width: BitWidth::Bit8 }))
    );
    assert_eq!(path_type(&syn::parse_str("String").unwrap(), false), DataType::Native(DType::String));
    assert_eq!(
        path_type(&syn::parse_str("std::net::IpAddr").unwrap(), false),
        DataType::Serializable(String::from("std::net::IpAddr")),
    );
    assert_eq!(
        path_type(&syn::parse_str("std::net::IpAddr").unwrap(), true),
        DataType::Serializable(String::from("&std::net::IpAddr")),
    );
    assert_eq!(
        path_type(&syn::parse_str("i64").unwrap(), true),
        DataType::Native(DType::Integer(Integer { sign: Sign::Signed, width: BitWidth::Bit64 }))
    );
}

#[test]
fn test_check_probe_function_signature() {
    assert!(signature_check("fn foo(_: u8)").is_none());
    assert_eq!(signature_check("unsafe fn foo(_: u8)"), Some("Probe functions may not be unsafe"));
    assert_eq!(signature_check(r#"extern "C" fn foo(_: u8)"#), Some("Probe functions may not specify an ABI"));
    assert_eq!(signature_check("fn foo<T: Debug>(_: u8)"), Some("Probe functions may not be generic"));
    assert_eq!(signature_check("fn foo(_: u8) -> u8"), Some("Probe functions may not specify a return type"));
    assert_eq!(signature_check("async fn foo(_: u8)"), Some("Probe functions may not be async"));
}

#[test]
fn test_verify_use_tree() {
    assert!(use_is_ok("use std::net::IpAddr;"));
    assert!(!use_is_ok("use super::SomeType;"));
    assert!(!use_is_ok("use crate::super::SomeType;"));
}

#[test]
fn provider_module_checks() {
    assert_eq!(check_provider_module("provider", true), Some("Provider modules may not be named \"provider\""));
    assert_eq!(check_provider_module("things", false), Some("Provider modules must have one or more probes"));
    assert_eq!(check_provider_module("things", true), None);
    assert_eq!(
        check_module_item(ModuleItemKind::Function, "probe"),
        Some("Probe functions may not be named \"probe\"")
    );
    assert_eq!(check_module_item(ModuleItemKind::Function, "start"), None);
    assert_eq!(check_module_item(ModuleItemKind::Use, "probe"), None);
    assert_eq!(
        check_module_item(ModuleItemKind::Other, "x"),
        Some("Provider modules may only include empty functions or use statements")
    );
}
