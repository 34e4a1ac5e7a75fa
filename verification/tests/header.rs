use usdt::header::{extract_providers, is_enabled_line, is_probe_line, is_stability_line, is_typedefs_line, lines};

#[test]
fn mac_test_is_stability_line() {
    let line = "this line is ok \"___dtrace_stability$foo$bar\"";
    let result = is_stability_line(line);
    assert!(result.is_some());
    let (provider, symbol) = result.unwrap();
    assert_eq!(provider, "foo");
    assert_eq!(symbol, "__dtrace_stability$foo$bar");
    assert!(is_stability_line("bad").is_none());
}

#[test]
fn mac_test_is_typedefs_line() {
    let line = "this line is ok \"___dtrace_typedefs$foo$bar\"";
    let result = is_typedefs_line(line);
    assert!(result.is_some());
    let (provider, symbol) = result.unwrap();
    assert_eq!(provider, "foo");
    assert_eq!(symbol, "__dtrace_typedefs$foo$bar");
    assert!(is_typedefs_line("bad").is_none());
}

#[test]
fn mac_test_is_enabled_line() {
    let line = "extern int __dtrace_isenabled$foo$bar$xxx(void);";
    let result = is_enabled_line(line);
    assert!(result.is_some());
    let (provider, probe, symbol) = result.unwrap();
    assert_eq!(provider, "foo");
    assert_eq!(probe, "bar");
    assert_eq!(symbol, "__dtrace_isenabled$foo$bar$xxx");
    assert!(is_enabled_line("bad").is_none());
}

#[test]
fn mac_test_is_probe_line() {
    let line = "extern void __dtrace_probe$foo$bar$xxx(whatever);";
    let result = is_probe_line(line);
    assert!(result.is_some());
    let (provider, probe, symbol) = result.unwrap();
    assert_eq!(provider, "foo");
    assert_eq!(probe, "bar");
    assert_eq!(symbol, "__dtrace_probe$foo$bar$xxx");
    assert!(is_enabled_line("bad").is_none());
}

#[test]
fn linker_test_is_stability_line() {
    let line = "this line is ok \"___dtrace_stability$foo$bar\"";
    let result = is_stability_line(line);
    assert!(result.is_some());
    let (provider, symbol) = result.unwrap();
    assert_eq!(provider, "foo");
    assert_eq!(symbol, "__dtrace_stability$foo$bar");
    assert!(is_stability_line("bad").is_none());
}

#[test]
fn linker_test_is_typedefs_line() {
    let line = "this line is ok \"___dtrace_typedefs$foo$bar\"";
    let result = is_typedefs_line(line);
    assert!(result.is_some());
    let (provider, symbol) = result.unwrap();
    assert_eq!(provider, "foo");
    assert_eq!(symbol, "__dtrace_typedefs$foo$bar");
    assert!(is_typedefs_line("bad").is_none());
}

#[test]
fn linker_test_is_enabled_line() {
    let line = "extern int __dtrace_isenabled$foo$bar$xxx(void);";
    let result = is_enabled_line(line);
    assert!(result.is_some());
    let (provider, probe, symbol) = result.unwrap();
    assert_eq!(provider, "foo");
    assert_eq!(probe, "bar");
    assert_eq!(symbol, "__dtrace_isenabled$foo$bar$xxx");
    assert!(is_enabled_line("bad").is_none());
}

#[test]
fn linker_test_is_probe_line() {
    let line = "extern void __dtrace_probe$foo$bar$xxx(whatever);";
    let result = is_probe_line(line);
    assert!(result.is_some());
    let (provider, probe, symbol) = result.unwrap();
    assert_eq!(provider, "foo");
    assert_eq!(probe, "bar");
    assert_eq!(symbol, "__dtrace_probe$foo$bar$xxx");
    assert!(is_enabled_line("bad").is_none());
}

fn sample_header() -> String {
    let mut h = String::new();
    h.push_str("/* generated */\n");
    h.push_str("#define FOO_STABILITY \"___dtrace_stability$foo$v1$1_1_0\"\r\n");
    h.push_str("#define FOO_TYPEDEFS \"___dtrace_typedefs$foo$v2\"\n");
    h.push_str("extern int __dtrace_isenabled$foo$zap$v1(void);\n");
    h.push_str("extern void __dtrace_probe$foo$zap$v1(uint8_t);\n");
    h.push_str("extern int __dtrace_isenabled$foo$bar$v1(void);\n");
    h.push_str("extern void __dtrace_probe$foo$bar$v1(void);\n");
    h
}

#[test]
fn test_lines() {
    assert_eq!(lines("a\r\nb\n\nc"), vec!["a".to_string(), "b".to_string(), String::new(), "c".to_string()]);
    assert_eq!(lines("x\n"), vec!["x".to_string()]);
    assert!(lines("").is_empty());
}

#[test]
fn test_extract_providers() {
    let ps = extract_providers(&sample_header()).expect("the header is well formed");
    assert_eq!(ps.len(), 1);
    let (name, info) = &ps[0];
    assert_eq!(name, "foo");
    assert_eq!(info.stability, "__dtrace_stability$foo$v1$1_1_0");
    assert_eq!(info.typedefs, "__dtrace_typedefs$foo$v2");
    assert_eq!(
        info.is_enabled,
        vec![
            ("bar".to_string(), "__dtrace_isenabled$foo$bar$v1".to_string()),
            ("zap".to_string(), "__dtrace_isenabled$foo$zap$v1".to_string()),
        ]
    );
    assert_eq!(
        info.probes,
        vec![
            ("bar".to_string(), "__dtrace_probe$foo$bar$v1".to_string()),
            ("zap".to_string(), "__dtrace_probe$foo$zap$v1".to_string()),
        ]
    );
}

#[test]
fn test_extract_providers_unknown_provider() {
    let header = "extern void __dtrace_probe$foo$bar$v1(void);\n";
    assert!(extract_providers(header).is_none());
    let header = "#define FOO_TYPEDEFS \"___dtrace_typedefs$foo$v2\"\n";
    assert!(extract_providers(header).is_none());
}

#[test]
fn test_extract_providers_restarts_provider() {
    let mut h = sample_header();
    h.push_str("#define FOO_STABILITY \"___dtrace_stability$foo$v9\"\n");
    let ps = extract_providers(&h).unwrap();
    assert_eq!(ps.len(), 1);
    assert_eq!(ps[0].1.stability, "__dtrace_stability$foo$v9");
    assert!(ps[0].1.probes.is_empty());
    assert_eq!(ps[0].1.typedefs, "");
}
