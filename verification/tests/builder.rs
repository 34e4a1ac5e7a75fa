use usdt::builder::{Builder, CompileProvidersConfig};

#[test]
fn test_builder_defaults() {
    let b = Builder::new("probes/test.d");
    assert_eq!(b.source_file(), "probes/test.d");
    assert_eq!(b.out_file_name(), "probes/test.rs");
    assert!(b.config().probe_format.is_none());
    assert!(b.config().provider.is_none());
    assert!(b.config().module.is_none());
}

#[test]
fn test_builder_settings() {
    let b = Builder::new("test.d").out_file("generated.txt").probe_format("probe_{provider}_{probe}").module("probes");
    assert_eq!(b.source_file(), "test.d");
    assert_eq!(b.out_file_name(), "generated.rs");
    assert_eq!(b.config().probe_format.as_deref(), Some("probe_{provider}_{probe}"));
    assert_eq!(b.config().module.as_deref(), Some("probes"));
    let b = Builder::new("noext").out_file("other");
    assert_eq!(b.out_file_name(), "other.rs");
}

#[test]
fn test_config_for_provider() {
    let c = CompileProvidersConfig::new();
    assert!(c.module_name().is_none());
    let d = c.for_provider("foo");
    assert_eq!(d.provider.as_deref(), Some("foo"));
    assert_eq!(d.module.as_deref(), Some("foo"));
    assert!(d.probe_format.is_none());
    assert_eq!(d.module_name().as_deref(), Some("foo"));
    let e = CompileProvidersConfig { provider: None, probe_format: Some("p_{probe}".to_string()), module: Some("m".to_string()) };
    let f = e.for_provider("bar");
    assert_eq!(f.module.as_deref(), Some("m"));
    assert_eq!(f.probe_format.as_deref(), Some("p_{probe}"));
    assert_eq!(f.module_name().as_deref(), Some("m"));
    let g = CompileProvidersConfig { provider: Some("prov".to_string()), probe_format: None, module: None };
    assert_eq!(g.module_name().as_deref(), Some("prov"));
}
