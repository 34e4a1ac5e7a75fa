use usdt::dtrace;
use usdt::grammar::{DTraceParser, Rule};
use usdt::parser::{DTraceError, File};
use usdt::types::{BitWidth, DataType, Integer, Sign};

#[test]
fn test_basic_tokens() {
    let tokens = [
        ("probe", Rule::PROBE_KEY),
        ("provider", Rule::PROVIDER_KEY),
        (";", Rule::SEMICOLON),
        ("(", Rule::LEFT_PAREN),
        (")", Rule::RIGHT_PAREN),
        ("{", Rule::LEFT_BRACE),
        ("}", Rule::RIGHT_BRACE),
    ];
    for &(token, rule) in &tokens {
        assert!(dtrace::DTraceParser::parse(rule, token).is_ok());
    }
    assert!(dtrace::DTraceParser::parse(Rule::LEFT_BRACE, "x").is_err());
}

#[test]
fn dtrace_test_identifier() {
    assert!(dtrace::DTraceParser::parse(Rule::IDENTIFIER, "foo").is_ok());
    assert!(dtrace::DTraceParser::parse(Rule::IDENTIFIER, "foo_bar").is_ok());
    assert!(dtrace::DTraceParser::parse(Rule::IDENTIFIER, "foo9").is_ok());

    assert!(dtrace::DTraceParser::parse(Rule::IDENTIFIER, "_bar").is_err());
    assert!(dtrace::DTraceParser::parse(Rule::IDENTIFIER, "").is_err());
    assert!(dtrace::DTraceParser::parse(Rule::IDENTIFIER, "9foo").is_err());
}

#[test]
fn dtrace_test_data_types() {
    assert!(dtrace::DTraceParser::parse(Rule::DATA_TYPE, "uint8_t").is_ok());
    assert!(dtrace::DTraceParser::parse(Rule::DATA_TYPE, "int").is_err());
    assert!(dtrace::DTraceParser::parse(Rule::DATA_TYPE, "flaot").is_err());
}

#[test]
fn dtrace_test_probe() {
    let defn = "probe foo(uint8_t, float, float);";
    assert!(dtrace::DTraceParser::parse(Rule::PROBE, defn).is_ok());
    assert!(dtrace::DTraceParser::parse(Rule::PROBE, &defn[..defn.len() - 2]).is_err());
}

#[test]
fn test_provider() {
    let defn = r#"
            provider foo {
                probe bar();
                probe baz(string, float, uint8_t);
            };"#;
    assert!(dtrace::DTraceParser::parse(Rule::PROVIDER, defn).is_ok());
    assert!(dtrace::DTraceParser::parse(Rule::PROVIDER, &defn[..defn.len() - 2]).is_err());

    let defn = "provider foo { };";
    assert!(dtrace::DTraceParser::parse(Rule::PROVIDER, defn).is_err());
}

#[test]
fn lib_test_identifier() {
    assert!(DTraceParser::parse(Rule::IDENTIFIER, "foo").is_ok());
    assert!(DTraceParser::parse(Rule::IDENTIFIER, "foo_bar").is_ok());
    assert!(DTraceParser::parse(Rule::IDENTIFIER, "foo9").is_ok());

    assert!(DTraceParser::parse(Rule::IDENTIFIER, "_bar").is_err());
    assert!(DTraceParser::parse(Rule::IDENTIFIER, "").is_err());
    assert!(DTraceParser::parse(Rule::IDENTIFIER, "9foo").is_err());
}

#[test]
fn lib_test_data_types() {
    assert!(DTraceParser::parse(Rule::DATA_TYPE, "uint8_t").is_ok());
    assert!(DTraceParser::parse(Rule::DATA_TYPE, "int").is_err());
    assert!(DTraceParser::parse(Rule::DATA_TYPE, "flaot").is_err());
}

#[test]
fn lib_test_probe() {
    let defn = "probe foo(uint8_t, uint16_t, uint16_t);";
    assert!(DTraceParser::parse(Rule::PROBE, defn).is_ok());
    assert!(DTraceParser::parse(Rule::PROBE, &defn[..defn.len() - 2]).is_err());
}

#[test]
fn test_basic_provider() {
    let defn = r#"
            provider foo {
                probe bar();
                probe baz(char*, uint16_t, uint8_t);
            };"#;
    println!("{:?}", DTraceParser::parse(Rule::FILE, defn));
    assert!(DTraceParser::parse(Rule::FILE, defn).is_ok());
    assert!(DTraceParser::parse(Rule::FILE, &defn[..defn.len() - 2]).is_err());
}

#[test]
fn test_null_provider() {
    let defn = "provider foo { };";
    assert!(DTraceParser::parse(Rule::FILE, defn).is_err());
}

#[test]
fn test_comment_provider() {
    let defn = r#"
            /* Check out this fly provider */
            provider foo {
                probe bar();
                probe baz(char*, uint16_t, uint8_t);
            };"#;
    assert!(DTraceParser::parse(Rule::FILE, defn).is_ok());
}

#[test]
fn test_pragma_provider() {
    let defn = r#"
            #pragma I am a robot
            provider foo {
                probe bar();
                probe baz(char*, uint16_t, uint8_t);
            };
            "#;
    println!("{}", defn);
    assert!(DTraceParser::parse(Rule::FILE, defn).is_ok());
}

#[test]
fn test_two_providers() {
    let defn = r#"
            provider foo {
                probe bar();
                probe baz(char*, uint16_t, uint8_t);
            };
            provider bar {
                probe bar();
                probe baz(char*, uint16_t, uint8_t);
            };
            "#;
    println!("{}", defn);
    assert!(DTraceParser::parse(Rule::FILE, defn).is_ok());
}

#[test]
fn test_file_struct() {
    let defn = r#"
            /* a comment */
            #pragma do stuff
            provider foo {
                probe quux();
                probe quack(char*, uint16_t, uint8_t);
            };
            provider bar {
                probe bar();
                probe baz(char*, uint16_t, uint8_t);
            };
            "#;
    let file = File::parse(defn).unwrap();
    assert_eq!(file.providers().len(), 2);
    assert_eq!(file.providers()[0].name(), "foo");
    assert_eq!(file.providers()[1].probes()[1].name(), "baz");
    assert_eq!(
        file.providers()[0].probes()[1].types(),
        &vec![
            DataType::String,
            DataType::Integer(Integer { sign: Sign::Unsigned, width: BitWidth::Bit16 }),
            DataType::Integer(Integer { sign: Sign::Unsigned, width: BitWidth::Bit8 }),
        ]
    );
    assert!(File::parse("this is not a D file").is_err());
}

#[test]
fn test_probe_struct_parse() {
    let file = File::parse("provider foo { probe baz(char*, uint16_t, uint8_t); };").unwrap();
    let probe = &file.providers()[0].probes()[0];
    assert_eq!(probe.name(), "baz");
    assert_eq!(
        probe.types(),
        &vec![
            DataType::String,
            DataType::Integer(Integer { sign: Sign::Unsigned, width: BitWidth::Bit16 }),
            DataType::Integer(Integer { sign: Sign::Unsigned, width: BitWidth::Bit8 }),
        ]
    );
}

#[test]
fn test_duplicate_probe_name() {
    let defn = "provider foo { probe a(); probe b(); probe a(uint8_t); };";
    match File::parse(defn) {
        Err(DTraceError::DuplicateProbeName((provider, probe))) => {
            assert_eq!(provider, "foo");
            assert_eq!(probe, "a");
        }
        _ => panic!("expected a duplicate probe name"),
    }
    // The same probe name in two providers is no duplicate.
    assert!(File::parse("provider a { probe x(); }; provider b { probe x(); };").is_ok());
}

#[test]
fn test_data_type_enum() {
    let cases = [
        ("uint8_t", DataType::Integer(Integer { sign: Sign::Unsigned, width: BitWidth::Bit8 })),
        ("uint16_t", DataType::Integer(Integer { sign: Sign::Unsigned, width: BitWidth::Bit16 })),
        ("uint32_t", DataType::Integer(Integer { sign: Sign::Unsigned, width: BitWidth::Bit32 })),
        ("uint64_t", DataType::Integer(Integer { sign: Sign::Unsigned, width: BitWidth::Bit64 })),
        ("int8_t", DataType::Integer(Integer { sign: Sign::Signed, width: BitWidth::Bit8 })),
        ("int16_t", DataType::Integer(Integer { sign: Sign::Signed, width: BitWidth::Bit16 })),
        ("int32_t", DataType::Integer(Integer { sign: Sign::Signed, width: BitWidth::Bit32 })),
        ("int64_t", DataType::Integer(Integer { sign: Sign::Signed, width: BitWidth::Bit64 })),
        ("uint8_t*", DataType::Pointer(Integer { sign: Sign::Unsigned, width: BitWidth::Bit8 })),
        ("char*", DataType::String),
    ];
    for (defn, expected) in cases.iter() {
        let src = format!("provider p {{ probe q({}); }};", defn);
        let file = File::parse(&src).unwrap();
        assert_eq!(file.providers()[0].probes()[0].types()[0], *expected);
        assert_eq!(expected.to_c_type(), *defn);
    }
}

#[test]
fn test_data_type_conversion() {
    let file = File::parse("provider p { probe q(uint8_t); };").unwrap();
    let dtype = file.providers()[0].probes()[0].types()[0];
    assert_eq!(dtype.to_rust_ffi_type(), "::std::os::raw::c_uchar");
    assert_eq!(dtype.to_rust_type(), "u8");
}

#[test]
#[should_panic]
fn test_bad_basic_token() {
    assert!(DTraceParser::parse(Rule::LEFT_BRACE, "x").is_ok())
}

#[test]
fn test_parse_error_message() {
    match File::parse("this is not a D file") {
        Err(DTraceError::ParseError(m)) => {
            assert_eq!(m, "the source does not match the grammar of provider definitions")
        }
        _ => panic!("expected a parse error"),
    }
}
