use config_more_formats::{
    by_file_extension, extract_root_table, format_for_extension, from_value, parse_decoded,
    string_root_message, Ason, FormatError, FormatWrapper, Hcl, Hjson, NativeFormat, Node,
    NodeKind, ParseError, Properties, Unexpected, Val, YamlNg,
};

fn origin() -> String {
    String::from("settings.hjson")
}

fn sample() -> Val {
    Val::Object(vec![
        (String::from("a"), Val::Integer(1)),
        (
            String::from("b"),
            Val::Array(vec![Val::Boolean(true), Val::Null, Val::String(String::from("x"))]),
        ),
    ])
}

fn from_hjson(v: serde_hjson::Value) -> Val {
    match v {
        serde_hjson::Value::Null => Val::Null,
        serde_hjson::Value::Bool(b) => Val::Boolean(b),
        serde_hjson::Value::I64(i) => Val::Integer(i),
        serde_hjson::Value::U64(u) => Val::Integer(u as i64),
        serde_hjson::Value::F64(f) => Val::Float(f.to_bits()),
        serde_hjson::Value::String(s) => Val::String(s),
        serde_hjson::Value::Array(items) => Val::Array(items.into_iter().map(from_hjson).collect()),
        serde_hjson::Value::Object(entries) => {
            Val::Object(entries.into_iter().map(|(k, v)| (k, from_hjson(v))).collect())
        }
    }
}

fn all_tagged(n: &Node, want: Option<&str>) -> bool {
    if n.origin.as_deref() != want {
        return false;
    }
    match &n.kind {
        NodeKind::Array(items) => items.iter().all(|i| all_tagged(i, want)),
        NodeKind::Table(entries) => entries.iter().all(|(_, v)| all_tagged(v, want)),
        _ => true,
    }
}

#[test]
fn test_by_file_extension_toml() {
    let result = by_file_extension("settings.toml");
    assert!(result.is_ok());
}

#[test]
fn test_by_file_extension_json() {
    let result = by_file_extension("settings.json");
    assert!(result.is_ok());
}

#[test]
fn test_by_file_extension_yaml() {
    let result = by_file_extension("settings.yaml");
    assert!(result.is_ok());
}

#[test]
fn test_by_file_extension_unsupported() {
    let result = by_file_extension("settings.unsupported");
    assert!(matches!(result, Err(FormatError::UnsupportedFormat(_))));
}

#[test]
fn test_by_file_extension_no_extension() {
    let result = by_file_extension("settings");
    assert!(matches!(result, Err(FormatError::NoExtensionFound)));
}

#[test]
fn test_by_file_extension_properties() {
    let result = by_file_extension("settings.properties");
    assert!(result.is_ok());
}

#[test]
fn test_by_file_extension_hjson() {
    let result = by_file_extension("settings.hjson");
    assert!(result.is_ok());
}

#[test]
fn test_by_file_extension_hcl() {
    let result = by_file_extension("settings.hcl");
    assert!(result.is_ok());
}

#[test]
fn test_by_file_extension_ason() {
    let result = by_file_extension("settings.ason");
    assert!(result.is_ok());
}

#[test]
fn chosen_formats_are_the_expected_ones() {
    assert_eq!(by_file_extension("a/b.toml").unwrap(), FormatWrapper::Enum(NativeFormat::Toml));
    assert_eq!(by_file_extension("x.yml").unwrap(), FormatWrapper::YamlNg);
    assert_eq!(by_file_extension("x.yaml").unwrap(), FormatWrapper::YamlNg);
    assert_eq!(by_file_extension("x.yaml_ng").unwrap(), FormatWrapper::YamlNg);
    assert_eq!(by_file_extension("x.json5").unwrap(), FormatWrapper::Enum(NativeFormat::Json5));
    assert_eq!(by_file_extension("x.ini").unwrap(), FormatWrapper::Enum(NativeFormat::Ini));
    assert_eq!(by_file_extension("x.ron").unwrap(), FormatWrapper::Enum(NativeFormat::Ron));
    assert_eq!(by_file_extension("x.hcl").unwrap(), FormatWrapper::Hcl);
    assert_eq!(by_file_extension("x.ason").unwrap(), FormatWrapper::Ason);
}

#[test]
fn extension_is_taken_after_the_last_dot() {
    assert_eq!(by_file_extension("archive.tar.json").unwrap(), FormatWrapper::Enum(NativeFormat::Json));
    match by_file_extension("settings.TOML") {
        Err(FormatError::UnsupportedFormat(ext)) => assert_eq!(ext, "TOML"),
        other => panic!("unexpected {:?}", other),
    }
    assert!(matches!(by_file_extension(".hjson"), Err(FormatError::NoExtensionFound)));
}

#[test]
fn unsupported_extension_is_reported_with_its_text() {
    match format_for_extension(String::from("xml")) {
        Err(FormatError::UnsupportedFormat(ext)) => assert_eq!(ext, "xml"),
        other => panic!("unexpected {:?}", other),
    }
    assert_eq!(format_for_extension(String::from("hjson")).unwrap(), FormatWrapper::Hjson);
}

#[test]
fn format_error_messages() {
    assert_eq!(FormatError::NoExtensionFound.message(), "No file extension found");
    assert_eq!(
        FormatError::UnsupportedFormat(String::from("xml")).message(),
        "Unsupported file format: xml"
    );
}

#[test]
fn extension_lists_are_fixed() {
    assert_eq!(Ason.file_extensions(), vec!["ason"]);
    assert_eq!(Hcl.file_extensions(), vec!["hcl"]);
    assert_eq!(Hjson.file_extensions(), vec!["hjson"]);
    assert_eq!(Properties.file_extensions(), vec!["properties"]);
    assert_eq!(YamlNg.file_extensions(), vec!["yaml", "yml", "yaml_ng"]);
    assert_eq!(FormatWrapper::Enum(NativeFormat::Yaml).file_extensions(), vec!["yaml", "yml"]);
    assert_eq!(FormatWrapper::Enum(NativeFormat::Toml).file_extensions(), vec!["toml"]);
    assert_eq!(FormatWrapper::Enum(NativeFormat::Json5).file_extensions(), vec!["json5"]);
    assert_eq!(FormatWrapper::Hjson.file_extensions(), vec!["hjson"]);
}

#[test]
fn extension_lists_are_lower_case_and_distinct() {
    let lists = vec![
        Ason.file_extensions(),
        Hcl.file_extensions(),
        Hjson.file_extensions(),
        Properties.file_extensions(),
        YamlNg.file_extensions(),
    ];
    for list in lists {
        assert!(!list.is_empty());
        for (i, a) in list.iter().enumerate() {
            assert_eq!(a.to_lowercase(), *a);
            for b in &list[i + 1..] {
                assert_ne!(a, b);
            }
        }
    }
}

#[test]
fn round_trip_of_a_mapping() {
    let table = parse_decoded(Some(&origin()), Ok(sample())).unwrap();
    assert_eq!(table.len(), 2);
    assert_eq!(table[0].0, "a");
    assert!(matches!(table[0].1.kind, NodeKind::I64(1)));
    assert_eq!(table[1].0, "b");
    match &table[1].1.kind {
        NodeKind::Array(items) => {
            assert_eq!(items.len(), 3);
            assert!(matches!(items[0].kind, NodeKind::Boolean(true)));
            assert!(matches!(items[1].kind, NodeKind::Nil));
            match &items[2].kind {
                NodeKind::String(s) => assert_eq!(s, "x"),
                other => panic!("unexpected {:?}", other),
            }
        }
        other => panic!("unexpected {:?}", other),
    }
}

#[test]
fn round_trip_of_decoded_text() {
    let decoded = serde_hjson::from_str::<serde_hjson::Value>(r#"{"a": 1, "b": [true, null, "x"]}"#)
        .unwrap();
    let mut table = Hjson.parse(Some(&origin()), Ok(from_hjson(decoded))).unwrap();
    table.sort_by(|x, y| x.0.cmp(&y.0));
    let keys: Vec<&str> = table.iter().map(|(k, _)| k.as_str()).collect();
    assert_eq!(keys, vec!["a", "b"]);
    assert!(matches!(table[0].1.kind, NodeKind::I64(1)));
    match &table[1].1.kind {
        NodeKind::Array(items) => {
            assert_eq!(items.len(), 3);
            assert!(matches!(items[0].kind, NodeKind::Boolean(true)));
            assert!(matches!(items[1].kind, NodeKind::Nil));
            assert!(matches!(&items[2].kind, NodeKind::String(s) if s == "x"));
            assert!(items.iter().all(|i| i.origin.as_deref() == Some("settings.hjson")));
        }
        other => panic!("unexpected {:?}", other),
    }
}

#[test]
fn normalizing_keeps_shape() {
    let node = from_value(None, sample());
    match &node.kind {
        NodeKind::Table(entries) => {
            let keys: Vec<&str> = entries.iter().map(|(k, _)| k.as_str()).collect();
            assert_eq!(keys, vec!["a", "b"]);
            match &entries[1].1.kind {
                NodeKind::Array(items) => assert_eq!(items.len(), 3),
                other => panic!("unexpected {:?}", other),
            }
        }
        other => panic!("unexpected {:?}", other),
    }
    let empty = from_value(None, Val::Array(vec![]));
    assert!(matches!(&empty.kind, NodeKind::Array(items) if items.is_empty()));
}

#[test]
fn normalizing_keeps_leaves() {
    let bits = 1.5f64.to_bits();
    assert!(matches!(from_value(None, Val::Float(bits)).kind, NodeKind::Float(b) if b == bits));
    let nan = f64::NAN.to_bits();
    assert!(matches!(from_value(None, Val::Float(nan)).kind, NodeKind::Float(b) if b == nan));
    assert!(matches!(from_value(None, Val::Integer(i64::MIN)).kind, NodeKind::I64(i64::MIN)));
    assert!(matches!(from_value(None, Val::Boolean(false)).kind, NodeKind::Boolean(false)));
}

#[test]
fn every_node_carries_the_origin() {
    let o = origin();
    let node = from_value(Some(&o), sample());
    assert!(all_tagged(&node, Some("settings.hjson")));
    let node = from_value(None, sample());
    assert!(all_tagged(&node, None));
}

#[test]
fn non_mapping_roots_are_refused() {
    assert!(matches!(
        parse_decoded(None, Ok(Val::Boolean(true))),
        Err(ParseError::Unexpected(Unexpected::Bool(true)))
    ));
    assert!(matches!(
        parse_decoded(None, Ok(Val::Array(vec![Val::Integer(1), Val::Integer(2)]))),
        Err(ParseError::Unexpected(Unexpected::Sequence))
    ));
    assert!(matches!(
        parse_decoded(None, Ok(Val::Null)),
        Err(ParseError::Unexpected(Unexpected::Unit))
    ));
    match parse_decoded(None, Ok(Val::String(String::from("x")))) {
        Err(ParseError::Unexpected(Unexpected::Str(s))) => assert_eq!(s, "x"),
        other => panic!("unexpected {:?}", other),
    }
    assert!(parse_decoded(None, Ok(Val::Object(vec![]))).unwrap().is_empty());
}

#[test]
fn extract_root_table_of_each_shape() {
    let n = |kind| Node { origin: None, kind };
    assert!(matches!(extract_root_table(n(NodeKind::U64(7))), Err(Unexpected::U64(7))));
    assert!(matches!(extract_root_table(n(NodeKind::I128(-3))), Err(Unexpected::I128(-3))));
    assert!(matches!(extract_root_table(n(NodeKind::U128(9))), Err(Unexpected::U128(9))));
    assert!(matches!(extract_root_table(n(NodeKind::Float(0))), Err(Unexpected::Float(0))));
    assert!(extract_root_table(n(NodeKind::Table(vec![]))).unwrap().is_empty());
}

#[test]
fn integer_root_message() {
    match Hjson.parse(None, Ok(Val::Integer(42))) {
        Err(ParseError::Unexpected(u)) => {
            assert_eq!(u.message(""), "unexpected 64-bit integer `42`")
        }
        other => panic!("unexpected {:?}", other),
    }
}

#[test]
fn root_messages_name_the_shape() {
    assert_eq!(Unexpected::Bool(true).message(""), "unexpected boolean `true`");
    assert_eq!(Unexpected::Bool(false).message(""), "unexpected boolean `false`");
    assert_eq!(Unexpected::I64(-42).message(""), "unexpected 64-bit integer `-42`");
    assert_eq!(Unexpected::I64(0).message(""), "unexpected 64-bit integer `0`");
    assert_eq!(
        Unexpected::I64(i64::MIN).message(""),
        "unexpected 64-bit integer `-9223372036854775808`"
    );
    assert_eq!(
        Unexpected::I128(i128::MIN).message(""),
        format!("unexpected 128-bit integer `{}`", i128::MIN)
    );
    assert_eq!(
        Unexpected::U64(u64::MAX).message(""),
        "unexpected 64-bit unsigned integer `18446744073709551615`"
    );
    assert_eq!(
        Unexpected::U128(u128::MAX).message(""),
        format!("unexpected 128-bit unsigned integer `{}`", u128::MAX)
    );
    assert_eq!(Unexpected::Float(0).message("2.5"), "unexpected floating point `2.5`");
    assert_eq!(Unexpected::Str(String::from("x")).message(""), "unexpected string \"x\"");
    assert_eq!(
        Unexpected::Str(String::from("a\"b\n")).message(""),
        "unexpected string \"a\\\"b\\n\""
    );
    assert_eq!(Unexpected::Unit.message(""), "unexpected unit value");
    assert_eq!(Unexpected::Sequence.message(""), "unexpected sequence");
    assert_eq!(string_root_message("\"y\""), "unexpected string \"y\"");
}

#[test]
fn decode_failure_is_passed_on_unchanged() {
    let err = serde_hjson::from_str::<serde_hjson::Value>("{a: \"x").unwrap_err();
    let text = err.to_string();
    match Properties.parse(Some(&origin()), Err(text.clone())) {
        Err(ParseError::Decode(m)) => assert_eq!(m, text),
        other => panic!("unexpected {:?}", other),
    }
    match YamlNg.parse(None, Err(String::from("bad"))) {
        Err(ParseError::Decode(m)) => assert_eq!(m, "bad"),
        other => panic!("unexpected {:?}", other),
    }
}

#[test]
fn every_adapter_reads_a_mapping() {
    assert_eq!(Ason.parse(None, Ok(sample())).unwrap().len(), 2);
    assert_eq!(Hcl.parse(None, Ok(sample())).unwrap().len(), 2);
    assert_eq!(Hjson.parse(None, Ok(sample())).unwrap().len(), 2);
    assert_eq!(Properties.parse(None, Ok(sample())).unwrap().len(), 2);
    assert_eq!(YamlNg.parse(None, Ok(sample())).unwrap().len(), 2);
}
