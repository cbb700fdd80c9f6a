use package_json_parser::{
    parse_syntax, parse_value, value_range, ByteRange, Codec, DecodeError, ErrorKind, Fault, Field,
    Flaw, JsonSyntaxError, JsonValue, LabeledSpan, Member, PackageJsonParser, ParseFault,
    PublishConfig, Readme,
};

fn decode_error(text: &str) -> DecodeError {
    match PackageJsonParser::parse_str(text) {
        Err(ErrorKind::JsonStrParseError(error)) => match error.source {
            Some(ParseFault::Decode(error)) => error,
            other => panic!("{other:?}"),
        },
        other => panic!("{other:?}"),
    }
}

fn wrong(field: Field) -> DecodeError {
    DecodeError::Field { field, flaw: Flaw { item: None, member: None, fault: Fault::WrongType } }
}

#[test]
fn strict_parser_builds_the_value_tree() {
    let value = parse_value(r#"{"b": [true, null, "x", 1.5], "a": {"n": -2}}"#).unwrap();
    assert_eq!(
        value,
        JsonValue::Object(vec![
            (
                "a".to_string(),
                JsonValue::Object(vec![("n".to_string(), JsonValue::Number("-2".to_string()))])
            ),
            (
                "b".to_string(),
                JsonValue::Array(vec![
                    JsonValue::Bool(true),
                    JsonValue::Null,
                    JsonValue::String("x".to_string()),
                    JsonValue::Number("1.5".to_string()),
                ])
            ),
        ])
    );
}

#[test]
fn strict_parser_says_where_a_text_is_no_json() {
    assert_eq!(
        parse_value("{"),
        Err(JsonSyntaxError {
            line: 1,
            column: 1,
            message: "EOF while parsing an object at line 1 column 1".to_string()
        })
    );
    let error = parse_value("{\n  \"a\": 1,\n}").unwrap_err();
    assert_eq!((error.line, error.column), (3, 1));
    assert!(parse_value(r#"{"a": 1} // note"#).is_err());
    assert!(parse_value("").is_err());
}

#[test]
fn syntax_tree_gives_the_range_of_a_literal() {
    let text = r#"{"license": "MIT1"}"#;
    let tree = parse_syntax(text).unwrap();
    let range = value_range(tree.get("license"), &[]).unwrap();
    assert_eq!(range, ByteRange { start: 12, end: 18 });
    assert_eq!(&text[range.start..range.end], r#""MIT1""#);
    assert_eq!(value_range(tree.get("name"), &[]), None);
    assert_eq!(value_range(None, &[]), None);
    assert_eq!(value_range(None, &["license"]), None);
}

#[test]
fn syntax_tree_is_kept_from_a_text_that_is_no_strict_json() {
    assert!(parse_syntax(r#"{"a": 1, } // note"#).is_none());
    assert!(parse_syntax("{").is_none());
    assert!(parse_syntax("").is_none());
}

#[test]
fn a_path_walks_from_member_to_member() {
    let text = r#"{"a": {"b": {"c": true, "d": [1, 2]}, "e": "x"}, "f": 1}"#;
    let tree = parse_syntax(text).unwrap();
    let a = tree.get("a");
    let at = |path: &[&str]| value_range(a, path).map(|r| &text[r.start..r.end]);
    assert_eq!(at(&[]), Some(r#"{"b": {"c": true, "d": [1, 2]}, "e": "x"}"#));
    assert_eq!(at(&["b"]), Some(r#"{"c": true, "d": [1, 2]}"#));
    assert_eq!(at(&["b", "c"]), Some("true"));
    assert_eq!(at(&["b", "d"]), Some("[1, 2]"));
    assert_eq!(at(&["e"]), Some(r#""x""#));
    assert_eq!(at(&["x"]), None);
    assert_eq!(at(&["b", "x"]), None);
    assert_eq!(at(&["e", "x"]), None);
    assert_eq!(at(&["b", "c", "x"]), None);
    assert_eq!(value_range(tree.get("f"), &["a"]), None);
}

#[test]
fn the_first_of_two_members_with_one_name_is_found() {
    let text = r#"{"a": 1, "a": 22}"#;
    let tree = parse_syntax(text).unwrap();
    assert_eq!(value_range(tree.get("a"), &[]), Some(ByteRange { start: 6, end: 7 }));
}

#[test]
fn a_text_that_is_no_json_gives_a_parse_error() {
    match PackageJsonParser::parse_str("{") {
        Err(ErrorKind::JsonStrParseError(error)) => {
            assert_eq!(error.src, "{");
            assert_eq!(error.name, None);
            assert_eq!(error.primary_span, Some(ByteRange { start: 0, end: 1 }));
            assert_eq!(
                error.other_spans,
                vec![LabeledSpan { label: "here".to_string(), range: ByteRange { start: 0, end: 1 } }]
            );
            assert_eq!(error.advice, Some("Please check the JSON syntax".to_string()));
            match error.source {
                Some(ParseFault::Syntax(fault)) => assert_eq!((fault.line, fault.column), (1, 1)),
                other => panic!("{other:?}"),
            }
        }
        other => panic!("{other:?}"),
    }
    for text in ["", "{", "}", "[", "nul", "{\"a\"}", "{\"a\": 1,}", "{'a': 1}", "{} {}", "// c\n{}"] {
        assert!(PackageJsonParser::parse_str(text).is_err(), "{text}");
    }
}

#[test]
fn a_parse_error_points_at_the_line_of_the_fault() {
    let text = "{\n  \"name\": @\n}";
    match PackageJsonParser::parse_str(text) {
        Err(ErrorKind::JsonStrParseError(error)) => {
            assert_eq!(error.primary_span, Some(ByteRange { start: 0, end: 15 }));
            assert_eq!(error.other_spans.len(), 1);
            let range = error.other_spans[0].range;
            assert_eq!(range, ByteRange { start: 2, end: 13 });
            assert_eq!(&text[range.start..range.end], "  \"name\": @");
        }
        other => panic!("{other:?}"),
    }
    let text = "{\r\n  x\r\n}";
    match PackageJsonParser::parse_str(text) {
        Err(ErrorKind::JsonStrParseError(error)) => {
            let range = error.other_spans[0].range;
            assert_eq!(&text[range.start..range.end], "  x");
        }
        other => panic!("{other:?}"),
    }
}

#[test]
fn a_file_keeps_its_path() {
    let manifest = PackageJsonParser::parse("pkg/package.json", r#"{"name": "a"}"#).unwrap();
    assert_eq!(manifest.__raw_path, Some("pkg/package.json".to_string()));
    assert_eq!(manifest.__raw_source, Some(r#"{"name": "a"}"#.to_string()));
    match PackageJsonParser::parse("pkg/package.json", "{") {
        Err(ErrorKind::JsonFileParseError(error)) => {
            assert_eq!(error.name, Some("pkg/package.json".to_string()));
            assert_eq!(error.src, "{");
        }
        other => panic!("{other:?}"),
    }
    let manifest = PackageJsonParser::parse_str(r#"{"name": "a"}"#).unwrap();
    assert_eq!(manifest.__raw_path, None);
}

#[test]
fn a_wrong_type_is_a_decode_error_and_a_wrong_content_is_not() {
    let text = r#"{"private": "true"}"#;
    assert_eq!(decode_error(text), wrong(Field::Private));
    match PackageJsonParser::parse_str(text) {
        Err(ErrorKind::JsonStrParseError(error)) => {
            assert_eq!(
                error.other_spans,
                vec![LabeledSpan {
                    label: "here".to_string(),
                    range: ByteRange { start: 12, end: 18 }
                }]
            );
        }
        other => panic!("{other:?}"),
    }
    let manifest = PackageJsonParser::parse_str(r#"{"type": "invalid"}"#).unwrap();
    let report = manifest.validate().unwrap_err();
    assert_eq!(report.diagnostic.code, Some("invalid_type".to_string()));
}

#[test]
fn every_field_refuses_a_wrong_type() {
    let cases = [
        (r#"{ "name": 1 }"#, Field::Name),
        (r#"{ "version": true }"#, Field::Version),
        (r#"{ "description": 1 }"#, Field::Description),
        (r#"{ "keywords": 1 }"#, Field::Keywords),
        (r#"{ "homepage": 1 }"#, Field::Homepage),
        (r#"{ "bugs": false }"#, Field::Bugs),
        (r#"{ "license": 1 }"#, Field::License),
        (r#"{ "author": 1 }"#, Field::Author),
        (r#"{ "contributors": 1 }"#, Field::Contributors),
        (r#"{ "maintainers": 1 }"#, Field::Maintainers),
        (r#"{ "files": 1 }"#, Field::Files),
        (r#"{ "main": 1 }"#, Field::Main),
        (r#"{ "type": 1 }"#, Field::Type),
        (r#"{ "types": 1 }"#, Field::Types),
        (r#"{ "typings": 1 }"#, Field::Typings),
        (r#"{ "packageManager": 1 }"#, Field::PackageManager),
        (r#"{ "publishConfig": "invalid" }"#, Field::PublishConfig),
        (r#"{ "bin": 1 }"#, Field::Bin),
        (r#"{ "man": 1 }"#, Field::Man),
        (r#"{ "directories": 1 }"#, Field::Directories),
        (r#"{ "repository": 1 }"#, Field::Repository),
        (r#"{ "module": 1 }"#, Field::Module),
        (r#"{ "readme": 1 }"#, Field::Readme),
        (r#"{ "private": "true" }"#, Field::Private),
        (r#"{ "engines": 1 }"#, Field::Engines),
        (r#"{ "engineStrict": "true" }"#, Field::EngineStrict),
        (r#"{ "os": 1 }"#, Field::Os),
        (r#"{ "cpu": 1 }"#, Field::Cpu),
        (r#"{ "scripts": 1 }"#, Field::Scripts),
        (r#"{ "dependencies": 1 }"#, Field::Dependencies),
        (r#"{ "devDependencies": 1 }"#, Field::DevDependencies),
        (r#"{ "optionalDependencies": 1 }"#, Field::OptionalDependencies),
        (r#"{ "peerDependencies": 1 }"#, Field::PeerDependencies),
        (r#"{ "name": null }"#, Field::Name),
    ];
    for (text, field) in cases {
        assert_eq!(decode_error(text), wrong(field), "{text}");
    }
}

#[test]
fn a_flaw_says_where_inside_the_value_it_lies() {
    let at = |field, item, member, fault| DecodeError::Field { field, flaw: Flaw { item, member, fault } };
    assert_eq!(
        decode_error(r#"{ "publishConfig": { "provenance": "true" } }"#),
        at(Field::PublishConfig, None, Some(Member::Provenance), Fault::WrongType)
    );
    assert_eq!(
        decode_error(r#"{ "readme": { "type": 1, "value": "x" } }"#),
        at(Field::Readme, None, Some(Member::Type), Fault::WrongType)
    );
    assert_eq!(
        decode_error(r#"{ "readme": { "type": "x" } }"#),
        at(Field::Readme, None, Some(Member::Value), Fault::Missing)
    );
    assert_eq!(
        decode_error(r#"{ "author": { "email": "a@b.cd" } }"#),
        at(Field::Author, None, Some(Member::Name), Fault::Missing)
    );
    assert_eq!(
        decode_error(r#"{ "files": ["a", "b", 3, 4] }"#),
        at(Field::Files, Some(2), None, Fault::WrongType)
    );
    assert_eq!(
        decode_error(r#"{ "contributors": ["a", { "name": "b", "url": 1 }] }"#),
        at(Field::Contributors, Some(1), Some(Member::Url), Fault::WrongType)
    );
    assert_eq!(
        decode_error(r#"{ "dependencies": { "a": "1", "b": 2 } }"#),
        at(Field::Dependencies, Some(1), None, Fault::WrongType)
    );
    assert_eq!(
        decode_error(r#"{ "bugs": { "url": [] } }"#),
        at(Field::Bugs, None, Some(Member::Url), Fault::WrongType)
    );
    assert_eq!(decode_error("[]"), DecodeError::NotAnObject);
    assert_eq!(decode_error("\"x\""), DecodeError::NotAnObject);
    assert_eq!(decode_error("null"), DecodeError::NotAnObject);
}

#[test]
fn the_first_field_in_order_that_does_not_decode_is_reported() {
    assert_eq!(decode_error(r#"{ "version": 1, "name": 2 }"#), wrong(Field::Name));
    assert_eq!(decode_error(r#"{ "cpu": 1, "os": 2, "name": "a" }"#), wrong(Field::Os));
}

#[test]
fn a_key_that_stands_twice_in_an_object_is_a_decode_error() {
    let text = |s: &str| JsonValue::String(s.to_string());
    let twice = JsonValue::Object(vec![
        ("name".to_string(), text("a")),
        ("version".to_string(), text("1.0.0")),
        ("name".to_string(), text("b")),
    ]);
    assert_eq!(
        PackageJsonParser::decode(&twice),
        Err(DecodeError::Field {
            field: Field::Name,
            flaw: Flaw { item: None, member: None, fault: Fault::Repeated }
        })
    );
    let config = JsonValue::Object(vec![
        ("tag".to_string(), text("a")),
        ("tag".to_string(), text("b")),
    ]);
    assert_eq!(
        PublishConfig::decode(&config),
        Err(Flaw { item: None, member: Some(Member::Tag), fault: Fault::Repeated })
    );
    let map = JsonValue::Object(vec![
        ("a".to_string(), text("1")),
        ("b".to_string(), text("2")),
        ("a".to_string(), text("3")),
    ]);
    assert_eq!(
        package_json_parser::Scripts::decode(&map),
        Err(Flaw { item: Some(2), member: None, fault: Fault::Repeated })
    );
    let unknown = JsonValue::Object(vec![
        ("x".to_string(), text("1")),
        ("x".to_string(), text("2")),
        ("type".to_string(), text("t")),
        ("value".to_string(), text("v")),
    ]);
    assert!(Readme::decode(&unknown).is_ok());
}

#[test]
fn a_member_that_is_null_is_a_member_that_is_not_there() {
    let manifest = PackageJsonParser::parse_str(r#"{"bugs": {"url": null, "email": "a@b.cd"}}"#).unwrap();
    assert_eq!(
        manifest.bugs,
        Some(package_json_parser::Bugs::BugsItem(package_json_parser::BugsItem {
            url: None,
            email: Some("a@b.cd".to_string())
        }))
    );
    assert!(PackageJsonParser::parse_str(r#"{"readme": {"type": null, "value": "x"}}"#).is_err());
}

#[test]
fn keys_that_the_library_does_not_know_are_passed_over() {
    let manifest = PackageJsonParser::parse_str(
        r#"{"funding": 1, "name": "a", "exports": {"x": [null]}, "bugs": {"url": "https://a.bc", "more": 1}}"#,
    )
    .unwrap();
    assert_eq!(manifest.name, Some(package_json_parser::Name("a".to_string())));
    assert!(manifest.validate().is_ok());
    assert!(PackageJsonParser::parse_str("{}").unwrap().validate().is_ok());
}

#[test]
fn a_key_that_stands_twice_in_the_text_is_a_decode_error() {
    let repeated = |field| DecodeError::Field {
        field,
        flaw: Flaw { item: None, member: None, fault: Fault::Repeated },
    };
    assert_eq!(decode_error(r#"{"name": "a", "name": "b"}"#), repeated(Field::Name));
    assert_eq!(
        decode_error(r#"{"version": "1.0.0", "bugs": {"url": "https://a.bc", "url": "https://d.ef"}}"#),
        repeated(Field::Bugs)
    );
    assert_eq!(
        decode_error(r#"{"dependencies": {"a": "1", "b": "2", "a": "3"}}"#),
        repeated(Field::Dependencies)
    );
    assert_eq!(
        decode_error(r#"{"contributors": ["a", {"name": "b", "name": "c"}]}"#),
        repeated(Field::Contributors)
    );
    assert_eq!(
        decode_error(r#"{"scripts": {"x": "1"}, "os": [], "scripts": {"y": "2"}, "os": []}"#),
        repeated(Field::Os)
    );
    match PackageJsonParser::parse_str(r#"{"name": "a", "name": "bc"}"#) {
        Err(ErrorKind::JsonStrParseError(error)) => {
            assert_eq!(error.other_spans[0].range, ByteRange { start: 9, end: 12 });
        }
        other => panic!("{other:?}"),
    }
    assert!(PackageJsonParser::parse_str(r#"{"x": 1, "x": {"y": 1, "y": 2}, "name": "a"}"#).is_ok());
}

#[test]
fn a_tree_tells_whether_a_key_stands_twice() {
    let twice = |text: &str| parse_syntax(text).unwrap().has_repeated_key();
    assert!(!twice(r#"{"a": 1, "b": {"a": 1}, "c": [{"a": 1}, {"a": 2}]}"#));
    assert!(twice(r#"{"a": 1, "b": 2, "a": 3}"#));
    assert!(twice(r#"{"a": 1, "b": {"c": 1, "c": 1}}"#));
    assert!(twice(r#"[1, [2, {"k": {"x": 1, "y": 2, "x": 3}}]]"#));
    assert!(!twice(r#""a""#));
    let tree = parse_syntax(r#"{"a": {"x": 1, "x": 2}, "b": 1, "b": 2, "c": {"x": 1}}"#).unwrap();
    assert!(tree.has_repeated_at("a"));
    assert!(tree.has_repeated_at("b"));
    assert!(!tree.has_repeated_at("c"));
    assert!(!tree.has_repeated_at("d"));
}
