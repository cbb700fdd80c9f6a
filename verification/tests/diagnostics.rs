use package_json_parser::{
    parse_syntax, validation_error, ByteRange, Diagnostic, LabeledSpan, PackageJsonParser, Report,
    Severity, Validator, Version,
};

fn report(text: &str) -> Report {
    PackageJsonParser::parse_str(text).unwrap().validate().unwrap_err()
}

/// The code, the message and the label of the report for `text`, with the
/// piece of `text` that the label points at.
fn told(text: &str) -> (Option<String>, String, Option<(String, String)>) {
    let report = report(text);
    assert_eq!(report.diagnostic.severity, Severity::Error);
    assert_eq!(report.source, Some(text.to_string()));
    let label = report
        .diagnostic
        .label
        .map(|l| (l.label, text[l.range.start..l.range.end].to_string()));
    (report.diagnostic.code, report.diagnostic.message, label)
}

fn some(code: &str, message: &str, label: &str, piece: &str) -> (Option<String>, String, Option<(String, String)>) {
    (Some(code.to_string()), message.to_string(), Some((label.to_string(), piece.to_string())))
}

#[test]
fn a_diagnostic_is_built_from_its_parts() {
    let range = ByteRange { start: 3, end: 9 };
    assert_eq!(
        validation_error("m", Some("c"), "h", Some(range), "l"),
        Diagnostic {
            message: "m".to_string(),
            code: Some("c".to_string()),
            help: "h".to_string(),
            severity: Severity::Error,
            label: Some(LabeledSpan { label: "l".to_string(), range }),
        }
    );
    assert_eq!(
        validation_error("m", None, "h", None, "l"),
        Diagnostic {
            message: "m".to_string(),
            code: None,
            help: "h".to_string(),
            severity: Severity::Error,
            label: None,
        }
    );
}

#[test]
fn an_invalid_license_is_reported_at_its_literal() {
    let text = r#"{"license": "MIT1"}"#;
    assert_eq!(
        report(text),
        Report {
            diagnostic: Diagnostic {
                message: "Invalid license".to_string(),
                code: Some("invalid_license".to_string()),
                help: "Please provide a valid license".to_string(),
                severity: Severity::Error,
                label: Some(LabeledSpan {
                    label: "here".to_string(),
                    range: ByteRange { start: 12, end: 18 }
                }),
            },
            source: Some(text.to_string()),
            path: None,
        }
    );
    let manifest = PackageJsonParser::parse("p.json", text).unwrap();
    assert_eq!(manifest.validate().unwrap_err().path, Some("p.json".to_string()));
}

#[test]
fn each_string_rule_has_its_code() {
    assert_eq!(
        told(r#"{"name": "teYst"}"#),
        some("invalid_package_name", "Package name does not match required pattern", "here", "\"teYst\"")
    );
    assert_eq!(
        told(r#"{"version": "xxx"}"#),
        some("invalid_version", "Package version does not match required pattern", "here", "\"xxx\"")
    );
    assert_eq!(
        told(r#"{"packageManager": "npm@9"}"#),
        some("invalid_package_manager", "Invalid package manager", "here", "\"npm@9\"")
    );
    assert_eq!(
        told(r#"{"packageManager": "cargo@1.0.0"}"#),
        some("invalid_package_manager", "Invalid package manager", "here", "\"cargo@1.0.0\"")
    );
    assert_eq!(told(r#"{"type": "invalid"}"#), some("invalid_type", "Invalid type", "here", "\"invalid\""));
    let help = report(r#"{"version": "xxx"}"#).diagnostic.help;
    assert!(help.starts_with(r"Expected pattern: ^(0|[1-9]\d*)\."));
    let help = report(r#"{"name": "A"}"#).diagnostic.help;
    assert!(help.starts_with(r"Expected pattern: ^(?:(?:@"));
}

#[test]
fn bugs_name_the_member_that_is_wrong() {
    assert_eq!(
        told(r#"{"bugs": "invalid"}"#),
        some("invalid_url_or_email", "Invalid URL or email", "Invalid URL or email", "\"invalid\"")
    );
    assert_eq!(
        told(r#"{"bugs": {"email": "bad", "url": "worse"}}"#),
        some("invalid_url", "Invalid URL", "Invalid URL", "\"worse\"")
    );
    assert_eq!(
        told(r#"{"bugs": {"email": "bad", "url": "https://example.com"}}"#),
        some("invalid_email", "Invalid Email", "Invalid Email", "\"bad\"")
    );
}

#[test]
fn a_person_is_held_to_name_then_email_then_url() {
    assert_eq!(told(r#"{"author": ""}"#), some("invalid_name", "Invalid name", "Invalid name", "\"\""));
    assert_eq!(
        told(r#"{"author": {"url": "u", "email": "e", "name": ""}}"#),
        some("invalid_name", "Invalid name", "Invalid name", "\"\"")
    );
    assert_eq!(
        told(r#"{"author": {"url": "u", "email": "e", "name": "n"}}"#),
        some("invalid_email", "Invalid email", "Invalid email", "\"e\"")
    );
    assert_eq!(
        told(r#"{"author": {"url": "u", "email": "e@f.gh", "name": "n"}}"#),
        some("invalid_url", "Invalid URL", "Invalid URL", "\"u\"")
    );
}

#[test]
fn people_in_a_list_are_each_held_to_the_rules() {
    assert_eq!(
        told(r#"{"contributors": ["a", {"name": "b", "email": "bad"}, ""]}"#),
        some("invalid_email", "Invalid email", "Invalid email", "\"bad\"")
    );
    assert_eq!(
        told(r#"{"maintainers": ["a", "", {"name": ""}]}"#),
        some("invalid_name", "Invalid name", "Invalid name", "\"\"")
    );
    let text = r#"{"maintainers": ["a", "", {"name": ""}]}"#;
    let range = report(text).diagnostic.label.unwrap().range;
    assert_eq!(range, ByteRange { start: 22, end: 24 });
}

#[test]
fn publish_config_is_held_to_its_rules_in_order() {
    let none = |message: &str, piece: &str| {
        (None, message.to_string(), Some((message.to_string(), piece.to_string())))
    };
    assert_eq!(
        told(r#"{"publishConfig": {"tag": "a b", "registry": "r", "access": "open"}}"#),
        none("Invalid access", "\"open\"")
    );
    assert_eq!(
        told(r#"{"publishConfig": {"tag": "a b", "registry": "r", "access": "public"}}"#),
        none("Invalid registry", "\"r\"")
    );
    assert_eq!(
        told(r#"{"publishConfig": {"tag": "a b", "provenance": false}}"#),
        none("Invalid tag", "\"a b\"")
    );
    assert_eq!(
        told(r#"{"publishConfig": {"tag": "ab", "provenance": false}}"#),
        none("Invalid provenance", "false")
    );
    assert_eq!(
        report(r#"{"publishConfig": {"access": "x"}}"#).diagnostic.help,
        "Please provide a valid access"
    );
}

#[test]
fn a_repository_is_held_to_its_address() {
    assert_eq!(
        told(r#"{"repository": "git@github.com:a/b.git"}"#),
        some("invalid_url", "Invalid url", "Invalid url", "\"git@github.com:a/b.git\"")
    );
    assert_eq!(
        told(r#"{"repository": {"type": "git", "url": "x"}}"#),
        some("invalid_url", "Invalid url", "Invalid url", "\"x\"")
    );
}

#[test]
fn the_first_field_in_order_that_breaks_a_rule_is_reported() {
    assert_eq!(
        told(r#"{"license": "x", "version": "y", "type": "z"}"#).0,
        Some("invalid_version".to_string())
    );
    assert_eq!(
        told(r#"{"type": "z", "packageManager": "p", "license": "x"}"#).0,
        Some("invalid_license".to_string())
    );
    assert_eq!(
        told(r#"{"repository": "r", "publishConfig": {"access": "a"}}"#).1,
        "Invalid access"
    );
}

#[test]
fn without_a_syntax_tree_a_diagnostic_has_no_label() {
    let version = Version("x".to_string());
    let diagnostic = version.validate(None).unwrap_err();
    assert_eq!(diagnostic.label, None);
    assert_eq!(diagnostic.code, Some("invalid_version".to_string()));
    let manifest = PackageJsonParser::parse_str(r#"{"version": "x"}"#).unwrap();
    let report = manifest.validate_with(None).unwrap_err();
    assert_eq!(report.diagnostic.label, None);
    let mut detached = manifest.clone();
    detached.__raw_source = None;
    let report = detached.validate().unwrap_err();
    assert_eq!(report.diagnostic.label, None);
    assert_eq!(report.source, None);
}

#[test]
fn a_label_follows_the_tree_that_is_given() {
    let manifest = PackageJsonParser::parse_str(r#"{"version": "x"}"#).unwrap();
    let other = parse_syntax(r#"{"a": 1,    "version": "x"}"#).unwrap();
    let report = manifest.validate_with(Some(&other)).unwrap_err();
    assert_eq!(report.diagnostic.label.unwrap().range, ByteRange { start: 23, end: 26 });
    let number = parse_syntax(r#"{"version": 1}"#).unwrap();
    let report = manifest.validate_with(Some(&number)).unwrap_err();
    assert_eq!(report.diagnostic.label, None);
}

#[test]
fn every_field_that_breaks_a_rule_can_be_gathered() {
    let text = r#"{"type": "z", "packageManager": "p", "license": "x", "name": "ok", "bugs": "b"}"#;
    let manifest = PackageJsonParser::parse_str(text).unwrap();
    let all = manifest.validate_all();
    let codes: Vec<Option<String>> = all.iter().map(|d| d.code.clone()).collect();
    assert_eq!(
        codes,
        vec![
            Some("invalid_url_or_email".to_string()),
            Some("invalid_license".to_string()),
            Some("invalid_type".to_string()),
            Some("invalid_package_manager".to_string()),
        ]
    );
    assert_eq!(manifest.validate().unwrap_err().diagnostic, all[0]);
    for diagnostic in &all {
        let range = diagnostic.label.as_ref().unwrap().range;
        assert!(text[range.start..range.end].starts_with('"'));
    }
    assert!(manifest.validate_all_with(None).iter().all(|d| d.label.is_none()));
    assert_eq!(manifest.validate_all_with(None).len(), 4);
    let sound = PackageJsonParser::parse_str(r#"{"name": "ok"}"#).unwrap();
    assert_eq!(sound.validate_all(), vec![]);
}
