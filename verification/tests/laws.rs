use package_json_parser::manifest::command_name;
use package_json_parser::{
    parse_value, Bin, ErrorKind, JsonValue, PackageJsonParser, StringMap, ValidationError,
    ValidatorUtil,
};

const FULL: &str = r#"{
  "name": "@scope/pkg",
  "version": "1.2.3-rc.1+build.5",
  "description": "a package",
  "keywords": ["a", "b"],
  "homepage": "https://example.com",
  "bugs": {"url": "https://example.com/issues", "email": "bugs@example.com"},
  "license": "MIT",
  "author": {"name": "A", "email": "a@example.com", "url": "https://a.example.com"},
  "contributors": ["B", {"name": "C"}],
  "maintainers": [{"name": "D", "url": "https://d.example.com"}],
  "files": ["dist", "README.md"],
  "main": "index.js",
  "type": "module",
  "types": ["index.d.ts"],
  "typings": "index.d.ts",
  "packageManager": "pnpm@8.6.0",
  "publishConfig": {"access": "public", "registry": "https://registry.npmjs.org", "tag": "next", "provenance": true},
  "bin": {"pkg": "./cli.js", "pkg2": "./cli2.js"},
  "man": ["./man/pkg.1"],
  "directories": {"bin": "bin", "lib": "lib", "man": "man", "doc": "doc", "example": "example", "test": "test"},
  "repository": {"type": "git", "url": "https://github.com/a/b", "directory": "packages/b"},
  "module": "index.mjs",
  "readme": {"type": "text/markdown", "value": "hello"},
  "private": false,
  "engines": {"node": ">=18"},
  "engineStrict": true,
  "os": ["linux"],
  "cpu": ["x64"],
  "scripts": {"build": "tsc", "test": "vitest"},
  "dependencies": {"a": "^1.0.0"},
  "devDependencies": {"b": "~2.0.0"},
  "optionalDependencies": {"c": "*"},
  "peerDependencies": {"d": ">=3"},
  "extra": {"kept": "out"}
}"#;

#[test]
fn a_full_manifest_parses_and_validates() {
    let manifest = PackageJsonParser::parse_str(FULL).unwrap();
    assert!(manifest.name.is_some());
    assert!(manifest.peer_dependencies.is_some());
    assert_eq!(manifest.validate(), Ok(()));
}

#[test]
fn encoding_and_decoding_again_keeps_every_field() {
    let manifest = PackageJsonParser::parse_str(FULL).unwrap();
    let encoded = manifest.encode();
    let again = PackageJsonParser::decode(&encoded).unwrap();
    let mut expected = manifest.clone();
    expected.__raw_source = None;
    assert_eq!(again, expected);
    assert_eq!(again.encode(), encoded);
    match &encoded {
        JsonValue::Object(members) => {
            assert_eq!(members.len(), 33);
            assert_eq!(members[0].0, "name");
            assert_eq!(members[0].1, JsonValue::String("@scope/pkg".to_string()));
            assert_eq!(members[12].0, "type");
            assert_eq!(members[32].0, "peerDependencies");
        }
        other => panic!("{other:?}"),
    }
}

#[test]
fn encoding_leaves_out_what_is_not_there() {
    let manifest = PackageJsonParser::parse_str(r#"{"version": "1.0.0", "bugs": {"email": "a@b.cd"}}"#).unwrap();
    assert_eq!(
        manifest.encode(),
        JsonValue::Object(vec![
            ("version".to_string(), JsonValue::String("1.0.0".to_string())),
            (
                "bugs".to_string(),
                JsonValue::Object(vec![("email".to_string(), JsonValue::String("a@b.cd".to_string()))])
            ),
        ])
    );
    assert_eq!(PackageJsonParser::decode(&parse_value("{}").unwrap()).unwrap().encode(), JsonValue::Object(vec![]));
    let empty = PackageJsonParser::parse_str("{}").unwrap();
    assert_eq!(empty.encode(), JsonValue::Object(vec![]));
}

#[test]
fn validating_twice_gives_the_same() {
    for text in [FULL, r#"{"license": "MIT1"}"#, r#"{"name": "A", "version": "x"}"#, "{}"] {
        let manifest = PackageJsonParser::parse_str(text).unwrap();
        let before = manifest.clone();
        let first = manifest.validate();
        let second = manifest.validate();
        assert_eq!(first, second);
        assert_eq!(manifest, before);
    }
}

#[test]
fn one_command_is_named_after_the_package() {
    let manifest = PackageJsonParser::parse_str(r#"{"name": "@scope/pkg", "bin": "./cli.js"}"#).unwrap();
    let commands = manifest.bin_to_hash_map().unwrap();
    assert_eq!(commands.len(), 1);
    assert_eq!(commands.get("pkg"), Some(&"./cli.js".to_string()));
    assert_eq!(commands.get("@scope/pkg"), None);
}

#[test]
fn one_command_needs_a_name() {
    let manifest = PackageJsonParser::parse_str(r#"{"bin": "./cli.js"}"#).unwrap();
    assert_eq!(manifest.bin_to_hash_map(), Err(ErrorKind::NameRequired));
    assert_eq!(ErrorKind::NameRequired.message(), "name is required");
}

#[test]
fn commands_by_name_are_given_as_they_are() {
    let manifest = PackageJsonParser::parse_str(r#"{"bin": {"a": "./a.js"}}"#).unwrap();
    let commands = manifest.bin_to_hash_map().unwrap();
    assert_eq!(commands.len(), 1);
    assert_eq!(commands.get("a"), Some(&"./a.js".to_string()));
    assert_eq!(manifest.bin, Some(Bin::Object(commands)));
}

#[test]
fn a_command_is_named_by_the_last_segment() {
    assert_eq!(command_name("@scope/pkg"), "pkg");
    assert_eq!(command_name("pkg"), "pkg");
    assert_eq!(command_name("a/b/c"), "c");
    assert_eq!(command_name("a/"), "");
    assert_eq!(command_name(""), "");
    assert_eq!(command_name("é/ü"), "ü");
}

#[test]
fn a_map_keeps_one_value_for_a_key() {
    let map = StringMap::new();
    assert_eq!(map.len(), 0);
    assert_eq!(map.get("a"), None);
    let map = map.with("a".to_string(), "1".to_string()).with("b".to_string(), "2".to_string());
    assert_eq!(map.len(), 2);
    let map = map.with("a".to_string(), "3".to_string());
    assert_eq!(map.len(), 2);
    assert_eq!(map.get("a"), Some(&"3".to_string()));
    assert_eq!(map.get("b"), Some(&"2".to_string()));
    assert_eq!(map.key_at(0), "a");
    assert_eq!(map.value_at(1), "2");
    assert_eq!(map.clone(), map);
}

#[test]
fn single_strings_can_be_checked() {
    assert!(ValidatorUtil::is_url("https://example.com"));
    assert!(!ValidatorUtil::is_url("example.com"));
    assert!(ValidatorUtil::is_email("a@example.com"));
    assert!(!ValidatorUtil::is_email("example.com"));
    assert!(package_json_parser::utils::is_url("https://example.com"));
    assert!(!package_json_parser::utils::is_email("https://example.com"));
    assert_eq!(ValidatorUtil::use_url("https://example.com"), Ok(()));
    assert_eq!(
        ValidatorUtil::use_url("x"),
        Err(ValidationError::Custom("registry must be a valid URL".to_string()))
    );
    assert_eq!(ValidatorUtil::use_email("a@example.com"), Ok(()));
    assert_eq!(
        ValidatorUtil::use_email("x"),
        Err(ValidationError::Custom("email must be a valid email".to_string()))
    );
    assert_eq!(ValidatorUtil::use_url_or_email("a@example.com"), Ok(()));
    assert_eq!(ValidatorUtil::use_url_or_email("https://example.com"), Ok(()));
    assert_eq!(
        ValidatorUtil::use_url_or_email("x"),
        Err(ValidationError::Custom("url or email must be a valid url or email".to_string()))
    );
    assert_eq!(ValidatorUtil::use_option_url(&None), Ok(()));
    assert_eq!(ValidatorUtil::use_option_url(&Some("https://example.com".to_string())), Ok(()));
    assert!(ValidatorUtil::use_option_url(&Some("x".to_string())).is_err());
    assert_eq!(ValidatorUtil::use_option_email(&None), Ok(()));
    assert_eq!(ValidatorUtil::use_option_email(&Some("a@example.com".to_string())), Ok(()));
    assert!(ValidatorUtil::use_option_email(&Some("x".to_string())).is_err());
}

#[test]
fn a_field_value_gives_what_it_holds() {
    let manifest = PackageJsonParser::parse_str(FULL).unwrap();
    let mut name = manifest.name.clone().unwrap();
    assert_eq!(name.len(), 10);
    assert_eq!(name.as_str(), "@scope/pkg");
    assert_eq!(name.split('/').last(), Some("pkg"));
    name.push_str("-more");
    assert_eq!(name.0, "@scope/pkg-more");
    assert!(!*manifest.private.unwrap());
    assert!(*manifest.engine_strict.unwrap());
    let mut files = manifest.files.clone().unwrap();
    assert_eq!(files.len(), 2);
    files.push("LICENSE".to_string());
    assert_eq!(files.0.last(), Some(&"LICENSE".to_string()));
    assert_eq!(manifest.maintainers.as_ref().unwrap().len(), 1);
    assert_eq!(manifest.scripts.as_ref().unwrap().get("build"), Some(&"tsc".to_string()));
    assert_eq!(manifest.dependencies.as_ref().unwrap().len(), 1);
    assert_eq!(manifest.version.as_ref().unwrap().as_str(), "1.2.3-rc.1+build.5");
}
