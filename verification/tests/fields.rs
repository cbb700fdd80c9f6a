use package_json_parser::{
    parse_value, Bugs, BugsItem, Codec, Directories, PackageJsonParser, Person, PersonObject,
    Validator, Version,
};

fn validates(json: &str) -> bool {
    PackageJsonParser::parse_str(json).unwrap().validate().is_ok()
}

#[test]
fn bugs_should_pass_validate_bugs_item() {
    let bugs_item = BugsItem {
        url: Some("https://example.com".to_string()),
        email: Some("test@example.com".to_string()),
    };
    assert!(bugs_item.validate_at(None).is_ok());

    let jsones = [
        r#"
      {
        "bugs": {
          "url": "https://example.com",
          "email": "test@example.com"
        }
      }"#,
        r#"
      {
        "bugs": "https://example.com"
      }"#,
        r#"
      {
        "bugs": "test@example.com"
      }"#,
    ];
    for json in jsones {
        let res = PackageJsonParser::parse_str(json).unwrap();
        let res = res.validate();
        assert!(res.is_ok());
    }
}

#[test]
fn should_fail_when_item_url_is_invalid() {
    let bugs_item = BugsItem {
        url: Some("invalid".to_string()),
        email: Some("test@example.com".to_string()),
    };
    assert!(bugs_item.validate_at(None).is_err());
}

#[test]
fn should_fail_when_item_email_is_invalid() {
    let bugs_item = BugsItem {
        url: Some("https://example.com".to_string()),
        email: Some("invalid".to_string()),
    };
    assert!(bugs_item.validate_at(None).is_err());
}

#[test]
fn should_pass_validate_bugs() {
    let bugs = Bugs::BugsItem(BugsItem {
        url: Some("https://example.com".to_string()),
        email: Some("test@example.com".to_string()),
    });
    assert!(bugs.validate(None).is_ok());
}

#[test]
fn should_fail_when_url_is_invalid1() {
    let bugs = Bugs::UrlOrEmail("invalid".to_string());
    let res = bugs.validate(None);
    println!("{:?}", res);
    assert!(res.is_err());
}

#[test]
fn should_fail_when_email_is_invalid() {
    let bugs = Bugs::UrlOrEmail("invalid".to_string());
    let res = bugs.validate(None);
    assert!(res.is_err());
}

#[test]
fn should_pass_validate_bugs_item_when_url_is_none() {
    let bugs = Bugs::UrlOrEmail("https://example.com".to_string());
    assert!(bugs.validate(None).is_ok());
}

#[test]
fn should_pass_validate_bugs_item_when_email_is_none() {
    let bugs = Bugs::UrlOrEmail("test@example.com".to_string());
    assert!(bugs.validate(None).is_ok());
}

#[test]
fn should_fail_validate_bugs_item() {
    let jsones = [
        r#"{"bugs": {"url": "invalid", "email": "test@example.com"}}"#,
        r#"{"bugs": {"url": "https://example.com", "email": "invalid"}}"#,
        r#"{"bugs": {"url": "invalid", "email": "invalid"}}"#,
    ];

    for json in jsones {
        let res = PackageJsonParser::parse_str(json).unwrap();
        let res = res.validate();
        assert!(res.is_err());
    }
}

#[test]
fn should_pass_validate_license() {
    let jsones = [
        r#"{"license": "MIT"}"#,
        r#"{"license": "Apache-2.0"}"#,
        r#"{"license": "BSD-2-Clause"}"#,
        r#"{"license": "BSD-3-Clause"}"#,
    ];

    for json in jsones {
        assert!(validates(json));
    }
}

#[test]
fn should_pass_validate_name_with_regex() {
    let jsones = [r#"{"name": "test"}"#];

    for json in jsones {
        assert!(validates(json));
    }
}

#[test]
fn should_fail_validate_name_with_regex() {
    let jsones = [r#"{"name": "tesSSSt"}"#];

    for json in jsones {
        assert!(!validates(json));
    }
}

#[test]
fn should_pass_validate_package_manager() {
    let jsones = [
        r#"{"packageManager": "npm@1.0.0"}"#,
        r#"{"packageManager": "pnpm@1.0.0"}"#,
        r#"{"packageManager": "yarn@1.0.0"}"#,
        r#"{"packageManager": "bun@1.0.0"}"#,
    ];

    for json in jsones {
        assert!(validates(json));
    }
}

#[test]
fn should_fail_validate_package_manager() {
    let jsones = [r#"{"packageManager": "invalid"}"#];

    for json in jsones {
        assert!(!validates(json));
    }
}

#[test]
fn person_should_pass_validate_person() {
    let person = Person::String("test".to_string());
    assert!(person.validate(None).is_ok());

    let jsones = [
        r#"{ "author": { "name": "test" } }"#,
        r#"{ "author": { "name": "test", "email": "test@example.com" } }"#,
        r#"{ "author": { "name": "test", "url": "https://example.com" } }"#,
        r#"{ "author": { "name": "test", "email": "test@example.com", "url": "https://example.com" } }"#,
    ];

    for json in jsones {
        assert!(validates(json));
    }
}

#[test]
fn should_fail_validate_person() {
    let jsones = [
        r#"{ "author": { "name": "test", "email": "invalid" } }"#,
        r#"{ "author": { "name": "test", "url": "invalid" } }"#,
        r#"{ "author": { "name": "test", "url": "invalid", "email": "invalid" } }"#,
        r#"{ "author": { "name": "", "url": "invalid", "email": "invalid" } }"#,
        r#"{ "author": "" }"#,
    ];

    for json in jsones {
        assert!(!validates(json));
    }
}

fn parse_private(value: &str) -> Result<PackageJsonParser, package_json_parser::ErrorKind> {
    PackageJsonParser::parse_str(&format!(r#"{{"private":{value}}}"#))
}

#[test]
fn should_deserialize_private_successfully() {
    let parsed = parse_private("true");
    assert!(parsed.is_ok());
}

#[test]
fn should_fail_deserialize_private_when_type_is_invalid() {
    let parsed = parse_private(r#""true""#);
    assert!(parsed.is_err());
}

#[test]
fn should_fail_deserialize_private_when_json_is_invalid() {
    let parsed = PackageJsonParser::parse_str("{");
    assert!(parsed.is_err());
}

#[test]
fn should_pass_validate_publish_config() {
    let jsones = [
        r#"{"publishConfig": {"access": "public", "registry": "https://registry.npmjs.org/"}}"#,
        r#"{"publishConfig": {"access": "restricted", "registry": "https://registry.npmjs.org/"}}"#,
        r#"{"publishConfig": {"access": "private", "registry": "https://registry.npmjs.org/"}}"#,
        r#"{"publishConfig": {"access": "public", "registry": "https://registry.npmjs.org/", "tag": "invalid"}}"#,
    ];

    for json in jsones {
        assert!(validates(json));
    }
}

#[test]
fn should_fail_validate_publish_config() {
    let jsones = [
        r#"{"publishConfig": {"access": "invalid", "registry": "https://registry.npmjs.org/"}}"#,
        r#"{"publishConfig": {"access": "public", "registry": "invalid"}}"#,
        r#"{"publishConfig": {"access": "invalid", "registry": "invalid"}}"#,
    ];

    for json in jsones {
        assert!(!validates(json));
    }
}

#[test]
fn should_pass_validate_repository() {
    let jsones = [
        r#"{"repository": {"type": "git", "url": "https://github.com/rust-lang/rust", "directory": "src"}}"#,
        r#"{"repository": "https://github.com/rust-lang/rust"}"#,
    ];

    for json in jsones {
        assert!(validates(json));
    }
}

#[test]
fn should_fail_validate_repository() {
    let jsones = [
        r#"{"repository": {"type": "git", "url": "invalid", "directory": "src"}}"#,
        r#"{"repository": "invalid"}"#,
    ];

    for json in jsones {
        assert!(!validates(json));
    }
}

#[test]
fn should_pass_validate_type() {
    let jsones = [r#"{"type": "commonjs"}"#, r#"{"type": "module"}"#];

    for json in jsones {
        assert!(validates(json));
    }
}

#[test]
fn should_fail_validate_type() {
    let jsones = [r#"{"type": "invalid"}"#];

    for json in jsones {
        assert!(!validates(json));
    }
}

#[test]
fn version_should_pass_validate_version() {
    let version = Version("1.0.0".to_string());
    assert!(version.validate(None).is_ok());

    let jsones = [
        r#"{"version": "1.0.0"}"#,
        r#"{"version": "1.0.0-alpha.1"}"#,
        r#"{"version": "1.0.0+build.1"}"#,
        r#"{"version": "1.0.0-alpha.1+build.1"}"#,
    ];

    for json in jsones {
        assert!(validates(json));
    }
}

#[test]
fn should_fail_validate_version() {
    let jsones = [r#"{"version": "hello"}"#];

    for json in jsones {
        assert!(!validates(json));
    }
}

#[test]
fn should_pass_validate_directories() {
    let raw = r#"{"bin": "bin", "lib": "lib", "man": "man", "doc": "doc", "example": "example", "test": "test"}"#;
    let directories = Directories::decode(&parse_value(raw).unwrap()).unwrap();
    assert!(directories.validate(None).is_ok());
}

#[test]
fn should_pass_deserialize_directories() {
    let raw = r#"{"bin": "bin", "lib": "lib", "man": "man"}"#;
    let directories = Directories::decode(&parse_value(raw).unwrap()).unwrap();
    assert!(directories.validate(None).is_ok());
}

#[test]
fn test_validate() {
    let jsones = [r#"
      {

        "private": true,
        "bugs": "222https://example.com"
      }"#];
    let j = PackageJsonParser::parse_str(jsones[0]).unwrap();
    let res = j.validate();
    assert!(res.is_err());
}

#[test]
fn should_pass_validate_person_object() {
    let person = Person::Object(PersonObject {
        name: "test".to_string(),
        email: Some("test@example.com".to_string()),
        url: Some("https://example.com".to_string()),
    });
    assert!(person.validate(None).is_ok());
}

#[test]
fn should_fail_when_person_object_email_is_invalid() {
    let person = Person::Object(PersonObject {
        name: "test".to_string(),
        email: Some("invalid".to_string()),
        url: None,
    });
    let res = person.validate(None);
    assert!(res.is_err());
}

#[test]
fn should_fail_when_person_object_url_is_invalid() {
    let person = Person::Object(PersonObject {
        name: "test".to_string(),
        email: None,
        url: Some("invalid".to_string()),
    });
    assert!(person.validate(None).is_err());
}

#[test]
fn should_pass_validate_version_with_prerelease() {
    let version = Version("1.0.0-alpha.1".to_string());
    assert!(version.validate(None).is_ok());
}

#[test]
fn should_pass_validate_version_with_build() {
    let version = Version("1.0.0+build.1".to_string());
    assert!(version.validate(None).is_ok());
}

#[test]
fn should_pass_validate_version_with_prerelease_and_build() {
    let version = Version("1.0.0-alpha.1+build.1".to_string());
    assert!(version.validate(None).is_ok());
}
