//! Parses and validates `package.json` manifests: decodes the text into
//! the typed values of the fields it knows, holds each to its rules, and
//! reports what breaks one with its place in the text.

pub mod address;
pub mod def;
pub mod err;
pub mod ext;
pub mod field;
pub mod grammar;
pub mod json;
pub mod laws;
pub mod lines;
pub mod manifest;
pub mod parser;
pub mod string_map;
pub mod syntax;
pub mod text;
pub mod utils;
pub mod validator;

pub use def::bugs::{Bugs, BugsItem};
pub use def::entry_fields::{Bin, Directories, Keywords, Main, Readme, ReadmeContent};
pub use def::flag_fields::{EngineStrict, Private};
pub use def::license::License;
pub use def::list_fields::{Cpu, Files, Man, Os, Types};
pub use def::map_fields::{
    Dependencies, DevDependencies, Engines, OptionalDependencies, PeerDependencies, Scripts,
};
pub use def::module_type::Type;
pub use def::name::Name;
pub use def::package_manager::PackageManager;
pub use def::person::{Contributors, Maintainers, Person, PersonObject};
pub use def::publish_config::PublishConfig;
pub use def::repository::{Repository, RepositoryOrString};
pub use def::text_fields::{Description, HomePage, Module, Typings};
pub use def::version::Version;
pub use err::{DecodeError, ErrorKind, JsonParseError, ParseFault, Report};
pub use ext::codec::{Codec, Fault, Flaw, Member};
pub use ext::diagnostic::{validation_error, Diagnostic, LabeledSpan, Severity};
pub use ext::range::value_range;
pub use ext::validator::Validator;
pub use field::Field;
pub use json::{parse_value, JsonSyntaxError, JsonValue};
pub use parser::PackageJsonParser;
pub use string_map::StringMap;
pub use syntax::{parse_syntax, ByteRange, ObjectProp, SyntaxValue};
pub use validator::{ValidationError, ValidatorUtil};
