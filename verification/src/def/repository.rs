//! The `repository` field: where the source of the package is kept.

use crate::ext::codec::{
    fields_model, lemma_record_text, optional_text, optional_text_value, read_optional_text,
    read_text, record_value, text_value, write_optional_text, write_record, write_text,
    wrong_type, Codec, Fault, Flaw, Member,
};
use crate::ext::diagnostic::{error_report, validation_error, Diagnostic, DiagnosticModel};
use crate::ext::range::{
    member_string_range, member_string_range_of, node_of, prop_model, string_range,
    string_range_of, value_of,
};
use crate::ext::validator::Validator;
use crate::grammar::web::{is_url, matches_url};
use crate::json::{lemma_object_view, JsonModel, JsonValue};
use crate::syntax::{ByteRange, ObjectProp, PropModel};
use vstd::prelude::*;

verus! {

/// The object form of `repository`.
#[derive(Clone, Debug, PartialEq, Eq)]
pub struct Repository {
    /// The member `type`: the version control system.
    pub type_: Option<String>,
    pub url: Option<String>,
    pub directory: Option<String>,
}

/// What a `Repository` stands for.
pub struct RepositoryModel {
    pub type_: Option<Seq<char>>,
    pub url: Option<Seq<char>>,
    pub directory: Option<Seq<char>>,
}

impl View for Repository {
    type V = RepositoryModel;

    open spec fn view(&self) -> RepositoryModel {
        RepositoryModel {
            type_: self.type_.deep_view(),
            url: self.url.deep_view(),
            directory: self.directory.deep_view(),
        }
    }
}

impl DeepView for Repository {
    type V = RepositoryModel;

    open spec fn deep_view(&self) -> RepositoryModel {
        self@
    }
}

/// The report of a repository address that is no web address.
pub open spec fn invalid_repository_url(range: Option<ByteRange>) -> DiagnosticModel {
    error_report(
        "Invalid url"@,
        Some("invalid_url"@),
        "Please provide a valid url"@,
        range,
        "Invalid url"@,
    )
}

impl RepositoryModel {
    /// The members of the object that stands for the value.
    pub open spec fn fields(self) -> Seq<(Member, Option<JsonModel>)> {
        seq![
            (Member::Type, optional_text_value(self.type_)),
            (Member::Url, optional_text_value(self.url)),
            (Member::Directory, optional_text_value(self.directory)),
        ]
    }
}

impl Codec for Repository {
    open spec fn decoded(value: JsonModel) -> Result<RepositoryModel, Flaw> {
        match value {
            JsonModel::Object(members) => {
                let type_ = optional_text(members, Member::Type);
                let url = optional_text(members, Member::Url);
                let directory = optional_text(members, Member::Directory);
                if type_ is Err {
                    Err(type_->Err_0)
                } else if url is Err {
                    Err(url->Err_0)
                } else if directory is Err {
                    Err(directory->Err_0)
                } else {
                    Ok(
                        RepositoryModel {
                            type_: type_->Ok_0,
                            url: url->Ok_0,
                            directory: directory->Ok_0,
                        },
                    )
                }
            },
            _ => Err(wrong_type()),
        }
    }

    open spec fn encoded(model: RepositoryModel) -> JsonModel {
        record_value(model.fields())
    }

    fn decode(value: &JsonValue) -> (outcome: Result<Self, Flaw>) {
        let members = match value {
            JsonValue::Object(members) => members,
            _ => {
                return Err(Flaw { item: None, member: None, fault: Fault::WrongType });
            },
        };
        proof {
            lemma_object_view(*members);
        }
        let type_ = read_optional_text(members, Member::Type)?;
        let url = read_optional_text(members, Member::Url)?;
        let directory = read_optional_text(members, Member::Directory)?;
        Ok(Repository { type_, url, directory })
    }

    fn encode(&self) -> (value: JsonValue) {
        let fields = vec![
            (Member::Type, write_optional_text(&self.type_)),
            (Member::Url, write_optional_text(&self.url)),
            (Member::Directory, write_optional_text(&self.directory)),
        ];
        assert(fields_model(fields@) =~= self@.fields());
        write_record(fields)
    }

    proof fn lemma_round_trip(value: JsonModel) {
        let model = Self::decoded(value)->Ok_0;
        lemma_record_text(model.fields(), 0, model.type_);
        lemma_record_text(model.fields(), 1, model.url);
        lemma_record_text(model.fields(), 2, model.directory);
    }
}

impl Validator for Repository {
    /// A `url` that is no web address is reported at the string literal
    /// of the member.
    open spec fn violation(&self, prop: Option<PropModel>) -> Option<DiagnosticModel> {
        if self@.url is Some && !is_url(self@.url->Some_0) {
            Some(invalid_repository_url(member_string_range_of(value_of(prop), "url"@)))
        } else {
            None
        }
    }

    fn validate(&self, prop: Option<&ObjectProp>) -> (outcome: Result<(), Diagnostic>) {
        if let Some(url) = &self.url {
            if !matches_url(url.as_str()) {
                return Err(
                    validation_error(
                        "Invalid url",
                        Some("invalid_url"),
                        "Please provide a valid url",
                        member_string_range(node_of(prop), "url"),
                        "Invalid url",
                    ),
                );
            }
        }
        Ok(())
    }
}

/// The `repository` field: an object, or a web address as a string.
#[derive(Clone, Debug, PartialEq, Eq)]
pub enum RepositoryOrString {
    Repository(Repository),
    String(String),
}

/// What a `RepositoryOrString` stands for.
pub enum RepositoryOrStringModel {
    Repository(RepositoryModel),
    String(Seq<char>),
}

impl View for RepositoryOrString {
    type V = RepositoryOrStringModel;

    open spec fn view(&self) -> RepositoryOrStringModel {
        match self {
            RepositoryOrString::Repository(repository) => RepositoryOrStringModel::Repository(
                repository@,
            ),
            RepositoryOrString::String(url) => RepositoryOrStringModel::String(url@),
        }
    }
}

impl DeepView for RepositoryOrString {
    type V = RepositoryOrStringModel;

    open spec fn deep_view(&self) -> RepositoryOrStringModel {
        self@
    }
}

impl Codec for RepositoryOrString {
    open spec fn decoded(value: JsonModel) -> Result<RepositoryOrStringModel, Flaw> {
        match value {
            JsonModel::String(url) => Ok(RepositoryOrStringModel::String(url)),
            _ => match Repository::decoded(value) {
                Ok(repository) => Ok(RepositoryOrStringModel::Repository(repository)),
                Err(flaw) => Err(flaw),
            },
        }
    }

    open spec fn encoded(model: RepositoryOrStringModel) -> JsonModel {
        match model {
            RepositoryOrStringModel::String(url) => text_value(url),
            RepositoryOrStringModel::Repository(repository) => Repository::encoded(repository),
        }
    }

    fn decode(value: &JsonValue) -> (outcome: Result<Self, Flaw>) {
        match value {
            JsonValue::String(_) => Ok(RepositoryOrString::String(read_text(value)?)),
            _ => Ok(RepositoryOrString::Repository(Repository::decode(value)?)),
        }
    }

    fn encode(&self) -> (value: JsonValue) {
        match self {
            RepositoryOrString::String(url) => write_text(url),
            RepositoryOrString::Repository(repository) => repository.encode(),
        }
    }

    proof fn lemma_round_trip(value: JsonModel) {
        if !(value is String) {
            Repository::lemma_round_trip(value);
        }
    }
}

impl RepositoryOrString {
    /// The first rule that the value breaks: as an object, that of
    /// `Repository`; as a string, that it is no web address, reported at
    /// the string literal.
    pub open spec fn violation(&self, prop: Option<PropModel>) -> Option<DiagnosticModel> {
        match self {
            RepositoryOrString::Repository(repository) => repository.violation(prop),
            RepositoryOrString::String(url) => if is_url(url@) {
                None
            } else {
                Some(invalid_repository_url(string_range_of(value_of(prop))))
            },
        }
    }

    /// Validates the value: reports the first rule that it breaks.
    pub fn validate(&self, repository: Option<&ObjectProp>) -> (outcome: Result<(), Diagnostic>)
        ensures
            self.violation(prop_model(repository)) == match outcome {
                Ok(_) => None,
                Err(diagnostic) => Some(diagnostic@),
            },
    {
        match self {
            RepositoryOrString::Repository(repos) => repos.validate(repository),
            RepositoryOrString::String(url) => {
                if matches_url(url.as_str()) {
                    return Ok(());
                }
                Err(
                    validation_error(
                        "Invalid url",
                        Some("invalid_url"),
                        "Please provide a valid url",
                        string_range(node_of(repository)),
                        "Invalid url",
                    ),
                )
            },
        }
    }
}

} // verus!
