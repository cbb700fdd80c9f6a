//! The `publishConfig` field: how the package is published.

use crate::address::{check_optional_url, url_in_order};
use crate::ext::codec::{
    fields_model, lemma_record_flag, lemma_record_text, optional_flag, optional_flag_value,
    optional_text, optional_text_value, read_optional_flag, read_optional_text, record_value,
    write_optional_flag, write_optional_text, write_record, wrong_type, Codec, Fault, Flaw, Member,
};
use crate::ext::diagnostic::{error_report, validation_error, Diagnostic, DiagnosticModel};
use crate::ext::range::{
    member_boolean_range, member_boolean_range_of, member_string_range, member_string_range_of,
    node_of, prop_model, value_of,
};
use crate::ext::validator::Validator;
use crate::grammar::words::{is_access, is_tag, matches_access, matches_tag};
use crate::json::{lemma_object_view, JsonModel, JsonValue};
use crate::syntax::{ObjectProp, PropModel, SyntaxModel};
use vstd::prelude::*;

verus! {

/// The `publishConfig` field.
#[derive(Clone, Debug, PartialEq, Eq)]
pub struct PublishConfig {
    pub access: Option<String>,
    pub registry: Option<String>,
    pub tag: Option<String>,
    pub provenance: Option<bool>,
}

/// What a `PublishConfig` stands for.
pub struct PublishConfigModel {
    pub access: Option<Seq<char>>,
    pub registry: Option<Seq<char>>,
    pub tag: Option<Seq<char>>,
    pub provenance: Option<bool>,
}

impl View for PublishConfig {
    type V = PublishConfigModel;

    open spec fn view(&self) -> PublishConfigModel {
        PublishConfigModel {
            access: self.access.deep_view(),
            registry: self.registry.deep_view(),
            tag: self.tag.deep_view(),
            provenance: self.provenance,
        }
    }
}

impl DeepView for PublishConfig {
    type V = PublishConfigModel;

    open spec fn deep_view(&self) -> PublishConfigModel {
        self@
    }
}

impl PublishConfigModel {
    /// The members of the object that stands for the value.
    pub open spec fn fields(self) -> Seq<(Member, Option<JsonModel>)> {
        seq![
            (Member::Access, optional_text_value(self.access)),
            (Member::Registry, optional_text_value(self.registry)),
            (Member::Tag, optional_text_value(self.tag)),
            (Member::Provenance, optional_flag_value(self.provenance)),
        ]
    }
}

impl Codec for PublishConfig {
    open spec fn decoded(value: JsonModel) -> Result<PublishConfigModel, Flaw> {
        match value {
            JsonModel::Object(members) => {
                let access = optional_text(members, Member::Access);
                let registry = optional_text(members, Member::Registry);
                let tag = optional_text(members, Member::Tag);
                let provenance = optional_flag(members, Member::Provenance);
                if access is Err {
                    Err(access->Err_0)
                } else if registry is Err {
                    Err(registry->Err_0)
                } else if tag is Err {
                    Err(tag->Err_0)
                } else if provenance is Err {
                    Err(provenance->Err_0)
                } else {
                    Ok(
                        PublishConfigModel {
                            access: access->Ok_0,
                            registry: registry->Ok_0,
                            tag: tag->Ok_0,
                            provenance: provenance->Ok_0,
                        },
                    )
                }
            },
            _ => Err(wrong_type()),
        }
    }

    open spec fn encoded(model: PublishConfigModel) -> JsonModel {
        record_value(model.fields())
    }

    fn decode(value: &JsonValue) -> (outcome: Result<Self, Flaw>) {
        let members = match value {
            JsonValue::Object(members) => members,
            _ => {
                return Err(Flaw { item: None, member: None, fault: Fault::WrongType });
            },
        };
        proof {
            lemma_object_view(*members);
        }
        let access = read_optional_text(members, Member::Access)?;
        let registry = read_optional_text(members, Member::Registry)?;
        let tag = read_optional_text(members, Member::Tag)?;
        let provenance = read_optional_flag(members, Member::Provenance)?;
        Ok(PublishConfig { access, registry, tag, provenance })
    }

    fn encode(&self) -> (value: JsonValue) {
        let fields = vec![
            (Member::Access, write_optional_text(&self.access)),
            (Member::Registry, write_optional_text(&self.registry)),
            (Member::Tag, write_optional_text(&self.tag)),
            (Member::Provenance, write_optional_flag(&self.provenance)),
        ];
        assert(fields_model(fields@) =~= self@.fields());
        write_record(fields)
    }

    proof fn lemma_round_trip(value: JsonModel) {
        let model = Self::decoded(value)->Ok_0;
        lemma_record_text(model.fields(), 0, model.access);
        lemma_record_text(model.fields(), 1, model.registry);
        lemma_record_text(model.fields(), 2, model.tag);
        lemma_record_flag(model.fields(), 3, model.provenance);
    }
}

impl PublishConfigModel {
    /// The first rule that the value breaks, given whether its `registry`
    /// is in order: an `access` that is no access level, a `registry` that
    /// is not in order, a `tag` that is no tag, a `provenance` that is
    /// `false`. Each is reported, without a code, at the literal of its
    /// member.
    pub open spec fn verdict(self, registry_ok: bool, node: Option<SyntaxModel>) -> Option<
        DiagnosticModel,
    > {
        if self.access is Some && !is_access(self.access->Some_0) {
            Some(
                error_report(
                    "Invalid access"@,
                    None,
                    "Please provide a valid access"@,
                    member_string_range_of(node, "access"@),
                    "Invalid access"@,
                ),
            )
        } else if !registry_ok {
            Some(
                error_report(
                    "Invalid registry"@,
                    None,
                    "Please provide a valid registry"@,
                    member_string_range_of(node, "registry"@),
                    "Invalid registry"@,
                ),
            )
        } else if self.tag is Some && !is_tag(self.tag->Some_0) {
            Some(
                error_report(
                    "Invalid tag"@,
                    None,
                    "Please provide a valid tag"@,
                    member_string_range_of(node, "tag"@),
                    "Invalid tag"@,
                ),
            )
        } else if self.provenance == Some(false) {
            Some(
                error_report(
                    "Invalid provenance"@,
                    None,
                    "Please provide a valid provenance"@,
                    member_boolean_range_of(node, "provenance"@),
                    "Invalid provenance"@,
                ),
            )
        } else {
            None
        }
    }
}

impl PublishConfig {
    /// Reports the first rule that the value breaks, given whether its
    /// `registry` is in order.
    pub fn judge(&self, registry_ok: bool, prop: Option<&ObjectProp>) -> (outcome: Result<
        (),
        Diagnostic,
    >)
        ensures
            self@.verdict(registry_ok, value_of(prop_model(prop))) == match outcome {
                Ok(_) => None,
                Err(diagnostic) => Some(diagnostic@),
            },
    {
        let node = node_of(prop);
        if let Some(access) = &self.access {
            if !matches_access(access.as_str()) {
                return Err(
                    validation_error(
                        "Invalid access",
                        None,
                        "Please provide a valid access",
                        member_string_range(node, "access"),
                        "Invalid access",
                    ),
                );
            }
        }
        if !registry_ok {
            return Err(
                validation_error(
                    "Invalid registry",
                    None,
                    "Please provide a valid registry",
                    member_string_range(node, "registry"),
                    "Invalid registry",
                ),
            );
        }
        if let Some(tag) = &self.tag {
            if !matches_tag(tag.as_str()) {
                return Err(
                    validation_error(
                        "Invalid tag",
                        None,
                        "Please provide a valid tag",
                        member_string_range(node, "tag"),
                        "Invalid tag",
                    ),
                );
            }
        }
        if let Some(provenance) = &self.provenance {
            if !*provenance {
                return Err(
                    validation_error(
                        "Invalid provenance",
                        None,
                        "Please provide a valid provenance",
                        member_boolean_range(node, "provenance"),
                        "Invalid provenance",
                    ),
                );
            }
        }
        Ok(())
    }
}

impl Validator for PublishConfig {
    /// The first rule that the value breaks: an `access` that is no access
    /// level, a `registry` that is there and is no valid web address, a
    /// `tag` that is no tag, a `provenance` that is `false`.
    open spec fn violation(&self, prop: Option<PropModel>) -> Option<DiagnosticModel> {
        self@.verdict(url_in_order(self@.registry), value_of(prop))
    }

    fn validate(&self, prop: Option<&ObjectProp>) -> (outcome: Result<(), Diagnostic>) {
        let registry_ok = check_optional_url(&self.registry);
        self.judge(registry_ok, prop)
    }
}

} // verus!
