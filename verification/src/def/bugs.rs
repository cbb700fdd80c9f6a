//! The `bugs` field: where to report a fault of the package.

use crate::address::{
    check_optional_email, check_optional_url, email_in_order, email_is_valid, url_in_order,
    url_is_valid, validate_email, validate_url,
};
use crate::ext::codec::{
    fields_model, lemma_record_text, optional_text, optional_text_value, read_optional_text,
    read_text, record_value, text_value, write_optional_text, write_record, write_text,
    wrong_type, Codec, Fault, Flaw, Member,
};
use crate::ext::diagnostic::{error_report, validation_error, Diagnostic, DiagnosticModel};
use crate::ext::range::{
    member_string_range, member_string_range_of, node_model, node_of, prop_model, string_range,
    string_range_of, value_of,
};
use crate::ext::validator::Validator;
use crate::json::{lemma_object_view, JsonModel, JsonValue};
use crate::syntax::{ObjectProp, PropModel, SyntaxModel, SyntaxValue};
use vstd::prelude::*;

verus! {

/// The object form of `bugs`: a web address, an e-mail address, or both.
#[derive(Clone, Debug, PartialEq, Eq)]
pub struct BugsItem {
    pub url: Option<String>,
    pub email: Option<String>,
}

/// What a `BugsItem` stands for.
pub struct BugsItemModel {
    pub url: Option<Seq<char>>,
    pub email: Option<Seq<char>>,
}

impl View for BugsItem {
    type V = BugsItemModel;

    open spec fn view(&self) -> BugsItemModel {
        BugsItemModel { url: self.url.deep_view(), email: self.email.deep_view() }
    }
}

impl DeepView for BugsItem {
    type V = BugsItemModel;

    open spec fn deep_view(&self) -> BugsItemModel {
        self@
    }
}

impl BugsItemModel {
    /// The members of the object that stands for the value.
    pub open spec fn fields(self) -> Seq<(Member, Option<JsonModel>)> {
        seq![
            (Member::Url, optional_text_value(self.url)),
            (Member::Email, optional_text_value(self.email)),
        ]
    }

    /// The first rule that the value breaks, given whether its `url` and
    /// its `email` are in order: a `url` that is not, then an `email` that
    /// is not. Each is reported at the string literal of its member.
    pub open spec fn verdict(url_ok: bool, email_ok: bool, node: Option<SyntaxModel>) -> Option<
        DiagnosticModel,
    > {
        if !url_ok {
            Some(
                error_report(
                    "Invalid URL"@,
                    Some("invalid_url"@),
                    "Please provide a valid URL"@,
                    member_string_range_of(node, "url"@),
                    "Invalid URL"@,
                ),
            )
        } else if !email_ok {
            Some(
                error_report(
                    "Invalid Email"@,
                    Some("invalid_email"@),
                    "Please provide a valid Email"@,
                    member_string_range_of(node, "email"@),
                    "Invalid Email"@,
                ),
            )
        } else {
            None
        }
    }

    /// The first rule that the value breaks: a `url` that is there and is
    /// no valid web address, then an `email` that is there and is no valid
    /// e-mail address.
    pub open spec fn violation(self, node: Option<SyntaxModel>) -> Option<DiagnosticModel> {
        Self::verdict(url_in_order(self.url), email_in_order(self.email), node)
    }
}

impl Codec for BugsItem {
    open spec fn decoded(value: JsonModel) -> Result<BugsItemModel, Flaw> {
        match value {
            JsonModel::Object(members) => {
                let url = optional_text(members, Member::Url);
                let email = optional_text(members, Member::Email);
                if url is Err {
                    Err(url->Err_0)
                } else if email is Err {
                    Err(email->Err_0)
                } else {
                    Ok(BugsItemModel { url: url->Ok_0, email: email->Ok_0 })
                }
            },
            _ => Err(wrong_type()),
        }
    }

    open spec fn encoded(model: BugsItemModel) -> JsonModel {
        record_value(model.fields())
    }

    fn decode(value: &JsonValue) -> (outcome: Result<Self, Flaw>) {
        let members = match value {
            JsonValue::Object(members) => members,
            _ => {
                return Err(Flaw { item: None, member: None, fault: Fault::WrongType });
            },
        };
        proof {
            lemma_object_view(*members);
        }
        let url = read_optional_text(members, Member::Url)?;
        let email = read_optional_text(members, Member::Email)?;
        Ok(BugsItem { url, email })
    }

    fn encode(&self) -> (value: JsonValue) {
        let fields = vec![
            (Member::Url, write_optional_text(&self.url)),
            (Member::Email, write_optional_text(&self.email)),
        ];
        assert(fields_model(fields@) =~= self@.fields());
        write_record(fields)
    }

    proof fn lemma_round_trip(value: JsonModel) {
        let model = Self::decoded(value)->Ok_0;
        lemma_record_text(model.fields(), 0, model.url);
        lemma_record_text(model.fields(), 1, model.email);
    }
}

impl BugsItem {
    /// Reports the first rule that an object breaks, given whether its
    /// `url` and its `email` are in order.
    pub fn judge(url_ok: bool, email_ok: bool, node: Option<&SyntaxValue>) -> (outcome: Result<
        (),
        Diagnostic,
    >)
        ensures
            BugsItemModel::verdict(url_ok, email_ok, node_model(node)) == match outcome {
                Ok(_) => None,
                Err(diagnostic) => Some(diagnostic@),
            },
    {
        if !url_ok {
            return Err(
                validation_error(
                    "Invalid URL",
                    Some("invalid_url"),
                    "Please provide a valid URL",
                    member_string_range(node, "url"),
                    "Invalid URL",
                ),
            );
        }
        if !email_ok {
            return Err(
                validation_error(
                    "Invalid Email",
                    Some("invalid_email"),
                    "Please provide a valid Email",
                    member_string_range(node, "email"),
                    "Invalid Email",
                ),
            );
        }
        Ok(())
    }

    /// Validates the value against the object `node`.
    pub fn validate_at(&self, node: Option<&SyntaxValue>) -> (outcome: Result<(), Diagnostic>)
        ensures
            self@.violation(node_model(node)) == match outcome {
                Ok(_) => None,
                Err(diagnostic) => Some(diagnostic@),
            },
    {
        let url_ok = check_optional_url(&self.url);
        let email_ok = check_optional_email(&self.email);
        BugsItem::judge(url_ok, email_ok, node)
    }
}

/// The `bugs` field: a web address or an e-mail address as a string, or
/// an object that holds them.
#[derive(Clone, Debug, PartialEq, Eq)]
pub enum Bugs {
    UrlOrEmail(String),
    BugsItem(BugsItem),
}

/// What a `Bugs` stands for.
pub enum BugsModel {
    UrlOrEmail(Seq<char>),
    BugsItem(BugsItemModel),
}

impl View for Bugs {
    type V = BugsModel;

    open spec fn view(&self) -> BugsModel {
        match self {
            Bugs::UrlOrEmail(text) => BugsModel::UrlOrEmail(text@),
            Bugs::BugsItem(item) => BugsModel::BugsItem(item@),
        }
    }
}

impl DeepView for Bugs {
    type V = BugsModel;

    open spec fn deep_view(&self) -> BugsModel {
        self@
    }
}

impl Codec for Bugs {
    open spec fn decoded(value: JsonModel) -> Result<BugsModel, Flaw> {
        match value {
            JsonModel::String(text) => Ok(BugsModel::UrlOrEmail(text)),
            _ => match BugsItem::decoded(value) {
                Ok(item) => Ok(BugsModel::BugsItem(item)),
                Err(flaw) => Err(flaw),
            },
        }
    }

    open spec fn encoded(model: BugsModel) -> JsonModel {
        match model {
            BugsModel::UrlOrEmail(text) => text_value(text),
            BugsModel::BugsItem(item) => BugsItem::encoded(item),
        }
    }

    fn decode(value: &JsonValue) -> (outcome: Result<Self, Flaw>) {
        match value {
            JsonValue::String(_) => Ok(Bugs::UrlOrEmail(read_text(value)?)),
            _ => Ok(Bugs::BugsItem(BugsItem::decode(value)?)),
        }
    }

    fn encode(&self) -> (value: JsonValue) {
        match self {
            Bugs::UrlOrEmail(text) => write_text(text),
            Bugs::BugsItem(item) => item.encode(),
        }
    }

    proof fn lemma_round_trip(value: JsonModel) {
        if !(value is String) {
            BugsItem::lemma_round_trip(value);
        }
    }
}

impl BugsModel {
    /// The first rule that the value breaks, given whether its web address
    /// and its e-mail address are in order. For a string these say
    /// whether the string is the one or the other, and it is reported at
    /// its string literal where it is neither; an object goes by
    /// `BugsItemModel::verdict`.
    pub open spec fn verdict(
        self,
        url_ok: bool,
        email_ok: bool,
        node: Option<SyntaxModel>,
    ) -> Option<DiagnosticModel> {
        match self {
            BugsModel::UrlOrEmail(_) => if url_ok || email_ok {
                None
            } else {
                Some(
                    error_report(
                        "Invalid URL or email"@,
                        Some("invalid_url_or_email"@),
                        "Please provide a valid URL or email"@,
                        string_range_of(node),
                        "Invalid URL or email"@,
                    ),
                )
            },
            BugsModel::BugsItem(_) => BugsItemModel::verdict(url_ok, email_ok, node),
        }
    }

    /// Whether the web address of the value is in order: the string is a
    /// valid one, or the `url` of the object is missing or valid.
    pub open spec fn url_ok(self) -> bool {
        match self {
            BugsModel::UrlOrEmail(text) => url_is_valid(text),
            BugsModel::BugsItem(item) => url_in_order(item.url),
        }
    }

    /// Whether the e-mail address of the value is in order: the string is
    /// a valid one, or the `email` of the object is missing or valid.
    pub open spec fn email_ok(self) -> bool {
        match self {
            BugsModel::UrlOrEmail(text) => email_is_valid(text),
            BugsModel::BugsItem(item) => email_in_order(item.email),
        }
    }
}

impl Bugs {
    /// Reports the first rule that the value breaks, given whether its web
    /// address and its e-mail address are in order.
    pub fn judge(
        &self,
        url_ok: bool,
        email_ok: bool,
        prop: Option<&ObjectProp>,
    ) -> (outcome: Result<(), Diagnostic>)
        ensures
            self@.verdict(url_ok, email_ok, value_of(prop_model(prop))) == match outcome {
                Ok(_) => None,
                Err(diagnostic) => Some(diagnostic@),
            },
    {
        match self {
            Bugs::UrlOrEmail(_) => {
                if url_ok || email_ok {
                    return Ok(());
                }
                Err(
                    validation_error(
                        "Invalid URL or email",
                        Some("invalid_url_or_email"),
                        "Please provide a valid URL or email",
                        string_range(node_of(prop)),
                        "Invalid URL or email",
                    ),
                )
            },
            Bugs::BugsItem(_) => BugsItem::judge(url_ok, email_ok, node_of(prop)),
        }
    }
}

impl Validator for Bugs {
    /// A string that is neither a valid web address nor a valid e-mail
    /// address is reported at its string literal; an object by the rules
    /// of `BugsItemModel::violation`.
    open spec fn violation(&self, prop: Option<PropModel>) -> Option<DiagnosticModel> {
        self@.verdict(self@.url_ok(), self@.email_ok(), value_of(prop))
    }

    fn validate(&self, prop: Option<&ObjectProp>) -> (outcome: Result<(), Diagnostic>) {
        let (url_ok, email_ok) = match self {
            Bugs::UrlOrEmail(text) => (validate_url(text.as_str()), validate_email(text.as_str())),
            Bugs::BugsItem(item) => (
                check_optional_url(&item.url),
                check_optional_email(&item.email),
            ),
        };
        self.judge(url_ok, email_ok, prop)
    }
}

} // verus!
