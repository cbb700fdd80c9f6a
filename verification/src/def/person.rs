//! People: the `author` field, and the lists `contributors` and
//! `maintainers`.

use crate::address::{check_optional_email, check_optional_url, email_in_order, url_in_order};
use crate::ext::codec::{
    fields_model, lemma_list_round_trip, lemma_record_required, lemma_record_text, list_of,
    list_value, optional_text, optional_text_value, read_list, read_optional_text,
    read_required_text, read_text, record_value, required_text, text_value, write_list,
    write_optional_text, write_record, write_text, wrong_type, Codec, Fault, Flaw, Member,
};
use crate::ext::diagnostic::{error_report, validation_error, Diagnostic, DiagnosticModel};
use crate::ext::range::{
    element_at, element_of, member_string_range, member_string_range_of, node_model, node_of,
    string_range, string_range_of, value_of,
};
use crate::ext::validator::Validator;
use crate::json::{lemma_object_view, JsonModel, JsonValue};
use crate::syntax::{ByteRange, ObjectProp, PropModel, SyntaxModel, SyntaxValue};
use vstd::prelude::*;

verus! {

/// The object form of a person: a name, and where the person can be
/// reached.
#[derive(Clone, Debug, PartialEq, Eq)]
pub struct PersonObject {
    pub name: String,
    pub email: Option<String>,
    pub url: Option<String>,
}

/// What a `PersonObject` stands for.
pub struct PersonObjectModel {
    pub name: Seq<char>,
    pub email: Option<Seq<char>>,
    pub url: Option<Seq<char>>,
}

impl View for PersonObject {
    type V = PersonObjectModel;

    open spec fn view(&self) -> PersonObjectModel {
        PersonObjectModel {
            name: self.name@,
            email: self.email.deep_view(),
            url: self.url.deep_view(),
        }
    }
}

impl DeepView for PersonObject {
    type V = PersonObjectModel;

    open spec fn deep_view(&self) -> PersonObjectModel {
        self@
    }
}

/// The report of a name that is empty.
pub open spec fn invalid_name(range: Option<ByteRange>) -> DiagnosticModel {
    error_report(
        "Invalid name"@,
        Some("invalid_name"@),
        "Please provide a valid name"@,
        range,
        "Invalid name"@,
    )
}

impl PersonObjectModel {
    /// The members of the object that stands for the value.
    pub open spec fn fields(self) -> Seq<(Member, Option<JsonModel>)> {
        seq![
            (Member::Name, Some(JsonModel::String(self.name))),
            (Member::Email, optional_text_value(self.email)),
            (Member::Url, optional_text_value(self.url)),
        ]
    }

    /// The first rule that the value breaks, given whether its `email`
    /// and its `url` are in order: an empty `name`, then an `email` that is
    /// not, then a `url` that is not. Each is reported at the string
    /// literal of its member.
    pub open spec fn verdict(
        self,
        email_ok: bool,
        url_ok: bool,
        node: Option<SyntaxModel>,
    ) -> Option<DiagnosticModel> {
        if self.name.len() == 0 {
            Some(invalid_name(member_string_range_of(node, "name"@)))
        } else if !email_ok {
            Some(
                error_report(
                    "Invalid email"@,
                    Some("invalid_email"@),
                    "Please provide a valid email"@,
                    member_string_range_of(node, "email"@),
                    "Invalid email"@,
                ),
            )
        } else if !url_ok {
            Some(
                error_report(
                    "Invalid URL"@,
                    Some("invalid_url"@),
                    "Please provide a valid URL"@,
                    member_string_range_of(node, "url"@),
                    "Invalid URL"@,
                ),
            )
        } else {
            None
        }
    }

    /// The first rule that the value breaks: an empty `name`, then an
    /// `email` that is there and is no valid e-mail address, then a `url`
    /// that is there and is no valid web address.
    pub open spec fn violation(self, node: Option<SyntaxModel>) -> Option<DiagnosticModel> {
        self.verdict(email_in_order(self.email), url_in_order(self.url), node)
    }
}

impl Codec for PersonObject {
    open spec fn decoded(value: JsonModel) -> Result<PersonObjectModel, Flaw> {
        match value {
            JsonModel::Object(members) => {
                let name = required_text(members, Member::Name);
                let email = optional_text(members, Member::Email);
                let url = optional_text(members, Member::Url);
                if name is Err {
                    Err(name->Err_0)
                } else if email is Err {
                    Err(email->Err_0)
                } else if url is Err {
                    Err(url->Err_0)
                } else {
                    Ok(PersonObjectModel { name: name->Ok_0, email: email->Ok_0, url: url->Ok_0 })
                }
            },
            _ => Err(wrong_type()),
        }
    }

    open spec fn encoded(model: PersonObjectModel) -> JsonModel {
        record_value(model.fields())
    }

    fn decode(value: &JsonValue) -> (outcome: Result<Self, Flaw>) {
        let members = match value {
            JsonValue::Object(members) => members,
            _ => {
                return Err(Flaw { item: None, member: None, fault: Fault::WrongType });
            },
        };
        proof {
            lemma_object_view(*members);
        }
        let name = read_required_text(members, Member::Name)?;
        let email = read_optional_text(members, Member::Email)?;
        let url = read_optional_text(members, Member::Url)?;
        Ok(PersonObject { name, email, url })
    }

    fn encode(&self) -> (value: JsonValue) {
        let fields = vec![
            (Member::Name, Some(write_text(&self.name))),
            (Member::Email, write_optional_text(&self.email)),
            (Member::Url, write_optional_text(&self.url)),
        ];
        assert(fields_model(fields@) =~= self@.fields());
        write_record(fields)
    }

    proof fn lemma_round_trip(value: JsonModel) {
        let model = Self::decoded(value)->Ok_0;
        lemma_record_required(model.fields(), 0, model.name);
        lemma_record_text(model.fields(), 1, model.email);
        lemma_record_text(model.fields(), 2, model.url);
    }
}

impl PersonObject {
    /// Reports the first rule that the value breaks, given whether its
    /// `email` and its `url` are in order.
    pub fn judge(
        &self,
        email_ok: bool,
        url_ok: bool,
        node: Option<&SyntaxValue>,
    ) -> (outcome: Result<(), Diagnostic>)
        ensures
            self@.verdict(email_ok, url_ok, node_model(node)) == match outcome {
                Ok(_) => None,
                Err(diagnostic) => Some(diagnostic@),
            },
    {
        if self.name.as_str().is_empty() {
            return Err(
                validation_error(
                    "Invalid name",
                    Some("invalid_name"),
                    "Please provide a valid name",
                    member_string_range(node, "name"),
                    "Invalid name",
                ),
            );
        }
        if !email_ok {
            return Err(
                validation_error(
                    "Invalid email",
                    Some("invalid_email"),
                    "Please provide a valid email",
                    member_string_range(node, "email"),
                    "Invalid email",
                ),
            );
        }
        if !url_ok {
            return Err(
                validation_error(
                    "Invalid URL",
                    Some("invalid_url"),
                    "Please provide a valid URL",
                    member_string_range(node, "url"),
                    "Invalid URL",
                ),
            );
        }
        Ok(())
    }

    /// Validates the value against the object `node`.
    pub fn validate_at(&self, node: Option<&SyntaxValue>) -> (outcome: Result<(), Diagnostic>)
        ensures
            self@.violation(node_model(node)) == match outcome {
                Ok(_) => None,
                Err(diagnostic) => Some(diagnostic@),
            },
    {
        let email_ok = check_optional_email(&self.email);
        let url_ok = check_optional_url(&self.url);
        self.judge(email_ok, url_ok, node)
    }
}

/// A person: a name as a string, or an object.
#[derive(Clone, Debug, PartialEq, Eq)]
pub enum Person {
    String(String),
    Object(PersonObject),
}

/// What a `Person` stands for.
pub enum PersonModel {
    String(Seq<char>),
    Object(PersonObjectModel),
}

impl View for Person {
    type V = PersonModel;

    open spec fn view(&self) -> PersonModel {
        match self {
            Person::String(name) => PersonModel::String(name@),
            Person::Object(person) => PersonModel::Object(person@),
        }
    }
}

impl DeepView for Person {
    type V = PersonModel;

    open spec fn deep_view(&self) -> PersonModel {
        self@
    }
}

impl PersonModel {
    /// The first rule that the person breaks, given whether the `email`
    /// and the `url` of an object are in order: as a string, an empty
    /// name, reported at the string literal; as an object, by
    /// `PersonObjectModel::verdict`.
    pub open spec fn verdict(
        self,
        email_ok: bool,
        url_ok: bool,
        node: Option<SyntaxModel>,
    ) -> Option<DiagnosticModel> {
        match self {
            PersonModel::String(name) => if name.len() == 0 {
                Some(invalid_name(string_range_of(node)))
            } else {
                None
            },
            PersonModel::Object(person) => person.verdict(email_ok, url_ok, node),
        }
    }

    /// Whether the e-mail address of the person is in order: that of an
    /// object is missing or valid.
    pub open spec fn email_ok(self) -> bool {
        match self {
            PersonModel::String(_) => true,
            PersonModel::Object(person) => email_in_order(person.email),
        }
    }

    /// Whether the web address of the person is in order: that of an
    /// object is missing or valid.
    pub open spec fn url_ok(self) -> bool {
        match self {
            PersonModel::String(_) => true,
            PersonModel::Object(person) => url_in_order(person.url),
        }
    }

    /// The first rule that the person breaks: as a string, an empty name;
    /// as an object, by the rules of `PersonObjectModel::violation`.
    pub open spec fn violation(self, node: Option<SyntaxModel>) -> Option<DiagnosticModel> {
        self.verdict(self.email_ok(), self.url_ok(), node)
    }
}

impl Codec for Person {
    open spec fn decoded(value: JsonModel) -> Result<PersonModel, Flaw> {
        match value {
            JsonModel::String(name) => Ok(PersonModel::String(name)),
            _ => match PersonObject::decoded(value) {
                Ok(person) => Ok(PersonModel::Object(person)),
                Err(flaw) => Err(flaw),
            },
        }
    }

    open spec fn encoded(model: PersonModel) -> JsonModel {
        match model {
            PersonModel::String(name) => text_value(name),
            PersonModel::Object(person) => PersonObject::encoded(person),
        }
    }

    fn decode(value: &JsonValue) -> (outcome: Result<Self, Flaw>) {
        match value {
            JsonValue::String(_) => Ok(Person::String(read_text(value)?)),
            _ => Ok(Person::Object(PersonObject::decode(value)?)),
        }
    }

    fn encode(&self) -> (value: JsonValue) {
        match self {
            Person::String(name) => write_text(name),
            Person::Object(person) => person.encode(),
        }
    }

    proof fn lemma_round_trip(value: JsonModel) {
        if !(value is String) {
            PersonObject::lemma_round_trip(value);
        }
    }
}

impl Person {
    /// Reports the first rule that the person breaks, given whether the
    /// `email` and the `url` of an object are in order.
    pub fn judge(
        &self,
        email_ok: bool,
        url_ok: bool,
        node: Option<&SyntaxValue>,
    ) -> (outcome: Result<(), Diagnostic>)
        ensures
            self@.verdict(email_ok, url_ok, node_model(node)) == match outcome {
                Ok(_) => None,
                Err(diagnostic) => Some(diagnostic@),
            },
    {
        match self {
            Person::String(name) => {
                if !name.as_str().is_empty() {
                    return Ok(());
                }
                Err(
                    validation_error(
                        "Invalid name",
                        Some("invalid_name"),
                        "Please provide a valid name",
                        string_range(node),
                        "Invalid name",
                    ),
                )
            },
            Person::Object(person) => person.judge(email_ok, url_ok, node),
        }
    }

    /// Validates the person against the value `node`.
    pub fn validate_at(&self, node: Option<&SyntaxValue>) -> (outcome: Result<(), Diagnostic>)
        ensures
            self@.violation(node_model(node)) == match outcome {
                Ok(_) => None,
                Err(diagnostic) => Some(diagnostic@),
            },
    {
        let (email_ok, url_ok) = match self {
            Person::String(_) => (true, true),
            Person::Object(person) => (
                check_optional_email(&person.email),
                check_optional_url(&person.url),
            ),
        };
        self.judge(email_ok, url_ok, node)
    }
}

impl Validator for Person {
    /// The person's first broken rule, placed by the member's value.
    open spec fn violation(&self, prop: Option<PropModel>) -> Option<DiagnosticModel> {
        self@.violation(value_of(prop))
    }

    fn validate(&self, prop: Option<&ObjectProp>) -> (outcome: Result<(), Diagnostic>) {
        self.validate_at(node_of(prop))
    }
}

/// The first broken rule among `people` from position `from` on, each
/// person placed by the element of the array `node` at the person's
/// position.
pub open spec fn people_violation(
    people: Seq<PersonModel>,
    node: Option<SyntaxModel>,
    from: int,
) -> Option<DiagnosticModel>
    decreases people.len() - from,
{
    if from < 0 || from >= people.len() {
        None
    } else if people[from].violation(element_of(node, from)) is Some {
        people[from].violation(element_of(node, from))
    } else {
        people_violation(people, node, from + 1)
    }
}

/// Validates each of `people` in turn against the elements of `node`.
pub fn validate_people(people: &Vec<Person>, node: Option<&SyntaxValue>) -> (outcome: Result<
    (),
    Diagnostic,
>)
    ensures
        people_violation(people.deep_view(), node_model(node), 0) == match outcome {
            Ok(_) => None,
            Err(diagnostic) => Some(diagnostic@),
        },
{
    let mut i: usize = 0;
    while i < people.len()
        invariant
            i <= people.len(),
            people_violation(people.deep_view(), node_model(node), 0) == people_violation(
                people.deep_view(),
                node_model(node),
                i as int,
            ),
        decreases people.len() - i,
    {
        assert(people.deep_view()[i as int] == people@[i as int]@);
        match people[i].validate_at(element_at(node, i)) {
            Ok(_) => {},
            Err(diagnostic) => {
                return Err(diagnostic);
            },
        }
        i += 1;
    }
    Ok(())
}

/// The `contributors` field: the people who have worked on the package.
#[derive(Clone, Debug, PartialEq, Eq)]
pub struct Contributors(pub Vec<Person>);

impl View for Contributors {
    type V = Seq<PersonModel>;

    open spec fn view(&self) -> Seq<PersonModel> {
        self.0.deep_view()
    }
}

impl DeepView for Contributors {
    type V = Seq<PersonModel>;

    open spec fn deep_view(&self) -> Seq<PersonModel> {
        self@
    }
}

impl Codec for Contributors {
    open spec fn decoded(value: JsonModel) -> Result<Seq<PersonModel>, Flaw> {
        list_of::<Person>(value)
    }

    open spec fn encoded(model: Seq<PersonModel>) -> JsonModel {
        list_value::<Person>(model)
    }

    fn decode(value: &JsonValue) -> (outcome: Result<Self, Flaw>) {
        Ok(Contributors(read_list::<Person>(value)?))
    }

    fn encode(&self) -> (value: JsonValue) {
        write_list::<Person>(&self.0)
    }

    proof fn lemma_round_trip(value: JsonModel) {
        lemma_list_round_trip::<Person>(value);
    }
}

impl Validator for Contributors {
    /// The first broken rule of the first person that breaks one.
    open spec fn violation(&self, prop: Option<PropModel>) -> Option<DiagnosticModel> {
        people_violation(self@, value_of(prop), 0)
    }

    fn validate(&self, prop: Option<&ObjectProp>) -> (outcome: Result<(), Diagnostic>) {
        validate_people(&self.0, node_of(prop))
    }
}

/// The `maintainers` field: the people who look after the package.
#[derive(Clone, Debug, PartialEq, Eq)]
pub struct Maintainers(pub Vec<Person>);

impl View for Maintainers {
    type V = Seq<PersonModel>;

    open spec fn view(&self) -> Seq<PersonModel> {
        self.0.deep_view()
    }
}

impl DeepView for Maintainers {
    type V = Seq<PersonModel>;

    open spec fn deep_view(&self) -> Seq<PersonModel> {
        self@
    }
}

impl core::ops::Deref for Maintainers {
    type Target = Vec<Person>;

    fn deref(&self) -> (people: &Vec<Person>)
        ensures
            *people == self.0,
    {
        &self.0
    }
}

impl core::ops::DerefMut for Maintainers {
    fn deref_mut(&mut self) -> (people: &mut Vec<Person>)
        ensures
            *people == old(self).0,
            final(self).0 == *final(people),
    {
        &mut self.0
    }
}

impl Codec for Maintainers {
    open spec fn decoded(value: JsonModel) -> Result<Seq<PersonModel>, Flaw> {
        list_of::<Person>(value)
    }

    open spec fn encoded(model: Seq<PersonModel>) -> JsonModel {
        list_value::<Person>(model)
    }

    fn decode(value: &JsonValue) -> (outcome: Result<Self, Flaw>) {
        Ok(Maintainers(read_list::<Person>(value)?))
    }

    fn encode(&self) -> (value: JsonValue) {
        write_list::<Person>(&self.0)
    }

    proof fn lemma_round_trip(value: JsonModel) {
        lemma_list_round_trip::<Person>(value);
    }
}

impl Validator for Maintainers {
    /// The first broken rule of the first person that breaks one.
    open spec fn violation(&self, prop: Option<PropModel>) -> Option<DiagnosticModel> {
        people_violation(self@, value_of(prop), 0)
    }

    fn validate(&self, prop: Option<&ObjectProp>) -> (outcome: Result<(), Diagnostic>) {
        validate_people(&self.0, node_of(prop))
    }
}

} // verus!
