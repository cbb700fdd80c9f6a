//! What holds of the library as a whole, stated over the models that the
//! contracts use.

use crate::address::{email_in_order, email_is_valid, url_in_order, url_is_valid};
use crate::def::bugs::{Bugs, BugsModel};
use crate::def::version::Version;
use crate::err::{DecodeError, ErrorKindModel, ParseFaultModel, Report};
use crate::ext::codec::{wrong_type, Codec, Flaw};
use crate::ext::validator::Validator;
use crate::field::{Field, FIELD_COUNT};
use crate::grammar::version::is_version;
use crate::json::{json_document, lookup, Found, JsonModel, JsonSyntaxErrorModel};
use crate::manifest::{parse_outcome, validation_model};
use crate::parser::{
    field_decodes, field_flaw, lemma_first_flaw, lemma_no_flaw, PackageJsonParser,
    PackageJsonParserModel,
};
use crate::syntax::{PropModel, SyntaxModel};
use vstd::prelude::*;

verus! {

/// A string decodes to the version with the same characters, and that
/// version is valid exactly where the characters are a semantic version.
/// One that is not valid is reported under the code `invalid_version`.
pub proof fn lemma_version_rule(text: Seq<char>, version: Version, prop: Option<PropModel>)
    requires
        version@ == text,
    ensures
        Version::decoded(JsonModel::String(text)) == Ok::<Seq<char>, Flaw>(text),
        version.violation(prop) is None <==> is_version(text),
        !is_version(text) ==> version.violation(prop)->Some_0.code == Some("invalid_version"@),
{
}

/// The addresses of a `bugs` value are valid: the string is a valid web
/// address or a valid e-mail address, or, of the object, the `url` and
/// the `email` are each missing or valid.
pub open spec fn bugs_are_sound(bugs: BugsModel) -> bool {
    match bugs {
        BugsModel::UrlOrEmail(text) => url_is_valid(text) || email_is_valid(text),
        BugsModel::BugsItem(item) => url_in_order(item.url) && email_in_order(item.email),
    }
}

/// A `bugs` value is valid exactly where its addresses are. Where they
/// are not, the one diagnostic names what is wrong: the string by
/// `invalid_url_or_email`, a wrong `url` by `invalid_url`, and, where the
/// `url` is in order, a wrong `email` by `invalid_email`.
pub proof fn lemma_bugs_rule(bugs: Bugs, prop: Option<PropModel>)
    ensures
        bugs.violation(prop) is None <==> bugs_are_sound(bugs@),
        !bugs_are_sound(bugs@) ==> bugs.violation(prop)->Some_0.code == Some(
            match bugs@ {
                BugsModel::UrlOrEmail(_) => "invalid_url_or_email"@,
                BugsModel::BugsItem(item) => if !url_in_order(item.url) {
                    "invalid_url"@
                } else {
                    "invalid_email"@
                },
            },
        ),
{
}

/// Two validations of one manifest give the same outcome.
pub proof fn lemma_validation_repeats(
    manifest: PackageJsonParser,
    first: Result<(), Report>,
    second: Result<(), Report>,
)
    requires
        validation_model(first) == manifest.validation(manifest.source_tree()),
        validation_model(second) == manifest.validation(manifest.source_tree()),
    ensures
        validation_model(first) == validation_model(second),
{
}

/// A text that is no JSON gives a parse error, whatever else holds of it:
/// the error of the fault that the JSON parser reports.
pub proof fn lemma_malformed_text_is_refused(
    text: Seq<char>,
    path: Option<Seq<char>>,
    tree: Option<SyntaxModel>,
)
    requires
        json_document(text) is Err,
    ensures
        parse_outcome(text, path, json_document(text), tree) is Err,
        error_source(parse_outcome(text, path, json_document(text), tree)->Err_0) == Some(
            ParseFaultModel::Syntax(json_document(text)->Err_0),
        ),
{
}

/// The fault that a parse error holds.
pub open spec fn error_source(error: ErrorKindModel) -> Option<ParseFaultModel> {
    match error {
        ErrorKindModel::NameRequired => None,
        ErrorKindModel::JsonFileParseError(error) => error.source,
        ErrorKindModel::JsonStrParseError(error) => error.source,
    }
}

/// An object decodes to a manifest exactly where each key that the
/// library knows decodes. Where one does not, the flaw is that of the
/// first such key in order, and it names that key.
pub proof fn lemma_decode_rule(members: Seq<(Seq<char>, JsonModel)>, k: int)
    requires
        0 <= k < FIELD_COUNT,
        !field_decodes(members, Field::at(k)),
        forall|i: int| 0 <= i < k ==> field_decodes(members, #[trigger] Field::at(i)),
    ensures
        PackageJsonParserModel::decoded(JsonModel::Object(members)) == Err::<
            PackageJsonParserModel,
            DecodeError,
        >(field_flaw(members, Field::at(k))),
        field_flaw(members, Field::at(k)) matches DecodeError::Field { field, .. } && field
            == Field::at(k),
{
    lemma_first_flaw(members, 0, k);
}

/// Where every key that the library knows decodes, the object decodes.
pub proof fn lemma_decode_succeeds(members: Seq<(Seq<char>, JsonModel)>)
    requires
        forall|i: int| 0 <= i < FIELD_COUNT ==> field_decodes(members, #[trigger] Field::at(i)),
    ensures
        PackageJsonParserModel::decoded(JsonModel::Object(members)) is Ok,
{
    lemma_no_flaw(members, 0);
}

/// A value that is neither `true` nor `false` under the key `private`
/// is a decode error that names the key and the wrong type, where the
/// keys before it decode.
pub proof fn lemma_flag_of_wrong_type(members: Seq<(Seq<char>, JsonModel)>, value: JsonModel)
    requires
        lookup(members, Field::Private.key()) == Found::Once(value),
        !(value is Bool),
        forall|i: int| 0 <= i < 23 ==> field_decodes(members, #[trigger] Field::at(i)),
    ensures
        PackageJsonParserModel::decoded(JsonModel::Object(members)) == Err::<
            PackageJsonParserModel,
            DecodeError,
        >(DecodeError::Field { field: Field::Private, flaw: wrong_type() }),
{
    assert(Field::at(23) == Field::Private);
    lemma_first_flaw(members, 0, 23);
}

/// A document of which a field does not decode gives a parse error that
/// holds the decode error: no manifest is made of it, so no validation of
/// it can fail.
pub proof fn lemma_decode_error_is_told_apart(
    text: Seq<char>,
    path: Option<Seq<char>>,
    value: JsonModel,
    tree: Option<SyntaxModel>,
)
    requires
        PackageJsonParserModel::decoded(value) is Err,
    ensures
        parse_outcome(text, path, Ok::<JsonModel, JsonSyntaxErrorModel>(value), tree) is Err,
        error_source(
            parse_outcome(text, path, Ok::<JsonModel, JsonSyntaxErrorModel>(value), tree)->Err_0,
        ) == Some(ParseFaultModel::Decode(PackageJsonParserModel::decoded(value)->Err_0)),
{
}

} // verus!
