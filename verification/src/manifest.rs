//! Parsing a manifest from its text, validating it, and naming its
//! commands.

use crate::def::entry_fields::{Bin, BinModel};
use crate::err::{
    DecodeError, ErrorKind, ErrorKindModel, JsonParseError, JsonParseErrorModel, ParseFault,
    ParseFaultModel, Report, ReportModel,
};
use crate::ext::codec::{Fault, Flaw};
use crate::ext::diagnostic::{Diagnostic, DiagnosticModel, LabeledSpan, LabeledSpanModel};
use crate::ext::range::{
    member_named, member_of, node_model, path_model, value_range, value_range_of,
};
use crate::field::{Field, FIELD_COUNT};
use crate::json::{
    json_document, parse_value, JsonModel, JsonSyntaxError, JsonSyntaxErrorModel, JsonValue,
};
use crate::lines::{find_line, line_range};
use crate::parser::{PackageJsonParser, PackageJsonParserModel};
use crate::string_map::StringMap;
use crate::syntax::{parse_syntax, syntax_document, ByteRange, SyntaxModel, SyntaxValue};
use crate::text::chars_of;
use vstd::prelude::*;
use vstd::string::StrSliceExecFns;
use vstd::utf8::encode_utf8;

verus! {

/// What the outcome of a validation stands for.
pub open spec fn validation_model(outcome: Result<(), Report>) -> Result<(), ReportModel> {
    match outcome {
        Ok(_) => Ok(()),
        Err(report) => Err(report@),
    }
}

/// What the outcome of a parse stands for.
pub open spec fn parse_model(outcome: Result<PackageJsonParser, ErrorKind>) -> Result<
    PackageJsonParserModel,
    ErrorKindModel,
> {
    match outcome {
        Ok(manifest) => Ok(manifest@),
        Err(error) => Err(error@),
    }
}

/// Where a text that is no manifest is at fault: for a text that is no
/// JSON, the line of the fault; for a document that is no object, the
/// document; for a field of the wrong shape, the field's value. The
/// latter two are known only where the syntax tree is.
pub open spec fn fault_place(
    text: Seq<char>,
    fault: ParseFaultModel,
    tree: Option<SyntaxModel>,
) -> Option<ByteRange> {
    match fault {
        ParseFaultModel::Syntax(error) => Some(line_range(encode_utf8(text), error.line)),
        ParseFaultModel::Decode(DecodeError::NotAnObject) => match tree {
            Some(root) => Some(root.range()),
            None => None,
        },
        ParseFaultModel::Decode(DecodeError::Field { field, flaw }) => value_range_of(
            member_of(tree, field.key()),
            Seq::empty(),
        ),
    }
}

/// The error for a text that is no manifest: with the text, its path
/// where it has one, the whole text as the first span, the place of the
/// fault, labelled `here`, where one is known, and the fault itself.
pub open spec fn parse_failure(
    text: Seq<char>,
    path: Option<Seq<char>>,
    fault: ParseFaultModel,
    tree: Option<SyntaxModel>,
) -> ErrorKindModel {
    let error = JsonParseErrorModel {
        src: text,
        name: path,
        primary_span: Some(ByteRange { start: 0, end: encode_utf8(text).len() as usize }),
        other_spans: match fault_place(text, fault, tree) {
            Some(range) => seq![LabeledSpanModel { label: "here"@, range }],
            None => Seq::empty(),
        },
        advice: Some("Please check the JSON syntax"@),
        source: Some(fault),
    };
    match path {
        Some(_) => ErrorKindModel::JsonFileParseError(error),
        None => ErrorKindModel::JsonStrParseError(error),
    }
}

/// The first key of the manifest, from position `from` of the order on,
/// that the document `tree` holds twice or in whose value an object holds
/// a key twice.
pub open spec fn repeated_field(tree: Option<SyntaxModel>, from: int) -> Option<Field>
    decreases FIELD_COUNT - from,
{
    if from < 0 || from >= FIELD_COUNT || tree is None {
        None
    } else if tree->Some_0.repeats_at(Field::at(from).key()) {
        Some(Field::at(from))
    } else {
        repeated_field(tree, from + 1)
    }
}

/// The flaw of a key that stands twice.
pub open spec fn repeated(field: Field) -> DecodeError {
    DecodeError::Field { field, flaw: Flaw { item: None, member: None, fault: Fault::Repeated } }
}

/// What parsing gives for a text, from what the two parsers read it as:
/// where the text is JSON, decodes, and holds no key twice as far as the
/// syntax tree shows, the manifest with the text and the path; else the
/// error of the fault.
pub open spec fn parse_outcome(
    text: Seq<char>,
    path: Option<Seq<char>>,
    document: Result<JsonModel, JsonSyntaxErrorModel>,
    tree: Option<SyntaxModel>,
) -> Result<PackageJsonParserModel, ErrorKindModel> {
    match document {
        Err(error) => Err(parse_failure(text, path, ParseFaultModel::Syntax(error), tree)),
        Ok(value) => match PackageJsonParserModel::decoded(value) {
            Err(error) => Err(parse_failure(text, path, ParseFaultModel::Decode(error), tree)),
            Ok(model) => match repeated_field(tree, 0) {
                Some(field) => Err(
                    parse_failure(text, path, ParseFaultModel::Decode(repeated(field)), tree),
                ),
                None => Ok(
                    PackageJsonParserModel { raw_source: Some(text), raw_path: path, ..model },
                ),
            },
        },
    }
}

/// Finds the first key of the manifest that the document `tree` holds
/// twice or in whose value an object holds a key twice.
pub fn find_repeated_field(tree: Option<&SyntaxValue>) -> (found: Option<Field>)
    ensures
        found == repeated_field(node_model(tree), 0),
{
    let root = match tree {
        Some(root) => root,
        None => {
            return None;
        },
    };
    let mut index: usize = 0;
    while index < FIELD_COUNT
        invariant
            index <= FIELD_COUNT,
            tree == Some(root),
            repeated_field(node_model(tree), 0) == repeated_field(node_model(tree), index as int),
        decreases FIELD_COUNT - index,
    {
        let field = Field::from_index(index);
        if root.has_repeated_at(field.name()) {
            return Some(field);
        }
        index += 1;
    }
    None
}

/// The syntax tree of a text that is strict JSON.
pub open spec fn strict_tree(text: Seq<char>) -> Option<SyntaxModel> {
    if json_document(text) is Ok {
        syntax_document(text)
    } else {
        None
    }
}

/// Where the last stretch of `name` without a `/` starts, looking at the
/// first `end` characters.
pub open spec fn segment_start(name: Seq<char>, end: int) -> int
    decreases end,
{
    if end <= 0 {
        0
    } else if name[end - 1] == '/' {
        end
    } else {
        segment_start(name, end - 1)
    }
}

/// What follows the last `/` of `name`; the whole of a name without one.
pub open spec fn last_segment(name: Seq<char>) -> Seq<char> {
    name.subrange(segment_start(name, name.len() as int), name.len() as int)
}

/// The name of the one command of a package: what follows the last `/`
/// of the package's name.
pub fn command_name(name: &str) -> (command: String)
    ensures
        command@ == last_segment(name@),
{
    let chars = chars_of(name);
    let mut start: usize = chars.len();
    while start > 0 && chars[start - 1] != '/'
        invariant
            start <= chars.len(),
            chars@ == name@,
            segment_start(name@, name@.len() as int) == segment_start(name@, start as int),
        decreases start,
    {
        start -= 1;
    }
    name.substring_char(start, chars.len()).to_owned()
}

/// The commands that a `bin` field names, given the package's name.
pub open spec fn commands_of(bin: BinModel, name: Option<Seq<char>>) -> Result<
    Seq<(Seq<char>, Seq<char>)>,
    ErrorKindModel,
> {
    match bin {
        BinModel::Object(paths) => Ok(paths),
        BinModel::String(path) => match name {
            Some(name) => Ok(seq![(last_segment(name), path)]),
            None => Err(ErrorKindModel::NameRequired),
        },
    }
}

impl PackageJsonParser {
    /// What validating against the syntax tree `root` gives: the report
    /// of the first field, in order, that breaks a rule, with the text
    /// and the path of the manifest.
    pub open spec fn validation(&self, root: Option<SyntaxModel>) -> Result<(), ReportModel> {
        match self.first_violation(root, 0) {
            None => Ok(()),
            Some(diagnostic) => Err(
                ReportModel { diagnostic, source: self@.raw_source, path: self@.raw_path },
            ),
        }
    }

    /// The diagnostics of all the fields, from position `from` of the
    /// order on, that break a rule: of each its first, in order.
    pub open spec fn all_violations(&self, root: Option<SyntaxModel>, from: int) -> Seq<
        DiagnosticModel,
    >
        decreases FIELD_COUNT - from,
    {
        if from < 0 || from >= FIELD_COUNT {
            Seq::empty()
        } else {
            match self.field_violation(Field::at(from), root) {
                Some(diagnostic) => seq![diagnostic] + self.all_violations(root, from + 1),
                None => self.all_violations(root, from + 1),
            }
        }
    }

    /// The first of all the diagnostics is the one that validating stops
    /// at, and there is none where validating succeeds.
    pub proof fn lemma_first_of_all(&self, root: Option<SyntaxModel>, from: int)
        requires
            0 <= from <= FIELD_COUNT,
        ensures
            match self.first_violation(root, from) {
                Some(diagnostic) => self.all_violations(root, from).len() > 0
                    && self.all_violations(root, from)[0] == diagnostic,
                None => self.all_violations(root, from).len() == 0,
            },
        decreases FIELD_COUNT - from,
    {
        if from < FIELD_COUNT {
            self.lemma_first_of_all(root, from + 1);
        }
    }

    /// The syntax tree of the manifest's text, where it has a text.
    pub open spec fn source_tree(&self) -> Option<SyntaxModel> {
        match self@.raw_source {
            Some(text) => strict_tree(text),
            None => None,
        }
    }

    fn handle_error(&self, outcome: Result<(), Diagnostic>) -> (handled: Result<(), Report>)
        ensures
            validation_model(handled) == (match outcome {
                Ok(_) => Ok(()),
                Err(diagnostic) => Err(
                    ReportModel {
                        diagnostic: diagnostic@,
                        source: self@.raw_source,
                        path: self@.raw_path,
                    },
                ),
            }),
    {
        match outcome {
            Ok(_) => Ok(()),
            Err(diagnostic) => Err(
                Report {
                    diagnostic,
                    source: self.__raw_source.clone(),
                    path: self.__raw_path.clone(),
                },
            ),
        }
    }

    /// Validates every field that is there, in order, against the syntax
    /// tree `root`, and stops at the first that breaks a rule.
    pub fn validate_with(&self, root: Option<&SyntaxValue>) -> (outcome: Result<(), Report>)
        ensures
            validation_model(outcome) == self.validation(node_model(root)),
    {
        let mut index: usize = 0;
        while index < FIELD_COUNT
            invariant
                index <= FIELD_COUNT,
                self.first_violation(node_model(root), 0) == self.first_violation(
                    node_model(root),
                    index as int,
                ),
            decreases FIELD_COUNT - index,
        {
            let checked = self.validate_field(Field::from_index(index), root);
            if checked.is_err() {
                return self.handle_error(checked);
            }
            index += 1;
        }
        Ok(())
    }

    /// Validates every field that is there, in order, against the syntax
    /// tree `root`, and gathers what each reports.
    pub fn validate_all_with(&self, root: Option<&SyntaxValue>) -> (found: Vec<Diagnostic>)
        ensures
            found.deep_view() == self.all_violations(node_model(root), 0),
    {
        let mut found: Vec<Diagnostic> = Vec::new();
        let mut index: usize = 0;
        assert(found.deep_view() + self.all_violations(node_model(root), 0)
            =~= self.all_violations(node_model(root), 0));
        while index < FIELD_COUNT
            invariant
                index <= FIELD_COUNT,
                found.deep_view() + self.all_violations(node_model(root), index as int)
                    == self.all_violations(node_model(root), 0),
            decreases FIELD_COUNT - index,
        {
            let ghost before = found.deep_view();
            match self.validate_field(Field::from_index(index), root) {
                Ok(_) => {},
                Err(diagnostic) => {
                    found.push(diagnostic);
                    assert(found.deep_view() =~= before.push(diagnostic@));
                    assert(before.push(diagnostic@) + self.all_violations(
                        node_model(root),
                        index + 1,
                    ) =~= before + (seq![diagnostic@] + self.all_violations(
                        node_model(root),
                        index + 1,
                    )));
                },
            }
            index += 1;
        }
        assert(found.deep_view() + Seq::<DiagnosticModel>::empty() =~= found.deep_view());
        found
    }

    /// Validates the manifest and gathers what every field reports, in
    /// place of stopping at the first.
    pub fn validate_all(&self) -> (found: Vec<Diagnostic>)
        ensures
            found.deep_view() == self.all_violations(self.source_tree(), 0),
    {
        let tree = match &self.__raw_source {
            Some(text) => parse_syntax(text.as_str()),
            None => None,
        };
        match &tree {
            Some(root) => self.validate_all_with(Some(root)),
            None => self.validate_all_with(None),
        }
    }

    /// Validates the manifest. The places of the diagnostics come from the
    /// syntax tree of the manifest's text; where the text has none, they
    /// are left open.
    pub fn validate(&self) -> (outcome: Result<(), Report>)
        ensures
            validation_model(outcome) == self.validation(self.source_tree()),
    {
        let tree = match &self.__raw_source {
            Some(text) => parse_syntax(text.as_str()),
            None => None,
        };
        match &tree {
            Some(root) => self.validate_with(Some(root)),
            None => self.validate_with(None),
        }
    }

    /// Makes the manifest of a text from what the two parsers read the
    /// text as.
    pub fn from_document(
        content: &str,
        path: Option<&str>,
        document: Result<JsonValue, JsonSyntaxError>,
        tree: Option<&SyntaxValue>,
    ) -> (outcome: Result<PackageJsonParser, ErrorKind>)
        ensures
            parse_model(outcome) == parse_outcome(
                content@,
                match path {
                    Some(path) => Some(path@),
                    None => None,
                },
                match document {
                    Ok(value) => Ok(value@),
                    Err(error) => Err(error@),
                },
                node_model(tree),
            ),
    {
        let fault = match document {
            Err(error) => ParseFault::Syntax(error),
            Ok(value) => match PackageJsonParser::decode(&value) {
                Err(error) => ParseFault::Decode(error),
                Ok(manifest) => match find_repeated_field(tree) {
                    Some(field) => ParseFault::Decode(
                        DecodeError::Field {
                            field,
                            flaw: Flaw { item: None, member: None, fault: Fault::Repeated },
                        },
                    ),
                    None => {
                        let mut manifest = manifest;
                        manifest.__raw_source = Some(content.to_owned());
                        manifest.__raw_path = match path {
                            Some(path) => Some(path.to_owned()),
                            None => None,
                        };
                        return Ok(manifest);
                    },
                },
            },
        };
        let place = match &fault {
            ParseFault::Syntax(error) => Some(find_line(content, error.line)),
            ParseFault::Decode(DecodeError::NotAnObject) => match tree {
                Some(root) => Some(root.range()),
                None => None,
            },
            ParseFault::Decode(DecodeError::Field { field, flaw }) => {
                let empty: [&str; 0] = [];
                assert(path_model(empty@) =~= Seq::<Seq<char>>::empty());
                value_range(member_named(tree, field.name()), &empty)
            },
        };
        let mut other_spans: Vec<LabeledSpan> = Vec::new();
        match place {
            Some(range) => {
                other_spans.push(LabeledSpan { label: "here".to_owned(), range });
            },
            None => {},
        }
        let error = JsonParseError {
            src: content.to_owned(),
            name: match path {
                Some(path) => Some(path.to_owned()),
                None => None,
            },
            primary_span: Some(ByteRange { start: 0, end: content.len() }),
            other_spans,
            advice: Some("Please check the JSON syntax".to_owned()),
            source: Some(fault),
        };
        assert(error@.other_spans =~= match place {
            Some(range) => seq![LabeledSpanModel { label: "here"@, range }],
            None => Seq::empty(),
        });
        match path {
            Some(_) => Err(ErrorKind::JsonFileParseError(error)),
            None => Err(ErrorKind::JsonStrParseError(error)),
        }
    }

    /// Parses a manifest from its text. A text that is no strict JSON is
    /// refused, and so is one in which a field has the wrong shape.
    pub fn parse_str(content: &str) -> (outcome: Result<PackageJsonParser, ErrorKind>)
        ensures
            parse_model(outcome) == parse_outcome(
                content@,
                None,
                json_document(content@),
                strict_tree(content@),
            ),
            json_document(content@) is Err ==> outcome is Err,
    {
        let document = parse_value(content);
        let tree = parse_syntax(content);
        match &tree {
            Some(root) => PackageJsonParser::from_document(content, None, document, Some(root)),
            None => PackageJsonParser::from_document(content, None, document, None),
        }
    }

    /// Parses a manifest from the text `content` of the file at `path`,
    /// and keeps the path.
    pub fn parse(path: &str, content: &str) -> (outcome: Result<PackageJsonParser, ErrorKind>)
        ensures
            parse_model(outcome) == parse_outcome(
                content@,
                Some(path@),
                json_document(content@),
                strict_tree(content@),
            ),
            json_document(content@) is Err ==> outcome is Err,
    {
        let document = parse_value(content);
        let tree = parse_syntax(content);
        match &tree {
            Some(root) => PackageJsonParser::from_document(
                content,
                Some(path),
                document,
                Some(root),
            ),
            None => PackageJsonParser::from_document(content, Some(path), document, None),
        }
    }

    /// The commands of the package by name. A `bin` that is one path names
    /// one command, called as the last segment of the package's name; for
    /// that the manifest must have a name.
    pub fn bin_to_hash_map(&self) -> (outcome: Result<StringMap, ErrorKind>)
        requires
            self.bin is Some,
        ensures
            (match outcome {
                Ok(commands) => Ok(commands@),
                Err(error) => Err(error@),
            }) == commands_of(self@.bin->Some_0, self@.name),
    {
        match &self.bin {
            Some(Bin::Object(paths)) => Ok(paths.clone()),
            Some(Bin::String(path)) => match &self.name {
                Some(name) => {
                    let commands = StringMap::new().with(command_name(name.as_str()), path.clone());
                    Ok(commands)
                },
                None => Err(ErrorKind::NameRequired),
            },
            None => Err(ErrorKind::NameRequired),
        }
    }
}

} // verus!
