//! The fields that take more than one shape and have no rule: `keywords`,
//! `main`, `readme`, `bin` and `directories`.

use crate::ext::codec::{
    fields_model, flag_of, lemma_record_required, lemma_record_text, lemma_text_list_round_trip,
    lemma_text_map_distinct, lemma_text_map_round_trip, optional_text, optional_text_value,
    read_flag, read_optional_text, read_required_text, read_text, read_text_list, read_text_map,
    record_value, required_text, text_list_of, text_list_value, text_map_of, text_map_value,
    text_value, write_optional_text, write_record, write_text, write_text_list, write_text_map,
    wrong_type, Codec, Fault, Flaw, Member,
};
use crate::ext::diagnostic::{Diagnostic, DiagnosticModel};
use crate::ext::validator::Validator;
use crate::json::{lemma_object_view, JsonModel, JsonValue};
use crate::string_map::StringMap;
use crate::syntax::{ObjectProp, PropModel};
use vstd::prelude::*;

verus! {

/// The `keywords` field: one keyword, or a list of them.
#[derive(Clone, Debug, PartialEq, Eq)]
pub enum Keywords {
    String(String),
    Array(Vec<String>),
}

/// What a `Keywords` stands for.
pub enum KeywordsModel {
    String(Seq<char>),
    Array(Seq<Seq<char>>),
}

impl View for Keywords {
    type V = KeywordsModel;

    open spec fn view(&self) -> KeywordsModel {
        match self {
            Keywords::String(keyword) => KeywordsModel::String(keyword@),
            Keywords::Array(keywords) => KeywordsModel::Array(keywords.deep_view()),
        }
    }
}

impl DeepView for Keywords {
    type V = KeywordsModel;

    open spec fn deep_view(&self) -> KeywordsModel {
        self@
    }
}

impl Codec for Keywords {
    open spec fn decoded(value: JsonModel) -> Result<KeywordsModel, Flaw> {
        match value {
            JsonModel::String(keyword) => Ok(KeywordsModel::String(keyword)),
            _ => match text_list_of(value) {
                Ok(keywords) => Ok(KeywordsModel::Array(keywords)),
                Err(flaw) => Err(flaw),
            },
        }
    }

    open spec fn encoded(model: KeywordsModel) -> JsonModel {
        match model {
            KeywordsModel::String(keyword) => text_value(keyword),
            KeywordsModel::Array(keywords) => text_list_value(keywords),
        }
    }

    fn decode(value: &JsonValue) -> (outcome: Result<Self, Flaw>) {
        match value {
            JsonValue::String(_) => Ok(Keywords::String(read_text(value)?)),
            _ => Ok(Keywords::Array(read_text_list(value)?)),
        }
    }

    fn encode(&self) -> (value: JsonValue) {
        match self {
            Keywords::String(keyword) => write_text(keyword),
            Keywords::Array(keywords) => write_text_list(keywords),
        }
    }

    proof fn lemma_round_trip(value: JsonModel) {
        if !(value is String) {
            lemma_text_list_round_trip(text_list_of(value)->Ok_0);
        }
    }
}

impl Validator for Keywords {
    /// Keywords have no rule to break.
    open spec fn violation(&self, prop: Option<PropModel>) -> Option<DiagnosticModel> {
        None
    }

    fn validate(&self, _prop: Option<&ObjectProp>) -> (outcome: Result<(), Diagnostic>) {
        Ok(())
    }
}

/// The `main` field: the entry point of the package as a path, or a flag.
#[derive(Clone, Debug, PartialEq, Eq)]
pub enum Main {
    Bool(bool),
    Str(String),
}

/// What a `Main` stands for.
pub enum MainModel {
    Bool(bool),
    Str(Seq<char>),
}

impl View for Main {
    type V = MainModel;

    open spec fn view(&self) -> MainModel {
        match self {
            Main::Bool(flag) => MainModel::Bool(*flag),
            Main::Str(path) => MainModel::Str(path@),
        }
    }
}

impl DeepView for Main {
    type V = MainModel;

    open spec fn deep_view(&self) -> MainModel {
        self@
    }
}

impl Codec for Main {
    open spec fn decoded(value: JsonModel) -> Result<MainModel, Flaw> {
        match value {
            JsonModel::String(path) => Ok(MainModel::Str(path)),
            _ => match flag_of(value) {
                Ok(flag) => Ok(MainModel::Bool(flag)),
                Err(flaw) => Err(flaw),
            },
        }
    }

    open spec fn encoded(model: MainModel) -> JsonModel {
        match model {
            MainModel::Bool(flag) => JsonModel::Bool(flag),
            MainModel::Str(path) => text_value(path),
        }
    }

    fn decode(value: &JsonValue) -> (outcome: Result<Self, Flaw>) {
        match value {
            JsonValue::String(_) => Ok(Main::Str(read_text(value)?)),
            _ => Ok(Main::Bool(read_flag(value)?)),
        }
    }

    fn encode(&self) -> (value: JsonValue) {
        match self {
            Main::Bool(flag) => JsonValue::Bool(*flag),
            Main::Str(path) => write_text(path),
        }
    }

    proof fn lemma_round_trip(value: JsonModel) {
    }
}

impl Validator for Main {
    /// An entry point has no rule to break.
    open spec fn violation(&self, prop: Option<PropModel>) -> Option<DiagnosticModel> {
        None
    }

    fn validate(&self, _prop: Option<&ObjectProp>) -> (outcome: Result<(), Diagnostic>) {
        Ok(())
    }
}

/// The object form of `readme`: the kind of the text and the text.
#[derive(Clone, Debug, PartialEq, Eq)]
pub struct ReadmeContent {
    /// The member `type`.
    pub type_: String,
    pub value: String,
}

/// What a `ReadmeContent` stands for.
pub struct ReadmeContentModel {
    pub type_: Seq<char>,
    pub value: Seq<char>,
}

impl View for ReadmeContent {
    type V = ReadmeContentModel;

    open spec fn view(&self) -> ReadmeContentModel {
        ReadmeContentModel { type_: self.type_@, value: self.value@ }
    }
}

impl DeepView for ReadmeContent {
    type V = ReadmeContentModel;

    open spec fn deep_view(&self) -> ReadmeContentModel {
        self@
    }
}

impl ReadmeContentModel {
    /// The members of the object that stands for the value.
    pub open spec fn fields(self) -> Seq<(Member, Option<JsonModel>)> {
        seq![
            (Member::Type, Some(JsonModel::String(self.type_))),
            (Member::Value, Some(JsonModel::String(self.value))),
        ]
    }
}

impl Codec for ReadmeContent {
    open spec fn decoded(value: JsonModel) -> Result<ReadmeContentModel, Flaw> {
        match value {
            JsonModel::Object(members) => {
                let type_ = required_text(members, Member::Type);
                let text = required_text(members, Member::Value);
                if type_ is Err {
                    Err(type_->Err_0)
                } else if text is Err {
                    Err(text->Err_0)
                } else {
                    Ok(ReadmeContentModel { type_: type_->Ok_0, value: text->Ok_0 })
                }
            },
            _ => Err(wrong_type()),
        }
    }

    open spec fn encoded(model: ReadmeContentModel) -> JsonModel {
        record_value(model.fields())
    }

    fn decode(value: &JsonValue) -> (outcome: Result<Self, Flaw>) {
        let members = match value {
            JsonValue::Object(members) => members,
            _ => {
                return Err(Flaw { item: None, member: None, fault: Fault::WrongType });
            },
        };
        proof {
            lemma_object_view(*members);
        }
        let type_ = read_required_text(members, Member::Type)?;
        let value = read_required_text(members, Member::Value)?;
        Ok(ReadmeContent { type_, value })
    }

    fn encode(&self) -> (value: JsonValue) {
        let fields = vec![
            (Member::Type, Some(write_text(&self.type_))),
            (Member::Value, Some(write_text(&self.value))),
        ];
        assert(fields_model(fields@) =~= self@.fields());
        write_record(fields)
    }

    proof fn lemma_round_trip(value: JsonModel) {
        let model = Self::decoded(value)->Ok_0;
        lemma_record_required(model.fields(), 0, model.type_);
        lemma_record_required(model.fields(), 1, model.value);
    }
}

/// The `readme` field: the text as a string, or an object.
#[derive(Clone, Debug, PartialEq, Eq)]
pub enum Readme {
    String(String),
    Object(ReadmeContent),
}

/// What a `Readme` stands for.
pub enum ReadmeModel {
    String(Seq<char>),
    Object(ReadmeContentModel),
}

impl View for Readme {
    type V = ReadmeModel;

    open spec fn view(&self) -> ReadmeModel {
        match self {
            Readme::String(text) => ReadmeModel::String(text@),
            Readme::Object(content) => ReadmeModel::Object(content@),
        }
    }
}

impl DeepView for Readme {
    type V = ReadmeModel;

    open spec fn deep_view(&self) -> ReadmeModel {
        self@
    }
}

impl Codec for Readme {
    open spec fn decoded(value: JsonModel) -> Result<ReadmeModel, Flaw> {
        match value {
            JsonModel::String(text) => Ok(ReadmeModel::String(text)),
            _ => match ReadmeContent::decoded(value) {
                Ok(content) => Ok(ReadmeModel::Object(content)),
                Err(flaw) => Err(flaw),
            },
        }
    }

    open spec fn encoded(model: ReadmeModel) -> JsonModel {
        match model {
            ReadmeModel::String(text) => text_value(text),
            ReadmeModel::Object(content) => ReadmeContent::encoded(content),
        }
    }

    fn decode(value: &JsonValue) -> (outcome: Result<Self, Flaw>) {
        match value {
            JsonValue::String(_) => Ok(Readme::String(read_text(value)?)),
            _ => Ok(Readme::Object(ReadmeContent::decode(value)?)),
        }
    }

    fn encode(&self) -> (value: JsonValue) {
        match self {
            Readme::String(text) => write_text(text),
            Readme::Object(content) => content.encode(),
        }
    }

    proof fn lemma_round_trip(value: JsonModel) {
        if !(value is String) {
            ReadmeContent::lemma_round_trip(value);
        }
    }
}

impl Validator for Readme {
    /// A readme has no rule to break.
    open spec fn violation(&self, prop: Option<PropModel>) -> Option<DiagnosticModel> {
        None
    }

    fn validate(&self, _prop: Option<&ObjectProp>) -> (outcome: Result<(), Diagnostic>) {
        Ok(())
    }
}

/// The `bin` field: the path of the one command of the package, or the
/// paths of its commands by name.
#[derive(Clone, Debug, PartialEq, Eq)]
pub enum Bin {
    String(String),
    Object(StringMap),
}

/// What a `Bin` stands for.
pub enum BinModel {
    String(Seq<char>),
    Object(Seq<(Seq<char>, Seq<char>)>),
}

impl View for Bin {
    type V = BinModel;

    open spec fn view(&self) -> BinModel {
        match self {
            Bin::String(path) => BinModel::String(path@),
            Bin::Object(paths) => BinModel::Object(paths@),
        }
    }
}

impl DeepView for Bin {
    type V = BinModel;

    open spec fn deep_view(&self) -> BinModel {
        self@
    }
}

impl Codec for Bin {
    open spec fn decoded(value: JsonModel) -> Result<BinModel, Flaw> {
        match value {
            JsonModel::String(path) => Ok(BinModel::String(path)),
            _ => match text_map_of(value) {
                Ok(paths) => Ok(BinModel::Object(paths)),
                Err(flaw) => Err(flaw),
            },
        }
    }

    open spec fn encoded(model: BinModel) -> JsonModel {
        match model {
            BinModel::String(path) => text_value(path),
            BinModel::Object(paths) => text_map_value(paths),
        }
    }

    fn decode(value: &JsonValue) -> (outcome: Result<Self, Flaw>) {
        match value {
            JsonValue::String(_) => Ok(Bin::String(read_text(value)?)),
            _ => Ok(Bin::Object(read_text_map(value)?)),
        }
    }

    fn encode(&self) -> (value: JsonValue) {
        match self {
            Bin::String(path) => write_text(path),
            Bin::Object(paths) => write_text_map(paths),
        }
    }

    proof fn lemma_round_trip(value: JsonModel) {
        if !(value is String) {
            lemma_text_map_distinct(value);
            lemma_text_map_round_trip(text_map_of(value)->Ok_0);
        }
    }
}

impl Validator for Bin {
    /// The commands have no rule to break.
    open spec fn violation(&self, prop: Option<PropModel>) -> Option<DiagnosticModel> {
        None
    }

    fn validate(&self, _bin: Option<&ObjectProp>) -> (outcome: Result<(), Diagnostic>) {
        Ok(())
    }
}

/// The `directories` field: where in the package its parts lie.
#[derive(Clone, Debug, PartialEq, Eq)]
pub struct Directories {
    pub bin: Option<String>,
    pub lib: Option<String>,
    pub man: Option<String>,
    pub doc: Option<String>,
    pub example: Option<String>,
    pub test: Option<String>,
}

/// What a `Directories` stands for.
pub struct DirectoriesModel {
    pub bin: Option<Seq<char>>,
    pub lib: Option<Seq<char>>,
    pub man: Option<Seq<char>>,
    pub doc: Option<Seq<char>>,
    pub example: Option<Seq<char>>,
    pub test: Option<Seq<char>>,
}

impl View for Directories {
    type V = DirectoriesModel;

    open spec fn view(&self) -> DirectoriesModel {
        DirectoriesModel {
            bin: self.bin.deep_view(),
            lib: self.lib.deep_view(),
            man: self.man.deep_view(),
            doc: self.doc.deep_view(),
            example: self.example.deep_view(),
            test: self.test.deep_view(),
        }
    }
}

impl DeepView for Directories {
    type V = DirectoriesModel;

    open spec fn deep_view(&self) -> DirectoriesModel {
        self@
    }
}

impl DirectoriesModel {
    /// The members of the object that stands for the value.
    pub open spec fn fields(self) -> Seq<(Member, Option<JsonModel>)> {
        seq![
            (Member::Bin, optional_text_value(self.bin)),
            (Member::Lib, optional_text_value(self.lib)),
            (Member::Man, optional_text_value(self.man)),
            (Member::Doc, optional_text_value(self.doc)),
            (Member::Example, optional_text_value(self.example)),
            (Member::Test, optional_text_value(self.test)),
        ]
    }
}

impl Codec for Directories {
    open spec fn decoded(value: JsonModel) -> Result<DirectoriesModel, Flaw> {
        match value {
            JsonModel::Object(members) => {
                let bin = optional_text(members, Member::Bin);
                let lib = optional_text(members, Member::Lib);
                let man = optional_text(members, Member::Man);
                let doc = optional_text(members, Member::Doc);
                let example = optional_text(members, Member::Example);
                let test = optional_text(members, Member::Test);
                if bin is Err {
                    Err(bin->Err_0)
                } else if lib is Err {
                    Err(lib->Err_0)
                } else if man is Err {
                    Err(man->Err_0)
                } else if doc is Err {
                    Err(doc->Err_0)
                } else if example is Err {
                    Err(example->Err_0)
                } else if test is Err {
                    Err(test->Err_0)
                } else {
                    Ok(
                        DirectoriesModel {
                            bin: bin->Ok_0,
                            lib: lib->Ok_0,
                            man: man->Ok_0,
                            doc: doc->Ok_0,
                            example: example->Ok_0,
                            test: test->Ok_0,
                        },
                    )
                }
            },
            _ => Err(wrong_type()),
        }
    }

    open spec fn encoded(model: DirectoriesModel) -> JsonModel {
        record_value(model.fields())
    }

    fn decode(value: &JsonValue) -> (outcome: Result<Self, Flaw>) {
        let members = match value {
            JsonValue::Object(members) => members,
            _ => {
                return Err(Flaw { item: None, member: None, fault: Fault::WrongType });
            },
        };
        proof {
            lemma_object_view(*members);
        }
        let bin = read_optional_text(members, Member::Bin)?;
        let lib = read_optional_text(members, Member::Lib)?;
        let man = read_optional_text(members, Member::Man)?;
        let doc = read_optional_text(members, Member::Doc)?;
        let example = read_optional_text(members, Member::Example)?;
        let test = read_optional_text(members, Member::Test)?;
        Ok(Directories { bin, lib, man, doc, example, test })
    }

    fn encode(&self) -> (value: JsonValue) {
        let fields = vec![
            (Member::Bin, write_optional_text(&self.bin)),
            (Member::Lib, write_optional_text(&self.lib)),
            (Member::Man, write_optional_text(&self.man)),
            (Member::Doc, write_optional_text(&self.doc)),
            (Member::Example, write_optional_text(&self.example)),
            (Member::Test, write_optional_text(&self.test)),
        ];
        assert(fields_model(fields@) =~= self@.fields());
        write_record(fields)
    }

    proof fn lemma_round_trip(value: JsonModel) {
        let model = Self::decoded(value)->Ok_0;
        lemma_record_text(model.fields(), 0, model.bin);
        lemma_record_text(model.fields(), 1, model.lib);
        lemma_record_text(model.fields(), 2, model.man);
        lemma_record_text(model.fields(), 3, model.doc);
        lemma_record_text(model.fields(), 4, model.example);
        lemma_record_text(model.fields(), 5, model.test);
    }
}

impl Validator for Directories {
    /// The directories have no rule to break.
    open spec fn violation(&self, prop: Option<PropModel>) -> Option<DiagnosticModel> {
        None
    }

    fn validate(&self, _prop: Option<&ObjectProp>) -> (outcome: Result<(), Diagnostic>) {
        Ok(())
    }
}

} // verus!
