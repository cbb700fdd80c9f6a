//! The manifest: every field that it knows, decoded, and the rules that
//! it holds them to.

use crate::def::bugs::{Bugs, BugsModel};
use crate::def::entry_fields::{
    Bin, BinModel, Directories, DirectoriesModel, Keywords, KeywordsModel, Main, MainModel, Readme,
    ReadmeModel,
};
use crate::def::flag_fields::{EngineStrict, Private};
use crate::def::license::License;
use crate::def::list_fields::{Cpu, Files, Man, Os, Types};
use crate::def::map_fields::{
    Dependencies, DevDependencies, Engines, OptionalDependencies, PeerDependencies, Scripts,
};
use crate::def::module_type::Type;
use crate::def::name::Name;
use crate::def::package_manager::PackageManager;
use crate::def::person::{Contributors, Maintainers, Person, PersonModel};
use crate::def::publish_config::{PublishConfig, PublishConfigModel};
use crate::def::repository::{RepositoryOrString, RepositoryOrStringModel};
use crate::def::text_fields::{Description, HomePage, Module, Typings};
use crate::def::version::Version;
use crate::err::DecodeError;
use crate::ext::codec::{
    distinct_slots, lemma_lookup_present, present, slots_model, write_object, Codec, Fault, Flaw,
};
use crate::ext::diagnostic::{Diagnostic, DiagnosticModel};
use crate::ext::range::{member_named, member_of, node_model};
use crate::ext::validator::Validator;
use crate::field::{lemma_field_keys, Field, FIELD_COUNT};
use crate::json::{
    find_member, lemma_object_view, lookup, members_model, Found, JsonModel, JsonValue,
};
use crate::syntax::{SyntaxModel, SyntaxValue};
use vstd::prelude::*;

verus! {

/// A decoded manifest. A field is `None` exactly where the manifest does
/// not hold its key.
#[derive(Clone, Debug, PartialEq, Eq)]
pub struct PackageJsonParser {
    pub name: Option<Name>,
    pub version: Option<Version>,
    pub description: Option<Description>,
    pub keywords: Option<Keywords>,
    pub homepage: Option<HomePage>,
    pub bugs: Option<Bugs>,
    pub license: Option<License>,
    pub author: Option<Person>,
    pub contributors: Option<Contributors>,
    pub maintainers: Option<Maintainers>,
    pub files: Option<Files>,
    pub main: Option<Main>,
    /// The key `type`.
    pub type_: Option<Type>,
    pub types: Option<Types>,
    pub typings: Option<Typings>,
    /// The key `packageManager`.
    pub package_manager: Option<PackageManager>,
    /// The key `publishConfig`.
    pub publish_config: Option<PublishConfig>,
    pub bin: Option<Bin>,
    pub man: Option<Man>,
    pub directories: Option<Directories>,
    pub repository: Option<RepositoryOrString>,
    pub module: Option<Module>,
    pub readme: Option<Readme>,
    pub private: Option<Private>,
    pub engines: Option<Engines>,
    /// The key `engineStrict`.
    pub engine_strict: Option<EngineStrict>,
    pub os: Option<Os>,
    pub cpu: Option<Cpu>,
    pub scripts: Option<Scripts>,
    pub dependencies: Option<Dependencies>,
    /// The key `devDependencies`.
    pub dev_dependencies: Option<DevDependencies>,
    /// The key `optionalDependencies`.
    pub optional_dependencies: Option<OptionalDependencies>,
    /// The key `peerDependencies`.
    pub peer_dependencies: Option<PeerDependencies>,
    /// The text that the manifest was parsed from.
    pub __raw_source: Option<String>,
    /// The path of the file that the text was read from.
    pub __raw_path: Option<String>,
}

/// What a `PackageJsonParser` stands for.
pub struct PackageJsonParserModel {
    pub name: Option<Seq<char>>,
    pub version: Option<Seq<char>>,
    pub description: Option<Seq<char>>,
    pub keywords: Option<KeywordsModel>,
    pub homepage: Option<Seq<char>>,
    pub bugs: Option<BugsModel>,
    pub license: Option<Seq<char>>,
    pub author: Option<PersonModel>,
    pub contributors: Option<Seq<PersonModel>>,
    pub maintainers: Option<Seq<PersonModel>>,
    pub files: Option<Seq<Seq<char>>>,
    pub main: Option<MainModel>,
    pub type_: Option<Seq<char>>,
    pub types: Option<Seq<Seq<char>>>,
    pub typings: Option<Seq<char>>,
    pub package_manager: Option<Seq<char>>,
    pub publish_config: Option<PublishConfigModel>,
    pub bin: Option<BinModel>,
    pub man: Option<Seq<Seq<char>>>,
    pub directories: Option<DirectoriesModel>,
    pub repository: Option<RepositoryOrStringModel>,
    pub module: Option<Seq<char>>,
    pub readme: Option<ReadmeModel>,
    pub private: Option<bool>,
    pub engines: Option<Seq<(Seq<char>, Seq<char>)>>,
    pub engine_strict: Option<bool>,
    pub os: Option<Seq<Seq<char>>>,
    pub cpu: Option<Seq<Seq<char>>>,
    pub scripts: Option<Seq<(Seq<char>, Seq<char>)>>,
    pub dependencies: Option<Seq<(Seq<char>, Seq<char>)>>,
    pub dev_dependencies: Option<Seq<(Seq<char>, Seq<char>)>>,
    pub optional_dependencies: Option<Seq<(Seq<char>, Seq<char>)>>,
    pub peer_dependencies: Option<Seq<(Seq<char>, Seq<char>)>>,
    pub raw_source: Option<Seq<char>>,
    pub raw_path: Option<Seq<char>>,
}

impl View for PackageJsonParser {
    type V = PackageJsonParserModel;

    open spec fn view(&self) -> PackageJsonParserModel {
        PackageJsonParserModel {
            name: self.name.deep_view(),
            version: self.version.deep_view(),
            description: self.description.deep_view(),
            keywords: self.keywords.deep_view(),
            homepage: self.homepage.deep_view(),
            bugs: self.bugs.deep_view(),
            license: self.license.deep_view(),
            author: self.author.deep_view(),
            contributors: self.contributors.deep_view(),
            maintainers: self.maintainers.deep_view(),
            files: self.files.deep_view(),
            main: self.main.deep_view(),
            type_: self.type_.deep_view(),
            types: self.types.deep_view(),
            typings: self.typings.deep_view(),
            package_manager: self.package_manager.deep_view(),
            publish_config: self.publish_config.deep_view(),
            bin: self.bin.deep_view(),
            man: self.man.deep_view(),
            directories: self.directories.deep_view(),
            repository: self.repository.deep_view(),
            module: self.module.deep_view(),
            readme: self.readme.deep_view(),
            private: self.private.deep_view(),
            engines: self.engines.deep_view(),
            engine_strict: self.engine_strict.deep_view(),
            os: self.os.deep_view(),
            cpu: self.cpu.deep_view(),
            scripts: self.scripts.deep_view(),
            dependencies: self.dependencies.deep_view(),
            dev_dependencies: self.dev_dependencies.deep_view(),
            optional_dependencies: self.optional_dependencies.deep_view(),
            peer_dependencies: self.peer_dependencies.deep_view(),
            raw_source: self.__raw_source.deep_view(),
            raw_path: self.__raw_path.deep_view(),
        }
    }
}

impl DeepView for PackageJsonParser {
    type V = PackageJsonParserModel;

    open spec fn deep_view(&self) -> PackageJsonParserModel {
        self@
    }
}

/// What the key `field` of an object decodes to: nothing where the key is
/// absent, a flaw where it stands twice or its value has not the shape of
/// `T`.
pub open spec fn slot<T: Codec>(members: Seq<(Seq<char>, JsonModel)>, field: Field) -> Result<
    Option<T::V>,
    DecodeError,
> {
    match lookup(members, field.key()) {
        Found::Absent => Ok(None),
        Found::Repeated => Err(
            DecodeError::Field {
                field,
                flaw: Flaw { item: None, member: None, fault: Fault::Repeated },
            },
        ),
        Found::Once(value) => match T::decoded(value) {
            Ok(model) => Ok(Some(model)),
            Err(flaw) => Err(DecodeError::Field { field, flaw }),
        },
    }
}

/// The JSON value that stands for a field, where the field is there.
pub open spec fn slot_value<T: Codec>(model: Option<T::V>) -> Option<JsonModel> {
    match model {
        Some(model) => Some(T::encoded(model)),
        None => None,
    }
}

/// What the outcome of reading a slot stands for.
pub open spec fn slot_model<T: Codec>(outcome: Result<Option<T>, DecodeError>) -> Result<
    Option<T::V>,
    DecodeError,
> {
    match outcome {
        Ok(value) => Ok(value.deep_view()),
        Err(error) => Err(error),
    }
}

/// Reads the key `field` of an object.
pub fn read_slot<T: Codec>(members: &Vec<(String, JsonValue)>, field: Field) -> (outcome: Result<
    Option<T>,
    DecodeError,
>)
    ensures
        slot_model(outcome) == slot::<T>(members_model(members@), field),
{
    match find_member(members, field.name()) {
        Found::Absent => Ok(None),
        Found::Repeated => Err(
            DecodeError::Field {
                field,
                flaw: Flaw { item: None, member: None, fault: Fault::Repeated },
            },
        ),
        Found::Once(value) => match T::decode(value) {
            Ok(decoded) => Ok(Some(decoded)),
            Err(flaw) => Err(DecodeError::Field { field, flaw }),
        },
    }
}

/// Writes a field that may be missing.
pub fn write_slot<T: Codec>(value: &Option<T>) -> (written: Option<JsonValue>)
    ensures
        (match written {
            Some(value) => Some(value@),
            None => None,
        }) == slot_value::<T>(value.deep_view()),
{
    match value {
        Some(value) => Some(value.encode()),
        None => None,
    }
}

/// A slot, written among slots with distinct keys and read again, is the
/// same.
pub proof fn lemma_slot_round_trip<T: Codec>(
    members: Seq<(Seq<char>, JsonModel)>,
    field: Field,
    slots: Seq<(Seq<char>, Option<JsonModel>)>,
    k: int,
)
    requires
        slot::<T>(members, field) is Ok,
        distinct_slots(slots),
        0 <= k < slots.len(),
        slots[k] == (field.key(), slot_value::<T>(slot::<T>(members, field)->Ok_0)),
    ensures
        slot::<T>(present(slots), field) == slot::<T>(members, field),
{
    lemma_lookup_present(slots, k);
    match lookup(members, field.key()) {
        Found::Once(value) => {
            T::lemma_round_trip(value);
        },
        _ => {},
    }
}

impl PackageJsonParserModel {
    /// The slots of the object that stands for the manifest: every key
    /// in order, with the value of its field where the field is there.
    pub open spec fn slots(self) -> Seq<(Seq<char>, Option<JsonModel>)> {
        seq![
            (Field::Name.key(), slot_value::<Name>(self.name)),
            (Field::Version.key(), slot_value::<Version>(self.version)),
            (Field::Description.key(), slot_value::<Description>(self.description)),
            (Field::Keywords.key(), slot_value::<Keywords>(self.keywords)),
            (Field::Homepage.key(), slot_value::<HomePage>(self.homepage)),
            (Field::Bugs.key(), slot_value::<Bugs>(self.bugs)),
            (Field::License.key(), slot_value::<License>(self.license)),
            (Field::Author.key(), slot_value::<Person>(self.author)),
            (Field::Contributors.key(), slot_value::<Contributors>(self.contributors)),
            (Field::Maintainers.key(), slot_value::<Maintainers>(self.maintainers)),
            (Field::Files.key(), slot_value::<Files>(self.files)),
            (Field::Main.key(), slot_value::<Main>(self.main)),
            (Field::Type.key(), slot_value::<Type>(self.type_)),
            (Field::Types.key(), slot_value::<Types>(self.types)),
            (Field::Typings.key(), slot_value::<Typings>(self.typings)),
            (Field::PackageManager.key(), slot_value::<PackageManager>(self.package_manager)),
            (Field::PublishConfig.key(), slot_value::<PublishConfig>(self.publish_config)),
            (Field::Bin.key(), slot_value::<Bin>(self.bin)),
            (Field::Man.key(), slot_value::<Man>(self.man)),
            (Field::Directories.key(), slot_value::<Directories>(self.directories)),
            (Field::Repository.key(), slot_value::<RepositoryOrString>(self.repository)),
            (Field::Module.key(), slot_value::<Module>(self.module)),
            (Field::Readme.key(), slot_value::<Readme>(self.readme)),
            (Field::Private.key(), slot_value::<Private>(self.private)),
            (Field::Engines.key(), slot_value::<Engines>(self.engines)),
            (Field::EngineStrict.key(), slot_value::<EngineStrict>(self.engine_strict)),
            (Field::Os.key(), slot_value::<Os>(self.os)),
            (Field::Cpu.key(), slot_value::<Cpu>(self.cpu)),
            (Field::Scripts.key(), slot_value::<Scripts>(self.scripts)),
            (Field::Dependencies.key(), slot_value::<Dependencies>(self.dependencies)),
            (Field::DevDependencies.key(), slot_value::<DevDependencies>(self.dev_dependencies)),
            (
                Field::OptionalDependencies.key(),
                slot_value::<OptionalDependencies>(self.optional_dependencies),
            ),
            (Field::PeerDependencies.key(), slot_value::<PeerDependencies>(self.peer_dependencies)),
        ]
    }

    /// The JSON object that stands for the manifest: the fields that are
    /// there, in order.
    pub open spec fn encoded(self) -> JsonModel {
        JsonModel::Object(present(self.slots()))
    }

    /// What `value` decodes to: the manifest with every field that the
    /// object holds, or the flaw of the first key, in order, that does
    /// not decode.
    pub open spec fn decoded(value: JsonModel) -> Result<PackageJsonParserModel, DecodeError> {
        match value {
            JsonModel::Object(members) => match first_flaw(members, 0) {
                Some(flaw) => Err(flaw),
                None => Ok(
                    PackageJsonParserModel {
                        name: slot::<Name>(members, Field::Name)->Ok_0,
                        version: slot::<Version>(members, Field::Version)->Ok_0,
                        description: slot::<Description>(members, Field::Description)->Ok_0,
                        keywords: slot::<Keywords>(members, Field::Keywords)->Ok_0,
                        homepage: slot::<HomePage>(members, Field::Homepage)->Ok_0,
                        bugs: slot::<Bugs>(members, Field::Bugs)->Ok_0,
                        license: slot::<License>(members, Field::License)->Ok_0,
                        author: slot::<Person>(members, Field::Author)->Ok_0,
                        contributors: slot::<Contributors>(members, Field::Contributors)->Ok_0,
                        maintainers: slot::<Maintainers>(members, Field::Maintainers)->Ok_0,
                        files: slot::<Files>(members, Field::Files)->Ok_0,
                        main: slot::<Main>(members, Field::Main)->Ok_0,
                        type_: slot::<Type>(members, Field::Type)->Ok_0,
                        types: slot::<Types>(members, Field::Types)->Ok_0,
                        typings: slot::<Typings>(members, Field::Typings)->Ok_0,
                        package_manager: slot::<PackageManager>(
                            members,
                            Field::PackageManager,
                        )->Ok_0,
                        publish_config: slot::<PublishConfig>(members, Field::PublishConfig)->Ok_0,
                        bin: slot::<Bin>(members, Field::Bin)->Ok_0,
                        man: slot::<Man>(members, Field::Man)->Ok_0,
                        directories: slot::<Directories>(members, Field::Directories)->Ok_0,
                        repository: slot::<RepositoryOrString>(members, Field::Repository)->Ok_0,
                        module: slot::<Module>(members, Field::Module)->Ok_0,
                        readme: slot::<Readme>(members, Field::Readme)->Ok_0,
                        private: slot::<Private>(members, Field::Private)->Ok_0,
                        engines: slot::<Engines>(members, Field::Engines)->Ok_0,
                        engine_strict: slot::<EngineStrict>(members, Field::EngineStrict)->Ok_0,
                        os: slot::<Os>(members, Field::Os)->Ok_0,
                        cpu: slot::<Cpu>(members, Field::Cpu)->Ok_0,
                        scripts: slot::<Scripts>(members, Field::Scripts)->Ok_0,
                        dependencies: slot::<Dependencies>(members, Field::Dependencies)->Ok_0,
                        dev_dependencies: slot::<DevDependencies>(
                            members,
                            Field::DevDependencies,
                        )->Ok_0,
                        optional_dependencies: slot::<OptionalDependencies>(
                            members,
                            Field::OptionalDependencies,
                        )->Ok_0,
                        peer_dependencies: slot::<PeerDependencies>(
                            members,
                            Field::PeerDependencies,
                        )->Ok_0,
                        raw_source: None,
                        raw_path: None,
                    },
                ),
            },
            _ => Err(DecodeError::NotAnObject),
        }
    }
}

/// The key `field` of an object decodes: it is absent, or it stands once
/// with a value of the shape that the field asks for.
pub open spec fn field_decodes(members: Seq<(Seq<char>, JsonModel)>, field: Field) -> bool {
    match field {
        Field::Name => slot::<Name>(members, field) is Ok,
        Field::Version => slot::<Version>(members, field) is Ok,
        Field::Description => slot::<Description>(members, field) is Ok,
        Field::Keywords => slot::<Keywords>(members, field) is Ok,
        Field::Homepage => slot::<HomePage>(members, field) is Ok,
        Field::Bugs => slot::<Bugs>(members, field) is Ok,
        Field::License => slot::<License>(members, field) is Ok,
        Field::Author => slot::<Person>(members, field) is Ok,
        Field::Contributors => slot::<Contributors>(members, field) is Ok,
        Field::Maintainers => slot::<Maintainers>(members, field) is Ok,
        Field::Files => slot::<Files>(members, field) is Ok,
        Field::Main => slot::<Main>(members, field) is Ok,
        Field::Type => slot::<Type>(members, field) is Ok,
        Field::Types => slot::<Types>(members, field) is Ok,
        Field::Typings => slot::<Typings>(members, field) is Ok,
        Field::PackageManager => slot::<PackageManager>(members, field) is Ok,
        Field::PublishConfig => slot::<PublishConfig>(members, field) is Ok,
        Field::Bin => slot::<Bin>(members, field) is Ok,
        Field::Man => slot::<Man>(members, field) is Ok,
        Field::Directories => slot::<Directories>(members, field) is Ok,
        Field::Repository => slot::<RepositoryOrString>(members, field) is Ok,
        Field::Module => slot::<Module>(members, field) is Ok,
        Field::Readme => slot::<Readme>(members, field) is Ok,
        Field::Private => slot::<Private>(members, field) is Ok,
        Field::Engines => slot::<Engines>(members, field) is Ok,
        Field::EngineStrict => slot::<EngineStrict>(members, field) is Ok,
        Field::Os => slot::<Os>(members, field) is Ok,
        Field::Cpu => slot::<Cpu>(members, field) is Ok,
        Field::Scripts => slot::<Scripts>(members, field) is Ok,
        Field::Dependencies => slot::<Dependencies>(members, field) is Ok,
        Field::DevDependencies => slot::<DevDependencies>(members, field) is Ok,
        Field::OptionalDependencies => slot::<OptionalDependencies>(members, field) is Ok,
        Field::PeerDependencies => slot::<PeerDependencies>(members, field) is Ok,
    }
}

/// The flaw of the key `field` of an object, where the key does not
/// decode.
pub open spec fn field_flaw(members: Seq<(Seq<char>, JsonModel)>, field: Field) -> DecodeError {
    match field {
        Field::Name => slot::<Name>(members, field)->Err_0,
        Field::Version => slot::<Version>(members, field)->Err_0,
        Field::Description => slot::<Description>(members, field)->Err_0,
        Field::Keywords => slot::<Keywords>(members, field)->Err_0,
        Field::Homepage => slot::<HomePage>(members, field)->Err_0,
        Field::Bugs => slot::<Bugs>(members, field)->Err_0,
        Field::License => slot::<License>(members, field)->Err_0,
        Field::Author => slot::<Person>(members, field)->Err_0,
        Field::Contributors => slot::<Contributors>(members, field)->Err_0,
        Field::Maintainers => slot::<Maintainers>(members, field)->Err_0,
        Field::Files => slot::<Files>(members, field)->Err_0,
        Field::Main => slot::<Main>(members, field)->Err_0,
        Field::Type => slot::<Type>(members, field)->Err_0,
        Field::Types => slot::<Types>(members, field)->Err_0,
        Field::Typings => slot::<Typings>(members, field)->Err_0,
        Field::PackageManager => slot::<PackageManager>(members, field)->Err_0,
        Field::PublishConfig => slot::<PublishConfig>(members, field)->Err_0,
        Field::Bin => slot::<Bin>(members, field)->Err_0,
        Field::Man => slot::<Man>(members, field)->Err_0,
        Field::Directories => slot::<Directories>(members, field)->Err_0,
        Field::Repository => slot::<RepositoryOrString>(members, field)->Err_0,
        Field::Module => slot::<Module>(members, field)->Err_0,
        Field::Readme => slot::<Readme>(members, field)->Err_0,
        Field::Private => slot::<Private>(members, field)->Err_0,
        Field::Engines => slot::<Engines>(members, field)->Err_0,
        Field::EngineStrict => slot::<EngineStrict>(members, field)->Err_0,
        Field::Os => slot::<Os>(members, field)->Err_0,
        Field::Cpu => slot::<Cpu>(members, field)->Err_0,
        Field::Scripts => slot::<Scripts>(members, field)->Err_0,
        Field::Dependencies => slot::<Dependencies>(members, field)->Err_0,
        Field::DevDependencies => slot::<DevDependencies>(members, field)->Err_0,
        Field::OptionalDependencies => slot::<OptionalDependencies>(members, field)->Err_0,
        Field::PeerDependencies => slot::<PeerDependencies>(members, field)->Err_0,
    }
}

/// The flaw of the first key, from position `from` of the order on, that
/// does not decode.
pub open spec fn first_flaw(members: Seq<(Seq<char>, JsonModel)>, from: int) -> Option<
    DecodeError,
>
    decreases FIELD_COUNT - from,
{
    if from < 0 || from >= FIELD_COUNT {
        None
    } else if !field_decodes(members, Field::at(from)) {
        Some(field_flaw(members, Field::at(from)))
    } else {
        first_flaw(members, from + 1)
    }
}

/// Where the keys before position `k` decode and the key at `k` does not,
/// the first flaw is that of the key at `k`, and it names that key.
pub proof fn lemma_first_flaw(members: Seq<(Seq<char>, JsonModel)>, from: int, k: int)
    requires
        0 <= from <= k < FIELD_COUNT,
        !field_decodes(members, Field::at(k)),
        forall|i: int| from <= i < k ==> field_decodes(members, #[trigger] Field::at(i)),
    ensures
        first_flaw(members, from) == Some(field_flaw(members, Field::at(k))),
        field_flaw(members, Field::at(k)) matches DecodeError::Field { field, .. } && field
            == Field::at(k),
    decreases k - from,
{
    if from < k {
        assert(field_decodes(members, Field::at(from)));
        lemma_first_flaw(members, from + 1, k);
    }
}

/// Where every key from position `from` on decodes, there is no flaw.
pub proof fn lemma_no_flaw(members: Seq<(Seq<char>, JsonModel)>, from: int)
    requires
        0 <= from <= FIELD_COUNT,
        forall|i: int| from <= i < FIELD_COUNT ==> field_decodes(members, #[trigger] Field::at(i)),
    ensures
        first_flaw(members, from) is None,
    decreases FIELD_COUNT - from,
{
    if from < FIELD_COUNT {
        assert(field_decodes(members, Field::at(from)));
        lemma_no_flaw(members, from + 1);
    }
}

/// Where there is no flaw, every key decodes.
pub proof fn lemma_all_decode(members: Seq<(Seq<char>, JsonModel)>, from: int, k: int)
    requires
        0 <= from <= k < FIELD_COUNT,
        first_flaw(members, from) is None,
    ensures
        field_decodes(members, Field::at(k)),
    decreases k - from,
{
    if from < k {
        lemma_all_decode(members, from + 1, k);
    }
}

/// The keys of the manifest's slots are distinct.
pub proof fn lemma_manifest_slots(model: PackageJsonParserModel)
    ensures
        distinct_slots(model.slots()),
        model.slots().len() == FIELD_COUNT,
        forall|k: int|
            0 <= k < FIELD_COUNT ==> (#[trigger] model.slots()[k]).0 == Field::at(k).key(),
{
    lemma_field_keys();
    let slots = model.slots();
    assert forall|k: int| 0 <= k < FIELD_COUNT implies (#[trigger] slots[k]).0 == Field::at(
        k,
    ).key() by {}
    assert forall|i: int, j: int| 0 <= i < j < slots.len() implies slots[i].0 != slots[j].0 by {
        assert(slots[i].0 == Field::at(i).key());
        assert(slots[j].0 == Field::at(j).key());
        assert(Field::at(i) != Field::at(j));
    }
}

/// Encoding the manifest that a value decoded to, and decoding that
/// again, gives the same manifest: every field that was there is there
/// with the value it had.
pub proof fn lemma_manifest_round_trip(value: JsonModel)
    requires
        PackageJsonParserModel::decoded(value) is Ok,
    ensures
        PackageJsonParserModel::decoded(PackageJsonParserModel::decoded(value)->Ok_0.encoded())
            == PackageJsonParserModel::decoded(value),
{
    let model = PackageJsonParserModel::decoded(value)->Ok_0;
    let members = value->Object_0;
    let slots = model.slots();
    let again = present(slots);
    lemma_manifest_slots(model);
    lemma_all_decode(members, 0, 0);
    lemma_slot_round_trip::<Name>(members, Field::Name, slots, 0);
    lemma_all_decode(members, 0, 1);
    lemma_slot_round_trip::<Version>(members, Field::Version, slots, 1);
    lemma_all_decode(members, 0, 2);
    lemma_slot_round_trip::<Description>(members, Field::Description, slots, 2);
    lemma_all_decode(members, 0, 3);
    lemma_slot_round_trip::<Keywords>(members, Field::Keywords, slots, 3);
    lemma_all_decode(members, 0, 4);
    lemma_slot_round_trip::<HomePage>(members, Field::Homepage, slots, 4);
    lemma_all_decode(members, 0, 5);
    lemma_slot_round_trip::<Bugs>(members, Field::Bugs, slots, 5);
    lemma_all_decode(members, 0, 6);
    lemma_slot_round_trip::<License>(members, Field::License, slots, 6);
    lemma_all_decode(members, 0, 7);
    lemma_slot_round_trip::<Person>(members, Field::Author, slots, 7);
    lemma_all_decode(members, 0, 8);
    lemma_slot_round_trip::<Contributors>(members, Field::Contributors, slots, 8);
    lemma_all_decode(members, 0, 9);
    lemma_slot_round_trip::<Maintainers>(members, Field::Maintainers, slots, 9);
    lemma_all_decode(members, 0, 10);
    lemma_slot_round_trip::<Files>(members, Field::Files, slots, 10);
    lemma_all_decode(members, 0, 11);
    lemma_slot_round_trip::<Main>(members, Field::Main, slots, 11);
    lemma_all_decode(members, 0, 12);
    lemma_slot_round_trip::<Type>(members, Field::Type, slots, 12);
    lemma_all_decode(members, 0, 13);
    lemma_slot_round_trip::<Types>(members, Field::Types, slots, 13);
    lemma_all_decode(members, 0, 14);
    lemma_slot_round_trip::<Typings>(members, Field::Typings, slots, 14);
    lemma_all_decode(members, 0, 15);
    lemma_slot_round_trip::<PackageManager>(members, Field::PackageManager, slots, 15);
    lemma_all_decode(members, 0, 16);
    lemma_slot_round_trip::<PublishConfig>(members, Field::PublishConfig, slots, 16);
    lemma_all_decode(members, 0, 17);
    lemma_slot_round_trip::<Bin>(members, Field::Bin, slots, 17);
    lemma_all_decode(members, 0, 18);
    lemma_slot_round_trip::<Man>(members, Field::Man, slots, 18);
    lemma_all_decode(members, 0, 19);
    lemma_slot_round_trip::<Directories>(members, Field::Directories, slots, 19);
    lemma_all_decode(members, 0, 20);
    lemma_slot_round_trip::<RepositoryOrString>(members, Field::Repository, slots, 20);
    lemma_all_decode(members, 0, 21);
    lemma_slot_round_trip::<Module>(members, Field::Module, slots, 21);
    lemma_all_decode(members, 0, 22);
    lemma_slot_round_trip::<Readme>(members, Field::Readme, slots, 22);
    lemma_all_decode(members, 0, 23);
    lemma_slot_round_trip::<Private>(members, Field::Private, slots, 23);
    lemma_all_decode(members, 0, 24);
    lemma_slot_round_trip::<Engines>(members, Field::Engines, slots, 24);
    lemma_all_decode(members, 0, 25);
    lemma_slot_round_trip::<EngineStrict>(members, Field::EngineStrict, slots, 25);
    lemma_all_decode(members, 0, 26);
    lemma_slot_round_trip::<Os>(members, Field::Os, slots, 26);
    lemma_all_decode(members, 0, 27);
    lemma_slot_round_trip::<Cpu>(members, Field::Cpu, slots, 27);
    lemma_all_decode(members, 0, 28);
    lemma_slot_round_trip::<Scripts>(members, Field::Scripts, slots, 28);
    lemma_all_decode(members, 0, 29);
    lemma_slot_round_trip::<Dependencies>(members, Field::Dependencies, slots, 29);
    lemma_all_decode(members, 0, 30);
    lemma_slot_round_trip::<DevDependencies>(members, Field::DevDependencies, slots, 30);
    lemma_all_decode(members, 0, 31);
    lemma_slot_round_trip::<OptionalDependencies>(members, Field::OptionalDependencies, slots, 31);
    lemma_all_decode(members, 0, 32);
    lemma_slot_round_trip::<PeerDependencies>(members, Field::PeerDependencies, slots, 32);
    assert forall|i: int| 0 <= i < FIELD_COUNT implies field_decodes(
        again,
        #[trigger] Field::at(i),
    ) by {
        assert(i == 0 ==> field_decodes(again, Field::Name));
        assert(i == 1 ==> field_decodes(again, Field::Version));
        assert(i == 2 ==> field_decodes(again, Field::Description));
        assert(i == 3 ==> field_decodes(again, Field::Keywords));
        assert(i == 4 ==> field_decodes(again, Field::Homepage));
        assert(i == 5 ==> field_decodes(again, Field::Bugs));
        assert(i == 6 ==> field_decodes(again, Field::License));
        assert(i == 7 ==> field_decodes(again, Field::Author));
        assert(i == 8 ==> field_decodes(again, Field::Contributors));
        assert(i == 9 ==> field_decodes(again, Field::Maintainers));
        assert(i == 10 ==> field_decodes(again, Field::Files));
        assert(i == 11 ==> field_decodes(again, Field::Main));
        assert(i == 12 ==> field_decodes(again, Field::Type));
        assert(i == 13 ==> field_decodes(again, Field::Types));
        assert(i == 14 ==> field_decodes(again, Field::Typings));
        assert(i == 15 ==> field_decodes(again, Field::PackageManager));
        assert(i == 16 ==> field_decodes(again, Field::PublishConfig));
        assert(i == 17 ==> field_decodes(again, Field::Bin));
        assert(i == 18 ==> field_decodes(again, Field::Man));
        assert(i == 19 ==> field_decodes(again, Field::Directories));
        assert(i == 20 ==> field_decodes(again, Field::Repository));
        assert(i == 21 ==> field_decodes(again, Field::Module));
        assert(i == 22 ==> field_decodes(again, Field::Readme));
        assert(i == 23 ==> field_decodes(again, Field::Private));
        assert(i == 24 ==> field_decodes(again, Field::Engines));
        assert(i == 25 ==> field_decodes(again, Field::EngineStrict));
        assert(i == 26 ==> field_decodes(again, Field::Os));
        assert(i == 27 ==> field_decodes(again, Field::Cpu));
        assert(i == 28 ==> field_decodes(again, Field::Scripts));
        assert(i == 29 ==> field_decodes(again, Field::Dependencies));
        assert(i == 30 ==> field_decodes(again, Field::DevDependencies));
        assert(i == 31 ==> field_decodes(again, Field::OptionalDependencies));
        assert(i == 32 ==> field_decodes(again, Field::PeerDependencies));
    }
    lemma_no_flaw(again, 0);
}

impl PackageJsonParser {
    /// Decodes a manifest from the value tree of its text. The text and
    /// the path are left open.
    pub fn decode(value: &JsonValue) -> (outcome: Result<PackageJsonParser, DecodeError>)
        ensures
            (match outcome {
                Ok(manifest) => Ok(manifest@),
                Err(error) => Err(error),
            }) == PackageJsonParserModel::decoded(value@),
    {
        let members = match value {
            JsonValue::Object(members) => members,
            _ => {
                return Err(DecodeError::NotAnObject);
            },
        };
        proof {
            lemma_object_view(*members);
        }
        let ghost models = members_model(members@);
        let name = read_slot::<Name>(members, Field::Name)?;
        assert(first_flaw(models, 0) == first_flaw(models, 1));
        let version = read_slot::<Version>(members, Field::Version)?;
        assert(first_flaw(models, 0) == first_flaw(models, 2));
        let description = read_slot::<Description>(members, Field::Description)?;
        assert(first_flaw(models, 0) == first_flaw(models, 3));
        let keywords = read_slot::<Keywords>(members, Field::Keywords)?;
        assert(first_flaw(models, 0) == first_flaw(models, 4));
        let homepage = read_slot::<HomePage>(members, Field::Homepage)?;
        assert(first_flaw(models, 0) == first_flaw(models, 5));
        let bugs = read_slot::<Bugs>(members, Field::Bugs)?;
        assert(first_flaw(models, 0) == first_flaw(models, 6));
        let license = read_slot::<License>(members, Field::License)?;
        assert(first_flaw(models, 0) == first_flaw(models, 7));
        let author = read_slot::<Person>(members, Field::Author)?;
        assert(first_flaw(models, 0) == first_flaw(models, 8));
        let contributors = read_slot::<Contributors>(members, Field::Contributors)?;
        assert(first_flaw(models, 0) == first_flaw(models, 9));
        let maintainers = read_slot::<Maintainers>(members, Field::Maintainers)?;
        assert(first_flaw(models, 0) == first_flaw(models, 10));
        let files = read_slot::<Files>(members, Field::Files)?;
        assert(first_flaw(models, 0) == first_flaw(models, 11));
        let main = read_slot::<Main>(members, Field::Main)?;
        assert(first_flaw(models, 0) == first_flaw(models, 12));
        let type_ = read_slot::<Type>(members, Field::Type)?;
        assert(first_flaw(models, 0) == first_flaw(models, 13));
        let types = read_slot::<Types>(members, Field::Types)?;
        assert(first_flaw(models, 0) == first_flaw(models, 14));
        let typings = read_slot::<Typings>(members, Field::Typings)?;
        assert(first_flaw(models, 0) == first_flaw(models, 15));
        let package_manager = read_slot::<PackageManager>(members, Field::PackageManager)?;
        assert(first_flaw(models, 0) == first_flaw(models, 16));
        let publish_config = read_slot::<PublishConfig>(members, Field::PublishConfig)?;
        assert(first_flaw(models, 0) == first_flaw(models, 17));
        let bin = read_slot::<Bin>(members, Field::Bin)?;
        assert(first_flaw(models, 0) == first_flaw(models, 18));
        let man = read_slot::<Man>(members, Field::Man)?;
        assert(first_flaw(models, 0) == first_flaw(models, 19));
        let directories = read_slot::<Directories>(members, Field::Directories)?;
        assert(first_flaw(models, 0) == first_flaw(models, 20));
        let repository = read_slot::<RepositoryOrString>(members, Field::Repository)?;
        assert(first_flaw(models, 0) == first_flaw(models, 21));
        let module = read_slot::<Module>(members, Field::Module)?;
        assert(first_flaw(models, 0) == first_flaw(models, 22));
        let readme = read_slot::<Readme>(members, Field::Readme)?;
        assert(first_flaw(models, 0) == first_flaw(models, 23));
        let private = read_slot::<Private>(members, Field::Private)?;
        assert(first_flaw(models, 0) == first_flaw(models, 24));
        let engines = read_slot::<Engines>(members, Field::Engines)?;
        assert(first_flaw(models, 0) == first_flaw(models, 25));
        let engine_strict = read_slot::<EngineStrict>(members, Field::EngineStrict)?;
        assert(first_flaw(models, 0) == first_flaw(models, 26));
        let os = read_slot::<Os>(members, Field::Os)?;
        assert(first_flaw(models, 0) == first_flaw(models, 27));
        let cpu = read_slot::<Cpu>(members, Field::Cpu)?;
        assert(first_flaw(models, 0) == first_flaw(models, 28));
        let scripts = read_slot::<Scripts>(members, Field::Scripts)?;
        assert(first_flaw(models, 0) == first_flaw(models, 29));
        let dependencies = read_slot::<Dependencies>(members, Field::Dependencies)?;
        assert(first_flaw(models, 0) == first_flaw(models, 30));
        let dev_dependencies = read_slot::<DevDependencies>(members, Field::DevDependencies)?;
        assert(first_flaw(models, 0) == first_flaw(models, 31));
        let optional_dependencies = read_slot::<OptionalDependencies>(
            members,
            Field::OptionalDependencies,
        )?;
        assert(first_flaw(models, 0) == first_flaw(models, 32));
        let peer_dependencies = read_slot::<PeerDependencies>(members, Field::PeerDependencies)?;
        assert(first_flaw(models, 0) == first_flaw(models, 33));
        Ok(
            PackageJsonParser {
                name,
                version,
                description,
                keywords,
                homepage,
                bugs,
                license,
                author,
                contributors,
                maintainers,
                files,
                main,
                type_,
                types,
                typings,
                package_manager,
                publish_config,
                bin,
                man,
                directories,
                repository,
                module,
                readme,
                private,
                engines,
                engine_strict,
                os,
                cpu,
                scripts,
                dependencies,
                dev_dependencies,
                optional_dependencies,
                peer_dependencies,
                __raw_source: None,
                __raw_path: None,
            },
        )
    }

    /// Encodes the manifest as a JSON object that holds the fields that
    /// are there, in order.
    pub fn encode(&self) -> (value: JsonValue)
        ensures
            value@ == self@.encoded(),
    {
        let slots = vec![
            (Field::Name.name(), write_slot::<Name>(&self.name)),
            (Field::Version.name(), write_slot::<Version>(&self.version)),
            (Field::Description.name(), write_slot::<Description>(&self.description)),
            (Field::Keywords.name(), write_slot::<Keywords>(&self.keywords)),
            (Field::Homepage.name(), write_slot::<HomePage>(&self.homepage)),
            (Field::Bugs.name(), write_slot::<Bugs>(&self.bugs)),
            (Field::License.name(), write_slot::<License>(&self.license)),
            (Field::Author.name(), write_slot::<Person>(&self.author)),
            (Field::Contributors.name(), write_slot::<Contributors>(&self.contributors)),
            (Field::Maintainers.name(), write_slot::<Maintainers>(&self.maintainers)),
            (Field::Files.name(), write_slot::<Files>(&self.files)),
            (Field::Main.name(), write_slot::<Main>(&self.main)),
            (Field::Type.name(), write_slot::<Type>(&self.type_)),
            (Field::Types.name(), write_slot::<Types>(&self.types)),
            (Field::Typings.name(), write_slot::<Typings>(&self.typings)),
            (Field::PackageManager.name(), write_slot::<PackageManager>(&self.package_manager)),
            (Field::PublishConfig.name(), write_slot::<PublishConfig>(&self.publish_config)),
            (Field::Bin.name(), write_slot::<Bin>(&self.bin)),
            (Field::Man.name(), write_slot::<Man>(&self.man)),
            (Field::Directories.name(), write_slot::<Directories>(&self.directories)),
            (Field::Repository.name(), write_slot::<RepositoryOrString>(&self.repository)),
            (Field::Module.name(), write_slot::<Module>(&self.module)),
            (Field::Readme.name(), write_slot::<Readme>(&self.readme)),
            (Field::Private.name(), write_slot::<Private>(&self.private)),
            (Field::Engines.name(), write_slot::<Engines>(&self.engines)),
            (Field::EngineStrict.name(), write_slot::<EngineStrict>(&self.engine_strict)),
            (Field::Os.name(), write_slot::<Os>(&self.os)),
            (Field::Cpu.name(), write_slot::<Cpu>(&self.cpu)),
            (Field::Scripts.name(), write_slot::<Scripts>(&self.scripts)),
            (Field::Dependencies.name(), write_slot::<Dependencies>(&self.dependencies)),
            (Field::DevDependencies.name(), write_slot::<DevDependencies>(&self.dev_dependencies)),
            (
                Field::OptionalDependencies.name(),
                write_slot::<OptionalDependencies>(&self.optional_dependencies),
            ),
            (
                Field::PeerDependencies.name(),
                write_slot::<PeerDependencies>(&self.peer_dependencies),
            ),
        ];
        assert(slots_model(slots@) =~= self@.slots());
        write_object(slots)
    }

    /// The diagnostic of the first rule that the field `field` breaks,
    /// placed by the member of `root` that has the field's key. A field
    /// that is not there breaks no rule.
    pub open spec fn field_violation(&self, field: Field, root: Option<SyntaxModel>) -> Option<
        DiagnosticModel,
    > {
        let prop = member_of(root, field.key());
        match field {
            Field::Name => match self.name {
                Some(value) => value.violation(prop),
                None => None,
            },
            Field::Version => match self.version {
                Some(value) => value.violation(prop),
                None => None,
            },
            Field::Description => match self.description {
                Some(value) => value.violation(prop),
                None => None,
            },
            Field::Keywords => match self.keywords {
                Some(value) => value.violation(prop),
                None => None,
            },
            Field::Homepage => match self.homepage {
                Some(value) => value.violation(prop),
                None => None,
            },
            Field::Bugs => match self.bugs {
                Some(value) => value.violation(prop),
                None => None,
            },
            Field::License => match self.license {
                Some(value) => value.violation(prop),
                None => None,
            },
            Field::Author => match self.author {
                Some(value) => value.violation(prop),
                None => None,
            },
            Field::Contributors => match self.contributors {
                Some(value) => value.violation(prop),
                None => None,
            },
            Field::Maintainers => match self.maintainers {
                Some(value) => value.violation(prop),
                None => None,
            },
            Field::Files => match self.files {
                Some(value) => value.violation(prop),
                None => None,
            },
            Field::Main => match self.main {
                Some(value) => value.violation(prop),
                None => None,
            },
            Field::Type => match self.type_ {
                Some(value) => value.violation(prop),
                None => None,
            },
            Field::Types => match self.types {
                Some(value) => value.violation(prop),
                None => None,
            },
            Field::Typings => match self.typings {
                Some(value) => value.violation(prop),
                None => None,
            },
            Field::PackageManager => match self.package_manager {
                Some(value) => value.violation(prop),
                None => None,
            },
            Field::PublishConfig => match self.publish_config {
                Some(value) => value.violation(prop),
                None => None,
            },
            Field::Bin => match self.bin {
                Some(value) => value.violation(prop),
                None => None,
            },
            Field::Man => match self.man {
                Some(value) => value.violation(prop),
                None => None,
            },
            Field::Directories => match self.directories {
                Some(value) => value.violation(prop),
                None => None,
            },
            Field::Repository => match self.repository {
                Some(value) => value.violation(prop),
                None => None,
            },
            Field::Module => match self.module {
                Some(value) => value.violation(prop),
                None => None,
            },
            Field::Readme => match self.readme {
                Some(value) => value.violation(prop),
                None => None,
            },
            Field::Private => match self.private {
                Some(value) => value.violation(prop),
                None => None,
            },
            Field::Engines => match self.engines {
                Some(value) => value.violation(prop),
                None => None,
            },
            Field::EngineStrict => match self.engine_strict {
                Some(value) => value.violation(prop),
                None => None,
            },
            Field::Os => match self.os {
                Some(value) => value.violation(prop),
                None => None,
            },
            Field::Cpu => match self.cpu {
                Some(value) => value.violation(prop),
                None => None,
            },
            Field::Scripts => match self.scripts {
                Some(value) => value.violation(prop),
                None => None,
            },
            Field::Dependencies => match self.dependencies {
                Some(value) => value.violation(prop),
                None => None,
            },
            Field::DevDependencies => match self.dev_dependencies {
                Some(value) => value.violation(prop),
                None => None,
            },
            Field::OptionalDependencies => match self.optional_dependencies {
                Some(value) => value.violation(prop),
                None => None,
            },
            Field::PeerDependencies => match self.peer_dependencies {
                Some(value) => value.violation(prop),
                None => None,
            },
        }
    }

    /// The diagnostic of the first field, from position `from` of the
    /// order on, that breaks a rule.
    pub open spec fn first_violation(&self, root: Option<SyntaxModel>, from: int) -> Option<
        DiagnosticModel,
    >
        decreases FIELD_COUNT - from,
    {
        if from < 0 || from >= FIELD_COUNT {
            None
        } else if self.field_violation(Field::at(from), root) is Some {
            self.field_violation(Field::at(from), root)
        } else {
            self.first_violation(root, from + 1)
        }
    }

    /// Validates the field `field` against the syntax tree `root`.
    pub fn validate_field(&self, field: Field, root: Option<&SyntaxValue>) -> (outcome: Result<
        (),
        Diagnostic,
    >)
        ensures
            self.field_violation(field, node_model(root)) == match outcome {
                Ok(_) => None,
                Err(diagnostic) => Some(diagnostic@),
            },
    {
        let prop = member_named(root, field.name());
        match field {
            Field::Name => match &self.name {
                Some(value) => value.validate(prop),
                None => Ok(()),
            },
            Field::Version => match &self.version {
                Some(value) => value.validate(prop),
                None => Ok(()),
            },
            Field::Description => match &self.description {
                Some(value) => value.validate(prop),
                None => Ok(()),
            },
            Field::Keywords => match &self.keywords {
                Some(value) => value.validate(prop),
                None => Ok(()),
            },
            Field::Homepage => match &self.homepage {
                Some(value) => value.validate(prop),
                None => Ok(()),
            },
            Field::Bugs => match &self.bugs {
                Some(value) => value.validate(prop),
                None => Ok(()),
            },
            Field::License => match &self.license {
                Some(value) => value.validate(prop),
                None => Ok(()),
            },
            Field::Author => match &self.author {
                Some(value) => value.validate(prop),
                None => Ok(()),
            },
            Field::Contributors => match &self.contributors {
                Some(value) => value.validate(prop),
                None => Ok(()),
            },
            Field::Maintainers => match &self.maintainers {
                Some(value) => value.validate(prop),
                None => Ok(()),
            },
            Field::Files => match &self.files {
                Some(value) => value.validate(prop),
                None => Ok(()),
            },
            Field::Main => match &self.main {
                Some(value) => value.validate(prop),
                None => Ok(()),
            },
            Field::Type => match &self.type_ {
                Some(value) => value.validate(prop),
                None => Ok(()),
            },
            Field::Types => match &self.types {
                Some(value) => value.validate(prop),
                None => Ok(()),
            },
            Field::Typings => match &self.typings {
                Some(value) => value.validate(prop),
                None => Ok(()),
            },
            Field::PackageManager => match &self.package_manager {
                Some(value) => value.validate(prop),
                None => Ok(()),
            },
            Field::PublishConfig => match &self.publish_config {
                Some(value) => value.validate(prop),
                None => Ok(()),
            },
            Field::Bin => match &self.bin {
                Some(value) => value.validate(prop),
                None => Ok(()),
            },
            Field::Man => match &self.man {
                Some(value) => value.validate(prop),
                None => Ok(()),
            },
            Field::Directories => match &self.directories {
                Some(value) => value.validate(prop),
                None => Ok(()),
            },
            Field::Repository => match &self.repository {
                Some(value) => value.validate(prop),
                None => Ok(()),
            },
            Field::Module => match &self.module {
                Some(value) => value.validate(prop),
                None => Ok(()),
            },
            Field::Readme => match &self.readme {
                Some(value) => value.validate(prop),
                None => Ok(()),
            },
            Field::Private => match &self.private {
                Some(value) => value.validate(prop),
                None => Ok(()),
            },
            Field::Engines => match &self.engines {
                Some(value) => value.validate(prop),
                None => Ok(()),
            },
            Field::EngineStrict => match &self.engine_strict {
                Some(value) => value.validate(prop),
                None => Ok(()),
            },
            Field::Os => match &self.os {
                Some(value) => value.validate(prop),
                None => Ok(()),
            },
            Field::Cpu => match &self.cpu {
                Some(value) => value.validate(prop),
                None => Ok(()),
            },
            Field::Scripts => match &self.scripts {
                Some(value) => value.validate(prop),
                None => Ok(()),
            },
            Field::Dependencies => match &self.dependencies {
                Some(value) => value.validate(prop),
                None => Ok(()),
            },
            Field::DevDependencies => match &self.dev_dependencies {
                Some(value) => value.validate(prop),
                None => Ok(()),
            },
            Field::OptionalDependencies => match &self.optional_dependencies {
                Some(value) => value.validate(prop),
                None => Ok(()),
            },
            Field::PeerDependencies => match &self.peer_dependencies {
                Some(value) => value.validate(prop),
                None => Ok(()),
            },
        }
    }
}

} // verus!
