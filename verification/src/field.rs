//! The keys of the manifest that this library knows, in the order in which
//! it goes through them.

use vstd::prelude::*;

verus! {

/// A key of the manifest.
#[derive(Clone, Copy, Debug, PartialEq, Eq)]
pub enum Field {
    Name,
    Version,
    Description,
    Keywords,
    Homepage,
    Bugs,
    License,
    Author,
    Contributors,
    Maintainers,
    Files,
    Main,
    Type,
    Types,
    Typings,
    PackageManager,
    PublishConfig,
    Bin,
    Man,
    Directories,
    Repository,
    Module,
    Readme,
    Private,
    Engines,
    EngineStrict,
    Os,
    Cpu,
    Scripts,
    Dependencies,
    DevDependencies,
    OptionalDependencies,
    PeerDependencies,
}

/// The number of keys.
pub const FIELD_COUNT: usize = 33;

impl Field {
    /// The key as it stands in the manifest.
    pub open spec fn key(self) -> Seq<char> {
        match self {
            Field::Name => "name"@,
            Field::Version => "version"@,
            Field::Description => "description"@,
            Field::Keywords => "keywords"@,
            Field::Homepage => "homepage"@,
            Field::Bugs => "bugs"@,
            Field::License => "license"@,
            Field::Author => "author"@,
            Field::Contributors => "contributors"@,
            Field::Maintainers => "maintainers"@,
            Field::Files => "files"@,
            Field::Main => "main"@,
            Field::Type => "type"@,
            Field::Types => "types"@,
            Field::Typings => "typings"@,
            Field::PackageManager => "packageManager"@,
            Field::PublishConfig => "publishConfig"@,
            Field::Bin => "bin"@,
            Field::Man => "man"@,
            Field::Directories => "directories"@,
            Field::Repository => "repository"@,
            Field::Module => "module"@,
            Field::Readme => "readme"@,
            Field::Private => "private"@,
            Field::Engines => "engines"@,
            Field::EngineStrict => "engineStrict"@,
            Field::Os => "os"@,
            Field::Cpu => "cpu"@,
            Field::Scripts => "scripts"@,
            Field::Dependencies => "dependencies"@,
            Field::DevDependencies => "devDependencies"@,
            Field::OptionalDependencies => "optionalDependencies"@,
            Field::PeerDependencies => "peerDependencies"@,
        }
    }

    /// The key at position `index` of the order.
    pub open spec fn at(index: int) -> Field {
        if index == 0 {
            Field::Name
        } else if index == 1 {
            Field::Version
        } else if index == 2 {
            Field::Description
        } else if index == 3 {
            Field::Keywords
        } else if index == 4 {
            Field::Homepage
        } else if index == 5 {
            Field::Bugs
        } else if index == 6 {
            Field::License
        } else if index == 7 {
            Field::Author
        } else if index == 8 {
            Field::Contributors
        } else if index == 9 {
            Field::Maintainers
        } else if index == 10 {
            Field::Files
        } else if index == 11 {
            Field::Main
        } else if index == 12 {
            Field::Type
        } else if index == 13 {
            Field::Types
        } else if index == 14 {
            Field::Typings
        } else if index == 15 {
            Field::PackageManager
        } else if index == 16 {
            Field::PublishConfig
        } else if index == 17 {
            Field::Bin
        } else if index == 18 {
            Field::Man
        } else if index == 19 {
            Field::Directories
        } else if index == 20 {
            Field::Repository
        } else if index == 21 {
            Field::Module
        } else if index == 22 {
            Field::Readme
        } else if index == 23 {
            Field::Private
        } else if index == 24 {
            Field::Engines
        } else if index == 25 {
            Field::EngineStrict
        } else if index == 26 {
            Field::Os
        } else if index == 27 {
            Field::Cpu
        } else if index == 28 {
            Field::Scripts
        } else if index == 29 {
            Field::Dependencies
        } else if index == 30 {
            Field::DevDependencies
        } else if index == 31 {
            Field::OptionalDependencies
        } else {
            Field::PeerDependencies
        }
    }

    /// The key as it stands in the manifest.
    pub fn name(self) -> (key: &'static str)
        ensures
            key@ == self.key(),
    {
        match self {
            Field::Name => "name",
            Field::Version => "version",
            Field::Description => "description",
            Field::Keywords => "keywords",
            Field::Homepage => "homepage",
            Field::Bugs => "bugs",
            Field::License => "license",
            Field::Author => "author",
            Field::Contributors => "contributors",
            Field::Maintainers => "maintainers",
            Field::Files => "files",
            Field::Main => "main",
            Field::Type => "type",
            Field::Types => "types",
            Field::Typings => "typings",
            Field::PackageManager => "packageManager",
            Field::PublishConfig => "publishConfig",
            Field::Bin => "bin",
            Field::Man => "man",
            Field::Directories => "directories",
            Field::Repository => "repository",
            Field::Module => "module",
            Field::Readme => "readme",
            Field::Private => "private",
            Field::Engines => "engines",
            Field::EngineStrict => "engineStrict",
            Field::Os => "os",
            Field::Cpu => "cpu",
            Field::Scripts => "scripts",
            Field::Dependencies => "dependencies",
            Field::DevDependencies => "devDependencies",
            Field::OptionalDependencies => "optionalDependencies",
            Field::PeerDependencies => "peerDependencies",
        }
    }

    /// The key at position `index` of the order.
    pub fn from_index(index: usize) -> (field: Field)
        requires
            index < FIELD_COUNT,
        ensures
            field == Field::at(index as int),
    {
        if index == 0 {
            Field::Name
        } else if index == 1 {
            Field::Version
        } else if index == 2 {
            Field::Description
        } else if index == 3 {
            Field::Keywords
        } else if index == 4 {
            Field::Homepage
        } else if index == 5 {
            Field::Bugs
        } else if index == 6 {
            Field::License
        } else if index == 7 {
            Field::Author
        } else if index == 8 {
            Field::Contributors
        } else if index == 9 {
            Field::Maintainers
        } else if index == 10 {
            Field::Files
        } else if index == 11 {
            Field::Main
        } else if index == 12 {
            Field::Type
        } else if index == 13 {
            Field::Types
        } else if index == 14 {
            Field::Typings
        } else if index == 15 {
            Field::PackageManager
        } else if index == 16 {
            Field::PublishConfig
        } else if index == 17 {
            Field::Bin
        } else if index == 18 {
            Field::Man
        } else if index == 19 {
            Field::Directories
        } else if index == 20 {
            Field::Repository
        } else if index == 21 {
            Field::Module
        } else if index == 22 {
            Field::Readme
        } else if index == 23 {
            Field::Private
        } else if index == 24 {
            Field::Engines
        } else if index == 25 {
            Field::EngineStrict
        } else if index == 26 {
            Field::Os
        } else if index == 27 {
            Field::Cpu
        } else if index == 28 {
            Field::Scripts
        } else if index == 29 {
            Field::Dependencies
        } else if index == 30 {
            Field::DevDependencies
        } else if index == 31 {
            Field::OptionalDependencies
        } else {
            Field::PeerDependencies
        }
    }
}

/// Different keys are spelled differently.
pub proof fn lemma_field_keys()
    ensures
        forall|a: Field, b: Field| a != b ==> #[trigger] a.key() != #[trigger] b.key(),
{
    reveal_strlit("name");
    reveal_strlit("version");
    reveal_strlit("description");
    reveal_strlit("keywords");
    reveal_strlit("homepage");
    reveal_strlit("bugs");
    reveal_strlit("license");
    reveal_strlit("author");
    reveal_strlit("contributors");
    reveal_strlit("maintainers");
    reveal_strlit("files");
    reveal_strlit("main");
    reveal_strlit("type");
    reveal_strlit("types");
    reveal_strlit("typings");
    reveal_strlit("packageManager");
    reveal_strlit("publishConfig");
    reveal_strlit("bin");
    reveal_strlit("man");
    reveal_strlit("directories");
    reveal_strlit("repository");
    reveal_strlit("module");
    reveal_strlit("readme");
    reveal_strlit("private");
    reveal_strlit("engines");
    reveal_strlit("engineStrict");
    reveal_strlit("os");
    reveal_strlit("cpu");
    reveal_strlit("scripts");
    reveal_strlit("dependencies");
    reveal_strlit("devDependencies");
    reveal_strlit("optionalDependencies");
    reveal_strlit("peerDependencies");
    assert forall|a: Field, b: Field| a != b implies #[trigger] a.key() != #[trigger] b.key() by {
        if a.key().len() == b.key().len() {
            assert(a.key()[0] != b.key()[0] || a.key()[1] != b.key()[1]);
        }
    }
}

} // verus!
