//! The configuration of a project: its settings, the migrations that the
//! program registered, and the ledger as it was last loaded.

use vstd::prelude::*;
use crate::errors::{Error, ErrorKind};
use crate::ledger::{is_ledger_of, load_applied, load_defect};
use crate::migration::{Migratable, Migration};
use crate::paths::{is_absolute, join, parent, path_is_absolute, path_joined, path_parent};
use crate::resolve::{contains_tag, tags_of, texts};
use crate::settings::{Settings, SettingsView};
use crate::source::text_of;

verus! {

/// The configuration of a project.
#[derive(Debug)]
pub struct Config {
    settings: Settings,
    settings_path: Option<String>,
    applied: Vec<String>,
    migrations: Option<Vec<Migration>>,
}

/// The mathematical value of a [`Config`].
pub struct ConfigView {
    /// The settings.
    pub settings: SettingsView,
    /// The path of the settings file, where one is in use.
    pub settings_path: Option<Seq<char>>,
    /// The ledger: the applied tags, as they were last loaded.
    pub applied: Seq<Seq<char>>,
    /// The migrations that the program registered, where it registered any.
    pub migrations: Option<Seq<Migration>>,
}

/// Whether every unit is well formed.
pub open spec fn all_wf(units: Seq<Migration>) -> bool {
    forall|i: int| 0 <= i < units.len() ==> (#[trigger] units[i]).wf()
}

/// Whether units can make up a source: each is well formed, and no two share a tag.
pub open spec fn is_source(units: Seq<Migration>) -> bool {
    all_wf(units) && tags_of(units).no_duplicates()
}

/// The values of boxed units.
pub open spec fn unboxed(units: Seq<Box<Migration>>) -> Seq<Migration> {
    Seq::new(units.len(), |i: int| *units[i])
}

/// Where a location in the settings points to, or the kind of the error that
/// says why it cannot be told.
///
/// An absolute location stands for itself. Any other is taken from the folder
/// of the settings file.
pub open spec fn located(location: Option<Seq<char>>, settings_path: Option<Seq<char>>) -> Result<
    Seq<char>,
    ErrorKind,
> {
    match location {
        None => Err(ErrorKind::Config),
        Some(location) => if path_is_absolute(location) {
            Ok(location)
        } else {
            match settings_path {
                None => Err(ErrorKind::Config),
                Some(file) => match path_parent(file) {
                    None => Err(ErrorKind::PathError),
                    Some(folder) => Ok(path_joined(folder, location)),
                },
            }
        },
    }
}

/// Where the database file is, or the kind of the error that says why it
/// cannot be told. Only sqlite keeps its database in a file.
pub open spec fn database_file(config: ConfigView) -> Result<Seq<char>, ErrorKind> {
    if config.settings.database_type == "sqlite"@ {
        located(config.settings.database_path, config.settings_path)
    } else {
        Err(ErrorKind::Config)
    }
}

fn locate(location: Option<&String>, settings_path: Option<&String>, what: &str) -> (result:
    Result<String, Error>)
    ensures
        match result {
            Ok(path) => located(
                match location {
                    Some(t) => Some(t@),
                    None => None,
                },
                match settings_path {
                    Some(t) => Some(t@),
                    None => None,
                },
            ) == Ok::<Seq<char>, ErrorKind>(path@),
            Err(e) => located(
                match location {
                    Some(t) => Some(t@),
                    None => None,
                },
                match settings_path {
                    Some(t) => Some(t@),
                    None => None,
                },
            ) == Err::<Seq<char>, ErrorKind>(e.kind_of()),
        },
{
    let location = match location {
        None => {
            return Err(Error::Config(String::from_str(what).concat(" not specified")));
        },
        Some(location) => location,
    };
    if is_absolute(location.as_str()) {
        return Ok(location.clone());
    }
    let file = match settings_path {
        None => {
            return Err(Error::Config(String::from_str("Settings path not specified")));
        },
        Some(file) => file,
    };
    match parent(file.as_str()) {
        None => Err(
            Error::PathError(
                String::from_str("Unable to determine parent path: ").concat(file.as_str()),
            ),
        ),
        Some(folder) => Ok(join(folder.as_str(), location.as_str())),
    }
}

fn copy_units(units: &Vec<Migration>) -> (copy: Vec<Migration>)
    ensures
        copy@ == units@,
{
    let mut copy: Vec<Migration> = Vec::new();
    let mut k: usize = 0;
    while k < units.len()
        invariant
            k <= units@.len(),
            copy@ == units@.subrange(0, k as int),
        decreases units@.len() - k,
    {
        copy.push(units[k].clone());
        assert(copy@ =~= units@.subrange(0, k + 1));
        k += 1;
    }
    assert(units@.subrange(0, k as int) =~= units@);
    copy
}

impl View for Config {
    type V = ConfigView;

    closed spec fn view(&self) -> ConfigView {
        ConfigView {
            settings: self.settings@,
            settings_path: text_of(self.settings_path),
            applied: texts(self.applied@),
            migrations: match self.migrations {
                Some(units) => Some(units@),
                None => None,
            },
        }
    }
}

impl Config {
    /// What holds of every configuration: the migrations that the program
    /// registered, if any, are well formed, and no two of them share a tag.
    #[verifier::type_invariant]
    pub closed spec fn wf(&self) -> bool {
        self.migrations matches Some(units) ==> is_source(units@)
    }

    /// A configuration with the given settings, without a settings file, with
    /// an empty ledger and no registered migrations.
    pub fn with_settings(s: &Settings) -> (config: Config)
        ensures
            config.wf(),
            config@ == (ConfigView {
                settings: s@,
                settings_path: None,
                applied: Seq::empty(),
                migrations: None,
            }),
    {
        let config = Config {
            settings: s.clone(),
            settings_path: None,
            applied: Vec::new(),
            migrations: None,
        };
        assert(texts(config.applied@) =~= Seq::empty());
        config
    }

    /// A configuration with the settings that were read from the file at
    /// `path`, with an empty ledger and no registered migrations.
    pub fn from_settings_file(path: &str, settings: Settings) -> (config: Config)
        ensures
            config.wf(),
            config@ == (ConfigView {
                settings: settings@,
                settings_path: Some(path@),
                applied: Seq::empty(),
                migrations: None,
            }),
    {
        let config = Config {
            settings,
            settings_path: Some(String::from_str(path)),
            applied: Vec::new(),
            migrations: None,
        };
        assert(texts(config.applied@) =~= Seq::empty());
        config
    }

    /// Registers the migrations of the program, in the order given.
    ///
    /// Fails with a `TagError`, and leaves the configuration as it is, where
    /// two of the migrations share a tag. Nothing but the list is looked at:
    /// the database is not asked.
    ///
    /// Register the migrations before the ledger is loaded: the tags that the
    /// database holds are checked against the dialect of the source in use.
    pub fn use_migrations(&mut self, migrations: Vec<Box<Migration>>) -> (result: Result<
        &mut Config,
        Error,
    >)
        ensures
            result is Ok <==> tags_of(unboxed(migrations@)).no_duplicates(),
            result matches Ok(this) ==> this.wf() && this@ == (ConfigView {
                migrations: Some(unboxed(migrations@)),
                ..old(self)@
            }) && *final(self) == *final(this),
            result matches Err(e) ==> e.kind_of() == ErrorKind::TagError && *final(self) == *old(
                self,
            ),
    {
        let ghost given = unboxed(migrations@);
        let mut units: Vec<Migration> = Vec::new();
        let mut tags: Vec<String> = Vec::new();
        let n = migrations.len();
        let mut rest = migrations;
        let mut k: usize = 0;
        proof {
            assert(tags_of(units@) =~= Seq::empty());
        }
        while k < n
            invariant
                k <= n,
                n == given.len(),
                given == unboxed(migrations@),
                rest@.len() == n - k,
                forall|i: int| 0 <= i < n - k ==> *(#[trigger] rest@[i]) == given[k + i],
                units@ == given.subrange(0, k as int),
                all_wf(units@),
                texts(tags@) == tags_of(units@),
                tags_of(units@).no_duplicates(),
                *self == *old(self),
            decreases n - k,
        {
            let boxed = rest.remove(0);
            let unit: Migration = *boxed;
            assert(unit == given[k as int]);
            unit.well_formed();
            let tag = unit.tag();
            if contains_tag(tags.as_slice(), &tag) {
                proof {
                    let all = tags_of(given);
                    let i = choose|i: int|
                        0 <= i < tags_of(units@).len() && tags_of(units@)[i] == tag@;
                    assert(all[i] == tags_of(units@)[i]);
                    assert(all[k as int] == tag@);
                    assert(i != k);
                }
                return Err(
                    Error::TagError(
                        String::from_str("Tags must be unique. Found duplicate: ").concat(
                            tag.as_str(),
                        ),
                    ),
                );
            }
            let ghost before = tags_of(units@);
            let ghost units_before = units@;
            units.push(unit);
            tags.push(tag);
            proof {
                assert(units@ =~= given.subrange(0, k + 1));
                assert forall|i: int| 0 <= i < units@.len() implies (#[trigger] units@[i]).wf() by {
                    if i < k {
                        assert(units@[i] == units_before[i]);
                    }
                }
                assert(tags_of(units@) =~= before.push(tag@));
                assert(texts(tags@) =~= tags_of(units@));
                assert forall|i: int, j: int|
                    0 <= i < tags_of(units@).len() && 0 <= j < tags_of(units@).len() && i
                        != j implies tags_of(units@)[i] != tags_of(units@)[j] by {
                    if i < k && j < k {
                        assert(before[i] != before[j]);
                    } else if i < k {
                        assert(before[i] != tag@);
                    } else if j < k {
                        assert(before[j] != tag@);
                    }
                }
                assert forall|i: int| 0 <= i < n - (k + 1) implies *(#[trigger] rest@[i])
                    == given[k + 1 + i] by {}
            }
            k += 1;
        }
        proof {
            assert(given.subrange(0, k as int) =~= given);
            use_type_invariant(&*self);
        }
        self.migrations = Some(units);
        Ok(self)
    }

    /// Whether the migrations were registered by the program.
    pub fn is_explicit(&self) -> (explicit: bool)
        ensures
            explicit == (self@.migrations is Some),
    {
        self.migrations.is_some()
    }

    /// The configuration with the ledger loaded anew.
    ///
    /// `reread` holds the settings as they were read again from the settings
    /// file, where one is in use; without it the settings stay. `table_exists`
    /// says whether the database has the table of applied tags, and `stored`
    /// is what that table holds. The registered migrations are kept.
    ///
    /// Fails as [`load_applied`] does: with a `Migration` error where the
    /// table is missing or a stored tag is not well formed in the dialect in
    /// use, and with a `TagError` where the stamp of a generated tag is no time.
    pub fn reload(&self, reread: Option<Settings>, table_exists: bool, stored: &[String]) -> (result:
        Result<Config, Error>)
        ensures
            match result {
                Ok(config) => {
                    &&& config.wf()
                    &&& load_defect(self@.migrations is Some, table_exists, texts(stored@))
                        is None
                    &&& config@.settings == (match reread {
                        Some(settings) => settings@,
                        None => self@.settings,
                    })
                    &&& config@.settings_path == self@.settings_path
                    &&& config@.migrations == self@.migrations
                    &&& is_ledger_of(config@.applied, texts(stored@), self@.migrations is Some)
                },
                Err(e) => load_defect(self@.migrations is Some, table_exists, texts(stored@))
                    == Some(e.kind_of()),
            },
    {
        proof {
            use_type_invariant(self);
        }
        let applied = match load_applied(self.is_explicit(), table_exists, stored) {
            Err(e) => {
                return Err(e);
            },
            Ok(applied) => applied,
        };
        let settings = match reread {
            Some(settings) => settings,
            None => self.settings.clone(),
        };
        let settings_path = match &self.settings_path {
            Some(path) => Some(path.clone()),
            None => None,
        };
        let migrations = match &self.migrations {
            Some(units) => Some(copy_units(units)),
            None => None,
        };
        Ok(Config { settings, settings_path, applied, migrations })
    }

    /// The directory that holds the migration folders.
    ///
    /// An absolute location in the settings stands for itself. Any other is
    /// taken from the folder of the settings file. Fails with a `Config` error
    /// where the location is not set, or is not absolute while no settings file
    /// is in use, and with a `PathError` where the settings file has no folder.
    pub fn migration_dir(&self) -> (result: Result<String, Error>)
        ensures
            match result {
                Ok(path) => located(self@.settings.migration_location, self@.settings_path)
                    == Ok::<Seq<char>, ErrorKind>(path@),
                Err(e) => located(self@.settings.migration_location, self@.settings_path)
                    == Err::<Seq<char>, ErrorKind>(e.kind_of()),
            },
    {
        locate(self.settings.location(), self.settings_path.as_ref(), "Migration location")
    }

    /// The name of the kind of database.
    pub fn database_type(&self) -> (result: Result<String, Error>)
        ensures
            result matches Ok(name) && name@ == self@.settings.database_type,
    {
        Ok(String::from_str(self.settings.db_type()))
    }

    /// The path of the database file. Only sqlite keeps its database in a file.
    ///
    /// Fails with a `Config` error where the database is not sqlite, where the
    /// path is not set, or is not absolute while no settings file is in use,
    /// and with a `PathError` where the settings file has no folder.
    pub fn database_path(&self) -> (result: Result<String, Error>)
        ensures
            match result {
                Ok(path) => database_file(self@) == Ok::<Seq<char>, ErrorKind>(path@),
                Err(e) => database_file(self@) == Err::<Seq<char>, ErrorKind>(e.kind_of()),
            },
    {
        let kind = self.settings.db_type();
        if String::from_str(kind) == String::from_str("sqlite") {
            locate(self.settings.db_path(), self.settings_path.as_ref(), "Database path")
        } else {
            Err(
                Error::Config(
                    String::from_str(
                        "Cannot retrieve database-path for database-type: ",
                    ).concat(kind),
                ),
            )
        }
    }

    /// The settings.
    pub fn settings(&self) -> (settings: &Settings)
        ensures
            settings@ == self@.settings,
    {
        &self.settings
    }

    /// The path of the settings file, where one is in use.
    pub fn settings_path(&self) -> (path: Option<&String>)
        ensures
            match path {
                Some(text) => self@.settings_path == Some(text@),
                None => self@.settings_path is None,
            },
    {
        self.settings_path.as_ref()
    }

    /// The ledger: the applied tags, as they were last loaded.
    pub fn applied(&self) -> (applied: &Vec<String>)
        ensures
            texts(applied@) == self@.applied,
    {
        &self.applied
    }

    /// The migrations that the program registered, where it registered any.
    pub fn migrations(&self) -> (units: Option<&Vec<Migration>>)
        ensures
            match units {
                Some(units) => self@.migrations == Some(units@) && is_source(units@),
                None => self@.migrations is None,
            },
    {
        proof {
            use_type_invariant(self);
        }
        self.migrations.as_ref()
    }
}

impl Clone for Config {
    fn clone(&self) -> (copy: Config)
        ensures
            copy.wf(),
            copy@ == self@,
    {
        proof {
            use_type_invariant(self);
        }
        let mut applied: Vec<String> = Vec::new();
        let mut k: usize = 0;
        while k < self.applied.len()
            invariant
                k <= self.applied@.len(),
                applied@.len() == k,
                forall|i: int| 0 <= i < k ==> applied@[i]@ == self.applied@[i]@,
            decreases self.applied@.len() - k,
        {
            applied.push(self.applied[k].clone());
            k += 1;
        }
        assert(texts(applied@) =~= texts(self.applied@));
        let settings_path = match &self.settings_path {
            Some(path) => Some(path.clone()),
            None => None,
        };
        let migrations = match &self.migrations {
            Some(units) => Some(copy_units(units)),
            None => None,
        };
        Config { settings: self.settings.clone(), settings_path, applied, migrations }
    }
}

} // verus!
