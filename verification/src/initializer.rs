//! The initializer: what a new settings file is to hold, and where it goes.
//!
//! To ask the user and to write the file is for the caller. The initializer
//! keeps what was chosen, settles the kind of database, and makes the text of
//! the file.

use vstd::prelude::*;
use crate::config::Config;
use crate::errors::{Error, ErrorKind};
use crate::paths::{join, parent, path_joined, path_parent};
use crate::settings::DbKind;
use crate::source::text_of;

verus! {

/// The name of the settings file.
pub const CONFIG_FILE: &'static str = ".migrant.toml";

/// The text of a settings file for sqlite, up to the folder of the file.
pub const SQLITE_CONFIG_HEAD: &'static str =
    "\n# required, do not edit\ndatabase_type = \"sqlite\"\n\n# required: relative path to your database file from this config file dir: `";

/// The text of a settings file for sqlite, behind the folder of the file.
pub const SQLITE_CONFIG_TAIL: &'static str =
    "/`\n# ex.) database_name = \"db/db.db\"\ndatabase_name = \"\"\n\nmigration_location = \"migrations\"  # default \"migrations\"\n";

/// The text of a settings file for postgres.
pub const PG_CONFIG_TEMPLATE: &'static str =
    "\n# required, do not edit\ndatabase_type = \"postgres\"\n\ndatabase_name = \"\"      # required\ndatabase_user = \"\"      # required\ndatabase_password = \"\"\n\ndatabase_host = \"localhost\"         # default \"localhost\"\ndatabase_port = \"5432\"              # default \"5432\"\nmigration_location = \"migrations\"   # default \"migrations\"\n\n# with the format:\n# [database_params]\n# key = \"value\"\n[database_params]\n\n";

/// What a new settings file is to hold, and where it goes.
#[derive(Debug)]
pub struct ConfigInitializer {
    dir: String,
    database_type: Option<String>,
    interactive: bool,
    database_name: Option<String>,
}

/// The mathematical value of a [`ConfigInitializer`].
pub struct ConfigInitializerView {
    /// The directory that the settings file goes to.
    pub dir: Seq<char>,
    /// The kind of database, where it was chosen.
    pub database_type: Option<Seq<char>>,
    /// Whether the user is asked.
    pub interactive: bool,
    /// The name of the database, where it was chosen.
    pub database_name: Option<Seq<char>>,
}

impl View for ConfigInitializer {
    type V = ConfigInitializerView;

    closed spec fn view(&self) -> ConfigInitializerView {
        ConfigInitializerView {
            dir: self.dir@,
            database_type: text_of(self.database_type),
            interactive: self.interactive,
            database_name: text_of(self.database_name),
        }
    }
}

/// Whether a name is that of a kind of database that is supported.
pub open spec fn is_supported(name: Seq<char>) -> bool {
    DbKind::named(name) is Some
}

/// The kind of database that an initialization settles on, or the kind of the
/// error that says why it settles on none.
///
/// A kind that was chosen counts. Without one, and without asking, there is
/// none. Else the answer of the user counts, provided that it names a kind
/// that is supported.
pub open spec fn settled_type(
    chosen: Option<Seq<char>>,
    interactive: bool,
    answer: Seq<char>,
) -> Result<Seq<char>, ErrorKind> {
    match chosen {
        Some(name) => Ok(name),
        None => if !interactive {
            Err(ErrorKind::Config)
        } else if is_supported(answer) {
            Ok(answer)
        } else {
            Err(ErrorKind::Config)
        },
    }
}

/// The text of a new settings file for a kind of database, where the file
/// goes to the given path, or the kind of the error that says why there is
/// none: `Config` where the kind is not supported, and `PathError` where the
/// file is for sqlite and its path has no folder.
///
/// The text for sqlite names the folder of the file. The text for postgres is
/// the same wherever the file goes.
pub open spec fn template_text(kind: Seq<char>, config_path: Seq<char>) -> Result<
    Seq<char>,
    ErrorKind,
> {
    match DbKind::named(kind) {
        None => Err(ErrorKind::Config),
        Some(DbKind::Postgres) => Ok(PG_CONFIG_TEMPLATE@),
        Some(DbKind::Sqlite) => match path_parent(config_path) {
            None => Err(ErrorKind::PathError),
            Some(folder) => Ok(SQLITE_CONFIG_HEAD@ + folder + SQLITE_CONFIG_TAIL@),
        },
    }
}

fn unsupported(name: &str) -> (error: Error)
    ensures
        error.kind_of() == ErrorKind::Config,
        error.message_of() == unsupported_message(name@),
{
    Error::Config(String::from_str("unsupported database type: ").concat(name))
}

fn supported(name: &str) -> (yes: bool)
    ensures
        yes == is_supported(name@),
{
    match DbKind::from(name) {
        Ok(_) => true,
        Err(_) => false,
    }
}

impl ConfigInitializer {
    /// An initializer for a settings file in the given directory, which asks
    /// the user, with nothing chosen yet.
    pub fn new(dir: &str) -> (this: ConfigInitializer)
        ensures
            this@ == (ConfigInitializerView {
                dir: dir@,
                database_type: None,
                interactive: true,
                database_name: None,
            }),
    {
        ConfigInitializer {
            dir: String::from_str(dir),
            database_type: None,
            interactive: true,
            database_name: None,
        }
    }

    /// Chooses the kind of database, or with `None` leaves it open.
    ///
    /// Fails with a `Config` error where the kind is not supported.
    pub fn for_database(self, db_type: Option<&str>) -> (result: Result<ConfigInitializer, Error>)
        ensures
            result is Ok <==> (db_type matches Some(name) ==> is_supported(name@)),
            result matches Ok(this) ==> this@ == (ConfigInitializerView {
                database_type: match db_type {
                    Some(name) => Some(name@),
                    None => None,
                },
                ..self@
            }),
            result matches Err(e) ==> e.kind_of() == ErrorKind::Config && (db_type matches Some(
                name,
            ) && e.message_of() == unsupported_message(name@)),
    {
        let mut this = self;
        match db_type {
            None => {
                this.database_type = None;
            },
            Some(name) => {
                if !supported(name) {
                    return Err(unsupported(name));
                }
                this.database_type = Some(String::from_str(name));
            },
        }
        Ok(this)
    }

    /// Sets whether the user is asked.
    pub fn interactive(self, b: bool) -> (this: ConfigInitializer)
        ensures
            this@ == (ConfigInitializerView { interactive: b, ..self@ }),
    {
        let mut this = self;
        this.interactive = b;
        this
    }

    /// Chooses the name of the database.
    pub fn database_name(self, name: &str) -> (this: ConfigInitializer)
        ensures
            this@ == (ConfigInitializerView { database_name: Some(name@), ..self@ }),
    {
        let mut this = self;
        this.database_name = Some(String::from_str(name));
        this
    }

    /// Whether the user is asked.
    pub fn is_interactive(&self) -> (asked: bool)
        ensures
            asked == self@.interactive,
    {
        self.interactive
    }

    /// The path that the settings file goes to, unless the user names another:
    /// the name of the settings file in the directory of the initializer.
    pub fn config_path(&self) -> (path: String)
        ensures
            path@ == path_joined(self@.dir, CONFIG_FILE@),
    {
        join(self.dir.as_str(), CONFIG_FILE)
    }

    /// Settles the kind of database. `answer` is what the user said when asked
    /// for it, and counts only where no kind was chosen and the user is asked.
    ///
    /// Fails with a `Config` error where no kind was chosen and the user is
    /// not asked, or where the answer names no kind that is supported.
    pub fn settle_type(&self, answer: &str) -> (result: Result<String, Error>)
        ensures
            match result {
                Ok(name) => settled_type(self@.database_type, self@.interactive, answer@) == Ok::<
                    Seq<char>,
                    ErrorKind,
                >(name@),
                Err(e) => settled_type(self@.database_type, self@.interactive, answer@) == Err::<
                    Seq<char>,
                    ErrorKind,
                >(e.kind_of()),
            },
    {
        match &self.database_type {
            Some(name) => Ok(name.clone()),
            None => {
                if !self.interactive {
                    Err(
                        Error::Config(
                            String::from_str(
                                "database type must be specified if running non-interactively",
                            ),
                        ),
                    )
                } else if supported(answer) {
                    Ok(String::from_str(answer))
                } else {
                    Err(unsupported(answer))
                }
            },
        }
    }

    /// The text of the new settings file for a kind of database, where the
    /// file goes to the given path.
    ///
    /// Fails with a `Config` error where the kind is not supported, and with a
    /// `PathError` where the file is for sqlite and its path has no folder.
    pub fn template(db_type: &str, config_path: &str) -> (result: Result<String, Error>)
        ensures
            match result {
                Ok(text) => template_text(db_type@, config_path@) == Ok::<Seq<char>, ErrorKind>(
                    text@,
                ),
                Err(e) => template_text(db_type@, config_path@) == Err::<Seq<char>, ErrorKind>(
                    e.kind_of(),
                ),
            },
    {
        match DbKind::from(db_type) {
            Err(_) => Err(unsupported(db_type)),
            Ok(DbKind::Postgres) => Ok(String::from_str(PG_CONFIG_TEMPLATE)),
            Ok(DbKind::Sqlite) => match parent(config_path) {
                None => Err(
                    Error::PathError(
                        String::from_str("Unable to determine parent path: ").concat(
                            config_path,
                        ),
                    ),
                ),
                Some(folder) => Ok(
                    String::from_str(SQLITE_CONFIG_HEAD).concat(folder.as_str()).concat(
                        SQLITE_CONFIG_TAIL,
                    ),
                ),
            },
        }
    }
}

impl Config {
    /// An initializer for a settings file in the given directory.
    pub fn init_in(dir: &str) -> (initializer: ConfigInitializer)
        ensures
            initializer@ == (ConfigInitializerView {
                dir: dir@,
                database_type: None,
                interactive: true,
                database_name: None,
            }),
    {
        ConfigInitializer::new(dir)
    }
}

/// What is said of a name that is that of no kind of database that is
/// supported.
pub open spec fn unsupported_message(name: Seq<char>) -> Seq<char> {
    "unsupported database type: "@ + name
}

} // verus!
