//! What a project shows and makes: the status of its migrations, the files of
//! a new migration, and the script files among the paths of a directory.

use vstd::prelude::*;
use crate::config::{located, Config, ConfigView};
use crate::errors::{Error, ErrorKind};
use crate::migration::{FileMigration, Migratable, Migration};
use crate::migrator::file_units;
use crate::paths::{
    extension, file_name, file_stem, join, parent, path_extension, path_file_name,
    path_file_stem, path_joined, path_parent,
};
use crate::resolve::{contains_tag, tags_of, texts};
use crate::source::{discover, file_views, is_discovery, ScriptFile, ScriptFileView};
use crate::stamp::{is_stamp, Stamp};
use crate::tag::{generated_tag, invalid_tag, is_name};

verus! {

/// The units of a project: those that the program registered, or else those
/// found on disk.
pub open spec fn units_of_project(config: ConfigView, found: Seq<FileMigration>) -> Seq<Migration> {
    match config.migrations {
        Some(units) => units,
        None => file_units(found),
    }
}

/// The status of every migration of a project: its tag, and whether the
/// ledger holds it, in the order of the source.
///
/// `found` are the units found on disk, which count where the program
/// registered none.
pub fn list(config: &Config, found: &Vec<FileMigration>) -> (status: Vec<(String, bool)>)
    ensures
        status@.len() == units_of_project(config@, found@).len(),
        forall|i: int|
            0 <= i < status@.len() ==> (#[trigger] status@[i]).0@ == tags_of(
                units_of_project(config@, found@),
            )[i] && status@[i].1 == config@.applied.contains(
                tags_of(units_of_project(config@, found@))[i],
            ),
{
    let mut status: Vec<(String, bool)> = Vec::new();
    let applied = config.applied();
    match config.migrations() {
        Some(units) => {
            let mut k: usize = 0;
            while k < units.len()
                invariant
                    k <= units@.len(),
                    status@.len() == k,
                    texts(applied@) == config@.applied,
                    forall|i: int|
                        0 <= i < k ==> (#[trigger] status@[i]).0@ == tags_of(units@)[i]
                            && status@[i].1 == config@.applied.contains(tags_of(units@)[i]),
                decreases units@.len() - k,
            {
                let tag = units[k].tag();
                let held = contains_tag(applied.as_slice(), &tag);
                status.push((tag, held));
                k += 1;
            }
        },
        None => {
            let mut k: usize = 0;
            while k < found.len()
                invariant
                    k <= found@.len(),
                    status@.len() == k,
                    texts(applied@) == config@.applied,
                    forall|i: int|
                        0 <= i < k ==> (#[trigger] status@[i]).0@ == tags_of(
                            file_units(found@),
                        )[i] && status@[i].1 == config@.applied.contains(
                            tags_of(file_units(found@))[i],
                        ),
                decreases found@.len() - k,
            {
                let tag = found[k].tag();
                let held = contains_tag(applied.as_slice(), &tag);
                status.push((tag, held));
                k += 1;
            }
        },
    }
    status
}

/// Where the files of a new migration go.
#[derive(Clone, Debug)]
pub struct NewMigration {
    /// The folder of the migration.
    pub folder: String,
    /// The script that applies it.
    pub up: String,
    /// The script that reverts it.
    pub down: String,
}

/// The mathematical value of a [`NewMigration`].
pub struct NewMigrationView {
    pub folder: Seq<char>,
    pub up: Seq<char>,
    pub down: Seq<char>,
}

impl View for NewMigration {
    type V = NewMigrationView;

    open spec fn view(&self) -> NewMigrationView {
        NewMigrationView { folder: self.folder@, up: self.up@, down: self.down@ }
    }
}

/// Where the files of a new migration go, or the kind of the error that says
/// why it cannot be made.
///
/// The name must be a name and the stamp a stamp. The folder is named by the
/// generated tag of the two, in the migration directory, and holds the files
/// `up.sql` and `down.sql`.
pub open spec fn new_migration(config: ConfigView, tag: Seq<char>, now: Seq<char>) -> Result<
    NewMigrationView,
    ErrorKind,
> {
    if !is_name(tag) {
        Err(ErrorKind::TagError)
    } else if !is_stamp(now) {
        Err(ErrorKind::TagError)
    } else {
        match located(config.settings.migration_location, config.settings_path) {
            Err(kind) => Err(kind),
            Ok(root) => {
                let folder = path_joined(root, generated_tag(now, tag));
                Ok(
                    NewMigrationView {
                        folder,
                        up: path_joined(folder, "up.sql"@),
                        down: path_joined(folder, "down.sql"@),
                    },
                )
            },
        }
    }
}

/// Says where the files of a new migration with the given name go. `now` is
/// the present time, written as a stamp.
///
/// Fails with a `TagError` unless the name is a name and `now` a stamp, and
/// as [`Config::migration_dir`] does.
pub fn new(config: &Config, tag: &str, now: &str) -> (result: Result<NewMigration, Error>)
    ensures
        match result {
            Ok(made) => new_migration(config@, tag@, now@) == Ok::<NewMigrationView, ErrorKind>(
                made@,
            ),
            Err(e) => new_migration(config@, tag@, now@) == Err::<NewMigrationView, ErrorKind>(
                e.kind_of(),
            ),
        },
{
    if invalid_tag(tag) {
        return Err(
            Error::TagError(
                String::from_str("Invalid tag `").concat(tag).concat(
                    "`. Tags can contain [a-z0-9-]",
                ),
            ),
        );
    }
    let stamp = match Stamp::parse(now) {
        Err(e) => {
            return Err(e);
        },
        Ok(stamp) => stamp,
    };
    let root = match config.migration_dir() {
        Err(e) => {
            return Err(e);
        },
        Ok(root) => root,
    };
    let name = String::from_str(stamp.as_str()).concat("_").concat(tag);
    proof {
        reveal_strlit("_");
        assert("_"@ =~= seq!['_']);
        assert(name@ == generated_tag(now@, tag@));
    }
    let folder = join(root.as_str(), name.as_str());
    let up = join(folder.as_str(), "up.sql");
    let down = join(folder.as_str(), "down.sql");
    Ok(NewMigration { folder, up, down })
}

/// The script file that a path stands for, if it stands for one: the path
/// must have the extension `sql`, and a folder.
pub open spec fn script_file_of(path: Seq<char>) -> Option<ScriptFileView> {
    if path_extension(path) == Some("sql"@) && path_parent(path) is Some {
        Some(
            ScriptFileView {
                path,
                folder: path_parent(path).unwrap(),
                folder_name: path_file_name(path_parent(path).unwrap()),
                stem: path_file_stem(path),
            },
        )
    } else {
        None
    }
}

/// The script files among paths, in the order of the paths.
pub open spec fn script_files(paths: Seq<Seq<char>>) -> Seq<ScriptFileView>
    decreases paths.len(),
{
    if paths.len() == 0 {
        Seq::empty()
    } else {
        match script_file_of(paths.last()) {
            Some(file) => script_files(paths.drop_last()).push(file),
            None => script_files(paths.drop_last()),
        }
    }
}

/// Picks the script files among the paths that a walk of a directory came upon.
pub fn script_files_in(paths: &Vec<String>) -> (files: Vec<ScriptFile>)
    ensures
        file_views(files@) == script_files(texts(paths@)),
{
    let ghost given = texts(paths@);
    let mut files: Vec<ScriptFile> = Vec::new();
    let mut k: usize = 0;
    proof {
        assert(given.subrange(0, 0) =~= Seq::empty());
        assert(file_views(files@) =~= Seq::empty());
    }
    while k < paths.len()
        invariant
            k <= paths@.len(),
            given == texts(paths@),
            file_views(files@) == script_files(given.subrange(0, k as int)),
        decreases paths@.len() - k,
    {
        let path = &paths[k];
        proof {
            let seen = given.subrange(0, k as int);
            let wider = given.subrange(0, k + 1);
            assert(wider.drop_last() =~= seen);
            assert(wider.last() == path@);
        }
        let ext = extension(path.as_str());
        let is_sql = match &ext {
            Some(ext) => *ext == String::from_str("sql"),
            None => false,
        };
        if is_sql {
            match parent(path.as_str()) {
                Some(folder) => {
                    let ghost before = file_views(files@);
                    let file = ScriptFile {
                        path: path.clone(),
                        folder_name: file_name(folder.as_str()),
                        stem: file_stem(path.as_str()),
                        folder,
                    };
                    assert(file@ == script_file_of(path@).unwrap());
                    files.push(file);
                    assert(file_views(files@) =~= before.push(script_file_of(path@).unwrap()));
                },
                None => {},
            }
        }
        k += 1;
    }
    assert(given.subrange(0, k as int) =~= given);
    files
}

/// The units that the paths of a migration directory make up, in the order
/// of their stamps.
///
/// The script files among the paths are grouped by folder, and [`discover`]
/// makes the units of them, and fails as it does.
pub fn search_for_migrations(paths: &Vec<String>) -> (result: Result<Vec<FileMigration>, Error>)
    ensures
        is_discovery(script_files(texts(paths@)), result),
{
    let files = script_files_in(paths);
    discover(&files)
}

/// The folder of a path.
///
/// Fails with a `PathError` where the path has none.
pub fn parent_path(path: &str) -> (result: Result<String, Error>)
    ensures
        match result {
            Ok(folder) => path_parent(path@) == Some(folder@),
            Err(e) => path_parent(path@) is None && e.kind_of() == ErrorKind::PathError,
        },
{
    match parent(path) {
        Some(folder) => Ok(folder),
        None => Err(
            Error::PathError(
                String::from_str("Error extracting parent path from: ").concat(path),
            ),
        ),
    }
}

} // verus!
