//! Discovery and registration of migration units.

use migrant_lib::migration::Migratable;
use migrant_lib::project::{script_files_in, NewMigration};
use migrant_lib::{
    discover, new, next_available, parent_path, search_for_migrations, Config, DbKind, Direction,
    EmbeddedMigration, ErrorKind, FileMigration, FnMigration, Migration, Script, ScriptFile,
    Settings,
};

fn strings(items: &[&str]) -> Vec<String> {
    items.iter().map(|item| item.to_string()).collect()
}

fn file(folder: &str, name: Option<&str>, stem: Option<&str>) -> ScriptFile {
    ScriptFile {
        path: format!("{}/{}.sql", folder, stem.unwrap_or("odd")),
        folder: folder.to_string(),
        folder_name: name.map(|name| name.to_string()),
        stem: stem.map(|stem| stem.to_string()),
    }
}

fn pair(folder: &str, name: &str) -> Vec<ScriptFile> {
    vec![file(folder, Some(name), Some("up")), file(folder, Some(name), Some("down"))]
}

fn tags(units: &[FileMigration]) -> Vec<String> {
    units.iter().map(|unit| unit.tag()).collect()
}

#[test]
fn discovery_orders_units_by_stamp() {
    let mut files = vec![];
    files.extend(pair("/m/20230301000000_c", "20230301000000_c"));
    files.extend(pair("/m/20230101000000_a", "20230101000000_a"));
    files.extend(pair("/m/20230201000000_b", "20230201000000_b"));
    let units = discover(&files).expect("three sound folders");
    assert_eq!(
        tags(&units),
        strings(&["20230101000000_a", "20230201000000_b", "20230301000000_c"])
    );
    assert_eq!(units[0].stamp().expect("a stamp").value(), 20230101000000);
    assert!(matches!(units[0].script(&Direction::Up), Script::File(path)
        if path == "/m/20230101000000_a/up.sql"));
    assert!(matches!(units[0].script(&Direction::Down), Script::File(path)
        if path == "/m/20230101000000_a/down.sql"));
    assert_eq!(units[2].description(&Direction::Down), "\"/m/20230301000000_c/down.sql\"");
}

#[test]
fn discovery_groups_files_by_folder_whatever_their_order() {
    let a = "/m/20230101000000_a";
    let b = "/m/20230201000000_b";
    let files = vec![
        file(b, Some("20230201000000_b"), Some("down")),
        file(a, Some("20230101000000_a"), Some("up")),
        file(b, Some("20230201000000_b"), Some("up")),
        file(a, Some("20230101000000_a"), Some("down")),
    ];
    let units = discover(&files).expect("two sound folders");
    assert_eq!(tags(&units), strings(&["20230101000000_a", "20230201000000_b"]));
}

#[test]
fn discovery_of_nothing_finds_nothing() {
    assert!(discover(&vec![]).expect("nothing to fail on").is_empty());
}

#[test]
fn a_folder_without_up_or_down_is_not_found() {
    let folder = "/m/20230101000000_a";
    let only_up = vec![file(folder, Some("20230101000000_a"), Some("up"))];
    let error = discover(&only_up).expect_err("no down");
    assert_eq!(error.kind(), ErrorKind::MigrationNotFound);
    assert_eq!(
        error.to_string(),
        "MigrationNotFound: Down migration not found for tag: 20230101000000_a"
    );
    let only_down = vec![file(folder, Some("20230101000000_a"), Some("down"))];
    let error = discover(&only_down).expect_err("no up");
    assert_eq!(error.kind(), ErrorKind::MigrationNotFound);
    let other = vec![file(folder, Some("20230101000000_a"), Some("seed"))];
    let error = discover(&other).expect_err("neither");
    assert_eq!(error.kind(), ErrorKind::MigrationNotFound);
}

#[test]
fn a_folder_that_is_no_generated_tag_is_a_tag_error() {
    for name in ["init", "2023_init", "20230101000000init", "20231301000000_init", "20230101000000_In"] {
        let error = discover(&pair("/m/x", name)).expect_err(name);
        assert_eq!(error.kind(), ErrorKind::TagError);
    }
}

#[test]
fn an_unreadable_name_is_a_path_error() {
    let folder = "/m/20230101000000_a";
    let error = discover(&vec![file(folder, None, Some("up"))]).expect_err("no folder name");
    assert_eq!(error.kind(), ErrorKind::PathError);
    let files = vec![
        file(folder, Some("20230101000000_a"), Some("up")),
        file(folder, Some("20230101000000_a"), Some("down")),
        file(folder, Some("20230101000000_a"), None),
    ];
    let error = discover(&files).expect_err("no stem");
    assert_eq!(error.kind(), ErrorKind::PathError);
}

#[test]
fn the_first_defective_folder_decides_the_error() {
    let mut files = vec![];
    files.extend(pair("/m/20230101000000_a", "20230101000000_a"));
    files.push(file("/m/20230201000000_b", Some("20230201000000_b"), Some("up")));
    files.extend(pair("/m/bad", "bad"));
    let error = discover(&files).expect_err("the second folder lacks its down");
    assert_eq!(error.kind(), ErrorKind::MigrationNotFound);
}

#[test]
fn two_folders_of_one_name_are_a_tag_error() {
    let mut files = vec![];
    files.extend(pair("/m/a/20230101000000_x", "20230101000000_x"));
    files.extend(pair("/m/20230201000000_y", "20230201000000_y"));
    files.extend(pair("/m/b/20230101000000_x", "20230101000000_x"));
    let error = discover(&files).expect_err("one name, two folders");
    assert_eq!(error.kind(), ErrorKind::TagError);

    // The same stamp with another name is another tag.
    let mut files = vec![];
    files.extend(pair("/m/20230101000000_x", "20230101000000_x"));
    files.extend(pair("/m/20230101000000_y", "20230101000000_y"));
    let units = discover(&files).expect("two tags");
    assert_eq!(tags(&units), strings(&["20230101000000_x", "20230101000000_y"]));
}

#[test]
fn script_files_are_the_paths_that_end_in_sql() {
    let paths = strings(&[
        "/m",
        "/m/20230101000000_a",
        "/m/20230101000000_a/up.sql",
        "/m/20230101000000_a/down.sql",
        "/m/20230101000000_a/notes.txt",
        "/m/20230101000000_a/README",
        "/m/20230101000000_a/up.SQL",
    ]);
    let files = script_files_in(&paths);
    assert_eq!(files.len(), 2);
    assert_eq!(files[0].path, "/m/20230101000000_a/up.sql");
    assert_eq!(files[0].folder, "/m/20230101000000_a");
    assert_eq!(files[0].folder_name, Some(String::from("20230101000000_a")));
    assert_eq!(files[0].stem, Some(String::from("up")));
    assert_eq!(files[1].stem, Some(String::from("down")));
}

#[test]
fn a_search_makes_units_of_paths() {
    let paths = strings(&[
        "/m/20230201000000_b/down.sql",
        "/m/20230201000000_b/up.sql",
        "/m/20230101000000_a/up.sql",
        "/m/20230101000000_a/down.sql",
        "/m/readme.md",
    ]);
    let units = search_for_migrations(&paths).expect("two sound folders");
    assert_eq!(tags(&units), strings(&["20230101000000_a", "20230201000000_b"]));

    let error = search_for_migrations(&strings(&["/m/20230101000000_a/up.sql"]))
        .expect_err("no down");
    assert_eq!(error.kind(), ErrorKind::MigrationNotFound);
}

#[test]
fn registration_refuses_a_tag_that_occurs_twice() {
    let mut config = Config::with_settings(&Settings::with_db_type(DbKind::Sqlite));
    let x = EmbeddedMigration::with_tag("x").expect("the tag is a name");
    let error = config
        .use_migrations(vec![x.boxed(), x.boxed()])
        .expect_err("the tag occurs twice");
    assert_eq!(error.kind(), ErrorKind::TagError);
    assert_eq!(error.to_string(), "TagError: Tags must be unique. Found duplicate: x");
    assert!(!config.is_explicit());
    assert!(config.migrations().is_none());
}

#[test]
fn registration_keeps_the_order_given() {
    let mut config = Config::with_settings(&Settings::with_db_type(DbKind::Sqlite));
    assert!(!config.is_explicit());
    let mut units = vec![];
    for tag in ["zeta", "alpha", "mid"] {
        units.push(EmbeddedMigration::with_tag(tag).expect("the tag is a name").boxed());
    }
    config.use_migrations(units).expect("the tags differ");
    assert!(config.is_explicit());
    let kept: Vec<String> =
        config.migrations().expect("registered").iter().map(|unit| unit.tag()).collect();
    assert_eq!(kept, strings(&["zeta", "alpha", "mid"]));
}

#[test]
fn units_of_every_variant_can_be_registered() {
    let mut file = FileMigration::with_tag("second").expect("the tag is a name");
    file.up("migrations/second/up.sql", true)
        .expect("the file exists")
        .down("migrations/second/down.sql", true)
        .expect("the file exists");
    let mut embedded = EmbeddedMigration::with_tag("initial").expect("the tag is a name");
    embedded.up("create table t(x)").down("drop table t");
    let mut custom: FnMigration<fn(migrant_lib::DbConn) -> Result<(), String>, fn(migrant_lib::DbConn) -> Result<(), String>> =
        FnMigration::with_tag("custom").expect("the tag is a name");
    fn ok(_: migrant_lib::DbConn) -> Result<(), String> {
        Ok(())
    }
    custom.up(ok);

    let mut config = Config::with_settings(&Settings::with_db_type(DbKind::Sqlite));
    config
        .use_migrations(vec![embedded.boxed(), file.boxed(), custom.boxed()])
        .expect("the tags differ");
    let units = config.migrations().expect("registered");
    assert!(matches!(units[0].script(&Direction::Up), Script::Statement(text)
        if text == "create table t(x)"));
    assert!(matches!(units[1].script(&Direction::Down), Script::File(path)
        if path == "migrations/second/down.sql"));
    assert!(matches!(units[2].script(&Direction::Up), Script::Callback));
    assert!(matches!(units[2].script(&Direction::Down), Script::Empty));
    assert_eq!(units[1].description(&Direction::Up), "\"migrations/second/up.sql\"");
    assert_eq!(units[2].description(&Direction::Up), "custom");
}

#[test]
fn units_refuse_tags_that_are_no_names() {
    assert_eq!(
        EmbeddedMigration::with_tag("Bad Tag").expect_err("no name").kind(),
        ErrorKind::TagError
    );
    assert_eq!(FileMigration::with_tag("").expect_err("empty").kind(), ErrorKind::TagError);
    let made: Result<FnMigration<fn(), fn()>, _> = FnMigration::with_tag("a_b");
    assert_eq!(made.expect_err("an underscore").kind(), ErrorKind::TagError);
}

#[test]
fn a_script_file_must_exist() {
    let mut unit = FileMigration::with_tag("second").expect("the tag is a name");
    let error = unit.up("nowhere/up.sql", false).expect_err("the file is missing");
    assert_eq!(error.kind(), ErrorKind::MigrationNotFound);
    assert_eq!(
        error.to_string(),
        "MigrationNotFound: Migration file not found: \"nowhere/up.sql\""
    );
    let error = unit.down("nowhere/down.sql", false).expect_err("the file is missing");
    assert_eq!(error.kind(), ErrorKind::MigrationNotFound);
    assert!(matches!(unit.script(&Direction::Up), Script::Empty));
    assert!(matches!(unit.script(&Direction::Down), Script::Empty));
    unit.down("migrations/second/down.sql", true).expect("the file exists");
    assert!(matches!(unit.script(&Direction::Down), Script::File(_)));
}

#[test]
fn callbacks_run_where_there_is_one() {
    fn fails(_: migrant_lib::DbConn) -> Result<(), String> {
        Err(String::from("no"))
    }
    let config = Config::with_settings(&Settings::with_db_type(DbKind::Sqlite));
    let mut custom: FnMigration<fn(migrant_lib::DbConn) -> Result<(), String>, fn(migrant_lib::DbConn) -> Result<(), String>> =
        FnMigration::with_tag("custom").expect("the tag is a name");
    assert_eq!(custom.apply_up(migrant_lib::DbConn::new(&config)), Ok(()));
    custom.up(fails);
    assert_eq!(custom.apply_up(migrant_lib::DbConn::new(&config)), Err(String::from("no")));
    assert_eq!(custom.apply_down(migrant_lib::DbConn::new(&config)), Ok(()));
}

fn embedded_units(tags: &[&str]) -> Vec<Migration> {
    tags.iter()
        .map(|tag| *EmbeddedMigration::with_tag(tag).expect("the tag is a name").boxed())
        .collect()
}

#[test]
fn up_resolves_the_first_unit_that_is_not_applied() {
    let units = embedded_units(&["a", "b", "c"]);
    let next = next_available(&Direction::Up, &units, &[]).expect("no error going up");
    assert_eq!(next.expect("a unit").tag(), "a");
    let next = next_available(&Direction::Up, &units, &strings(&["a"])).expect("no error");
    assert_eq!(next.expect("a unit").tag(), "b");
    let next = next_available(&Direction::Up, &units, &strings(&["c", "a"])).expect("no error");
    assert_eq!(next.expect("a unit").tag(), "b");
    let next = next_available(&Direction::Up, &units, &strings(&["b", "c", "a"])).expect("no error");
    assert!(next.is_none());
    let none: Vec<Migration> = vec![];
    assert!(next_available(&Direction::Up, &none, &strings(&["a"])).expect("no error").is_none());
}

#[test]
fn down_resolves_the_unit_that_was_applied_last() {
    let units = embedded_units(&["a", "b", "c"]);
    let next = next_available(&Direction::Down, &units, &strings(&["a", "b"])).expect("known");
    assert_eq!(next.expect("a unit").tag(), "b");
    let next = next_available(&Direction::Down, &units, &strings(&["c", "a"])).expect("known");
    assert_eq!(next.expect("a unit").tag(), "a");
    assert!(next_available(&Direction::Down, &units, &[]).expect("nothing applied").is_none());
    let error = next_available(&Direction::Down, &units, &strings(&["a", "gone"]))
        .err()
        .expect("the unit is missing");
    assert_eq!(error.kind(), ErrorKind::MigrationNotFound);
    let none: Vec<Migration> = vec![];
    let error = next_available(&Direction::Down, &none, &strings(&["a"]))
        .err()
        .expect("the source is empty");
    assert_eq!(error.kind(), ErrorKind::MigrationNotFound);
}

#[test]
fn a_new_migration_goes_into_the_migration_directory() {
    let mut settings = Settings::with_db_type(DbKind::Sqlite);
    settings.migration_location("/project/migrations").expect("a location is always taken");
    let config = Config::with_settings(&settings);
    let made: NewMigration = new(&config, "add-users", "20230401120000").expect("a name and a time");
    assert_eq!(made.folder, "/project/migrations/20230401120000_add-users");
    assert_eq!(made.up, "/project/migrations/20230401120000_add-users/up.sql");
    assert_eq!(made.down, "/project/migrations/20230401120000_add-users/down.sql");

    assert_eq!(new(&config, "Add Users", "20230401120000").expect_err("no name").kind(), ErrorKind::TagError);
    assert_eq!(new(&config, "add-users", "2023").expect_err("no stamp").kind(), ErrorKind::TagError);
    let bare = Config::with_settings(&Settings::with_db_type(DbKind::Sqlite));
    assert_eq!(new(&bare, "add-users", "20230401120000").expect_err("no directory").kind(), ErrorKind::Config);
}

#[test]
fn the_folder_of_a_path() {
    assert_eq!(parent_path("/project/.migrant.toml").expect("a folder"), "/project");
    assert_eq!(parent_path("settings.toml").expect("a folder"), "");
    assert_eq!(parent_path("/").expect_err("the root").kind(), ErrorKind::PathError);
    assert_eq!(parent_path("").expect_err("nothing").kind(), ErrorKind::PathError);
}
