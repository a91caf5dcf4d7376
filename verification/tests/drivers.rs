//! The two drivers and the gateway: sqlite in memory, and postgres behind a
//! runner that plays the part of its client.

use std::cell::RefCell;

use migrant_lib::drivers::pg::{self, Output};
use migrant_lib::drivers::sqlite;
use migrant_lib::drivers::{CREATE_TABLE, GET_MIGRATIONS, PG_MIGRATION_TABLE_EXISTS};
use migrant_lib::gateway::run_migration;
use migrant_lib::{Config, DbConn, DbKind, ErrorKind, Script, Settings};

fn none(_: Vec<String>) -> Result<Output, String> {
    panic!("no command is to be run")
}

fn unread(_: String) -> Result<String, String> {
    panic!("no file is to be read")
}

fn wrote(text: &str) -> Result<Output, String> {
    Ok(Output { success: true, stdout: text.to_string(), stderr: String::new() })
}

/// A database in memory that lives as long as one connection to it is open.
fn memory(name: &str) -> String {
    format!("file:{}?mode=memory&cache=shared", name)
}

/// What a client of postgres does, kept in memory.
struct Server {
    table: bool,
    tags: Vec<String>,
    asked: Vec<Vec<String>>,
}

fn between<'a>(text: &'a str, before: &str, after: &str) -> &'a str {
    let start = text.find(before).expect("the statement names a tag") + before.len();
    let end = text.rfind(after).expect("the statement ends");
    &text[start..end]
}

fn answer(server: &RefCell<Server>, arguments: Vec<String>) -> Result<Output, String> {
    let mut server = server.borrow_mut();
    server.asked.push(arguments.clone());
    assert_eq!(arguments[0], "postgres://me@localhost:5432/app");
    if arguments.len() == 3 {
        assert_eq!(arguments[1..], [String::from("-c"), String::new()]);
        return wrote("");
    }
    assert_eq!(arguments[1..7], ["-v", "ON_ERROR_STOP=1", "-t", "-A", "-F,", "-c"]);
    let statement = arguments[7].as_str();
    if statement == PG_MIGRATION_TABLE_EXISTS {
        wrote(if server.table { "t\n" } else { "f\n" })
    } else if statement == CREATE_TABLE {
        server.table = true;
        wrote("CREATE TABLE\n")
    } else if statement == GET_MIGRATIONS {
        let mut text = String::new();
        for tag in &server.tags {
            text.push_str(tag);
            text.push('\n');
        }
        wrote(&text)
    } else if statement.starts_with("prepare stmt as insert") {
        let tag = between(statement, "execute stmt('", "'); deallocate stmt;").to_string();
        if server.tags.contains(&tag) {
            return Ok(Output {
                success: false,
                stdout: String::new(),
                stderr: String::from("duplicate key"),
            });
        }
        server.tags.push(tag);
        wrote("")
    } else if statement.starts_with("prepare stmt as delete") {
        let tag = between(statement, "execute stmt('", "'); deallocate stmt;").to_string();
        server.tags.retain(|held| *held != tag);
        wrote("")
    } else {
        panic!("unexpected statement: {}", statement)
    }
}

#[test]
fn sqlite() {
    let path = memory("migrant_sqlite");
    let _keep = sqlite::connect(&path).expect("the database opens");

    // no table before setup
    let is_setup = sqlite::migration_table_exists(&path).expect("the database answers");
    assert_eq!(false, is_setup, "Assert migration table does not exist");

    // setup migration table
    let was_setup = sqlite::migration_setup(&path).expect("the table is created");
    assert_eq!(true, was_setup, "Assert `migration_setup` initializes migration table");
    let was_setup = sqlite::migration_setup(&path).expect("the database answers");
    assert_eq!(false, was_setup, "Assert `migration_setup` is idempotent");

    // table exists after setup
    let is_setup = sqlite::migration_table_exists(&path).expect("the database answers");
    assert!(is_setup, "Assert migration table exists");

    // insert some tags
    sqlite::insert_migration_tag(&path, "initial").expect("a tag is added");
    sqlite::insert_migration_tag(&path, "alter1").expect("a tag is added");
    sqlite::insert_migration_tag(&path, "alter2").expect("a tag is added");

    // get applied
    let migs = sqlite::select_migrations(&path).expect("the tags are read");
    assert_eq!(3, migs.len(), "Assert 3 migrations applied");
    assert_eq!(migs, vec!["initial", "alter1", "alter2"]);

    // remove some tags
    sqlite::remove_migration_tag(&path, "alter2").expect("a tag is removed");
    let migs = sqlite::select_migrations(&path).expect("the tags are read");
    assert_eq!(2, migs.len(), "Assert 2 migrations applied");

    sqlite::remove_migration_tag(&path, "alter1").expect("a tag is removed");
    sqlite::remove_migration_tag(&path, "initial").expect("a tag is removed");
    let migs = sqlite::select_migrations(&path).expect("the tags are read");
    assert_eq!(0, migs.len(), "Assert all migrations removed");
}

#[test]
fn postgres() {
    let conn_str = "postgres://me@localhost:5432/app";
    let server = RefCell::new(Server { table: false, tags: vec![], asked: vec![] });
    let run = |arguments: Vec<String>| answer(&server, arguments);

    assert!(pg::can_connect(&run, conn_str).expect("the client runs"));

    // no table before setup
    let is_setup = pg::migration_table_exists(&run, conn_str).expect("the client runs");
    assert_eq!(false, is_setup, "Assert migration table does not exist");

    // setup migration table
    let was_setup = pg::migration_setup(&run, conn_str).expect("the table is created");
    assert_eq!(true, was_setup, "Assert `migration_setup` initializes migration table");
    let was_setup = pg::migration_setup(&run, conn_str).expect("the client runs");
    assert_eq!(false, was_setup, "Assert `migration_setup` is idempotent");

    // table exists after setup
    let is_setup = pg::migration_table_exists(&run, conn_str).expect("the client runs");
    assert!(is_setup, "Assert migration table exists");

    // insert some tags
    pg::insert_migration_tag(&run, conn_str, "initial").expect("a tag is added");
    pg::insert_migration_tag(&run, conn_str, "alter1").expect("a tag is added");
    pg::insert_migration_tag(&run, conn_str, "alter2").expect("a tag is added");

    // get applied
    let migs = pg::select_migrations(&run, conn_str).expect("the tags are read");
    assert_eq!(3, migs.len(), "Assert 3 migrations applied");
    assert_eq!(migs, vec!["initial", "alter1", "alter2"]);

    // remove some tags
    pg::remove_migration_tag(&run, conn_str, "alter2").expect("a tag is removed");
    let migs = pg::select_migrations(&run, conn_str).expect("the tags are read");
    assert_eq!(2, migs.len(), "Assert 2 migrations applied");

    pg::remove_migration_tag(&run, conn_str, "alter1").expect("a tag is removed");
    pg::remove_migration_tag(&run, conn_str, "initial").expect("a tag is removed");
    let migs = pg::select_migrations(&run, conn_str).expect("the tags are read");
    assert_eq!(0, migs.len(), "Assert all migrations removed");

    // a statement that fails is a migration error
    pg::insert_migration_tag(&run, conn_str, "twice").expect("a tag is added");
    let error = pg::insert_migration_tag(&run, conn_str, "twice").expect_err("a duplicate");
    assert_eq!(error.kind(), ErrorKind::Migration);
    assert_eq!(
        error.to_string(),
        "MigrationError: Error executing statement, stderr: `duplicate key`"
    );
}

#[test]
fn the_client_of_postgres_is_handed_its_arguments() {
    let asked = RefCell::new(vec![]);
    let run = |arguments: Vec<String>| {
        asked.borrow_mut().push(arguments);
        wrote("  out \n")
    };
    assert_eq!(pg::psql_cmd(&run, "conn", "select 1;").expect("the client runs"), "  out \n");
    pg::run_migration(&run, "conn", "/m/up.sql").expect("the client runs");
    pg::run_migration_str(&run, "conn", "create table t();").expect("the client runs");
    pg::insert_migration_tag(&run, "conn", "init").expect("the client runs");
    pg::remove_migration_tag(&run, "conn", "init").expect("the client runs");
    assert_eq!(
        asked.into_inner(),
        vec![
            vec!["conn", "-v", "ON_ERROR_STOP=1", "-t", "-A", "-F,", "-c", "select 1;"],
            vec!["conn", "-v", "ON_ERROR_STOP=1", "-f", "/m/up.sql"],
            vec!["conn", "-v", "ON_ERROR_STOP=1", "-t", "-A", "-F,", "-c", "create table t();"],
            vec![
                "conn", "-v", "ON_ERROR_STOP=1", "-t", "-A", "-F,", "-c",
                "prepare stmt as insert into __migrant_migrations (tag) values ($1); execute stmt('init'); deallocate stmt;"
            ],
            vec![
                "conn", "-v", "ON_ERROR_STOP=1", "-t", "-A", "-F,", "-c",
                "prepare stmt as delete from __migrant_migrations where tag = $1; execute stmt('init'); deallocate stmt;"
            ],
        ]
    );
}

#[test]
fn a_client_that_cannot_be_run_is_a_shell_error() {
    let run = |_: Vec<String>| -> Result<Output, String> { Err(String::from("not found")) };
    let error = pg::psql_cmd(&run, "conn", "select 1;").expect_err("no client");
    assert_eq!(error.kind(), ErrorKind::ShellCommand);
    assert_eq!(
        error.to_string(),
        "ShellCommandError: Error running command `psql`. Is it available on your PATH?"
    );
    assert_eq!(pg::can_connect(&run, "conn").expect_err("no client").kind(), ErrorKind::ShellCommand);
    assert_eq!(
        pg::run_migration(&run, "conn", "/m/up.sql").expect_err("no client").kind(),
        ErrorKind::ShellCommand
    );
    assert_eq!(pg::migration_setup(&run, "conn").expect_err("no client").kind(), ErrorKind::ShellCommand);
}

#[test]
fn a_client_that_ends_badly_cannot_connect() {
    let run = |_: Vec<String>| -> Result<Output, String> {
        Ok(Output { success: false, stdout: String::new(), stderr: String::from("refused") })
    };
    assert_eq!(pg::can_connect(&run, "conn").expect("the client runs"), false);
    assert_eq!(
        pg::run_migration(&run, "conn", "/m/up.sql").expect_err("it ended badly").kind(),
        ErrorKind::Migration
    );
}

#[test]
fn what_the_client_wrote_is_trimmed_and_split() {
    assert!(pg::table_exists_in("t"));
    assert!(pg::table_exists_in(" t \n"));
    assert!(!pg::table_exists_in("f\n"));
    assert!(!pg::table_exists_in(""));
    assert!(!pg::table_exists_in("t t"));
    assert_eq!(pg::tags_written("a\nb\n"), vec!["a", "b"]);
    assert_eq!(pg::tags_written("\n  a\r\nb  \n\n"), vec!["a", "b"]);
    assert_eq!(pg::tags_written(""), Vec::<String>::new());
}

#[test]
fn what_the_driver_hands_back_is_made_into_results() {
    assert_eq!(sqlite::delivered(Ok(7)).expect("a value"), 7);
    assert_eq!(sqlite::delivered(Ok(vec!["a"])).expect("a value"), vec!["a"]);
    let error = sqlite::delivered::<bool>(Err(rusqlite::Error::QueryReturnedNoRows))
        .expect_err("a failure");
    assert_eq!(error.kind(), ErrorKind::Sqlite);
    assert_eq!(error.to_string(), "Query returned no rows");

    assert!(sqlite::changed(Ok(0)).is_ok());
    assert!(sqlite::changed(Ok(3)).is_ok());
    let error = sqlite::changed(Err(rusqlite::Error::InvalidQuery)).expect_err("a failure");
    assert_eq!(error.kind(), ErrorKind::Sqlite);

    assert_eq!(sqlite::created(Ok(0)).expect("created"), true);
    let error = sqlite::created(Err(rusqlite::Error::InvalidQuery)).expect_err("a failure");
    assert_eq!(error.kind(), ErrorKind::Sqlite);

    assert!(sqlite::ran(Ok(())).is_ok());
    let error = sqlite::ran(Err(rusqlite::Error::QueryReturnedNoRows)).expect_err("a failure");
    assert_eq!(error.kind(), ErrorKind::Migration);
    assert_eq!(error.to_string(), "MigrationError: Query returned no rows");
}

#[test]
fn errors_that_are_made_say_what_went_wrong() {
    let run = |_: Vec<String>| -> Result<Output, String> {
        Ok(Output { success: false, stdout: String::new(), stderr: String::from("no such table") })
    };
    let error = pg::psql_cmd(&run, "conn", "select 1;").expect_err("it ended badly");
    assert_eq!(
        error.to_string(),
        "MigrationError: Error executing statement, stderr: `no such table`"
    );
    let error = postgres_config().insert_migration_tag("a", &run).expect_err("it ended badly");
    assert_eq!(
        error.to_string(),
        "MigrationError: MigrationError: Error executing statement, stderr: `no such table`"
    );
}

#[test]
fn statements_run_against_sqlite() {
    let path = memory("migrant_statements");
    let keep = sqlite::connect(&path).expect("the database opens");
    sqlite::run_migration_str(&path, "").expect("nothing to run");
    sqlite::run_migration_str(&path, "create table t(x); insert into t values (1);")
        .expect("the statements run");
    sqlite::run_migration(&path, "insert into t values (2);").expect("the statements run");
    let count: i64 = keep
        .query_row("select count(*) from t", [], |row| row.get(0))
        .expect("the table is there");
    assert_eq!(count, 2);
    let error = sqlite::run_migration_str(&path, "insert into nowhere values (1);")
        .expect_err("no such table");
    assert_eq!(error.kind(), ErrorKind::Migration);
    assert!(error.to_string().starts_with("MigrationError: "));
    assert!(error.to_string().contains("nowhere"));
}

#[test]
fn a_database_that_cannot_be_opened_is_a_driver_error() {
    let path = "/nowhere/at/all/app.db";
    assert_eq!(sqlite::connect(path).err().expect("no such folder").kind(), ErrorKind::Sqlite);
    assert_eq!(sqlite::select_migrations(path).expect_err("no such folder").kind(), ErrorKind::Sqlite);
    assert_eq!(sqlite::migration_setup(path).expect_err("no such folder").kind(), ErrorKind::Sqlite);
    assert_eq!(
        sqlite::insert_migration_tag(path, "a").expect_err("no such folder").kind(),
        ErrorKind::Sqlite
    );
    assert_eq!(
        sqlite::run_migration_str(path, "select 1;").expect_err("no such folder").kind(),
        ErrorKind::Migration
    );
    let missing = memory("migrant_no_table");
    let _keep = sqlite::connect(&missing).expect("the database opens");
    let error = sqlite::select_migrations(&missing).expect_err("no table");
    assert_eq!(error.kind(), ErrorKind::Sqlite);
    assert!(!error.to_string().is_empty());
}

fn sqlite_config(name: &str) -> Config {
    let settings = Settings::from_values(
        String::from("sqlite"),
        None,
        Some(memory(name)),
        None,
        None,
        None,
        None,
        None,
        None,
    );
    // The path of the database is taken from the folder of the settings
    // file, which here is the empty one, so that it stays as it is.
    Config::from_settings_file(".migrant.toml", settings)
}

fn postgres_config() -> Config {
    let mut settings = Settings::with_db_type(DbKind::Postgres);
    settings.database_name("app").database_user("me");
    Config::with_settings(&settings)
}

#[test]
fn the_gateway_finds_its_way_by_the_kind_of_database() {
    let server = RefCell::new(Server { table: false, tags: vec![], asked: vec![] });
    let run = |arguments: Vec<String>| answer(&server, arguments);
    let config = postgres_config();
    assert_eq!(config.setup(&run).expect("the table is created"), true);
    assert_eq!(config.setup(&run).expect("the table is there"), false);
    assert!(config.migration_table_exists(&run).expect("the client runs"));
    config.insert_migration_tag("a", &run).expect("a tag is added");
    config.insert_migration_tag("b", &run).expect("a tag is added");
    config.delete_migration_tag("a", &run).expect("a tag is removed");
    assert_eq!(config.select_migrations(&run).expect("the tags are read"), vec!["b"]);
    assert_eq!(server.borrow().tags, vec!["b"]);

    let unknown = Config::with_settings(&Settings::from_values(
        String::from("mysql"),
        None,
        None,
        None,
        None,
        None,
        None,
        None,
        None,
    ));
    assert_eq!(unknown.setup(&none).expect_err("not a kind").kind(), ErrorKind::InvalidDbKind);
    let lost = |_: Vec<String>| -> Result<Output, String> { Err(String::from("not found")) };
    let error = config.insert_migration_tag("c", &lost).expect_err("no client");
    assert_eq!(error.kind(), ErrorKind::Migration);
    assert_eq!(
        error.to_string(),
        "MigrationError: ShellCommandError: Error running command `psql`. Is it available on your PATH?"
    );
    assert_eq!(config.setup(&lost).expect_err("no client").kind(), ErrorKind::Migration);
    assert_eq!(
        unknown.insert_migration_tag("a", &none).expect_err("not a kind").kind(),
        ErrorKind::InvalidDbKind
    );

    let pathless = Config::with_settings(&Settings::with_db_type(DbKind::Sqlite));
    assert_eq!(pathless.select_migrations(&none).expect_err("no path").kind(), ErrorKind::Config);
}

#[test]
fn setup_needs_a_database_within_reach() {
    let run = |_: Vec<String>| -> Result<Output, String> {
        Ok(Output { success: false, stdout: String::new(), stderr: String::from("refused") })
    };
    let error = postgres_config().setup(&run).expect_err("out of reach");
    assert_eq!(error.kind(), ErrorKind::Config);
    assert!(error.to_string().contains("postgres://me@localhost:5432/app"));
}

#[test]
fn the_gateway_reaches_sqlite_without_a_runner() {
    let keep = sqlite::connect(&memory("migrant_gateway")).expect("the database opens");
    let config = sqlite_config("migrant_gateway");
    assert!(!config.migration_table_exists(&none).expect("the database answers"));
    assert_eq!(config.setup(&none).expect("the table is created"), true);
    config.insert_migration_tag("a", &none).expect("a tag is added");
    config.insert_migration_tag("b", &none).expect("a tag is added");
    config.delete_migration_tag("a", &none).expect("a tag is removed");
    let stored = config.select_migrations(&none).expect("the tags are read");
    assert_eq!(stored, vec!["b"]);
    let mut explicit = config.clone();
    explicit.use_migrations(vec![]).expect("no tags");
    assert_eq!(
        explicit.reload(None, true, &stored).expect("a name").applied(),
        &vec![String::from("b")]
    );
    assert_eq!(
        config.insert_migration_tag("b", &none).expect_err("tags are unique").kind(),
        ErrorKind::Migration
    );
    drop(keep);
}

#[test]
fn scripts_are_run_by_the_driver_of_the_database() {
    let keep = sqlite::connect(&memory("migrant_scripts")).expect("the database opens");
    let config = sqlite_config("migrant_scripts");
    run_migration(&config, &Script::Empty, &unread, &none).expect("nothing to run");
    let create = Script::Statement(String::from("create table t(x);"));
    run_migration(&config, &create, &unread, &none).expect("the statement runs");
    let read = |path: String| -> Result<String, String> {
        assert_eq!(path, "/m/up.sql");
        Ok(String::from("insert into t values (1); insert into t values (2);"))
    };
    run_migration(&config, &Script::File(String::from("/m/up.sql")), &read, &none)
        .expect("the file runs");
    let count: i64 = keep
        .query_row("select count(*) from t", [], |row| row.get(0))
        .expect("the table is there");
    assert_eq!(count, 2);

    let lost = |_: String| -> Result<String, String> { Err(String::from("no such file")) };
    let error = run_migration(&config, &Script::File(String::from("/m/up.sql")), &lost, &none)
        .expect_err("the file cannot be read");
    assert_eq!(error.kind(), ErrorKind::Io);
    assert_eq!(error.to_string(), "no such file");

    let error = run_migration(&config, &Script::Callback, &unread, &none)
        .expect_err("a callback is for the program");
    assert_eq!(error.kind(), ErrorKind::Migration);
}

#[test]
fn scripts_for_postgres_go_to_its_client() {
    let asked = RefCell::new(vec![]);
    let run = |arguments: Vec<String>| {
        asked.borrow_mut().push(arguments);
        wrote("")
    };
    let config = postgres_config();
    run_migration(&config, &Script::File(String::from("/m/up.sql")), &unread, &run)
        .expect("the client runs");
    run_migration(&config, &Script::Statement(String::from("select 1;")), &unread, &run)
        .expect("the client runs");
    assert_eq!(
        asked.into_inner(),
        vec![
            vec!["postgres://me@localhost:5432/app", "-v", "ON_ERROR_STOP=1", "-f", "/m/up.sql"],
            vec![
                "postgres://me@localhost:5432/app",
                "-v",
                "ON_ERROR_STOP=1",
                "-t",
                "-A",
                "-F,",
                "-c",
                "select 1;"
            ],
        ]
    );
}

#[test]
fn a_handle_opens_the_database_file() {
    let keep = sqlite::connect(&memory("migrant_handle")).expect("the database opens");
    keep.execute_batch("create table t(x); insert into t values (7);").expect("the table is made");
    let config = sqlite_config("migrant_handle");
    let conn = DbConn::new(&config).sqlite_connection().expect("the database opens");
    let value: i64 =
        conn.query_row("select x from t", [], |row| row.get(0)).expect("the row is there");
    assert_eq!(value, 7);

    let network = postgres_config();
    let error = DbConn::new(&network).sqlite_connection().err().expect("not sqlite");
    assert_eq!(error.kind(), ErrorKind::Config);
}
