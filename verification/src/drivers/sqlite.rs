//! Sqlite, reached through `rusqlite`.
//!
//! What the database answers depends on what it holds, so nothing is claimed
//! of it. What is proved is what the library makes of each answer: with which
//! kind of error it fails, and that it runs nothing where there is nothing to
//! run.

use vstd::prelude::*;
use crate::drivers::{
    CREATE_TABLE, GET_MIGRATIONS, SQLITE_ADD_MIGRATION, SQLITE_DELETE_MIGRATION,
    SQLITE_MIGRATION_TABLE_EXISTS,
};
use crate::errors::{Error, ErrorKind};

verus! {

/// Opens the database at a path with `Connection::open`.
///
/// Trusted, and nothing is claimed of the outcome: it depends on what is on disk.
#[verifier::external_body]
fn open(db_path: &str) -> (result: Result<rusqlite::Connection, rusqlite::Error>) {
    rusqlite::Connection::open(db_path)
}

/// Runs statements with `Connection::execute_batch`.
///
/// Trusted, and nothing is claimed of the outcome: it depends on the database.
#[verifier::external_body]
fn execute_batch(conn: &rusqlite::Connection, sql: &str) -> (result: Result<(), rusqlite::Error>) {
    conn.execute_batch(sql)
}

/// Runs one statement with `Connection::execute`, its parameters bound to the
/// given texts in their order. Returns the number of rows that changed.
///
/// Trusted, and nothing is claimed of the outcome: it depends on the database.
#[verifier::external_body]
fn execute(conn: &rusqlite::Connection, sql: &str, params: &[&str]) -> (result: Result<
    usize,
    rusqlite::Error,
>) {
    conn.execute(sql, rusqlite::params_from_iter(params.iter()))
}

/// Reads the first column of the first row of a query as a truth value, with
/// `Connection::query_row`.
///
/// Trusted, and nothing is claimed of the outcome: it depends on the database.
#[verifier::external_body]
fn query_flag(conn: &rusqlite::Connection, sql: &str) -> (result: Result<bool, rusqlite::Error>) {
    conn.query_row(sql, [], |row| row.get(0))
}

/// Reads the first column of every row of a query as text, with
/// `Connection::prepare` and `Statement::query_map`.
///
/// Trusted, and nothing is claimed of the outcome: it depends on the database.
#[verifier::external_body]
fn query_texts(conn: &rusqlite::Connection, sql: &str) -> (result: Result<
    Vec<String>,
    rusqlite::Error,
>) {
    let mut statement = conn.prepare(sql)?;
    let rows = statement.query_map([], |row| row.get(0))?;
    rows.collect()
}

/// Writes out a failure of the driver with its `Display` form.
///
/// Trusted, and nothing is claimed of the text that comes back.
#[verifier::external_body]
fn error_text(cause: &rusqlite::Error) -> (text: String) {
    format!("{}", cause)
}

fn driver_error(cause: &rusqlite::Error) -> (error: Error)
    ensures
        error.kind_of() == ErrorKind::Sqlite,
{
    Error::Sqlite(error_text(cause))
}

fn migration_error(cause: &rusqlite::Error) -> (error: Error)
    ensures
        error.kind_of() == ErrorKind::Migration,
{
    Error::Migration(error_text(cause))
}

/// Opens a connection to the database at a path.
///
/// Fails with a `Sqlite` error where the database cannot be opened.
pub fn connect(db_path: &str) -> (result: Result<rusqlite::Connection, Error>)
    ensures
        result matches Err(e) ==> e.kind_of() == ErrorKind::Sqlite,
{
    delivered(open(db_path))
}

/// Asks the database whether it has the table of applied tags.
///
/// The driver is handed the path, to open the database, and then the
/// statement [`SQLITE_MIGRATION_TABLE_EXISTS`]. What is made of its answer is
/// what [`delivered`] says.
/// Fails with a `Sqlite` error where the database cannot be opened or asked.
pub fn migration_table_exists(db_path: &str) -> (result: Result<bool, Error>)
    ensures
        result matches Err(e) ==> e.kind_of() == ErrorKind::Sqlite,
{
    let conn = match connect(db_path) {
        Err(e) => {
            return Err(e);
        },
        Ok(conn) => conn,
    };
    delivered(query_flag(&conn, SQLITE_MIGRATION_TABLE_EXISTS))
}

/// Creates the table of applied tags unless the database has it.
///
/// The database is asked as [`migration_table_exists`] asks it. Where it has
/// no table, the driver is handed the statement [`CREATE_TABLE`], and what is
/// made of the outcome is what [`created`] says.
/// Returns whether the table was created. Fails with a `Sqlite` error where the
/// database cannot be opened or asked, or the table cannot be created.
pub fn migration_setup(db_path: &str) -> (result: Result<bool, Error>)
    ensures
        result matches Err(e) ==> e.kind_of() == ErrorKind::Sqlite,
{
    let exists = match migration_table_exists(db_path) {
        Err(e) => {
            return Err(e);
        },
        Ok(exists) => exists,
    };
    if exists {
        return Ok(false);
    }
    let conn = match connect(db_path) {
        Err(e) => {
            return Err(e);
        },
        Ok(conn) => conn,
    };
    let none: [&str; 0] = [];
    created(execute(&conn, CREATE_TABLE, &none))
}

/// Reads the applied tags, as the database gives them.
///
/// The driver is handed the path, to open the database, and then the
/// statement [`GET_MIGRATIONS`]. What is made of its answer is what
/// [`delivered`] says.
/// Fails with a `Sqlite` error where the database cannot be opened or asked.
pub fn select_migrations(db_path: &str) -> (result: Result<Vec<String>, Error>)
    ensures
        result matches Err(e) ==> e.kind_of() == ErrorKind::Sqlite,
{
    let conn = match connect(db_path) {
        Err(e) => {
            return Err(e);
        },
        Ok(conn) => conn,
    };
    delivered(query_texts(&conn, GET_MIGRATIONS))
}

/// Adds a tag to the applied tags.
///
/// The driver is handed the path, to open the database, and then the
/// statement [`SQLITE_ADD_MIGRATION`] with the tag bound to its parameter.
/// What is made of the outcome is what [`changed`] says.
/// Fails with a `Sqlite` error where the database cannot be opened or changed.
pub fn insert_migration_tag(db_path: &str, tag: &str) -> (result: Result<(), Error>)
    ensures
        result matches Err(e) ==> e.kind_of() == ErrorKind::Sqlite,
{
    let conn = match connect(db_path) {
        Err(e) => {
            return Err(e);
        },
        Ok(conn) => conn,
    };
    let params: [&str; 1] = [tag];
    changed(execute(&conn, SQLITE_ADD_MIGRATION, &params))
}

/// Removes a tag from the applied tags.
///
/// The driver is handed the path, to open the database, and then the
/// statement [`SQLITE_DELETE_MIGRATION`] with the tag bound to its parameter.
/// What is made of the outcome is what [`changed`] says.
/// Fails with a `Sqlite` error where the database cannot be opened or changed.
pub fn remove_migration_tag(db_path: &str, tag: &str) -> (result: Result<(), Error>)
    ensures
        result matches Err(e) ==> e.kind_of() == ErrorKind::Sqlite,
{
    let conn = match connect(db_path) {
        Err(e) => {
            return Err(e);
        },
        Ok(conn) => conn,
    };
    let params: [&str; 1] = [tag];
    changed(execute(&conn, SQLITE_DELETE_MIGRATION, &params))
}

/// Runs statements against the database.
///
/// Nothing is run, and the call succeeds, where there are no statements.
/// Else the driver is handed the path, to open the database, and then the
/// statements as they are. What is made of the outcome is what [`ran`]
/// says.
/// Fails with a `Migration` error where the database cannot be opened or a
/// statement fails.
pub fn run_migration_str(db_path: &str, stmt: &str) -> (result: Result<(), Error>)
    ensures
        stmt@.len() == 0 ==> result is Ok,
        result matches Err(e) ==> e.kind_of() == ErrorKind::Migration,
{
    if stmt.is_empty() {
        return Ok(());
    }
    let conn = match open(db_path) {
        Err(e) => {
            return Err(migration_error(&e));
        },
        Ok(conn) => conn,
    };
    ran(execute_batch(&conn, stmt))
}

/// Runs the statements that were read from a script file against the database.
///
/// The statements are run as [`run_migration_str`] runs them: what the file
/// held is handed on as it is, and so is the outcome.
///
/// Nothing is run, and the call succeeds, where the file held nothing. Fails
/// with a `Migration` error where the database cannot be opened or a statement
/// fails.
pub fn run_migration(db_path: &str, content: &str) -> (result: Result<(), Error>)
    ensures
        content@.len() == 0 ==> result is Ok,
        result matches Err(e) ==> e.kind_of() == ErrorKind::Migration,
{
    run_migration_str(db_path, content)
}

/// What is made of what the driver hands back: the value is handed on, and a
/// failure becomes a `Sqlite` error.
pub fn delivered<T>(outcome: Result<T, rusqlite::Error>) -> (result: Result<T, Error>)
    ensures
        outcome matches Ok(value) ==> result == Ok::<T, Error>(value),
        outcome is Err ==> (result matches Err(e) && e.kind_of() == ErrorKind::Sqlite),
{
    match outcome {
        Ok(value) => Ok(value),
        Err(e) => Err(driver_error(&e)),
    }
}

/// What is made of the outcome of a change to the applied tags: it succeeds
/// however many rows changed, and a failure becomes a `Sqlite` error.
pub fn changed(outcome: Result<usize, rusqlite::Error>) -> (result: Result<(), Error>)
    ensures
        outcome is Ok ==> result is Ok,
        outcome is Err ==> (result matches Err(e) && e.kind_of() == ErrorKind::Sqlite),
{
    match outcome {
        Ok(_) => Ok(()),
        Err(e) => Err(driver_error(&e)),
    }
}

/// What is made of the outcome of the creation of the table: where it
/// succeeded the table was created, and a failure becomes a `Sqlite` error.
pub fn created(outcome: Result<usize, rusqlite::Error>) -> (result: Result<bool, Error>)
    ensures
        outcome is Ok ==> result == Ok::<bool, Error>(true),
        outcome is Err ==> (result matches Err(e) && e.kind_of() == ErrorKind::Sqlite),
{
    match outcome {
        Ok(_) => Ok(true),
        Err(e) => Err(driver_error(&e)),
    }
}

/// What is made of the outcome of statements that were run: a failure becomes
/// a `Migration` error.
pub fn ran(outcome: Result<(), rusqlite::Error>) -> (result: Result<(), Error>)
    ensures
        outcome is Ok ==> result is Ok,
        outcome is Err ==> (result matches Err(e) && e.kind_of() == ErrorKind::Migration),
{
    match outcome {
        Ok(_) => Ok(()),
        Err(e) => Err(migration_error(&e)),
    }
}

} // verus!
