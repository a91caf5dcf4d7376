//! Postgres, reached through its command line client.
//!
//! The library says which command is to be run and what its output means. To
//! run the command is for the caller: every function takes a runner, which is
//! handed the arguments of `psql` and hands back what `psql` did.

use vstd::prelude::*;
use crate::drivers::{CREATE_TABLE, GET_MIGRATIONS, PG_MIGRATION_TABLE_EXISTS};
use crate::errors::{Error, ErrorKind};
use crate::resolve::texts;
use crate::text::{lines, lines_of, trim, trimmed};

verus! {

/// What a command did.
#[derive(Clone, Debug)]
pub struct Output {
    /// Whether the command ended well.
    pub success: bool,
    /// What it wrote to its standard output.
    pub stdout: String,
    /// What it wrote to its standard error.
    pub stderr: String,
}

/// The mathematical value of an [`Output`].
pub struct OutputView {
    pub success: bool,
    pub stdout: Seq<char>,
    pub stderr: Seq<char>,
}

impl View for Output {
    type V = OutputView;

    open spec fn view(&self) -> OutputView {
        OutputView { success: self.success, stdout: self.stdout@, stderr: self.stderr@ }
    }
}

/// What a runner handed back: what the command did, or why it could not be run.
pub open spec fn answer_of(answer: Result<Output, String>) -> Result<OutputView, Seq<char>> {
    match answer {
        Ok(output) => Ok(output@),
        Err(message) => Err(message@),
    }
}

/// Whether the runner, handed these arguments, can hand back this answer.
pub open spec fn asked<R: Fn(Vec<String>) -> Result<Output, String>>(
    run: &R,
    arguments: Seq<Seq<char>>,
    answer: Result<Output, String>,
) -> bool {
    exists|given: Vec<String>| texts(given@) == arguments && run.ensures((given,), answer)
}

/// The arguments that have `psql` run a statement and write out the plain result.
pub open spec fn statement_args(conn_str: Seq<char>, cmd: Seq<char>) -> Seq<Seq<char>> {
    seq![conn_str, "-v"@, "ON_ERROR_STOP=1"@, "-t"@, "-A"@, "-F,"@, "-c"@, cmd]
}

/// The arguments that have `psql` connect and do nothing.
pub open spec fn connect_args(conn_str: Seq<char>) -> Seq<Seq<char>> {
    seq![conn_str, "-c"@, ""@]
}

/// The arguments that have `psql` run the statements of a file.
pub open spec fn file_args(conn_str: Seq<char>, filename: Seq<char>) -> Seq<Seq<char>> {
    seq![conn_str, "-v"@, "ON_ERROR_STOP=1"@, "-f"@, filename]
}

/// The statement that adds a tag to the applied tags.
pub open spec fn add_statement(tag: Seq<char>) -> Seq<char> {
    "prepare stmt as insert into __migrant_migrations (tag) values ($1); execute stmt('"@ + tag
        + "'); deallocate stmt;"@
}

/// The statement that removes a tag from the applied tags.
pub open spec fn delete_statement(tag: Seq<char>) -> Seq<char> {
    "prepare stmt as delete from __migrant_migrations where tag = $1; execute stmt('"@ + tag
        + "'); deallocate stmt;"@
}

/// The kind of the error that a failure of the client calls for: as it is, or,
/// where failures are reported uniformly, a `Migration` error whatever it is.
pub open spec fn failure_kind(kind: ErrorKind, uniform: bool) -> ErrorKind {
    if uniform {
        ErrorKind::Migration
    } else {
        kind
    }
}

/// What a statement wrote out, or the kind of the error that the answer calls
/// for: `ShellCommand` where the command could not be run, and `Migration`
/// where it did not end well; where failures are reported uniformly,
/// `Migration` for both.
pub open spec fn written(answer: Result<OutputView, Seq<char>>, uniform: bool) -> Result<
    Seq<char>,
    ErrorKind,
> {
    match answer {
        Err(_) => Err(failure_kind(ErrorKind::ShellCommand, uniform)),
        Ok(output) => if output.success {
            Ok(output.stdout)
        } else {
            Err(ErrorKind::Migration)
        },
    }
}

/// Whether a result hands on what a statement wrote out, or fails as the
/// answer calls for.
pub open spec fn hands_on(
    result: Result<String, Error>,
    answer: Result<OutputView, Seq<char>>,
    uniform: bool,
) -> bool {
    match (result, written(answer, uniform)) {
        (Ok(value), Ok(text)) => value@ == text,
        (Err(e), Err(kind)) => e.kind_of() == kind,
        _ => false,
    }
}

/// Whether a result succeeds where the statement did, and else fails as the
/// answer calls for.
pub open spec fn follows(
    result: Result<(), Error>,
    answer: Result<OutputView, Seq<char>>,
    uniform: bool,
) -> bool {
    match (result, written(answer, uniform)) {
        (Ok(_), Ok(_)) => true,
        (Err(e), Err(kind)) => e.kind_of() == kind,
        _ => false,
    }
}

/// Whether a result tells what the answer to the question for the table
/// means, or fails as the answer calls for.
pub open spec fn tells_table(
    result: Result<bool, Error>,
    answer: Result<OutputView, Seq<char>>,
    uniform: bool,
) -> bool {
    match (result, written(answer, uniform)) {
        (Ok(value), Ok(text)) => value == says_table_exists(text),
        (Err(e), Err(kind)) => e.kind_of() == kind,
        _ => false,
    }
}

/// Whether a result says that the table was created, or fails as the answer
/// calls for.
pub open spec fn tells_created(
    result: Result<bool, Error>,
    answer: Result<OutputView, Seq<char>>,
    uniform: bool,
) -> bool {
    match (result, written(answer, uniform)) {
        (Ok(value), Ok(_)) => value,
        (Err(e), Err(kind)) => e.kind_of() == kind,
        _ => false,
    }
}

/// Whether a result holds the tags that the statement wrote out, or fails as
/// the answer calls for.
pub open spec fn lists_tags(
    result: Result<Vec<String>, Error>,
    answer: Result<OutputView, Seq<char>>,
    uniform: bool,
) -> bool {
    match (result, written(answer, uniform)) {
        (Ok(value), Ok(text)) => texts(value@) == tags_in(text),
        (Err(e), Err(kind)) => e.kind_of() == kind,
        _ => false,
    }
}

/// Whether a result is what a setup makes of the answers of the runner: it
/// fails as the answer to the question for the table calls for, says that
/// nothing was created where the table is there, and else is what the
/// creation of the table comes to.
pub open spec fn sets_up<R: Fn(Vec<String>) -> Result<Output, String>>(
    run: &R,
    conn_str: Seq<char>,
    result: Result<bool, Error>,
    uniform: bool,
) -> bool {
    exists|answer: Result<Output, String>|
        #![trigger asked(run, statement_args(conn_str, PG_MIGRATION_TABLE_EXISTS@), answer)]
        asked(run, statement_args(conn_str, PG_MIGRATION_TABLE_EXISTS@), answer) && match written(
            answer_of(answer),
            uniform,
        ) {
            Err(kind) => result matches Err(e) && e.kind_of() == kind,
            Ok(text) => if says_table_exists(text) {
                result == Ok::<bool, Error>(false)
            } else {
                exists|second: Result<Output, String>|
                    #![trigger asked(run, statement_args(conn_str, CREATE_TABLE@), second)]
                    asked(run, statement_args(conn_str, CREATE_TABLE@), second) && tells_created(
                        result,
                        answer_of(second),
                        uniform,
                    )
            },
        }
}

fn argument(text: &str) -> (owned: String)
    ensures
        owned@ == text@,
{
    String::from_str(text)
}

fn not_run() -> (error: Error)
    ensures
        error.kind_of() == ErrorKind::ShellCommand,
{
    Error::ShellCommand(
        String::from_str("Error running command `psql`. Is it available on your PATH?"),
    )
}

fn failed(stderr: &str) -> (error: Error)
    ensures
        error.kind_of() == ErrorKind::Migration,
        error.message_of() == failure_message(stderr@),
{
    Error::Migration(
        String::from_str("Error executing statement, stderr: `").concat(stderr).concat("`"),
    )
}

/// Has `psql` run a statement, and returns what it wrote out.
///
/// The runner is handed the arguments of [`statement_args`]. Fails with a
/// `ShellCommand` error where the command could not be run, and with a
/// `Migration` error where it did not end well.
pub fn psql_cmd<R: Fn(Vec<String>) -> Result<Output, String>>(
    run: &R,
    conn_str: &str,
    cmd: &str,
) -> (result: Result<String, Error>)
    requires
        forall|given: Vec<String>| run.requires((given,)),
    ensures
        exists|answer: Result<Output, String>|
            #![trigger asked(run, statement_args(conn_str@, cmd@), answer)]
            asked(run, statement_args(conn_str@, cmd@), answer) && hands_on(result, answer_of(answer), false),
{
    let mut arguments: Vec<String> = Vec::new();
    arguments.push(argument(conn_str));
    arguments.push(argument("-v"));
    arguments.push(argument("ON_ERROR_STOP=1"));
    arguments.push(argument("-t"));
    arguments.push(argument("-A"));
    arguments.push(argument("-F,"));
    arguments.push(argument("-c"));
    arguments.push(argument(cmd));
    let ghost given = arguments;
    assert(texts(given@) =~= statement_args(conn_str@, cmd@));
    let answer = run(arguments);
    assert(asked(run, statement_args(conn_str@, cmd@), answer)) by {
        assert(texts(given@) == statement_args(conn_str@, cmd@) && run.ensures((given,), answer));
    }
    match answer {
        Err(_) => Err(not_run()),
        Ok(output) => {
            if output.success {
                Ok(output.stdout)
            } else {
                Err(failed(output.stderr.as_str()))
            }
        },
    }
}

/// Tells whether the database can be reached.
///
/// The runner is handed the arguments of [`connect_args`]. Returns whether
/// the command ended well. Fails with a `ShellCommand` error where it could
/// not be run.
pub fn can_connect<R: Fn(Vec<String>) -> Result<Output, String>>(run: &R, conn_str: &str) -> (result:
    Result<bool, Error>)
    requires
        forall|given: Vec<String>| run.requires((given,)),
    ensures
        exists|answer: Result<Output, String>|
            #![trigger asked(run, connect_args(conn_str@), answer)]
            asked(run, connect_args(conn_str@), answer) && match (result, answer) {
                (Ok(reached), Ok(output)) => reached == output.success,
                (Err(e), Err(_)) => e.kind_of() == ErrorKind::ShellCommand,
                _ => false,
            },
{
    let mut arguments: Vec<String> = Vec::new();
    arguments.push(argument(conn_str));
    arguments.push(argument("-c"));
    arguments.push(argument(""));
    let ghost given = arguments;
    assert(texts(given@) =~= connect_args(conn_str@));
    let answer = run(arguments);
    assert(asked(run, connect_args(conn_str@), answer)) by {
        assert(texts(given@) == connect_args(conn_str@) && run.ensures((given,), answer));
    }
    match answer {
        Err(_) => Err(not_run()),
        Ok(output) => Ok(output.success),
    }
}

/// What the answer to the question for the table means: the table exists
/// where `psql` wrote out `t`, white space aside.
pub open spec fn says_table_exists(text: Seq<char>) -> bool {
    trimmed(text) == "t"@
}

/// Tells what `psql` wrote out in answer to the question for the table means.
pub fn table_exists_in(stdout: &str) -> (exists: bool)
    ensures
        exists == says_table_exists(stdout@),
{
    String::from_str(trim(stdout)) == String::from_str("t")
}

/// Asks the database whether it has the table of applied tags.
///
/// Fails as [`psql_cmd`] does.
pub fn migration_table_exists<R: Fn(Vec<String>) -> Result<Output, String>>(
    run: &R,
    conn_str: &str,
) -> (result: Result<bool, Error>)
    requires
        forall|given: Vec<String>| run.requires((given,)),
    ensures
        exists|answer: Result<Output, String>|
            #![trigger asked(run, statement_args(conn_str@, PG_MIGRATION_TABLE_EXISTS@), answer)]
            asked(run, statement_args(conn_str@, PG_MIGRATION_TABLE_EXISTS@), answer)
                && tells_table(result, answer_of(answer), false),
{
    match psql_cmd(run, conn_str, PG_MIGRATION_TABLE_EXISTS) {
        Err(e) => Err(e),
        Ok(stdout) => Ok(table_exists_in(stdout.as_str())),
    }
}

/// Creates the table of applied tags unless the database has it.
///
/// Returns whether the table was created. Fails as [`psql_cmd`] does, in the
/// question for the table or in its creation.
pub fn migration_setup<R: Fn(Vec<String>) -> Result<Output, String>>(run: &R, conn_str: &str) -> (result:
    Result<bool, Error>)
    requires
        forall|given: Vec<String>| run.requires((given,)),
    ensures
        sets_up(run, conn_str@, result, false),
{
    let exists = match migration_table_exists(run, conn_str) {
        Err(e) => {
            return Err(e);
        },
        Ok(exists) => exists,
    };
    if exists {
        return Ok(false);
    }
    match psql_cmd(run, conn_str, CREATE_TABLE) {
        Err(e) => Err(e),
        Ok(_) => Ok(true),
    }
}

/// The tags that `psql` wrote out: the lines of its output, white space at the
/// beginning and the end aside.
pub open spec fn tags_in(text: Seq<char>) -> Seq<Seq<char>> {
    lines_of(trimmed(text))
}

/// Reads the tags in what `psql` wrote out.
pub fn tags_written(stdout: &str) -> (tags: Vec<String>)
    ensures
        texts(tags@) == tags_in(stdout@),
{
    lines(trim(stdout))
}

/// Reads the applied tags, as the database gives them.
///
/// Fails as [`psql_cmd`] does.
pub fn select_migrations<R: Fn(Vec<String>) -> Result<Output, String>>(
    run: &R,
    conn_str: &str,
) -> (result: Result<Vec<String>, Error>)
    requires
        forall|given: Vec<String>| run.requires((given,)),
    ensures
        exists|answer: Result<Output, String>|
            #![trigger asked(run, statement_args(conn_str@, GET_MIGRATIONS@), answer)]
            asked(run, statement_args(conn_str@, GET_MIGRATIONS@), answer) && lists_tags(result, answer_of(answer), false),
{
    match psql_cmd(run, conn_str, GET_MIGRATIONS) {
        Err(e) => Err(e),
        Ok(stdout) => Ok(tags_written(stdout.as_str())),
    }
}

/// Adds a tag to the applied tags, with the statement of [`add_statement`].
///
/// Fails as [`psql_cmd`] does.
pub fn insert_migration_tag<R: Fn(Vec<String>) -> Result<Output, String>>(
    run: &R,
    conn_str: &str,
    tag: &str,
) -> (result: Result<(), Error>)
    requires
        forall|given: Vec<String>| run.requires((given,)),
    ensures
        exists|answer: Result<Output, String>|
            #![trigger asked(run, statement_args(conn_str@, add_statement(tag@)), answer)]
            asked(run, statement_args(conn_str@, add_statement(tag@)), answer) && follows(result, answer_of(answer), false),
{
    let statement = String::from_str(
        "prepare stmt as insert into __migrant_migrations (tag) values ($1); execute stmt('",
    ).concat(tag).concat("'); deallocate stmt;");
    assert(statement@ == add_statement(tag@));
    match psql_cmd(run, conn_str, statement.as_str()) {
        Err(e) => Err(e),
        Ok(_) => Ok(()),
    }
}

/// Removes a tag from the applied tags, with the statement of [`delete_statement`].
///
/// Fails as [`psql_cmd`] does.
pub fn remove_migration_tag<R: Fn(Vec<String>) -> Result<Output, String>>(
    run: &R,
    conn_str: &str,
    tag: &str,
) -> (result: Result<(), Error>)
    requires
        forall|given: Vec<String>| run.requires((given,)),
    ensures
        exists|answer: Result<Output, String>|
            #![trigger asked(run, statement_args(conn_str@, delete_statement(tag@)), answer)]
            asked(run, statement_args(conn_str@, delete_statement(tag@)), answer) && follows(result, answer_of(answer), false),
{
    let statement = String::from_str(
        "prepare stmt as delete from __migrant_migrations where tag = $1; execute stmt('",
    ).concat(tag).concat("'); deallocate stmt;");
    assert(statement@ == delete_statement(tag@));
    match psql_cmd(run, conn_str, statement.as_str()) {
        Err(e) => Err(e),
        Ok(_) => Ok(()),
    }
}

/// Runs the statements of a script file against the database.
///
/// The runner is handed the arguments of [`file_args`]. Fails with a
/// `ShellCommand` error where the command could not be run, and with a
/// `Migration` error where it did not end well.
pub fn run_migration<R: Fn(Vec<String>) -> Result<Output, String>>(
    run: &R,
    conn_str: &str,
    filename: &str,
) -> (result: Result<(), Error>)
    requires
        forall|given: Vec<String>| run.requires((given,)),
    ensures
        exists|answer: Result<Output, String>|
            #![trigger asked(run, file_args(conn_str@, filename@), answer)]
            asked(run, file_args(conn_str@, filename@), answer) && follows(result, answer_of(answer), false),
{
    let mut arguments: Vec<String> = Vec::new();
    arguments.push(argument(conn_str));
    arguments.push(argument("-v"));
    arguments.push(argument("ON_ERROR_STOP=1"));
    arguments.push(argument("-f"));
    arguments.push(argument(filename));
    let ghost given = arguments;
    assert(texts(given@) =~= file_args(conn_str@, filename@));
    let answer = run(arguments);
    assert(asked(run, file_args(conn_str@, filename@), answer)) by {
        assert(texts(given@) == file_args(conn_str@, filename@) && run.ensures((given,), answer));
    }
    match answer {
        Err(_) => Err(not_run()),
        Ok(output) => {
            if output.success {
                Ok(())
            } else {
                Err(failed(output.stderr.as_str()))
            }
        },
    }
}

/// Runs statements against the database.
///
/// Fails as [`psql_cmd`] does.
pub fn run_migration_str<R: Fn(Vec<String>) -> Result<Output, String>>(
    run: &R,
    conn_str: &str,
    stmt: &str,
) -> (result: Result<(), Error>)
    requires
        forall|given: Vec<String>| run.requires((given,)),
    ensures
        exists|answer: Result<Output, String>|
            #![trigger asked(run, statement_args(conn_str@, stmt@), answer)]
            asked(run, statement_args(conn_str@, stmt@), answer) && follows(result, answer_of(answer), false),
{
    match psql_cmd(run, conn_str, stmt) {
        Err(e) => Err(e),
        Ok(_) => Ok(()),
    }
}

/// What is said of a statement that did not end well: that it failed, and
/// what the client wrote to its standard error.
pub open spec fn failure_message(stderr: Seq<char>) -> Seq<char> {
    "Error executing statement, stderr: `"@ + stderr + "`"@
}

} // verus!
