//! The ledger gateway: how a configuration reaches the ledger in its database.
//!
//! The settings say which database it is. A database kept in a file is reached
//! through the sqlite driver, at the path of the file. A database on the
//! network is reached through the postgres driver, with the connection string,
//! and the runner that the caller hands in.
//!
//! Whatever the database, a failure to reach it or to have it do what it is
//! asked is reported as a `Migration` error. The error is of another kind only
//! where the settings do not say how to reach the database, or a script file
//! cannot be read.

use vstd::prelude::*;
use crate::config::{database_file, Config, ConfigView};
use crate::connect::connection_text;
use crate::drivers::pg::{
    add_statement, answer_of, asked, connect_args, delete_statement, file_args, follows,
    lists_tags, says_table_exists, sets_up, statement_args, tells_created, tells_table, written,
    Output,
};
use crate::drivers::{pg, sqlite, CREATE_TABLE, GET_MIGRATIONS, PG_MIGRATION_TABLE_EXISTS};
use crate::errors::{Error, ErrorKind};
use crate::migration::{Script, ScriptView};
use crate::settings::DbKind;

verus! {

/// The way to a database.
pub enum Route {
    /// To the file at this path.
    File(Seq<char>),
    /// Over the network, with this connection string.
    Network(Seq<char>),
}

/// The way to the database of a configuration, or the kind of the error that
/// says why there is none: `InvalidDbKind` where the settings name no kind of
/// database that is known, and else what keeps the path of the file or the
/// connection string from being told.
pub open spec fn route_of(config: ConfigView) -> Result<Route, ErrorKind> {
    match DbKind::named(config.settings.database_type) {
        None => Err(ErrorKind::InvalidDbKind),
        Some(DbKind::Sqlite) => match database_file(config) {
            Ok(path) => Ok(Route::File(path)),
            Err(kind) => Err(kind),
        },
        Some(DbKind::Postgres) => match connection_text(config.settings) {
            Ok(text) => Ok(Route::Network(text)),
            Err(kind) => Err(kind),
        },
    }
}

/// Whether a result fails, with an error of the given kind.
pub open spec fn fails_with<T>(result: Result<T, Error>, kind: ErrorKind) -> bool {
    result matches Err(e) && e.kind_of() == kind
}

/// Whether a result that fails does so with a `Migration` error.
pub open spec fn fails_uniformly<T>(result: Result<T, Error>) -> bool {
    result matches Err(e) ==> e.kind_of() == ErrorKind::Migration
}

/// Whether the reader, handed this path, can hand back this content.
pub open spec fn read_as<F: Fn(String) -> Result<String, String>>(
    read: &F,
    path: Seq<char>,
    content: Result<String, String>,
) -> bool {
    exists|given: String| given@ == path && read.ensures((given,), content)
}

enum Target {
    File(String),
    Network(String),
}

impl View for Target {
    type V = Route;

    closed spec fn view(&self) -> Route {
        match self {
            Target::File(path) => Route::File(path@),
            Target::Network(text) => Route::Network(text@),
        }
    }
}

fn target(config: &Config) -> (result: Result<Target, Error>)
    ensures
        match result {
            Ok(target) => route_of(config@) == Ok::<Route, ErrorKind>(target@),
            Err(e) => route_of(config@) == Err::<Route, ErrorKind>(e.kind_of()),
        },
{
    let kind = match DbKind::from(config.settings().db_type()) {
        Err(e) => {
            return Err(e);
        },
        Ok(kind) => kind,
    };
    match kind {
        DbKind::Sqlite => match config.database_path() {
            Ok(path) => Ok(Target::File(path)),
            Err(e) => Err(e),
        },
        DbKind::Postgres => match config.connect_string() {
            Ok(text) => Ok(Target::Network(text)),
            Err(e) => Err(e),
        },
    }
}

/// The failure of a driver, as a `Migration` error whose message shows it.
fn uniform(cause: &Error) -> (error: Error)
    ensures
        error.kind_of() == ErrorKind::Migration,
        error.message_of() == cause.shown(),
{
    Error::Migration(cause.to_string())
}

fn reported<T>(outcome: Result<T, Error>) -> (result: Result<T, Error>)
    ensures
        outcome matches Ok(value) ==> result == Ok::<T, Error>(value),
        outcome matches Err(cause) ==> fails_with(result, ErrorKind::Migration) && result->Err_0.message_of()
            == cause.shown(),
{
    match outcome {
        Ok(value) => Ok(value),
        Err(e) => Err(uniform(&e)),
    }
}

/// A setup that is reported uniformly is a setup.
proof fn lemma_setup_reported<R: Fn(Vec<String>) -> Result<Output, String>>(
    run: &R,
    conn: Seq<char>,
    outcome: Result<bool, Error>,
    result: Result<bool, Error>,
)
    requires
        sets_up(run, conn, outcome, false),
        outcome matches Ok(value) ==> result == Ok::<bool, Error>(value),
        outcome is Err ==> fails_with(result, ErrorKind::Migration),
    ensures
        sets_up(run, conn, result, true),
{
    let first = choose|answer: Result<Output, String>|
        #![trigger asked(run, statement_args(conn, PG_MIGRATION_TABLE_EXISTS@), answer)]
        asked(run, statement_args(conn, PG_MIGRATION_TABLE_EXISTS@), answer) && match written(
            answer_of(answer),
            false,
        ) {
            Err(kind) => outcome matches Err(e) && e.kind_of() == kind,
            Ok(text) => if says_table_exists(text) {
                outcome == Ok::<bool, Error>(false)
            } else {
                exists|second: Result<Output, String>|
                    #![trigger asked(run, statement_args(conn, CREATE_TABLE@), second)]
                    asked(run, statement_args(conn, CREATE_TABLE@), second) && tells_created(
                        outcome,
                        answer_of(second),
                        false,
                    )
            },
        };
    assert(asked(run, statement_args(conn, PG_MIGRATION_TABLE_EXISTS@), first));
    match written(answer_of(first), false) {
        Err(_) => {},
        Ok(text) => {
            if !says_table_exists(text) {
                let second = choose|second: Result<Output, String>|
                    #![trigger asked(run, statement_args(conn, CREATE_TABLE@), second)]
                    asked(run, statement_args(conn, CREATE_TABLE@), second) && tells_created(
                        outcome,
                        answer_of(second),
                        false,
                    );
                assert(asked(run, statement_args(conn, CREATE_TABLE@), second));
                assert(tells_created(result, answer_of(second), true));
            }
        },
    }
}

impl Config {
    /// Asks the database whether it has the table of applied tags.
    ///
    /// Fails where the settings do not say how to reach the database, and with
    /// a `Migration` error where it cannot be reached or asked.
    pub fn migration_table_exists<R: Fn(Vec<String>) -> Result<Output, String>>(
        &self,
        run: &R,
    ) -> (result: Result<bool, Error>)
        requires
            forall|given: Vec<String>| run.requires((given,)),
        ensures
            route_of(self@) matches Err(kind) ==> fails_with(result, kind),
            route_of(self@) matches Ok(Route::File(_)) ==> fails_uniformly(result),
            route_of(self@) matches Ok(Route::Network(conn)) ==> (exists|
                answer: Result<Output, String>,
            |
                #![trigger asked(run, statement_args(conn, PG_MIGRATION_TABLE_EXISTS@), answer)]
                asked(run, statement_args(conn, PG_MIGRATION_TABLE_EXISTS@), answer)
                    && tells_table(result, answer_of(answer), true)),
    {
        match target(self) {
            Err(e) => Err(e),
            Ok(Target::File(path)) => reported(sqlite::migration_table_exists(path.as_str())),
            Ok(Target::Network(conn)) => {
                let outcome = pg::migration_table_exists(run, conn.as_str());
                let ghost first = outcome;
                let result = reported(outcome);
                proof {
                    let way = route_of(self@)->Ok_0->Network_0;
                    assert(way == conn@);
                    let found = choose|answer: Result<Output, String>|
                        #![trigger asked(run, statement_args(conn@, PG_MIGRATION_TABLE_EXISTS@), answer)]
                        asked(run, statement_args(conn@, PG_MIGRATION_TABLE_EXISTS@), answer)
                            && tells_table(first, answer_of(answer), false);
                    assert(asked(run, statement_args(way, PG_MIGRATION_TABLE_EXISTS@), found));
                    assert(tells_table(result, answer_of(found), true));
                }
                result
            },
        }
    }

    /// Reads the applied tags, as the database gives them.
    ///
    /// Fails where the settings do not say how to reach the database, and with
    /// a `Migration` error where it cannot be reached or asked.
    pub fn select_migrations<R: Fn(Vec<String>) -> Result<Output, String>>(&self, run: &R) -> (result:
        Result<Vec<String>, Error>)
        requires
            forall|given: Vec<String>| run.requires((given,)),
        ensures
            route_of(self@) matches Err(kind) ==> fails_with(result, kind),
            route_of(self@) matches Ok(Route::File(_)) ==> fails_uniformly(result),
            route_of(self@) matches Ok(Route::Network(conn)) ==> (exists|
                answer: Result<Output, String>,
            |
                #![trigger asked(run, statement_args(conn, GET_MIGRATIONS@), answer)]
                asked(run, statement_args(conn, GET_MIGRATIONS@), answer) && lists_tags(
                    result,
                    answer_of(answer),
                    true,
                )),
    {
        match target(self) {
            Err(e) => Err(e),
            Ok(Target::File(path)) => reported(sqlite::select_migrations(path.as_str())),
            Ok(Target::Network(conn)) => {
                let outcome = pg::select_migrations(run, conn.as_str());
                let ghost first = outcome;
                let result = reported(outcome);
                proof {
                    let way = route_of(self@)->Ok_0->Network_0;
                    assert(way == conn@);
                    let found = choose|answer: Result<Output, String>|
                        #![trigger asked(run, statement_args(conn@, GET_MIGRATIONS@), answer)]
                        asked(run, statement_args(conn@, GET_MIGRATIONS@), answer) && lists_tags(
                            first,
                            answer_of(answer),
                            false,
                        );
                    assert(asked(run, statement_args(way, GET_MIGRATIONS@), found));
                    assert(lists_tags(result, answer_of(found), true));
                }
                result
            },
        }
    }

    /// Adds a tag to the applied tags in the database.
    ///
    /// Fails where the settings do not say how to reach the database, and with
    /// a `Migration` error where it cannot be reached or changed.
    pub fn insert_migration_tag<R: Fn(Vec<String>) -> Result<Output, String>>(
        &self,
        tag: &str,
        run: &R,
    ) -> (result: Result<(), Error>)
        requires
            forall|given: Vec<String>| run.requires((given,)),
        ensures
            route_of(self@) matches Err(kind) ==> fails_with(result, kind),
            route_of(self@) matches Ok(Route::File(_)) ==> fails_uniformly(result),
            route_of(self@) matches Ok(Route::Network(conn)) ==> (exists|
                answer: Result<Output, String>,
            |
                #![trigger asked(run, statement_args(conn, add_statement(tag@)), answer)]
                asked(run, statement_args(conn, add_statement(tag@)), answer) && follows(
                    result,
                    answer_of(answer),
                    true,
                )),
    {
        match target(self) {
            Err(e) => Err(e),
            Ok(Target::File(path)) => reported(sqlite::insert_migration_tag(path.as_str(), tag)),
            Ok(Target::Network(conn)) => {
                let outcome = pg::insert_migration_tag(run, conn.as_str(), tag);
                let ghost first = outcome;
                let result = reported(outcome);
                proof {
                    let way = route_of(self@)->Ok_0->Network_0;
                    assert(way == conn@);
                    let found = choose|answer: Result<Output, String>|
                        #![trigger asked(run, statement_args(conn@, add_statement(tag@)), answer)]
                        asked(run, statement_args(conn@, add_statement(tag@)), answer) && follows(
                            first,
                            answer_of(answer),
                            false,
                        );
                    assert(asked(run, statement_args(way, add_statement(tag@)), found));
                    assert(follows(result, answer_of(found), true));
                }
                result
            },
        }
    }

    /// Removes a tag from the applied tags in the database.
    ///
    /// Fails where the settings do not say how to reach the database, and with
    /// a `Migration` error where it cannot be reached or changed.
    pub fn delete_migration_tag<R: Fn(Vec<String>) -> Result<Output, String>>(
        &self,
        tag: &str,
        run: &R,
    ) -> (result: Result<(), Error>)
        requires
            forall|given: Vec<String>| run.requires((given,)),
        ensures
            route_of(self@) matches Err(kind) ==> fails_with(result, kind),
            route_of(self@) matches Ok(Route::File(_)) ==> fails_uniformly(result),
            route_of(self@) matches Ok(Route::Network(conn)) ==> (exists|
                answer: Result<Output, String>,
            |
                #![trigger asked(run, statement_args(conn, delete_statement(tag@)), answer)]
                asked(run, statement_args(conn, delete_statement(tag@)), answer) && follows(
                    result,
                    answer_of(answer),
                    true,
                )),
    {
        match target(self) {
            Err(e) => Err(e),
            Ok(Target::File(path)) => reported(sqlite::remove_migration_tag(path.as_str(), tag)),
            Ok(Target::Network(conn)) => {
                let outcome = pg::remove_migration_tag(run, conn.as_str(), tag);
                let ghost first = outcome;
                let result = reported(outcome);
                proof {
                    let way = route_of(self@)->Ok_0->Network_0;
                    assert(way == conn@);
                    let found = choose|answer: Result<Output, String>|
                        #![trigger asked(run, statement_args(conn@, delete_statement(tag@)), answer)]
                        asked(run, statement_args(conn@, delete_statement(tag@)), answer)
                            && follows(first, answer_of(answer), false);
                    assert(asked(run, statement_args(way, delete_statement(tag@)), found));
                    assert(follows(result, answer_of(found), true));
                }
                result
            },
        }
    }

    /// Makes the database ready: creates the table of applied tags unless the
    /// database has it, and returns whether it was created.
    ///
    /// A database on the network must be within reach: the call fails with a
    /// `Config` error where its client runs and cannot connect. It fails too
    /// where the settings do not say how to reach the database, and with a
    /// `Migration` error where the database cannot be reached or asked.
    pub fn setup<R: Fn(Vec<String>) -> Result<Output, String>>(&self, run: &R) -> (result: Result<
        bool,
        Error,
    >)
        requires
            forall|given: Vec<String>| run.requires((given,)),
        ensures
            route_of(self@) matches Err(kind) ==> fails_with(result, kind),
            route_of(self@) matches Ok(Route::File(_)) ==> fails_uniformly(result),
            route_of(self@) matches Ok(Route::Network(conn)) ==> (exists|
                answer: Result<Output, String>,
            |
                #![trigger asked(run, connect_args(conn), answer)]
                asked(run, connect_args(conn), answer) && match answer {
                    Err(_) => fails_with(result, ErrorKind::Migration),
                    Ok(output) => if output.success {
                        sets_up(run, conn, result, true)
                    } else {
                        fails_with(result, ErrorKind::Config)
                    },
                }),
    {
        match target(self) {
            Err(e) => Err(e),
            Ok(Target::File(path)) => reported(sqlite::migration_setup(path.as_str())),
            Ok(Target::Network(conn)) => {
                let ghost way = route_of(self@)->Ok_0->Network_0;
                let answered = pg::can_connect(run, conn.as_str());
                let ghost found = choose|answer: Result<Output, String>|
                    #![trigger asked(run, connect_args(conn@), answer)]
                    asked(run, connect_args(conn@), answer) && match (answered, answer) {
                        (Ok(reached), Ok(output)) => reached == output.success,
                        (Err(e), Err(_)) => e.kind_of() == ErrorKind::ShellCommand,
                        _ => false,
                    };
                proof {
                    assert(way == conn@);
                    assert(asked(run, connect_args(way), found));
                }
                let reached = match answered {
                    Err(e) => {
                        return Err(uniform(&e));
                    },
                    Ok(reached) => reached,
                };
                if !reached {
                    return Err(
                        Error::Config(
                            String::from_str(
                                "Cannot connect to postgres database with connection string: ",
                            ).concat(conn.as_str()).concat(". Do the database & user exist?"),
                        ),
                    );
                }
                let outcome = pg::migration_setup(run, conn.as_str());
                let ghost first = outcome;
                let result = reported(outcome);
                proof {
                    lemma_setup_reported(run, conn@, first, result);
                }
                result
            },
        }
    }
}

/// Runs the script of a step against the database of a configuration.
///
/// Nothing is run, and the call succeeds, where the script is empty. A
/// callback is not for the library to run: the program that keeps it calls
/// it, and the call fails with a `Migration` error.
///
/// Statements go to the driver of the database. So does a script file of a
/// database on the network, by its path. The script file of a database kept
/// in a file is read first, by the reader that the caller hands in, and the
/// call fails with an `Io` error where it cannot be read. The call fails too
/// where the settings do not say how to reach the database, and with a
/// `Migration` error where the database cannot be reached or a statement
/// fails.
pub fn run_migration<
    R: Fn(Vec<String>) -> Result<Output, String>,
    F: Fn(String) -> Result<String, String>,
>(config: &Config, script: &Script, read: &F, run: &R) -> (result: Result<(), Error>)
    requires
        forall|given: Vec<String>| run.requires((given,)),
        forall|given: String| read.requires((given,)),
    ensures
        script@ is Empty ==> result is Ok,
        script@ is Callback ==> fails_with(result, ErrorKind::Migration),
        (script@ is File || script@ is Statement) ==> (route_of(config@) matches Err(kind)
            ==> fails_with(result, kind)),
        script@ matches ScriptView::Statement(text) ==> (route_of(config@) matches Ok(
            Route::File(_),
        ) ==> (text.len() == 0 ==> result is Ok) && fails_uniformly(result)),
        script@ matches ScriptView::Statement(text) ==> (route_of(config@) matches Ok(
            Route::Network(conn),
        ) ==> (exists|answer: Result<Output, String>|
            #![trigger asked(run, statement_args(conn, text), answer)]
            asked(run, statement_args(conn, text), answer) && follows(
                result,
                answer_of(answer),
                true,
            ))),
        script@ matches ScriptView::File(path) ==> (route_of(config@) matches Ok(
            Route::Network(conn),
        ) ==> (exists|answer: Result<Output, String>|
            #![trigger asked(run, file_args(conn, path), answer)]
            asked(run, file_args(conn, path), answer) && follows(
                result,
                answer_of(answer),
                true,
            ))),
        script@ matches ScriptView::File(path) ==> (route_of(config@) matches Ok(
            Route::File(_),
        ) ==> (exists|content: Result<String, String>|
            #![trigger read_as(read, path, content)]
            read_as(read, path, content) && match content {
                Err(_) => fails_with(result, ErrorKind::Io),
                Ok(text) => (text@.len() == 0 ==> result is Ok) && fails_uniformly(result),
            })),
{
    match script {
        Script::Empty => Ok(()),
        Script::Callback => Err(
            Error::Migration(
                String::from_str("A callback is run by the program that keeps it"),
            ),
        ),
        Script::Statement(text) => match target(config) {
            Err(e) => Err(e),
            Ok(Target::File(db)) => sqlite::run_migration_str(db.as_str(), text.as_str()),
            Ok(Target::Network(conn)) => {
                let outcome = pg::run_migration_str(run, conn.as_str(), text.as_str());
                let ghost first = outcome;
                let result = reported(outcome);
                proof {
                    let way = route_of(config@)->Ok_0->Network_0;
                    assert(way == conn@);
                    let sent = script@->Statement_0;
                    assert(sent == text@);
                    let found = choose|answer: Result<Output, String>|
                        #![trigger asked(run, statement_args(conn@, text@), answer)]
                        asked(run, statement_args(conn@, text@), answer) && follows(
                            first,
                            answer_of(answer),
                            false,
                        );
                    assert(asked(run, statement_args(way, sent), found));
                    assert(follows(result, answer_of(found), true));
                }
                result
            },
        },
        Script::File(path) => match target(config) {
            Err(e) => Err(e),
            Ok(Target::File(db)) => {
                let given = path.clone();
                let ghost handed = given;
                let content = read(given);
                proof {
                    let named = script@->File_0;
                    assert(named == path@);
                    assert(read_as(read, named, content)) by {
                        assert(handed@ == named && read.ensures((handed,), content));
                    }
                }
                match content {
                    Err(message) => Err(Error::Io(message)),
                    Ok(text) => sqlite::run_migration(db.as_str(), text.as_str()),
                }
            },
            Ok(Target::Network(conn)) => {
                let outcome = pg::run_migration(run, conn.as_str(), path.as_str());
                let ghost first = outcome;
                let result = reported(outcome);
                proof {
                    let way = route_of(config@)->Ok_0->Network_0;
                    assert(way == conn@);
                    let named = script@->File_0;
                    assert(named == path@);
                    let found = choose|answer: Result<Output, String>|
                        #![trigger asked(run, file_args(conn@, path@), answer)]
                        asked(run, file_args(conn@, path@), answer) && follows(
                            first,
                            answer_of(answer),
                            false,
                        );
                    assert(asked(run, file_args(way, named), found));
                    assert(follows(result, answer_of(found), true));
                }
                result
            },
        },
    }
}

} // verus!
