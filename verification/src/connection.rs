//! A handle to the database of a configuration, for the callbacks of
//! programmable migrations.

use vstd::prelude::*;
use crate::config::{database_file, Config, ConfigView};
use crate::errors::{Error, ErrorKind};
use crate::migration::FnMigration;

verus! {

/// A handle to the database of a configuration.
#[derive(Debug)]
pub struct DbConn<'a> {
    config: &'a Config,
}

impl<'a> DbConn<'a> {
    /// The configuration whose database the handle reaches.
    pub closed spec fn config_view(&self) -> ConfigView {
        self.config@
    }

    /// A handle to the database of the configuration.
    pub fn new(config: &'a Config) -> (conn: DbConn<'a>)
        ensures
            conn.config_view() == config@,
    {
        DbConn { config }
    }

    /// The configuration whose database the handle reaches.
    pub fn config(&self) -> (config: &'a Config)
        ensures
            config@ == self.config_view(),
    {
        self.config
    }

    /// Opens a connection to the database file. Only sqlite keeps its database
    /// in a file.
    ///
    /// Fails as [`Config::database_path`] does where the path of the file
    /// cannot be told, and with a `Sqlite` error where the file cannot be opened.
    pub fn sqlite_connection(&self) -> (result: Result<rusqlite::Connection, Error>)
        ensures
            database_file(self.config_view()) matches Err(kind) ==> (result matches Err(e)
                && e.kind_of() == kind),
            database_file(self.config_view()) is Ok ==> (result matches Err(e) ==> e.kind_of()
                == ErrorKind::Sqlite),
    {
        let path = match self.config.database_path() {
            Err(e) => {
                return Err(e);
            },
            Ok(path) => path,
        };
        crate::drivers::sqlite::connect(path.as_str())
    }
}

impl<T: Fn(DbConn) -> Result<(), String>, U: Fn(DbConn) -> Result<(), String>> FnMigration<T, U> {
    /// Whether the callback that applies the unit, if there is one, can be
    /// called with the handle.
    pub open spec fn can_apply_up(&self, conn: DbConn) -> bool {
        self.up_callback() matches Some(f) ==> f.requires((conn,))
    }

    /// Whether the callback that reverts the unit, if there is one, can be
    /// called with the handle.
    pub open spec fn can_apply_down(&self, conn: DbConn) -> bool {
        self.down_callback() matches Some(f) ==> f.requires((conn,))
    }

    /// Applies the unit: calls the callback for it with the handle.
    ///
    /// Succeeds without doing anything where there is no callback, and
    /// returns what the callback returns otherwise.
    pub fn apply_up(&self, conn: DbConn) -> (result: Result<(), String>)
        requires
            self.can_apply_up(conn),
        ensures
            self.up_callback() is None ==> result is Ok,
            self.up_callback() matches Some(f) ==> f.ensures((conn,), result),
    {
        match self.up_fn() {
            Some(f) => f(conn),
            None => Ok(()),
        }
    }

    /// Reverts the unit: calls the callback for it with the handle.
    ///
    /// Succeeds without doing anything where there is no callback, and
    /// returns what the callback returns otherwise.
    pub fn apply_down(&self, conn: DbConn) -> (result: Result<(), String>)
        requires
            self.can_apply_down(conn),
        ensures
            self.down_callback() is None ==> result is Ok,
            self.down_callback() matches Some(f) ==> f.ensures((conn,), result),
    {
        match self.down_fn() {
            Some(f) => f(conn),
            None => Ok(()),
        }
    }
}

} // verus!
