//! The two databases that migrations can be applied to, and the statements
//! that keep the ledger in either.

pub mod outside;
pub mod pg;
pub mod sqlite;

use vstd::prelude::*;

verus! {

/// Creates the table of applied tags.
pub const CREATE_TABLE: &'static str = "create table __migrant_migrations(tag text unique);";

/// Reads the applied tags.
pub const GET_MIGRATIONS: &'static str = "select tag from __migrant_migrations;";

/// Asks sqlite whether the table of applied tags exists.
pub const SQLITE_MIGRATION_TABLE_EXISTS: &'static str =
    "select exists(select 1 from sqlite_master where type = 'table' and name = '__migrant_migrations');";

/// Asks postgres whether the table of applied tags exists.
pub const PG_MIGRATION_TABLE_EXISTS: &'static str =
    "select exists(select 1 from pg_tables where tablename = '__migrant_migrations');";

/// Adds the tag that is bound to its one parameter.
pub const SQLITE_ADD_MIGRATION: &'static str = "insert into __migrant_migrations (tag) values ($1)";

/// Removes the tag that is bound to its one parameter.
pub const SQLITE_DELETE_MIGRATION: &'static str = "delete from __migrant_migrations where tag = $1";

} // verus!
