//! Ordered, reversible schema migrations tracked in a ledger of applied tags.

pub mod config;
pub mod connect;
pub mod connection;
pub mod direction;
pub mod drivers;
pub mod errors;
pub mod gateway;
pub mod initializer;
pub mod laws;
pub mod ledger;
pub mod migration;
pub mod migrator;
pub mod order;
pub mod paths;
pub mod precedence;
pub mod project;
pub mod prompt;
pub mod resolve;
pub mod settings;
pub mod source;
pub mod stamp;
pub mod tag;
pub mod text;

pub use config::Config;
pub use connection::DbConn;
pub use direction::Direction;
pub use errors::{Error, ErrorKind};
pub use initializer::ConfigInitializer;
pub use migration::{
    EmbeddedMigration, FileMigration, FnMigration, Migratable, Migration, ProgrammableMigration,
    Script,
};
pub use migrator::{Action, Event, Migrator, Note, Step};
pub use project::{list, new, parent_path, search_for_migrations};
pub use prompt::Prompt;
pub use resolve::next_available;
pub use settings::{DbKind, Settings};
pub use source::{discover, ScriptFile};
pub use stamp::Stamp;
