//! The error type shared by every operation of the library.

use vstd::prelude::*;

verus! {

/// The kind of an [`Error`], without its message.
#[derive(Clone, Copy, Debug, PartialEq, Eq, Structural)]
pub enum ErrorKind {
    /// A problem with the settings or the environment they describe.
    Config,
    /// A migration failed to run, or the ledger could not be read or changed.
    Migration,
    /// Nothing is left to do in the requested direction. Not a failure.
    MigrationComplete,
    /// A script, or the unit that a ledger entry refers to, does not exist.
    MigrationNotFound,
    /// An external command could not be run.
    ShellCommand,
    /// A path could not be interpreted.
    PathError,
    /// A tag is malformed, or occurs twice in one source.
    TagError,
    /// The name of a database kind is not known.
    InvalidDbKind,
    /// The database driver reported a failure.
    Sqlite,
    /// A connection string is no URL.
    UrlParse,
    /// Reading or writing failed.
    Io,
}

/// An error with the message that describes it.
///
/// The last three kinds carry the message of a failure that arose outside the
/// library, and are shown without a label.
#[derive(Clone, Debug)]
pub enum Error {
    Config(String),
    Migration(String),
    MigrationComplete(String),
    MigrationNotFound(String),
    ShellCommand(String),
    PathError(String),
    TagError(String),
    InvalidDbKind(String),
    Sqlite(String),
    UrlParse(String),
    Io(String),
}

impl ErrorKind {
    /// The label that precedes the message when an error of this kind is shown.
    pub open spec fn label(self) -> Seq<char> {
        match self {
            ErrorKind::Config => "ConfigError: "@,
            ErrorKind::Migration => "MigrationError: "@,
            ErrorKind::MigrationComplete => "MigrationComplete: "@,
            ErrorKind::MigrationNotFound => "MigrationNotFound: "@,
            ErrorKind::ShellCommand => "ShellCommandError: "@,
            ErrorKind::PathError => "PathError: "@,
            ErrorKind::TagError => "TagError: "@,
            ErrorKind::InvalidDbKind => "InvalidDbKind: "@,
            ErrorKind::Sqlite => ""@,
            ErrorKind::UrlParse => ""@,
            ErrorKind::Io => ""@,
        }
    }
}

impl Error {
    /// The kind of this error.
    pub open spec fn kind_of(self) -> ErrorKind {
        match self {
            Error::Config(_) => ErrorKind::Config,
            Error::Migration(_) => ErrorKind::Migration,
            Error::MigrationComplete(_) => ErrorKind::MigrationComplete,
            Error::MigrationNotFound(_) => ErrorKind::MigrationNotFound,
            Error::ShellCommand(_) => ErrorKind::ShellCommand,
            Error::PathError(_) => ErrorKind::PathError,
            Error::TagError(_) => ErrorKind::TagError,
            Error::InvalidDbKind(_) => ErrorKind::InvalidDbKind,
            Error::Sqlite(_) => ErrorKind::Sqlite,
            Error::UrlParse(_) => ErrorKind::UrlParse,
            Error::Io(_) => ErrorKind::Io,
        }
    }

    /// The message of this error, as a sequence of characters.
    pub open spec fn message_of(self) -> Seq<char> {
        match self {
            Error::Config(m) => m@,
            Error::Migration(m) => m@,
            Error::MigrationComplete(m) => m@,
            Error::MigrationNotFound(m) => m@,
            Error::ShellCommand(m) => m@,
            Error::PathError(m) => m@,
            Error::TagError(m) => m@,
            Error::InvalidDbKind(m) => m@,
            Error::Sqlite(m) => m@,
            Error::UrlParse(m) => m@,
            Error::Io(m) => m@,
        }
    }

    /// The text that [`Error::to_string`] produces: the label of the kind, then the message.
    pub open spec fn shown(self) -> Seq<char> {
        self.kind_of().label() + self.message_of()
    }

    /// Builds the error of the given kind with the given message.
    pub fn new(kind: ErrorKind, message: String) -> (error: Error)
        ensures
            error.kind_of() == kind,
            error.message_of() == message@,
    {
        match kind {
            ErrorKind::Config => Error::Config(message),
            ErrorKind::Migration => Error::Migration(message),
            ErrorKind::MigrationComplete => Error::MigrationComplete(message),
            ErrorKind::MigrationNotFound => Error::MigrationNotFound(message),
            ErrorKind::ShellCommand => Error::ShellCommand(message),
            ErrorKind::PathError => Error::PathError(message),
            ErrorKind::TagError => Error::TagError(message),
            ErrorKind::InvalidDbKind => Error::InvalidDbKind(message),
            ErrorKind::Sqlite => Error::Sqlite(message),
            ErrorKind::UrlParse => Error::UrlParse(message),
            ErrorKind::Io => Error::Io(message),
        }
    }

    /// The kind of this error.
    pub fn kind(&self) -> (kind: ErrorKind)
        ensures
            kind == self.kind_of(),
    {
        match self {
            Error::Config(_) => ErrorKind::Config,
            Error::Migration(_) => ErrorKind::Migration,
            Error::MigrationComplete(_) => ErrorKind::MigrationComplete,
            Error::MigrationNotFound(_) => ErrorKind::MigrationNotFound,
            Error::ShellCommand(_) => ErrorKind::ShellCommand,
            Error::PathError(_) => ErrorKind::PathError,
            Error::TagError(_) => ErrorKind::TagError,
            Error::InvalidDbKind(_) => ErrorKind::InvalidDbKind,
            Error::Sqlite(_) => ErrorKind::Sqlite,
            Error::UrlParse(_) => ErrorKind::UrlParse,
            Error::Io(_) => ErrorKind::Io,
        }
    }

    /// The message of this error.
    pub fn message(&self) -> (message: &str)
        ensures
            message@ == self.message_of(),
    {
        match self {
            Error::Config(m) => m.as_str(),
            Error::Migration(m) => m.as_str(),
            Error::MigrationComplete(m) => m.as_str(),
            Error::MigrationNotFound(m) => m.as_str(),
            Error::ShellCommand(m) => m.as_str(),
            Error::PathError(m) => m.as_str(),
            Error::TagError(m) => m.as_str(),
            Error::InvalidDbKind(m) => m.as_str(),
            Error::Sqlite(m) => m.as_str(),
            Error::UrlParse(m) => m.as_str(),
            Error::Io(m) => m.as_str(),
        }
    }

    /// Whether this is the sentinel that says that no migration is left in the
    /// requested direction.
    pub fn is_migration_complete(&self) -> (complete: bool)
        ensures
            complete == (self.kind_of() == ErrorKind::MigrationComplete),
    {
        match self {
            Error::MigrationComplete(_) => true,
            _ => false,
        }
    }

    /// The error as it is shown to a user: the label of its kind, then its message.
    pub fn to_string(&self) -> (text: String)
        ensures
            text@ == self.shown(),
    {
        let label = match self {
            Error::Config(_) => "ConfigError: ",
            Error::Migration(_) => "MigrationError: ",
            Error::MigrationComplete(_) => "MigrationComplete: ",
            Error::MigrationNotFound(_) => "MigrationNotFound: ",
            Error::ShellCommand(_) => "ShellCommandError: ",
            Error::PathError(_) => "PathError: ",
            Error::TagError(_) => "TagError: ",
            Error::InvalidDbKind(_) => "InvalidDbKind: ",
            Error::Sqlite(_) => "",
            Error::UrlParse(_) => "",
            Error::Io(_) => "",
        };
        String::from_str(label).concat(self.message())
    }
}

} // verus!
