//! Migration units: one reversible change each, in three variants.
//!
//! A unit is backed by script files, holds its statements itself, or runs
//! callbacks of the embedding program. Whatever the variant, a unit has a tag
//! that identifies it, a description for each direction, and for each direction
//! a script that says what there is to run.

use vstd::prelude::*;
use crate::direction::Direction;
use crate::errors::{Error, ErrorKind};
use crate::stamp::Stamp;
use crate::tag::{generated_tag, invalid_tag, is_name};

verus! {

/// The text that `std` shows for a string in its `Debug` form: quoted, with
/// what needs it escaped.
pub uninterp spec fn debug_quoted(text: Seq<char>) -> Seq<char>;

/// Formats `text` with the `Debug` form of `str`.
///
/// Trusted: the outcome depends on the text alone, so it is given the name
/// [`debug_quoted`].
#[verifier::external_body]
fn quoted(text: &str) -> (shown: String)
    ensures
        shown@ == debug_quoted(text@),
{
    format!("{:?}", text)
}

/// What a unit has to run in one direction.
#[derive(Clone, Debug)]
pub enum Script {
    /// Nothing: the unit has no script, statement or callback for the direction.
    Empty,
    /// The statements in the file at this path.
    File(String),
    /// These statements.
    Statement(String),
    /// A callback that the embedding program keeps.
    Callback,
}

/// The mathematical value of a [`Script`].
pub enum ScriptView {
    Empty,
    File(Seq<char>),
    Statement(Seq<char>),
    Callback,
}

impl View for Script {
    type V = ScriptView;

    open spec fn view(&self) -> ScriptView {
        match self {
            Script::Empty => ScriptView::Empty,
            Script::File(path) => ScriptView::File(path@),
            Script::Statement(text) => ScriptView::Statement(text@),
            Script::Callback => ScriptView::Callback,
        }
    }
}

impl Script {
    /// Whether there is nothing to run.
    pub fn is_empty(&self) -> (empty: bool)
        ensures
            empty == (self@ is Empty),
    {
        match self {
            Script::Empty => true,
            _ => false,
        }
    }
}

/// What every variant of a migration unit offers.
pub trait Migratable {
    /// The tag of the unit, as a sequence of characters.
    spec fn tag_text(&self) -> Seq<char>;

    /// The description of the unit for a direction, as a sequence of characters.
    spec fn description_text(&self, direction: Direction) -> Seq<char>;

    /// What the unit has to run in a direction.
    spec fn script_view(&self, direction: Direction) -> ScriptView;

    /// The tag that identifies the unit.
    fn tag(&self) -> (tag: String)
        ensures
            tag@ == self.tag_text(),
    ;

    /// A description of the unit for people to read.
    fn description(&self, direction: &Direction) -> (text: String)
        ensures
            text@ == self.description_text(*direction),
    ;

    /// What there is to run in a direction.
    fn script(&self, direction: &Direction) -> (script: Script)
        ensures
            script@ == self.script_view(*direction),
    ;
}

/// A migration whose statements are kept in files, which must be there when it runs.
#[derive(Debug)]
pub struct FileMigration {
    tag: String,
    up: Option<String>,
    down: Option<String>,
    stamp: Option<Stamp>,
}

impl FileMigration {
    /// The name of the unit: its tag without the stamp.
    pub closed spec fn name(&self) -> Seq<char> {
        self.tag@
    }

    /// The path of the script that applies the unit, if there is one.
    pub closed spec fn up_path(&self) -> Option<Seq<char>> {
        match self.up {
            Some(path) => Some(path@),
            None => None,
        }
    }

    /// The path of the script that reverts the unit, if there is one.
    pub closed spec fn down_path(&self) -> Option<Seq<char>> {
        match self.down {
            Some(path) => Some(path@),
            None => None,
        }
    }

    /// The stamp of the unit, if it was found on disk.
    pub closed spec fn stamp_of(&self) -> Option<Stamp> {
        self.stamp
    }

    /// What holds of every file-backed unit: its name is a name, and its stamp,
    /// if it has one, is a stamp.
    #[verifier::type_invariant]
    pub closed spec fn wf(&self) -> bool {
        &&& is_name(self.tag@)
        &&& self.stamp matches Some(stamp) ==> stamp.wf()
    }

    /// The name of a unit is a name, and its stamp is a stamp.
    pub proof fn lemma_wf(&self)
        requires
            self.wf(),
        ensures
            is_name(self.name()),
            self.stamp_of() matches Some(stamp) ==> stamp.wf(),
    {
    }

    /// A unit with the given tag and no scripts.
    ///
    /// Fails with a `TagError` unless the tag is a name.
    pub fn with_tag(tag: &str) -> (result: Result<FileMigration, Error>)
        ensures
            result is Ok <==> is_name(tag@),
            result matches Ok(unit) ==> {
                &&& unit.wf()
                &&& unit.name() == tag@
                &&& unit.up_path() is None
                &&& unit.down_path() is None
                &&& unit.stamp_of() is None
            },
            result matches Err(e) ==> e.kind_of() == ErrorKind::TagError,
    {
        if invalid_tag(tag) {
            return Err(
                Error::TagError(
                    String::from_str("Invalid tag `").concat(tag).concat(
                        "`. Tags can contain [a-z0-9-]",
                    ),
                ),
            );
        }
        Ok(FileMigration { tag: String::from_str(tag), up: None, down: None, stamp: None })
    }

    /// A unit found on disk: stamp, name, and the paths of its two scripts.
    ///
    /// Fails with a `TagError` unless the name is a name.
    pub fn found(stamp: Stamp, name: &str, up: &str, down: &str) -> (result: Result<
        FileMigration,
        Error,
    >)
        ensures
            result is Ok <==> is_name(name@),
            result matches Ok(unit) ==> {
                &&& unit.wf()
                &&& unit.name() == name@
                &&& unit.up_path() == Some(up@)
                &&& unit.down_path() == Some(down@)
                &&& unit.stamp_of() == Some(stamp)
            },
            result matches Err(e) ==> e.kind_of() == ErrorKind::TagError,
    {
        proof {
            use_type_invariant(&stamp);
        }
        if invalid_tag(name) {
            return Err(
                Error::TagError(
                    String::from_str("Invalid tag `").concat(name).concat(
                        "`. Tags can contain [a-z0-9-]",
                    ),
                ),
            );
        }
        Ok(
            FileMigration {
                tag: String::from_str(name),
                up: Some(String::from_str(up)),
                down: Some(String::from_str(down)),
                stamp: Some(stamp),
            },
        )
    }

    /// Sets the file that applies the unit.
    ///
    /// `exists` says whether the file was found on disk. Where it was not, the
    /// unit stays as it is and the call fails with `MigrationNotFound`.
    pub fn up(&mut self, up_file: &str, exists: bool) -> (result: Result<&mut FileMigration, Error>)
        ensures
            result is Ok <==> exists,
            result matches Ok(this) ==> {
                &&& this.wf()
                &&& this.name() == old(self).name()
                &&& this.up_path() == Some(up_file@)
                &&& this.down_path() == old(self).down_path()
                &&& this.stamp_of() == old(self).stamp_of()
                &&& *final(self) == *final(this)
            },
            result matches Err(e) ==> e.kind_of() == ErrorKind::MigrationNotFound && e.message_of()
                == missing_message(up_file@) && *final(self) == *old(self),
    {
        proof {
            use_type_invariant(&*self);
        }
        if !exists {
            return Err(Self::missing(up_file));
        }
        self.up = Some(String::from_str(up_file));
        Ok(self)
    }

    /// Sets the file that reverts the unit.
    ///
    /// `exists` says whether the file was found on disk. Where it was not, the
    /// unit stays as it is and the call fails with `MigrationNotFound`.
    pub fn down(&mut self, down_file: &str, exists: bool) -> (result: Result<
        &mut FileMigration,
        Error,
    >)
        ensures
            result is Ok <==> exists,
            result matches Ok(this) ==> {
                &&& this.wf()
                &&& this.name() == old(self).name()
                &&& this.up_path() == old(self).up_path()
                &&& this.down_path() == Some(down_file@)
                &&& this.stamp_of() == old(self).stamp_of()
                &&& *final(self) == *final(this)
            },
            result matches Err(e) ==> e.kind_of() == ErrorKind::MigrationNotFound && e.message_of()
                == missing_message(down_file@) && *final(self) == *old(self),
    {
        proof {
            use_type_invariant(&*self);
        }
        if !exists {
            return Err(Self::missing(down_file));
        }
        self.down = Some(String::from_str(down_file));
        Ok(self)
    }

    fn missing(path: &str) -> (error: Error)
        ensures
            error.kind_of() == ErrorKind::MigrationNotFound,
            error.message_of() == missing_message(path@),
    {
        Error::MigrationNotFound(
            String::from_str("Migration file not found: ").concat(quoted(path).as_str()),
        )
    }

    /// The stamp of the unit, if it was found on disk.
    pub fn stamp(&self) -> (stamp: Option<&Stamp>)
        ensures
            stamp matches Some(s) ==> self.stamp_of() == Some(*s) && s.wf(),
            stamp is None ==> self.stamp_of() is None,
    {
        proof {
            use_type_invariant(self);
        }
        self.stamp.as_ref()
    }

    /// The unit as one of the closed set of variants.
    pub fn boxed(&self) -> (unit: Box<Migration>)
        ensures
            *unit == Migration::File(*self),
    {
        Box::new(Migration::File(self.clone()))
    }
}

impl Clone for FileMigration {
    fn clone(&self) -> (copy: FileMigration)
        ensures
            copy == *self,
    {
        proof {
            use_type_invariant(self);
        }
        FileMigration {
            tag: self.tag.clone(),
            up: self.up.clone(),
            down: self.down.clone(),
            stamp: self.stamp.clone(),
        }
    }
}

impl Migratable for FileMigration {
    /// The stamp, an underscore and the name; the name alone where there is no stamp.
    open spec fn tag_text(&self) -> Seq<char> {
        match self.stamp_of() {
            Some(stamp) => generated_tag(stamp.text(), self.name()),
            None => self.name(),
        }
    }

    /// The path of the script for the direction, quoted; the tag where there is none.
    open spec fn description_text(&self, direction: Direction) -> Seq<char> {
        let path = match direction {
            Direction::Up => self.up_path(),
            Direction::Down => self.down_path(),
        };
        match path {
            Some(path) => debug_quoted(path),
            None => self.tag_text(),
        }
    }

    open spec fn script_view(&self, direction: Direction) -> ScriptView {
        let path = match direction {
            Direction::Up => self.up_path(),
            Direction::Down => self.down_path(),
        };
        match path {
            Some(path) => ScriptView::File(path),
            None => ScriptView::Empty,
        }
    }

    fn tag(&self) -> (tag: String) {
        match &self.stamp {
            Some(stamp) => {
                let text = String::from_str(stamp.as_str()).concat("_").concat(self.tag.as_str());
                proof {
                    reveal_strlit("_");
                    assert("_"@ =~= seq!['_']);
                }
                text
            },
            None => self.tag.clone(),
        }
    }

    fn description(&self, direction: &Direction) -> (text: String) {
        let path = match direction {
            Direction::Up => &self.up,
            Direction::Down => &self.down,
        };
        match path {
            Some(path) => quoted(path.as_str()),
            None => self.tag(),
        }
    }

    fn script(&self, direction: &Direction) -> (script: Script) {
        let path = match direction {
            Direction::Up => &self.up,
            Direction::Down => &self.down,
        };
        match path {
            Some(path) => Script::File(path.clone()),
            None => Script::Empty,
        }
    }
}

/// A migration whose statements are part of the program, so that no file is
/// needed when it runs.
#[derive(Debug)]
pub struct EmbeddedMigration {
    tag: String,
    up: Option<&'static str>,
    down: Option<&'static str>,
}

impl EmbeddedMigration {
    /// The name of the unit, which is its tag.
    pub closed spec fn name(&self) -> Seq<char> {
        self.tag@
    }

    /// The statements that apply the unit, if there are any.
    pub closed spec fn up_statement(&self) -> Option<Seq<char>> {
        match self.up {
            Some(text) => Some(text@),
            None => None,
        }
    }

    /// The statements that revert the unit, if there are any.
    pub closed spec fn down_statement(&self) -> Option<Seq<char>> {
        match self.down {
            Some(text) => Some(text@),
            None => None,
        }
    }

    /// What holds of every embedded unit: its name is a name.
    #[verifier::type_invariant]
    pub closed spec fn wf(&self) -> bool {
        is_name(self.tag@)
    }

    /// A unit with the given tag and no statements.
    ///
    /// Fails with a `TagError` unless the tag is a name.
    pub fn with_tag(tag: &str) -> (result: Result<EmbeddedMigration, Error>)
        ensures
            result is Ok <==> is_name(tag@),
            result matches Ok(unit) ==> {
                &&& unit.wf()
                &&& unit.name() == tag@
                &&& unit.up_statement() is None
                &&& unit.down_statement() is None
            },
            result matches Err(e) ==> e.kind_of() == ErrorKind::TagError,
    {
        if invalid_tag(tag) {
            return Err(
                Error::TagError(
                    String::from_str("Invalid tag `").concat(tag).concat(
                        "`. Tags can contain [a-z0-9-]",
                    ),
                ),
            );
        }
        Ok(EmbeddedMigration { tag: String::from_str(tag), up: None, down: None })
    }

    /// Sets the statements that apply the unit.
    pub fn up(&mut self, stmt: &'static str) -> (this: &mut EmbeddedMigration)
        ensures
            this.wf(),
            this.name() == old(self).name(),
            this.up_statement() == Some(stmt@),
            this.down_statement() == old(self).down_statement(),
            *final(self) == *final(this),
    {
        proof {
            use_type_invariant(&*self);
        }
        self.up = Some(stmt);
        self
    }

    /// Sets the statements that revert the unit.
    pub fn down(&mut self, stmt: &'static str) -> (this: &mut EmbeddedMigration)
        ensures
            this.wf(),
            this.name() == old(self).name(),
            this.up_statement() == old(self).up_statement(),
            this.down_statement() == Some(stmt@),
            *final(self) == *final(this),
    {
        proof {
            use_type_invariant(&*self);
        }
        self.down = Some(stmt);
        self
    }

    /// The unit as one of the closed set of variants.
    pub fn boxed(&self) -> (unit: Box<Migration>)
        ensures
            *unit == Migration::Embedded(*self),
    {
        Box::new(Migration::Embedded(self.clone()))
    }
}

impl Clone for EmbeddedMigration {
    fn clone(&self) -> (copy: EmbeddedMigration)
        ensures
            copy == *self,
    {
        proof {
            use_type_invariant(self);
        }
        EmbeddedMigration { tag: self.tag.clone(), up: self.up, down: self.down }
    }
}

impl Migratable for EmbeddedMigration {
    open spec fn tag_text(&self) -> Seq<char> {
        self.name()
    }

    open spec fn description_text(&self, direction: Direction) -> Seq<char> {
        self.name()
    }

    open spec fn script_view(&self, direction: Direction) -> ScriptView {
        let text = match direction {
            Direction::Up => self.up_statement(),
            Direction::Down => self.down_statement(),
        };
        match text {
            Some(text) => ScriptView::Statement(text),
            None => ScriptView::Empty,
        }
    }

    fn tag(&self) -> (tag: String) {
        self.tag.clone()
    }

    fn description(&self, direction: &Direction) -> (text: String) {
        self.tag.clone()
    }

    fn script(&self, direction: &Direction) -> (script: Script) {
        let text = match direction {
            Direction::Up => self.up,
            Direction::Down => self.down,
        };
        match text {
            Some(text) => Script::Statement(String::from_str(text)),
            None => Script::Empty,
        }
    }
}

/// A migration that runs callbacks of the embedding program, for changes that
/// plain statements cannot express.
///
/// The callbacks stay with the program. The unit records for which directions
/// there is one.
#[derive(Debug)]
pub struct FnMigration<T, U> {
    tag: String,
    up: Option<T>,
    down: Option<U>,
}

impl<T, U> FnMigration<T, U> {
    /// The name of the unit, which is its tag.
    pub closed spec fn name(&self) -> Seq<char> {
        self.tag@
    }

    /// The callback that applies the unit, if there is one.
    pub closed spec fn up_callback(&self) -> Option<T> {
        self.up
    }

    /// The callback that reverts the unit, if there is one.
    pub closed spec fn down_callback(&self) -> Option<U> {
        self.down
    }

    /// What holds of every programmable unit: its name is a name.
    #[verifier::type_invariant]
    pub closed spec fn wf(&self) -> bool {
        is_name(self.tag@)
    }

    /// A unit with the given tag and no callbacks.
    ///
    /// Fails with a `TagError` unless the tag is a name.
    pub fn with_tag(tag: &str) -> (result: Result<FnMigration<T, U>, Error>)
        ensures
            result is Ok <==> is_name(tag@),
            result matches Ok(unit) ==> {
                &&& unit.wf()
                &&& unit.name() == tag@
                &&& unit.up_callback() is None
                &&& unit.down_callback() is None
            },
            result matches Err(e) ==> e.kind_of() == ErrorKind::TagError,
    {
        if invalid_tag(tag) {
            return Err(
                Error::TagError(
                    String::from_str("Invalid tag `").concat(tag).concat(
                        "`. Tags can contain [a-z0-9-]",
                    ),
                ),
            );
        }
        Ok(FnMigration { tag: String::from_str(tag), up: None, down: None })
    }

    /// Sets the callback that applies the unit.
    pub fn up(&mut self, f_up: T) -> (this: &mut FnMigration<T, U>)
        ensures
            this.wf(),
            this.name() == old(self).name(),
            this.up_callback() == Some(f_up),
            this.down_callback() == old(self).down_callback(),
            *final(self) == *final(this),
    {
        proof {
            use_type_invariant(&*self);
        }
        self.up = Some(f_up);
        self
    }

    /// Sets the callback that reverts the unit.
    pub fn down(&mut self, f_down: U) -> (this: &mut FnMigration<T, U>)
        ensures
            this.wf(),
            this.name() == old(self).name(),
            this.up_callback() == old(self).up_callback(),
            this.down_callback() == Some(f_down),
            *final(self) == *final(this),
    {
        proof {
            use_type_invariant(&*self);
        }
        self.down = Some(f_down);
        self
    }

    /// The unit as one of the closed set of variants: its tag, and for which
    /// directions it has a callback.
    pub fn boxed(&self) -> (unit: Box<Migration>)
        ensures
            unit.tag_text() == self.name(),
            *unit matches Migration::Programmable(p) && p.has_up() == (self.up_callback() is Some)
                && p.has_down() == (self.down_callback() is Some),
    {
        proof {
            use_type_invariant(self);
        }
        Box::new(
            Migration::Programmable(
                ProgrammableMigration {
                    tag: self.tag.clone(),
                    up: self.up.is_some(),
                    down: self.down.is_some(),
                },
            ),
        )
    }

    /// The callback that applies the unit, if there is one.
    pub fn up_fn(&self) -> (f: Option<&T>)
        ensures
            f matches Some(g) ==> self.up_callback() == Some(*g),
            f is None ==> self.up_callback() is None,
    {
        self.up.as_ref()
    }

    /// The callback that reverts the unit, if there is one.
    pub fn down_fn(&self) -> (f: Option<&U>)
        ensures
            f matches Some(g) ==> self.down_callback() == Some(*g),
            f is None ==> self.down_callback() is None,
    {
        self.down.as_ref()
    }
}

/// A programmable unit as the engine sees it: its tag, and for which
/// directions the program keeps a callback.
#[derive(Debug)]
pub struct ProgrammableMigration {
    tag: String,
    up: bool,
    down: bool,
}

impl ProgrammableMigration {
    /// The name of the unit, which is its tag.
    pub closed spec fn name(&self) -> Seq<char> {
        self.tag@
    }

    /// Whether there is a callback that applies the unit.
    pub closed spec fn has_up(&self) -> bool {
        self.up
    }

    /// Whether there is a callback that reverts the unit.
    pub closed spec fn has_down(&self) -> bool {
        self.down
    }

    /// What holds of every programmable unit: its name is a name.
    #[verifier::type_invariant]
    pub closed spec fn wf(&self) -> bool {
        is_name(self.tag@)
    }
}

impl Clone for ProgrammableMigration {
    fn clone(&self) -> (copy: ProgrammableMigration)
        ensures
            copy == *self,
    {
        proof {
            use_type_invariant(self);
        }
        ProgrammableMigration { tag: self.tag.clone(), up: self.up, down: self.down }
    }
}

impl Migratable for ProgrammableMigration {
    open spec fn tag_text(&self) -> Seq<char> {
        self.name()
    }

    open spec fn description_text(&self, direction: Direction) -> Seq<char> {
        self.name()
    }

    open spec fn script_view(&self, direction: Direction) -> ScriptView {
        let present = match direction {
            Direction::Up => self.has_up(),
            Direction::Down => self.has_down(),
        };
        if present {
            ScriptView::Callback
        } else {
            ScriptView::Empty
        }
    }

    fn tag(&self) -> (tag: String) {
        self.tag.clone()
    }

    fn description(&self, direction: &Direction) -> (text: String) {
        self.tag.clone()
    }

    fn script(&self, direction: &Direction) -> (script: Script) {
        let present = match direction {
            Direction::Up => self.up,
            Direction::Down => self.down,
        };
        if present {
            Script::Callback
        } else {
            Script::Empty
        }
    }
}

/// A migration unit: one of the three variants.
#[derive(Debug)]
pub enum Migration {
    File(FileMigration),
    Embedded(EmbeddedMigration),
    Programmable(ProgrammableMigration),
}

impl Migration {
    /// What holds of every unit: what holds of its variant.
    pub open spec fn wf(&self) -> bool {
        match self {
            Migration::File(unit) => unit.wf(),
            Migration::Embedded(unit) => unit.wf(),
            Migration::Programmable(unit) => unit.wf(),
        }
    }

    /// The stamp of the unit, if it is a file-backed unit that was found on disk.
    pub open spec fn stamp_of(&self) -> Option<Stamp> {
        match self {
            Migration::File(unit) => unit.stamp_of(),
            _ => None,
        }
    }

    /// Shows that the unit is well formed, as every unit is.
    pub fn well_formed(&self)
        ensures
            self.wf(),
    {
        match self {
            Migration::File(unit) => {
                proof {
                    use_type_invariant(unit);
                }
            },
            Migration::Embedded(unit) => {
                proof {
                    use_type_invariant(unit);
                }
            },
            Migration::Programmable(unit) => {
                proof {
                    use_type_invariant(unit);
                }
            },
        }
    }
}

impl Clone for Migration {
    fn clone(&self) -> (copy: Migration)
        ensures
            copy == *self,
    {
        match self {
            Migration::File(unit) => Migration::File(unit.clone()),
            Migration::Embedded(unit) => Migration::Embedded(unit.clone()),
            Migration::Programmable(unit) => Migration::Programmable(unit.clone()),
        }
    }
}

impl Migratable for Migration {
    open spec fn tag_text(&self) -> Seq<char> {
        match self {
            Migration::File(unit) => unit.tag_text(),
            Migration::Embedded(unit) => unit.tag_text(),
            Migration::Programmable(unit) => unit.tag_text(),
        }
    }

    open spec fn description_text(&self, direction: Direction) -> Seq<char> {
        match self {
            Migration::File(unit) => unit.description_text(direction),
            Migration::Embedded(unit) => unit.description_text(direction),
            Migration::Programmable(unit) => unit.description_text(direction),
        }
    }

    open spec fn script_view(&self, direction: Direction) -> ScriptView {
        match self {
            Migration::File(unit) => unit.script_view(direction),
            Migration::Embedded(unit) => unit.script_view(direction),
            Migration::Programmable(unit) => unit.script_view(direction),
        }
    }

    fn tag(&self) -> (tag: String) {
        match self {
            Migration::File(unit) => unit.tag(),
            Migration::Embedded(unit) => unit.tag(),
            Migration::Programmable(unit) => unit.tag(),
        }
    }

    fn description(&self, direction: &Direction) -> (text: String) {
        match self {
            Migration::File(unit) => unit.description(direction),
            Migration::Embedded(unit) => unit.description(direction),
            Migration::Programmable(unit) => unit.description(direction),
        }
    }

    fn script(&self, direction: &Direction) -> (script: Script) {
        match self {
            Migration::File(unit) => unit.script(direction),
            Migration::Embedded(unit) => unit.script(direction),
            Migration::Programmable(unit) => unit.script(direction),
        }
    }
}

/// What is said of a script file that is not there: that it was not found,
/// and its path as `std` shows it.
pub open spec fn missing_message(path: Seq<char>) -> Seq<char> {
    "Migration file not found: "@ + debug_quoted(path)
}

} // verus!
