//! Which of two tags comes first.
//!
//! Generated tags are ordered by their stamps. Registered tags are ordered by
//! their places in the source: the order is that of registration, not that of
//! the alphabet.

use vstd::prelude::*;
use crate::errors::{Error, ErrorKind};
use crate::ledger::tag_number;
use crate::migration::{Migratable, Migration};
use crate::resolve::tags_of;
use crate::stamp::{is_stamp, Stamp};
use crate::tag::{generated_tag_form, is_generated, stamp_part, STAMP_LEN};

verus! {

/// How one tag stands to another.
#[derive(Clone, Copy, Debug, PartialEq, Eq, Structural)]
pub enum Precedence {
    /// It comes first.
    Before,
    /// Neither comes first.
    Same,
    /// It comes last.
    After,
}

/// How one number stands to another.
pub open spec fn number_precedence(a: int, b: int) -> Precedence {
    if a < b {
        Precedence::Before
    } else if a == b {
        Precedence::Same
    } else {
        Precedence::After
    }
}

/// Whether `i` is the first place at which the tag stands.
pub open spec fn is_first_place(tags: Seq<Seq<char>>, tag: Seq<char>, i: int) -> bool {
    &&& 0 <= i < tags.len()
    &&& tags[i] == tag
    &&& forall|j: int| 0 <= j < i ==> #[trigger] tags[j] != tag
}

/// The first place at which the tag stands among tags that hold it.
pub open spec fn first_place(tags: Seq<Seq<char>>, tag: Seq<char>) -> int {
    choose|i: int| is_first_place(tags, tag, i)
}

/// Whether a tag is a generated tag whose stamp is a time.
pub open spec fn is_stamped(tag: Seq<char>) -> bool {
    is_generated(tag) && is_stamp(stamp_part(tag))
}

/// How one tag stands to another, or the kind of the error that says why it
/// cannot be told.
///
/// With a source of registered migrations, both tags must be tags of the
/// source, and stand as their first places in it do. Without, both must be
/// generated tags whose stamps are times, and stand as their stamps do.
pub open spec fn tag_precedence(a: Seq<char>, b: Seq<char>, source: Option<Seq<Seq<char>>>) -> Result<
    Precedence,
    ErrorKind,
> {
    match source {
        Some(tags) => if tags.contains(a) && tags.contains(b) {
            Ok(number_precedence(first_place(tags, a), first_place(tags, b)))
        } else {
            Err(ErrorKind::MigrationNotFound)
        },
        None => if is_stamped(a) && is_stamped(b) {
            Ok(number_precedence(tag_number(a) as int, tag_number(b) as int))
        } else {
            Err(ErrorKind::TagError)
        },
    }
}

/// The first place at which a tag stands among the tags of units.
pub fn place_of(units: &[Migration], tag: &str) -> (place: Option<usize>)
    ensures
        match place {
            Some(i) => is_first_place(tags_of(units@), tag@, i as int) && first_place(
                tags_of(units@),
                tag@,
            ) == i,
            None => !tags_of(units@).contains(tag@),
        },
{
    let ghost tags = tags_of(units@);
    let wanted = String::from_str(tag);
    let mut i: usize = 0;
    while i < units.len()
        invariant
            i <= units@.len(),
            tags == tags_of(units@),
            wanted@ == tag@,
            forall|j: int| 0 <= j < i ==> #[trigger] tags[j] != tag@,
        decreases units@.len() - i,
    {
        let found = units[i].tag();
        assert(tags[i as int] == found@);
        if found == wanted {
            proof {
                assert(is_first_place(tags, tag@, i as int));
                let chosen = first_place(tags, tag@);
                assert(is_first_place(tags, tag@, chosen));
                if chosen < i {
                    assert(tags[chosen] != tag@);
                }
            }
            return Some(i);
        }
        i += 1;
    }
    None
}

/// The number of the stamp of a generated tag whose stamp is a time.
pub fn number_of_tag(tag: &str) -> (number: Option<u64>)
    ensures
        match number {
            Some(n) => is_stamped(tag@) && n as nat == tag_number(tag@),
            None => !is_stamped(tag@),
        },
{
    if !generated_tag_form(tag) {
        return None;
    }
    match Stamp::parse(tag.substring_char(0, STAMP_LEN)) {
        Err(_) => None,
        Ok(stamp) => {
            proof {
                stamp.lemma_wf();
            }
            Some(stamp.value())
        },
    }
}

fn precede_numbers(a: u64, b: u64) -> (precedence: Precedence)
    ensures
        precedence == number_precedence(a as int, b as int),
{
    if a < b {
        Precedence::Before
    } else if a == b {
        Precedence::Same
    } else {
        Precedence::After
    }
}

fn precede_places(a: usize, b: usize) -> (precedence: Precedence)
    ensures
        precedence == number_precedence(a as int, b as int),
{
    if a < b {
        Precedence::Before
    } else if a == b {
        Precedence::Same
    } else {
        Precedence::After
    }
}

/// The tags of a source, where there is one.
pub open spec fn source_tags(source: Option<&[Migration]>) -> Option<Seq<Seq<char>>> {
    match source {
        Some(units) => Some(tags_of(units@)),
        None => None,
    }
}

/// Tells how one tag stands to another. `source` are the migrations that the
/// program registered, where it registered any.
///
/// Fails with `MigrationNotFound` where a tag is not a tag of the source,
/// and, without a source, with a `TagError` where a tag is no generated tag
/// whose stamp is a time.
pub fn precede(a: &str, b: &str, source: Option<&[Migration]>) -> (result: Result<Precedence, Error>)
    ensures
        match result {
            Ok(precedence) => tag_precedence(a@, b@, source_tags(source)) == Ok::<
                Precedence,
                ErrorKind,
            >(precedence),
            Err(e) => tag_precedence(a@, b@, source_tags(source)) == Err::<Precedence, ErrorKind>(
                e.kind_of(),
            ),
        },
{
    match source {
        Some(units) => {
            let first = place_of(units, a);
            let second = place_of(units, b);
            match (first, second) {
                (Some(i), Some(j)) => Ok(precede_places(i, j)),
                (None, _) => Err(
                    Error::MigrationNotFound(String::from_str("Tag not found: ").concat(a)),
                ),
                (_, None) => Err(
                    Error::MigrationNotFound(String::from_str("Tag not found: ").concat(b)),
                ),
            }
        },
        None => {
            let first = number_of_tag(a);
            let second = number_of_tag(b);
            match (first, second) {
                (Some(m), Some(n)) => Ok(precede_numbers(m, n)),
                (None, _) => Err(
                    Error::TagError(String::from_str("Invalid tag format: ").concat(a)),
                ),
                (_, None) => Err(
                    Error::TagError(String::from_str("Invalid tag format: ").concat(b)),
                ),
            }
        },
    }
}

} // verus!
