//! Resolution: which unit comes next, given the ledger.
//!
//! Going up, the next unit is the first one, in the order of the source, whose
//! tag the ledger does not hold. Going down, it is the unit whose tag the
//! ledger holds last; where several units carry that tag, the last of them.

use vstd::prelude::*;
use crate::direction::Direction;
use crate::errors::{Error, ErrorKind};
use crate::migration::{Migratable, Migration};

verus! {

/// The texts of a sequence of strings.
pub open spec fn texts(strings: Seq<String>) -> Seq<Seq<char>> {
    Seq::new(strings.len(), |i: int| strings[i]@)
}

/// The tags of a sequence of units.
pub open spec fn tags_of(units: Seq<Migration>) -> Seq<Seq<char>> {
    Seq::new(units.len(), |i: int| units[i].tag_text())
}

/// Whether the ledger holds the tag of every unit.
pub open spec fn all_applied(tags: Seq<Seq<char>>, applied: Seq<Seq<char>>) -> bool {
    forall|j: int| 0 <= j < tags.len() ==> applied.contains(#[trigger] tags[j])
}

/// Whether the unit at `i` is the next to apply: the ledger does not hold its
/// tag, and holds the tag of every unit before it.
pub open spec fn is_next_up(tags: Seq<Seq<char>>, applied: Seq<Seq<char>>, i: int) -> bool {
    &&& 0 <= i < tags.len()
    &&& !applied.contains(tags[i])
    &&& all_applied(tags.subrange(0, i), applied)
}

/// Whether no unit carries the tag.
pub open spec fn unknown_tag(tags: Seq<Seq<char>>, tag: Seq<char>) -> bool {
    forall|j: int| 0 <= j < tags.len() ==> #[trigger] tags[j] != tag
}

/// Whether the unit at `i` is the next to revert: it carries the tag that the
/// ledger holds last, and no unit after it does.
pub open spec fn is_next_down(tags: Seq<Seq<char>>, applied: Seq<Seq<char>>, i: int) -> bool {
    &&& applied.len() > 0
    &&& 0 <= i < tags.len()
    &&& tags[i] == applied.last()
    &&& unknown_tag(tags.subrange(i + 1, tags.len() as int), applied.last())
}

/// Whether the unit at `i` is the next to act on in the direction.
pub open spec fn is_next(
    direction: Direction,
    tags: Seq<Seq<char>>,
    applied: Seq<Seq<char>>,
    i: int,
) -> bool {
    match direction {
        Direction::Up => is_next_up(tags, applied, i),
        Direction::Down => is_next_down(tags, applied, i),
    }
}

/// Whether nothing is left to do in the direction: going up, the ledger holds
/// every tag; going down, the ledger is empty.
pub open spec fn nothing_left(
    direction: Direction,
    tags: Seq<Seq<char>>,
    applied: Seq<Seq<char>>,
) -> bool {
    match direction {
        Direction::Up => all_applied(tags, applied),
        Direction::Down => applied.len() == 0,
    }
}

/// Whether the ledger refers to a unit that the source does not have: going
/// down, the tag that the ledger holds last is the tag of no unit.
pub open spec fn ledger_unmatched(
    direction: Direction,
    tags: Seq<Seq<char>>,
    applied: Seq<Seq<char>>,
) -> bool {
    direction == Direction::Down && applied.len() > 0 && unknown_tag(tags, applied.last())
}

/// At most one unit is the next.
pub proof fn lemma_next_unique(
    direction: Direction,
    tags: Seq<Seq<char>>,
    applied: Seq<Seq<char>>,
    i: int,
    j: int,
)
    requires
        is_next(direction, tags, applied, i),
        is_next(direction, tags, applied, j),
    ensures
        i == j,
{
    match direction {
        Direction::Up => {
            if i < j {
                assert(tags.subrange(0, j)[i] == tags[i]);
            } else if j < i {
                assert(tags.subrange(0, i)[j] == tags[j]);
            }
        },
        Direction::Down => {
            if i < j {
                assert(tags.subrange(i + 1, tags.len() as int)[j - i - 1] == tags[j]);
            } else if j < i {
                assert(tags.subrange(j + 1, tags.len() as int)[i - j - 1] == tags[i]);
            }
        },
    }
}

/// Of the three outcomes of a resolution, a next unit, nothing left, and a
/// ledger that refers to no unit, exactly one holds.
pub proof fn lemma_outcomes_exclusive(
    direction: Direction,
    tags: Seq<Seq<char>>,
    applied: Seq<Seq<char>>,
    i: int,
)
    requires
        is_next(direction, tags, applied, i),
    ensures
        !nothing_left(direction, tags, applied),
        !ledger_unmatched(direction, tags, applied),
{
}

/// Tells whether one of `strings` has the text of `tag`.
pub fn contains_tag(strings: &[String], tag: &String) -> (found: bool)
    ensures
        found == texts(strings@).contains(tag@),
{
    let mut i: usize = 0;
    while i < strings.len()
        invariant
            i <= strings@.len(),
            forall|j: int| 0 <= j < i ==> texts(strings@)[j] != tag@,
        decreases strings@.len() - i,
    {
        if strings[i] == *tag {
            assert(texts(strings@)[i as int] == tag@);
            return true;
        }
        i += 1;
    }
    false
}

/// The position of the next unit to act on.
///
/// Returns the position where there is a next unit, and `None` where nothing is
/// left in the direction. Fails with `MigrationNotFound` where, going down, the
/// tag that the ledger holds last is the tag of no unit.
pub fn next_position(direction: &Direction, available: &[Migration], applied: &[String]) -> (result:
    Result<Option<usize>, Error>)
    ensures
        match result {
            Ok(Some(i)) => is_next(*direction, tags_of(available@), texts(applied@), i as int),
            Ok(None) => nothing_left(*direction, tags_of(available@), texts(applied@)),
            Err(e) => ledger_unmatched(*direction, tags_of(available@), texts(applied@))
                && e.kind_of() == ErrorKind::MigrationNotFound,
        },
{
    let ghost tags = tags_of(available@);
    let ghost held = texts(applied@);
    match direction {
        Direction::Up => {
            let mut i: usize = 0;
            while i < available.len()
                invariant
                    i <= available@.len(),
                    tags == tags_of(available@),
                    held == texts(applied@),
                    all_applied(tags.subrange(0, i as int), held),
                    *direction == Direction::Up,
                decreases available@.len() - i,
            {
                let tag = available[i].tag();
                assert(tags[i as int] == tag@);
                if !contains_tag(applied, &tag) {
                    return Ok(Some(i));
                }
                proof {
                    let before = tags.subrange(0, i as int);
                    let after = tags.subrange(0, i + 1);
                    assert forall|j: int| 0 <= j < after.len() implies held.contains(
                        #[trigger] after[j],
                    ) by {
                        if j < i {
                            assert(after[j] == before[j]);
                        }
                    }
                }
                i += 1;
            }
            proof {
                assert(tags.subrange(0, i as int) =~= tags);
            }
            Ok(None)
        },
        Direction::Down => {
            if applied.len() == 0 {
                return Ok(None);
            }
            let last = &applied[applied.len() - 1];
            assert(held.last() == last@);
            let mut i: usize = available.len();
            while i > 0
                invariant
                    i <= available@.len(),
                    tags == tags_of(available@),
                    held == texts(applied@),
                    held.len() > 0,
                    *direction == Direction::Down,
                    held.last() == last@,
                    unknown_tag(tags.subrange(i as int, tags.len() as int), last@),
                decreases i,
            {
                let tag = available[i - 1].tag();
                assert(tags[i - 1] == tag@);
                if tag == *last {
                    return Ok(Some(i - 1));
                }
                proof {
                    let after = tags.subrange(i as int, tags.len() as int);
                    let wider = tags.subrange(i - 1, tags.len() as int);
                    assert forall|j: int| 0 <= j < wider.len() implies #[trigger] wider[j]
                        != last@ by {
                        if j > 0 {
                            assert(wider[j] == after[j - 1]);
                        }
                    }
                }
                i -= 1;
            }
            proof {
                assert(tags.subrange(0, tags.len() as int) =~= tags);
            }
            Err(
                Error::MigrationNotFound(
                    String::from_str("Tag not found: ").concat(last.as_str()),
                ),
            )
        },
    }
}

/// The next unit to act on.
///
/// Returns the unit where there is a next one, and `None` where nothing is
/// left in the direction. Fails with `MigrationNotFound` where, going down, the
/// tag that the ledger holds last is the tag of no unit.
pub fn next_available<'a>(
    direction: &Direction,
    available: &'a [Migration],
    applied: &[String],
) -> (result: Result<Option<&'a Migration>, Error>)
    ensures
        match result {
            Ok(Some(unit)) => exists|i: int|
                is_next(*direction, tags_of(available@), texts(applied@), i) && *unit
                    == available@[i],
            Ok(None) => nothing_left(*direction, tags_of(available@), texts(applied@)),
            Err(e) => ledger_unmatched(*direction, tags_of(available@), texts(applied@))
                && e.kind_of() == ErrorKind::MigrationNotFound,
        },
{
    match next_position(direction, available, applied) {
        Ok(Some(i)) => Ok(Some(&available[i])),
        Ok(None) => Ok(None),
        Err(e) => Err(e),
    }
}

} // verus!
