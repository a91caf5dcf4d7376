//! The ledger: the tags that the database holds as applied, in their order.
//!
//! What the database hands out is checked and ordered before it is used. Every
//! tag must be well formed in the dialect of the source in use: a name where the
//! migrations were registered by the program, a generated tag where they are
//! found on disk. Generated tags are then ordered by their stamps. Registered
//! tags stay in the order in which the database gave them.

use vstd::prelude::*;
use crate::errors::{Error, ErrorKind};
use crate::resolve::texts;
use crate::stamp::{digits_value, is_stamp, Stamp};
use crate::tag::{conforms, stamp_part, validate, Dialect, STAMP_LEN};

verus! {

/// The dialect of the tags of a source: names where it was registered by the
/// program, generated tags where it is found on disk.
pub open spec fn dialect_of(explicit: bool) -> Dialect {
    if explicit {
        Dialect::Explicit
    } else {
        Dialect::Generated
    }
}

/// The number that the stamp of a generated tag denotes.
pub open spec fn tag_number(tag: Seq<char>) -> nat {
    digits_value(stamp_part(tag))
}

/// Whether every tag is well formed in the dialect.
pub open spec fn all_conform(tags: Seq<Seq<char>>, dialect: Dialect) -> bool {
    forall|i: int| 0 <= i < tags.len() ==> conforms(#[trigger] tags[i], dialect)
}

/// Whether the stamp of every tag is a time.
pub open spec fn all_stamped(tags: Seq<Seq<char>>) -> bool {
    forall|i: int| 0 <= i < tags.len() ==> is_stamp(stamp_part(#[trigger] tags[i]))
}

/// Whether generated tags stand in the order of their stamps.
pub open spec fn sorted_tags(tags: Seq<Seq<char>>) -> bool {
    forall|i: int, j: int|
        0 <= i < j < tags.len() ==> tag_number(#[trigger] tags[i]) <= tag_number(
            #[trigger] tags[j],
        )
}

/// Whether `ledger` is what a load makes of the `stored` tags: the same tags,
/// as they came where the source was registered, and in the order of their
/// stamps where it is found on disk.
pub open spec fn is_ledger_of(
    ledger: Seq<Seq<char>>,
    stored: Seq<Seq<char>>,
    explicit: bool,
) -> bool {
    if explicit {
        ledger == stored
    } else {
        sorted_tags(ledger) && ledger.to_multiset() == stored.to_multiset()
    }
}

/// What is wrong with what the database holds, if anything: the kind of the
/// error that a load fails with.
pub open spec fn load_defect(explicit: bool, table_exists: bool, stored: Seq<Seq<char>>) -> Option<
    ErrorKind,
> {
    if !table_exists {
        Some(ErrorKind::Migration)
    } else if !all_conform(stored, dialect_of(explicit)) {
        Some(ErrorKind::Migration)
    } else if !explicit && !all_stamped(stored) {
        Some(ErrorKind::TagError)
    } else {
        None
    }
}

/// Whether no two of the tags have the same stamp.
pub open spec fn distinct_stamps(tags: Seq<Seq<char>>) -> bool {
    forall|i: int, j: int|
        0 <= i < j < tags.len() ==> tag_number(#[trigger] tags[i]) != tag_number(
            #[trigger] tags[j],
        )
}

/// A ledger of generated tags with different stamps is determined by the tags
/// that it holds: two such ledgers that are in the order of their stamps and
/// hold the same tags are the same.
pub proof fn lemma_ledger_determined(ledger: Seq<Seq<char>>, stored: Seq<Seq<char>>)
    requires
        sorted_tags(ledger),
        sorted_tags(stored),
        distinct_stamps(stored),
        ledger.to_multiset() == stored.to_multiset(),
    ensures
        ledger == stored,
    decreases stored.len(),
{
    broadcast use vstd::multiset::group_multiset_axioms;

    vstd::seq_lib::to_multiset_len(ledger);
    vstd::seq_lib::to_multiset_len(stored);
    if stored.len() == 0 {
        assert(ledger =~= stored);
    } else {
        let n = stored.len() as int;
        let x = ledger.last();
        let y = stored.last();
        // The last tag of either ledger is a tag of the other.
        vstd::seq_lib::to_multiset_contains(ledger, x);
        vstd::seq_lib::to_multiset_contains(stored, x);
        vstd::seq_lib::to_multiset_contains(ledger, y);
        vstd::seq_lib::to_multiset_contains(stored, y);
        assert(ledger.contains(x)) by {
            assert(ledger[n - 1] == x);
        }
        assert(stored.contains(y)) by {
            assert(stored[n - 1] == y);
        }
        let j = choose|j: int| 0 <= j < stored.len() && stored[j] == x;
        let i = choose|i: int| 0 <= i < ledger.len() && ledger[i] == y;
        // Both are the latest, so they are the same.
        assert(x == y) by {
            if j < n - 1 {
                assert(tag_number(stored[j]) <= tag_number(stored[n - 1]));
                assert(tag_number(stored[j]) != tag_number(stored[n - 1]));
                if i < n - 1 {
                    assert(tag_number(ledger[i]) <= tag_number(ledger[n - 1]));
                }
            }
        }
        let front = ledger.drop_last();
        let rest = stored.drop_last();
        assert(front.push(x) =~= ledger);
        assert(rest.push(y) =~= stored);
        vstd::seq_lib::to_multiset_build(front, x);
        vstd::seq_lib::to_multiset_build(rest, y);
        assert(front.to_multiset() =~= rest.to_multiset()) by {
            assert forall|tag: Seq<char>| front.to_multiset().count(tag) == rest.to_multiset().count(
                tag,
            ) by {
                assert(front.to_multiset().insert(x).count(tag) == rest.to_multiset().insert(
                    x,
                ).count(tag));
            }
        }
        assert forall|a: int, b: int| 0 <= a < b < front.len() implies tag_number(
            #[trigger] front[a],
        ) <= tag_number(#[trigger] front[b]) by {
            assert(front[a] == ledger[a] && front[b] == ledger[b]);
        }
        assert forall|a: int, b: int| 0 <= a < b < rest.len() implies tag_number(
            #[trigger] rest[a],
        ) <= tag_number(#[trigger] rest[b]) && tag_number(rest[a]) != tag_number(rest[b]) by {
            assert(rest[a] == stored[a] && rest[b] == stored[b]);
        }
        lemma_ledger_determined(front, rest);
    }
}

/// What is said of a tag that the database holds and that is not well formed
/// in the dialect in use.
pub open spec fn nonconforming_message(explicit: bool, tag: Seq<char>) -> Seq<char> {
    "Found a non-conforming tag in the database: `"@ + tag + if explicit {
        "`. Managed tags may contain [a-z0-9-]"@
    } else {
        "`. Generated tags must follow [0-9]{14}_[a-z0-9-]"@
    }
}

/// Checks a tag that the database holds against the dialect in use.
///
/// Fails with a `Migration` error, which names the tag, unless the tag is well
/// formed in the dialect.
pub fn check_saved_tag(explicit: bool, tag: &str) -> (result: Result<(), Error>)
    ensures
        result is Ok <==> conforms(tag@, dialect_of(explicit)),
        result matches Err(e) ==> e.kind_of() == ErrorKind::Migration && e.message_of()
            == nonconforming_message(explicit, tag@),
{
    if explicit {
        match validate(tag, Dialect::Explicit) {
            Ok(_) => Ok(()),
            Err(_) => Err(
                Error::Migration(
                    String::from_str("Found a non-conforming tag in the database: `").concat(
                        tag,
                    ).concat("`. Managed tags may contain [a-z0-9-]"),
                ),
            ),
        }
    } else {
        match validate(tag, Dialect::Generated) {
            Ok(_) => Ok(()),
            Err(_) => Err(
                Error::Migration(
                    String::from_str("Found a non-conforming tag in the database: `").concat(
                        tag,
                    ).concat("`. Generated tags must follow [0-9]{14}_[a-z0-9-]"),
                ),
            ),
        }
    }
}

fn place_for(keys: &Vec<u64>, key: u64) -> (place: usize)
    requires
        forall|i: int, j: int| 0 <= i < j < keys@.len() ==> keys@[i] <= keys@[j],
    ensures
        place <= keys@.len(),
        forall|i: int| 0 <= i < place ==> keys@[i] <= key,
        forall|i: int| place <= i < keys@.len() ==> key < keys@[i],
{
    let mut p: usize = 0;
    while p < keys.len()
        invariant
            p <= keys@.len(),
            forall|i: int, j: int| 0 <= i < j < keys@.len() ==> keys@[i] <= keys@[j],
            forall|i: int| 0 <= i < p ==> keys@[i] <= key,
        decreases keys@.len() - p,
    {
        if key < keys[p] {
            return p;
        }
        p += 1;
    }
    p
}

/// Brings generated tags into the order of their stamps.
///
/// Fails with a `TagError` unless the stamp of every tag is a time. Tags with
/// the same stamp keep the order in which they came.
fn sort_by_stamp(stored: &[String]) -> (result: Result<Vec<String>, Error>)
    requires
        all_conform(texts(stored@), Dialect::Generated),
    ensures
        result is Ok <==> all_stamped(texts(stored@)),
        result matches Ok(ledger) ==> is_ledger_of(texts(ledger@), texts(stored@), false),
        result matches Err(e) ==> e.kind_of() == ErrorKind::TagError,
{
    let ghost given = texts(stored@);
    let mut keys: Vec<u64> = Vec::new();
    let mut tags: Vec<String> = Vec::new();
    let mut k: usize = 0;
    proof {
        assert(texts(tags@) =~= Seq::empty());
        assert(given.subrange(0, 0) =~= Seq::empty());
    }
    while k < stored.len()
        invariant
            k <= stored@.len(),
            given == texts(stored@),
            all_conform(given, Dialect::Generated),
            all_stamped(given.subrange(0, k as int)),
            keys@.len() == tags@.len(),
            forall|i: int| 0 <= i < keys@.len() ==> keys@[i] as nat == tag_number(#[trigger] tags@[i]@),
            forall|i: int, j: int| 0 <= i < j < keys@.len() ==> keys@[i] <= keys@[j],
            texts(tags@).to_multiset() == given.subrange(0, k as int).to_multiset(),
        decreases stored@.len() - k,
    {
        let tag = &stored[k];
        assert(given[k as int] == tag@);
        assert(conforms(given[k as int], Dialect::Generated));
        let stamp = match Stamp::parse(tag.as_str().substring_char(0, STAMP_LEN)) {
            Err(_) => {
                return Err(
                    Error::TagError(
                        String::from_str("Invalid tag format: ").concat(tag.as_str()),
                    ),
                );
            },
            Ok(stamp) => stamp,
        };
        let key = stamp.value();
        proof {
            stamp.lemma_wf();
        }
        let place = place_for(&keys, key);
        let ghost keys_before = keys@;
        let ghost tags_before = tags@;
        keys.insert(place, key);
        tags.insert(place, tag.clone());
        proof {
            assert forall|i: int| 0 <= i < keys@.len() implies keys@[i] as nat == tag_number(
                #[trigger] tags@[i]@,
            ) by {
                if i < place {
                    assert(tags@[i] == tags_before[i]);
                } else if i > place {
                    assert(tags@[i] == tags_before[i - 1]);
                }
            }
            assert forall|i: int, j: int| 0 <= i < j < keys@.len() implies keys@[i]
                <= keys@[j] by {
                if i < place {
                    assert(keys@[i] == keys_before[i]);
                } else if i > place {
                    assert(keys@[i] == keys_before[i - 1]);
                }
                if j < place {
                    assert(keys@[j] == keys_before[j]);
                } else if j > place {
                    assert(keys@[j] == keys_before[j - 1]);
                }
            }
            assert(texts(tags@) =~= texts(tags_before).insert(place as int, tag@));
            vstd::seq_lib::to_multiset_insert(texts(tags_before), place as int, tag@);
            let seen = given.subrange(0, k as int);
            let wider = given.subrange(0, k + 1);
            assert(wider =~= seen.push(tag@));
            vstd::seq_lib::to_multiset_build(seen, tag@);
            assert forall|i: int| 0 <= i < wider.len() implies is_stamp(
                stamp_part(#[trigger] wider[i]),
            ) by {
                if i < k {
                    assert(wider[i] == seen[i]);
                }
            }
        }
        k += 1;
    }
    proof {
        assert(given.subrange(0, k as int) =~= given);
        assert forall|i: int, j: int| 0 <= i < j < tags@.len() implies tag_number(
            #[trigger] texts(tags@)[i],
        ) <= tag_number(#[trigger] texts(tags@)[j]) by {
            assert(keys@[i] <= keys@[j]);
            assert(keys@[i] as nat == tag_number(tags@[i]@));
            assert(keys@[j] as nat == tag_number(tags@[j]@));
        }
    }
    Ok(tags)
}

fn copies(stored: &[String]) -> (copy: Vec<String>)
    ensures
        texts(copy@) == texts(stored@),
{
    let mut copy: Vec<String> = Vec::new();
    let mut k: usize = 0;
    while k < stored.len()
        invariant
            k <= stored@.len(),
            copy@.len() == k,
            forall|i: int| 0 <= i < k ==> copy@[i]@ == stored@[i]@,
        decreases stored@.len() - k,
    {
        copy.push(stored[k].clone());
        k += 1;
    }
    assert(texts(copy@) =~= texts(stored@));
    copy
}

/// Makes the ledger of what the database holds.
///
/// `explicit` says whether the migrations were registered by the program,
/// `table_exists` whether the database has the table of applied tags, and
/// `stored` is what that table holds, as the database gave it.
///
/// Fails with a `Migration` error where the table is missing or a tag is not
/// well formed in the dialect in use, and with a `TagError` where the stamp of
/// a generated tag is no time. Otherwise the ledger holds the stored tags: as
/// they came where the migrations were registered, and in the order of their
/// stamps where they are found on disk.
pub fn load_applied(explicit: bool, table_exists: bool, stored: &[String]) -> (result: Result<
    Vec<String>,
    Error,
>)
    ensures
        match result {
            Ok(ledger) => {
                &&& load_defect(explicit, table_exists, texts(stored@)) is None
                &&& is_ledger_of(texts(ledger@), texts(stored@), explicit)
            },
            Err(e) => load_defect(explicit, table_exists, texts(stored@)) == Some(e.kind_of()),
        },
{
    if !table_exists {
        return Err(
            Error::Migration(
                String::from_str(
                    "`__migrant_migrations` table is missing, maybe try re-setting-up? -> `setup`",
                ),
            ),
        );
    }
    let ghost given = texts(stored@);
    let mut k: usize = 0;
    while k < stored.len()
        invariant
            k <= stored@.len(),
            given == texts(stored@),
            all_conform(given.subrange(0, k as int), dialect_of(explicit)),
        decreases stored@.len() - k,
    {
        assert(given[k as int] == stored@[k as int]@);
        match check_saved_tag(explicit, stored[k].as_str()) {
            Err(e) => {
                return Err(e);
            },
            Ok(_) => {},
        }
        proof {
            let seen = given.subrange(0, k as int);
            let wider = given.subrange(0, k + 1);
            assert forall|i: int| 0 <= i < wider.len() implies conforms(
                #[trigger] wider[i],
                dialect_of(explicit),
            ) by {
                if i < k {
                    assert(wider[i] == seen[i]);
                }
            }
        }
        k += 1;
    }
    assert(given.subrange(0, k as int) =~= given);
    if explicit {
        Ok(copies(stored))
    } else {
        sort_by_stamp(stored)
    }
}

} // verus!
