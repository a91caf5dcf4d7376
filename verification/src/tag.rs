//! The tag model: what a migration's identifier may look like.
//!
//! A tag comes in one of two dialects. A *generated* tag is made by the system
//! itself: a stamp of fourteen decimal digits, an underscore, and a name. An
//! *explicit* tag is supplied by an embedding program and is a name only. A
//! name is one or more of the characters `a` to `z`, `0` to `9` and `-`.

use vstd::prelude::*;
use crate::errors::{Error, ErrorKind};

verus! {

/// The number of digits in the stamp of a generated tag.
pub const STAMP_LEN: usize = 14;

/// The two forms a tag can take.
#[derive(Clone, Copy, Debug, PartialEq, Eq, Structural)]
pub enum Dialect {
    /// Stamp, underscore, name: tags of migrations found on disk.
    Generated,
    /// Name only: tags of migrations registered by the program.
    Explicit,
}

/// Whether `c` may occur in a name.
pub open spec fn is_name_char(c: char) -> bool {
    ('a' <= c && c <= 'z') || ('0' <= c && c <= '9') || c == '-'
}

/// Whether `c` is a decimal digit.
pub open spec fn is_digit(c: char) -> bool {
    '0' <= c && c <= '9'
}

/// Whether every character of `s` may occur in a name.
pub open spec fn all_name_chars(s: Seq<char>) -> bool {
    forall|i: int| 0 <= i < s.len() ==> is_name_char(#[trigger] s[i])
}

/// Whether every character of `s` is a decimal digit.
pub open spec fn all_digits(s: Seq<char>) -> bool {
    forall|i: int| 0 <= i < s.len() ==> is_digit(#[trigger] s[i])
}

/// Whether `s` is a name: not empty, and made of name characters only.
pub open spec fn is_name(s: Seq<char>) -> bool {
    s.len() > 0 && all_name_chars(s)
}

/// Whether `s` is a stamp as it is written: fourteen decimal digits.
pub open spec fn is_stamp_text(s: Seq<char>) -> bool {
    s.len() == STAMP_LEN && all_digits(s)
}

/// Whether `s` is a generated tag: a written stamp, an underscore, a name.
pub open spec fn is_generated(s: Seq<char>) -> bool {
    &&& s.len() > STAMP_LEN + 1
    &&& is_stamp_text(s.subrange(0, STAMP_LEN as int))
    &&& s[STAMP_LEN as int] == '_'
    &&& is_name(s.subrange(STAMP_LEN + 1, s.len() as int))
}

/// Whether `s` is a well-formed tag of the given dialect.
pub open spec fn conforms(s: Seq<char>, dialect: Dialect) -> bool {
    match dialect {
        Dialect::Generated => is_generated(s),
        Dialect::Explicit => is_name(s),
    }
}

/// The stamp part of a generated tag.
pub open spec fn stamp_part(s: Seq<char>) -> Seq<char> {
    s.subrange(0, STAMP_LEN as int)
}

/// The generated tag that is made of a written stamp and a name.
pub open spec fn generated_tag(stamp: Seq<char>, name: Seq<char>) -> Seq<char> {
    stamp + seq!['_'] + name
}

/// Tells whether `c` may occur in a name.
pub fn name_char(c: char) -> (yes: bool)
    ensures
        yes == is_name_char(c),
{
    ('a' <= c && c <= 'z') || ('0' <= c && c <= '9') || c == '-'
}

/// Tells whether `c` is a decimal digit.
pub fn digit_char(c: char) -> (yes: bool)
    ensures
        yes == is_digit(c),
{
    '0' <= c && c <= '9'
}

/// Tells whether the characters of `text` from `from` up to `to` may all occur in a name.
pub(crate) fn name_chars_between(text: &str, from: usize, to: usize) -> (yes: bool)
    requires
        from <= to <= text@.len(),
    ensures
        yes == all_name_chars(text@.subrange(from as int, to as int)),
{
    let mut i: usize = from;
    while i < to
        invariant
            from <= i <= to <= text@.len(),
            all_name_chars(text@.subrange(from as int, i as int)),
        decreases to - i,
    {
        let c = text.get_char(i);
        if !name_char(c) {
            proof {
                let part = text@.subrange(from as int, to as int);
                assert(part[i - from] == c);
            }
            return false;
        }
        proof {
            let before = text@.subrange(from as int, i as int);
            let after = text@.subrange(from as int, i + 1);
            assert forall|k: int| 0 <= k < after.len() implies is_name_char(#[trigger] after[k]) by {
                if k < before.len() {
                    assert(after[k] == before[k]);
                }
            }
        }
        i += 1;
    }
    true
}

/// Tells whether the characters of `text` from `from` up to `to` are all decimal digits.
pub(crate) fn digits_between(text: &str, from: usize, to: usize) -> (yes: bool)
    requires
        from <= to <= text@.len(),
    ensures
        yes == all_digits(text@.subrange(from as int, to as int)),
{
    let mut i: usize = from;
    while i < to
        invariant
            from <= i <= to <= text@.len(),
            all_digits(text@.subrange(from as int, i as int)),
        decreases to - i,
    {
        let c = text.get_char(i);
        if !digit_char(c) {
            proof {
                let part = text@.subrange(from as int, to as int);
                assert(part[i - from] == c);
            }
            return false;
        }
        proof {
            let before = text@.subrange(from as int, i as int);
            let after = text@.subrange(from as int, i + 1);
            assert forall|k: int| 0 <= k < after.len() implies is_digit(#[trigger] after[k]) by {
                if k < before.len() {
                    assert(after[k] == before[k]);
                }
            }
        }
        i += 1;
    }
    true
}

/// Tells whether `tag` is not a name, that is whether it is empty or holds a
/// character other than `a` to `z`, `0` to `9` and `-`.
pub fn invalid_tag(tag: &str) -> (invalid: bool)
    ensures
        invalid == !is_name(tag@),
{
    let len = tag.unicode_len();
    if len == 0 {
        return true;
    }
    let ok = name_chars_between(tag, 0, len);
    proof {
        assert(tag@.subrange(0, len as int) =~= tag@);
    }
    !ok
}

/// Tells whether `tag` is a generated tag: fourteen digits, an underscore, a name.
pub fn generated_tag_form(tag: &str) -> (yes: bool)
    ensures
        yes == is_generated(tag@),
{
    let len = tag.unicode_len();
    if len <= STAMP_LEN + 1 {
        return false;
    }
    if !digits_between(tag, 0, STAMP_LEN) {
        return false;
    }
    if tag.get_char(STAMP_LEN) != '_' {
        return false;
    }
    name_chars_between(tag, STAMP_LEN + 1, len)
}

/// Checks `tag` against a dialect.
///
/// Succeeds exactly when the tag is well formed in that dialect, and fails
/// with a `TagError` otherwise.
pub fn validate(tag: &str, dialect: Dialect) -> (result: Result<(), Error>)
    ensures
        result is Ok <==> conforms(tag@, dialect),
        result matches Err(e) ==> e.kind_of() == ErrorKind::TagError,
{
    match dialect {
        Dialect::Generated => {
            if generated_tag_form(tag) {
                Ok(())
            } else {
                Err(
                    Error::TagError(
                        String::from_str("Invalid tag `").concat(tag).concat(
                            "`. Generated tags must follow [0-9]{14}_[a-z0-9-]+",
                        ),
                    ),
                )
            }
        },
        Dialect::Explicit => {
            if invalid_tag(tag) {
                Err(
                    Error::TagError(
                        String::from_str("Invalid tag `").concat(tag).concat(
                            "`. Tags can contain [a-z0-9-]",
                        ),
                    ),
                )
            } else {
                Ok(())
            }
        },
    }
}

} // verus!
