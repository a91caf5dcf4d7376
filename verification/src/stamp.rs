//! Stamps: the fourteen-digit times that order the migrations found on disk.
//!
//! A stamp is written as year, month, day, hour, minute and second, four digits
//! for the year and two for each of the others, with nothing in between. Read as
//! one decimal number, a later time gives a larger number, so stamps are ordered
//! by that number.

use vstd::prelude::*;
use crate::errors::{Error, ErrorKind};
use crate::tag::{all_digits, digits_between, is_digit, is_stamp_text, STAMP_LEN};

verus! {

/// The format of a written stamp, in the notation of `strftime`.
pub const DT_FORMAT: &'static str = "%Y%m%d%H%M%S";

#[verifier::external_type_specification]
#[verifier::external_body]
pub struct ExParseError(chrono::ParseError);

/// The time that chrono reads from `text` under `format`, in seconds since the
/// start of 1970 in UTC, or `None` where chrono rejects the text.
pub uninterp spec fn parsed_utc_seconds(text: Seq<char>, format: Seq<char>) -> Option<int>;

/// Parses `text` under `format` with chrono's `TimeZone::datetime_from_str` on
/// `Utc`, and converts the time to seconds with `DateTime::timestamp`.
///
/// Trusted: the outcome depends on the two texts alone, so it is given the name
/// [`parsed_utc_seconds`]. Nothing is claimed about which texts chrono accepts.
#[verifier::external_body]
#[allow(deprecated)]
fn utc_seconds(text: &str, format: &str) -> (result: Result<i64, chrono::ParseError>)
    ensures
        result matches Ok(seconds) ==> parsed_utc_seconds(text@, format@) == Some(seconds as int),
        result is Err ==> parsed_utc_seconds(text@, format@) is None,
{
    match chrono::TimeZone::datetime_from_str(&chrono::Utc, text, format) {
        Ok(time) => Ok(time.timestamp()),
        Err(e) => Err(e),
    }
}

/// The number that a sequence of decimal digits denotes.
pub open spec fn digits_value(s: Seq<char>) -> nat
    decreases s.len(),
{
    if s.len() == 0 {
        0
    } else {
        digits_value(s.drop_last()) * 10 + (s.last() as nat - '0' as nat) as nat
    }
}

/// Ten to the power of `n`.
pub open spec fn pow10(n: nat) -> nat
    decreases n,
{
    if n == 0 {
        1
    } else {
        10 * pow10((n - 1) as nat)
    }
}

/// Whether `text` is a stamp: fourteen digits that chrono reads as a time.
pub open spec fn is_stamp(text: Seq<char>) -> bool {
    is_stamp_text(text) && parsed_utc_seconds(text, DT_FORMAT@) is Some
}

/// A sequence of `n` digits denotes a number below ten to the `n`.
pub proof fn lemma_digits_value_bound(s: Seq<char>)
    requires
        all_digits(s),
    ensures
        digits_value(s) < pow10(s.len()),
    decreases s.len(),
{
    if s.len() > 0 {
        let front = s.drop_last();
        assert forall|i: int| 0 <= i < front.len() implies is_digit(#[trigger] front[i]) by {
            assert(front[i] == s[i]);
        }
        lemma_digits_value_bound(front);
        assert(is_digit(s[s.len() - 1]));
    }
}

/// A time, as the fourteen digits in which it is written.
#[derive(Debug)]
pub struct Stamp {
    digits: String,
    value: u64,
    seconds: i64,
}

impl Stamp {
    /// The digits of the stamp.
    pub closed spec fn text(&self) -> Seq<char> {
        self.digits@
    }

    /// The number by which stamps are ordered: the digits read as one decimal number.
    pub closed spec fn number(&self) -> nat {
        self.value as nat
    }

    /// The time of the stamp, in seconds since the start of 1970 in UTC.
    pub closed spec fn time(&self) -> int {
        self.seconds as int
    }

    /// What holds of every stamp: it is written in fourteen digits, its number
    /// is what the digits denote, and its time is the time that chrono reads
    /// from them.
    #[verifier::type_invariant]
    pub closed spec fn wf(&self) -> bool {
        &&& is_stamp(self.digits@)
        &&& self.value as nat == digits_value(self.digits@)
        &&& parsed_utc_seconds(self.digits@, DT_FORMAT@) == Some(self.seconds as int)
    }

    /// A stamp is written in fourteen digits, which denote its number.
    pub proof fn lemma_wf(&self)
        requires
            self.wf(),
        ensures
            is_stamp(self.text()),
            self.number() == digits_value(self.text()),
            parsed_utc_seconds(self.text(), DT_FORMAT@) == Some(self.time()),
    {
    }

    /// Reads a stamp from its fourteen digits.
    ///
    /// Fails with a `TagError` unless `text` is fourteen decimal digits that
    /// chrono reads as a time.
    pub fn parse(text: &str) -> (result: Result<Stamp, Error>)
        ensures
            result is Ok <==> is_stamp(text@),
            result matches Ok(stamp) ==> stamp.wf() && stamp.text() == text@ && stamp.number()
                == digits_value(text@) && parsed_utc_seconds(text@, DT_FORMAT@) == Some(
                stamp.time(),
            ),
            result matches Err(e) ==> e.kind_of() == ErrorKind::TagError,
    {
        let len = text.unicode_len();
        if len != STAMP_LEN {
            return Err(Self::invalid(text));
        }
        let all = digits_between(text, 0, STAMP_LEN);
        proof {
            assert(text@.subrange(0, STAMP_LEN as int) =~= text@);
        }
        if !all {
            return Err(Self::invalid(text));
        }
        match utc_seconds(text, DT_FORMAT) {
            Err(_) => Err(Self::invalid(text)),
            Ok(seconds) => {
                let value = Self::value_of(text);
                Ok(Stamp { digits: String::from_str(text), value, seconds })
            },
        }
    }

    fn invalid(text: &str) -> (error: Error)
        ensures
            error.kind_of() == ErrorKind::TagError,
    {
        Error::TagError(String::from_str("Invalid stamp `").concat(text).concat("`"))
    }

    fn value_of(text: &str) -> (value: u64)
        requires
            is_stamp_text(text@),
        ensures
            value as nat == digits_value(text@),
    {
        let mut value: u64 = 0;
        let mut i: usize = 0;
        while i < STAMP_LEN
            invariant
                i <= STAMP_LEN,
                is_stamp_text(text@),
                value as nat == digits_value(text@.subrange(0, i as int)),
            decreases STAMP_LEN - i,
        {
            let c = text.get_char(i);
            proof {
                let before = text@.subrange(0, i as int);
                let after = text@.subrange(0, i + 1);
                assert(after.drop_last() =~= before);
                assert(after.last() == c);
                assert(is_digit(text@[i as int]));
                assert forall|k: int| 0 <= k < before.len() implies is_digit(
                    #[trigger] before[k],
                ) by {
                    assert(before[k] == text@[k]);
                }
                lemma_digits_value_bound(before);
                reveal_with_fuel(pow10, 15);
                assert(pow10(i as nat) <= pow10(13));
                assert(pow10(13) == 10_000_000_000_000);
            }
            let digit: u64 = (c as u32 - '0' as u32) as u64;
            value = value * 10 + digit;
            i += 1;
        }
        proof {
            assert(text@.subrange(0, STAMP_LEN as int) =~= text@);
        }
        value
    }

    /// The fourteen digits of the stamp.
    pub fn as_str(&self) -> (text: &str)
        ensures
            text@ == self.text(),
    {
        self.digits.as_str()
    }

    /// The number by which stamps are ordered.
    pub fn value(&self) -> (value: u64)
        ensures
            value as nat == self.number(),
    {
        self.value
    }

    /// The time of the stamp, in seconds since the start of 1970 in UTC.
    pub fn seconds(&self) -> (seconds: i64)
        ensures
            seconds as int == self.time(),
    {
        self.seconds
    }

    /// Whether this stamp is earlier than `other`.
    pub fn before(&self, other: &Stamp) -> (earlier: bool)
        ensures
            earlier == (self.number() < other.number()),
    {
        self.value < other.value
    }
}

impl Clone for Stamp {
    fn clone(&self) -> (copy: Stamp)
        ensures
            copy == *self,
    {
        proof {
            use_type_invariant(self);
        }
        Stamp { digits: self.digits.clone(), value: self.value, seconds: self.seconds }
    }
}

} // verus!
