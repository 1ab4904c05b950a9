//! What this library assumes of the crates it calls. Nothing here is proved:
//! each item states, without proof, what the named function is documented to do.

use std::time::{Duration, SystemTime, SystemTimeError, UNIX_EPOCH};
use vstd::prelude::*;

verus! {

/// `serde_json::Value`, any JSON value. The library carries such values
/// through without looking inside them.
#[verifier::external_type_specification]
#[verifier::external_body]
pub struct ExJsonValue(serde_json::Value);

/// `Clone::clone` of `serde_json::Value`: the copy is the same JSON value.
pub assume_specification[ <serde_json::Value as Clone>::clone ](value: &serde_json::Value) -> (copy:
    serde_json::Value)
    ensures
        copy == *value,
;

/// `std::time::SystemTime`, a reading of the system clock.
#[verifier::external_type_specification]
#[verifier::external_body]
pub struct ExSystemTime(SystemTime);

/// `std::time::SystemTimeError`: the clock stood before the moment it was
/// measured against.
#[verifier::external_type_specification]
#[verifier::external_body]
pub struct ExSystemTimeError(SystemTimeError);

/// `uuid::Uuid::new_v4`, written out by `to_string`: a random identifier in
/// the hyphenated form, 32 hexadecimal digits in five groups, 36 characters
/// in all. Which identifier comes out is left open; two calls differ but for
/// a negligible chance. The call panics if the system has no random bytes to
/// give.
#[verifier::external_body]
pub(crate) fn fresh_id() -> (id: String)
    ensures
        id@.len() == 36,
{
    uuid::Uuid::new_v4().to_string()
}

/// `SystemTime::now`: the clock as it stands. Nothing is claimed of the reading.
#[verifier::external_body]
pub(crate) fn clock_now() -> SystemTime {
    SystemTime::now()
}

/// `SystemTime::duration_since` with `UNIX_EPOCH`: the time from the epoch to
/// `now`, or an error where `now` lies before the epoch. Which of the two
/// comes out depends on the clock.
#[verifier::external_body]
pub(crate) fn since_epoch(now: &SystemTime) -> Result<Duration, SystemTimeError> {
    now.duration_since(UNIX_EPOCH)
}

/// `Duration::as_millis`: the whole milliseconds in a duration.
#[verifier::external_body]
pub(crate) fn whole_millis(elapsed: &Duration) -> u128 {
    elapsed.as_millis()
}

/// What `str::trim` makes of a text: the text without the whitespace at its
/// start and at its end, where whitespace is what Unicode calls White_Space.
pub uninterp spec fn trimmed(text: Seq<char>) -> Seq<char>;

/// `str::trim`.
#[verifier::external_body]
pub(crate) fn without_outer_whitespace(text: &str) -> (inner: &str)
    ensures
        inner@ == trimmed(text@),
{
    text.trim()
}

/// A text without the run of `c` that it starts with.
pub open spec fn without_leading(text: Seq<char>, c: char) -> Seq<char>
    decreases text.len(),
{
    if text.len() > 0 && text.first() == c {
        without_leading(text.drop_first(), c)
    } else {
        text
    }
}

/// A text without the run of `c` that it ends with.
pub open spec fn without_trailing(text: Seq<char>, c: char) -> Seq<char>
    decreases text.len(),
{
    if text.len() > 0 && text.last() == c {
        without_trailing(text.drop_last(), c)
    } else {
        text
    }
}

/// `str::trim_start_matches` with one character as the pattern: every
/// occurrence of the character at the start is removed, and the rest is
/// returned as it is.
#[verifier::external_body]
pub(crate) fn strip_leading(text: &str, c: char) -> (rest: &str)
    ensures
        rest@ == without_leading(text@, c),
{
    text.trim_start_matches(c)
}

/// `str::trim_end_matches` with one character as the pattern: every
/// occurrence of the character at the end is removed, and the rest is
/// returned as it is.
#[verifier::external_body]
pub(crate) fn strip_trailing(text: &str, c: char) -> (rest: &str)
    ensures
        rest@ == without_trailing(text@, c),
{
    text.trim_end_matches(c)
}

} // verus!
