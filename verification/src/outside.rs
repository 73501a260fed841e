//! The calls that leave this crate. Each function here is believed, not proved:
//! its body is a single call into another crate or into a part of the standard
//! library that carries no specification, and its contract repeats what that
//! code documents.

use vstd::prelude::*;

verus! {

/// The suffix relation on strings: `s` ends with `suffix`.
pub open spec fn ends_with(s: Seq<char>, suffix: Seq<char>) -> bool {
    s.len() >= suffix.len() && s.subrange(s.len() - suffix.len(), s.len() as int) == suffix
}

/// `rand::Rng::gen_range` on the thread-local generator, for a half-open range
/// of `i64`. The range must not be empty, since the generator panics on an
/// empty one. Nothing is said of the sample but that it lies in the range.
#[verifier::external_body]
pub(crate) fn uniform_between(low: i64, high: i64) -> (sample: i64)
    requires
        low < high,
    ensures
        low <= sample < high,
{
    rand::Rng::gen_range(&mut rand::thread_rng(), low..high)
}

/// `uuid::Uuid::new_v4`, rendered by its `Display` impl: a fresh random
/// identifier in the hyphenated form, which is always 36 characters long.
#[verifier::external_body]
pub(crate) fn random_uuid() -> (id: String)
    ensures
        id@.len() == 36,
{
    uuid::Uuid::new_v4().to_string()
}

/// `chrono::Utc::now`, as milliseconds since the Unix epoch. The clock decides
/// the value, so nothing is promised of it.
#[verifier::external_body]
pub(crate) fn now_millis() -> (millis: i64) {
    chrono::Utc::now().timestamp_millis()
}

/// `str::strip_suffix` with a string pattern: the part of `s` before `suffix`
/// when `s` ends with it, and `None` when it does not.
#[verifier::external_body]
pub(crate) fn strip_suffix<'a>(s: &'a str, suffix: &str) -> (rest: Option<&'a str>)
    ensures
        match rest {
            Some(head) => head@ + suffix@ == s@,
            None => !ends_with(s@, suffix@),
        },
{
    s.strip_suffix(suffix)
}

/// The decimal digit for a number below ten.
pub open spec fn digit(value: nat) -> char {
    if value == 0 {
        '0'
    } else if value == 1 {
        '1'
    } else if value == 2 {
        '2'
    } else if value == 3 {
        '3'
    } else if value == 4 {
        '4'
    } else if value == 5 {
        '5'
    } else if value == 6 {
        '6'
    } else if value == 7 {
        '7'
    } else if value == 8 {
        '8'
    } else {
        '9'
    }
}

/// A number written in decimal digits, without leading zeros.
pub open spec fn decimal_text(value: nat) -> Seq<char>
    decreases value,
{
    if value < 10 {
        seq![digit(value)]
    } else {
        decimal_text(value / 10).push(digit(value % 10))
    }
}

/// A text in which every space has given way to an underscore.
pub open spec fn underscored_text(text: Seq<char>) -> Seq<char> {
    Seq::new(
        text.len(),
        |i: int|
            if text[i] == ' ' {
                '_'
            } else {
                text[i]
            },
    )
}

/// `ToString::to_string` of a `u128`, which writes the number in decimal
/// digits.
#[verifier::external_body]
pub(crate) fn decimal(value: u128) -> (text: String)
    ensures
        text@ == decimal_text(value as nat),
{
    value.to_string()
}

/// `str::replace` of the space by the underscore: every space of the text
/// is replaced, and nothing else is touched.
#[verifier::external_body]
pub(crate) fn underscored(text: &str) -> (replaced: String)
    ensures
        replaced@ == underscored_text(text@),
{
    text.replace(" ", "_")
}

/// The prefix relation on strings: `s` starts with `prefix`.
pub open spec fn starts_with(s: Seq<char>, prefix: Seq<char>) -> bool {
    s.len() >= prefix.len() && s.subrange(0, prefix.len() as int) == prefix
}

/// `str::strip_prefix` with a string pattern: the part of `s` behind
/// `prefix` when `s` starts with it, and `None` when it does not.
#[verifier::external_body]
pub(crate) fn strip_prefix<'a>(s: &'a str, prefix: &str) -> (rest: Option<&'a str>)
    ensures
        match rest {
            Some(tail) => prefix@ + tail@ == s@,
            None => !starts_with(s@, prefix@),
        },
{
    s.strip_prefix(prefix)
}

} // verus!
