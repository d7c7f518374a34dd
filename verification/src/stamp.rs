//! What a new item gets from outside: a fresh identifier and the time of its
//! creation.

use vstd::prelude::*;

verus! {

/// `std::time::SystemTimeError`: the clock stands before the time asked of.
#[verifier::external_type_specification]
#[verifier::external_body]
pub struct ExSystemTimeError(std::time::SystemTimeError);

/// Whether the character is a digit of lower-case hexadecimal.
pub open spec fn is_hex_digit(c: char) -> bool {
    ('0' as u32 <= c as u32 <= '9' as u32) || ('a' as u32 <= c as u32 <= 'f' as u32)
}

/// Whether the text is an identifier as this crate assigns them: 32
/// hexadecimal digits in groups of 8, 4, 4, 4 and 12, with a hyphen between
/// each two groups.
pub open spec fn is_identifier(text: Seq<char>) -> bool {
    &&& text.len() == 36
    &&& forall|i: int|
        0 <= i < 36 ==> if i == 8 || i == 13 || i == 18 || i == 23 {
            #[trigger] text[i] == '-'
        } else {
            is_hex_digit(text[i])
        }
}

/// `uuid::Uuid::new_v4`, written by its `Display`: a random UUID in the
/// hyphenated lower-case form. That it differs from every earlier one is
/// likely, and not claimed.
#[verifier::external_body]
pub(crate) fn fresh_identifier() -> (id: String)
    ensures
        is_identifier(id@),
{
    uuid::Uuid::new_v4().to_string()
}

/// `SystemTime::elapsed` of the Unix epoch: how long ago the epoch was, or,
/// where the clock stands before it, the error that holds how long it will
/// be.
#[verifier::external_body]
fn since_epoch() -> (r: Result<std::time::Duration, std::time::SystemTimeError>) {
    std::time::UNIX_EPOCH.elapsed()
}

/// `SystemTimeError::duration`: the distance between the two times.
#[verifier::external_body]
fn distance(error: &std::time::SystemTimeError) -> (r: std::time::Duration) {
    error.duration()
}

/// `Duration::as_millis`: the whole milliseconds of the duration.
#[verifier::external_body]
fn whole_millis(duration: &std::time::Duration) -> (r: u128) {
    duration.as_millis()
}

/// A count of milliseconds as a signed 64-bit number: the count itself where
/// it fits, and else its low 64 bits, read in two's complement.
pub open spec fn cut_to_64_bits(millis: u128) -> i64 {
    millis as i64
}

/// The time that a reading of the clock stands for, in milliseconds since
/// the Unix epoch. `Ok` holds how long ago the epoch was, `Err` how long it
/// will be until the epoch; the second gives a negative time.
pub open spec fn time_of(reading: Result<u128, u128>) -> i64 {
    match reading {
        Ok(since) => cut_to_64_bits(since),
        Err(until) => if cut_to_64_bits(until) == i64::MIN {
            i64::MIN
        } else {
            (0 - cut_to_64_bits(until)) as i64
        },
    }
}

/// The milliseconds as a signed 64-bit number, cut to that width.
fn cut(millis: u128) -> (r: i64)
    ensures
        r == cut_to_64_bits(millis),
        millis <= i64::MAX ==> r == millis,
{
    #[verifier::truncate]
    (millis as i64)
}

/// The time that a reading of the clock stands for: the milliseconds since
/// the epoch as they are, those until the epoch negated.
pub fn signed_millis(reading: Result<u128, u128>) -> (r: i64)
    ensures
        r == time_of(reading),
        reading matches Ok(since) ==> (since <= i64::MAX ==> r == since),
        reading matches Err(until) ==> (until <= i64::MAX ==> r == -until),
{
    match reading {
        Ok(since) => cut(since),
        Err(until) => {
            let distance: i64 = cut(until);
            if distance == i64::MIN {
                distance
            } else {
                0 - distance
            }
        },
    }
}

/// The clock's time in milliseconds since the Unix epoch; negative where
/// the clock stands before it. Which time that is, the clock decides.
pub(crate) fn now_millis() -> (r: i64) {
    match since_epoch() {
        Ok(since) => signed_millis(Ok(whole_millis(&since))),
        Err(error) => signed_millis(Err(whole_millis(&distance(&error)))),
    }
}

} // verus!
