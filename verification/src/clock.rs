//! Wall-clock time and identifiers, modelled as plain values: time is a count
//! of milliseconds since the Unix epoch (UTC), identifiers are strings.

use vstd::prelude::*;

verus! {

/// Earliest instant a `chrono::DateTime<Utc>` can hold, in Unix milliseconds
/// (-262143-01-01T00:00:00Z).
pub const DATETIME_MIN_MS: i64 = -8334601315200000i64;

/// Latest instant a `chrono::DateTime<Utc>` can hold, in Unix milliseconds
/// (262142-12-31T23:59:59.999Z).
pub const DATETIME_MAX_MS: i64 = 8210266876799999i64;

/// Milliseconds in one minute.
pub const MS_PER_MINUTE: i64 = 60000i64;

/// Whether `ms` is an instant that a `DateTime<Utc>` can represent.
pub open spec fn representable_ms(ms: int) -> bool {
    DATETIME_MIN_MS <= ms <= DATETIME_MAX_MS
}

/// The current time (`chrono::Utc::now().timestamp_millis()`).
///
/// Claims only that the reading lies in the range a `DateTime<Utc>` can hold
/// and is not before the Unix epoch (an earlier system clock makes the call
/// panic); which instant comes back depends on the clock.
#[verifier::external_body]
pub fn now_millis() -> (r: i64)
    ensures
        representable_ms(r as int),
        r >= 0,
{
    chrono::Utc::now().timestamp_millis()
}

/// Whether `c` is a lower-case hexadecimal digit.
pub open spec fn lower_hex_digit(c: char) -> bool {
    ('0' <= c && c <= '9') || ('a' <= c && c <= 'f')
}

/// Whether `s` is the hyphenated text of a random (version 4, RFC 4122
/// variant) UUID: 36 characters, `-` at 8, 13, 18 and 23, lower-case hex
/// digits elsewhere, version digit `4` at 14 and variant digit `8`, `9`, `a`
/// or `b` at 19.
pub open spec fn uuid_v4_text(s: Seq<char>) -> bool {
    &&& s.len() == 36
    &&& forall|i: int|
        0 <= i < 36 ==> if i == 8 || i == 13 || i == 18 || i == 23 {
            s[i] == '-'
        } else {
            lower_hex_digit(#[trigger] s[i])
        }
    &&& s[14] == '4'
    &&& (s[19] == '8' || s[19] == '9' || s[19] == 'a' || s[19] == 'b')
}

/// A fresh random identifier (`uuid::Uuid::new_v4().to_string()`).
///
/// Claims only the text form `new_v4` and `Display` give every UUID (see
/// [`uuid_v4_text`]); which random bits come back is not claimed.
#[verifier::external_body]
pub fn new_id() -> (r: String)
    ensures
        uuid_v4_text(r@),
{
    uuid::Uuid::new_v4().to_string()
}

} // verus!
