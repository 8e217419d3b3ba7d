//! Textual forms of temporal values and UUIDs, produced by `chrono` and
//! `uuid` from plain integers.
//!
//! A point in time is given as whole seconds since 1970-01-01T00:00:00 and
//! nanoseconds within the second, a date as its day number in the proleptic
//! Gregorian calendar (day 1 is 0001-01-01), a time of day as seconds since
//! midnight and nanoseconds within the second, a UUID as its 128-bit value.

use vstd::prelude::*;

verus! {

/// The RFC 3339 text of the UTC instant `(secs, nanos)`, or `None` where the
/// pair denotes no instant that `chrono` can represent.
pub uninterp spec fn rfc3339_form(secs: i64, nanos: u32) -> Option<Seq<char>>;

/// The default text of the date and time without zone `(secs, nanos)`, or
/// `None` where the pair is out of `chrono`'s range.
pub uninterp spec fn naive_datetime_form(secs: i64, nanos: u32) -> Option<Seq<char>>;

/// The default text of the date with day number `days`, or `None` where the
/// day is out of `chrono`'s range.
pub uninterp spec fn date_form(days: i32) -> Option<Seq<char>>;

/// The default text of the time of day `(secs, nanos)`, or `None` where the
/// pair denotes no time of day.
pub uninterp spec fn time_form(secs: u32, nanos: u32) -> Option<Seq<char>>;

/// Whether `(second_of_day, nanos)` denotes a time of day: a second of the
/// day, and a nanosecond within it, or within the leap second that may follow
/// the last second of a minute.
pub open spec fn is_time_of_day(second_of_day: u32, nanos: u32) -> bool {
    &&& second_of_day < 86_400
    &&& nanos < 2_000_000_000
    &&& (nanos < 1_000_000_000 || second_of_day % 60 == 59)
}

/// The lowercase hexadecimal digit for `n`, which is below 16.
pub open spec fn hex_digit(n: int) -> char {
    if n < 10 {
        ('0' as int + n) as char
    } else {
        ('a' as int + (n - 10)) as char
    }
}

/// The character at position `i` of the hyphenated form of `v`: hyphens at
/// positions 8, 13, 18 and 23, and elsewhere the 32 hexadecimal digits of `v`,
/// most significant first.
pub open spec fn hyphenated_char(v: u128, i: int) -> char {
    if i == 8 || i == 13 || i == 18 || i == 23 {
        '-'
    } else {
        let k = if i < 8 {
            i
        } else if i < 13 {
            i - 1
        } else if i < 18 {
            i - 2
        } else if i < 23 {
            i - 3
        } else {
            i - 4
        };
        hex_digit(((v >> ((4 * (31 - k)) as u128)) & 0xf) as int)
    }
}

/// The canonical form of a UUID: 36 characters in groups of 8, 4, 4, 4 and
/// 12 lowercase hexadecimal digits.
pub open spec fn hyphenated(v: u128) -> Seq<char> {
    Seq::new(36, |i: int| hyphenated_char(v, i))
}

/// Whether `c` is a decimal digit or one of the lowercase letters `a` to `f`.
pub open spec fn is_lower_hex(c: char) -> bool {
    ('0' <= c && c <= '9') || ('a' <= c && c <= 'f')
}

/// The hyphenated form has 36 characters: hyphens at positions 8, 13, 18 and
/// 23, and lowercase hexadecimal digits everywhere else.
pub proof fn lemma_hyphenated_shape(v: u128)
    ensures
        hyphenated(v).len() == 36,
        forall|i: int|
            0 <= i < 36 ==> (#[trigger] hyphenated(v)[i] == '-') == (i == 8 || i == 13 || i == 18
                || i == 23),
        forall|i: int|
            0 <= i < 36 && !(i == 8 || i == 13 || i == 18 || i == 23) ==> is_lower_hex(
                #[trigger] hyphenated(v)[i],
            ),
{
    assert forall|i: int| 0 <= i < 36 && !(i == 8 || i == 13 || i == 18 || i == 23) implies {
        &&& is_lower_hex(#[trigger] hyphenated(v)[i])
        &&& hyphenated(v)[i] != '-'
    } by {
        let k = if i < 8 {
            i
        } else if i < 13 {
            i - 1
        } else if i < 18 {
            i - 2
        } else if i < 23 {
            i - 3
        } else {
            i - 4
        };
        let shift = (4 * (31 - k)) as u128;
        let nibble = (v >> shift) & 0xf;
        assert(nibble < 16) by (bit_vector)
            requires
                nibble == (v >> shift) & 0xf,
        ;
        assert(hyphenated(v)[i] == hex_digit(nibble as int));
    }
}

/// Calls `chrono::DateTime::from_timestamp` and, on the instant it returns,
/// `DateTime::<Utc>::to_rfc3339`. Trusted: the result is a function of the
/// two arguments, named [`rfc3339_form`]; it is `None` exactly where
/// `from_timestamp` returns `None`.
#[verifier::external_body]
pub(crate) fn rfc3339_text(secs: i64, nanos: u32) -> (text: Option<String>)
    ensures
        match text {
            Some(s) => rfc3339_form(secs, nanos) == Some(s@),
            None => rfc3339_form(secs, nanos) is None,
        },
{
    match chrono::DateTime::from_timestamp(secs, nanos) {
        Some(instant) => Some(instant.to_rfc3339()),
        None => None,
    }
}

/// Calls `chrono::DateTime::from_timestamp`, takes the instant's
/// `naive_utc`, and formats that `NaiveDateTime` by its `Display` impl.
/// Trusted: the result is a function of the two arguments, named
/// [`naive_datetime_form`]; it is `None` exactly where `from_timestamp`
/// returns `None`.
#[verifier::external_body]
pub(crate) fn naive_datetime_text(secs: i64, nanos: u32) -> (text: Option<String>)
    ensures
        match text {
            Some(s) => naive_datetime_form(secs, nanos) == Some(s@),
            None => naive_datetime_form(secs, nanos) is None,
        },
{
    match chrono::DateTime::from_timestamp(secs, nanos) {
        Some(instant) => Some(instant.naive_utc().to_string()),
        None => None,
    }
}

/// Calls `chrono::NaiveDate::from_num_days_from_ce_opt` and formats the date
/// by its `Display` impl. Trusted: the result is a function of the argument,
/// named [`date_form`]; it is `None` exactly where the constructor returns
/// `None`.
#[verifier::external_body]
pub(crate) fn date_text(days: i32) -> (text: Option<String>)
    ensures
        match text {
            Some(s) => date_form(days) == Some(s@),
            None => date_form(days) is None,
        },
{
    match chrono::NaiveDate::from_num_days_from_ce_opt(days) {
        Some(date) => Some(date.to_string()),
        None => None,
    }
}

/// Calls `chrono::NaiveTime::from_num_seconds_from_midnight_opt` and formats
/// the time by its `Display` impl. Trusted: the result is a function of the
/// two arguments, named [`time_form`]; it is `None` exactly where the
/// constructor returns `None`, which is where [`is_time_of_day`] fails.
#[verifier::external_body]
pub(crate) fn time_text(secs: u32, nanos: u32) -> (text: Option<String>)
    ensures
        text is Some <==> is_time_of_day(secs, nanos),
        match text {
            Some(s) => time_form(secs, nanos) == Some(s@),
            None => time_form(secs, nanos) is None,
        },
{
    match chrono::NaiveTime::from_num_seconds_from_midnight_opt(secs, nanos) {
        Some(time) => Some(time.to_string()),
        None => None,
    }
}

/// Calls `uuid::Uuid::from_u128` and formats the UUID by its `Display` impl.
/// Trusted: the text is the lowercase hyphenated form of `v`, its bytes in
/// big-endian order.
#[verifier::external_body]
pub(crate) fn uuid_text(v: u128) -> (text: String)
    ensures
        text@ == hyphenated(v),
{
    uuid::Uuid::from_u128(v).to_string()
}

} // verus!
