//! Declarations of the outside types that values carry, and the trusted
//! contracts of the outside functions the library calls.
use vstd::prelude::*;

use bigdecimal::BigDecimal;
use chrono::{NaiveDate, NaiveDateTime, NaiveTime};
use num_bigint::BigInt;
use url::Url;
use serde_json::Value as JsonValue;
use std::collections::HashMap;
use std::time::Duration;
use num_traits::ToPrimitive;
use prism3_core::lang::argument::NumericArgument;

use crate::text::{signed_decimal_text, decimal_text};

verus! {

/// `num_bigint::BigInt`, carried opaquely.
#[verifier::external_type_specification]
#[verifier::external_body]
pub struct ExBigInt(BigInt);

/// `bigdecimal::BigDecimal`, carried opaquely.
#[verifier::external_type_specification]
#[verifier::external_body]
pub struct ExBigDecimal(BigDecimal);

/// `chrono::NaiveDate`, carried opaquely.
#[verifier::external_type_specification]
#[verifier::external_body]
pub struct ExNaiveDate(NaiveDate);

/// `chrono::NaiveTime`, carried opaquely.
#[verifier::external_type_specification]
#[verifier::external_body]
pub struct ExNaiveTime(NaiveTime);

/// `chrono::NaiveDateTime`, carried opaquely.
#[verifier::external_type_specification]
#[verifier::external_body]
pub struct ExNaiveDateTime(NaiveDateTime);

/// `url::Url`, carried opaquely.
#[verifier::external_type_specification]
#[verifier::external_body]
pub struct ExUrl(Url);

/// `serde_json::Value`, carried opaquely.
#[verifier::external_type_specification]
#[verifier::external_body]
pub struct ExJsonValue(JsonValue);

/// `BigInt::clone` copies the sign and the digit vector field by field, so
/// the clone is the same value as the one cloned.
pub assume_specification[ <num_bigint::BigInt as Clone>::clone ](b: &num_bigint::BigInt) -> (r: num_bigint::BigInt)
    ensures
        r == *b,
;

/// `BigDecimal`'s derived `Clone` copies every field, so the clone is the
/// same value as the one cloned.
pub assume_specification[ <bigdecimal::BigDecimal as Clone>::clone ](b: &bigdecimal::BigDecimal) -> (r: bigdecimal::BigDecimal)
    ensures
        r == *b,
;

/// `Url`'s derived `Clone` copies every field, so the clone is the same value
/// as the one cloned.
pub assume_specification[ <url::Url as Clone>::clone ](u: &url::Url) -> (r: url::Url)
    ensures
        r == *u,
;

/// `serde_json::Value`'s derived `Clone` copies the whole tree, so the clone
/// is the same value as the one cloned.
pub assume_specification[ <JsonValue as Clone>::clone ](j: &JsonValue) -> (r: JsonValue)
    ensures
        r == *j,
;

/// `chrono::NaiveDate` is `Copy` with a derived `Clone`, so the clone is the same value as the one cloned (the derived
/// `Clone` of the value containers calls it).
pub assume_specification[ <chrono::NaiveDate as Clone>::clone ](x: &chrono::NaiveDate) -> (r: chrono::NaiveDate)
    ensures
        r == *x,
;

/// `chrono::NaiveTime` is `Copy` with a derived `Clone`, so the clone is the same value as the one cloned (the derived
/// `Clone` of the value containers calls it).
pub assume_specification[ <chrono::NaiveTime as Clone>::clone ](x: &chrono::NaiveTime) -> (r: chrono::NaiveTime)
    ensures
        r == *x,
;

/// `chrono::NaiveDateTime` is `Copy` with a derived `Clone`, so the clone is the same value as the one cloned (the derived
/// `Clone` of the value containers calls it).
pub assume_specification[ <chrono::NaiveDateTime as Clone>::clone ](x: &chrono::NaiveDateTime) -> (r: chrono::NaiveDateTime)
    ensures
        r == *x,
;

/// `std::time::Duration` is documented as `Copy` with a derived `Clone`, so the clone is the same value as the one cloned (the derived
/// `Clone` of the value containers calls it).
pub assume_specification[ <std::time::Duration as Clone>::clone ](x: &std::time::Duration) -> (r: std::time::Duration)
    ensures
        r == *x,
;

// ---------------------------------------------------------------------------
// Text of outside values
// ---------------------------------------------------------------------------

/// `char::to_string` writes the character itself.
#[verifier::external_body]
pub(crate) fn char_text(c: char) -> (r: String)
    ensures
        r@ == seq![c],
{
    c.to_string()
}

/// The text `Display` of `chrono::NaiveDate` writes.
pub uninterp spec fn naive_date_text(d: NaiveDate) -> Seq<char>;

/// The text `Display` of `chrono::NaiveTime` writes.
pub uninterp spec fn naive_time_text(t: NaiveTime) -> Seq<char>;

/// The text `Display` of `chrono::NaiveDateTime` writes.
pub uninterp spec fn naive_datetime_text(t: NaiveDateTime) -> Seq<char>;

/// The text `Display` of `num_bigint::BigInt` writes.
pub uninterp spec fn bigint_text(b: BigInt) -> Seq<char>;

/// The text `Display` of `bigdecimal::BigDecimal` writes.
pub uninterp spec fn bigdecimal_text(b: BigDecimal) -> Seq<char>;

/// The text `Display` of `url::Url` writes (its serialization).
pub uninterp spec fn url_text(u: Url) -> Seq<char>;

/// The text `serde_json::to_string` writes for a JSON value.
pub uninterp spec fn json_text(j: JsonValue) -> Seq<char>;

/// Calls `NaiveDate::to_string`; the text is the name `naive_date_text`.
#[verifier::external_body]
pub(crate) fn format_naive_date(d: &NaiveDate) -> (r: String)
    ensures
        r@ == naive_date_text(*d),
{
    d.to_string()
}

/// Calls `NaiveTime::to_string`; the text is the name `naive_time_text`.
#[verifier::external_body]
pub(crate) fn format_naive_time(t: &NaiveTime) -> (r: String)
    ensures
        r@ == naive_time_text(*t),
{
    t.to_string()
}

/// Calls `NaiveDateTime::to_string`; the text is the name
/// `naive_datetime_text`.
#[verifier::external_body]
pub(crate) fn format_naive_datetime(t: &NaiveDateTime) -> (r: String)
    ensures
        r@ == naive_datetime_text(*t),
{
    t.to_string()
}

/// Calls `BigInt::to_string`; the text is the name `bigint_text`.
#[verifier::external_body]
pub(crate) fn format_bigint(b: &BigInt) -> (r: String)
    ensures
        r@ == bigint_text(*b),
{
    b.to_string()
}

/// Calls `BigDecimal::to_string`; the text is the name `bigdecimal_text`.
#[verifier::external_body]
pub(crate) fn format_bigdecimal(b: &BigDecimal) -> (r: String)
    ensures
        r@ == bigdecimal_text(*b),
{
    b.to_string()
}

/// Calls `Url::to_string`; the text is the name `url_text`.
#[verifier::external_body]
pub(crate) fn format_url(u: &Url) -> (r: String)
    ensures
        r@ == url_text(*u),
{
    u.to_string()
}

/// Calls `serde_json::to_string` on a JSON value, with an error taken by its
/// text. Serialization only fails for maps with non-string keys, which a JSON
/// value cannot hold, so the call succeeds with the text named `json_text`.
#[verifier::external_body]
pub(crate) fn format_json(j: &JsonValue) -> (r: Result<String, String>)
    ensures
        match r {
            Ok(t) => t@ == json_text(*j),
            Err(_) => false,
        },
{
    serde_json::to_string(j).map_err(|e| e.to_string())
}

/// Calls `serde_json::to_string` on a string map, with an error taken by its
/// text. The keys are strings, so the call succeeds with the JSON object text
/// of the map: read back by `serde_json::from_str`, it gives the JSON value
/// that `serde_json::to_value` gives for the map (named `string_map_json`),
/// whatever order the entries are written in. That order follows the map's
/// iteration order, which each process seeds anew, so the text itself is not
/// stated.
#[verifier::external_body]
pub(crate) fn format_string_map(m: &HashMap<String, String>) -> (r: Result<String, String>)
    ensures
        match r {
            Ok(t) => json_parse_outcome(t@) == Ok::<JsonValue, Seq<char>>(string_map_json(m@)),
            Err(_) => false,
        },
{
    serde_json::to_string(m).map_err(|e| e.to_string())
}

// ---------------------------------------------------------------------------
// Parsing with outside crates
// ---------------------------------------------------------------------------

/// What `serde_json::from_str::<serde_json::Value>` gives for a text: the
/// JSON value, or the text of the error.
pub uninterp spec fn json_parse_outcome(text: Seq<char>) -> Result<JsonValue, Seq<char>>;

/// What `Url::parse` gives for a text: the URL, or the text of the error.
pub uninterp spec fn url_parse_outcome(text: Seq<char>) -> Result<Url, Seq<char>>;

/// The JSON value `serde_json::to_value` gives for a string map, by the map's
/// contents.
pub uninterp spec fn string_map_json(m: Map<String, String>) -> JsonValue;

/// Calls `serde_json::from_str` for a JSON value, with an error taken by its
/// text; the outcome is the name `json_parse_outcome`.
#[verifier::external_body]
pub(crate) fn parse_json(s: &str) -> (r: Result<JsonValue, String>)
    ensures
        match r {
            Ok(j) => json_parse_outcome(s@) == Ok::<JsonValue, Seq<char>>(j),
            Err(e) => json_parse_outcome(s@) == Err::<JsonValue, Seq<char>>(e@),
        },
{
    serde_json::from_str::<JsonValue>(s).map_err(|e| e.to_string())
}

/// Calls `Url::parse`, with an error taken by its text; the outcome is the
/// name `url_parse_outcome`.
#[verifier::external_body]
pub(crate) fn parse_url(s: &str) -> (r: Result<Url, String>)
    ensures
        match r {
            Ok(u) => url_parse_outcome(s@) == Ok::<Url, Seq<char>>(u),
            Err(e) => url_parse_outcome(s@) == Err::<Url, Seq<char>>(e@),
        },
{
    Url::parse(s).map_err(|e| e.to_string())
}

/// Calls `serde_json::to_value` on a string map, with an error taken by its
/// text. The keys are strings, so the call succeeds, with the value named
/// `string_map_json` of the map's contents (serde_json's default object map
/// is ordered by key, so the value does not depend on iteration order).
#[verifier::external_body]
pub(crate) fn string_map_to_json(m: &HashMap<String, String>) -> (r: Result<JsonValue, String>)
    ensures
        match r {
            Ok(j) => j == string_map_json(m@),
            Err(_) => false,
        },
{
    serde_json::to_value(m).map_err(|e| e.to_string())
}

// ---------------------------------------------------------------------------
// Big numbers to machine integers (num_traits::ToPrimitive)
// ---------------------------------------------------------------------------

/// What `ToPrimitive::to_i8` gives for a big integer.
pub uninterp spec fn bigint_to_i8_result(b: BigInt) -> Option<i8>;

/// Calls `BigInt::to_i8`; the result is the name `bigint_to_i8_result`.
#[verifier::external_body]
pub(crate) fn bigint_to_i8(b: &BigInt) -> (r: Option<i8>)
    ensures
        r == bigint_to_i8_result(*b),
{
    b.to_i8()
}

/// What `ToPrimitive::to_i16` gives for a big integer.
pub uninterp spec fn bigint_to_i16_result(b: BigInt) -> Option<i16>;

/// Calls `BigInt::to_i16`; the result is the name `bigint_to_i16_result`.
#[verifier::external_body]
pub(crate) fn bigint_to_i16(b: &BigInt) -> (r: Option<i16>)
    ensures
        r == bigint_to_i16_result(*b),
{
    b.to_i16()
}

/// What `ToPrimitive::to_i32` gives for a big integer.
pub uninterp spec fn bigint_to_i32_result(b: BigInt) -> Option<i32>;

/// Calls `BigInt::to_i32`; the result is the name `bigint_to_i32_result`.
#[verifier::external_body]
pub(crate) fn bigint_to_i32(b: &BigInt) -> (r: Option<i32>)
    ensures
        r == bigint_to_i32_result(*b),
{
    b.to_i32()
}

/// What `ToPrimitive::to_i64` gives for a big integer.
pub uninterp spec fn bigint_to_i64_result(b: BigInt) -> Option<i64>;

/// Calls `BigInt::to_i64`; the result is the name `bigint_to_i64_result`.
#[verifier::external_body]
pub(crate) fn bigint_to_i64(b: &BigInt) -> (r: Option<i64>)
    ensures
        r == bigint_to_i64_result(*b),
{
    b.to_i64()
}

/// What `ToPrimitive::to_i128` gives for a big integer.
pub uninterp spec fn bigint_to_i128_result(b: BigInt) -> Option<i128>;

/// Calls `BigInt::to_i128`; the result is the name `bigint_to_i128_result`.
#[verifier::external_body]
pub(crate) fn bigint_to_i128(b: &BigInt) -> (r: Option<i128>)
    ensures
        r == bigint_to_i128_result(*b),
{
    b.to_i128()
}

/// What `ToPrimitive::to_isize` gives for a big integer.
pub uninterp spec fn bigint_to_isize_result(b: BigInt) -> Option<isize>;

/// Calls `BigInt::to_isize`; the result is the name `bigint_to_isize_result`.
#[verifier::external_body]
pub(crate) fn bigint_to_isize(b: &BigInt) -> (r: Option<isize>)
    ensures
        r == bigint_to_isize_result(*b),
{
    b.to_isize()
}

/// What `ToPrimitive::to_i8` gives for a big decimal.
pub uninterp spec fn bigdecimal_to_i8_result(b: BigDecimal) -> Option<i8>;

/// Calls `BigDecimal::to_i8`; the result is the name `bigdecimal_to_i8_result`.
#[verifier::external_body]
pub(crate) fn bigdecimal_to_i8(b: &BigDecimal) -> (r: Option<i8>)
    ensures
        r == bigdecimal_to_i8_result(*b),
{
    b.to_i8()
}

/// What `ToPrimitive::to_i16` gives for a big decimal.
pub uninterp spec fn bigdecimal_to_i16_result(b: BigDecimal) -> Option<i16>;

/// Calls `BigDecimal::to_i16`; the result is the name `bigdecimal_to_i16_result`.
#[verifier::external_body]
pub(crate) fn bigdecimal_to_i16(b: &BigDecimal) -> (r: Option<i16>)
    ensures
        r == bigdecimal_to_i16_result(*b),
{
    b.to_i16()
}

/// What `ToPrimitive::to_i32` gives for a big decimal.
pub uninterp spec fn bigdecimal_to_i32_result(b: BigDecimal) -> Option<i32>;

/// Calls `BigDecimal::to_i32`; the result is the name `bigdecimal_to_i32_result`.
#[verifier::external_body]
pub(crate) fn bigdecimal_to_i32(b: &BigDecimal) -> (r: Option<i32>)
    ensures
        r == bigdecimal_to_i32_result(*b),
{
    b.to_i32()
}

/// What `ToPrimitive::to_i64` gives for a big decimal.
pub uninterp spec fn bigdecimal_to_i64_result(b: BigDecimal) -> Option<i64>;

/// Calls `BigDecimal::to_i64`; the result is the name `bigdecimal_to_i64_result`.
#[verifier::external_body]
pub(crate) fn bigdecimal_to_i64(b: &BigDecimal) -> (r: Option<i64>)
    ensures
        r == bigdecimal_to_i64_result(*b),
{
    b.to_i64()
}

/// What `ToPrimitive::to_i128` gives for a big decimal.
pub uninterp spec fn bigdecimal_to_i128_result(b: BigDecimal) -> Option<i128>;

/// Calls `BigDecimal::to_i128`; the result is the name `bigdecimal_to_i128_result`.
#[verifier::external_body]
pub(crate) fn bigdecimal_to_i128(b: &BigDecimal) -> (r: Option<i128>)
    ensures
        r == bigdecimal_to_i128_result(*b),
{
    b.to_i128()
}

/// What `ToPrimitive::to_isize` gives for a big decimal.
pub uninterp spec fn bigdecimal_to_isize_result(b: BigDecimal) -> Option<isize>;

/// Calls `BigDecimal::to_isize`; the result is the name `bigdecimal_to_isize_result`.
#[verifier::external_body]
pub(crate) fn bigdecimal_to_isize(b: &BigDecimal) -> (r: Option<isize>)
    ensures
        r == bigdecimal_to_isize_result(*b),
{
    b.to_isize()
}

// ---------------------------------------------------------------------------
// Range checks (prism3_core::lang::argument::NumericArgument)
// ---------------------------------------------------------------------------

/// The message of `require_in_closed_range` for the parameter name `value`.
pub open spec fn closed_range_message(value: Seq<char>, min: Seq<char>, max: Seq<char>) -> Seq<char> {
    "Parameter 'value' must be in range ["@ + min + ", "@ + max + "] but was: "@ + value
}

/// Calls `NumericArgument::require_in_closed_range` with the name `value`,
/// with an error taken by its text. As its source shows, it returns the value
/// when `min <= value <= max`, and otherwise an error whose text lists the
/// bounds and the value in decimal.
#[verifier::external_body]
pub(crate) fn require_in_closed_range_signed(value: i128, min: i128, max: i128) -> (r: Result<i128, String>)
    ensures
        match r {
            Ok(v) => min <= value <= max && v == value,
            Err(e) => !(min <= value <= max) && e@ == closed_range_message(
                signed_decimal_text(value as int),
                signed_decimal_text(min as int),
                signed_decimal_text(max as int),
            ),
        },
{
    value.require_in_closed_range("value", min, max).map_err(|e| e.to_string())
}

/// Calls `NumericArgument::require_in_closed_range` with the name `value`
/// on unsigned integers, with an error taken by its text, as above.
#[verifier::external_body]
pub(crate) fn require_in_closed_range_unsigned(value: u128, min: u128, max: u128) -> (r: Result<u128, String>)
    ensures
        match r {
            Ok(v) => min <= value <= max && v == value,
            Err(e) => !(min <= value <= max) && e@ == closed_range_message(
                decimal_text(value as nat),
                decimal_text(min as nat),
                decimal_text(max as nat),
            ),
        },
{
    value.require_in_closed_range("value", min, max).map_err(|e| e.to_string())
}

// ---------------------------------------------------------------------------
// std::time::Duration and str::trim
// ---------------------------------------------------------------------------

/// The total nanoseconds of a duration, as `Duration::as_nanos` gives them.
pub uninterp spec fn duration_nanos(d: Duration) -> nat;

/// The duration `Duration::new` gives for whole seconds and fewer than a
/// billion nanoseconds.
pub uninterp spec fn duration_from_parts(secs: u64, nanos: u32) -> Duration;

/// Whether a duration is the one `Duration::new` builds from its total
/// nanoseconds split into whole seconds (fitting in `u64`) and the
/// nanoseconds past them; true of every duration, since a duration holds
/// exactly that pair.
pub open spec fn duration_is_canonical(d: Duration) -> bool {
    &&& duration_nanos(d) / 1_000_000_000 <= u64::MAX
    &&& d == duration_from_parts(
        (duration_nanos(d) / 1_000_000_000) as u64,
        (duration_nanos(d) % 1_000_000_000) as u32,
    )
}

/// Calls `Duration::as_nanos`, which returns the total number of nanoseconds
/// of the duration: its whole seconds (a `u64`) times a billion plus its
/// nanoseconds past them, the pair it was built from.
#[verifier::external_body]
pub(crate) fn duration_as_nanos(d: &Duration) -> (r: u128)
    ensures
        r == duration_nanos(*d),
        r / 1_000_000_000 <= u64::MAX,
        *d == duration_from_parts((r / 1_000_000_000) as u64, (r % 1_000_000_000) as u32),
{
    d.as_nanos()
}

/// Calls `Duration::new`; with fewer than a billion nanoseconds there is no
/// carry into the seconds, so it does not panic, and the duration holds
/// `secs` seconds and `nanos` nanoseconds.
#[verifier::external_body]
pub(crate) fn duration_new(secs: u64, nanos: u32) -> (r: Duration)
    requires
        nanos < 1_000_000_000,
    ensures
        r == duration_from_parts(secs, nanos),
        duration_nanos(r) == secs * 1_000_000_000 + nanos,
{
    Duration::new(secs, nanos)
}

/// Whether a character has the Unicode `White_Space` property, the set that
/// `char::is_whitespace` and `str::trim` use.
pub open spec fn is_white_space(c: char) -> bool {
    let u = c as u32;
    ||| 0x09 <= u <= 0x0D
    ||| u == 0x20
    ||| u == 0x85
    ||| u == 0xA0
    ||| u == 0x1680
    ||| 0x2000 <= u <= 0x200A
    ||| u == 0x2028
    ||| u == 0x2029
    ||| u == 0x202F
    ||| u == 0x205F
    ||| u == 0x3000
}

/// `s` without its leading white space.
pub open spec fn trim_start_spec(s: Seq<char>) -> Seq<char>
    decreases s.len(),
{
    if s.len() > 0 && is_white_space(s[0]) {
        trim_start_spec(s.drop_first())
    } else {
        s
    }
}

/// `s` without its trailing white space.
pub open spec fn trim_end_spec(s: Seq<char>) -> Seq<char>
    decreases s.len(),
{
    if s.len() > 0 && is_white_space(s.last()) {
        trim_end_spec(s.drop_last())
    } else {
        s
    }
}

/// `s` without its leading and trailing white space.
pub open spec fn trim_spec(s: Seq<char>) -> Seq<char> {
    trim_end_spec(trim_start_spec(s))
}

/// Calls `str::trim`, which removes leading and trailing white space.
#[verifier::external_body]
pub(crate) fn trim(s: &str) -> (r: &str)
    ensures
        r@ == trim_spec(s@),
{
    s.trim()
}

} // verus!
