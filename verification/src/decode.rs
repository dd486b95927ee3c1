use vstd::prelude::*;

use chrono::{Datelike, Timelike};

use crate::dicom_api::{element_float_bits, element_i32, element_text, element_u16, element_u32};
use crate::dicom_api::{float_bits_of, i32_of, text_of, u16_of, u32_of, Element};
use crate::value::{
    is_parse_error, is_unsupported_sentinel, parse_error_value, unsupported_value, DateTimeValue,
    TimeOfDay, Value,
};
use crate::vr::VrClass;

verus! {

/// What the calendar parser makes of `s` under format `fmt`: year, month
/// and day of the parsed date, if the text matches the format and names a
/// real calendar date.
pub uninterp spec fn date_parse(s: Seq<char>, fmt: Seq<char>) -> Option<(i32, u32, u32)>;

/// What the time parser makes of `s` under format `fmt`: hour, minute,
/// second and nanosecond of the parsed time of day.
pub uninterp spec fn time_parse(s: Seq<char>, fmt: Seq<char>) -> Option<(u32, u32, u32, u32)>;

/// What the combined parser makes of `s` under format `fmt`: the six
/// calendar and clock fields plus the nanosecond.
pub uninterp spec fn datetime_parse(s: Seq<char>, fmt: Seq<char>) -> Option<
    (i32, u32, u32, u32, u32, u32, u32),
>;

/// Relies on `chrono::NaiveDate::parse_from_str`: the result is a function
/// of the text and the format alone, and a parsed date has its month in
/// 1..=12 and its day in 1..=31.
#[verifier::external_body]
fn parse_date(s: &str, fmt: &str) -> (r: Option<(i32, u32, u32)>)
    ensures
        r == date_parse(s@, fmt@),
        r matches Some(d) ==> 1 <= d.1 <= 12 && 1 <= d.2 <= 31,
{
    match chrono::NaiveDate::parse_from_str(s, fmt) {
        Ok(d) => Some((d.year(), d.month(), d.day())),
        Err(_) => None,
    }
}

/// Relies on `chrono::NaiveTime::parse_from_str`: the result is a function
/// of the text and the format alone; hour, minute and second are in range,
/// and the nanosecond field leaves room for a leap second.
#[verifier::external_body]
fn parse_time(s: &str, fmt: &str) -> (r: Option<(u32, u32, u32, u32)>)
    ensures
        r == time_parse(s@, fmt@),
        r matches Some(t) ==> t.0 < 24 && t.1 < 60 && t.2 < 60 && t.3 < 2_000_000_000,
{
    match chrono::NaiveTime::parse_from_str(s, fmt) {
        Ok(t) => Some((t.hour(), t.minute(), t.second(), t.nanosecond())),
        Err(_) => None,
    }
}

/// Relies on `chrono::NaiveDateTime::parse_from_str`: the result is a
/// function of the text and the format alone, with all fields in range as
/// for the date and time parsers.
#[verifier::external_body]
fn parse_datetime(s: &str, fmt: &str) -> (r: Option<(i32, u32, u32, u32, u32, u32, u32)>)
    ensures
        r == datetime_parse(s@, fmt@),
        r matches Some(t) ==> 1 <= t.1 <= 12 && 1 <= t.2 <= 31 && t.3 < 24 && t.4 < 60 && t.5 < 60
            && t.6 < 2_000_000_000,
{
    match chrono::NaiveDateTime::parse_from_str(s, fmt) {
        Ok(t) => Some(
            (t.year(), t.month(), t.day(), t.hour(), t.minute(), t.second(), t.nanosecond()),
        ),
        Err(_) => None,
    }
}

/// The time formats the decoder attempts, in priority order: plain
/// hour-minute-second, then a dotted fraction of a second at flexible,
/// three- and six-digit precision, each scaled to nanoseconds. The first
/// matching format wins.
pub open spec fn spec_time_first_match(s: Seq<char>) -> Option<(u32, u32, u32, u32)> {
    if time_parse(s, "%H%M%S"@) is Some {
        time_parse(s, "%H%M%S"@)
    } else if time_parse(s, "%H%M%S%.f"@) is Some {
        time_parse(s, "%H%M%S%.f"@)
    } else if time_parse(s, "%H%M%S%.3f"@) is Some {
        time_parse(s, "%H%M%S%.3f"@)
    } else if time_parse(s, "%H%M%S%.6f"@) is Some {
        time_parse(s, "%H%M%S%.6f"@)
    } else {
        None
    }
}

/// The combined formats the decoder attempts, in priority order: the plain
/// fourteen-digit form, then with a fractional-second suffix. The first
/// matching format wins.
pub open spec fn spec_datetime_first_match(s: Seq<char>) -> Option<
    (i32, u32, u32, u32, u32, u32, u32),
> {
    if datetime_parse(s, "%Y%m%d%H%M%S"@) is Some {
        datetime_parse(s, "%Y%m%d%H%M%S"@)
    } else if datetime_parse(s, "%Y%m%d%H%M%S%.f"@) is Some {
        datetime_parse(s, "%Y%m%d%H%M%S%.f"@)
    } else {
        None
    }
}

/// What decoding a date text yields: the parsed date at midnight, or the
/// raw text where it does not parse.
pub open spec fn spec_decoded_date(t: Seq<char>, v: Value) -> bool {
    match date_parse(t, "%Y%m%d"@) {
        Some(d) => v == Value::Date(
            DateTimeValue {
                year: d.0,
                month: d.1,
                day: d.2,
                hour: 0,
                minute: 0,
                second: 0,
                nanosecond: 0,
            },
        ),
        None => v matches Value::String(raw) && raw@ == t,
    }
}

/// What decoding a time text yields: the first matching format's time of
/// day, or the raw text where no format matches.
pub open spec fn spec_decoded_time(t: Seq<char>, v: Value) -> bool {
    match spec_time_first_match(t) {
        Some(x) => v == Value::Time(
            TimeOfDay { hour: x.0, minute: x.1, second: x.2, nanosecond: x.3 },
        ),
        None => v matches Value::String(raw) && raw@ == t,
    }
}

/// What decoding a date-time text yields: the first matching format's
/// combined value, or the raw text where no format matches.
pub open spec fn spec_decoded_datetime(t: Seq<char>, v: Value) -> bool {
    match spec_datetime_first_match(t) {
        Some(x) => v == Value::Date(
            DateTimeValue {
                year: x.0,
                month: x.1,
                day: x.2,
                hour: x.3,
                minute: x.4,
                second: x.5,
                nanosecond: x.6,
            },
        ),
        None => v matches Value::String(raw) && raw@ == t,
    }
}

/// Decodes a textual attribute: the text itself, or the parse-error
/// sentinel where the element's bytes yielded no text.
pub fn decode_text(text: Option<String>) -> (v: Value)
    ensures
        text matches Some(s) ==> v == Value::String(s),
        text is None ==> is_parse_error(v),
{
    match text {
        Some(s) => Value::String(s),
        None => parse_error_value(),
    }
}

/// Decodes an attribute of an unhandled value representation: best-effort
/// text, or the distinct unsupported sentinel.
pub fn decode_other(text: Option<String>) -> (v: Value)
    ensures
        text matches Some(s) ==> v == Value::String(s),
        text is None ==> is_unsupported_sentinel(v),
{
    match text {
        Some(s) => Value::String(s),
        None => unsupported_value(),
    }
}

/// Decodes an unsigned-short attribute, widening the 16-bit value to 64
/// bits.
pub fn decode_unsigned_short(raw: Option<u16>) -> (v: Value)
    ensures
        raw matches Some(x) ==> v == Value::UnsignedInteger(x as u64),
        raw is None ==> is_parse_error(v),
{
    match raw {
        Some(x) => Value::UnsignedInteger(x as u64),
        None => parse_error_value(),
    }
}

/// Decodes an unsigned-long attribute, widening the 32-bit value to 64
/// bits.
pub fn decode_unsigned_long(raw: Option<u32>) -> (v: Value)
    ensures
        raw matches Some(x) ==> v == Value::UnsignedInteger(x as u64),
        raw is None ==> is_parse_error(v),
{
    match raw {
        Some(x) => Value::UnsignedInteger(x as u64),
        None => parse_error_value(),
    }
}

/// Decodes an integer-string attribute, widening the 32-bit signed value
/// to 64 bits.
pub fn decode_integer_string(raw: Option<i32>) -> (v: Value)
    ensures
        raw matches Some(x) ==> v == Value::Integer(x as i64),
        raw is None ==> is_parse_error(v),
{
    match raw {
        Some(x) => Value::Integer(x as i64),
        None => parse_error_value(),
    }
}

/// Decodes a decimal-string or floating-point attribute; the value arrives
/// as its IEEE-754 bit pattern.
pub fn decode_float_bits(raw: Option<u64>) -> (v: Value)
    ensures
        raw matches Some(bits) ==> v == Value::Float(bits),
        raw is None ==> is_parse_error(v),
{
    match raw {
        Some(bits) => Value::Float(bits),
        None => parse_error_value(),
    }
}

/// Decodes the text of a date attribute: a fixed-width `YYYYMMDD` parse,
/// yielding the date at midnight; text that does not match falls back to
/// the raw text itself, never to an error sentinel.
pub fn decode_date_text(s: &str) -> (v: Value)
    ensures
        spec_decoded_date(s@, v),
        v matches Value::Date(d) ==> d.wf(),
{
    match parse_date(s, "%Y%m%d") {
        Some(d) => Value::Date(
            DateTimeValue {
                year: d.0,
                month: d.1,
                day: d.2,
                hour: 0,
                minute: 0,
                second: 0,
                nanosecond: 0,
            },
        ),
        None => Value::String(String::from_str(s)),
    }
}

/// Decodes the text of a time attribute through the prioritised format
/// list, fractions of a second scaling to nanoseconds; text that matches
/// no format falls back to the raw text itself.
pub fn decode_time_text(s: &str) -> (v: Value)
    ensures
        spec_decoded_time(s@, v),
        v matches Value::Time(t) ==> t.wf(),
{
    if let Some(t) = parse_time(s, "%H%M%S") {
        return Value::Time(TimeOfDay { hour: t.0, minute: t.1, second: t.2, nanosecond: t.3 });
    }
    if let Some(t) = parse_time(s, "%H%M%S%.f") {
        return Value::Time(TimeOfDay { hour: t.0, minute: t.1, second: t.2, nanosecond: t.3 });
    }
    if let Some(t) = parse_time(s, "%H%M%S%.3f") {
        return Value::Time(TimeOfDay { hour: t.0, minute: t.1, second: t.2, nanosecond: t.3 });
    }
    if let Some(t) = parse_time(s, "%H%M%S%.6f") {
        return Value::Time(TimeOfDay { hour: t.0, minute: t.1, second: t.2, nanosecond: t.3 });
    }
    Value::String(String::from_str(s))
}

/// Decodes the text of a date-time attribute through the prioritised
/// format list; text that matches no format falls back to the raw text.
pub fn decode_datetime_text(s: &str) -> (v: Value)
    ensures
        spec_decoded_datetime(s@, v),
        v matches Value::Date(d) ==> d.wf(),
{
    if let Some(t) = parse_datetime(s, "%Y%m%d%H%M%S") {
        return Value::Date(
            DateTimeValue {
                year: t.0,
                month: t.1,
                day: t.2,
                hour: t.3,
                minute: t.4,
                second: t.5,
                nanosecond: t.6,
            },
        );
    }
    if let Some(t) = parse_datetime(s, "%Y%m%d%H%M%S%.f") {
        return Value::Date(
            DateTimeValue {
                year: t.0,
                month: t.1,
                day: t.2,
                hour: t.3,
                minute: t.4,
                second: t.5,
                nanosecond: t.6,
            },
        );
    }
    Value::String(String::from_str(s))
}

/// The variant policy of the decoder: which value variants an element of
/// each handling class may produce.
pub open spec fn variant_follows_class(class: VrClass, v: Value) -> bool {
    match class {
        VrClass::Text => v matches Value::String(_),
        VrClass::Date => v matches Value::Date(_) || v matches Value::String(_),
        VrClass::Time => v matches Value::Time(_) || v matches Value::String(_),
        VrClass::DateTime => v matches Value::Date(_) || v matches Value::String(_),
        VrClass::UnsignedShort => v matches Value::UnsignedInteger(_) || is_parse_error(v),
        VrClass::UnsignedLong => v matches Value::UnsignedInteger(_) || is_parse_error(v),
        VrClass::IntegerString => v matches Value::Integer(_) || is_parse_error(v),
        VrClass::Float => v matches Value::Float(_) || is_parse_error(v),
        VrClass::Other => v matches Value::String(_),
    }
}

/// What decoding an element under each handling class yields, in terms
/// of the named results of the element's conversions: the converted
/// value where the conversion succeeds, the class's fallback otherwise.
pub open spec fn spec_decode_element(el: Element, class: VrClass, v: Value) -> bool {
    match class {
        VrClass::Text => match text_of(el) {
            Some(t) => v matches Value::String(s) && s@ == t,
            None => is_parse_error(v),
        },
        VrClass::Date => match text_of(el) {
            Some(t) => spec_decoded_date(t, v),
            None => is_parse_error(v),
        },
        VrClass::Time => match text_of(el) {
            Some(t) => spec_decoded_time(t, v),
            None => is_parse_error(v),
        },
        VrClass::DateTime => match text_of(el) {
            Some(t) => spec_decoded_datetime(t, v),
            None => is_parse_error(v),
        },
        VrClass::UnsignedShort => match u16_of(el) {
            Some(x) => v == Value::UnsignedInteger(x as u64),
            None => is_parse_error(v),
        },
        VrClass::UnsignedLong => match u32_of(el) {
            Some(x) => v == Value::UnsignedInteger(x as u64),
            None => is_parse_error(v),
        },
        VrClass::IntegerString => match i32_of(el) {
            Some(x) => v == Value::Integer(x as i64),
            None => is_parse_error(v),
        },
        VrClass::Float => match float_bits_of(el) {
            Some(b) => v == Value::Float(b),
            None => is_parse_error(v),
        },
        VrClass::Other => match text_of(el) {
            Some(t) => v matches Value::String(s) && s@ == t,
            None => is_unsupported_sentinel(v),
        },
    }
}

/// Decodes one data element under its handling class, dispatching to the
/// conversion that the class demands. Total: every failure inside a
/// conversion becomes a sentinel or raw-text value, never an abort.
pub fn decode_element(elem: &Element, class: VrClass) -> (v: Value)
    ensures
        spec_decode_element(*elem, class, v),
        variant_follows_class(class, v),
        v matches Value::Date(d) ==> d.wf(),
        v matches Value::Time(t) ==> t.wf(),
{
    match class {
        VrClass::Text => decode_text(element_text(elem)),
        VrClass::Date => {
            match element_text(elem) {
                Some(s) => decode_date_text(s.as_str()),
                None => parse_error_value(),
            }
        },
        VrClass::Time => {
            match element_text(elem) {
                Some(s) => decode_time_text(s.as_str()),
                None => parse_error_value(),
            }
        },
        VrClass::DateTime => {
            match element_text(elem) {
                Some(s) => decode_datetime_text(s.as_str()),
                None => parse_error_value(),
            }
        },
        VrClass::UnsignedShort => decode_unsigned_short(element_u16(elem)),
        VrClass::UnsignedLong => decode_unsigned_long(element_u32(elem)),
        VrClass::IntegerString => decode_integer_string(element_i32(elem)),
        VrClass::Float => decode_float_bits(element_float_bits(elem)),
        VrClass::Other => decode_other(element_text(elem)),
    }
}

} // verus!
