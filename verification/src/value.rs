use vstd::prelude::*;

verus! {

/// A calendar date combined with a time of day, as produced by decoding a
/// date or date-time attribute. A plain date carries a midnight time.
#[derive(Debug, Clone, PartialEq)]
pub struct DateTimeValue {
    pub year: i32,
    pub month: u32,
    pub day: u32,
    pub hour: u32,
    pub minute: u32,
    pub second: u32,
    pub nanosecond: u32,
}

impl DateTimeValue {
    /// Field ranges of a well-formed calendar value. The upper bound on the
    /// nanosecond field leaves room for a leap second.
    pub open spec fn wf(self) -> bool {
        &&& 1 <= self.month <= 12
        &&& 1 <= self.day <= 31
        &&& self.hour < 24
        &&& self.minute < 60
        &&& self.second < 60
        &&& self.nanosecond < 2_000_000_000
    }
}

/// A time of day, as produced by decoding a time attribute.
#[derive(Debug, Clone, PartialEq)]
pub struct TimeOfDay {
    pub hour: u32,
    pub minute: u32,
    pub second: u32,
    pub nanosecond: u32,
}

impl TimeOfDay {
    /// Field ranges of a well-formed time of day. The upper bound on the
    /// nanosecond field leaves room for a leap second.
    pub open spec fn wf(self) -> bool {
        &&& self.hour < 24
        &&& self.minute < 60
        &&& self.second < 60
        &&& self.nanosecond < 2_000_000_000
    }
}

/// One decoded attribute value. Exactly one variant is populated per
/// instance; which one is determined by the attribute's value
/// representation at construction time.
///
/// The `Float` variant carries the IEEE-754 bit pattern of the 64-bit
/// value, so that the library itself stays free of floating-point
/// arithmetic; consumers recover the number from the bits.
#[derive(Debug, Clone, PartialEq)]
pub enum Value {
    /// Text attributes (person name, long string, short string, code
    /// string, unique identifier), and the raw-text fallback of the other
    /// classes.
    String(String),
    /// Signed integers widened from an integer-string attribute.
    Integer(i64),
    /// IEEE-754 bits of a 64-bit value from a decimal-string or
    /// floating-point attribute.
    Float(u64),
    /// Unsigned integers widened from an unsigned-short or unsigned-long
    /// attribute.
    UnsignedInteger(u64),
    /// Dates from a date attribute (at midnight) or a date-time attribute.
    Date(DateTimeValue),
    /// Times of day from a time attribute.
    Time(TimeOfDay),
}

/// Field validity of a stored value: any date or time it carries has its
/// fields in range.
pub open spec fn value_wf(v: Value) -> bool {
    &&& (v matches Value::Date(d) ==> d.wf())
    &&& (v matches Value::Time(t) ==> t.wf())
}

/// The diagnostic value recorded when an attribute's bytes cannot be
/// converted as its value representation demands.
pub open spec fn is_parse_error(v: Value) -> bool {
    v matches Value::String(s) && s@ == "<parse error>"@
}

/// The diagnostic value recorded when an attribute of an unhandled value
/// representation cannot even be decoded as text.
pub open spec fn is_unsupported_sentinel(v: Value) -> bool {
    v matches Value::String(s) && s@ == "<binary/unsupported>"@
}

/// Builds the sentinel recorded on a failed conversion.
pub fn parse_error_value() -> (v: Value)
    ensures
        is_parse_error(v),
{
    Value::String(String::from_str("<parse error>"))
}

/// Builds the sentinel recorded for undecodable attributes of unhandled
/// value representations.
pub fn unsupported_value() -> (v: Value)
    ensures
        is_unsupported_sentinel(v),
{
    Value::String(String::from_str("<binary/unsupported>"))
}

} // verus!
