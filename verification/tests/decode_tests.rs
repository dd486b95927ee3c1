use dicom_reader::decode::{
    decode_date_text, decode_datetime_text, decode_float_bits, decode_integer_string, decode_other,
    decode_text, decode_time_text, decode_unsigned_long, decode_unsigned_short,
};
use dicom_reader::record::attribute_name;
use dicom_reader::tag::AttrTag;
use dicom_reader::value::{parse_error_value, unsupported_value, DateTimeValue, TimeOfDay, Value};

fn midnight(year: i32, month: u32, day: u32) -> DateTimeValue {
    DateTimeValue { year, month, day, hour: 0, minute: 0, second: 0, nanosecond: 0 }
}

#[test]
fn date_valid_input_becomes_midnight_date() {
    assert_eq!(decode_date_text("20230415"), Value::Date(midnight(2023, 4, 15)));
}

#[test]
fn date_wrong_format_keeps_raw_text() {
    assert_eq!(decode_date_text("2023-04-15"), Value::String("2023-04-15".to_string()));
}

#[test]
fn date_impossible_day_keeps_raw_text() {
    assert_eq!(decode_date_text("20230231"), Value::String("20230231".to_string()));
}

#[test]
fn time_plain_format_wins() {
    assert_eq!(
        decode_time_text("143000"),
        Value::Time(TimeOfDay { hour: 14, minute: 30, second: 0, nanosecond: 0 })
    );
}

#[test]
fn time_fraction_scales_to_nanoseconds() {
    assert_eq!(
        decode_time_text("143000.500"),
        Value::Time(TimeOfDay { hour: 14, minute: 30, second: 0, nanosecond: 500_000_000 })
    );
}

#[test]
fn time_six_digit_fraction_scales_to_nanoseconds() {
    assert_eq!(
        decode_time_text("143000.123456"),
        Value::Time(TimeOfDay { hour: 14, minute: 30, second: 0, nanosecond: 123_456_000 })
    );
}

#[test]
fn time_malformed_keeps_raw_text() {
    assert_eq!(decode_time_text("abc"), Value::String("abc".to_string()));
}

#[test]
fn time_out_of_range_keeps_raw_text() {
    assert_eq!(decode_time_text("256161"), Value::String("256161".to_string()));
}

#[test]
fn datetime_plain_format_wins() {
    assert_eq!(
        decode_datetime_text("20230415143000"),
        Value::Date(DateTimeValue {
            year: 2023,
            month: 4,
            day: 15,
            hour: 14,
            minute: 30,
            second: 0,
            nanosecond: 0,
        })
    );
}

#[test]
fn datetime_fraction_scales_to_nanoseconds() {
    assert_eq!(
        decode_datetime_text("20230415143000.5"),
        Value::Date(DateTimeValue {
            year: 2023,
            month: 4,
            day: 15,
            hour: 14,
            minute: 30,
            second: 0,
            nanosecond: 500_000_000,
        })
    );
}

#[test]
fn datetime_malformed_keeps_raw_text() {
    assert_eq!(decode_datetime_text("not a date"), Value::String("not a date".to_string()));
}

#[test]
fn unsigned_short_widens_to_64_bits() {
    assert_eq!(decode_unsigned_short(Some(4095)), Value::UnsignedInteger(4095));
}

#[test]
fn unsigned_short_failure_becomes_sentinel() {
    assert_eq!(decode_unsigned_short(None), Value::String("<parse error>".to_string()));
}

#[test]
fn unsigned_long_widens_to_64_bits() {
    assert_eq!(decode_unsigned_long(Some(70000)), Value::UnsignedInteger(70000));
}

#[test]
fn integer_string_widens_negative_value() {
    assert_eq!(decode_integer_string(Some(-12)), Value::Integer(-12));
}

#[test]
fn integer_string_failure_becomes_sentinel() {
    assert_eq!(decode_integer_string(None), Value::String("<parse error>".to_string()));
}

#[test]
fn float_value_keeps_exact_bit_pattern() {
    let bits = (2.5f64).to_bits();
    assert_eq!(decode_float_bits(Some(bits)), Value::Float(bits));
    match decode_float_bits(Some(bits)) {
        Value::Float(b) => assert_eq!(f64::from_bits(b), 2.5),
        other => panic!("expected a float value, got {:?}", other),
    }
}

#[test]
fn float_failure_becomes_sentinel() {
    assert_eq!(decode_float_bits(None), Value::String("<parse error>".to_string()));
}

#[test]
fn text_value_is_kept_verbatim() {
    assert_eq!(decode_text(Some("Doe^John".to_string())), Value::String("Doe^John".to_string()));
}

#[test]
fn text_failure_becomes_sentinel() {
    assert_eq!(decode_text(None), parse_error_value());
}

#[test]
fn unhandled_class_gets_distinct_sentinel() {
    assert_eq!(decode_other(None), unsupported_value());
    assert_eq!(decode_other(None), Value::String("<binary/unsupported>".to_string()));
}

#[test]
fn known_tag_resolves_to_dictionary_name() {
    assert_eq!(attribute_name(AttrTag::new(0x0010, 0x0010)), "PatientName".to_string());
}

#[test]
fn unknown_tag_resolves_to_fallback_label() {
    assert_eq!(attribute_name(AttrTag::new(0x0009, 0x0001)), "Unknown Tag".to_string());
}
