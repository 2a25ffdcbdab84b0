//! Round trips and error cases of the decode and encode layers, exercised
//! over a reader positioned at the cell the backend would keep for each
//! bound value.

use sqlite_codec::decode::{
    decode_big_int, decode_binary, decode_bool, decode_double_bits, decode_integer,
    decode_small_int, decode_varchar,
};
use sqlite_codec::encode::{
    encode_big_int, encode_binary, encode_bool, encode_double_bits, encode_integer,
    encode_json_valid_flag, encode_json_valid_flags_raw, encode_small_int, encode_text, IsNull,
};
use sqlite_codec::error::DecodeError;
use sqlite_codec::flags::JsonValidFlag;
use sqlite_codec::value::{BoundValue, Output, SqliteValue, StoredValue};

fn stored_after(out: Output) -> SqliteValue {
    SqliteValue::from_bound(out.into_inner().expect("a value was encoded"))
}

#[test]
fn small_int_round_trips() {
    for v in [0i16, 1, -1, 12345, i16::MIN, i16::MAX] {
        let mut out = Output::new();
        assert_eq!(encode_small_int(v, &mut out), Ok(IsNull::No));
        let value = stored_after(out);
        assert_eq!(decode_small_int(&value), Ok(v));
    }
}

#[test]
fn small_int_is_widened_into_the_integer_slot() {
    let mut out = Output::new();
    encode_small_int(-5, &mut out).unwrap();
    assert_eq!(out.into_inner(), Some(BoundValue::Integer(-5)));
}

#[test]
fn small_int_decode_truncates_by_twos_complement() {
    let value = SqliteValue::new(StoredValue::Integer(65536));
    assert_eq!(decode_small_int(&value), Ok(0));
    let value = SqliteValue::new(StoredValue::Integer(32768));
    assert_eq!(decode_small_int(&value), Ok(-32768));
}

#[test]
fn integer_round_trips() {
    for v in [0i32, 7, -7, i32::MIN, i32::MAX] {
        let mut out = Output::new();
        assert_eq!(encode_integer(v, &mut out), Ok(IsNull::No));
        let value = stored_after(out);
        assert_eq!(decode_integer(&value), Ok(v));
    }
}

#[test]
fn integer_decode_truncates_a_wide_stored_integer() {
    let value = SqliteValue::new(StoredValue::Integer((1i64 << 32) + 5));
    assert_eq!(decode_integer(&value), Ok(5));
}

#[test]
fn big_int_round_trips() {
    for v in [0i64, -1, i64::MIN, i64::MAX] {
        let mut out = Output::new();
        assert_eq!(encode_big_int(v, &mut out), Ok(IsNull::No));
        let value = stored_after(out);
        assert_eq!(decode_big_int(&value), Ok(v));
    }
}

#[test]
fn bool_round_trips() {
    for v in [true, false] {
        let mut out = Output::new();
        assert_eq!(encode_bool(v, &mut out), Ok(IsNull::No));
        let value = stored_after(out);
        assert_eq!(decode_bool(&value), Ok(v));
    }
}

#[test]
fn bool_is_stored_as_one_or_zero() {
    let mut out = Output::new();
    encode_bool(true, &mut out).unwrap();
    assert_eq!(out.into_inner(), Some(BoundValue::Integer(1)));
    let mut out = Output::new();
    encode_bool(false, &mut out).unwrap();
    assert_eq!(out.into_inner(), Some(BoundValue::Integer(0)));
}

#[test]
fn bool_decode_takes_any_nonzero_integer_as_true() {
    let value = SqliteValue::new(StoredValue::Integer(2));
    assert_eq!(decode_bool(&value), Ok(true));
    let value = SqliteValue::new(StoredValue::Integer(0));
    assert_eq!(decode_bool(&value), Ok(false));
}

#[test]
fn float_round_trips_through_the_real_bit_channel() {
    // The float conversions belong to the caller; this is the widening an
    // encode of an f32 performs and the narrowing a decode of an f32 ends
    // with, around the verified bit channel.
    for v in [0.0f32, 1.5, -2.25, f32::MAX, f32::MIN_POSITIVE] {
        let mut out = Output::new();
        assert_eq!(encode_double_bits((v as f64).to_bits(), &mut out), Ok(IsNull::No));
        let value = stored_after(out);
        let bits = decode_double_bits(&value).unwrap();
        assert_eq!(f64::from_bits(bits) as f32, v);
    }
}

#[test]
fn double_round_trips_exactly() {
    for v in [0.0f64, 3.141592653589793, -1.0e300, f64::MIN_POSITIVE] {
        let mut out = Output::new();
        assert_eq!(encode_double_bits(v.to_bits(), &mut out), Ok(IsNull::No));
        let value = stored_after(out);
        assert_eq!(f64::from_bits(decode_double_bits(&value).unwrap()), v);
    }
}

#[test]
fn varchar_decodes_stored_text_zero_copy() {
    let value = SqliteValue::new(StoredValue::Text(b"hello".to_vec()));
    assert_eq!(decode_varchar(&value), Ok("hello"));
}

#[test]
fn text_round_trips() {
    for s in ["", "hello", "caf\u{e9} \u{2713} \u{1f600}"] {
        let mut out = Output::new();
        assert_eq!(encode_text(s, &mut out), Ok(IsNull::No));
        let value = stored_after(out);
        assert_eq!(decode_varchar(&value), Ok(s));
    }
}

#[test]
fn binary_round_trips() {
    for b in [&[][..], &[0u8, 1, 255][..], &[0xff, 0xfe][..]] {
        let mut out = Output::new();
        assert_eq!(encode_binary(b, &mut out), Ok(IsNull::No));
        let value = stored_after(out);
        assert_eq!(decode_binary(&value), Ok(b));
    }
}

#[test]
fn invalid_utf8_text_surfaces_a_decode_error() {
    let value = SqliteValue::new(StoredValue::Text(vec![0xff, 0xfe, 0x68]));
    assert_eq!(decode_varchar(&value), Err(DecodeError::InvalidText));
    // A lone continuation byte and a truncated multi-byte sequence fail too.
    let value = SqliteValue::new(StoredValue::Text(vec![0x80]));
    assert_eq!(decode_varchar(&value), Err(DecodeError::InvalidText));
    let value = SqliteValue::new(StoredValue::Text(vec![0xe2, 0x9c]));
    assert_eq!(decode_varchar(&value), Err(DecodeError::InvalidText));
}

#[test]
fn reads_against_the_wrong_storage_class_surface_a_decode_error() {
    let text = SqliteValue::new(StoredValue::Text(b"12".to_vec()));
    assert_eq!(decode_integer(&text), Err(DecodeError::StorageClassMismatch));
    assert_eq!(decode_small_int(&text), Err(DecodeError::StorageClassMismatch));
    assert_eq!(decode_bool(&text), Err(DecodeError::StorageClassMismatch));
    assert_eq!(decode_big_int(&text), Err(DecodeError::StorageClassMismatch));
    assert_eq!(decode_binary(&text), Err(DecodeError::StorageClassMismatch));
    assert_eq!(decode_double_bits(&text), Err(DecodeError::StorageClassMismatch));

    let blob = SqliteValue::new(StoredValue::Blob(vec![0x68]));
    assert_eq!(decode_varchar(&blob), Err(DecodeError::StorageClassMismatch));

    let integer = SqliteValue::new(StoredValue::Integer(6));
    assert_eq!(decode_binary(&integer), Err(DecodeError::StorageClassMismatch));
    assert_eq!(decode_varchar(&integer), Err(DecodeError::StorageClassMismatch));
}

#[test]
fn flag_discriminants_carry_their_documented_values() {
    assert_eq!(JsonValidFlag::Rfc8259Json.raw_value(), 1);
    assert_eq!(JsonValidFlag::Json5.raw_value(), 2);
    assert_eq!(JsonValidFlag::JsonbLike.raw_value(), 4);
    assert_eq!(JsonValidFlag::Rfc8259JsonOrJsonb.raw_value(), 5);
    assert_eq!(JsonValidFlag::Json5OrJsonb.raw_value(), 6);
    assert_eq!(JsonValidFlag::JsonbStrict.raw_value(), 8);
    assert_eq!(JsonValidFlag::Rfc8259JsonOrJsonbStrict.raw_value(), 9);
    assert_eq!(JsonValidFlag::Json5OrJsonbStrict.raw_value(), 10);
}

#[test]
fn encoded_flag_decodes_as_its_raw_integer() {
    let mut out = Output::new();
    assert_eq!(encode_json_valid_flag(JsonValidFlag::Json5OrJsonb, &mut out), Ok(IsNull::No));
    let value = stored_after(out);
    assert_eq!(decode_integer(&value), Ok(6));
}

#[test]
fn raw_flag_path_is_indistinguishable_from_the_named_one() {
    let mut named = Output::new();
    encode_json_valid_flag(JsonValidFlag::Json5OrJsonb, &mut named).unwrap();
    let mut raw = Output::new();
    encode_json_valid_flags_raw(6, &mut raw).unwrap();
    assert_eq!(named.into_inner(), raw.into_inner());

    let mut raw = Output::new();
    encode_json_valid_flags_raw(6, &mut raw).unwrap();
    let value = stored_after(raw);
    assert_eq!(decode_integer(&value), Ok(6));
}

#[test]
fn an_empty_sink_holds_no_value() {
    let out = Output::new();
    assert_eq!(out.into_inner(), None);
}
