use sql_bridge::codec::{
    bytes_as, decode_param, encode_cell, finite_bits, BytesAs, TYPE_BLOB, TYPE_LONG_BLOB,
    TYPE_STRING, TYPE_TINY_BLOB, TYPE_VARCHAR, TYPE_VAR_STRING,
};
use sql_bridge::json::Json;
use sql_bridge::native::NativeValue;

const TYPE_LONGLONG: u8 = 8;
const TYPE_DATETIME: u8 = 12;

fn text(s: &str) -> Json {
    Json::Str(s.to_string())
}

#[test]
fn bool_binds_as_unsigned() {
    assert_eq!(decode_param(&Json::Bool(true)), NativeValue::UInt(1));
    assert_eq!(decode_param(&Json::Bool(false)), NativeValue::UInt(0));
}

#[test]
fn integers_bind_unsigned_when_non_negative() {
    assert_eq!(decode_param(&Json::UInt(42)), NativeValue::UInt(42));
    assert_eq!(decode_param(&Json::Int(7)), NativeValue::UInt(7));
    assert_eq!(decode_param(&Json::UInt(u64::MAX)), NativeValue::UInt(u64::MAX));
}

#[test]
fn negative_integer_binds_signed() {
    assert_eq!(decode_param(&Json::Int(-5)), NativeValue::Int(-5));
    assert_eq!(decode_param(&Json::Int(i64::MIN)), NativeValue::Int(i64::MIN));
}

#[test]
fn float_binds_as_float() {
    let bits = 2.5f64.to_bits();
    assert_eq!(decode_param(&Json::Float(bits)), NativeValue::Float(bits));
}

#[test]
fn text_binds_as_utf8_bytes() {
    assert_eq!(decode_param(&text("hé")), NativeValue::Bytes(vec![0x68, 0xc3, 0xa9]));
    assert_eq!(decode_param(&text("")), NativeValue::Bytes(vec![]));
}

#[test]
fn array_binds_as_truncated_bytes() {
    let a = Json::Array(vec![
        Json::UInt(1),
        Json::UInt(300),
        text("x"),
        Json::Int(-1),
        Json::Float(1.0f64.to_bits()),
        Json::Null,
    ]);
    assert_eq!(decode_param(&a), NativeValue::Bytes(vec![1, 44, 0, 255, 0, 0]));
}

#[test]
fn negative_array_elements_keep_low_bits() {
    let a = Json::Array(vec![Json::Int(-255), Json::Int(-256), Json::Int(-129), Json::Int(i64::MIN)]);
    assert_eq!(decode_param(&a), NativeValue::Bytes(vec![1, 0, 127, 0]));
}

#[test]
fn short_years_are_zero_padded() {
    let v = NativeValue::Date(5, 1, 2, 3, 4, 5, 0);
    assert_eq!(encode_cell(&v, TYPE_DATETIME, false), text("0005-01-02 03:04:05"));
    let w = NativeValue::Date(42, 1, 2, 3, 4, 5, 0);
    assert_eq!(encode_cell(&w, TYPE_DATETIME, false), text("0042-01-02 03:04:05"));
}

#[test]
fn null_and_mapping_bind_as_null() {
    assert_eq!(decode_param(&Json::Null), NativeValue::Null);
    let o = Json::Object(vec![("a".to_string(), Json::UInt(1))]);
    assert_eq!(decode_param(&o), NativeValue::Null);
}

#[test]
fn rendering_table() {
    assert_eq!(bytes_as(TYPE_VARCHAR, true), BytesAs::Text);
    assert_eq!(bytes_as(TYPE_STRING, false), BytesAs::Text);
    assert_eq!(bytes_as(TYPE_VAR_STRING, true), BytesAs::Text);
    assert_eq!(bytes_as(TYPE_BLOB, true), BytesAs::Numbers);
    assert_eq!(bytes_as(TYPE_TINY_BLOB, false), BytesAs::Text);
    assert_eq!(bytes_as(TYPE_LONGLONG, false), BytesAs::Nothing);
}

#[test]
fn character_column_reads_as_text() {
    let v = NativeValue::Bytes(b"abc".to_vec());
    assert_eq!(encode_cell(&v, TYPE_VARCHAR, false), text("abc"));
    assert_eq!(encode_cell(&v, TYPE_VAR_STRING, true), text("abc"));
}

#[test]
fn invalid_utf8_is_replaced() {
    let v = NativeValue::Bytes(vec![0x61, 0xff, 0x62]);
    assert_eq!(encode_cell(&v, TYPE_STRING, false), text("a\u{FFFD}b"));
}

#[test]
fn blob_column_reads_by_binary_flag() {
    let v = NativeValue::Bytes(vec![0, 7, 255]);
    assert_eq!(
        encode_cell(&v, TYPE_LONG_BLOB, true),
        Json::Array(vec![Json::UInt(0), Json::UInt(7), Json::UInt(255)])
    );
    let t = NativeValue::Bytes(b"hi".to_vec());
    assert_eq!(encode_cell(&t, TYPE_BLOB, false), text("hi"));
}

#[test]
fn bytes_in_other_column_read_as_null() {
    let v = NativeValue::Bytes(b"12".to_vec());
    assert_eq!(encode_cell(&v, TYPE_LONGLONG, false), Json::Null);
}

#[test]
fn numbers_read_as_numbers() {
    assert_eq!(encode_cell(&NativeValue::Int(-3), TYPE_LONGLONG, false), Json::Int(-3));
    assert_eq!(encode_cell(&NativeValue::Int(3), TYPE_LONGLONG, false), Json::UInt(3));
    assert_eq!(encode_cell(&NativeValue::UInt(9), TYPE_LONGLONG, false), Json::UInt(9));
    let bits = 0.25f64.to_bits();
    assert_eq!(encode_cell(&NativeValue::Float(bits), 5, false), Json::Float(bits));
}

#[test]
fn non_finite_float_reads_as_zero() {
    for x in [f64::NAN, f64::INFINITY, f64::NEG_INFINITY] {
        assert_eq!(encode_cell(&NativeValue::Float(x.to_bits()), 5, false), Json::UInt(0));
    }
    assert!(finite_bits(f64::MAX.to_bits()));
    assert!(!finite_bits(f64::NAN.to_bits()));
}

#[test]
fn datetime_reads_as_fixed_text() {
    let v = NativeValue::Date(2021, 3, 4, 5, 6, 7, 890);
    assert_eq!(encode_cell(&v, TYPE_DATETIME, false), text("2021-03-04 05:06:07"));
    let w = NativeValue::Date(987, 12, 31, 23, 59, 0, 0);
    assert_eq!(encode_cell(&w, TYPE_DATETIME, false), text("0987-12-31 23:59:00"));
}

#[test]
fn other_values_read_as_null() {
    let t = NativeValue::Time(false, 1, 2, 3, 4, 5);
    assert_eq!(encode_cell(&t, 11, false), Json::Null);
    assert_eq!(encode_cell(&NativeValue::Null, TYPE_VARCHAR, false), Json::Null);
}

#[test]
fn values_round_trip_through_matching_columns() {
    let cases = vec![
        (Json::Null, TYPE_LONGLONG, false),
        (Json::UInt(12), TYPE_LONGLONG, false),
        (Json::Int(-12), TYPE_LONGLONG, false),
        (Json::Float(3.5f64.to_bits()), 5, false),
        (text("naïve"), TYPE_VARCHAR, false),
        (Json::Array(vec![Json::UInt(0), Json::UInt(128), Json::UInt(255)]), TYPE_BLOB, true),
    ];
    for (v, t, bin) in cases {
        assert_eq!(encode_cell(&decode_param(&v), t, bin), v);
    }
}
