use sql_bridge::binder::{params_from_json, params_from_value};
use sql_bridge::json::Json;
use sql_bridge::native::{NativeValue, Params};

#[test]
fn array_text_binds_in_order() {
    let p = params_from_json("[1, \"ab\", -2, true, null]");
    assert_eq!(
        p,
        Params::Positional(vec![
            NativeValue::UInt(1),
            NativeValue::Bytes(b"ab".to_vec()),
            NativeValue::Int(-2),
            NativeValue::UInt(1),
            NativeValue::Null,
        ])
    );
}

#[test]
fn object_text_binds_by_name() {
    let p = params_from_json("{\"id\": 5, \"name\": \"x\"}");
    assert_eq!(
        p,
        Params::Named(vec![
            ("id".to_string(), NativeValue::UInt(5)),
            ("name".to_string(), NativeValue::Bytes(b"x".to_vec())),
        ])
    );
}

#[test]
fn float_text_binds_as_float() {
    let p = params_from_json("[1.5]");
    assert_eq!(p, Params::Positional(vec![NativeValue::Float(1.5f64.to_bits())]));
}

#[test]
fn other_shapes_bind_nothing() {
    assert_eq!(params_from_json("5"), Params::Empty);
    assert_eq!(params_from_json("\"text\""), Params::Empty);
    assert_eq!(params_from_json("not json"), Params::Empty);
    assert_eq!(params_from_json(""), Params::Empty);
    assert_eq!(params_from_json("[1,"), Params::Empty);
}

#[test]
fn empty_containers_bind_nothing() {
    assert_eq!(params_from_json("[]"), Params::Empty);
    assert_eq!(params_from_json("{}"), Params::Empty);
    assert_eq!(params_from_value(&Json::Array(vec![])), Params::Empty);
}

#[test]
fn nested_sequence_binds_as_bytes() {
    let p = params_from_json("[[1, 2, \"z\", 256]]");
    assert_eq!(p, Params::Positional(vec![NativeValue::Bytes(vec![1, 2, 0, 0])]));
}

#[test]
fn value_binds_like_its_text() {
    let v = Json::Array(vec![Json::Int(-1), Json::Str("q".to_string())]);
    assert_eq!(params_from_value(&v), params_from_json("[-1, \"q\"]"));
}
