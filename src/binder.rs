use serde_json::Value;
use vstd::prelude::*;
use vstd::string::*;
use vstd::utf8::{encode_utf8_decode_utf8, encode_utf8_valid_utf8};

use crate::codec::{bytes_as_spec, decode_model, decode_param, encode_model, is_finite_bits, BytesAs};
use crate::json::{lemma_array_view, lemma_object_view, Json, JsonModel};
use crate::native::{NativeValue, Params, ParamsModel};

verus! {

/// The parameters that a decoded payload binds: a mapping binds by name, a
/// sequence binds in order, and anything else (or an empty one) binds none.
pub open spec fn params_model(v: JsonModel) -> ParamsModel {
    match v {
        JsonModel::Object(o) => if o.len() == 0 {
            ParamsModel::Empty
        } else {
            ParamsModel::Named(
                o.map_values(|p: (Seq<char>, JsonModel)| (p.0, decode_model(p.1))),
            )
        },
        JsonModel::Array(a) => if a.len() == 0 {
            ParamsModel::Empty
        } else {
            ParamsModel::Positional(a.map_values(|x: JsonModel| decode_model(x)))
        },
        _ => ParamsModel::Empty,
    }
}

/// The value that a text denotes as one JSON document, if it is one.
pub uninterp spec fn parsed_json(text: Seq<char>) -> Option<JsonModel>;

/// The parameters that a parameter text binds; text that is no JSON document
/// binds none.
pub open spec fn params_text_model(text: Seq<char>) -> ParamsModel {
    match parsed_json(text) {
        Some(v) => params_model(v),
        None => ParamsModel::Empty,
    }
}

#[verifier::external_type_specification]
#[verifier::external_body]
pub struct ExJsonValue(serde_json::Value);

/// Relies on the variants of serde_json::Value and on
/// serde_json::Number::{as_u64, as_i64, as_f64}: moves a parsed tree into
/// `Json`, an integer as unsigned where it is non-negative.
#[verifier::external_body]
fn json_from_serde(v: Value) -> Json {
    match v {
        Value::Null => Json::Null,
        Value::Bool(b) => Json::Bool(b),
        Value::Number(n) => match (n.as_u64(), n.as_i64()) {
            (Some(u), _) => Json::UInt(u),
            (None, Some(i)) => Json::Int(i),
            _ => Json::Float(n.as_f64().map_or(0, |x| x.to_bits())),
        },
        Value::String(s) => Json::Str(s),
        Value::Array(a) => Json::Array(a.into_iter().map(json_from_serde).collect()),
        Value::Object(o) => Json::Object(o.into_iter().map(|(k, x)| (k, json_from_serde(x))).collect()),
    }
}

/// Relies on serde_json::from_str into serde_json::Value: a text parses or not,
/// and to the same tree, by the text alone.
#[verifier::external_body]
pub(crate) fn parse_json(text: &str) -> (r: Option<Json>)
    ensures
        match r {
            Some(j) => parsed_json(text@) == Some(j@),
            None => parsed_json(text@) is None,
        },
{
    serde_json::from_str::<serde_json::Value>(text).ok().map(json_from_serde)
}

/// Binds a decoded parameter payload.
pub fn params_from_value(v: &Json) -> (r: Params)
    ensures
        r@ == params_model(v@),
{
    match v {
        Json::Object(o) => {
            proof {
                lemma_object_view(*o);
            }
            if o.len() == 0 {
                return Params::Empty;
            }
            let mut out: Vec<(String, NativeValue)> = Vec::new();
            let mut i: usize = 0;
            while i < o.len()
                invariant
                    i <= o@.len(),
                    out@.len() == i,
                    forall|k: int|
                        0 <= k < i ==> (#[trigger] out@[k]).0@ == o@[k].0@ && out@[k].1@
                            == decode_model(o@[k].1@),
                decreases o@.len() - i,
            {
                let key = o[i].0.clone();
                out.push((key, decode_param(&o[i].1)));
                i = i + 1;
            }
            let r = Params::Named(out);
            assert(out@.map_values(|p: (String, NativeValue)| (p.0@, p.1@)) =~= o@.map_values(
                |p: (String, Json)| (p.0@, p.1@),
            ).map_values(|p: (Seq<char>, JsonModel)| (p.0, decode_model(p.1))));
            r
        },
        Json::Array(a) => {
            proof {
                lemma_array_view(*a);
            }
            if a.len() == 0 {
                return Params::Empty;
            }
            let mut out: Vec<NativeValue> = Vec::new();
            let mut i: usize = 0;
            while i < a.len()
                invariant
                    i <= a@.len(),
                    out@.len() == i,
                    forall|k: int| 0 <= k < i ==> (#[trigger] out@[k])@ == decode_model(a@[k]@),
                decreases a@.len() - i,
            {
                out.push(decode_param(&a[i]));
                i = i + 1;
            }
            let r = Params::Positional(out);
            assert(out@.map_values(|x: NativeValue| x@) =~= a@.map_values(|j: Json| j@).map_values(
                |x: JsonModel| decode_model(x),
            ));
            r
        },
        _ => Params::Empty,
    }
}

/// Parses a parameter text and binds what it holds. Malformed text binds no
/// parameters; it is no error.
pub fn params_from_json(text: &str) -> (r: Params)
    ensures
        r@ == params_text_model(text@),
{
    match parse_json(text) {
        Some(v) => params_from_value(&v),
        None => Params::Empty,
    }
}

/// The values of the dynamic format that survive binding and encoding
/// unchanged: null, numbers (a float when finite, an integer in its canonical
/// form, unsigned where non-negative), text, and sequences of byte values.
pub open spec fn round_trips(v: JsonModel) -> bool {
    match v {
        JsonModel::Null => true,
        JsonModel::UInt(_) => true,
        JsonModel::Int(i) => i < 0,
        JsonModel::Float(f) => is_finite_bits(f),
        JsonModel::Str(_) => true,
        JsonModel::Array(a) => forall|k: int|
            0 <= k < a.len() ==> (#[trigger] a[k]) is UInt && a[k]->UInt_0 < 256,
        _ => false,
    }
}

/// A column of this type and flag renders the value's shape: text in a
/// text-rendered column, byte sequences in a binary large-object column.
pub open spec fn column_fits(v: JsonModel, column_type: u8, binary: bool) -> bool {
    match v {
        JsonModel::Str(_) => bytes_as_spec(column_type, binary) == BytesAs::Text,
        JsonModel::Array(_) => bytes_as_spec(column_type, binary) == BytesAs::Numbers,
        _ => true,
    }
}

/// Round trip: a value bound as a positional parameter, then read back from a
/// column of the matching type, is the value it was.
pub proof fn lemma_round_trip(v: JsonModel, column_type: u8, binary: bool)
    requires
        round_trips(v),
        column_fits(v, column_type, binary),
    ensures
        params_model(JsonModel::Array(seq![v])) == ParamsModel::Positional(seq![decode_model(v)]),
        encode_model(decode_model(v), column_type, binary) == v,
{
    assert(seq![v].map_values(|x: JsonModel| decode_model(x)) =~= seq![decode_model(v)]);
    match v {
        JsonModel::Str(s) => {
            encode_utf8_valid_utf8(s);
            encode_utf8_decode_utf8(s);
        },
        JsonModel::Array(a) => {
            let bytes = a.map_values(|x: JsonModel| crate::codec::byte_of(x));
            assert(bytes.map_values(|x: u8| JsonModel::UInt(x as u64)) =~= a);
        },
        _ => {},
    }
}

} // verus!
