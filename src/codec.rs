use vstd::prelude::*;
use vstd::string::*;
use vstd::utf8::*;

use crate::json::{array_of, lemma_array_view, Json, JsonModel};
use crate::native::{NativeModel, NativeValue};
use crate::text::{four_digits, push_char, push_four_digits, push_two_digits, two_digits};

verus! {

/// Column type codes of the MySQL protocol that the cell encoding tells apart.
pub const TYPE_VARCHAR: u8 = 15;
pub const TYPE_TINY_BLOB: u8 = 249;
pub const TYPE_MEDIUM_BLOB: u8 = 250;
pub const TYPE_LONG_BLOB: u8 = 251;
pub const TYPE_BLOB: u8 = 252;
pub const TYPE_VAR_STRING: u8 = 253;
pub const TYPE_STRING: u8 = 254;

/// How a byte-sequence cell is rendered.
#[derive(Debug, PartialEq)]
pub enum BytesAs {
    Text,
    Numbers,
    Nothing,
}

/// The rendering table for byte-sequence cells: character columns are text;
/// large-object columns are text unless flagged binary, then one number per
/// byte; any other column gives null.
pub open spec fn bytes_as_spec(column_type: u8, binary: bool) -> BytesAs {
    if column_type == TYPE_VARCHAR || column_type == TYPE_STRING || column_type == TYPE_VAR_STRING {
        BytesAs::Text
    } else if column_type == TYPE_BLOB || column_type == TYPE_LONG_BLOB || column_type
        == TYPE_MEDIUM_BLOB || column_type == TYPE_TINY_BLOB {
        if binary {
            BytesAs::Numbers
        } else {
            BytesAs::Text
        }
    } else {
        BytesAs::Nothing
    }
}

pub fn bytes_as(column_type: u8, binary: bool) -> (r: BytesAs)
    ensures
        r == bytes_as_spec(column_type, binary),
{
    match column_type {
        TYPE_VARCHAR | TYPE_STRING | TYPE_VAR_STRING => BytesAs::Text,
        TYPE_BLOB | TYPE_LONG_BLOB | TYPE_MEDIUM_BLOB | TYPE_TINY_BLOB => {
            if binary {
                BytesAs::Numbers
            } else {
                BytesAs::Text
            }
        },
        _ => BytesAs::Nothing,
    }
}

/// A double's bit pattern denotes a finite number: its exponent is not all ones.
pub open spec fn is_finite_bits(bits: u64) -> bool {
    (bits >> 52u64) & 0x7ffu64 != 0x7ffu64
}

pub fn finite_bits(bits: u64) -> (r: bool)
    ensures
        r == is_finite_bits(bits),
{
    (bits >> 52u64) & 0x7ffu64 != 0x7ffu64
}

/// The byte that an element of a byte-array parameter stands for: the low
/// eight bits of an integer (two's complement where it is negative), zero for
/// anything else.
pub open spec fn byte_of(v: JsonModel) -> u8 {
    match v {
        JsonModel::UInt(u) => (u % 256) as u8,
        JsonModel::Int(i) => (i % 256) as u8,
        _ => 0,
    }
}

/// The native parameter that a dynamic value is bound as.
pub open spec fn decode_model(v: JsonModel) -> NativeModel {
    match v {
        JsonModel::Bool(b) => NativeModel::UInt(if b {
            1
        } else {
            0
        }),
        JsonModel::UInt(u) => NativeModel::UInt(u),
        JsonModel::Int(i) => if i >= 0 {
            NativeModel::UInt(i as u64)
        } else {
            NativeModel::Int(i)
        },
        JsonModel::Float(f) => NativeModel::Float(f),
        JsonModel::Str(s) => NativeModel::Bytes(encode_utf8(s)),
        JsonModel::Array(a) => NativeModel::Bytes(a.map_values(|x: JsonModel| byte_of(x))),
        _ => NativeModel::Null,
    }
}

/// The text that decoding bytes with replacement gives.
pub uninterp spec fn utf8_lossy(b: Seq<u8>) -> Seq<char>;

/// Decoding with replacement: exact on valid UTF-8.
pub open spec fn lossy_text_of(b: Seq<u8>) -> Seq<char> {
    if valid_utf8(b) {
        decode_utf8(b)
    } else {
        utf8_lossy(b)
    }
}

/// `YYYY-MM-DD HH:MM:SS`, the year zero-padded to four digits, the rest to two.
pub open spec fn date_text(y: u16, mo: u8, d: u8, h: u8, mi: u8, s: u8) -> Seq<char> {
    four_digits(y as nat) + seq!['-'] + two_digits(mo as nat) + seq!['-'] + two_digits(d as nat) + seq![
        ' ',
    ] + two_digits(h as nat) + seq![':'] + two_digits(mi as nat) + seq![':'] + two_digits(s as nat)
}

/// The dynamic value that a result cell is encoded as.
pub open spec fn encode_model(v: NativeModel, column_type: u8, binary: bool) -> JsonModel {
    match v {
        NativeModel::Bytes(b) => match bytes_as_spec(column_type, binary) {
            BytesAs::Text => JsonModel::Str(lossy_text_of(b)),
            BytesAs::Numbers => JsonModel::Array(b.map_values(|x: u8| JsonModel::UInt(x as u64))),
            BytesAs::Nothing => JsonModel::Null,
        },
        NativeModel::Float(f) => if is_finite_bits(f) {
            JsonModel::Float(f)
        } else {
            JsonModel::UInt(0)
        },
        NativeModel::Int(i) => if i < 0 {
            JsonModel::Int(i)
        } else {
            JsonModel::UInt(i as u64)
        },
        NativeModel::UInt(u) => JsonModel::UInt(u),
        NativeModel::Date(y, mo, d, h, mi, s, _) => JsonModel::Str(date_text(y, mo, d, h, mi, s)),
        _ => JsonModel::Null,
    }
}

/// Relies on String::from_utf8_lossy: valid UTF-8 is decoded as it stands;
/// other bytes give a text that depends on the bytes alone.
#[verifier::external_body]
fn lossy_text(b: &Vec<u8>) -> (r: String)
    ensures
        valid_utf8(b@) ==> r@ == decode_utf8(b@),
        !valid_utf8(b@) ==> r@ == utf8_lossy(b@),
{
    String::from_utf8_lossy(b).into_owned()
}

fn byte_param(v: &Json) -> (r: u8)
    ensures
        r == byte_of(v@),
{
    match v {
        Json::UInt(u) => (*u % 256) as u8,
        Json::Int(i) => {
            let w = *i as u64;
            assert(w % 256 == i % 256) by (bit_vector)
                requires
                    w == *i as u64,
            ;
            (w % 256) as u8
        },
        _ => 0,
    }
}

/// Converts a dynamic value into the native parameter it is bound as.
/// Nothing is rejected: what has no native form becomes null, and elements
/// of a byte array that are no integer become zero; integers keep their low eight bits.
pub fn decode_param(v: &Json) -> (r: NativeValue)
    ensures
        r@ == decode_model(v@),
{
    match v {
        Json::Bool(b) => NativeValue::UInt(if *b {
            1
        } else {
            0
        }),
        Json::UInt(u) => NativeValue::UInt(*u),
        Json::Int(i) => if *i >= 0 {
            NativeValue::UInt(*i as u64)
        } else {
            NativeValue::Int(*i)
        },
        Json::Float(f) => NativeValue::Float(*f),
        Json::Str(s) => {
            let bytes = s.as_str().as_bytes();
            let mut out: Vec<u8> = Vec::new();
            let mut i: usize = 0;
            while i < bytes.len()
                invariant
                    i <= bytes@.len(),
                    out@ =~= bytes@.subrange(0, i as int),
                decreases bytes@.len() - i,
            {
                out.push(bytes[i]);
                i = i + 1;
            }
            assert(out@ =~= bytes@);
            NativeValue::Bytes(out)
        },
        Json::Array(a) => {
            proof {
                lemma_array_view(*a);
            }
            let mut out: Vec<u8> = Vec::new();
            let mut i: usize = 0;
            while i < a.len()
                invariant
                    i <= a@.len(),
                    out@.len() == i,
                    forall|k: int| 0 <= k < i ==> #[trigger] out@[k] == byte_of(a@[k]@),
                decreases a@.len() - i,
            {
                out.push(byte_param(&a[i]));
                i = i + 1;
            }
            assert(out@ =~= a@.map_values(|j: Json| j@).map_values(|x: JsonModel| byte_of(x)));
            NativeValue::Bytes(out)
        },
        _ => NativeValue::Null,
    }
}

fn date_string(y: u16, mo: u8, d: u8, h: u8, mi: u8, s: u8) -> (r: String)
    ensures
        r@ == date_text(y, mo, d, h, mi, s),
{
    let mut out = String::new();
    push_four_digits(&mut out, y as u64);
    push_char(&mut out, '-');
    push_two_digits(&mut out, mo as u64);
    push_char(&mut out, '-');
    push_two_digits(&mut out, d as u64);
    push_char(&mut out, ' ');
    push_two_digits(&mut out, h as u64);
    push_char(&mut out, ':');
    push_two_digits(&mut out, mi as u64);
    push_char(&mut out, ':');
    push_two_digits(&mut out, s as u64);
    assert(out@ =~= date_text(y, mo, d, h, mi, s));
    out
}

/// Encodes one result cell, given its column's type code and whether the
/// column is flagged binary.
pub fn encode_cell(v: &NativeValue, column_type: u8, binary: bool) -> (r: Json)
    ensures
        r@ == encode_model(v@, column_type, binary),
{
    match v {
        NativeValue::Bytes(b) => match bytes_as(column_type, binary) {
            BytesAs::Text => Json::Str(lossy_text(b)),
            BytesAs::Numbers => {
                let mut out: Vec<Json> = Vec::new();
                let mut i: usize = 0;
                while i < b.len()
                    invariant
                        i <= b@.len(),
                        out@.len() == i,
                        forall|k: int| 0 <= k < i ==> (#[trigger] out@[k])@ == JsonModel::UInt(b@[k] as u64),
                    decreases b@.len() - i,
                {
                    out.push(Json::UInt(b[i] as u64));
                    i = i + 1;
                }
                let r = array_of(out);
                assert(out@.map_values(|j: Json| j@) =~= b@.map_values(|x: u8| JsonModel::UInt(x as u64)));
                r
            },
            BytesAs::Nothing => Json::Null,
        },
        NativeValue::Float(f) => if finite_bits(*f) {
            Json::Float(*f)
        } else {
            Json::UInt(0)
        },
        NativeValue::Int(i) => if *i < 0 {
            Json::Int(*i)
        } else {
            Json::UInt(*i as u64)
        },
        NativeValue::UInt(u) => Json::UInt(*u),
        NativeValue::Date(y, mo, d, h, mi, s, _) => Json::Str(date_string(*y, *mo, *d, *h, *mi, *s)),
        _ => Json::Null,
    }
}

/// Lossy input: a negative integer is bound as a signed native integer, and a
/// sequence is bound as bytes in which every integer element is cut to its
/// low eight bits and every other element becomes zero, rather than failing.
pub proof fn lemma_lossy_input(i: i64, a: Seq<JsonModel>)
    requires
        i < 0,
    ensures
        decode_model(JsonModel::Int(i)) == NativeModel::Int(i),
        decode_model(JsonModel::Array(a)) == NativeModel::Bytes(a.map_values(|x: JsonModel| byte_of(x))),
        forall|k: int|
            0 <= k < a.len() && !(a[k] is UInt) && !(a[k] is Int) ==> byte_of(#[trigger] a[k]) == 0,
        forall|k: int|
            0 <= k < a.len() && a[k] is Int ==> byte_of(#[trigger] a[k]) as int == a[k]->Int_0 % 256,
        forall|k: int|
            0 <= k < a.len() && a[k] is UInt ==> byte_of(#[trigger] a[k]) as int == a[k]->UInt_0 % 256,
{
}

} // verus!
