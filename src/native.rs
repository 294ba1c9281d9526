use vstd::prelude::*;

verus! {

/// A value as the database client sends or receives it. A float is carried
/// as the IEEE-754 bit pattern of a double.
#[derive(Debug, PartialEq)]
pub enum NativeValue {
    Null,
    Bytes(Vec<u8>),
    Int(i64),
    UInt(u64),
    Float(u64),
    /// Year, month, day, hour, minute, second, microsecond.
    Date(u16, u8, u8, u8, u8, u8, u32),
    /// Negative, days, hours, minutes, seconds, microseconds.
    Time(bool, u32, u8, u8, u8, u32),
}

pub enum NativeModel {
    Null,
    Bytes(Seq<u8>),
    Int(i64),
    UInt(u64),
    Float(u64),
    Date(u16, u8, u8, u8, u8, u8, u32),
    Time(bool, u32, u8, u8, u8, u32),
}

impl View for NativeValue {
    type V = NativeModel;

    open spec fn view(&self) -> NativeModel {
        match self {
            NativeValue::Null => NativeModel::Null,
            NativeValue::Bytes(b) => NativeModel::Bytes(b@),
            NativeValue::Int(i) => NativeModel::Int(*i),
            NativeValue::UInt(u) => NativeModel::UInt(*u),
            NativeValue::Float(f) => NativeModel::Float(*f),
            NativeValue::Date(y, mo, d, h, mi, s, us) => NativeModel::Date(*y, *mo, *d, *h, *mi, *s, *us),
            NativeValue::Time(n, d, h, mi, s, us) => NativeModel::Time(*n, *d, *h, *mi, *s, *us),
        }
    }
}

/// The parameters of one query execution.
#[derive(Debug, PartialEq)]
pub enum Params {
    Empty,
    Positional(Vec<NativeValue>),
    Named(Vec<(String, NativeValue)>),
}

pub enum ParamsModel {
    Empty,
    Positional(Seq<NativeModel>),
    Named(Seq<(Seq<char>, NativeModel)>),
}

impl View for Params {
    type V = ParamsModel;

    open spec fn view(&self) -> ParamsModel {
        match self {
            Params::Empty => ParamsModel::Empty,
            Params::Positional(v) => ParamsModel::Positional(v@.map_values(|x: NativeValue| x@)),
            Params::Named(v) => ParamsModel::Named(
                v@.map_values(|p: (String, NativeValue)| (p.0@, p.1@)),
            ),
        }
    }
}

} // verus!
