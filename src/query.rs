use vstd::prelude::*;
use vstd::string::*;

use crate::codec::{encode_cell, encode_model};
use crate::json::{array_of, object_of, Json, JsonModel};
use crate::native::NativeValue;

verus! {

/// One cell of a result row, with the metadata of its column.
#[derive(Debug, PartialEq)]
pub struct Cell {
    pub value: NativeValue,
    /// The column's MySQL type code.
    pub column_type: u8,
    /// Whether the column is flagged binary.
    pub binary: bool,
}

/// A row encoded cell by cell, in column order.
pub open spec fn row_model(row: Seq<Cell>) -> JsonModel {
    JsonModel::Array(row.map_values(|c: Cell| encode_model(c.value@, c.column_type, c.binary)))
}

/// The result of a query that ran: `{status: "ok", affected, rows}`.
pub open spec fn ok_model(affected: u64, rows: Seq<Vec<Cell>>) -> JsonModel {
    JsonModel::Object(
        seq![
            ("status"@, JsonModel::Str("ok"@)),
            ("affected"@, JsonModel::UInt(affected)),
            ("rows"@, JsonModel::Array(rows.map_values(|r: Vec<Cell>| row_model(r@)))),
        ],
    )
}

/// Encodes every cell of a row, in column order.
pub fn encode_row(row: &Vec<Cell>) -> (r: Json)
    ensures
        r@ == row_model(row@),
{
    let mut out: Vec<Json> = Vec::new();
    let mut i: usize = 0;
    while i < row.len()
        invariant
            i <= row@.len(),
            out@.len() == i,
            forall|k: int|
                0 <= k < i ==> (#[trigger] out@[k])@ == encode_model(
                    row@[k].value@,
                    row@[k].column_type,
                    row@[k].binary,
                ),
        decreases row@.len() - i,
    {
        let c = &row[i];
        out.push(encode_cell(&c.value, c.column_type, c.binary));
        i = i + 1;
    }
    let r = array_of(out);
    assert(out@.map_values(|j: Json| j@) =~= row@.map_values(
        |c: Cell| encode_model(c.value@, c.column_type, c.binary),
    ));
    r
}

/// Builds the result of a query that ran, from its affected-row count and its
/// rows as they came.
pub fn query_result(affected: u64, rows: &Vec<Vec<Cell>>) -> (r: Json)
    ensures
        r@ == ok_model(affected, rows@),
{
    let mut encoded: Vec<Json> = Vec::new();
    let mut i: usize = 0;
    while i < rows.len()
        invariant
            i <= rows@.len(),
            encoded@.len() == i,
            forall|k: int| 0 <= k < i ==> (#[trigger] encoded@[k])@ == row_model(rows@[k]@),
        decreases rows@.len() - i,
    {
        encoded.push(encode_row(&rows[i]));
        i = i + 1;
    }
    let ghost m = encoded@.map_values(|j: Json| j@);
    assert(m =~= rows@.map_values(|r: Vec<Cell>| row_model(r@)));
    let rows_json = array_of(encoded);
    let mut fields: Vec<(String, Json)> = Vec::new();
    fields.push((String::from_str("status"), Json::Str(String::from_str("ok"))));
    fields.push((String::from_str("affected"), Json::UInt(affected)));
    fields.push((String::from_str("rows"), rows_json));
    let r = object_of(fields);
    assert(fields@.map_values(|p: (String, Json)| (p.0@, p.1@)) =~= seq![
        ("status"@, JsonModel::Str("ok"@)),
        ("affected"@, JsonModel::UInt(affected)),
        ("rows"@, JsonModel::Array(rows@.map_values(|r: Vec<Cell>| row_model(r@)))),
    ]);
    r
}

} // verus!
