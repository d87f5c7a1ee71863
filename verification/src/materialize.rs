//! The row materializer: converts a native result row, presented as
//! plain column descriptors, into the generic row representation.
//!
//! The mapping table is fixed: character and document types become
//! `Varchar`, the narrow integer type widens to `Int`, the wider
//! integer types widen to `BigInt`, floating types keep their bit
//! pattern as `Double`, temporal types become `DateTime`, `bool`
//! becomes `Boolean`.  A column whose declared type is not in the
//! table, whose cell is absent, or whose cell does not fit its
//! declared type, materializes as an explicit `Null` entry, so the
//! column sequence and the value sequence stay in lockstep.

use crate::row::RdbcOrmRow;
use crate::value::RdbcValue;
use vstd::prelude::*;

verus! {

/// One native cell, already decoded to a plain carrier by the driver
/// boundary: text, an integer of the native width, a float's IEEE 754
/// bit pattern, a temporal value in microseconds since the epoch, a
/// boolean, or the absent value.
#[derive(Debug)]
pub enum NativeCell {
    /// The cell was SQL NULL.
    Absent,
    Text(String),
    I16(i16),
    I32(i32),
    I64(i64),
    F32Bits(u32),
    TimestampMicros(i64),
    Bool(bool),
}

/// One native column: its name, its declared type name as the backend
/// reports it, and its decoded cell.
#[derive(Debug)]
pub struct NativeColumn {
    pub name: String,
    pub col_type: String,
    pub cell: NativeCell,
}

/// The declared type names that materialize as `Varchar`.
pub open spec fn is_text_type(t: Seq<char>) -> bool {
    t == "text"@ || t == "varchar"@ || t == "char"@ || t == "json"@ || t == "xml"@
}

/// The declared type names that materialize as `DateTime`.
pub open spec fn is_temporal_type(t: Seq<char>) -> bool {
    t == "date"@ || t == "time"@ || t == "timestamp"@
}

/// The declared type names that materialize as `Double`.
pub open spec fn is_float_type(t: Seq<char>) -> bool {
    t == "float4"@ || t == "float8"@
}

/// The fixed column-type table: what one native cell materializes to
/// under its declared type name.
pub open spec fn materialize_cell_spec(col_type: Seq<char>, cell: NativeCell) -> RdbcValue {
    if is_text_type(col_type) {
        match cell {
            NativeCell::Text(s) => RdbcValue::Varchar(s),
            _ => RdbcValue::Null,
        }
    } else if col_type == "int2"@ {
        match cell {
            NativeCell::I16(v) => RdbcValue::Int(v as i32),
            _ => RdbcValue::Null,
        }
    } else if col_type == "int4"@ {
        match cell {
            NativeCell::I32(v) => RdbcValue::BigInt(v as i64),
            _ => RdbcValue::Null,
        }
    } else if col_type == "int8"@ {
        match cell {
            NativeCell::I64(v) => RdbcValue::BigInt(v),
            _ => RdbcValue::Null,
        }
    } else if is_float_type(col_type) {
        match cell {
            NativeCell::F32Bits(b) => RdbcValue::Double(b),
            _ => RdbcValue::Null,
        }
    } else if is_temporal_type(col_type) {
        match cell {
            NativeCell::TimestampMicros(t) => RdbcValue::DateTime(t),
            _ => RdbcValue::Null,
        }
    } else if col_type == "bool"@ {
        match cell {
            NativeCell::Bool(b) => RdbcValue::Boolean(b),
            _ => RdbcValue::Null,
        }
    } else {
        RdbcValue::Null
    }
}

/// Whether a generic row is the materialization of a native column
/// sequence: same length, same names in order, and every value is the
/// table's image of its native cell.
pub open spec fn row_matches_native(row: RdbcOrmRow, cols: Seq<NativeColumn>) -> bool {
    &&& row.wf()
    &&& row.columns@.len() == cols.len()
    &&& forall|i: int|
        0 <= i < cols.len() ==> (#[trigger] row.columns@[i])@ == cols[i].name@
    &&& forall|i: int|
        0 <= i < cols.len() ==> (#[trigger] row.data@[i]).1 == materialize_cell_spec(
            cols[i].col_type@,
            cols[i].cell,
        )
}

/// Compares an owned string with a literal.
fn str_eq(a: &String, b: &str) -> (r: bool)
    ensures
        r == (a@ == b@),
{
    let owned = String::from_str(b);
    *a == owned
}

/// Applies the fixed column-type table to one native cell.
pub fn materialize_cell(col_type: &String, cell: NativeCell) -> (v: RdbcValue)
    ensures
        v == materialize_cell_spec(col_type@, cell),
{
    if str_eq(col_type, "text") || str_eq(col_type, "varchar") || str_eq(col_type, "char")
        || str_eq(col_type, "json") || str_eq(col_type, "xml") {
        match cell {
            NativeCell::Text(s) => RdbcValue::Varchar(s),
            _ => RdbcValue::Null,
        }
    } else if str_eq(col_type, "int2") {
        match cell {
            NativeCell::I16(v) => RdbcValue::Int(v as i32),
            _ => RdbcValue::Null,
        }
    } else if str_eq(col_type, "int4") {
        match cell {
            NativeCell::I32(v) => RdbcValue::BigInt(v as i64),
            _ => RdbcValue::Null,
        }
    } else if str_eq(col_type, "int8") {
        match cell {
            NativeCell::I64(v) => RdbcValue::BigInt(v),
            _ => RdbcValue::Null,
        }
    } else if str_eq(col_type, "float4") || str_eq(col_type, "float8") {
        match cell {
            NativeCell::F32Bits(b) => RdbcValue::Double(b),
            _ => RdbcValue::Null,
        }
    } else if str_eq(col_type, "date") || str_eq(col_type, "time") || str_eq(
        col_type,
        "timestamp",
    ) {
        match cell {
            NativeCell::TimestampMicros(t) => RdbcValue::DateTime(t),
            _ => RdbcValue::Null,
        }
    } else if str_eq(col_type, "bool") {
        match cell {
            NativeCell::Bool(b) => RdbcValue::Boolean(b),
            _ => RdbcValue::Null,
        }
    } else {
        RdbcValue::Null
    }
}

impl RdbcOrmRow {
    /// Materializes one native row: every native column yields one
    /// column name and one value, per the fixed column-type table.
    pub fn from_native(cols: Vec<NativeColumn>) -> (r: RdbcOrmRow)
        ensures
            row_matches_native(r, cols@),
    {
        let ghost orig = cols@;
        let mut cols = cols;
        let mut row = RdbcOrmRow::new();
        while cols.len() > 0
            invariant
                row.columns@.len() + cols@.len() == orig.len(),
                cols@ == orig.subrange(row.columns@.len() as int, orig.len() as int),
                row.wf(),
                forall|i: int|
                    0 <= i < row.columns@.len() ==> (#[trigger] row.columns@[i])@ == orig[i].name@,
                forall|i: int|
                    0 <= i < row.columns@.len() ==> (#[trigger] row.data@[i]).1
                        == materialize_cell_spec(orig[i].col_type@, orig[i].cell),
            decreases cols@.len(),
        {
            let ghost k = row.columns@.len() as int;
            proof {
                assert(cols@[0] == orig[k]);
            }
            let col = cols.remove(0);
            proof {
                assert(col == orig[k]);
            }
            let value = materialize_cell(&col.col_type, col.cell);
            let ghost prev_data = row.data@;
            row.push_column(col.name, value);
            proof {
                assert forall|i: int| 0 <= i < k implies (#[trigger] row.data@[i]).1
                    == materialize_cell_spec(orig[i].col_type@, orig[i].cell) by {
                    assert(row.data@[i] == row.data@.drop_last()[i]);
                    assert(row.data@[i] == prev_data[i]);
                }
                assert(row.data@.last() == row.data@[k]);
            }
        }
        proof {
            assert(row.columns@.len() == orig.len());
        }
        row
    }
}

/// Materializes a sequence of native rows, one generic row each, in
/// order.
pub fn rows_from_native(rows: Vec<Vec<NativeColumn>>) -> (r: Vec<RdbcOrmRow>)
    ensures
        r@.len() == rows@.len(),
        forall|i: int| 0 <= i < rows@.len() ==> row_matches_native(#[trigger] r@[i], rows@[i]@),
{
    let ghost orig = rows@;
    let mut rows = rows;
    let mut out: Vec<RdbcOrmRow> = Vec::new();
    while rows.len() > 0
        invariant
            out@.len() + rows@.len() == orig.len(),
            rows@ == orig.subrange(out@.len() as int, orig.len() as int),
            forall|i: int|
                0 <= i < out@.len() ==> row_matches_native(#[trigger] out@[i], orig[i]@),
        decreases rows@.len(),
    {
        let ghost k = out@.len() as int;
        proof {
            assert(rows@[0] == orig[k]);
        }
        let native = rows.remove(0);
        let row = RdbcOrmRow::from_native(native);
        out.push(row);
    }
    out
}

} // verus!
