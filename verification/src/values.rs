//! The value mapper: engine-native result cells become values of a uniform,
//! JSON-compatible model. The mapping is total over the supported native
//! kinds and deliberately lossy for binary data and non-finite numbers.
//!
//! Floating-point cells are carried as the IEEE-754 bit pattern of the
//! engine's double, so that the mapping itself stays within integer
//! arithmetic; the surrounding plumbing converts bits to numbers at the
//! boundary.

use vstd::prelude::*;

verus! {

/// One engine-native result cell, as handed over by the execution layer:
/// the engine's null, integer, double (as its bit pattern), text (raw
/// bytes), blob, or any other native kind.
#[derive(Debug, Clone, PartialEq, Eq)]
pub enum NativeCell {
    Null,
    Int(i64),
    Real(u64),
    Text(Vec<u8>),
    Blob(Vec<u8>),
    Other,
}

/// Ghost model of a native cell.
pub enum CellModel {
    Null,
    Int(int),
    Real(u64),
    Text(Seq<u8>),
    Blob(Seq<u8>),
    Other,
}

impl View for NativeCell {
    type V = CellModel;

    open spec fn view(&self) -> CellModel {
        match self {
            NativeCell::Null => CellModel::Null,
            NativeCell::Int(n) => CellModel::Int(*n as int),
            NativeCell::Real(b) => CellModel::Real(*b),
            NativeCell::Text(bytes) => CellModel::Text(bytes@),
            NativeCell::Blob(bytes) => CellModel::Blob(bytes@),
            NativeCell::Other => CellModel::Other,
        }
    }
}

/// One generic value: null, integer, finite double (as its bit pattern),
/// or text. Binary and unknown native kinds arrive here as placeholder text.
#[derive(Debug, Clone, PartialEq, Eq)]
pub enum DataValue {
    Null,
    Integer(i64),
    Float(u64),
    Text(String),
}

/// Ghost model of a generic value.
pub enum ValueModel {
    Null,
    Integer(int),
    Float(u64),
    Text(Seq<char>),
}

impl View for DataValue {
    type V = ValueModel;

    open spec fn view(&self) -> ValueModel {
        match self {
            DataValue::Null => ValueModel::Null,
            DataValue::Integer(n) => ValueModel::Integer(*n as int),
            DataValue::Float(b) => ValueModel::Float(*b),
            DataValue::Text(s) => ValueModel::Text(s@),
        }
    }
}

/// Whether a value is numeric (an integer or a finite double).
pub open spec fn numeric_value(v: ValueModel) -> bool {
    v is Integer || v is Float
}

/// Whether the bit pattern encodes a finite double: the exponent field is
/// not all ones (which would mean an infinity or a NaN).
pub open spec fn finite_bits(b: u64) -> bool {
    (b >> 52) & 0x7ff != 0x7ff
}

/// What `String::from_utf8_lossy` decodes the bytes to; the result depends
/// on the bytes alone.
pub uninterp spec fn lossy_decoded(bytes: Seq<u8>) -> Seq<char>;

/// Relies on `String::from_utf8_lossy`: a pure function of the bytes that
/// decodes UTF-8 and replaces every invalid sequence with U+FFFD, so an
/// empty input stays empty.
#[verifier::external_body]
fn lossy_text(bytes: &[u8]) -> (r: String)
    ensures
        r@ == lossy_decoded(bytes@),
        bytes@.len() == 0 ==> r@.len() == 0,
{
    String::from_utf8_lossy(bytes).into_owned()
}

/// The mapping from a native cell to its generic value: null and integers
/// pass through, a non-finite double collapses to the integer zero, text
/// is decoded leniently, and blobs and unknown kinds become placeholders.
pub open spec fn map_cell_model(c: CellModel) -> ValueModel {
    match c {
        CellModel::Null => ValueModel::Null,
        CellModel::Int(n) => ValueModel::Integer(n),
        CellModel::Real(b) => if finite_bits(b) {
            ValueModel::Float(b)
        } else {
            ValueModel::Integer(0)
        },
        CellModel::Text(bytes) => ValueModel::Text(lossy_decoded(bytes)),
        CellModel::Blob(_) => ValueModel::Text("BLOB"@),
        CellModel::Other => ValueModel::Text("UNKNOWN"@),
    }
}

/// Map one engine-native cell into the generic value model.
pub fn map_cell(c: &NativeCell) -> (r: DataValue)
    ensures
        r@ == map_cell_model(c@),
{
    match c {
        NativeCell::Null => DataValue::Null,
        NativeCell::Int(n) => DataValue::Integer(*n),
        NativeCell::Real(b) => {
            let bits: u64 = *b;
            if (bits >> 52) & 0x7ff != 0x7ff {
                DataValue::Float(bits)
            } else {
                DataValue::Integer(0)
            }
        },
        NativeCell::Text(bytes) => DataValue::Text(lossy_text(bytes.as_slice())),
        NativeCell::Blob(_) => DataValue::Text(String::from_str("BLOB")),
        NativeCell::Other => DataValue::Text(String::from_str("UNKNOWN")),
    }
}

/// Map every cell of one native row, preserving order and length.
pub fn map_row(row: &Vec<NativeCell>) -> (r: Vec<DataValue>)
    ensures
        r@.len() == row@.len(),
        forall|j: int| 0 <= j < row@.len() ==> #[trigger] r@[j]@ == map_cell_model(row@[j]@),
{
    let mut out: Vec<DataValue> = Vec::new();
    let mut j: usize = 0;
    while j < row.len()
        invariant
            j <= row@.len(),
            out@.len() == j,
            forall|k: int| 0 <= k < j ==> #[trigger] out@[k]@ == map_cell_model(row@[k]@),
        decreases row@.len() - j,
    {
        out.push(map_cell(&row[j]));
        j += 1;
    }
    out
}

} // verus!
