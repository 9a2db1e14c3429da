//! The two conversions between structured values and what the engine
//! takes and gives: a value becomes a bind parameter, a cell becomes a value.

use crate::text::{canonical_text, to_text};
use crate::value::{JsonModel, JsonNumber, JsonValue, NumberModel};
use vstd::prelude::*;
use vstd::utf8::{decode_utf8, valid_utf8};

verus! {

/// A value for one placeholder of a statement, in a type of the engine.
#[derive(Debug, PartialEq)]
pub enum BindParameter {
    Null,
    Bool(bool),
    Integer(i64),
    Real(serde_json::Number),
    Text(String),
}

/// What a bind parameter is.
pub enum ParameterModel {
    Null,
    Bool(bool),
    Integer(int),
    Real(serde_json::Number),
    Text(Seq<char>),
}

/// One cell of a result row, as the engine holds it. A real cell has its
/// number unless that is an infinity or not a number at all.
#[derive(Debug, PartialEq)]
pub enum NativeCell {
    Null,
    Integer(i64),
    Real(Option<serde_json::Number>),
    Text(Vec<u8>),
    Blob(Vec<u8>),
}

/// What a cell is.
pub enum CellModel {
    Null,
    Integer(int),
    Real(Option<serde_json::Number>),
    Text(Seq<u8>),
    Blob(Seq<u8>),
}

impl BindParameter {
    pub open spec fn model(&self) -> ParameterModel {
        match self {
            BindParameter::Null => ParameterModel::Null,
            BindParameter::Bool(b) => ParameterModel::Bool(*b),
            BindParameter::Integer(i) => ParameterModel::Integer(*i as int),
            BindParameter::Real(n) => ParameterModel::Real(*n),
            BindParameter::Text(s) => ParameterModel::Text(s@),
        }
    }
}

impl NativeCell {
    pub open spec fn model(&self) -> CellModel {
        match self {
            NativeCell::Null => CellModel::Null,
            NativeCell::Integer(i) => CellModel::Integer(*i as int),
            NativeCell::Real(n) => CellModel::Real(*n),
            NativeCell::Text(bytes) => CellModel::Text(bytes@),
            NativeCell::Blob(bytes) => CellModel::Blob(bytes@),
        }
    }

    /// A blob is short enough for its base64 text to have a length: as
    /// long as memory can hold, it is.
    pub open spec fn fits(&self) -> bool {
        match self {
            NativeCell::Blob(bytes) => bytes@.len() <= isize::MAX,
            _ => true,
        }
    }
}

/// The text that `String::from_utf8_lossy` decodes from bytes.
pub uninterp spec fn lossy_text(bytes: Seq<u8>) -> Seq<char>;

/// The text in which the standard base64 alphabet, with padding, encodes
/// bytes.
pub uninterp spec fn base64_text(bytes: Seq<u8>) -> Seq<char>;

/// Wraps `String::from_utf8_lossy` of std: the bytes as text, with the
/// replacement character where they are not UTF-8. Bytes that are UTF-8
/// come out as the text that they encode.
#[verifier::external_body]
fn decode_lossy(bytes: &Vec<u8>) -> (r: String)
    ensures
        r@ == lossy_text(bytes@),
        valid_utf8(bytes@) ==> r@ == decode_utf8(bytes@),
{
    String::from_utf8_lossy(bytes).into_owned()
}

/// Wraps `encode` of `base64::engine::general_purpose::STANDARD`, which
/// panics where the length of the text would not fit in `usize`.
#[verifier::external_body]
fn encode_base64(bytes: &Vec<u8>) -> (r: String)
    requires
        bytes@.len() <= isize::MAX,
    ensures
        r@ == base64_text(bytes@),
{
    base64::Engine::encode(&base64::engine::general_purpose::STANDARD, bytes)
}

/// The integer that the 64 bits of `i` are when read as a signed number:
/// from 2^63 up, an integer loses 2^64.
pub open spec fn as_signed(i: int) -> int {
    if i > i64::MAX {
        i - 0x1_0000_0000_0000_0000
    } else {
        i
    }
}

/// The bind parameter that a structured value becomes.
///
/// Null, booleans and texts go over as they are. An integer is bound as a
/// signed integer of 64 bits, another number as a real. An array or an
/// object is bound as its canonical text.
pub open spec fn parameter_of(v: JsonModel) -> ParameterModel {
    match v {
        JsonModel::Null => ParameterModel::Null,
        JsonModel::Bool(b) => ParameterModel::Bool(b),
        JsonModel::Number(NumberModel::Int(i)) => ParameterModel::Integer(as_signed(i)),
        JsonModel::Number(NumberModel::Float(n)) => ParameterModel::Real(n),
        JsonModel::String(s) => ParameterModel::Text(s),
        JsonModel::Array(_) => ParameterModel::Text(canonical_text(v)),
        JsonModel::Object(_) => ParameterModel::Text(canonical_text(v)),
    }
}

/// The structured value that a cell becomes.
///
/// A real that is not finite becomes null. Text is decoded leniently, a
/// blob is written in base64.
pub open spec fn value_of(c: CellModel) -> JsonModel {
    match c {
        CellModel::Null => JsonModel::Null,
        CellModel::Integer(i) => JsonModel::Number(NumberModel::Int(i)),
        CellModel::Real(Some(n)) => JsonModel::Number(NumberModel::Float(n)),
        CellModel::Real(None) => JsonModel::Null,
        CellModel::Text(bytes) => JsonModel::String(lossy_text(bytes)),
        CellModel::Blob(bytes) => JsonModel::String(base64_text(bytes)),
    }
}

/// Converts a structured value to the parameter that is bound for it.
pub fn json_value_to_sql(value: &JsonValue) -> (r: BindParameter)
    ensures
        r.model() == parameter_of(value.model()),
{
    match value {
        JsonValue::Null => BindParameter::Null,
        JsonValue::Bool(b) => BindParameter::Bool(*b),
        JsonValue::Number(n) => match n {
            JsonNumber::PosInt(u) => {
                if *u <= 0x7fff_ffff_ffff_ffff {
                    BindParameter::Integer(*u as i64)
                } else {
                    let low: i64 = (*u - 0x8000_0000_0000_0000) as i64;
                    BindParameter::Integer(low + i64::MIN)
                }
            },
            JsonNumber::NegInt(i) => BindParameter::Integer(*i),
            JsonNumber::Float(f) => BindParameter::Real(f.clone()),
        },
        JsonValue::String(s) => BindParameter::Text(s.clone()),
        JsonValue::Array(_) => BindParameter::Text(to_text(value)),
        JsonValue::Object(_) => BindParameter::Text(to_text(value)),
    }
}

/// Converts a cell of a result row to a structured value. Text that is
/// UTF-8 comes back as the text that its bytes encode.
pub fn from_cell(cell: &NativeCell) -> (r: JsonValue)
    requires
        cell.fits(),
    ensures
        r.model() == value_of(cell.model()),
        cell matches NativeCell::Text(bytes) ==> (valid_utf8(bytes@) ==> r.model()
            == JsonModel::String(decode_utf8(bytes@))),
{
    match cell {
        NativeCell::Null => JsonValue::Null,
        NativeCell::Integer(i) => JsonValue::from_i64(*i),
        NativeCell::Real(Some(n)) => JsonValue::Number(JsonNumber::Float(n.clone())),
        NativeCell::Real(None) => JsonValue::Null,
        NativeCell::Text(bytes) => JsonValue::String(decode_lossy(bytes)),
        NativeCell::Blob(bytes) => JsonValue::String(encode_base64(bytes)),
    }
}

} // verus!
