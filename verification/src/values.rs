//! The value codec: the tagged union over native SQL column values and its
//! lossy rendering into the generic structured value used in responses.
//!
//! A `Real` column is carried as the bit pattern of its 64-bit IEEE 754
//! representation, so that the verified logic never touches floating point;
//! the boundary code converts to and from the native representation.

use vstd::prelude::*;
use vstd::string::StringExecFns;

verus! {

/// A native SQL column value, as the embedded engine hands it out.
#[derive(Debug, Clone, PartialEq)]
pub enum SqlValue {
    Null,
    Integer(i64),
    /// The bit pattern of a 64-bit IEEE 754 floating-point value.
    Real(u64),
    Text(String),
    Blob(Vec<u8>),
}

/// The mathematical model of a `SqlValue`.
pub enum SqlValView {
    Null,
    Integer(i64),
    Real(u64),
    Text(Seq<char>),
    Blob(Seq<u8>),
}

impl View for SqlValue {
    type V = SqlValView;

    open spec fn view(&self) -> SqlValView {
        match self {
            SqlValue::Null => SqlValView::Null,
            SqlValue::Integer(i) => SqlValView::Integer(*i),
            SqlValue::Real(bits) => SqlValView::Real(*bits),
            SqlValue::Text(s) => SqlValView::Text(s@),
            SqlValue::Blob(b) => SqlValView::Blob(b@),
        }
    }
}

/// A generic structured value: what one cell of a result row becomes in a
/// response. Binary values never appear here verbatim; they are summarized
/// as text carrying only their byte length.
#[derive(Debug, Clone, PartialEq)]
pub enum ApiValue {
    Null,
    Int(i64),
    /// The bit pattern of a finite 64-bit IEEE 754 floating-point value.
    Float(u64),
    Text(String),
}

/// The mathematical model of an `ApiValue`.
pub enum ApiValView {
    Null,
    Int(i64),
    Float(u64),
    Text(Seq<char>),
}

impl View for ApiValue {
    type V = ApiValView;

    open spec fn view(&self) -> ApiValView {
        match self {
            ApiValue::Null => ApiValView::Null,
            ApiValue::Int(i) => ApiValView::Int(*i),
            ApiValue::Float(bits) => ApiValView::Float(*bits),
            ApiValue::Text(s) => ApiValView::Text(s@),
        }
    }
}

/// The views of a sequence of cells.
pub open spec fn cells_view(s: Seq<SqlValue>) -> Seq<SqlValView> {
    s.map_values(|c: SqlValue| c@)
}

/// The exponent mask of the 64-bit IEEE 754 format: a value is infinite or
/// not-a-number exactly when all exponent bits are set.
pub const F64_EXPONENT_MASK: u64 = 0x7ff0000000000000;

/// Whether the 64-bit IEEE 754 bit pattern denotes a finite number.
pub open spec fn f64_bits_finite(bits: u64) -> bool {
    bits & F64_EXPONENT_MASK != F64_EXPONENT_MASK
}

/// The decimal digit characters.
pub open spec fn digit_char(d: nat) -> char {
    if d == 0 {
        '0'
    } else if d == 1 {
        '1'
    } else if d == 2 {
        '2'
    } else if d == 3 {
        '3'
    } else if d == 4 {
        '4'
    } else if d == 5 {
        '5'
    } else if d == 6 {
        '6'
    } else if d == 7 {
        '7'
    } else if d == 8 {
        '8'
    } else {
        '9'
    }
}

/// The decimal rendering of a natural number, most significant digit first.
pub open spec fn dec_str(n: nat) -> Seq<char>
    decreases n,
{
    if n < 10 {
        seq![digit_char(n)]
    } else {
        dec_str(n / 10) + seq![digit_char(n % 10)]
    }
}

/// The one-character string for a decimal digit.
fn digit_str(d: u64) -> (r: &'static str)
    requires
        d < 10,
    ensures
        r@ =~= seq![digit_char(d as nat)],
{
    if d == 0 {
        proof { reveal_strlit("0"); }
        "0"
    } else if d == 1 {
        proof { reveal_strlit("1"); }
        "1"
    } else if d == 2 {
        proof { reveal_strlit("2"); }
        "2"
    } else if d == 3 {
        proof { reveal_strlit("3"); }
        "3"
    } else if d == 4 {
        proof { reveal_strlit("4"); }
        "4"
    } else if d == 5 {
        proof { reveal_strlit("5"); }
        "5"
    } else if d == 6 {
        proof { reveal_strlit("6"); }
        "6"
    } else if d == 7 {
        proof { reveal_strlit("7"); }
        "7"
    } else if d == 8 {
        proof { reveal_strlit("8"); }
        "8"
    } else {
        proof { reveal_strlit("9"); }
        "9"
    }
}

/// Renders a number in decimal.
pub fn u64_to_string(n: u64) -> (r: String)
    ensures
        r@ == dec_str(n as nat),
    decreases n,
{
    if n < 10 {
        let r = String::from_str(digit_str(n));
        assert(r@ =~= dec_str(n as nat));
        r
    } else {
        let mut r = u64_to_string(n / 10);
        r.append(digit_str(n % 10));
        assert(r@ =~= dec_str(n as nat));
        r
    }
}

/// The text that stands in for a binary value of `n` bytes.
pub open spec fn blob_placeholder(n: nat) -> Seq<char> {
    "<BLOB: "@ + dec_str(n) + " bytes>"@
}

/// Builds the placeholder text for a binary value of `n` bytes.
pub fn blob_text(n: usize) -> (r: String)
    ensures
        r@ == blob_placeholder(n as nat),
{
    let mut r = String::from_str("<BLOB: ");
    let digits = u64_to_string(n as u64);
    r.append(digits.as_str());
    r.append(" bytes>");
    assert(r@ =~= blob_placeholder(n as nat));
    r
}

/// How one SQL column value renders as a generic structured value: null,
/// integer and text pass through; a non-finite real falls back to the
/// numeric default zero; a binary value becomes its placeholder text.
pub open spec fn spec_encode_cell(c: SqlValView) -> ApiValView {
    match c {
        SqlValView::Null => ApiValView::Null,
        SqlValView::Integer(i) => ApiValView::Int(i),
        SqlValView::Real(bits) => if f64_bits_finite(bits) {
            ApiValView::Float(bits)
        } else {
            ApiValView::Int(0)
        },
        SqlValView::Text(s) => ApiValView::Text(s),
        SqlValView::Blob(b) => ApiValView::Text(blob_placeholder(b.len())),
    }
}

/// Converts one SQL column value into its generic structured value.
pub fn encode_value(c: SqlValue) -> (r: ApiValue)
    ensures
        r@ == spec_encode_cell(c@),
{
    match c {
        SqlValue::Null => ApiValue::Null,
        SqlValue::Integer(i) => ApiValue::Int(i),
        SqlValue::Real(bits) => {
            if bits & F64_EXPONENT_MASK != F64_EXPONENT_MASK {
                ApiValue::Float(bits)
            } else {
                ApiValue::Int(0)
            }
        },
        SqlValue::Text(s) => ApiValue::Text(s),
        SqlValue::Blob(b) => ApiValue::Text(blob_text(b.len())),
    }
}

} // verus!
