//! The generic value: the common currency between driver-native cell values
//! and the serialization boundary.

use vstd::prelude::*;

verus! {

/// A JSON document as the driver hands it over. Its contents are not
/// inspected here: a document is carried through unchanged.
#[verifier::external_type_specification]
#[verifier::external_body]
pub struct ExJsonDocument(serde_json::Value);

/// `Clone::clone` of `serde_json::Value`. Trusted: the copy is the same
/// document.
pub assume_specification[ <serde_json::Value as Clone>::clone ](doc: &serde_json::Value) -> (copy:
    serde_json::Value)
    ensures
        copy == *doc,
;

/// A value of one of the JSON-compatible kinds.
///
/// A floating-point number is held as its IEEE 754 binary64 bit pattern.
#[derive(Debug, Clone, PartialEq)]
pub enum GenericValue {
    Null,
    Bool(bool),
    Integer(i64),
    Float(u64),
    Text(String),
    Structured(serde_json::Value),
}

/// The mathematical model of a [`GenericValue`].
pub enum GenericView {
    Null,
    Bool(bool),
    Integer(int),
    Float(u64),
    Text(Seq<char>),
    Structured(serde_json::Value),
}

impl View for GenericValue {
    type V = GenericView;

    open spec fn view(&self) -> GenericView {
        match *self {
            GenericValue::Null => GenericView::Null,
            GenericValue::Bool(b) => GenericView::Bool(b),
            GenericValue::Integer(n) => GenericView::Integer(n as int),
            GenericValue::Float(bits) => GenericView::Float(bits),
            GenericValue::Text(s) => GenericView::Text(s@),
            GenericValue::Structured(doc) => GenericView::Structured(doc),
        }
    }
}

/// The biased exponent field of a binary64 bit pattern.
pub open spec fn exponent_field(bits: u64) -> int {
    (bits as int / 0x10_0000_0000_0000) % 0x800
}

/// A binary64 bit pattern stands for a finite number unless its exponent
/// field is all ones (infinities and NaNs).
pub open spec fn is_finite_bits(bits: u64) -> bool {
    exponent_field(bits) != 0x7ff
}

/// Whether `bits` stands for a finite number.
pub fn float_is_finite(bits: u64) -> (finite: bool)
    ensures
        finite == is_finite_bits(bits),
{
    let exponent: u64 = (bits >> 52) & 0x7ff;
    assert(exponent == (bits / 0x10_0000_0000_0000) % 0x800) by (bit_vector)
        requires
            exponent == (bits >> 52) & 0x7ff,
    ;
    exponent != 0x7ff
}

/// The generic number for a binary64 bit pattern: the number itself when it
/// is finite, null otherwise, since JSON has no infinities or NaNs.
pub open spec fn float_value(bits: u64) -> GenericView {
    if is_finite_bits(bits) {
        GenericView::Float(bits)
    } else {
        GenericView::Null
    }
}

/// Turns a binary64 bit pattern into a generic value.
pub fn number_from_float(bits: u64) -> (v: GenericValue)
    ensures
        v@ == float_value(bits),
{
    if float_is_finite(bits) {
        GenericValue::Float(bits)
    } else {
        GenericValue::Null
    }
}

impl GenericValue {
    /// A value is well formed when a float in it is finite.
    pub open spec fn wf(&self) -> bool {
        match *self {
            GenericValue::Float(bits) => is_finite_bits(bits),
            _ => true,
        }
    }
}

} // verus!
