//! The mathematical model of one payment-method field: a type tag and
//! an optional value, as both parsers extract it.
use vstd::prelude::*;

use crate::json::{jstr_opt, jstr_or, JsonVal};

verus! {

/// One payment-method field, as a pair of plain values.
pub ghost struct FieldModel {
    pub field_type: Seq<char>,
    pub field_value: Option<Seq<char>>,
}

/// The field extracted from one entry of a `fields` array: the type tag
/// degrades to an empty string, the value to absent.
pub open spec fn field_of_item(f: JsonVal) -> FieldModel {
    FieldModel {
        field_type: jstr_or(f, "fieldContentType"@, Seq::<char>::empty()),
        field_value: jstr_opt(f, "fieldValue"@),
    }
}

} // verus!
