//! The column values a relational row can carry.
//!
//! Rows travel between the store boundary and the entity decoders as slices
//! of these values; a column that was never set is `Null`, and the decoders
//! substitute an empty string or zero for an optional one.

use vstd::prelude::*;

verus! {

/// One cell of a fetched row.
#[derive(Clone, Debug, PartialEq)]
pub enum ColumnValue {
    Integer(i64),
    Text(String),
    Null,
}

/// `s` is the column's text, or empty where the column is not text.
pub open spec fn text_or_empty(c: ColumnValue, s: String) -> bool {
    match c {
        ColumnValue::Text(t) => s == t,
        _ => s@ == Seq::<char>::empty(),
    }
}

/// `n` is the column's integer, or zero where the column is not an integer.
pub open spec fn int_or_zero(c: ColumnValue, n: i64) -> bool {
    match c {
        ColumnValue::Integer(v) => n == v,
        _ => n == 0,
    }
}

/// A text column's value, or the empty string where the column is not text.
pub fn text_column(c: &ColumnValue) -> (r: String)
    ensures
        text_or_empty(*c, r),
{
    match c {
        ColumnValue::Text(s) => s.clone(),
        _ => String::new(),
    }
}

/// An integer column's value, or zero where the column is not an integer.
pub fn integer_column(c: &ColumnValue) -> (r: i64)
    ensures
        int_or_zero(*c, r),
{
    match c {
        ColumnValue::Integer(v) => *v,
        _ => 0,
    }
}

} // verus!
