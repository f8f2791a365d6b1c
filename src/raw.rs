//! The raw structural tree that a configuration loader hands over, before
//! any schema is applied.
use vstd::prelude::*;

verus! {

/// One node of an untyped configuration document.
#[derive(Debug)]
pub enum RawValue {
    Null,
    Bool(bool),
    Int(i64),
    Str(String),
    /// Any other scalar (a float, a date): no field of the schema takes one.
    Other,
    List(Vec<RawValue>),
    /// The keys of a table, with their values, in the order of the input.
    Table(Vec<(String, RawValue)>),
}

/// Whether `k` holds the same text as the literal `lit`.
pub(crate) fn key_is(k: &String, lit: &str) -> (r: bool)
    ensures
        r == (k@ == lit@),
{
    *k == lit.to_owned()
}

} // verus!
