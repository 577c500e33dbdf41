//! Heap indirection: a value behind a single-owner box, and a text value
//! behind a reference-counted shared-ownership pointer. Either way the
//! value placed behind the indirection is exactly the value read back.

use vstd::prelude::*;
use std::rc::Rc;

verus! {

/// Puts an integer behind a single-owner heap allocation.
pub fn boxed_value(value: u64) -> (out: Box<u64>)
    ensures
        out == value,
{
    Box::new(value)
}

/// Puts a text value behind a single-owner heap allocation.
pub fn boxed_text(text: String) -> (out: Box<String>)
    ensures
        out == text,
{
    Box::new(text)
}

/// Puts a text value behind a reference-counted shared-ownership pointer.
pub fn shared_text(text: String) -> (out: Rc<String>)
    ensures
        out == text,
{
    Rc::new(text)
}

} // verus!
