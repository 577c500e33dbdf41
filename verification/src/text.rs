//! Measuring and composing text values through read-only references.

use vstd::prelude::*;
use vstd::string::StrSliceExecFns;
use vstd::string::StringExecFns;

verus! {

/// Counts the characters of a text value through a shared reference.
///
/// The caller keeps ownership: the argument is only borrowed, so the
/// original value stays valid and unchanged after the call.
pub fn calculate_length(s: &String) -> (len: usize)
    ensures
        len == s@.len(),
{
    s.as_str().unicode_len()
}

/// Builds the fixed-prefix announcement around a caller-supplied text,
/// the runtime equivalent of a compile-time text substitution.
pub fn custom_message(msg: &str) -> (out: String)
    ensures
        out@ == "Custom macro says: "@ + msg@,
{
    let prefix = String::from_str("Custom macro says: ");
    prefix.concat(msg)
}

} // verus!
