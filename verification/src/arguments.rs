//! Echoing the arguments a process was started with, program name excluded.

use vstd::prelude::*;

verus! {

/// Splits off the arguments after the program name. With nothing beyond
/// the program name there is nothing to echo and the result is `None`;
/// otherwise the result carries exactly the trailing arguments, in order.
pub fn echo_args(args: &Vec<String>) -> (out: Option<Vec<String>>)
    ensures
        args@.len() <= 1 ==> out is None,
        args@.len() > 1 ==> (out matches Some(tail) && tail@ == args@.subrange(
            1,
            args@.len() as int,
        )),
{
    if args.len() <= 1 {
        return None;
    }
    let mut tail: Vec<String> = Vec::new();
    let mut idx: usize = 1;
    while idx < args.len()
        invariant
            1 <= idx <= args@.len(),
            tail@ == args@.subrange(1, idx as int),
        decreases args@.len() - idx,
    {
        tail.push(args[idx].clone());
        proof {
            assert(args@.subrange(1, idx as int + 1) =~= args@.subrange(1, idx as int).push(
                args@[idx as int],
            ));
        }
        idx = idx + 1;
    }
    Some(tail)
}

} // verus!
