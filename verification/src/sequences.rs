//! Order-preserving transformations of integer sequences: doubling every
//! element, and keeping only the even ones.

use vstd::prelude::*;

verus! {

/// Whether an integer is divisible by two.
pub open spec fn is_even(x: i64) -> bool {
    x % 2 == 0
}

/// The subsequence of even elements, in their original relative order.
pub open spec fn evens_of(s: Seq<i64>) -> Seq<i64>
    decreases s.len(),
{
    if s.len() == 0 {
        Seq::empty()
    } else {
        let rest = evens_of(s.drop_last());
        if is_even(s.last()) {
            rest.push(s.last())
        } else {
            rest
        }
    }
}

/// Doubles every element of the input, preserving order and length.
pub fn double_all(v: &Vec<i64>) -> (out: Vec<i64>)
    requires
        forall|i: int| 0 <= i < v@.len() ==> i64::MIN / 2 <= #[trigger] v@[i] <= i64::MAX / 2,
    ensures
        out@.len() == v@.len(),
        forall|i: int| 0 <= i < v@.len() ==> out@[i] == 2 * v@[i],
{
    let mut out: Vec<i64> = Vec::new();
    let mut idx: usize = 0;
    while idx < v.len()
        invariant
            idx <= v@.len(),
            out@.len() == idx,
            forall|i: int| 0 <= i < idx ==> out@[i] == 2 * v@[i],
            forall|i: int| 0 <= i < v@.len() ==> i64::MIN / 2 <= #[trigger] v@[i] <= i64::MAX / 2,
        decreases v@.len() - idx,
    {
        out.push(2 * v[idx]);
        idx = idx + 1;
    }
    out
}

/// Keeps exactly the even elements of the input, in their original
/// relative order.
pub fn filter_even(v: &Vec<i64>) -> (out: Vec<i64>)
    ensures
        out@ == evens_of(v@),
{
    let mut out: Vec<i64> = Vec::new();
    let mut idx: usize = 0;
    while idx < v.len()
        invariant
            idx <= v@.len(),
            out@ == evens_of(v@.take(idx as int)),
        decreases v@.len() - idx,
    {
        let x = v[idx];
        if x % 2 == 0 {
            out.push(x);
        }
        proof {
            let taken = v@.take(idx as int + 1);
            assert(taken.drop_last() =~= v@.take(idx as int));
            assert(taken.last() == v@[idx as int]);
        }
        idx = idx + 1;
    }
    proof {
        assert(v@.take(v@.len() as int) =~= v@);
    }
    out
}

} // verus!
