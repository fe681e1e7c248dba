//! The tuple scenario: fixed-arity tuples read by position and by
//! destructuring, printed as comma-separated pairs.

use vstd::prelude::*;
use crate::decimal::{i32_to_string, int_seq};

verus! {

/// An access level, carried alongside a name in a mixed-type tuple.
#[derive(Clone, Copy, PartialEq, Eq, Structural, Debug)]
pub enum Access {
    Full,
}

/// The fixed triple of the scenario.
pub fn one_two_three() -> (r: (i32, i32, i32))
    ensures
        r.0 == 1,
        r.1 == 2,
        r.2 == 3,
{
    (1, 2, 3)
}

/// A printed pair: the two values in decimal, separated by a comma and a
/// space.
pub open spec fn spec_pair_line(a: int, b: int) -> Seq<char> {
    int_seq(a) + ", "@ + int_seq(b)
}

/// Renders a pair of values as one line.
pub fn pair_line(a: i32, b: i32) -> (r: String)
    ensures
        r@ == spec_pair_line(a as int, b as int),
{
    let mut s = i32_to_string(a);
    s.append(", ");
    let second = i32_to_string(b);
    s.append(second.as_str());
    proof {
        assert(s@ =~= spec_pair_line(a as int, b as int));
    }
    s
}

} // verus!
