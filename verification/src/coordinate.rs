//! The coordinate scenario: a fixed cartesian point whose y-value is
//! classified against 5.

use vstd::prelude::*;

verus! {

/// The fixed cartesian coordinate of the scenario.
pub fn coordinate() -> (r: (i32, i32))
    ensures
        r.0 == 1,
        r.1 == 7,
{
    (1, 7)
}

/// The classification of a y-value against 5: ">5", "<5", or "=5".
pub open spec fn spec_y_message(y: int) -> Seq<char> {
    if y > 5 {
        ">5"@
    } else if y < 5 {
        "<5"@
    } else {
        "=5"@
    }
}

/// Classifies a y-value against 5.
pub fn y_message(y: i32) -> (r: String)
    ensures
        r@ == spec_y_message(y as int),
{
    if y > 5 {
        String::from_str(">5")
    } else if y < 5 {
        String::from_str("<5")
    } else {
        String::from_str("=5")
    }
}

} // verus!
