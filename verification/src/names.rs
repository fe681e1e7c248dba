//! The name-matching scenario: an ordered list of known names, checked
//! top to bottom, with a mandatory fallback for any unmatched name.

use vstd::prelude::*;
use crate::text::str_eq;

verus! {

/// The reply for a name: the known names are checked in order, and any
/// other name reaches the fallback reply.
pub open spec fn spec_name_reply(name: Seq<char>) -> Seq<char> {
    if name == "Jayson"@ {
        "that is my name"@
    } else if name == "Bob"@ {
        "not my name"@
    } else if name == "Alice"@ {
        "hello alice"@
    } else {
        "nice to meet you!"@
    }
}

/// Picks the reply for a name.
pub fn name_reply(name: &str) -> (r: String)
    ensures
        r@ == spec_name_reply(name@),
{
    if str_eq(name, "Jayson") {
        String::from_str("that is my name")
    } else if str_eq(name, "Bob") {
        String::from_str("not my name")
    } else if str_eq(name, "Alice") {
        String::from_str("hello alice")
    } else {
        String::from_str("nice to meet you!")
    }
}

} // verus!
