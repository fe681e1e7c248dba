//! The drink record scenario: a flavor paired with a fluid-ounce measurement,
//! printed as two lines.

use vstd::prelude::*;
use crate::decimal::{dec_seq, u64_to_string};

verus! {

/// A drink flavor.
#[derive(Clone, Copy, PartialEq, Eq, Structural, Debug)]
pub enum Flavor {
    Sparking,
    Sweet,
    Fruity,
}

/// A drink: a flavor together with its fluid ounces, measured in tenths of
/// an ounce so that the one decimal place printed is exact.
#[derive(Clone, Copy, PartialEq, Eq, Structural, Debug)]
pub struct Drink {
    pub flavor: Flavor,
    pub tenths_oz: u64,
}

/// The flavor line for each flavor.
pub open spec fn spec_flavor_line(f: Flavor) -> Seq<char> {
    match f {
        Flavor::Sparking => "flavor: sparking"@,
        Flavor::Sweet => "flavor: sweet"@,
        Flavor::Fruity => "flavor: fruity"@,
    }
}

/// The ounce line: the whole ounces, a point, and the tenths digit.
pub open spec fn spec_oz_line(tenths: nat) -> Seq<char> {
    "OZ: "@ + dec_seq(tenths / 10) + "."@ + dec_seq(tenths % 10)
}

/// Picks the flavor line of a drink.
pub fn flavor_line(f: Flavor) -> (r: String)
    ensures
        r@ == spec_flavor_line(f),
{
    match f {
        Flavor::Sparking => String::from_str("flavor: sparking"),
        Flavor::Sweet => String::from_str("flavor: sweet"),
        Flavor::Fruity => String::from_str("flavor: fruity"),
    }
}

/// Renders the ounce line for a measurement in tenths of an ounce.
pub fn oz_line(tenths: u64) -> (r: String)
    ensures
        r@ == spec_oz_line(tenths as nat),
{
    let mut s = String::from_str("OZ: ");
    let whole = u64_to_string(tenths / 10);
    s.append(whole.as_str());
    s.append(".");
    let frac = u64_to_string(tenths % 10);
    s.append(frac.as_str());
    proof {
        assert(s@ =~= spec_oz_line(tenths as nat));
    }
    s
}

/// The two output lines of a drink: its flavor line, then its ounce line.
pub fn drink_lines(d: &Drink) -> (r: Vec<String>)
    ensures
        r@.len() == 2,
        r@[0]@ == spec_flavor_line(d.flavor),
        r@[1]@ == spec_oz_line(d.tenths_oz as nat),
{
    let mut lines: Vec<String> = Vec::new();
    lines.push(flavor_line(d.flavor));
    lines.push(oz_line(d.tenths_oz));
    lines
}

} // verus!
