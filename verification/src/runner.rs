//! The runner: each scenario pairs a fixed input with its decision function,
//! and `run` produces the exact output lines of that scenario.

use vstd::prelude::*;
use crate::choices::{
    greeting, is_big, size_message, color_name, direction_message, Color, Direction,
};
use crate::coordinate::{coordinate, y_message};
use crate::drink::{drink_lines, Drink, Flavor};
use crate::names::name_reply;
use crate::tuples::{one_two_three, pair_line, Access};

verus! {

broadcast use vstd::string::group_string_axioms;

/// One self-contained scenario: a fixed input and the decision function
/// that maps it to console messages.
#[derive(Clone, Copy, PartialEq, Eq, Structural, Debug)]
pub enum Scenario {
    Threshold,
    Greeting,
    Direction,
    Color,
    Drink,
    Coordinate,
    NameMatch,
    Tuples,
}

/// The exact output lines of each scenario.
pub open spec fn spec_run(s: Scenario) -> Seq<Seq<char>> {
    match s {
        Scenario::Threshold => seq!["it's small"@],
        Scenario::Greeting => seq!["hello"@],
        Scenario::Direction => seq!["go left"@],
        Scenario::Color => seq!["blue"@],
        Scenario::Drink => seq![
            "flavor: sweet"@,
            "OZ: 6.0"@,
            "flavor: fruity"@,
            "OZ: 7.0"@,
        ],
        Scenario::Coordinate => seq![">5"@],
        Scenario::NameMatch => seq!["not my name"@],
        Scenario::Tuples => seq!["1, 1"@, "2, 2"@, "3, 3"@, "2, 3"@, "2, 3"@],
    }
}

/// Runs one scenario on its fixed input and returns its output lines.
pub fn run(s: Scenario) -> (r: Vec<String>)
    ensures
        r.deep_view() == spec_run(s),
{
    let mut lines: Vec<String> = Vec::new();
    match s {
        Scenario::Threshold => {
            let value: i32 = 100;
            let gt_100 = is_big(value);
            lines.push(size_message(gt_100));
        },
        Scenario::Greeting => {
            let flag = true;
            lines.push(greeting(flag));
        },
        Scenario::Direction => {
            let go = Direction::Left;
            lines.push(direction_message(go));
        },
        Scenario::Color => {
            lines.push(color_name(Color::Blue));
        },
        Scenario::Drink => {
            let sweet = Drink { flavor: Flavor::Sweet, tenths_oz: 60 };
            let mut sweet_lines = drink_lines(&sweet);
            lines.append(&mut sweet_lines);
            let fruity = Drink { flavor: Flavor::Fruity, tenths_oz: 70 };
            let mut fruity_lines = drink_lines(&fruity);
            lines.append(&mut fruity_lines);
            proof {
                reveal_strlit("OZ: ");
                reveal_strlit(".");
                reveal_strlit("OZ: 6.0");
                reveal_strlit("OZ: 7.0");
                assert(crate::drink::spec_oz_line(60) =~= "OZ: 6.0"@);
                assert(crate::drink::spec_oz_line(70) =~= "OZ: 7.0"@);
                assert(lines.deep_view() =~~= spec_run(s));
            }
        },
        Scenario::Coordinate => {
            let point: (i32, i32) = coordinate();
            lines.push(y_message(point.1));
        },
        Scenario::NameMatch => {
            let my_name = "Bob";
            lines.push(name_reply(my_name));
            proof {
                reveal_strlit("Bob");
                reveal_strlit("Jayson");
                assert("Bob"@ != "Jayson"@) by {
                    assert("Bob"@.len() == 3);
                    assert("Jayson"@.len() == 6);
                }
                assert(lines.deep_view() =~~= spec_run(s));
            }
        },
        Scenario::Tuples => {
            let numbers: (i32, i32, i32) = one_two_three();
            let (x, y, z): (i32, i32, i32) = one_two_three();
            lines.push(pair_line(x, numbers.0));
            lines.push(pair_line(y, numbers.1));
            lines.push(pair_line(z, numbers.2));
            // a tuple may mix types: a name beside an access level
            let (_employee, _access): (&str, Access) = ("Jake", Access::Full);
            let coord: (i32, i32) = (2, 3);
            lines.push(pair_line(coord.0, coord.1));
            let (cx, cy): (i32, i32) = (2, 3);
            lines.push(pair_line(cx, cy));
            proof {
                reveal_strlit(", ");
                reveal_strlit("1, 1");
                reveal_strlit("2, 2");
                reveal_strlit("3, 3");
                reveal_strlit("2, 3");
                assert(crate::tuples::spec_pair_line(1, 1) =~= "1, 1"@);
                assert(crate::tuples::spec_pair_line(2, 2) =~= "2, 2"@);
                assert(crate::tuples::spec_pair_line(3, 3) =~= "3, 3"@);
                assert(crate::tuples::spec_pair_line(2, 3) =~= "2, 3"@);
                assert(lines.deep_view() =~~= spec_run(s));
            }
        },
    }
    proof {
        assert(lines.deep_view() =~~= spec_run(s));
    }
    lines
}

/// Re-running a scenario changes nothing: any two line lists that satisfy
/// `run`'s contract for the same scenario are identical.
pub proof fn lemma_run_deterministic(s: Scenario, r1: Seq<Seq<char>>, r2: Seq<Seq<char>>)
    requires
        r1 == spec_run(s),
        r2 == spec_run(s),
    ensures
        r1 == r2,
{
}

} // verus!
