//! Scenarios whose decision is a single branch on a flag or an enumerated
//! variant: the threshold flag, the greeting, the direction, and the color.

use vstd::prelude::*;

verus! {

/// Whether a value lies strictly above the threshold of 100.
pub fn is_big(value: i32) -> (r: bool)
    ensures
        r == (value > 100),
{
    value > 100
}

/// The message for the threshold flag: "it's big" above the threshold,
/// "it's small" at or below it.
pub open spec fn spec_size_message(gt_100: bool) -> Seq<char> {
    if gt_100 {
        "it's big"@
    } else {
        "it's small"@
    }
}

/// Picks the size message for the threshold flag.
pub fn size_message(gt_100: bool) -> (r: String)
    ensures
        r@ == spec_size_message(gt_100),
{
    match gt_100 {
        true => String::from_str("it's big"),
        false => String::from_str("it's small"),
    }
}

/// The greeting: "hello" for true, "goodbye" for false.
pub open spec fn spec_greeting(flag: bool) -> Seq<char> {
    if flag {
        "hello"@
    } else {
        "goodbye"@
    }
}

/// Picks the greeting for a flag.
pub fn greeting(flag: bool) -> (r: String)
    ensures
        r@ == spec_greeting(flag),
{
    if flag {
        String::from_str("hello")
    } else {
        String::from_str("goodbye")
    }
}

/// A direction to move in.
#[derive(Clone, Copy, PartialEq, Eq, Structural, Debug)]
pub enum Direction {
    Left,
    Right,
}

/// The message for each direction.
pub open spec fn spec_direction_message(d: Direction) -> Seq<char> {
    match d {
        Direction::Left => "go left"@,
        Direction::Right => "go right"@,
    }
}

/// Picks the message for a direction.
pub fn direction_message(d: Direction) -> (r: String)
    ensures
        r@ == spec_direction_message(d),
{
    match d {
        Direction::Left => String::from_str("go left"),
        Direction::Right => String::from_str("go right"),
    }
}

/// A color.
#[derive(Clone, Copy, PartialEq, Eq, Structural, Debug)]
pub enum Color {
    Red,
    Yellow,
    Blue,
}

/// The name of each color.
pub open spec fn spec_color_name(c: Color) -> Seq<char> {
    match c {
        Color::Red => "red"@,
        Color::Yellow => "yellow"@,
        Color::Blue => "blue"@,
    }
}

/// Picks the name of a color.
pub fn color_name(c: Color) -> (r: String)
    ensures
        r@ == spec_color_name(c),
{
    match c {
        Color::Red => String::from_str("red"),
        Color::Yellow => String::from_str("yellow"),
        Color::Blue => String::from_str("blue"),
    }
}

} // verus!
