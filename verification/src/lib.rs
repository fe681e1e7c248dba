//! A small library of console scenarios: each scenario maps a fixed input
//! (a flag, an enumerated variant, a record, or a tuple) to an exact set of
//! output lines, and every decision function carries a contract that pins
//! the text it produces.

pub mod choices;
pub mod coordinate;
pub mod decimal;
pub mod drink;
pub mod names;
pub mod runner;
pub mod text;
pub mod tuples;
