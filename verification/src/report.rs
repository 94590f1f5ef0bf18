//! The text line that reports one measurement.

use crate::input_register::{generate_input_register, InputRegister};
use vstd::prelude::*;

verus! {

/// The line for a measurement: its label, the word "is" between single
/// spaces, the value directly followed by the unit symbol, and one trailing
/// space. The line holds no line break.
pub open spec fn spec_line(name: Seq<char>, value: Seq<char>, unit_symbol: Seq<char>) -> Seq<
    char,
> {
    name + seq![' ', 'i', 's', ' '] + value + unit_symbol + seq![' ']
}

/// Builds the line that reports a measurement from its label, the text of its
/// value and its unit symbol.
///
/// The three parts are taken as they are: nothing in them is escaped, trimmed
/// or checked, and an empty unit symbol leaves the value directly before the
/// trailing space.
pub fn format_line(name: &str, value: &str, unit_symbol: &str) -> (line: String)
    ensures
        line@ == spec_line(name@, value@, unit_symbol@),
{
    proof {
        reveal_strlit(" is ");
        reveal_strlit(" ");
    }
    let mut line = String::from_str(name);
    line.append(" is ");
    line.append(value);
    line.append(unit_symbol);
    line.append(" ");
    line
}

/// Builds the line that reports a measurement of the catalog from the text of
/// its value: the label and the unit symbol are those of the catalog.
pub fn reading_line(kind: InputRegister, value: &str) -> (line: String)
    ensures
        line@ == spec_line(kind.spec_name(), value@, kind.spec_unit_symbol()),
{
    let register = generate_input_register(kind);
    format_line(register.name, value, register.unit_symbol)
}

} // verus!
