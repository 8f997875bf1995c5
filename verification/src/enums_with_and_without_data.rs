//! Enums with and without data: plain tags, a variant carrying a named
//! struct, and a variant with inline fields.
use vstd::prelude::*;

verus! {

/// Plain old enum: tags only.
pub enum PlainEnumNoData {
    Red,
    Green,
    Blue,
}

/// A simple struct for a variant to carry.
pub struct Point {
    pub x: u64,
    pub y: u64,
}

/// An enum whose variants carry various kinds of data.
pub enum DataEnum {
    /// This variant does not have any data.
    Empty,
    /// This variant carries a named struct.
    Point(Point),
    /// This variant has inline fields instead of a named struct.
    UnnamedStruct { x: u64, y: u64 },
}

/// Builds one value of each variant and matches on the last; the patterns
/// test both the variant and its first field, and the inline-fields arm is
/// the one that fits.
pub fn example() -> (r: u64)
    ensures
        r == 2,
{
    let value_1 = DataEnum::Empty;
    let value_2 = DataEnum::Point(Point { x: 0, y: 1 });
    let value_3 = DataEnum::UnnamedStruct { x: 0, y: 1 };
    match value_3 {
        DataEnum::Empty => 0,
        DataEnum::Point(Point { x: 0, .. }) => 1,
        DataEnum::UnnamedStruct { x: 0, .. } => 2,
        _ => 3,
    }
}

} // verus!
