//! Tuple structs: two types with identical shapes are still distinct types.
use vstd::prelude::*;

verus! {

/// A point consisting of X, Y and Z.
pub struct Point(pub u64, pub u64, pub u64);

/// A color consisting of Red, Green and Blue.
pub struct Color(pub u64, pub u64, pub u64);

/// Reads a point's components, in X, Y, Z order, for a caller to display.
pub fn use_point(point: &Point) -> (r: (u64, u64, u64))
    ensures
        r == (point.0, point.1, point.2),
{
    (point.0, point.1, point.2)
}

/// Reads a color's channels, in red, green, blue order, for a caller to
/// display.
pub fn use_color(color: &Color) -> (r: (u64, u64, u64))
    ensures
        r == (color.0, color.1, color.2),
{
    (color.0, color.1, color.2)
}

/// `Point` and `Color` can NOT be used interchangeably: each reader accepts
/// only its own type, even though the field layouts agree.
pub fn not_interchangeable() {
    let point = Point(1, 2, 3);
    let color = Color(1, 2, 3);
    let xyz = use_point(&point);
    let rgb = use_color(&color);
    assert(xyz == (1u64, 2u64, 3u64));
    assert(rgb == (1u64, 2u64, 3u64));
}

} // verus!
