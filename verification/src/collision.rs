//! Point-in-rectangle tests used by input-reactive components.
//!
//! Coordinates follow the window convention: x grows rightward, y grows
//! downward, and all positions are whole pixels.

use vstd::prelude::*;

verus! {

/// A point lies strictly inside the rectangle: both edges are excluded.
pub open spec fn spec_point_on_rect(
    rect_x: int,
    rect_y: int,
    width: int,
    height: int,
    point_x: int,
    point_y: int,
) -> bool {
    rect_x < point_x < rect_x + width && rect_y < point_y < rect_y + height
}

/// Strict containment of a point in an axis-aligned rectangle given by its
/// top-left corner and its extent. Points on the border do not count as hits.
pub fn point_on_rect(
    rect_x: i32,
    rect_y: i32,
    width: i32,
    height: i32,
    point_x: i32,
    point_y: i32,
) -> (hit: bool)
    requires
        i32::MIN <= rect_x + width <= i32::MAX,
        i32::MIN <= rect_y + height <= i32::MAX,
    ensures
        hit == spec_point_on_rect(
            rect_x as int,
            rect_y as int,
            width as int,
            height as int,
            point_x as int,
            point_y as int,
        ),
{
    let x_check = rect_x < point_x && rect_x + width > point_x;
    let y_check = rect_y < point_y && rect_y + height > point_y;
    x_check && y_check
}

} // verus!
