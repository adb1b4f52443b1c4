//! The vertex layout fed to the GPU program, and the pure conversion from a
//! rectangle to its four-vertex quad.
//!
//! Positions are whole window pixels with y growing downward. Texture
//! coordinates are 0 or 1 at the corners, with the fixed per-corner mapping
//! the shader expects: top-left (0,1), top-right (1,0), bottom-left (0,0),
//! bottom-right (1,0).

use vstd::prelude::*;

verus! {

/// One vertex of a component quad: a pixel position, the index of the
/// texture to sample, and the texture coordinates at this corner.
#[derive(Clone, Copy, Debug, PartialEq, Eq, Structural)]
pub struct ComponentVertex {
    pub position_x: i32,
    pub position_y: i32,
    pub texture_index: u32,
    pub texture_u: u8,
    pub texture_v: u8,
}

/// The four vertices describe exactly the rectangle with top-left corner
/// `(x, y)`, width `width` and height `height`, in the fixed winding order
/// top-left, top-right, bottom-left, bottom-right, all pointing at texture
/// `tex`, with the fixed per-corner texture coordinates.
pub open spec fn is_quad_for(
    q: Seq<ComponentVertex>,
    x: int,
    y: int,
    width: int,
    height: int,
    tex: u32,
) -> bool {
    &&& q.len() == 4
    &&& q[0].position_x == x && q[0].position_y == y
    &&& q[1].position_x == x + width && q[1].position_y == y
    &&& q[2].position_x == x && q[2].position_y == y + height
    &&& q[3].position_x == x + width && q[3].position_y == y + height
    &&& forall|i: int| 0 <= i < 4 ==> q[i].texture_index == tex
    &&& q[0].texture_u == 0 && q[0].texture_v == 1
    &&& q[1].texture_u == 1 && q[1].texture_v == 0
    &&& q[2].texture_u == 0 && q[2].texture_v == 0
    &&& q[3].texture_u == 1 && q[3].texture_v == 0
}

/// Twice the signed area of the triangle `(a, b, p)`: positive when the
/// three points wind counter-clockwise in mathematical orientation.
pub open spec fn orient(ax: int, ay: int, bx: int, by: int, px: int, py: int) -> int {
    (bx - ax) * (py - ay) - (by - ay) * (px - ax)
}

/// The point lies in the closed triangle `(a, b, c)`, the corners taken in
/// counter-clockwise order.
pub open spec fn in_closed_triangle(
    a: ComponentVertex,
    b: ComponentVertex,
    c: ComponentVertex,
    px: int,
    py: int,
) -> bool {
    &&& orient(a.position_x as int, a.position_y as int, b.position_x as int, b.position_y as int, px, py) >= 0
    &&& orient(b.position_x as int, b.position_y as int, c.position_x as int, c.position_y as int, px, py) >= 0
    &&& orient(c.position_x as int, c.position_y as int, a.position_x as int, a.position_y as int, px, py) >= 0
}

/// The point lies strictly inside the triangle `(a, b, c)`.
pub open spec fn in_open_triangle(
    a: ComponentVertex,
    b: ComponentVertex,
    c: ComponentVertex,
    px: int,
    py: int,
) -> bool {
    &&& orient(a.position_x as int, a.position_y as int, b.position_x as int, b.position_y as int, px, py) > 0
    &&& orient(b.position_x as int, b.position_y as int, c.position_x as int, c.position_y as int, px, py) > 0
    &&& orient(c.position_x as int, c.position_y as int, a.position_x as int, a.position_y as int, px, py) > 0
}

/// The point lies in the closed rectangle with top-left corner `(x, y)`.
pub open spec fn in_closed_rect(x: int, y: int, width: int, height: int, px: int, py: int) -> bool {
    x <= px <= x + width && y <= py <= y + height
}

/// The fixed index pattern draws the quad as the two triangles
/// `(q[1], q[2], q[0])` and `(q[3], q[2], q[1])`. Together they cover the
/// whole rectangle — a point lies in the rectangle exactly when it lies in
/// one of the closed triangles — and they do not overlap: no point lies
/// strictly inside both.
pub proof fn lemma_quad_triangles_cover_rect(
    q: Seq<ComponentVertex>,
    x: int,
    y: int,
    width: int,
    height: int,
    tex: u32,
    px: int,
    py: int,
)
    requires
        is_quad_for(q, x, y, width, height, tex),
        0 < width,
        0 < height,
    ensures
        in_closed_rect(x, y, width, height, px, py) <==> (in_closed_triangle(
            q[1],
            q[2],
            q[0],
            px,
            py,
        ) || in_closed_triangle(q[3], q[2], q[1], px, py)),
        !(in_open_triangle(q[1], q[2], q[0], px, py) && in_open_triangle(q[3], q[2], q[1], px, py)),
{
    let w = width;
    let h = height;
    // The six orientation values of the two triangles, reduced to three
    // scalar quantities: h*(px - x), w*(py - y), and w*h.
    assert((x - (x + w)) * (py - y) - ((y + h) - y) * (px - (x + w)) == w * h - h * (px - x) - w
        * (py - y)) by (nonlinear_arith);
    assert((x - x) * (py - (y + h)) - (y - (y + h)) * (px - x) == h * (px - x))
        by (nonlinear_arith);
    assert(((x + w) - x) * (py - y) - (y - y) * (px - x) == w * (py - y)) by (nonlinear_arith);
    assert((x - (x + w)) * (py - (y + h)) - ((y + h) - (y + h)) * (px - (x + w)) == w * h - w * (py
        - y)) by (nonlinear_arith);
    assert(((x + w) - x) * (py - (y + h)) - (y - (y + h)) * (px - x) == h * (px - x) + w * (py - y)
        - w * h) by (nonlinear_arith);
    assert(((x + w) - (x + w)) * (py - y) - ((y + h) - y) * (px - (x + w)) == w * h - h * (px - x))
        by (nonlinear_arith);
    // Each scalar sign decides one side of the rectangle.
    assert((h * (px - x) >= 0 <==> px - x >= 0) && (w * h - h * (px - x) >= 0 <==> px - x <= w) && (
    w * (py - y) >= 0 <==> py - y >= 0) && (w * h - w * (py - y) >= 0 <==> py - y <= h))
        by (nonlinear_arith)
        requires
            w > 0,
            h > 0,
    ;
}

/// The two triangles of the fixed index pattern wind consistently: taken
/// in pattern order, each has twice the same positive signed area,
/// `width * height`.
pub proof fn lemma_quad_triangles_wind_consistently(
    q: Seq<ComponentVertex>,
    x: int,
    y: int,
    width: int,
    height: int,
    tex: u32,
)
    requires
        is_quad_for(q, x, y, width, height, tex),
        0 < width,
        0 < height,
    ensures
        orient(
            q[1].position_x as int,
            q[1].position_y as int,
            q[2].position_x as int,
            q[2].position_y as int,
            q[0].position_x as int,
            q[0].position_y as int,
        ) == width * height,
        orient(
            q[3].position_x as int,
            q[3].position_y as int,
            q[2].position_x as int,
            q[2].position_y as int,
            q[1].position_x as int,
            q[1].position_y as int,
        ) == width * height,
{
    assert((x - (x + width)) * (y - y) - ((y + height) - y) * (x - (x + width)) == width * height)
        by (nonlinear_arith);
    assert((x - (x + width)) * (y - (y + height)) - ((y + height) - (y + height)) * ((x + width) - (
    x + width)) == width * height) by (nonlinear_arith);
}

/// Turn a rectangle (top-left corner, extent) plus a texture index into its
/// four quad vertices. Pure; the only demand is that the far corner still
/// fits in pixel coordinates.
pub fn make_quad(x: i32, y: i32, width: i32, height: i32, texture_index: u32) -> (q: [
    ComponentVertex; 4])
    requires
        0 < width,
        0 < height,
        x + width <= i32::MAX,
        y + height <= i32::MAX,
    ensures
        is_quad_for(q@, x as int, y as int, width as int, height as int, texture_index),
{
    let right = x + width;
    let bottom = y + height;
    [
        ComponentVertex {
            position_x: x,
            position_y: y,
            texture_index,
            texture_u: 0,
            texture_v: 1,
        },
        ComponentVertex {
            position_x: right,
            position_y: y,
            texture_index,
            texture_u: 1,
            texture_v: 0,
        },
        ComponentVertex {
            position_x: x,
            position_y: bottom,
            texture_index,
            texture_u: 0,
            texture_v: 0,
        },
        ComponentVertex {
            position_x: right,
            position_y: bottom,
            texture_index,
            texture_u: 1,
            texture_v: 0,
        },
    ]
}

} // verus!
