//! A plain rectangle on the screen, always drawn with the first texture.

use vstd::prelude::*;
use crate::vertex::{ComponentVertex, is_quad_for, make_quad};
use crate::component::CustomBuildParameters;

verus! {

/// A rectangle component: a top-left corner and an extent, in pixels.
#[derive(Clone, Copy, Debug, PartialEq, Eq, Structural)]
pub struct SquareComponent {
    pub top_left_x: i32,
    pub top_left_y: i32,
    pub width: i32,
    pub height: i32,
}

impl SquareComponent {
    /// The rectangle has positive extent and its far corner still fits in
    /// pixel coordinates.
    pub open spec fn wf(&self) -> bool {
        &&& 0 < self.width
        &&& 0 < self.height
        &&& self.top_left_x + self.width <= i32::MAX
        &&& self.top_left_y + self.height <= i32::MAX
    }

    /// A rectangle from its top-left corner and extent.
    pub fn new(top_left_x: i32, top_left_y: i32, width: i32, height: i32) -> (c: SquareComponent)
        requires
            0 < width,
            0 < height,
            top_left_x + width <= i32::MAX,
            top_left_y + height <= i32::MAX,
        ensures
            c == (SquareComponent { top_left_x, top_left_y, width, height }),
            c.wf(),
    {
        SquareComponent { top_left_x, top_left_y, width, height }
    }

    /// The rectangle's quad, pointing at texture 0.
    pub fn get_vertices(&self) -> (q: [ComponentVertex; 4])
        requires
            self.wf(),
        ensures
            is_quad_for(
                q@,
                self.top_left_x as int,
                self.top_left_y as int,
                self.width as int,
                self.height as int,
                0u32,
            ),
    {
        make_quad(self.top_left_x, self.top_left_y, self.width, self.height, 0)
    }
}

/// The build parameters of a rectangle: where it sits and how large it is.
#[derive(Clone, Copy, Debug, PartialEq, Eq, Structural)]
pub struct SquareParameters {
    pub top_left_x: i32,
    pub top_left_y: i32,
    pub width: i32,
    pub height: i32,
}

impl CustomBuildParameters for SquareParameters {

}

} // verus!
