//! A rectangle whose texture changes while the mouse is over it.

use vstd::prelude::*;
use crate::vertex::{ComponentVertex, is_quad_for, make_quad};
use crate::collision::{point_on_rect, spec_point_on_rect};
use crate::input_handler::InputHandler;
use crate::update_commands::UpdateCommand;

verus! {

/// A hover-sensitive rectangle: its quad shows the hover texture while the
/// mouse is strictly inside it, the base texture otherwise.
#[derive(Clone, Copy, Debug, PartialEq, Eq, Structural)]
pub struct HoverComponent {
    pub top_left_x: i32,
    pub top_left_y: i32,
    pub width: i32,
    pub height: i32,
    pub base_texture: u32,
    pub hover_texture: u32,
    pub current_texture: u32,
}

/// What one update does to a hover component given the mouse position:
/// only the current texture moves, to the hover texture exactly when the
/// mouse is strictly inside the rectangle.
pub open spec fn spec_hover_update(h: HoverComponent, mouse_x: int, mouse_y: int) -> HoverComponent {
    HoverComponent {
        current_texture: if spec_point_on_rect(
            h.top_left_x as int,
            h.top_left_y as int,
            h.width as int,
            h.height as int,
            mouse_x,
            mouse_y,
        ) {
            h.hover_texture
        } else {
            h.base_texture
        },
        ..h
    }
}

/// After an update, a hover component shows its hover texture exactly
/// when the mouse is strictly inside its rectangle, and its base texture
/// otherwise; nothing else about it changes.
pub proof fn lemma_hover_update_switches_texture(h: HoverComponent, mouse_x: int, mouse_y: int)
    ensures
        spec_hover_update(h, mouse_x, mouse_y).current_texture == (if spec_point_on_rect(
            h.top_left_x as int,
            h.top_left_y as int,
            h.width as int,
            h.height as int,
            mouse_x,
            mouse_y,
        ) {
            h.hover_texture
        } else {
            h.base_texture
        }),
        spec_hover_update(h, mouse_x, mouse_y) == (HoverComponent {
            current_texture: spec_hover_update(h, mouse_x, mouse_y).current_texture,
            ..h
        }),
{
}

impl HoverComponent {
    /// The rectangle has positive extent and its far corner still fits in
    /// pixel coordinates.
    pub open spec fn wf(&self) -> bool {
        &&& 0 < self.width
        &&& 0 < self.height
        &&& self.top_left_x + self.width <= i32::MAX
        &&& self.top_left_y + self.height <= i32::MAX
    }

    /// A hover rectangle from its corner, extent and texture pair; it
    /// starts on its base texture.
    pub fn new(
        top_left_x: i32,
        top_left_y: i32,
        width: i32,
        height: i32,
        base: u32,
        hover: u32,
    ) -> (c: HoverComponent)
        requires
            0 < width,
            0 < height,
            top_left_x + width <= i32::MAX,
            top_left_y + height <= i32::MAX,
        ensures
            c == (HoverComponent {
                top_left_x,
                top_left_y,
                width,
                height,
                base_texture: base,
                hover_texture: hover,
                current_texture: base,
            }),
            c.wf(),
    {
        HoverComponent {
            top_left_x,
            top_left_y,
            width,
            height,
            base_texture: base,
            hover_texture: hover,
            current_texture: base,
        }
    }

    /// One per-frame update: test the mouse against the rectangle and
    /// switch the current texture accordingly.
    pub fn update(&mut self, input: &InputHandler) -> (cmd: UpdateCommand)
        requires
            old(self).wf(),
        ensures
            *final(self) == spec_hover_update(
                *old(self),
                input.mouse_x as int,
                input.mouse_y as int,
            ),
            final(self).wf(),
            cmd == UpdateCommand::Void,
    {
        let (mouse_x, mouse_y) = input.get_mouse_pos();
        let collided = point_on_rect(
            self.top_left_x,
            self.top_left_y,
            self.width,
            self.height,
            mouse_x,
            mouse_y,
        );
        self.current_texture = if collided {
            self.hover_texture
        } else {
            self.base_texture
        };
        UpdateCommand::Void
    }

    /// The rectangle's quad, pointing at whichever texture is current.
    pub fn get_vertices(&self) -> (q: [ComponentVertex; 4])
        requires
            self.wf(),
        ensures
            is_quad_for(
                q@,
                self.top_left_x as int,
                self.top_left_y as int,
                self.width as int,
                self.height as int,
                self.current_texture,
            ),
    {
        make_quad(
            self.top_left_x,
            self.top_left_y,
            self.width,
            self.height,
            self.current_texture,
        )
    }
}

} // verus!
