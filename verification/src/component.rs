//! The component contract: every scene entity is a rectangle that yields
//! exactly four vertices and may react to the per-frame input snapshot.
//!
//! The repertoire of component kinds is a closed set of variants, each
//! answering the same three questions: where is your quad, which texture
//! does it use, and what changes when the input snapshot arrives.

use vstd::prelude::*;
use crate::hover::{HoverComponent, spec_hover_update};
use crate::input_handler::InputHandler;
use crate::square::SquareComponent;
use crate::update_commands::UpdateCommand;
use crate::vertex::{ComponentVertex, is_quad_for};

verus! {

/// A renderable, optionally input-reactive rectangular scene entity.
#[derive(Clone, Copy, Debug, PartialEq, Eq, Structural)]
pub enum Component {
    /// A plain rectangle.
    Square(SquareComponent),
    /// A rectangle whose texture switches while the mouse is over it.
    Hover(HoverComponent),
}

/// The x coordinate of the component's top-left corner.
pub open spec fn component_x(c: Component) -> int {
    match c {
        Component::Square(s) => s.top_left_x as int,
        Component::Hover(h) => h.top_left_x as int,
    }
}

/// The y coordinate of the component's top-left corner.
pub open spec fn component_y(c: Component) -> int {
    match c {
        Component::Square(s) => s.top_left_y as int,
        Component::Hover(h) => h.top_left_y as int,
    }
}

/// The component's width.
pub open spec fn component_width(c: Component) -> int {
    match c {
        Component::Square(s) => s.width as int,
        Component::Hover(h) => h.width as int,
    }
}

/// The component's height.
pub open spec fn component_height(c: Component) -> int {
    match c {
        Component::Square(s) => s.height as int,
        Component::Hover(h) => h.height as int,
    }
}

/// The texture index the component's quad is drawn with right now.
pub open spec fn component_texture(c: Component) -> u32 {
    match c {
        Component::Square(_) => 0u32,
        Component::Hover(h) => h.current_texture,
    }
}

/// What one update does to a component given the mouse position: a plain
/// rectangle never changes, a hover rectangle switches its texture.
pub open spec fn spec_component_update(c: Component, mouse_x: int, mouse_y: int) -> Component {
    match c {
        Component::Square(s) => Component::Square(s),
        Component::Hover(h) => Component::Hover(spec_hover_update(h, mouse_x, mouse_y)),
    }
}

impl Component {
    /// The component's rectangle has positive extent and fits in pixel
    /// coordinates.
    pub open spec fn wf(&self) -> bool {
        match *self {
            Component::Square(s) => s.wf(),
            Component::Hover(h) => h.wf(),
        }
    }

    /// Called once when the component joins a scene. No present variant
    /// has anything to set up.
    pub fn on_init(&mut self)
        ensures
            *final(self) == *old(self),
    {
    }

    /// One per-frame update with the shared input snapshot; the returned
    /// command describes the scene-level effect the component asks for.
    pub fn update(&mut self, input: &InputHandler) -> (cmd: UpdateCommand)
        requires
            old(self).wf(),
        ensures
            *final(self) == spec_component_update(
                *old(self),
                input.mouse_x as int,
                input.mouse_y as int,
            ),
            final(self).wf(),
            cmd == UpdateCommand::Void,
    {
        match self {
            Component::Square(_) => UpdateCommand::Void,
            Component::Hover(h) => h.update(input),
        }
    }

    /// The texture index the component's quad is drawn with right now.
    pub fn texture_id(&self) -> (tex: u32)
        ensures
            tex == component_texture(*self),
    {
        match self {
            Component::Square(_) => 0u32,
            Component::Hover(h) => h.current_texture,
        }
    }

    /// The component's four quad vertices, in the fixed winding order,
    /// drawn with its current texture.
    pub fn get_vertices(&self) -> (q: [ComponentVertex; 4])
        requires
            self.wf(),
        ensures
            is_quad_for(
                q@,
                component_x(*self),
                component_y(*self),
                component_width(*self),
                component_height(*self),
                component_texture(*self),
            ),
    {
        match self {
            Component::Square(s) => s.get_vertices(),
            Component::Hover(h) => h.get_vertices(),
        }
    }
}

/// A marker for the parameter bundle a custom component build consumes.
pub trait CustomBuildParameters {

}

/// A component type that can build itself with a fixed default
/// specification.
pub trait DefaultBuild {
    /// The component this type builds by default. It must be fit to join
    /// a scene.
    fn build_default() -> (c: Component)
        ensures
            c.wf(),
    ;
}

/// A component type that builds itself from a caller-supplied parameter
/// bundle.
pub trait CustomBuild<P: CustomBuildParameters> {
    /// Which parameter bundles this type can build from.
    spec fn custom_ok(parameters: P) -> bool;

    /// The component built from the parameters. It must be fit to join a
    /// scene.
    fn build_custom(parameters: P) -> (c: Component)
        requires
            Self::custom_ok(parameters),
        ensures
            c.wf(),
    ;
}

impl DefaultBuild for SquareComponent {
    /// The default rectangle: the full 800 by 600 pane at the origin.
    fn build_default() -> (c: Component) {
        Component::Square(SquareComponent::new(0, 0, 800, 600))
    }
}

impl CustomBuild<crate::square::SquareParameters> for SquareComponent {
    /// The parameters must describe a rectangle of positive extent that
    /// fits in pixel coordinates.
    open spec fn custom_ok(parameters: crate::square::SquareParameters) -> bool {
        &&& 0 < parameters.width
        &&& 0 < parameters.height
        &&& parameters.top_left_x + parameters.width <= i32::MAX
        &&& parameters.top_left_y + parameters.height <= i32::MAX
    }

    fn build_custom(parameters: crate::square::SquareParameters) -> (c: Component) {
        Component::Square(
            SquareComponent::new(
                parameters.top_left_x,
                parameters.top_left_y,
                parameters.width,
                parameters.height,
            ),
        )
    }
}

} // verus!
