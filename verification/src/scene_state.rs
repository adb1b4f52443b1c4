//! The scene: an ordered, insertion-order list of components. Order is
//! paint order — later components draw on top — and fixes each
//! component's vertex offsets during batching.

use vstd::prelude::*;
use crate::component::{
    Component,
    CustomBuild,
    CustomBuildParameters,
    DefaultBuild,
    spec_component_update,
};
use crate::input_handler::InputHandler;

verus! {

/// The ordered component list the frame loop owns.
pub struct SceneState {
    pub components: Vec<Component>,
}

impl SceneState {
    /// Every component in the scene is fit to update and render.
    pub open spec fn wf(&self) -> bool {
        forall|i: int| 0 <= i < self.components@.len() ==> self.components@[i].wf()
    }

    /// A scene with no components.
    pub fn new_empty() -> (s: SceneState)
        ensures
            s.components@.len() == 0,
            s.wf(),
    {
        SceneState { components: Vec::new() }
    }

    /// Append a component; the scene owns it from here on.
    pub fn add_component(&mut self, component: Component)
        requires
            old(self).wf(),
            component.wf(),
        ensures
            final(self).components@ == old(self).components@.push(component),
            final(self).wf(),
    {
        self.components.push(component);
    }

    /// Append the default build of the component type `C`.
    pub fn build_default_component<C: DefaultBuild>(&mut self)
        requires
            old(self).wf(),
        ensures
            final(self).components@.len() == old(self).components@.len() + 1,
            final(self).components@.subrange(0, old(self).components@.len() as int) == old(
                self,
            ).components@,
            final(self).wf(),
    {
        let component = C::build_default();
        self.components.push(component);
        proof {
            assert(final(self).components@.subrange(0, old(self).components@.len() as int)
                =~= old(self).components@);
        }
    }

    /// Append a component of type `C` built from the given parameters.
    pub fn build_custom_component<C: CustomBuild<P>, P: CustomBuildParameters>(
        &mut self,
        parameters: P,
    )
        requires
            old(self).wf(),
            C::custom_ok(parameters),
        ensures
            final(self).components@.len() == old(self).components@.len() + 1,
            final(self).components@.subrange(0, old(self).components@.len() as int) == old(
                self,
            ).components@,
            final(self).wf(),
    {
        let component = C::build_custom(parameters);
        self.components.push(component);
        proof {
            assert(final(self).components@.subrange(0, old(self).components@.len() as int)
                =~= old(self).components@);
        }
    }

    /// The components in paint order, for the renderer to read.
    pub fn get_components(&self) -> (r: &Vec<Component>)
        ensures
            r@ == self.components@,
    {
        &self.components
    }

    /// One update pass: every component updates once, in insertion order,
    /// against the same input snapshot. The commands the components hand
    /// back ask for nothing yet, so the pass discards them.
    pub fn update(&mut self, input: &InputHandler)
        requires
            old(self).wf(),
        ensures
            final(self).components@.len() == old(self).components@.len(),
            forall|i: int|
                0 <= i < old(self).components@.len() ==> final(self).components@[i]
                    == spec_component_update(
                    old(self).components@[i],
                    input.mouse_x as int,
                    input.mouse_y as int,
                ),
            final(self).wf(),
    {
        let mut i: usize = 0;
        while i < self.components.len()
            invariant
                i <= self.components@.len(),
                self.components@.len() == old(self).components@.len(),
                forall|j: int|
                    i <= j < self.components@.len() ==> self.components@[j] == old(
                        self,
                    ).components@[j],
                forall|j: int|
                    0 <= j < i ==> self.components@[j] == spec_component_update(
                        old(self).components@[j],
                        input.mouse_x as int,
                        input.mouse_y as int,
                    ),
                forall|j: int| 0 <= j < self.components@.len() ==> self.components@[j].wf(),
            decreases self.components@.len() - i,
        {
            let _command = self.components[i].update(input);
            i = i + 1;
        }
    }
}

} // verus!
