//! Commands a component may hand back from its per-frame update, telling
//! the scene what to do once the full update pass is over.

use vstd::prelude::*;

verus! {

/// The scene-level effect a component requests from its update. The only
/// present variant asks for nothing; the type leaves room for future
/// variants (remove, reorder) applied after the pass completes.
#[derive(Clone, Copy, Debug, PartialEq, Eq, Structural)]
pub enum UpdateCommand {
    /// Do nothing.
    Void,
}

} // verus!
