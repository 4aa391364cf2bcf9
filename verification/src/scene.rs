//! Scene lifecycle states. The scene objects themselves (load, activate,
//! pause, render) are host-side collaborators; the engine core only needs
//! the state vocabulary.

use vstd::prelude::*;

verus! {

/// The lifecycle state of a scene.
#[derive(Clone, Copy, PartialEq, Eq, Structural, Debug)]
pub enum SceneState {
    Active,
    Paused,
    Inactive,
    Destroyed,
}

impl SceneState {
    /// True iff a scene in this state runs its per-tick update.
    pub fn is_active(&self) -> (r: bool)
        ensures
            r == (*self is Active),
    {
        match self {
            SceneState::Active => true,
            _ => false,
        }
    }
}

} // verus!
