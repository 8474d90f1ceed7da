//! Components attached to entities of the scene.

use vstd::prelude::*;

verus! {

/// Marks an entity as an instance of a loaded model.
#[derive(Debug, PartialEq, Eq)]
pub struct ModelInstance {
    /// Index into the model registry.
    pub model: usize,
}

} // verus!
