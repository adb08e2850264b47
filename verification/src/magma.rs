//! The magma block: it burns what stands on it.

use vstd::prelude::*;

verus! {

/// The magma block.
pub struct MagmaBlock;

impl MagmaBlock {
    /// Whether an entity stepping on magma takes one point of hot-floor
    /// damage: only a living one, not while it sneaks, and not where its
    /// type or the entity itself is immune to fire.
    pub fn on_entity_step(
        &self,
        is_living: bool,
        sneaking: bool,
        type_fire_immune: bool,
        fire_immune: bool,
    ) -> (r: bool)
        ensures
            r == (is_living && !sneaking && !type_fire_immune && !fire_immune),
    {
        if !is_living {
            return false;
        }
        if sneaking {
            return false;
        }
        if type_fire_immune || fire_immune {
            return false;
        }
        true
    }
}

} // verus!
