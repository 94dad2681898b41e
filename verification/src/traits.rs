//! The narrow capability every collidable entity offers: access to its
//! collider, and a pairwise collision test defined through it.

use crate::collider::Collider;
use vstd::prelude::*;

verus! {

/// An entity that owns a collider and can be tested against any other such
/// entity.
pub trait Collides: Sized {
    /// The entity's collider, as a specification value.
    spec fn spec_collider(&self) -> Collider;

    /// Borrows the entity's collider.
    fn get_collider(&self) -> (c: &Collider)
        ensures
            *c == self.spec_collider(),
    ;
}

} // verus!
