//! The grab controller: an entity that is held moves with the view.

use vstd::prelude::*;
use crate::formula::Transform;
use crate::protocol::Entity;

verus! {

/// An entity that is held, with the view transform at the moment it was
/// taken.
#[derive(Debug, PartialEq, Eq)]
pub struct Grab {
    pub entity: Entity,
    pub original_transform: Transform,
}

impl Clone for Grab {
    fn clone(&self) -> (copy: Self)
        ensures
            copy == *self,
    {
        Grab { entity: self.entity, original_transform: self.original_transform.clone() }
    }
}

/// The transform of a held entity: the change of the view since the entity
/// was taken, applied to the transform the entity had then. It is
/// `(current x inverse(original)) x base`.
pub open spec fn carried(current: Transform, original: Transform, base: Transform) -> Transform {
    Transform::Product(
        Box::new(
            Transform::Product(
                Box::new(current),
                Box::new(Transform::Inverse(Box::new(original))),
            ),
        ),
        Box::new(base),
    )
}

impl Grab {
    /// The grab of `entity` under the view transform `transform`.
    pub fn capture(entity: Entity, transform: Transform) -> (grab: Grab)
        ensures
            grab == (Grab { entity, original_transform: transform }),
    {
        Grab { entity, original_transform: transform }
    }

    /// The transform of the held entity under the view transform `current`,
    /// where `base` is the transform the entity had when it was taken.
    pub fn carry(&self, current: &Transform, base: &Transform) -> (moved: Transform)
        ensures
            moved == carried(*current, self.original_transform, *base),
    {
        Transform::Product(
            Box::new(
                Transform::Product(
                    Box::new(current.clone()),
                    Box::new(Transform::Inverse(Box::new(self.original_transform.clone()))),
                ),
            ),
            Box::new(base.clone()),
        )
    }
}

} // verus!
