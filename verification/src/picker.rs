//! The ray picker: follows a ray through the marker that it may meet on its
//! way until it meets something else or nothing at all.

use vstd::prelude::*;
use crate::formula::{Point, Scalar, Transform, Vector};
use crate::protocol::{Entity, Intersection};

verus! {

/// A pick in flight.
#[derive(Debug, PartialEq, Eq)]
pub struct RayTracingTask {
    /// The view transform the pick started from. Passing through the marker
    /// does not change it.
    pub transform: Transform,
    pub direction: Vector,
    /// The length of the ray segments travelled so far.
    pub total_distance: Scalar,
}

impl Clone for RayTracingTask {
    fn clone(&self) -> (copy: Self)
        ensures
            copy == *self,
    {
        RayTracingTask {
            transform: self.transform.clone(),
            direction: self.direction.clone(),
            total_distance: self.total_distance.clone(),
        }
    }
}

/// What a ray-trace response means for the pick in flight.
#[derive(Debug, PartialEq, Eq)]
pub enum Pick {
    /// The ray met nothing. The pick is over.
    Missed,
    /// The ray met the marker. The pick goes on from `origin` with `task`.
    Bounced { task: RayTracingTask, origin: Vector },
    /// The ray met `entity` at `position`. The pick is over.
    Resolved {
        entity: Entity,
        position: Point,
        /// The length of all segments, the last one included.
        total_distance: Scalar,
        /// The view transform the pick started from.
        transform: Transform,
    },
}

/// The gap between 1 and the next larger single-precision number, two to
/// the power of -23.
pub open spec fn machine_epsilon() -> Scalar {
    Scalar::Quotient(Box::new(Scalar::Whole(1)), Box::new(Scalar::Whole(8388608)))
}

/// How far behind a hit on the marker the next segment starts: 32 machine
/// epsilons along the ray.
pub open spec fn nudge() -> Scalar {
    Scalar::Product(Box::new(Scalar::Whole(32)), Box::new(machine_epsilon()))
}

/// The task of a pick that starts with the given view transform and
/// direction, before any segment is travelled.
pub open spec fn started(transform: Transform, direction: Vector) -> RayTracingTask {
    RayTracingTask { transform, direction, total_distance: Scalar::Whole(0) }
}

/// The distance travelled once the segment that ended in `hit` is added.
pub open spec fn travelled(task: RayTracingTask, hit: Intersection) -> Scalar {
    Scalar::Sum(
        Box::new(task.total_distance),
        Box::new(Scalar::Bits(hit.distance_from_origin)),
    )
}

/// Where the next segment starts after a hit on the marker: at the hit,
/// moved on along the ray by the nudge.
pub open spec fn bounce_origin(task: RayTracingTask, hit: Intersection) -> Vector {
    Vector::Sum(
        Box::new(Vector::Host(hit.position)),
        Box::new(Vector::Scaled(Box::new(task.direction), Box::new(nudge()))),
    )
}

/// What a ray-trace response means for the pick in flight. A hit needs a
/// pick in flight.
pub open spec fn advance_of(task: Option<RayTracingTask>, hit: Option<Intersection>, marker: Entity) -> Pick
    recommends
        hit.is_some() ==> task.is_some(),
{
    match hit {
        None => Pick::Missed,
        Some(hit) => {
            let task = task.unwrap();
            if hit.entity == marker {
                Pick::Bounced {
                    task: RayTracingTask {
                        transform: task.transform,
                        direction: task.direction,
                        total_distance: travelled(task, hit),
                    },
                    origin: bounce_origin(task, hit),
                }
            } else {
                Pick::Resolved {
                    entity: hit.entity,
                    position: hit.position,
                    total_distance: travelled(task, hit),
                    transform: task.transform,
                }
            }
        },
    }
}

impl RayTracingTask {
    /// The task of a pick that starts now.
    pub fn start(transform: Transform, direction: Vector) -> (task: RayTracingTask)
        ensures
            task == started(transform, direction),
    {
        RayTracingTask { transform, direction, total_distance: Scalar::Whole(0) }
    }
}

/// Decides what a ray-trace response means for the pick in flight.
pub fn advance(task: Option<RayTracingTask>, hit: Option<Intersection>, marker: Entity) -> (pick: Pick)
    requires
        hit.is_some() ==> task.is_some(),
    ensures
        pick == advance_of(task, hit, marker),
{
    match hit {
        None => Pick::Missed,
        Some(hit) => {
            let RayTracingTask { transform, direction, total_distance } = task.unwrap();
            let total_distance = Scalar::Sum(
                Box::new(total_distance),
                Box::new(Scalar::Bits(hit.distance_from_origin)),
            );
            if hit.entity == marker {
                let epsilon = Scalar::Quotient(
                    Box::new(Scalar::Whole(1)),
                    Box::new(Scalar::Whole(8388608)),
                );
                let nudge = Scalar::Product(Box::new(Scalar::Whole(32)), Box::new(epsilon));
                let origin = Vector::Sum(
                    Box::new(Vector::Host(hit.position)),
                    Box::new(Vector::Scaled(Box::new(direction.clone()), Box::new(nudge))),
                );
                Pick::Bounced {
                    task: RayTracingTask { transform, direction, total_distance },
                    origin,
                }
            } else {
                Pick::Resolved {
                    entity: hit.entity,
                    position: hit.position,
                    total_distance,
                    transform,
                }
            }
        },
    }
}

} // verus!
