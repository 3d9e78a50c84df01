//! The view orientation aggregator: turns the pose samples of each viewing
//! medium into one averaged pose with a position and a facing direction, and
//! picks the orientation that picking and grabbing go by.

use vstd::prelude::*;
use crate::formula::{Column, Matrix, Scalar, Transform, Vector};
use crate::protocol::{media_view, samples_view};

verus! {

/// Where a viewer stands and which way the viewer faces.
#[derive(Debug, PartialEq, Eq)]
pub struct Orientation {
    pub direction: Vector,
    pub position: Vector,
}

impl Clone for Orientation {
    fn clone(&self) -> (copy: Self)
        ensures
            copy == *self,
    {
        Orientation { direction: self.direction.clone(), position: self.position.clone() }
    }
}

/// The local backward axis, `(0, 0, -1, 0)`. A viewer faces along the
/// negative z axis of its pose.
pub open spec fn backward() -> Column {
    Column { x: 0, y: 0, z: (-1) as i8, w: 0 }
}

/// The local origin, `(0, 0, 0, 1)`.
pub open spec fn origin() -> Column {
    Column { x: 0, y: 0, z: 0, w: 1 }
}

/// The poses added up from the matrix of zeros, first sample first.
pub open spec fn sum_of(poses: Seq<Matrix>) -> Transform
    decreases poses.len(),
{
    if poses.len() == 0 {
        Transform::Zero
    } else {
        Transform::Sum(
            Box::new(sum_of(poses.drop_last())),
            Box::new(Transform::Host(poses.last())),
        )
    }
}

/// The arithmetic mean of the poses, cell by cell: their sum divided by
/// their number.
pub open spec fn mean_of(poses: Seq<Matrix>) -> Transform {
    Transform::Quotient(
        Box::new(sum_of(poses)),
        Box::new(Scalar::Whole(poses.len() as u128)),
    )
}

/// The orientation of a viewer with the given pose: the backward axis and the
/// origin, each sent through the pose and projected to 3-space.
pub open spec fn facing_of(pose: Transform) -> Orientation {
    Orientation {
        direction: Vector::Projected(Box::new(pose), backward()),
        position: Vector::Projected(Box::new(pose), origin()),
    }
}

/// The averaged pose of one medium with its orientation, or nothing for an
/// inactive medium.
pub open spec fn medium_of(samples: Option<Seq<Matrix>>) -> Option<(Transform, Orientation)> {
    match samples {
        Some(poses) => Some((mean_of(poses), facing_of(mean_of(poses)))),
        None => None,
    }
}

/// The averaged pose and orientation of every medium.
pub open spec fn media_of(media: Seq<Option<Seq<Matrix>>>) -> Seq<Option<(Transform, Orientation)>> {
    Seq::new(media.len(), |i: int| medium_of(media[i]))
}

/// The orientation that picking and grabbing go by: that of the first medium
/// where one or two media are reported and the first is active, else none.
pub open spec fn primary_of(views: Seq<Option<(Transform, Orientation)>>) -> Option<
    (Transform, Orientation),
> {
    if (views.len() == 1 || views.len() == 2) && views[0].is_some() {
        views[0]
    } else {
        None
    }
}

/// Averages the poses of one medium.
pub fn average(poses: &Vec<Matrix>) -> (mean: Transform)
    ensures
        mean == mean_of(poses@),
{
    let mut sum = Transform::Zero;
    let mut taken: usize = 0;
    while taken < poses.len()
        invariant
            taken <= poses.len(),
            sum == sum_of(poses@.take(taken as int)),
        decreases poses.len() - taken,
    {
        proof {
            assert(poses@.take(taken + 1).drop_last() =~= poses@.take(taken as int));
        }
        sum = Transform::Sum(Box::new(sum), Box::new(Transform::Host(poses[taken])));
        taken = taken + 1;
    }
    proof {
        assert(poses@.take(taken as int) =~= poses@);
    }
    Transform::Quotient(Box::new(sum), Box::new(Scalar::Whole(poses.len() as u128)))
}

impl Orientation {
    /// The orientation of a viewer with the given pose.
    pub fn facing(pose: &Transform) -> (orientation: Orientation)
        ensures
            orientation == facing_of(*pose),
    {
        Orientation {
            direction: Vector::Projected(Box::new(pose.clone()), Column { x: 0, y: 0, z: -1, w: 0 }),
            position: Vector::Projected(Box::new(pose.clone()), Column { x: 0, y: 0, z: 0, w: 1 }),
        }
    }
}

/// Aggregates the samples of every medium.
pub fn aggregate(media: &Vec<Option<Vec<Matrix>>>) -> (views: Vec<Option<(Transform, Orientation)>>)
    ensures
        views@ == media_of(media_view(media@)),
{
    let mut views: Vec<Option<(Transform, Orientation)>> = Vec::new();
    let mut done: usize = 0;
    while done < media.len()
        invariant
            done <= media.len(),
            views@.len() == done,
            forall|i: int|
                0 <= i < done ==> #[trigger] views@[i] == medium_of(
                    samples_view(media@[i]),
                ),
        decreases media.len() - done,
    {
        let view = match &media[done] {
            Some(poses) => {
                let mean = average(poses);
                let orientation = Orientation::facing(&mean);
                Some((mean, orientation))
            },
            None => None,
        };
        views.push(view);
        done = done + 1;
    }
    proof {
        assert(views@ =~= media_of(media_view(media@)));
    }
    views
}

/// Picks the primary orientation.
pub fn select_primary(views: &Vec<Option<(Transform, Orientation)>>) -> (chosen: Option<
    (Transform, Orientation),
>)
    ensures
        chosen == primary_of(views@),
{
    if views.len() == 1 || views.len() == 2 {
        match &views[0] {
            Some((pose, orientation)) => Some((pose.clone(), orientation.clone())),
            None => None,
        }
    } else {
        None
    }
}

} // verus!
