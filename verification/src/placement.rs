//! Where things are put: the transforms of scene entities, of the marker,
//! and the frame in which every transform is sent.

use vstd::prelude::*;
use crate::formula::{Axis, Point, Scalar, Transform, Vector};

verus! {

/// The frame of the whole scene: a yaw of zero radians.
pub open spec fn global() -> Transform {
    Transform::Yaw(Box::new(Scalar::Whole(0)))
}

/// A transform as it is sent to the host: in the frame of the scene.
pub open spec fn in_scene(transform: Transform) -> Transform {
    Transform::Product(Box::new(global()), Box::new(transform))
}

/// Where the scene entity in slot `index` starts out: moved along the z axis
/// by two units and four more for every slot before it, and scaled by the
/// scale of its model.
pub open spec fn scene_placement(index: int, scale: Scalar) -> Transform {
    Transform::Product(
        Box::new(
            Transform::Translation(
                Box::new(
                    Vector::Triple(
                        Box::new(Scalar::Whole(0)),
                        Box::new(Scalar::Whole(0)),
                        Box::new(
                            Scalar::Sum(
                                Box::new(Scalar::Whole(2)),
                                Box::new(
                                    Scalar::Product(
                                        Box::new(Scalar::Whole(4)),
                                        Box::new(Scalar::Whole(index as u128)),
                                    ),
                                ),
                            ),
                        ),
                    ),
                ),
            ),
        ),
        Box::new(Transform::Scaling(Box::new(scale))),
    )
}

/// The size of the marker at a hit after `total_distance` of travel: one
/// fiftieth of the distance, so that the marker looks equally large at any
/// depth, times the growth factor where there is one.
pub open spec fn marker_scale(total_distance: Scalar, growth: Option<Scalar>) -> Scalar {
    let plain = Scalar::Product(
        Box::new(Scalar::Quotient(Box::new(Scalar::Whole(1)), Box::new(Scalar::Whole(50)))),
        Box::new(total_distance),
    );
    match growth {
        Some(factor) => Scalar::Product(Box::new(plain), Box::new(factor)),
        None => plain,
    }
}

/// Where the marker is put for a hit at `position`: moved to the hit, then
/// scaled.
pub open spec fn marker_placement(position: Point, total_distance: Scalar, growth: Option<Scalar>) -> Transform {
    Transform::Product(
        Box::new(Transform::Translation(Box::new(Vector::Host(position)))),
        Box::new(Transform::Scaling(Box::new(marker_scale(total_distance, growth)))),
    )
}

/// The transform of a model that is scaled, then pitched, yawed and rolled
/// by the x, y and z coordinates of `rotation`, then moved by `translation`.
pub open spec fn model_matrix(scale: Scalar, translation: Vector, rotation: Vector) -> Transform {
    Transform::Product(
        Box::new(
            Transform::Product(
                Box::new(
                    Transform::Product(
                        Box::new(
                            Transform::Product(
                                Box::new(Transform::Translation(Box::new(translation))),
                                Box::new(
                                    Transform::Roll(
                                        Box::new(Scalar::Component(Box::new(rotation), Axis::Z)),
                                    ),
                                ),
                            ),
                        ),
                        Box::new(
                            Transform::Yaw(Box::new(Scalar::Component(Box::new(rotation), Axis::Y))),
                        ),
                    ),
                ),
                Box::new(Transform::Pitch(Box::new(Scalar::Component(Box::new(rotation), Axis::X)))),
            ),
        ),
        Box::new(Transform::Scaling(Box::new(scale))),
    )
}

/// Puts a transform into the frame of the scene.
pub fn to_scene(transform: Transform) -> (sent: Transform)
    ensures
        sent == in_scene(transform),
{
    Transform::Product(
        Box::new(Transform::Yaw(Box::new(Scalar::Whole(0)))),
        Box::new(transform),
    )
}

/// Places the scene entity of slot `index`.
pub fn place_scene_entity(index: usize, scale: &Scalar) -> (placement: Transform)
    ensures
        placement == scene_placement(index as int, *scale),
{
    let depth = Scalar::Sum(
        Box::new(Scalar::Whole(2)),
        Box::new(
            Scalar::Product(Box::new(Scalar::Whole(4)), Box::new(Scalar::Whole(index as u128))),
        ),
    );
    let offset = Vector::Triple(
        Box::new(Scalar::Whole(0)),
        Box::new(Scalar::Whole(0)),
        Box::new(depth),
    );
    Transform::Product(
        Box::new(Transform::Translation(Box::new(offset))),
        Box::new(Transform::Scaling(Box::new(scale.clone()))),
    )
}

/// Places the marker at a hit.
pub fn place_marker(position: Point, total_distance: Scalar, growth: Option<Scalar>) -> (placement:
    Transform)
    ensures
        placement == marker_placement(position, total_distance, growth),
{
    let plain = Scalar::Product(
        Box::new(Scalar::Quotient(Box::new(Scalar::Whole(1)), Box::new(Scalar::Whole(50)))),
        Box::new(total_distance),
    );
    let scale = match growth {
        Some(factor) => Scalar::Product(Box::new(plain), Box::new(factor)),
        None => plain,
    };
    Transform::Product(
        Box::new(Transform::Translation(Box::new(Vector::Host(position)))),
        Box::new(Transform::Scaling(Box::new(scale))),
    )
}

/// Builds the transform of a model from its scale, its translation and its
/// rotation about the three axes.
pub fn construct_model_matrix(scale: Scalar, translation: &Vector, rotation: &Vector) -> (matrix:
    Transform)
    ensures
        matrix == model_matrix(scale, *translation, *rotation),
{
    let moved = Transform::Translation(Box::new(translation.clone()));
    let roll = Transform::Roll(Box::new(Scalar::Component(Box::new(rotation.clone()), Axis::Z)));
    let yaw = Transform::Yaw(Box::new(Scalar::Component(Box::new(rotation.clone()), Axis::Y)));
    let pitch = Transform::Pitch(Box::new(Scalar::Component(Box::new(rotation.clone()), Axis::X)));
    let scaled = Transform::Scaling(Box::new(scale));
    let rolled = Transform::Product(Box::new(moved), Box::new(roll));
    let yawed = Transform::Product(Box::new(rolled), Box::new(yaw));
    let pitched = Transform::Product(Box::new(yawed), Box::new(pitch));
    Transform::Product(Box::new(pitched), Box::new(scaled))
}

} // verus!
