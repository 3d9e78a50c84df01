//! The vocabulary shared with the host: handles, commands, responses and
//! input events.

use vstd::prelude::*;
use crate::formula::{Matrix, Point, Transform, Vector};

verus! {

/// A scene-graph node, named by the handle the host issued for it.
#[derive(Clone, Copy, Debug, PartialEq, Eq, Structural, Hash)]
pub struct Entity {
    pub id: u64,
}

/// A loaded renderable asset, named by the handle the host issued for it.
#[derive(Clone, Copy, Debug, PartialEq, Eq, Structural, Hash)]
pub struct Model {
    pub id: u64,
}

/// What a command asks of the host.
#[derive(Debug, PartialEq, Eq)]
pub enum CommandKind {
    RootEntityGet,
    /// Load a model from the raw bytes of an asset.
    ModelCreate { data: Vec<u8> },
    EntityCreate,
    EntityParentSet { entity: Entity, parent_entity: Entity },
    /// Attach a model to an entity, or detach the one it has.
    EntityModelSet { entity: Entity, model: Option<Model> },
    EntityTransformSet { entity: Entity, transform: Option<Transform> },
    GetViewOrientation,
    RayTrace { origin: Vector, direction: Vector },
}

/// A command kind with its asset bytes as a sequence.
pub enum CommandKindView {
    RootEntityGet,
    ModelCreate { data: Seq<u8> },
    EntityCreate,
    EntityParentSet { entity: Entity, parent_entity: Entity },
    EntityModelSet { entity: Entity, model: Option<Model> },
    EntityTransformSet { entity: Entity, transform: Option<Transform> },
    GetViewOrientation,
    RayTrace { origin: Vector, direction: Vector },
}

impl View for CommandKind {
    type V = CommandKindView;

    open spec fn view(&self) -> CommandKindView {
        match *self {
            CommandKind::RootEntityGet => CommandKindView::RootEntityGet,
            CommandKind::ModelCreate { data } => CommandKindView::ModelCreate { data: data@ },
            CommandKind::EntityCreate => CommandKindView::EntityCreate,
            CommandKind::EntityParentSet { entity, parent_entity } => CommandKindView::EntityParentSet {
                entity,
                parent_entity,
            },
            CommandKind::EntityModelSet { entity, model } => CommandKindView::EntityModelSet {
                entity,
                model,
            },
            CommandKind::EntityTransformSet { entity, transform } => CommandKindView::EntityTransformSet {
                entity,
                transform,
            },
            CommandKind::GetViewOrientation => CommandKindView::GetViewOrientation,
            CommandKind::RayTrace { origin, direction } => CommandKindView::RayTrace {
                origin,
                direction,
            },
        }
    }
}

/// A command as the host receives it. The identifier is fixed when the
/// command is issued.
#[derive(Debug, PartialEq, Eq)]
pub struct Command {
    pub id: u64,
    pub kind: CommandKind,
}

/// A command with its kind viewed.
pub struct CommandView {
    pub id: int,
    pub kind: CommandKindView,
}

impl View for Command {
    type V = CommandView;

    open spec fn view(&self) -> CommandView {
        CommandView { id: self.id as int, kind: self.kind@ }
    }
}

/// Where a ray first meets the scene.
#[derive(Clone, Copy, Debug, PartialEq, Eq, Structural, Hash)]
pub struct Intersection {
    pub entity: Entity,
    pub position: Point,
    /// The length of the ray from its origin to `position`, by its 32-bit
    /// pattern.
    pub distance_from_origin: u32,
}

/// What the host reports back for a command. The kinds mirror those of the
/// commands.
#[derive(Debug, PartialEq, Eq)]
pub enum CommandResponseKind {
    RootEntityGet { root_entity: Entity },
    ModelCreate { model: Model },
    EntityCreate { entity: Entity },
    EntityParentSet,
    EntityModelSet,
    EntityTransformSet,
    /// For each viewing medium the poses sampled this tick, or nothing where
    /// the medium is inactive.
    GetViewOrientation { views_per_medium: Vec<Option<Vec<Matrix>>> },
    RayTrace { closest_intersection: Option<Intersection> },
}

/// A response kind with its pose samples as sequences.
pub enum ResponseView {
    RootEntityGet { root_entity: Entity },
    ModelCreate { model: Model },
    EntityCreate { entity: Entity },
    EntityParentSet,
    EntityModelSet,
    EntityTransformSet,
    GetViewOrientation { views_per_medium: Seq<Option<Seq<Matrix>>> },
    RayTrace { closest_intersection: Option<Intersection> },
}

/// The pose samples of one medium as a sequence.
pub open spec fn samples_view(samples: Option<Vec<Matrix>>) -> Option<Seq<Matrix>> {
    match samples {
        Some(poses) => Some(poses@),
        None => None,
    }
}

/// The pose samples of all media as sequences.
pub open spec fn media_view(media: Seq<Option<Vec<Matrix>>>) -> Seq<Option<Seq<Matrix>>> {
    Seq::new(media.len(), |i: int| samples_view(media[i]))
}

impl View for CommandResponseKind {
    type V = ResponseView;

    open spec fn view(&self) -> ResponseView {
        match *self {
            CommandResponseKind::RootEntityGet { root_entity } => ResponseView::RootEntityGet {
                root_entity,
            },
            CommandResponseKind::ModelCreate { model } => ResponseView::ModelCreate { model },
            CommandResponseKind::EntityCreate { entity } => ResponseView::EntityCreate { entity },
            CommandResponseKind::EntityParentSet => ResponseView::EntityParentSet,
            CommandResponseKind::EntityModelSet => ResponseView::EntityModelSet,
            CommandResponseKind::EntityTransformSet => ResponseView::EntityTransformSet,
            CommandResponseKind::GetViewOrientation {
                views_per_medium,
            } => ResponseView::GetViewOrientation { views_per_medium: media_view(views_per_medium@) },
            CommandResponseKind::RayTrace { closest_intersection } => ResponseView::RayTrace {
                closest_intersection,
            },
        }
    }
}

/// A response as the host delivers it, tagged with the identifier of the
/// command it answers.
#[derive(Debug, PartialEq, Eq)]
pub struct CommandResponse {
    pub id: u64,
    pub kind: CommandResponseKind,
}

/// A pointer button.
#[derive(Clone, Copy, Debug, PartialEq, Eq, Structural, Hash)]
pub enum MouseButton {
    Left,
    Right,
    Middle,
    Other(u8),
}

/// Whether a button went down or came up.
#[derive(Clone, Copy, Debug, PartialEq, Eq, Structural, Hash)]
pub enum ElementState {
    Pressed,
    Released,
}

/// A discrete input notification.
#[derive(Clone, Copy, Debug, PartialEq, Eq, Structural, Hash)]
pub enum Event {
    MouseInput { button: MouseButton, state: ElementState },
    /// Any notification the core does not act on.
    Other,
}

/// Diagnostic text collected since the previous flush.
#[derive(Debug, PartialEq, Eq)]
pub struct IO {
    pub out: Vec<u8>,
    pub err: Vec<u8>,
}

} // verus!
