//! The application as a state machine: what it holds, and what a tick, a
//! response, an input event and a poll of the host do to it.

use vstd::prelude::*;
use vstd::string::StringSliceAdditionalSpecFns;
use crate::formula::{Matrix, Point, Scalar, Transform, Vector};
use crate::grab::{carried, Grab};
use crate::io::IoView;
use crate::orientation::{media_of, primary_of, Orientation};
use crate::picker::{advance_of, started, Pick, RayTracingTask};
use crate::placement::{in_scene, marker_placement};
use crate::protocol::{
    CommandKindView, CommandView, ElementState, Entity, Event, Intersection, Model, MouseButton,
    ResponseView,
};
use crate::selection::{growth_of, observe_of, Selection};
use crate::sequencer::QueueView;
use crate::showcase::{LayoutView, ShowcaseView};
use crate::slots::{bind, first_empty, has_empty, packed, position, vacant};

verus! {

/// The state of the application.
pub struct MappView {
    pub layout: LayoutView,
    /// The time of the latest tick, in nanoseconds.
    pub elapsed: u128,
    pub queue: QueueView,
    pub root: Option<Entity>,
    /// The model of every slot, as far as the host has reported it.
    pub models: Seq<Option<Model>>,
    /// The entity of every slot, as far as the host has reported it.
    pub entities: Seq<Option<Entity>>,
    /// The transform of every scene entity while nothing holds it.
    pub bases: Seq<Option<Transform>>,
    /// The averaged pose and the orientation of the primary view.
    pub primary: Option<(Transform, Orientation)>,
    /// The pick in flight.
    pub task: Option<RayTracingTask>,
    pub grab: Option<Grab>,
    /// Whether the pointer button is down, so that the next resolved pick
    /// grabs what it hits.
    pub pressing: bool,
    pub selection: Option<Selection>,
    /// The index of the scene model that the buttons step through.
    pub displayed: int,
    pub io: IoView,
}

/// The text that is logged when the pointer button goes down.
pub open spec fn grab_initiated() -> Seq<u8> {
    "Grab initiated.\n".spec_bytes()
}

/// The text that is logged when the pointer button comes up.
pub open spec fn grab_ended() -> Seq<u8> {
    "Grab ended.\n".spec_bytes()
}

/// The commands that a new application issues: one for the root entity, one
/// per model in the order scene, marker, buttons, then one per entity.
pub open spec fn bootstrap(showcase: ShowcaseView) -> Seq<CommandKindView> {
    seq![CommandKindView::RootEntityGet] + Seq::new(
        showcase.scene.len(),
        |i: int| CommandKindView::ModelCreate { data: showcase.scene[i].0 },
    ) + seq![CommandKindView::ModelCreate { data: showcase.marker }] + Seq::new(
        showcase.buttons.len(),
        |i: int| CommandKindView::ModelCreate { data: showcase.buttons[i].0 },
    ) + Seq::new(
        showcase.scene.len() + 1 + showcase.buttons.len(),
        |i: int| CommandKindView::EntityCreate,
    )
}

/// The state of a new application.
pub open spec fn initial(showcase: ShowcaseView) -> MappView {
    MappView {
        layout: showcase.layout(),
        elapsed: 0,
        queue: (QueueView { next_id: 0, pending: Seq::empty() }).enqueue_all(bootstrap(showcase)),
        root: None,
        models: vacant(showcase.layout().slots() as nat),
        entities: vacant(showcase.layout().slots() as nat),
        bases: vacant(showcase.layout().scene() as nat),
        primary: None,
        task: None,
        grab: None,
        pressing: false,
        selection: None,
        displayed: 0,
        io: IoView { out: Seq::empty(), err: Seq::empty() },
    }
}

impl MappView {
    /// What holds of every state that the application reaches.
    pub open spec fn wf(self) -> bool {
        &&& self.queue.wf()
        &&& self.models.len() == self.layout.slots()
        &&& self.entities.len() == self.layout.slots()
        &&& self.bases.len() == self.layout.scene()
        &&& packed(self.models)
        &&& packed(self.entities)
        &&& forall|slot: int|
            0 <= slot < self.layout.scene() ==> ((#[trigger] self.bases[slot]).is_some()
                <==> self.entities[slot].is_some())
        &&& 0 <= self.displayed
        &&& self.displayed < self.layout.scene() || self.displayed == 0
    }

    /// The entity of the marker, once the host has reported it.
    pub open spec fn marker_entity(self) -> Option<Entity> {
        self.entities[self.layout.marker()]
    }

    /// The model of the marker, once the host has reported it.
    pub open spec fn marker_model(self) -> Option<Model> {
        self.models[self.layout.marker()]
    }

    /// The state with one more command issued.
    pub open spec fn issue(self, kind: CommandKindView) -> MappView {
        MappView { queue: self.queue.enqueue(kind), ..self }
    }

    /// How many scene entities the host has reported.
    pub open spec fn bound(self) -> int {
        if first_empty(self.entities) < self.layout.scene() {
            first_empty(self.entities)
        } else {
            self.layout.scene()
        }
    }

    /// Whether the entity of a scene slot is the one that is held.
    pub open spec fn held(self, slot: int) -> bool {
        self.grab.is_some() && self.entities[slot] == Some(self.grab.unwrap().entity)
    }

    /// The transform of a scene entity right now: its base, carried along
    /// with the view while the entity is held.
    pub open spec fn live(self, slot: int) -> Transform {
        if self.held(slot) {
            carried(
                self.primary.unwrap().0,
                self.grab.unwrap().original_transform,
                self.bases[slot].unwrap(),
            )
        } else {
            self.bases[slot].unwrap()
        }
    }

    /// The button that an entity stands for, if it stands for one.
    pub open spec fn button_of(self, entity: Entity) -> Option<int> {
        match position(self.entities, entity, self.layout.button(0), self.layout.slots()) {
            Some(slot) => Some(slot - self.layout.button(0)),
            None => None,
        }
    }

    /// The commands of a tick: the transform of every scene entity reported
    /// so far and, once all of them are reported, a request for the view
    /// orientation.
    pub open spec fn tick_kinds(self) -> Seq<CommandKindView> {
        Seq::new(
            self.bound() as nat,
            |slot: int|
                CommandKindView::EntityTransformSet {
                    entity: self.entities[slot].unwrap(),
                    transform: Some(in_scene(self.live(slot))),
                },
        ) + if self.bound() == self.layout.scene() {
            seq![CommandKindView::GetViewOrientation]
        } else {
            Seq::empty()
        }
    }

    /// Whether a tick can be taken: the identifiers suffice, and the primary
    /// view is known if a scene entity is held.
    pub open spec fn can_tick(self) -> bool {
        &&& self.queue.has_room(self.tick_kinds().len() as int)
        &&& forall|slot: int| 0 <= slot < self.bound() && self.held(slot) ==> self.primary.is_some()
    }

    /// The state after a tick at time `elapsed`.
    pub open spec fn tick(self, elapsed: u128) -> MappView {
        MappView { elapsed, queue: self.queue.enqueue_all(self.tick_kinds()), ..self }
    }

    /// The state after the host took the oldest pending command, if there
    /// was one.
    pub open spec fn drain(self) -> MappView {
        MappView { queue: self.queue.dequeue(), ..self }
    }

    /// The state after the host collected the diagnostic text.
    pub open spec fn flush(self) -> MappView {
        MappView { io: IoView { out: Seq::empty(), err: Seq::empty() }, ..self }
    }

    /// The state after the host reported a model: the model is bound to the
    /// first empty model slot.
    pub open spec fn model_created(self, model: Model) -> MappView {
        MappView { models: bind(self.models, model), ..self }
    }

    /// The state after the host reported an entity: the entity is bound to
    /// the first empty entity slot, a scene entity gets its base transform,
    /// and the entity is given its parent, the model of its slot as far as
    /// that is known, and its transform.
    pub open spec fn entity_created(self, entity: Entity) -> MappView {
        let slot = first_empty(self.entities);
        let placement = self.layout.placement(slot);
        let placed = MappView {
            entities: bind(self.entities, entity),
            bases: if slot < self.layout.scene() {
                self.bases.update(slot, Some(placement))
            } else {
                self.bases
            },
            ..self
        };
        placed.issue(
            CommandKindView::EntityParentSet { entity, parent_entity: self.root.unwrap() },
        ).issue(CommandKindView::EntityModelSet { entity, model: self.models[slot] }).issue(
            CommandKindView::EntityTransformSet { entity, transform: Some(in_scene(placement)) },
        )
    }

    /// The state after the host reported the poses of the viewing media:
    /// the primary view is replaced and, where there is one, a pick starts
    /// from it.
    pub open spec fn views_reported(self, media: Seq<Option<Seq<Matrix>>>) -> MappView {
        match primary_of(media_of(media)) {
            Some((pose, orientation)) => (MappView {
                primary: Some((pose, orientation)),
                task: Some(started(pose, orientation.direction)),
                ..self
            }).issue(
                CommandKindView::RayTrace {
                    origin: orientation.position,
                    direction: orientation.direction,
                },
            ),
            None => MappView { primary: None, ..self },
        }
    }

    /// The state after a ray met nothing: the marker loses its model, and
    /// pick and dwell are over.
    pub open spec fn ray_missed(self) -> MappView {
        (MappView { task: None, selection: None, ..self }).issue(
            CommandKindView::EntityModelSet { entity: self.marker_entity().unwrap(), model: None },
        )
    }

    /// The state after a ray met the marker: the pick goes on behind it.
    pub open spec fn ray_bounced(self, task: RayTracingTask, origin: Vector) -> MappView {
        (MappView { task: Some(task), ..self }).issue(
            CommandKindView::RayTrace { origin, direction: task.direction },
        )
    }

    /// The factor by which the marker grows on a hit of `entity`: there is
    /// one while a dwell on that entity is under way.
    pub open spec fn growth(self, entity: Entity) -> Option<Scalar> {
        if self.selection.is_some() && self.selection.unwrap().target == entity {
            Some(growth_of(self.selection.unwrap(), self.elapsed))
        } else {
            None
        }
    }

    /// The displayed model index after a hit of `entity` that did or did not
    /// complete a dwell.
    pub open spec fn displayed_after(self, entity: Entity, fired: bool) -> int {
        if fired && self.button_of(entity).is_some() {
            self.layout.stepped(
                self.displayed,
                self.layout.buttons[self.button_of(entity).unwrap()].action,
            )
        } else {
            self.displayed
        }
    }

    /// The state after a pick resolved to `entity`: the marker is shown at
    /// the hit, the pick is over, the entity is grabbed if the button is down
    /// and nothing is held yet, and the dwell timer observes the hit.
    pub open spec fn ray_resolved(
        self,
        entity: Entity,
        position: Point,
        total_distance: Scalar,
        transform: Transform,
    ) -> MappView {
        let marker = self.marker_entity().unwrap();
        let dwell = observe_of(
            self.selection,
            Some(entity),
            self.button_of(entity).is_some(),
            self.elapsed,
            self.layout.dwell,
        );
        (MappView {
            task: None,
            grab: if self.pressing && self.grab.is_none() {
                Some(Grab { entity, original_transform: transform })
            } else {
                self.grab
            },
            selection: dwell.selection,
            displayed: self.displayed_after(entity, dwell.fired),
            ..self
        }).issue(CommandKindView::EntityModelSet { entity: marker, model: self.marker_model() }).issue(
            CommandKindView::EntityTransformSet {
                entity: marker,
                transform: Some(
                    in_scene(marker_placement(position, total_distance, self.growth(entity))),
                ),
            },
        )
    }

    /// The state after the host reported what a ray met.
    pub open spec fn ray_traced(self, hit: Option<Intersection>) -> MappView {
        match advance_of(self.task, hit, self.marker_entity().unwrap()) {
            Pick::Missed => self.ray_missed(),
            Pick::Bounced { task, origin } => self.ray_bounced(task, origin),
            Pick::Resolved { entity, position, total_distance, transform } => self.ray_resolved(
                entity,
                position,
                total_distance,
                transform,
            ),
        }
    }

    /// How many commands a ray-trace response makes the application issue.
    pub open spec fn ray_commands(self, hit: Option<Intersection>) -> int {
        if hit.is_some() && Some(hit.unwrap().entity) != self.marker_entity() {
            2
        } else {
            1
        }
    }

    /// Whether a response fits the state. A response that does not is a
    /// breach of the protocol: a model or an entity beyond the slots, an
    /// entity before the root is known, a ray trace before the marker has its
    /// entity, or a hit without a pick in flight. The identifiers must
    /// suffice for the commands that the response calls for.
    pub open spec fn can_respond(self, response: ResponseView) -> bool {
        match response {
            ResponseView::ModelCreate { model } => has_empty(self.models),
            ResponseView::EntityCreate { entity } => {
                &&& has_empty(self.entities)
                &&& self.root.is_some()
                &&& self.queue.has_room(3)
            },
            ResponseView::GetViewOrientation { views_per_medium } => primary_of(
                media_of(views_per_medium),
            ).is_some() ==> self.queue.has_room(1),
            ResponseView::RayTrace { closest_intersection } => {
                &&& self.marker_entity().is_some()
                &&& closest_intersection.is_some() ==> self.task.is_some()
                &&& self.queue.has_room(self.ray_commands(closest_intersection))
            },
            _ => true,
        }
    }

    /// The state after a response.
    pub open spec fn respond(self, response: ResponseView) -> MappView {
        match response {
            ResponseView::RootEntityGet { root_entity } => MappView {
                root: Some(root_entity),
                ..self
            },
            ResponseView::ModelCreate { model } => self.model_created(model),
            ResponseView::EntityCreate { entity } => self.entity_created(entity),
            ResponseView::GetViewOrientation { views_per_medium } => self.views_reported(
                views_per_medium,
            ),
            ResponseView::RayTrace { closest_intersection } => self.ray_traced(closest_intersection),
            _ => self,
        }
    }

    /// The scene slot of the entity that is held.
    pub open spec fn held_slot(self) -> Option<int> {
        match self.grab {
            Some(grab) => position(self.entities, grab.entity, 0, self.layout.scene()),
            None => None,
        }
    }

    /// The state after the pointer button went down.
    pub open spec fn pressed(self) -> MappView {
        MappView {
            pressing: true,
            io: IoView { out: self.io.out + grab_initiated(), err: self.io.err },
            ..self
        }
    }

    /// The state after the pointer button came up: what was held stays where
    /// the view carried it.
    pub open spec fn released(self) -> MappView {
        MappView {
            pressing: false,
            io: IoView { out: self.io.out + grab_ended(), err: self.io.err },
            bases: if self.grab.is_some() {
                self.bases.update(
                    self.held_slot().unwrap(),
                    Some(self.live(self.held_slot().unwrap())),
                )
            } else {
                self.bases
            },
            grab: None,
            ..self
        }
    }

    /// Whether an event is one that the application acts on with the given
    /// change of the button.
    pub open spec fn acts_on(self, event: Event, state: ElementState) -> bool {
        self.layout.grabbing && event == (Event::MouseInput { button: MouseButton::Left, state })
    }

    /// Whether an event fits the state. Letting go of an entity needs the
    /// entity to be of the scene and the primary view to be known.
    pub open spec fn can_notify(self, event: Event) -> bool {
        self.acts_on(event, ElementState::Released) && self.grab.is_some() ==> {
            &&& self.held_slot().is_some()
            &&& self.primary.is_some()
        }
    }

    /// The state after an input event.
    pub open spec fn notify(self, event: Event) -> MappView {
        if self.acts_on(event, ElementState::Pressed) {
            self.pressed()
        } else if self.acts_on(event, ElementState::Released) {
            self.released()
        } else {
            self
        }
    }
}

/// One call of the host into the application.
pub enum Step {
    Tick { elapsed: u128 },
    Respond { response: ResponseView },
    Notify { event: Event },
    /// The host polls for the next command.
    Drain,
    /// The host collects the diagnostic text.
    Flush,
}

impl MappView {
    /// Whether the call fits the state.
    pub open spec fn allows(self, step: Step) -> bool {
        match step {
            Step::Tick { elapsed } => self.can_tick(),
            Step::Respond { response } => self.can_respond(response),
            Step::Notify { event } => self.can_notify(event),
            Step::Drain => true,
            Step::Flush => true,
        }
    }

    /// The state after the call.
    pub open spec fn step(self, step: Step) -> MappView {
        match step {
            Step::Tick { elapsed } => self.tick(elapsed),
            Step::Respond { response } => self.respond(response),
            Step::Notify { event } => self.notify(event),
            Step::Drain => self.drain(),
            Step::Flush => self.flush(),
        }
    }

    /// The state after the calls, made one after the other.
    pub open spec fn run(self, steps: Seq<Step>) -> MappView
        decreases steps.len(),
    {
        if steps.len() == 0 {
            self
        } else {
            self.run(steps.drop_last()).step(steps.last())
        }
    }

    /// Whether every call fits the state in which it is made.
    pub open spec fn legal(self, steps: Seq<Step>) -> bool
        decreases steps.len(),
    {
        steps.len() == 0 || (self.legal(steps.drop_last()) && self.run(steps.drop_last()).allows(
            steps.last(),
        ))
    }

    /// The commands that the polls among the calls hand to the host, in the
    /// order in which they are handed out.
    pub open spec fn handed_out(self, steps: Seq<Step>) -> Seq<CommandView>
        decreases steps.len(),
    {
        if steps.len() == 0 {
            Seq::empty()
        } else {
            let before = self.run(steps.drop_last());
            let so_far = self.handed_out(steps.drop_last());
            if steps.last() is Drain && before.queue.pending.len() > 0 {
                so_far.push(before.queue.pending[0])
            } else {
                so_far
            }
        }
    }
}

} // verus!
