//! The application: the entry points that the host drives it through.

use vstd::prelude::*;
use crate::formula::{Matrix, Point, Scalar, Transform};
use crate::grab::Grab;
use crate::io::{joined, lemma_joined_one, SyncIO};
use crate::machine::{bootstrap, grab_ended, grab_initiated, initial, MappView};
use crate::orientation::{aggregate, select_primary, Orientation};
use crate::picker::{advance, Pick, RayTracingTask};
use crate::placement::{place_marker, place_scene_entity, to_scene};
use crate::protocol::{
    media_view, Command, CommandKind, CommandKindView, CommandResponse, CommandResponseKind,
    ElementState, Entity, Event, Intersection, Model, MouseButton, ResponseView, IO,
};
use crate::selection::{observe, Selection};
use crate::sequencer::{lemma_enqueue_all, numbered, QueueView, Sequencer};
use crate::showcase::{Action, Button, LayoutView, Showcase, ShowcaseView};
use crate::slots::{
    lemma_bind, lemma_first_empty, lemma_packed_split, lemma_position, lemma_vacant_packed, position,
    vacant, SlotArray,
};

verus! {

/// The application.
pub struct ExampleMapp {
    scales: Vec<Scalar>,
    buttons: Vec<Button>,
    dwell: u128,
    grabbing: bool,
    elapsed: u128,
    commands: Sequencer,
    root_entity: Option<Entity>,
    models: SlotArray<Model>,
    entities: SlotArray<Entity>,
    transforms_main: Vec<Option<Transform>>,
    primary_view_orientation: Option<(Transform, Orientation)>,
    ray_tracing_task: Option<RayTracingTask>,
    grabbed_entity: Option<Grab>,
    grab_entity: bool,
    selection: Option<Selection>,
    displayed: usize,
    io: SyncIO,
}

impl View for ExampleMapp {
    type V = MappView;

    closed spec fn view(&self) -> MappView {
        MappView {
            layout: LayoutView {
                scales: self.scales@,
                buttons: self.buttons@,
                dwell: self.dwell,
                grabbing: self.grabbing,
            },
            elapsed: self.elapsed,
            queue: self.commands@,
            root: self.root_entity,
            models: self.models@,
            entities: self.entities@,
            bases: self.transforms_main@,
            primary: self.primary_view_orientation,
            task: self.ray_tracing_task,
            grab: self.grabbed_entity,
            pressing: self.grab_entity,
            selection: self.selection,
            displayed: self.displayed as int,
            io: self.io@,
        }
    }
}

/// Whether the identifiers suffice for the commands that a new application
/// issues for the showcase.
pub open spec fn can_start(showcase: ShowcaseView) -> bool {
    bootstrap(showcase).len() <= u64::MAX
}

/// Issuing the first `count + 1` of some commands is issuing the first
/// `count` and then the next one.
proof fn lemma_enqueue_next(q: QueueView, kinds: Seq<CommandKindView>, count: int)
    requires
        0 <= count < kinds.len(),
    ensures
        q.enqueue_all(kinds.take(count + 1)) == q.enqueue_all(kinds.take(count)).enqueue(
            kinds[count],
        ),
{
    assert(kinds.take(count + 1).drop_last() =~= kinds.take(count));
}

fn copy_bytes(bytes: &Vec<u8>) -> (copy: Vec<u8>)
    ensures
        copy@ == bytes@,
{
    let mut copy: Vec<u8> = Vec::new();
    let mut at: usize = 0;
    while at < bytes.len()
        invariant
            at <= bytes.len(),
            copy@ == bytes@.take(at as int),
        decreases bytes.len() - at,
    {
        copy.push(bytes[at]);
        at = at + 1;
        assert(copy@ =~= bytes@.take(at as int));
    }
    assert(bytes@.take(at as int) =~= bytes@);
    copy
}

impl ExampleMapp {
    /// What holds of the application between any two calls.
    pub open spec fn wf(&self) -> bool {
        self@.wf()
    }

    /// Tells whether the identifiers suffice to start an application for the
    /// showcase.
    pub fn can_start(showcase: &Showcase) -> (fits: bool)
        ensures
            fits == can_start(showcase@),
    {
        let scene: u128 = showcase.scene.len() as u128;
        let buttons: u128 = showcase.buttons.len() as u128;
        1 + scene + 1 + buttons + (scene + 1 + buttons) <= u64::MAX as u128
    }

    /// Starts an application: issues the command for the root entity, one
    /// command per model and one per entity.
    pub fn new(showcase: &Showcase) -> (app: ExampleMapp)
        requires
            can_start(showcase@),
        ensures
            app@ == initial(showcase@),
            app@.queue.pending == numbered(0, bootstrap(showcase@)),
            app.wf(),
    {
        let ghost kinds = bootstrap(showcase@);
        let ghost fresh = QueueView { next_id: 0, pending: Seq::empty() };
        let mut commands = Sequencer::new();
        let mut scales: Vec<Scalar> = Vec::new();
        let mut buttons: Vec<Button> = Vec::new();
        let mut models: SlotArray<Model> = SlotArray::new();
        let mut entities: SlotArray<Entity> = SlotArray::new();
        let mut transforms_main: Vec<Option<Transform>> = Vec::new();

        proof {
            assert(kinds.take(0) =~= Seq::empty());
            lemma_enqueue_next(fresh, kinds, 0);
        }
        commands.enqueue(CommandKind::RootEntityGet);

        let scene = showcase.scene.len();
        let mut at: usize = 0;
        while at < scene
            invariant
                kinds == bootstrap(showcase@),
                fresh == (QueueView { next_id: 0, pending: Seq::empty() }),
                can_start(showcase@),
                scene == showcase.scene@.len(),
                at <= scene,
                commands@ == fresh.enqueue_all(kinds.take(1 + at)),
                commands@.wf(),
                commands@.next_id == 1 + at,
                scales@ == showcase@.layout().scales.take(at as int),
                models@ == vacant::<Model>(at as nat),
                entities@ == vacant::<Entity>(at as nat),
                transforms_main@ == vacant::<Transform>(at as nat),
            decreases scene - at,
        {
            proof {
                lemma_enqueue_next(fresh, kinds, 1 + at);
            }
            commands.enqueue(CommandKind::ModelCreate { data: copy_bytes(&showcase.scene[at].data) });
            scales.push(showcase.scene[at].scale.clone());
            models.extend();
            entities.extend();
            transforms_main.push(None);
            at = at + 1;
            proof {
                assert(scales@ =~= showcase@.layout().scales.take(at as int));
                assert(models@ =~= vacant::<Model>(at as nat));
                assert(entities@ =~= vacant::<Entity>(at as nat));
                assert(transforms_main@ =~= vacant::<Transform>(at as nat));
            }
        }

        proof {
            lemma_enqueue_next(fresh, kinds, 1 + scene);
        }
        commands.enqueue(CommandKind::ModelCreate { data: copy_bytes(&showcase.marker) });
        models.extend();
        entities.extend();

        let count = showcase.buttons.len();
        let mut at: usize = 0;
        while at < count
            invariant
                kinds == bootstrap(showcase@),
                fresh == (QueueView { next_id: 0, pending: Seq::empty() }),
                can_start(showcase@),
                scene == showcase.scene@.len(),
                count == showcase.buttons@.len(),
                at <= count,
                commands@ == fresh.enqueue_all(kinds.take(2 + scene + at)),
                commands@.wf(),
                commands@.next_id == 2 + scene + at,
                buttons@ == showcase@.layout().buttons.take(at as int),
                models@ == vacant::<Model>((scene + 1 + at) as nat),
                entities@ == vacant::<Entity>((scene + 1 + at) as nat),
            decreases count - at,
        {
            proof {
                lemma_enqueue_next(fresh, kinds, 2 + scene + at);
            }
            commands.enqueue(
                CommandKind::ModelCreate { data: copy_bytes(&showcase.buttons[at].data) },
            );
            buttons.push(showcase.buttons[at].button.clone());
            models.extend();
            entities.extend();
            at = at + 1;
            proof {
                assert(buttons@ =~= showcase@.layout().buttons.take(at as int));
                assert(models@ =~= vacant::<Model>((scene + 1 + at) as nat));
                assert(entities@ =~= vacant::<Entity>((scene + 1 + at) as nat));
            }
        }

        let slots = entities.len();
        let mut at: usize = 0;
        while at < slots
            invariant
                kinds == bootstrap(showcase@),
                fresh == (QueueView { next_id: 0, pending: Seq::empty() }),
                can_start(showcase@),
                scene == showcase.scene@.len(),
                count == showcase.buttons@.len(),
                slots == scene + 1 + count,
                at <= slots,
                commands@ == fresh.enqueue_all(kinds.take(2 + scene + count + at)),
                commands@.wf(),
                commands@.next_id == 2 + scene + count + at,
            decreases slots - at,
        {
            proof {
                lemma_enqueue_next(fresh, kinds, 2 + scene + count + at);
            }
            commands.enqueue(CommandKind::EntityCreate);
            at = at + 1;
        }

        let app = ExampleMapp {
            scales,
            buttons,
            dwell: showcase.dwell,
            grabbing: showcase.grabbing,
            elapsed: 0,
            commands,
            root_entity: None,
            models,
            entities,
            transforms_main,
            primary_view_orientation: None,
            ray_tracing_task: None,
            grabbed_entity: None,
            grab_entity: false,
            selection: None,
            displayed: 0,
            io: SyncIO::new(),
        };
        proof {
            assert(kinds.take(kinds.len() as int) =~= kinds);
            assert(app@.layout.scales =~= showcase@.layout().scales);
            assert(app@.layout.buttons =~= showcase@.layout().buttons);
            assert(app@.layout == showcase@.layout());
            lemma_enqueue_all(fresh, kinds);
            assert(fresh.pending + numbered(0, kinds) =~= numbered(0, kinds));
            lemma_vacant_packed::<Model>(slots as nat);
            lemma_vacant_packed::<Entity>(slots as nat);
        }
        app
    }

    /// Tells whether a tick can be taken.
    pub fn can_update(&self) -> (fits: bool)
        requires
            self.wf(),
        ensures
            fits == self@.can_tick(),
    {
        let scene = self.scales.len();
        let bound = self.bound();
        let room = self.commands.room();
        let needed: u128 = if bound == scene {
            bound as u128 + 1
        } else {
            bound as u128
        };
        let held = match &self.grabbed_entity {
            Some(grab) => self.entities.position(grab.entity, 0, bound).is_some(),
            None => false,
        };
        proof {
            assert(self@.tick_kinds().len() == needed);
            if self.grabbed_entity.is_some() {
                let entity = self.grabbed_entity.unwrap().entity;
                lemma_position(self.entities@, entity, 0, bound as int);
                if held {
                    let slot = position(self.entities@, entity, 0, bound as int).unwrap();
                    assert(self@.held(slot));
                } else {
                    assert forall|i: int| 0 <= i < bound implies !self@.held(i) by {
                        assert(self.entities@[i] != Some(entity));
                    }
                }
            }
        }
        needed <= room as u128 && (!held || self.primary_view_orientation.is_some())
    }

    fn bound(&self) -> (bound: usize)
        requires
            self.wf(),
        ensures
            bound == self@.bound(),
            bound <= self@.layout.scene(),
            forall|i: int| 0 <= i < bound ==> (#[trigger] self@.entities[i]).is_some(),
            forall|i: int| 0 <= i < bound ==> (#[trigger] self@.bases[i]).is_some(),
    {
        proof {
            lemma_first_empty(self.entities@);
            assert forall|i: int| 0 <= i < self@.bound() implies (#[trigger] self@.bases[i]).is_some() by {
                assert(self@.entities[i].is_some());
            }
        }
        let scene = self.scales.len();
        let first = self.entities.first_empty();
        if first < scene {
            first
        } else {
            scene
        }
    }

    /// Takes a tick at time `elapsed`, in nanoseconds: sends the transform
    /// of every scene entity reported so far, carried along with the view
    /// for the one that is held, and asks for the view orientation once all
    /// scene entities are reported.
    pub fn update(&mut self, elapsed: u128)
        requires
            old(self).wf(),
            old(self)@.can_tick(),
        ensures
            final(self).wf(),
            final(self)@ == old(self)@.tick(elapsed),
            final(self)@.queue.pending == old(self)@.queue.pending + numbered(
                old(self)@.queue.next_id,
                old(self)@.tick_kinds(),
            ),
    {
        let ghost kinds = self@.tick_kinds();
        let scene = self.scales.len();
        let bound = self.bound();
        self.elapsed = elapsed;
        let mut slot: usize = 0;
        proof {
            assert(kinds.take(0) =~= Seq::empty());
        }
        while slot < bound
            invariant
                slot <= bound <= scene,
                scene == self.scales@.len(),
                bound == old(self)@.bound(),
                kinds == old(self)@.tick_kinds(),
                old(self).wf(),
                old(self)@.can_tick(),
                forall|i: int| 0 <= i < bound ==> (#[trigger] self.entities@[i]).is_some(),
                forall|i: int| 0 <= i < bound ==> (#[trigger] self.transforms_main@[i]).is_some(),
                self@ == (MappView { elapsed, queue: self@.queue, ..old(self)@ }),
                self@.queue == old(self)@.queue.enqueue_all(kinds.take(slot as int)),
                self@.queue.wf(),
                self@.queue.next_id == old(self)@.queue.next_id + slot,
            decreases bound - slot,
        {
            let entity = self.entities.get(slot).unwrap();
            let base = self.transforms_main[slot].as_ref().unwrap();
            let held = match &self.grabbed_entity {
                Some(grab) => grab.entity == entity,
                None => false,
            };
            let transform = if held {
                assert(old(self)@.held(slot as int));
                let grab = self.grabbed_entity.as_ref().unwrap();
                let current = self.primary_view_orientation.as_ref().unwrap();
                grab.carry(&current.0, base)
            } else {
                base.clone()
            };
            proof {
                lemma_enqueue_next(old(self)@.queue, kinds, slot as int);
            }
            self.commands.enqueue(
                CommandKind::EntityTransformSet { entity, transform: Some(to_scene(transform)) },
            );
            slot = slot + 1;
        }
        if bound == scene {
            proof {
                lemma_enqueue_next(old(self)@.queue, kinds, bound as int);
            }
            self.commands.enqueue(CommandKind::GetViewOrientation);
        }
        proof {
            assert(kinds.take(kinds.len() as int) =~= kinds);
            lemma_enqueue_all(old(self)@.queue, kinds);
        }
    }

    /// Tells whether an input event fits the state.
    pub fn can_notify(&self, event: &Event) -> (fits: bool)
        requires
            self.wf(),
        ensures
            fits == self@.can_notify(*event),
    {
        match event {
            Event::MouseInput { button: MouseButton::Left, state: ElementState::Released } => {
                if self.grabbing {
                    match &self.grabbed_entity {
                        Some(grab) => self.entities.position(
                            grab.entity,
                            0,
                            self.scales.len(),
                        ).is_some() && self.primary_view_orientation.is_some(),
                        None => true,
                    }
                } else {
                    true
                }
            },
            _ => true,
        }
    }

    /// Takes an input event. Where grabbing is on, the left pointer button
    /// going down arms a grab, and the button coming up lets go: what was
    /// held keeps the transform that the view carried it to. Any other event
    /// changes nothing.
    pub fn receive_event(&mut self, event: Event)
        requires
            old(self).wf(),
            old(self)@.can_notify(event),
        ensures
            final(self).wf(),
            final(self)@ == old(self)@.notify(event),
    {
        match event {
            Event::MouseInput { button: MouseButton::Left, state } => {
                if self.grabbing {
                    match state {
                        ElementState::Pressed => {
                            let text = "Grab initiated.\n";
                            let chunks = [text.as_bytes()];
                            proof {
                                reveal_strlit("Grab initiated.\n");
                                assert(text@ =~= "Grab initiated.\n"@);
                                lemma_joined_one(chunks@);
                                assert(joined(chunks@) =~= grab_initiated());
                            }
                            self.io.write_out(&chunks);
                            self.grab_entity = true;
                        },
                        ElementState::Released => {
                            let text = "Grab ended.\n";
                            let chunks = [text.as_bytes()];
                            proof {
                                reveal_strlit("Grab ended.\n");
                                assert(text@ =~= "Grab ended.\n"@);
                                lemma_joined_one(chunks@);
                                assert(joined(chunks@) =~= grab_ended());
                            }
                            self.io.write_out(&chunks);
                            self.grab_entity = false;
                            self.release();
                        },
                    }
                }
            },
            _ => {},
        }
    }

    fn release(&mut self)
        requires
            old(self).wf(),
            old(self)@.grab.is_some() ==> old(self)@.held_slot().is_some() && old(
                self,
            )@.primary.is_some(),
        ensures
            final(self).wf(),
            final(self)@ == (MappView {
                bases: old(self)@.released().bases,
                grab: None,
                ..old(self)@
            }),
    {
        let scene = self.scales.len();
        match self.grabbed_entity.take() {
            Some(grab) => {
                proof {
                    lemma_position(self.entities@, grab.entity, 0, scene as int);
                }
                let slot = self.entities.position(grab.entity, 0, scene).unwrap();
                let current = self.primary_view_orientation.as_ref().unwrap();
                let base = self.transforms_main[slot].as_ref().unwrap();
                let moved = grab.carry(&current.0, base);
                self.transforms_main[slot] = Some(moved);
                proof {
                    assert(old(self)@.held(slot as int));
                    assert(self@.bases =~= old(self)@.released().bases);
                }
            },
            None => {},
        }
    }

    /// Tells whether a response fits the state. One that does not is a
    /// breach of the protocol and must not be delivered.
    pub fn can_receive(&self, response: &CommandResponse) -> (fits: bool)
        requires
            self.wf(),
        ensures
            fits == self@.can_respond(response.kind@),
    {
        let room = self.commands.room();
        match &response.kind {
            CommandResponseKind::ModelCreate { model } => self.models.first_empty()
                < self.models.len(),
            CommandResponseKind::EntityCreate { entity } => {
                self.entities.first_empty() < self.entities.len() && self.root_entity.is_some()
                    && room >= 3
            },
            CommandResponseKind::GetViewOrientation { views_per_medium } => {
                let starts = (views_per_medium.len() == 1 || views_per_medium.len() == 2)
                    && views_per_medium[0].is_some();
                !starts || room >= 1
            },
            CommandResponseKind::RayTrace { closest_intersection } => {
                let marker = self.entities.get(self.scales.len());
                match marker {
                    None => false,
                    Some(marker) => match closest_intersection {
                        None => room >= 1,
                        Some(hit) => self.ray_tracing_task.is_some() && if hit.entity == marker {
                            room >= 1
                        } else {
                            room >= 2
                        },
                    },
                }
            },
            _ => true,
        }
    }

    /// Takes a response of the host and acts on it.
    ///
    /// The root entity is remembered. A model or an entity is bound to the
    /// first empty slot, and an entity is given its parent, its model and
    /// its transform. Reported views replace the primary view and start a
    /// pick from it. What a ray met moves the pick on. Any other response
    /// changes nothing.
    pub fn receive_command_response(&mut self, response: CommandResponse)
        requires
            old(self).wf(),
            old(self)@.can_respond(response.kind@),
        ensures
            final(self).wf(),
            final(self)@ == old(self)@.respond(response.kind@),
    {
        match response.kind {
            CommandResponseKind::RootEntityGet { root_entity } => {
                self.root_entity = Some(root_entity);
            },
            CommandResponseKind::ModelCreate { model } => {
                proof {
                    lemma_bind(self.models@, model);
                }
                self.models.bind(model);
            },
            CommandResponseKind::EntityCreate { entity } => {
                self.bind_entity(entity);
            },
            CommandResponseKind::GetViewOrientation { views_per_medium } => {
                self.start_pick(&views_per_medium);
            },
            CommandResponseKind::RayTrace { closest_intersection } => {
                self.follow_ray(closest_intersection);
            },
            _ => {},
        }
    }

    fn bind_entity(&mut self, entity: Entity)
        requires
            old(self).wf(),
            old(self)@.can_respond(ResponseView::EntityCreate { entity }),
        ensures
            final(self).wf(),
            final(self)@ == old(self)@.entity_created(entity),
    {
        proof {
            lemma_bind(self.entities@, entity);
            lemma_first_empty(self.entities@);
            lemma_packed_split(self.entities@);
        }
        let scene = self.scales.len();
        let slot = self.entities.bind(entity);
        let placement = if slot < scene {
            place_scene_entity(slot, &self.scales[slot])
        } else if slot == scene {
            Transform::Identity
        } else {
            self.buttons[slot - scene - 1].placement.clone()
        };
        if slot < scene {
            self.transforms_main[slot] = Some(placement.clone());
        }
        let model = self.models.get(slot);
        let root = self.root_entity.unwrap();
        self.commands.enqueue(CommandKind::EntityParentSet { entity, parent_entity: root });
        self.commands.enqueue(CommandKind::EntityModelSet { entity, model });
        self.commands.enqueue(
            CommandKind::EntityTransformSet { entity, transform: Some(to_scene(placement)) },
        );
        proof {
            let after = old(self)@.entity_created(entity);
            assert(self@.bases =~= after.bases);
            assert(self@.entities =~= after.entities);
        }
    }

    fn start_pick(&mut self, views_per_medium: &Vec<Option<Vec<Matrix>>>)
        requires
            old(self).wf(),
            old(self)@.can_respond(
                ResponseView::GetViewOrientation {
                    views_per_medium: media_view(views_per_medium@),
                },
            ),
        ensures
            final(self).wf(),
            final(self)@ == old(self)@.views_reported(media_view(views_per_medium@)),
    {
        let views = aggregate(views_per_medium);
        match select_primary(&views) {
            Some((pose, orientation)) => {
                self.ray_tracing_task = Some(
                    RayTracingTask::start(pose.clone(), orientation.direction.clone()),
                );
                self.commands.enqueue(
                    CommandKind::RayTrace {
                        origin: orientation.position.clone(),
                        direction: orientation.direction.clone(),
                    },
                );
                self.primary_view_orientation = Some((pose, orientation));
            },
            None => {
                self.primary_view_orientation = None;
            },
        }
    }

    fn follow_ray(&mut self, hit: Option<Intersection>)
        requires
            old(self).wf(),
            old(self)@.can_respond(
                ResponseView::RayTrace { closest_intersection: hit },
            ),
        ensures
            final(self).wf(),
            final(self)@ == old(self)@.ray_traced(hit),
    {
        let scene = self.scales.len();
        let marker = self.entities.get(scene).unwrap();
        let task = self.ray_tracing_task.take();
        match advance(task, hit, marker) {
            Pick::Missed => {
                self.selection = None;
                self.commands.enqueue(CommandKind::EntityModelSet { entity: marker, model: None });
            },
            Pick::Bounced { task, origin } => {
                self.commands.enqueue(
                    CommandKind::RayTrace { origin, direction: task.direction.clone() },
                );
                self.ray_tracing_task = Some(task);
            },
            Pick::Resolved { entity, position, total_distance, transform } => {
                self.resolve(marker, entity, position, total_distance, transform);
            },
        }
    }

    fn resolve(
        &mut self,
        marker: Entity,
        entity: Entity,
        position: Point,
        total_distance: Scalar,
        transform: Transform,
    )
        requires
            old(self).wf(),
            old(self)@.marker_entity() == Some(marker),
            old(self)@.queue.has_room(2),
            old(self)@.task.is_none(),
        ensures
            final(self).wf(),
            final(self)@ == old(self)@.ray_resolved(entity, position, total_distance, transform),
    {
        let scene = self.scales.len();
        let growth = match self.selection {
            Some(selection) => {
                if selection.target == entity {
                    Some(selection.growth(self.elapsed))
                } else {
                    None
                }
            },
            None => None,
        };
        let placement = place_marker(position, total_distance, growth);
        let model = self.models.get(scene);
        self.commands.enqueue(CommandKind::EntityModelSet { entity: marker, model });
        self.commands.enqueue(
            CommandKind::EntityTransformSet { entity: marker, transform: Some(to_scene(placement)) },
        );
        if self.grab_entity && self.grabbed_entity.is_none() {
            self.grabbed_entity = Some(Grab::capture(entity, transform));
        }
        let slots = self.entities.len();
        let button = self.entities.position(entity, scene + 1, slots);
        let dwell = observe(self.selection, Some(entity), button.is_some(), self.elapsed, self.dwell);
        self.selection = dwell.selection;
        if dwell.fired {
            match button {
                Some(slot) => {
                    self.displayed = self.step(self.buttons[slot - scene - 1].action);
                },
                None => {},
            }
        }
    }

    fn step(&self, action: Action) -> (displayed: usize)
        requires
            self.wf(),
        ensures
            displayed == self@.layout.stepped(self@.displayed, action),
            displayed < self@.layout.scene() || displayed == 0,
    {
        let scene = self.scales.len();
        if scene == 0 {
            self.displayed
        } else {
            match action {
                Action::Advance => if self.displayed + 1 >= scene {
                    0
                } else {
                    self.displayed + 1
                },
                Action::Retreat => if self.displayed == 0 {
                    scene - 1
                } else {
                    self.displayed - 1
                },
            }
        }
    }

    /// The root entity, once the host has reported it.
    pub fn root(&self) -> (root: Option<Entity>)
        ensures
            root == self@.root,
    {
        self.root_entity
    }

    /// The number of slots: one per scene model, one for the marker, one
    /// per button.
    pub fn slots(&self) -> (count: usize)
        requires
            self.wf(),
        ensures
            count == self@.layout.slots(),
    {
        self.entities.len()
    }

    /// The model bound to a slot, if the slot exists and holds one.
    pub fn model(&self, slot: usize) -> (model: Option<Model>)
        ensures
            model == if slot < self@.models.len() {
                self@.models[slot as int]
            } else {
                None
            },
    {
        if slot < self.models.len() {
            self.models.get(slot)
        } else {
            None
        }
    }

    /// The entity bound to a slot, if the slot exists and holds one.
    pub fn entity(&self, slot: usize) -> (entity: Option<Entity>)
        ensures
            entity == if slot < self@.entities.len() {
                self@.entities[slot as int]
            } else {
                None
            },
    {
        if slot < self.entities.len() {
            self.entities.get(slot)
        } else {
            None
        }
    }

    /// The base transform of the scene entity of a slot, if the slot is one
    /// of the scene and its entity is bound.
    pub fn base(&self, slot: usize) -> (base: Option<Transform>)
        ensures
            base == if slot < self@.bases.len() {
                self@.bases[slot as int]
            } else {
                None
            },
    {
        if slot < self.transforms_main.len() {
            match &self.transforms_main[slot] {
                Some(transform) => Some(transform.clone()),
                None => None,
            }
        } else {
            None
        }
    }

    /// The pick in flight, if there is one.
    pub fn task(&self) -> (task: Option<RayTracingTask>)
        ensures
            task == self@.task,
    {
        match &self.ray_tracing_task {
            Some(task) => Some(task.clone()),
            None => None,
        }
    }

    /// What is held, if anything is.
    pub fn grab(&self) -> (grab: Option<Grab>)
        ensures
            grab == self@.grab,
    {
        match &self.grabbed_entity {
            Some(grab) => Some(grab.clone()),
            None => None,
        }
    }

    /// Whether the pointer button is down.
    pub fn pressing(&self) -> (down: bool)
        ensures
            down == self@.pressing,
    {
        self.grab_entity
    }

    /// The dwell under way, if there is one.
    pub fn selection(&self) -> (selection: Option<Selection>)
        ensures
            selection == self@.selection,
    {
        self.selection
    }

    /// The index of the scene model that the buttons step through.
    pub fn displayed(&self) -> (index: usize)
        ensures
            index == self@.displayed,
    {
        self.displayed
    }

    /// The time of the latest tick, in nanoseconds.
    pub fn elapsed(&self) -> (nanos: u128)
        ensures
            nanos == self@.elapsed,
    {
        self.elapsed
    }

    /// The number of commands that wait for the host.
    pub fn pending(&self) -> (count: usize)
        ensures
            count == self@.queue.pending.len(),
    {
        self.commands.len()
    }

    /// Hands the oldest pending command to the host, or nothing when none is
    /// pending. With nothing pending the call changes nothing, however often
    /// it is made.
    pub fn send_command(&mut self) -> (command: Option<Command>)
        requires
            old(self).wf(),
        ensures
            final(self).wf(),
            final(self)@ == old(self)@.drain(),
            match command {
                Some(c) => old(self)@.queue.pending.len() > 0 && c@ == old(self)@.queue.pending[0]
                    && c.id == old(self)@.queue.sent(),
                None => old(self)@.queue.pending.len() == 0 && final(self)@ == old(self)@,
            },
    {
        self.commands.dequeue()
    }

    /// Hands the diagnostic text collected since the previous call to the
    /// host.
    pub fn flush_io(&mut self) -> (io: IO)
        requires
            old(self).wf(),
        ensures
            final(self).wf(),
            final(self)@ == old(self)@.flush(),
            io.out@ == old(self)@.io.out,
            io.err@ == old(self)@.io.err,
    {
        self.io.flush()
    }
}

} // verus!
