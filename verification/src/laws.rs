//! What holds of the application however the host drives it.

use vstd::prelude::*;
use crate::formula::{Column, Matrix, Scalar, Transform, Vector};
use crate::grab::{carried, Grab};
use crate::machine::{bootstrap, initial, MappView, Step};
use crate::orientation::{
    facing_of, mean_of, media_of, medium_of, primary_of, sum_of, Orientation,
};
use crate::picker::{nudge, RayTracingTask};
use crate::placement::{in_scene, marker_placement};
use crate::protocol::{
    CommandKindView, CommandView, ElementState, Entity, Event, Intersection, Model, MouseButton,
    ResponseView,
};
use crate::selection::{dwelt, observe_of, Dwell, Selection};
use crate::sequencer::{lemma_dequeue_wf, lemma_enqueue_all, numbered, QueueView};
use crate::showcase::ShowcaseView;
use crate::slots::{
    bind_all, lemma_bind, lemma_bind_all_in_order, lemma_first_empty,
    lemma_packed_split, lemma_position, lemma_position_exists, vacant,
};

verus! {

/// A new application is well formed, has handed out nothing, and holds the
/// bootstrap commands numbered from zero.
pub proof fn law_fresh(showcase: ShowcaseView)
    requires
        bootstrap(showcase).len() <= u64::MAX,
    ensures
        initial(showcase).wf(),
        initial(showcase).queue.sent() == 0,
        initial(showcase).queue.pending == numbered(0, bootstrap(showcase)),
{
    let fresh = QueueView { next_id: 0, pending: Seq::empty() };
    lemma_enqueue_all(fresh, bootstrap(showcase));
    assert(initial(showcase).queue.pending =~= numbered(0, bootstrap(showcase)));
}

/// A call that fits a well-formed state leads to a well-formed state. Only
/// a poll that finds a command moves the count of commands handed out, and
/// it moves it by one.
pub proof fn law_step(s: MappView, step: Step)
    requires
        s.wf(),
        s.allows(step),
    ensures
        s.step(step).wf(),
        s.step(step).layout == s.layout,
        s.step(step).queue.sent() == if step is Drain && s.queue.pending.len() > 0 {
            s.queue.sent() + 1
        } else {
            s.queue.sent()
        },
{
    match step {
        Step::Tick { elapsed } => {
            lemma_enqueue_all(s.queue, s.tick_kinds());
        },
        Step::Respond { response } => {
            lemma_respond(s, response);
        },
        Step::Notify { event } => {
            lemma_notify(s, event);
        },
        Step::Drain => {
            lemma_dequeue_wf(s.queue);
        },
        Step::Flush => {},
    }
}

proof fn lemma_respond(s: MappView, response: ResponseView)
    requires
        s.wf(),
        s.can_respond(response),
    ensures
        s.respond(response).wf(),
        s.respond(response).layout == s.layout,
        s.respond(response).queue.sent() == s.queue.sent(),
{
    match response {
        ResponseView::ModelCreate { model } => {
            lemma_bind(s.models, model);
        },
        ResponseView::EntityCreate { entity } => {
            lemma_bind(s.entities, entity);
            lemma_first_empty(s.entities);
            lemma_packed_split(s.entities);
        },
        _ => {},
    }
}

proof fn lemma_notify(s: MappView, event: Event)
    requires
        s.wf(),
        s.can_notify(event),
    ensures
        s.notify(event).wf(),
        s.notify(event).layout == s.layout,
        s.notify(event).queue == s.queue,
{
    if s.grab.is_some() {
        lemma_position(s.entities, s.grab.unwrap().entity, 0, s.layout.scene());
    }
}

/// Every state that the host can drive a new application to is well
/// formed, its slot arrays have the size that the showcase gives them, and
/// as many commands have been handed out as its queue counts.
pub proof fn law_reachable(showcase: ShowcaseView, steps: Seq<Step>)
    requires
        bootstrap(showcase).len() <= u64::MAX,
        initial(showcase).legal(steps),
    ensures
        initial(showcase).run(steps).wf(),
        initial(showcase).run(steps).layout == showcase.layout(),
        initial(showcase).run(steps).models.len() == showcase.layout().slots(),
        initial(showcase).run(steps).entities.len() == showcase.layout().slots(),
        initial(showcase).handed_out(steps).len() == initial(showcase).run(steps).queue.sent(),
    decreases steps.len(),
{
    law_fresh(showcase);
    if steps.len() > 0 {
        law_reachable(showcase, steps.drop_last());
        law_step(initial(showcase).run(steps.drop_last()), steps.last());
    }
}

/// The commands handed to the host carry the identifiers 0, 1, 2 and so on,
/// without a gap, whatever their kinds and whatever else the host does in
/// between.
pub proof fn law_identifiers_count_up(showcase: ShowcaseView, steps: Seq<Step>)
    requires
        bootstrap(showcase).len() <= u64::MAX,
        initial(showcase).legal(steps),
    ensures
        forall|k: int|
            0 <= k < initial(showcase).handed_out(steps).len() ==> (#[trigger] initial(
                showcase,
            ).handed_out(steps)[k]).id == k,
    decreases steps.len(),
{
    if steps.len() > 0 {
        law_identifiers_count_up(showcase, steps.drop_last());
        law_reachable(showcase, steps.drop_last());
    }
}

/// The bootstrap holds one command for the root entity, then one model per
/// slot, then one entity per slot: for a scene of N models, one marker and
/// B buttons exactly N + 1 + B commands create an entity, and they are the
/// last ones.
pub proof fn law_bootstrap_shape(showcase: ShowcaseView)
    ensures
        bootstrap(showcase).len() == 1 + 2 * showcase.layout().slots(),
        bootstrap(showcase)[0] == CommandKindView::RootEntityGet,
        forall|i: int|
            0 <= i < showcase.scene.len() ==> #[trigger] bootstrap(showcase)[1 + i] == (
            CommandKindView::ModelCreate { data: showcase.scene[i].0 }),
        bootstrap(showcase)[1 + showcase.layout().marker()] == (CommandKindView::ModelCreate {
            data: showcase.marker,
        }),
        forall|j: int|
            0 <= j < showcase.buttons.len() ==> #[trigger] bootstrap(showcase)[1
                + showcase.layout().button(j)] == (CommandKindView::ModelCreate {
                data: showcase.buttons[j].0,
            }),
        forall|i: int|
            0 <= i < bootstrap(showcase).len() ==> ((#[trigger] bootstrap(showcase)[i])
                is EntityCreate <==> i > showcase.layout().slots()),
{
}

/// How many of the commands create an entity.
pub open spec fn entity_creations(kinds: Seq<CommandKindView>) -> nat
    decreases kinds.len(),
{
    if kinds.len() == 0 {
        0
    } else {
        entity_creations(kinds.drop_last()) + if kinds.last() is EntityCreate {
            1nat
        } else {
            0nat
        }
    }
}

proof fn lemma_creations_among_first(showcase: ShowcaseView, count: int)
    requires
        0 <= count <= bootstrap(showcase).len(),
    ensures
        entity_creations(bootstrap(showcase).take(count)) == if count > 1
            + showcase.layout().slots() {
            count - 1 - showcase.layout().slots()
        } else {
            0
        },
    decreases count,
{
    let kinds = bootstrap(showcase);
    if count > 0 {
        lemma_creations_among_first(showcase, count - 1);
        law_bootstrap_shape(showcase);
        assert(kinds.take(count).drop_last() =~= kinds.take(count - 1));
        assert(kinds.take(count).last() == kinds[count - 1]);
    }
}

/// A new application asks for exactly one entity per scene model, one for
/// the marker and one per button.
pub proof fn law_bootstrap_entities(showcase: ShowcaseView)
    ensures
        entity_creations(bootstrap(showcase)) == showcase.scene.len() + 1 + showcase.buttons.len(),
{
    let kinds = bootstrap(showcase);
    law_bootstrap_shape(showcase);
    lemma_creations_among_first(showcase, kinds.len() as int);
    assert(kinds.take(kinds.len() as int) =~= kinds);
}

/// The responses that report the root entity and then some entities.
pub open spec fn entities_reported(root: Entity, entities: Seq<Entity>) -> Seq<Step> {
    seq![Step::Respond { response: ResponseView::RootEntityGet { root_entity: root } }] + Seq::new(
        entities.len(),
        |i: int| Step::Respond { response: ResponseView::EntityCreate { entity: entities[i] } },
    )
}

/// The responses that report some models.
pub open spec fn models_reported(models: Seq<Model>) -> Seq<Step> {
    Seq::new(
        models.len(),
        |i: int| Step::Respond { response: ResponseView::ModelCreate { model: models[i] } },
    )
}

proof fn lemma_entities_reported(showcase: ShowcaseView, root: Entity, entities: Seq<Entity>)
    requires
        bootstrap(showcase).len() + 3 * entities.len() <= u64::MAX,
        entities.len() <= showcase.layout().slots(),
    ensures
        initial(showcase).legal(entities_reported(root, entities)),
        initial(showcase).run(entities_reported(root, entities)).wf(),
        initial(showcase).run(entities_reported(root, entities)).root == Some(root),
        initial(showcase).run(entities_reported(root, entities)).queue.next_id == bootstrap(
            showcase,
        ).len() + 3 * entities.len(),
        initial(showcase).run(entities_reported(root, entities)).entities == bind_all(
            vacant::<Entity>(showcase.layout().slots() as nat),
            entities,
        ),
    decreases entities.len(),
{
    let start = initial(showcase);
    let steps = entities_reported(root, entities);
    law_fresh(showcase);
    if entities.len() == 0 {
        assert(steps.drop_last() =~= Seq::empty());
        assert(start.run(steps.drop_last()) == start);
        assert(start.legal(steps.drop_last()));
    } else {
        let front = entities.drop_last();
        assert(steps.drop_last() =~= entities_reported(root, front));
        lemma_entities_reported(showcase, root, front);
        lemma_bind_all_in_order::<Entity>(showcase.layout().slots() as nat, front);
        let before = start.run(entities_reported(root, front));
        assert(steps.last() == (Step::Respond {
            response: ResponseView::EntityCreate { entity: entities.last() },
        }));
        law_step(before, steps.last());
    }
}

/// Entities are bound in the order in which their creation was requested:
/// reported to a new application, the first entity stands in slot 0, the
/// next in slot 1, and so on, and the slots behind them hold nothing.
pub proof fn law_entities_bound_in_order(showcase: ShowcaseView, root: Entity, entities: Seq<Entity>)
    requires
        bootstrap(showcase).len() + 3 * entities.len() <= u64::MAX,
        entities.len() <= showcase.layout().slots(),
    ensures
        initial(showcase).legal(entities_reported(root, entities)),
        initial(showcase).run(entities_reported(root, entities)).entities.len()
            == showcase.layout().slots(),
        forall|slot: int|
            0 <= slot < showcase.layout().slots() ==> #[trigger] initial(showcase).run(
                entities_reported(root, entities),
            ).entities[slot] == if slot < entities.len() {
                Some(entities[slot])
            } else {
                None
            },
{
    lemma_entities_reported(showcase, root, entities);
    lemma_bind_all_in_order::<Entity>(showcase.layout().slots() as nat, entities);
}

proof fn lemma_models_reported(showcase: ShowcaseView, models: Seq<Model>)
    requires
        bootstrap(showcase).len() <= u64::MAX,
        models.len() <= showcase.layout().slots(),
    ensures
        initial(showcase).legal(models_reported(models)),
        initial(showcase).run(models_reported(models)).wf(),
        initial(showcase).run(models_reported(models)).models == bind_all(
            vacant::<Model>(showcase.layout().slots() as nat),
            models,
        ),
    decreases models.len(),
{
    let start = initial(showcase);
    let steps = models_reported(models);
    law_fresh(showcase);
    if models.len() > 0 {
        let front = models.drop_last();
        assert(steps.drop_last() =~= models_reported(front));
        lemma_models_reported(showcase, front);
        lemma_bind_all_in_order::<Model>(showcase.layout().slots() as nat, front);
        let before = start.run(models_reported(front));
        assert(steps.last() == (Step::Respond {
            response: ResponseView::ModelCreate { model: models.last() },
        }));
        law_step(before, steps.last());
    }
}

/// Models are bound in the order in which their creation was requested.
pub proof fn law_models_bound_in_order(showcase: ShowcaseView, models: Seq<Model>)
    requires
        bootstrap(showcase).len() <= u64::MAX,
        models.len() <= showcase.layout().slots(),
    ensures
        initial(showcase).legal(models_reported(models)),
        initial(showcase).run(models_reported(models)).models.len() == showcase.layout().slots(),
        forall|slot: int|
            0 <= slot < showcase.layout().slots() ==> #[trigger] initial(showcase).run(
                models_reported(models),
            ).models[slot] == if slot < models.len() {
                Some(models[slot])
            } else {
                None
            },
{
    lemma_models_reported(showcase, models);
    lemma_bind_all_in_order::<Model>(showcase.layout().slots() as nat, models);
}

/// Two samples of one medium aggregate to their cell-by-cell mean, the sum
/// of the two divided by two. The viewer faces along the backward axis
/// `(0, 0, -1, 0)` sent through that mean, and stands where the mean sends
/// the origin `(0, 0, 0, 1)`.
pub proof fn law_two_samples(first: Matrix, second: Matrix)
    ensures
        mean_of(seq![first, second]) == Transform::Quotient(
            Box::new(
                Transform::Sum(
                    Box::new(
                        Transform::Sum(
                            Box::new(Transform::Zero),
                            Box::new(Transform::Host(first)),
                        ),
                    ),
                    Box::new(Transform::Host(second)),
                ),
            ),
            Box::new(Scalar::Whole(2)),
        ),
        medium_of(Some(seq![first, second])) == Some(
            (
                mean_of(seq![first, second]),
                Orientation {
                    direction: Vector::Projected(
                        Box::new(mean_of(seq![first, second])),
                        Column { x: 0, y: 0, z: (-1) as i8, w: 0 },
                    ),
                    position: Vector::Projected(
                        Box::new(mean_of(seq![first, second])),
                        Column { x: 0, y: 0, z: 0, w: 1 },
                    ),
                },
            ),
        ),
{
    let both = seq![first, second];
    assert(both.drop_last() =~= seq![first]);
    assert(seq![first].drop_last() =~= Seq::<Matrix>::empty());
    reveal_with_fuel(sum_of, 3);
}

/// With one medium, or with two, the first medium is the primary view if
/// it is active. In every other case there is no primary view.
pub proof fn law_primary(media: Seq<Option<Seq<Matrix>>>)
    ensures
        primary_of(media_of(media)) == if (media.len() == 1 || media.len() == 2)
            && media[0].is_some() {
            Some((mean_of(media[0].unwrap()), facing_of(mean_of(media[0].unwrap()))))
        } else {
            None
        },
{
}

/// A ray that meets the marker passes through it: exactly one command is
/// issued, a ray trace that starts at the hit moved on by the nudge along
/// the unchanged direction; the distance of the hit is added to the
/// distance travelled; and the pick stays in flight. Nothing else changes.
pub proof fn law_marker_hit(s: MappView, hit: Intersection)
    requires
        s.wf(),
        s.can_respond(ResponseView::RayTrace { closest_intersection: Some(hit) }),
        s.marker_entity() == Some(hit.entity),
    ensures
        ({
            let after = s.respond(ResponseView::RayTrace { closest_intersection: Some(hit) });
            let task = s.task.unwrap();
            &&& after.queue.pending == s.queue.pending.push(
                CommandView {
                    id: s.queue.next_id,
                    kind: CommandKindView::RayTrace {
                        origin: Vector::Sum(
                            Box::new(Vector::Host(hit.position)),
                            Box::new(Vector::Scaled(Box::new(task.direction), Box::new(nudge()))),
                        ),
                        direction: task.direction,
                    },
                },
            )
            &&& after.task == Some(
                RayTracingTask {
                    transform: task.transform,
                    direction: task.direction,
                    total_distance: Scalar::Sum(
                        Box::new(task.total_distance),
                        Box::new(Scalar::Bits(hit.distance_from_origin)),
                    ),
                },
            )
            &&& after == (MappView { queue: after.queue, task: after.task, ..s })
        }),
{
}

/// A ray that meets nothing ends the pick: exactly one command is issued,
/// the one that takes the model off the marker, and no ray trace follows.
/// Pick and dwell are over. Nothing else changes.
pub proof fn law_miss(s: MappView)
    requires
        s.wf(),
        s.can_respond(ResponseView::RayTrace { closest_intersection: None }),
    ensures
        ({
            let after = s.respond(ResponseView::RayTrace { closest_intersection: None });
            &&& after.queue.pending == s.queue.pending.push(
                CommandView {
                    id: s.queue.next_id,
                    kind: CommandKindView::EntityModelSet {
                        entity: s.marker_entity().unwrap(),
                        model: None,
                    },
                },
            )
            &&& after.task.is_none()
            &&& after.selection.is_none()
            &&& after == (MappView { queue: after.queue, task: None, selection: None, ..s })
        }),
{
}

/// A ray that meets anything but the marker ends the pick with exactly two
/// commands, both for the marker: its model, then its transform at the hit.
/// The entity is grabbed, under the view transform the pick started from,
/// exactly if the button is down and nothing is held yet.
pub proof fn law_resolved_hit(s: MappView, hit: Intersection)
    requires
        s.wf(),
        s.can_respond(ResponseView::RayTrace { closest_intersection: Some(hit) }),
        s.marker_entity() != Some(hit.entity),
    ensures
        ({
            let after = s.respond(ResponseView::RayTrace { closest_intersection: Some(hit) });
            let marker = s.marker_entity().unwrap();
            &&& after.queue.pending == s.queue.pending.push(
                CommandView {
                    id: s.queue.next_id,
                    kind: CommandKindView::EntityModelSet {
                        entity: marker,
                        model: s.marker_model(),
                    },
                },
            ).push(
                CommandView {
                    id: s.queue.next_id + 1,
                    kind: CommandKindView::EntityTransformSet {
                        entity: marker,
                        transform: Some(
                            in_scene(
                                marker_placement(
                                    hit.position,
                                    Scalar::Sum(
                                        Box::new(s.task.unwrap().total_distance),
                                        Box::new(Scalar::Bits(hit.distance_from_origin)),
                                    ),
                                    s.growth(hit.entity),
                                ),
                            ),
                        ),
                    },
                },
            )
            &&& after.task.is_none()
            &&& after.grab == if s.pressing && s.grab.is_none() {
                Some(Grab { entity: hit.entity, original_transform: s.task.unwrap().transform })
            } else {
                s.grab
            }
        }),
{
}

/// Pointing at a target that can be selected starts a dwell at the time of
/// the observation, with no time carried over, and fires nothing.
pub proof fn law_dwell_starts(target: Entity, now: u128, delay: u128)
    ensures
        observe_of(None, Some(target), true, now, delay) == (Dwell {
            selection: Some(Selection { target, since: now }),
            fired: false,
        }),
        dwelt(Selection { target, since: now }, now) == 0,
{
}

/// While the target stays pointed at, the dwell fires exactly when the
/// delay has passed since it started. Before that it goes on unchanged;
/// when it fires it is over, so that it cannot fire a second time. The time
/// passed is the difference of the two times where time runs forwards.
pub proof fn law_dwell_completes(selection: Selection, eligible: bool, now: u128, delay: u128)
    ensures
        observe_of(Some(selection), Some(selection.target), eligible, now, delay) == if dwelt(
            selection,
            now,
        ) >= delay {
            Dwell { selection: None, fired: true }
        } else {
            Dwell { selection: Some(selection), fired: false }
        },
        selection.since <= now ==> dwelt(selection, now) == now - selection.since,
{
}

/// Nothing fires without a dwell under way: the observation after a dwell
/// has fired, or has been broken off, at most starts a new one.
pub proof fn law_dwell_fires_once(hit: Option<Entity>, eligible: bool, now: u128, delay: u128)
    ensures
        !observe_of(None, hit, eligible, now, delay).fired,
{
}

/// Pointing at nothing, or at anything but the target, ends the dwell and
/// fires nothing, however long the dwell has lasted.
pub proof fn law_dwell_breaks(
    selection: Selection,
    hit: Option<Entity>,
    eligible: bool,
    now: u128,
    delay: u128,
)
    requires
        hit != Some(selection.target),
    ensures
        observe_of(Some(selection), hit, eligible, now, delay) == (Dwell {
            selection: None,
            fired: false,
        }),
{
}

/// A dwell never changes its target: after an observation the dwell under
/// way is the one from before, or there was none before, or there is none
/// now.
pub proof fn law_dwell_keeps_target(
    current: Option<Selection>,
    hit: Option<Entity>,
    eligible: bool,
    now: u128,
    delay: u128,
)
    ensures
        current.is_some() && observe_of(current, hit, eligible, now, delay).selection.is_some()
            ==> observe_of(current, hit, eligible, now, delay).selection == current,
{
}

/// No call into the application moves a dwell from one target to another.
pub proof fn law_selection_keeps_target(s: MappView, step: Step)
    requires
        s.wf(),
        s.allows(step),
    ensures
        s.selection.is_some() && s.step(step).selection.is_some() ==> s.step(step).selection
            == s.selection,
{
}

/// A resolved hit steps the displayed model index exactly if it completes a
/// dwell on a button, and then by the action of that button.
pub proof fn law_dwell_acts(s: MappView, hit: Intersection)
    requires
        s.wf(),
        s.can_respond(ResponseView::RayTrace { closest_intersection: Some(hit) }),
        s.marker_entity() != Some(hit.entity),
    ensures
        ({
            let after = s.respond(ResponseView::RayTrace { closest_intersection: Some(hit) });
            let dwell = observe_of(
                s.selection,
                Some(hit.entity),
                s.button_of(hit.entity).is_some(),
                s.elapsed,
                s.layout.dwell,
            );
            &&& after.selection == dwell.selection
            &&& after.displayed == if dwell.fired && s.button_of(hit.entity).is_some() {
                s.layout.stepped(
                    s.displayed,
                    s.layout.buttons[s.button_of(hit.entity).unwrap()].action,
                )
            } else {
                s.displayed
            }
        }),
{
}

/// The event of the left pointer button coming up.
pub open spec fn left_released() -> Event {
    Event::MouseInput { button: MouseButton::Left, state: ElementState::Released }
}

/// Letting go commits the grab: the base transform of the held entity
/// becomes `(current x inverse(original)) x base`, with the view transform
/// at the release for `current` and the one at the grab for `original`. No
/// other base transform changes, and nothing is held any more.
pub proof fn law_release_commits(s: MappView)
    requires
        s.wf(),
        s.layout.grabbing,
        s.grab.is_some(),
        s.can_notify(left_released()),
    ensures
        ({
            let after = s.notify(left_released());
            let slot = s.held_slot().unwrap();
            &&& 0 <= slot < s.layout.scene()
            &&& s.entities[slot] == Some(s.grab.unwrap().entity)
            &&& after.bases == s.bases.update(
                slot,
                Some(
                    carried(
                        s.primary.unwrap().0,
                        s.grab.unwrap().original_transform,
                        s.bases[slot].unwrap(),
                    ),
                ),
            )
            &&& after.grab.is_none()
            &&& !after.pressing
        }),
{
    lemma_position(s.entities, s.grab.unwrap().entity, 0, s.layout.scene());
}

/// From grab to release: an entity of the scene is hit while the button is
/// down and nothing is held, under a pick that started from the view
/// transform `original`; later the views are reported with the primary view
/// transform `current`; then the button comes up. The base transform of the
/// entity is then `(current x inverse(original)) x base`, where `base` is
/// the one it had before.
pub proof fn law_grab_then_release(s: MappView, hit: Intersection, media: Seq<Option<Seq<Matrix>>>)
    requires
        s.wf(),
        s.layout.grabbing,
        s.pressing,
        s.grab.is_none(),
        s.marker_entity() != Some(hit.entity),
        s.can_respond(ResponseView::RayTrace { closest_intersection: Some(hit) }),
        s.respond(ResponseView::RayTrace { closest_intersection: Some(hit) }).can_respond(
            ResponseView::GetViewOrientation { views_per_medium: media },
        ),
        primary_of(media_of(media)).is_some(),
        exists|slot: int| 0 <= slot < s.layout.scene() && s.entities[slot] == Some(hit.entity),
    ensures
        ({
            let grabbed = s.respond(ResponseView::RayTrace { closest_intersection: Some(hit) });
            let moved = grabbed.respond(ResponseView::GetViewOrientation { views_per_medium: media });
            let slot = moved.held_slot().unwrap();
            let original = s.task.unwrap().transform;
            let current = primary_of(media_of(media)).unwrap().0;
            &&& moved.can_notify(left_released())
            &&& 0 <= slot < s.layout.scene()
            &&& s.entities[slot] == Some(hit.entity)
            &&& moved.notify(left_released()).bases[slot] == Some(
                carried(current, original, s.bases[slot].unwrap()),
            )
        }),
{
    let grabbed = s.respond(ResponseView::RayTrace { closest_intersection: Some(hit) });
    let moved = grabbed.respond(ResponseView::GetViewOrientation { views_per_medium: media });
    let witness = choose|slot: int| 0 <= slot < s.layout.scene() && s.entities[slot] == Some(hit.entity);
    lemma_position_exists(s.entities, hit.entity, 0, s.layout.scene(), witness);
    lemma_position(s.entities, hit.entity, 0, s.layout.scene());
    assert(moved.entities == s.entities);
    assert(moved.bases == s.bases);
    assert(moved.grab == Some(Grab { entity: hit.entity, original_transform: s.task.unwrap().transform }));
    law_step(s, Step::Respond { response: ResponseView::RayTrace { closest_intersection: Some(hit) } });
    law_step(grabbed, Step::Respond { response: ResponseView::GetViewOrientation { views_per_medium: media } });
    law_release_commits(moved);
}

/// Any number of polls.
pub open spec fn polls(count: nat) -> Seq<Step> {
    Seq::new(count, |i: int| Step::Drain)
}

/// Polling an application that has nothing pending changes nothing and
/// hands out nothing, however often it is done.
pub proof fn law_polls_on_empty(s: MappView, count: nat)
    requires
        s.queue.pending.len() == 0,
    ensures
        s.legal(polls(count)),
        s.run(polls(count)) == s,
        s.handed_out(polls(count)) == Seq::<CommandView>::empty(),
    decreases count,
{
    if count > 0 {
        assert(polls(count).drop_last() =~= polls((count - 1) as nat));
        law_polls_on_empty(s, (count - 1) as nat);
    }
}

} // verus!
