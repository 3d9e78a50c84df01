use example_mapp::formula::{Column, Matrix, Point, Scalar, Transform, Vector};
use example_mapp::grab::Grab;
use example_mapp::mapp::ExampleMapp;
use example_mapp::picker::RayTracingTask;
use example_mapp::protocol::{
    Command, CommandKind, CommandResponse, CommandResponseKind, ElementState, Entity, Event,
    Intersection, Model, MouseButton,
};
use example_mapp::selection::Selection;
use example_mapp::showcase::{Action, Button, ButtonAsset, SceneAsset, Showcase};

const SECOND: u128 = 1_000_000_000;
const ROOT: Entity = Entity { id: 1 };

fn b<T>(value: T) -> Box<T> {
    Box::new(value)
}

fn scale(slot: usize) -> Scalar {
    Scalar::Bits((0.5f32 + slot as f32).to_bits())
}

fn button_placement(button: usize) -> Transform {
    Transform::Translation(b(Vector::Triple(
        b(Scalar::Whole(button as u128)),
        b(Scalar::Whole(1)),
        b(Scalar::Whole(0)),
    )))
}

fn showcase(scene: usize, buttons: usize, grabbing: bool) -> Showcase {
    Showcase {
        scene: (0..scene).map(|i| SceneAsset { data: vec![i as u8, 7], scale: scale(i) }).collect(),
        marker: vec![9, 9, 9],
        buttons: (0..buttons)
            .map(|j| ButtonAsset {
                data: vec![100 + j as u8],
                button: Button {
                    placement: button_placement(j),
                    action: if j % 2 == 0 { Action::Retreat } else { Action::Advance },
                },
            })
            .collect(),
        dwell: SECOND,
        grabbing,
    }
}

fn model(slot: usize) -> Model {
    Model { id: 200 + slot as u64 }
}

fn entity(slot: usize) -> Entity {
    Entity { id: 100 + slot as u64 }
}

fn drain(app: &mut ExampleMapp) -> Vec<Command> {
    let mut commands = Vec::new();
    while let Some(command) = app.send_command() {
        commands.push(command);
    }
    commands
}

fn kinds(app: &mut ExampleMapp) -> Vec<CommandKind> {
    drain(app).into_iter().map(|c| c.kind).collect()
}

fn respond(app: &mut ExampleMapp, kind: CommandResponseKind) {
    let response = CommandResponse { id: 0, kind };
    assert!(app.can_receive(&response));
    app.receive_command_response(response);
}

fn refused(app: &ExampleMapp, kind: CommandResponseKind) -> bool {
    !app.can_receive(&CommandResponse { id: 0, kind })
}

fn notify(app: &mut ExampleMapp, event: Event) {
    assert!(app.can_notify(&event));
    app.receive_event(event);
}

fn tick(app: &mut ExampleMapp, elapsed: u128) {
    assert!(app.can_update());
    app.update(elapsed);
}

fn press() -> Event {
    Event::MouseInput { button: MouseButton::Left, state: ElementState::Pressed }
}

fn release() -> Event {
    Event::MouseInput { button: MouseButton::Left, state: ElementState::Released }
}

/// An application whose models and entities are all reported and whose
/// queue is empty.
fn booted(scene: usize, buttons: usize, grabbing: bool) -> ExampleMapp {
    let showcase = showcase(scene, buttons, grabbing);
    assert!(ExampleMapp::can_start(&showcase));
    let mut app = ExampleMapp::new(&showcase);
    respond(&mut app, CommandResponseKind::RootEntityGet { root_entity: ROOT });
    for slot in 0..scene + 1 + buttons {
        respond(&mut app, CommandResponseKind::ModelCreate { model: model(slot) });
    }
    for slot in 0..scene + 1 + buttons {
        respond(&mut app, CommandResponseKind::EntityCreate { entity: entity(slot) });
    }
    drain(&mut app);
    app
}

fn matrix(seed: u32) -> Matrix {
    let mut cells = [0u32; 16];
    for (i, cell) in cells.iter_mut().enumerate() {
        *cell = (seed as f32 + i as f32).to_bits();
    }
    Matrix { cells }
}

fn host(seed: u32) -> Transform {
    Transform::Host(matrix(seed))
}

/// The averaged pose of a medium with the single sample `matrix(seed)`.
fn pose(seed: u32) -> Transform {
    Transform::Quotient(b(Transform::Sum(b(Transform::Zero), b(host(seed)))), b(Scalar::Whole(1)))
}

fn direction(pose: &Transform) -> Vector {
    Vector::Projected(b(pose.clone()), Column { x: 0, y: 0, z: -1, w: 0 })
}

fn position(pose: &Transform) -> Vector {
    Vector::Projected(b(pose.clone()), Column { x: 0, y: 0, z: 0, w: 1 })
}

fn view(app: &mut ExampleMapp, seed: u32) {
    respond(
        app,
        CommandResponseKind::GetViewOrientation { views_per_medium: vec![Some(vec![matrix(seed)])] },
    );
}

fn point(x: f32, y: f32, z: f32) -> Point {
    Point { x: x.to_bits(), y: y.to_bits(), z: z.to_bits() }
}

fn hit(entity: Entity, distance: f32) -> Option<Intersection> {
    Some(Intersection {
        entity,
        position: point(1.0, 2.0, 3.0),
        distance_from_origin: distance.to_bits(),
    })
}

fn trace(app: &mut ExampleMapp, closest_intersection: Option<Intersection>) {
    respond(app, CommandResponseKind::RayTrace { closest_intersection });
}

fn in_scene(transform: Transform) -> Transform {
    Transform::Product(b(Transform::Yaw(b(Scalar::Whole(0)))), b(transform))
}

fn scene_placement(slot: usize) -> Transform {
    Transform::Product(
        b(Transform::Translation(b(Vector::Triple(
            b(Scalar::Whole(0)),
            b(Scalar::Whole(0)),
            b(Scalar::Sum(
                b(Scalar::Whole(2)),
                b(Scalar::Product(b(Scalar::Whole(4)), b(Scalar::Whole(slot as u128)))),
            )),
        )))),
        b(Transform::Scaling(b(scale(slot)))),
    )
}

fn carried(current: Transform, original: Transform, base: Transform) -> Transform {
    Transform::Product(
        b(Transform::Product(b(current), b(Transform::Inverse(b(original))))),
        b(base),
    )
}

fn travelled(segments: &[f32]) -> Scalar {
    let mut total = Scalar::Whole(0);
    for segment in segments {
        total = Scalar::Sum(b(total), b(Scalar::Bits(segment.to_bits())));
    }
    total
}

fn marker_placement(total: Scalar, growth: Option<Scalar>) -> Transform {
    let plain = Scalar::Product(
        b(Scalar::Quotient(b(Scalar::Whole(1)), b(Scalar::Whole(50)))),
        b(total),
    );
    let size = match growth {
        Some(factor) => Scalar::Product(b(plain), b(factor)),
        None => plain,
    };
    Transform::Product(
        b(Transform::Translation(b(Vector::Host(point(1.0, 2.0, 3.0))))),
        b(Transform::Scaling(b(size))),
    )
}

fn marker_commands(marker: usize, total: Scalar, growth: Option<Scalar>) -> Vec<CommandKind> {
    vec![
        CommandKind::EntityModelSet { entity: entity(marker), model: Some(model(marker)) },
        CommandKind::EntityTransformSet {
            entity: entity(marker),
            transform: Some(in_scene(marker_placement(total, growth))),
        },
    ]
}

#[test]
fn bootstrap_issues_root_models_entities_in_order() {
    let showcase = showcase(2, 1, true);
    assert!(ExampleMapp::can_start(&showcase));
    let mut app = ExampleMapp::new(&showcase);
    assert_eq!(app.pending(), 9);
    assert_eq!(app.slots(), 4);
    assert_eq!(
        kinds(&mut app),
        vec![
            CommandKind::RootEntityGet,
            CommandKind::ModelCreate { data: vec![0, 7] },
            CommandKind::ModelCreate { data: vec![1, 7] },
            CommandKind::ModelCreate { data: vec![9, 9, 9] },
            CommandKind::ModelCreate { data: vec![100] },
            CommandKind::EntityCreate,
            CommandKind::EntityCreate,
            CommandKind::EntityCreate,
            CommandKind::EntityCreate,
        ]
    );
}

#[test]
fn bootstrap_without_scene_still_has_the_marker() {
    let showcase = showcase(0, 0, false);
    let mut app = ExampleMapp::new(&showcase);
    assert_eq!(
        kinds(&mut app),
        vec![
            CommandKind::RootEntityGet,
            CommandKind::ModelCreate { data: vec![9, 9, 9] },
            CommandKind::EntityCreate,
        ]
    );
    assert_eq!(app.slots(), 1);
}

#[test]
fn bootstrap_creates_one_entity_per_scene_model_marker_and_button() {
    for scene in 0..4 {
        for buttons in 0..3 {
            let mut app = ExampleMapp::new(&showcase(scene, buttons, true));
            let created = kinds(&mut app)
                .into_iter()
                .filter(|kind| *kind == CommandKind::EntityCreate)
                .count();
            assert_eq!(created, scene + 1 + buttons);
        }
    }
}

#[test]
fn command_ids_count_up_from_zero() {
    let mut app = ExampleMapp::new(&showcase(2, 1, true));
    let mut ids = Vec::new();
    ids.extend(drain(&mut app).into_iter().map(|c| c.id));
    respond(&mut app, CommandResponseKind::RootEntityGet { root_entity: ROOT });
    respond(&mut app, CommandResponseKind::EntityCreate { entity: entity(0) });
    ids.push(app.send_command().unwrap().id);
    tick(&mut app, 1);
    respond(&mut app, CommandResponseKind::EntityCreate { entity: entity(1) });
    ids.extend(drain(&mut app).into_iter().map(|c| c.id));
    respond(&mut app, CommandResponseKind::EntityCreate { entity: entity(2) });
    tick(&mut app, 2);
    view(&mut app, 1);
    trace(&mut app, None);
    ids.extend(drain(&mut app).into_iter().map(|c| c.id));
    let expected: Vec<u64> = (0..ids.len() as u64).collect();
    assert_eq!(ids, expected);
    assert_eq!(ids.len(), 9 + 3 + 1 + 3 + 3 + 3 + 1 + 1);
}

#[test]
fn send_command_on_an_empty_queue_reports_empty_every_time() {
    let mut app = booted(1, 0, true);
    for _ in 0..10 {
        assert_eq!(app.send_command(), None);
        assert_eq!(app.pending(), 0);
    }
    tick(&mut app, 5);
    let first = app.send_command().unwrap();
    let second = app.send_command().unwrap();
    assert_eq!(second.id, first.id + 1);
    for _ in 0..10 {
        assert_eq!(app.send_command(), None);
    }
    tick(&mut app, 6);
    assert_eq!(app.send_command().unwrap().id, second.id + 1);
}

#[test]
fn root_entity_is_remembered() {
    let mut app = ExampleMapp::new(&showcase(1, 0, true));
    assert_eq!(app.root(), None);
    drain(&mut app);
    respond(&mut app, CommandResponseKind::RootEntityGet { root_entity: ROOT });
    assert_eq!(app.root(), Some(ROOT));
    assert_eq!(app.pending(), 0);
}

#[test]
fn models_bind_to_the_first_empty_slot() {
    let mut app = ExampleMapp::new(&showcase(2, 1, true));
    drain(&mut app);
    for slot in 0..4 {
        assert_eq!(app.model(slot), None);
        respond(&mut app, CommandResponseKind::ModelCreate { model: model(slot) });
        for earlier in 0..=slot {
            assert_eq!(app.model(earlier), Some(model(earlier)));
        }
    }
    assert_eq!(app.model(4), None);
    assert_eq!(app.pending(), 0);
    assert!(refused(&app, CommandResponseKind::ModelCreate { model: model(4) }));
}

#[test]
fn entities_bind_in_the_order_of_their_creation() {
    let mut app = ExampleMapp::new(&showcase(2, 2, true));
    drain(&mut app);
    respond(&mut app, CommandResponseKind::RootEntityGet { root_entity: ROOT });
    for slot in 0..5 {
        respond(&mut app, CommandResponseKind::ModelCreate { model: model(slot) });
    }
    let placements = vec![
        scene_placement(0),
        scene_placement(1),
        Transform::Identity,
        button_placement(0),
        button_placement(1),
    ];
    for slot in 0..5 {
        assert_eq!(app.entity(slot), None);
        respond(&mut app, CommandResponseKind::EntityCreate { entity: entity(slot) });
        assert_eq!(app.entity(slot), Some(entity(slot)));
        assert_eq!(
            kinds(&mut app),
            vec![
                CommandKind::EntityParentSet { entity: entity(slot), parent_entity: ROOT },
                CommandKind::EntityModelSet { entity: entity(slot), model: Some(model(slot)) },
                CommandKind::EntityTransformSet {
                    entity: entity(slot),
                    transform: Some(in_scene(placements[slot].clone())),
                },
            ]
        );
    }
    assert_eq!(app.base(0), Some(scene_placement(0)));
    assert_eq!(app.base(1), Some(scene_placement(1)));
    assert_eq!(app.base(2), None);
    assert_eq!(app.entity(5), None);
    assert!(refused(&app, CommandResponseKind::EntityCreate { entity: entity(5) }));
}

#[test]
fn entity_reported_before_its_model_gets_no_model() {
    let mut app = ExampleMapp::new(&showcase(1, 0, true));
    drain(&mut app);
    respond(&mut app, CommandResponseKind::RootEntityGet { root_entity: ROOT });
    respond(&mut app, CommandResponseKind::EntityCreate { entity: entity(0) });
    assert_eq!(
        kinds(&mut app)[1],
        CommandKind::EntityModelSet { entity: entity(0), model: None }
    );
}

#[test]
fn entity_reported_before_the_root_is_refused() {
    let mut app = ExampleMapp::new(&showcase(1, 0, true));
    drain(&mut app);
    assert!(refused(&app, CommandResponseKind::EntityCreate { entity: entity(0) }));
    respond(&mut app, CommandResponseKind::RootEntityGet { root_entity: ROOT });
    assert!(!refused(&app, CommandResponseKind::EntityCreate { entity: entity(0) }));
}

#[test]
fn responses_to_setters_change_nothing() {
    let mut app = booted(1, 0, true);
    respond(&mut app, CommandResponseKind::EntityParentSet);
    respond(&mut app, CommandResponseKind::EntityModelSet);
    respond(&mut app, CommandResponseKind::EntityTransformSet);
    assert_eq!(app.pending(), 0);
    assert_eq!(app.task(), None);
    assert_eq!(app.entity(0), Some(entity(0)));
}

#[test]
fn update_waits_for_the_scene_before_asking_for_the_view() {
    let mut app = ExampleMapp::new(&showcase(2, 0, true));
    drain(&mut app);
    respond(&mut app, CommandResponseKind::RootEntityGet { root_entity: ROOT });
    tick(&mut app, 1);
    assert_eq!(kinds(&mut app), vec![]);
    respond(&mut app, CommandResponseKind::EntityCreate { entity: entity(0) });
    drain(&mut app);
    tick(&mut app, 2);
    assert_eq!(app.elapsed(), 2);
    assert_eq!(
        kinds(&mut app),
        vec![CommandKind::EntityTransformSet {
            entity: entity(0),
            transform: Some(in_scene(scene_placement(0))),
        }]
    );
    respond(&mut app, CommandResponseKind::EntityCreate { entity: entity(1) });
    drain(&mut app);
    tick(&mut app, 3);
    assert_eq!(
        kinds(&mut app),
        vec![
            CommandKind::EntityTransformSet {
                entity: entity(0),
                transform: Some(in_scene(scene_placement(0))),
            },
            CommandKind::EntityTransformSet {
                entity: entity(1),
                transform: Some(in_scene(scene_placement(1))),
            },
            CommandKind::GetViewOrientation,
        ]
    );
}

#[test]
fn update_of_an_empty_scene_asks_for_the_view_at_once() {
    let mut app = ExampleMapp::new(&showcase(0, 0, true));
    drain(&mut app);
    tick(&mut app, 1);
    assert_eq!(kinds(&mut app), vec![CommandKind::GetViewOrientation]);
}

#[test]
fn a_single_medium_starts_a_pick_from_its_average() {
    let mut app = booted(1, 0, true);
    respond(
        &mut app,
        CommandResponseKind::GetViewOrientation {
            views_per_medium: vec![Some(vec![matrix(1), matrix(2)])],
        },
    );
    let mean = Transform::Quotient(
        b(Transform::Sum(b(Transform::Sum(b(Transform::Zero), b(host(1)))), b(host(2)))),
        b(Scalar::Whole(2)),
    );
    assert_eq!(
        kinds(&mut app),
        vec![CommandKind::RayTrace { origin: position(&mean), direction: direction(&mean) }]
    );
    assert_eq!(
        app.task(),
        Some(RayTracingTask {
            transform: mean.clone(),
            direction: direction(&mean),
            total_distance: Scalar::Whole(0),
        })
    );
}

#[test]
fn of_two_media_the_first_is_primary() {
    let mut app = booted(1, 0, true);
    respond(
        &mut app,
        CommandResponseKind::GetViewOrientation {
            views_per_medium: vec![Some(vec![matrix(1)]), Some(vec![matrix(2)])],
        },
    );
    assert_eq!(
        kinds(&mut app),
        vec![CommandKind::RayTrace { origin: position(&pose(1)), direction: direction(&pose(1)) }]
    );
    respond(
        &mut app,
        CommandResponseKind::GetViewOrientation { views_per_medium: vec![Some(vec![matrix(3)]), None] },
    );
    assert_eq!(
        kinds(&mut app),
        vec![CommandKind::RayTrace { origin: position(&pose(3)), direction: direction(&pose(3)) }]
    );
}

#[test]
fn without_a_primary_view_no_pick_starts() {
    for media in [
        vec![],
        vec![None],
        vec![None, Some(vec![matrix(2)])],
        vec![None, None],
        vec![Some(vec![matrix(1)]), Some(vec![matrix(2)]), Some(vec![matrix(3)])],
    ] {
        let mut app = booted(1, 0, true);
        respond(&mut app, CommandResponseKind::GetViewOrientation { views_per_medium: media });
        assert_eq!(app.pending(), 0);
        assert_eq!(app.task(), None);
    }
}

#[test]
fn a_hit_on_the_marker_passes_through() {
    let mut app = booted(1, 0, true);
    view(&mut app, 1);
    drain(&mut app);
    trace(&mut app, hit(entity(1), 2.5));
    let nudge = Scalar::Product(
        b(Scalar::Whole(32)),
        b(Scalar::Quotient(b(Scalar::Whole(1)), b(Scalar::Whole(8388608)))),
    );
    let expected = vec![CommandKind::RayTrace {
        origin: Vector::Sum(
            b(Vector::Host(point(1.0, 2.0, 3.0))),
            b(Vector::Scaled(b(direction(&pose(1))), b(nudge))),
        ),
        direction: direction(&pose(1)),
    }];
    assert_eq!(kinds(&mut app), expected);
    assert_eq!(
        app.task(),
        Some(RayTracingTask {
            transform: pose(1),
            direction: direction(&pose(1)),
            total_distance: travelled(&[2.5]),
        })
    );
    trace(&mut app, hit(entity(1), 0.5));
    assert_eq!(kinds(&mut app), expected);
    assert_eq!(app.task().unwrap().total_distance, travelled(&[2.5, 0.5]));
}

#[test]
fn a_miss_takes_the_model_off_the_marker() {
    let mut app = booted(1, 0, true);
    view(&mut app, 1);
    drain(&mut app);
    trace(&mut app, None);
    assert_eq!(
        kinds(&mut app),
        vec![CommandKind::EntityModelSet { entity: entity(1), model: None }]
    );
    assert_eq!(app.task(), None);
    trace(&mut app, None);
    assert_eq!(
        kinds(&mut app),
        vec![CommandKind::EntityModelSet { entity: entity(1), model: None }]
    );
}

#[test]
fn a_hit_behind_the_marker_shows_the_marker_there() {
    let mut app = booted(1, 0, true);
    view(&mut app, 1);
    drain(&mut app);
    trace(&mut app, hit(entity(1), 2.5));
    drain(&mut app);
    trace(&mut app, hit(entity(0), 1.5));
    assert_eq!(kinds(&mut app), marker_commands(1, travelled(&[2.5, 1.5]), None));
    assert_eq!(app.task(), None);
    assert_eq!(app.grab(), None);
}

#[test]
fn a_hit_without_a_pick_in_flight_is_refused() {
    let mut app = booted(1, 0, true);
    assert!(refused(&app, CommandResponseKind::RayTrace { closest_intersection: hit(entity(0), 1.0) }));
    assert!(!refused(&app, CommandResponseKind::RayTrace { closest_intersection: None }));
    view(&mut app, 1);
    trace(&mut app, hit(entity(0), 1.0));
    assert!(refused(&app, CommandResponseKind::RayTrace { closest_intersection: hit(entity(0), 1.0) }));
}

#[test]
fn a_ray_trace_before_the_marker_entity_is_refused() {
    let mut app = ExampleMapp::new(&showcase(1, 0, true));
    drain(&mut app);
    respond(&mut app, CommandResponseKind::RootEntityGet { root_entity: ROOT });
    respond(&mut app, CommandResponseKind::EntityCreate { entity: entity(0) });
    view(&mut app, 1);
    assert!(refused(&app, CommandResponseKind::RayTrace { closest_intersection: None }));
    assert!(refused(&app, CommandResponseKind::RayTrace { closest_intersection: hit(entity(0), 1.0) }));
    respond(&mut app, CommandResponseKind::EntityCreate { entity: entity(1) });
    assert!(!refused(&app, CommandResponseKind::RayTrace { closest_intersection: None }));
}

#[test]
fn pressing_alone_grabs_nothing() {
    let mut app = booted(2, 0, true);
    assert!(!app.pressing());
    notify(&mut app, press());
    assert!(app.pressing());
    assert_eq!(app.grab(), None);
    notify(&mut app, release());
    assert!(!app.pressing());
    assert_eq!(app.grab(), None);
    assert_eq!(app.base(0), Some(scene_placement(0)));
}

#[test]
fn a_grabbed_entity_moves_with_the_view_and_stays_where_it_is_let_go() {
    let mut app = booted(2, 0, true);
    view(&mut app, 1);
    notify(&mut app, press());
    trace(&mut app, hit(entity(2), 1.0));
    trace(&mut app, hit(entity(1), 1.0));
    assert_eq!(app.grab(), Some(Grab { entity: entity(1), original_transform: pose(1) }));
    drain(&mut app);

    tick(&mut app, 1);
    let held = carried(pose(1), pose(1), scene_placement(1));
    assert_eq!(
        kinds(&mut app),
        vec![
            CommandKind::EntityTransformSet {
                entity: entity(0),
                transform: Some(in_scene(scene_placement(0))),
            },
            CommandKind::EntityTransformSet { entity: entity(1), transform: Some(in_scene(held)) },
            CommandKind::GetViewOrientation,
        ]
    );

    view(&mut app, 5);
    drain(&mut app);
    tick(&mut app, 2);
    let moved = carried(pose(5), pose(1), scene_placement(1));
    assert_eq!(
        kinds(&mut app)[1],
        CommandKind::EntityTransformSet {
            entity: entity(1),
            transform: Some(in_scene(moved.clone())),
        }
    );
    assert_eq!(app.base(1), Some(scene_placement(1)));

    notify(&mut app, release());
    assert_eq!(app.grab(), None);
    assert!(!app.pressing());
    assert_eq!(app.base(0), Some(scene_placement(0)));
    assert_eq!(app.base(1), Some(moved.clone()));

    view(&mut app, 8);
    drain(&mut app);
    tick(&mut app, 3);
    assert_eq!(
        kinds(&mut app)[1],
        CommandKind::EntityTransformSet {
            entity: entity(1),
            transform: Some(in_scene(moved.clone())),
        }
    );

    notify(&mut app, press());
    trace(&mut app, hit(entity(1), 1.0));
    view(&mut app, 9);
    notify(&mut app, release());
    assert_eq!(app.base(1), Some(carried(pose(9), pose(8), moved)));
}

#[test]
fn a_second_grab_while_holding_changes_nothing() {
    let mut app = booted(2, 0, true);
    view(&mut app, 1);
    notify(&mut app, press());
    trace(&mut app, hit(entity(0), 1.0));
    let first = app.grab();
    assert_eq!(first, Some(Grab { entity: entity(0), original_transform: pose(1) }));
    view(&mut app, 2);
    trace(&mut app, hit(entity(1), 1.0));
    assert_eq!(app.grab(), first);
    notify(&mut app, press());
    view(&mut app, 3);
    trace(&mut app, hit(entity(1), 1.0));
    assert_eq!(app.grab(), first);
}

#[test]
fn a_hit_without_the_button_down_grabs_nothing() {
    let mut app = booted(2, 0, true);
    view(&mut app, 1);
    trace(&mut app, hit(entity(0), 1.0));
    assert_eq!(app.grab(), None);
    notify(&mut app, press());
    notify(&mut app, release());
    view(&mut app, 1);
    trace(&mut app, hit(entity(0), 1.0));
    assert_eq!(app.grab(), None);
}

#[test]
fn other_events_are_not_acted_on() {
    let mut app = booted(1, 0, true);
    for event in [
        Event::Other,
        Event::MouseInput { button: MouseButton::Right, state: ElementState::Pressed },
        Event::MouseInput { button: MouseButton::Middle, state: ElementState::Released },
        Event::MouseInput { button: MouseButton::Other(4), state: ElementState::Pressed },
    ] {
        notify(&mut app, event);
        assert!(!app.pressing());
    }
    let io = app.flush_io();
    assert_eq!(io.out, Vec::<u8>::new());
    assert_eq!(io.err, Vec::<u8>::new());
}

#[test]
fn with_grabbing_off_the_button_does_nothing() {
    let mut app = booted(1, 0, false);
    view(&mut app, 1);
    notify(&mut app, press());
    assert!(!app.pressing());
    trace(&mut app, hit(entity(0), 1.0));
    assert_eq!(app.grab(), None);
    notify(&mut app, release());
    assert_eq!(app.flush_io().out, Vec::<u8>::new());
}

#[test]
fn letting_go_of_what_is_not_of_the_scene_is_refused() {
    let mut app = booted(1, 1, true);
    view(&mut app, 1);
    notify(&mut app, press());
    trace(&mut app, hit(entity(2), 1.0));
    assert_eq!(app.grab(), Some(Grab { entity: entity(2), original_transform: pose(1) }));
    assert!(!app.can_notify(&release()));
    assert!(app.can_notify(&press()));
    assert!(app.can_notify(&Event::Other));
    assert!(app.can_update());
}

#[test]
fn holding_without_a_primary_view_stops_the_tick() {
    let mut app = booted(1, 0, true);
    view(&mut app, 1);
    notify(&mut app, press());
    trace(&mut app, hit(entity(0), 1.0));
    assert!(app.can_update());
    assert!(app.can_notify(&release()));
    respond(&mut app, CommandResponseKind::GetViewOrientation { views_per_medium: vec![] });
    assert!(!app.can_update());
    assert!(!app.can_notify(&release()));
    view(&mut app, 2);
    assert!(app.can_update());
    assert!(app.can_notify(&release()));
}

#[test]
fn diagnostics_tell_of_the_button() {
    let mut app = booted(1, 0, true);
    notify(&mut app, press());
    notify(&mut app, release());
    notify(&mut app, press());
    let io = app.flush_io();
    assert_eq!(io.out, b"Grab initiated.\nGrab ended.\nGrab initiated.\n".to_vec());
    assert_eq!(io.err, Vec::<u8>::new());
    let again = app.flush_io();
    assert_eq!(again.out, Vec::<u8>::new());
    notify(&mut app, release());
    assert_eq!(app.flush_io().out, b"Grab ended.\n".to_vec());
}

/// Points at `target` at time `elapsed`.
fn point_at(app: &mut ExampleMapp, elapsed: u128, target: Entity) {
    tick(app, elapsed);
    view(app, 1);
    trace(app, hit(target, 1.0));
}

#[test]
fn dwelling_on_a_button_for_the_delay_steps_the_displayed_model_once() {
    let mut app = booted(3, 2, false);
    let previous = entity(4);
    let next = entity(5);
    assert_eq!(app.displayed(), 0);
    point_at(&mut app, 10 * SECOND, next);
    assert_eq!(app.selection(), Some(Selection { target: next, since: 10 * SECOND }));
    point_at(&mut app, 11 * SECOND - 1, next);
    assert_eq!(app.selection(), Some(Selection { target: next, since: 10 * SECOND }));
    assert_eq!(app.displayed(), 0);
    point_at(&mut app, 11 * SECOND, next);
    assert_eq!(app.selection(), None);
    assert_eq!(app.displayed(), 1);
    point_at(&mut app, 11 * SECOND, next);
    assert_eq!(app.selection(), Some(Selection { target: next, since: 11 * SECOND }));
    assert_eq!(app.displayed(), 1);
    point_at(&mut app, 12 * SECOND, next);
    assert_eq!(app.displayed(), 2);
    point_at(&mut app, 12 * SECOND, next);
    point_at(&mut app, 14 * SECOND, next);
    assert_eq!(app.displayed(), 0);
    point_at(&mut app, 14 * SECOND, previous);
    point_at(&mut app, 15 * SECOND, previous);
    assert_eq!(app.displayed(), 2);
    point_at(&mut app, 15 * SECOND, previous);
    point_at(&mut app, 16 * SECOND, previous);
    assert_eq!(app.displayed(), 1);
}

#[test]
fn a_miss_before_the_delay_ends_the_dwell_without_effect() {
    let mut app = booted(3, 2, false);
    point_at(&mut app, SECOND, entity(5));
    assert!(app.selection().is_some());
    tick(&mut app, SECOND + SECOND / 2);
    view(&mut app, 1);
    trace(&mut app, None);
    assert_eq!(app.selection(), None);
    assert_eq!(app.displayed(), 0);
    point_at(&mut app, 5 * SECOND, entity(5));
    assert_eq!(app.selection(), Some(Selection { target: entity(5), since: 5 * SECOND }));
    assert_eq!(app.displayed(), 0);
}

#[test]
fn switching_targets_starts_the_dwell_clock_anew() {
    let mut app = booted(3, 2, false);
    point_at(&mut app, SECOND, entity(4));
    point_at(&mut app, 2 * SECOND - 1, entity(5));
    assert_eq!(app.selection(), None);
    assert_eq!(app.displayed(), 0);
    point_at(&mut app, 2 * SECOND, entity(5));
    assert_eq!(app.selection(), Some(Selection { target: entity(5), since: 2 * SECOND }));
    point_at(&mut app, 2 * SECOND + 1, entity(5));
    assert_eq!(app.displayed(), 0);
    point_at(&mut app, 3 * SECOND, entity(5));
    assert_eq!(app.displayed(), 1);
}

#[test]
fn scene_entities_and_the_marker_cannot_be_dwelt_on() {
    let mut app = booted(2, 1, false);
    point_at(&mut app, SECOND, entity(0));
    assert_eq!(app.selection(), None);
    point_at(&mut app, 5 * SECOND, entity(0));
    assert_eq!(app.selection(), None);
    tick(&mut app, 6 * SECOND);
    view(&mut app, 1);
    trace(&mut app, hit(entity(2), 1.0));
    assert_eq!(app.selection(), None);
    assert!(app.task().is_some());
    assert_eq!(app.displayed(), 0);
}

#[test]
fn a_hit_on_the_marker_leaves_the_dwell_running() {
    let mut app = booted(1, 1, false);
    point_at(&mut app, SECOND, entity(2));
    let running = app.selection();
    assert!(running.is_some());
    tick(&mut app, 2 * SECOND);
    view(&mut app, 1);
    trace(&mut app, hit(entity(1), 1.0));
    assert_eq!(app.selection(), running);
    trace(&mut app, hit(entity(2), 1.0));
    assert_eq!(app.selection(), None);
    assert_eq!(app.displayed(), 0);
}

#[test]
fn the_marker_grows_while_its_target_is_dwelt_on() {
    let mut app = booted(1, 1, false);
    point_at(&mut app, SECOND, entity(2));
    assert_eq!(kinds(&mut app)[3..], marker_commands(1, travelled(&[1.0]), None)[..]);
    point_at(&mut app, SECOND + SECOND / 4, entity(2));
    let growth = Scalar::Sum(
        b(Scalar::Whole(1)),
        b(Scalar::Quotient(b(Scalar::Whole(SECOND / 4)), b(Scalar::Whole(SECOND)))),
    );
    let commands = kinds(&mut app);
    assert_eq!(commands.len(), 5);
    assert_eq!(commands[3..], marker_commands(1, travelled(&[1.0]), Some(growth))[..]);
    point_at(&mut app, SECOND + SECOND / 2, entity(0));
    assert_eq!(kinds(&mut app)[3..], marker_commands(1, travelled(&[1.0]), None)[..]);
}

#[test]
fn stepping_wraps_around_a_scene_of_one() {
    let mut app = booted(1, 2, false);
    point_at(&mut app, 0, entity(3));
    point_at(&mut app, SECOND, entity(3));
    assert_eq!(app.displayed(), 0);
    point_at(&mut app, SECOND, entity(2));
    point_at(&mut app, 2 * SECOND, entity(2));
    assert_eq!(app.displayed(), 0);
}

#[test]
fn a_showcase_of_nothing_can_start() {
    let scene: Vec<SceneAsset> = Vec::new();
    let small = Showcase { scene, marker: vec![], buttons: vec![], dwell: 0, grabbing: true };
    assert!(ExampleMapp::can_start(&small));
    let mut app = ExampleMapp::new(&small);
    assert_eq!(app.pending(), 3);
    assert_eq!(app.send_command().unwrap().kind, CommandKind::RootEntityGet);
    assert_eq!(app.send_command().unwrap().kind, CommandKind::ModelCreate { data: vec![] });
}
