use marauder::dir::MapPos;
use marauder::event_visualizer::{
    EventCreateUnitVisualizer, EventEndTurnVisualizer, EventError, EventMoveVisualizer,
    EventQueue, EventVisualizer, MOVE_SPEED,
};
use marauder::game_state::{GameState, Unit, UnitId};
use marauder::scene::{NodeId, Scene, ScenePos};

fn pos(x: i32, y: i32) -> MapPos {
    MapPos { x, y }
}

/// A scene and a game state that hold unit `id` on tile `p`.
fn world_with_unit(id: i32, p: MapPos) -> (Scene, GameState) {
    let mut scene = Scene::new();
    let mut state = GameState::new();
    let created = EventCreateUnitVisualizer::new(UnitId { id }, p);
    assert_eq!(created.end(&mut scene, &mut state), Ok(()));
    (scene, state)
}

fn move_index(e: &EventVisualizer) -> u64 {
    match e {
        EventVisualizer::Move(m) => m.current_move_index,
        _ => panic!("not a move"),
    }
}

#[test]
fn move_finishes_after_all_segments() {
    let (mut scene, _state) = world_with_unit(1, pos(0, 0));
    let path = vec![pos(0, 0), pos(1, 0), pos(1, 1)];
    let mut e = EventMoveVisualizer::new(UnitId { id: 1 }, path);
    assert_eq!(MOVE_SPEED, 40);
    match &e {
        EventVisualizer::Move(m) => assert_eq!(m.frames_count(), 80),
        _ => panic!("not a move"),
    }
    for _ in 0..79 {
        assert!(!e.is_finished());
        e.draw(&mut scene);
    }
    assert_eq!(move_index(&e), 79);
    assert!(!e.is_finished());
    e.draw(&mut scene);
    assert_eq!(move_index(&e), 80);
    assert!(e.is_finished());
}

#[test]
fn is_finished_is_stable() {
    let (mut scene, _state) = world_with_unit(1, pos(0, 0));
    let mut e =
        EventMoveVisualizer::with_frames_per_segment(UnitId { id: 1 }, vec![pos(0, 0), pos(1, 0)], 2);
    assert_eq!(e.is_finished(), e.is_finished());
    assert!(!e.is_finished());
    e.draw(&mut scene);
    e.draw(&mut scene);
    assert!(e.is_finished());
    assert!(e.is_finished());
    // a further frame changes nothing
    e.draw(&mut scene);
    assert_eq!(move_index(&e), 2);
    assert!(e.is_finished());
}

#[test]
fn move_interpolates_between_waypoints() {
    let (mut scene, _state) = world_with_unit(1, pos(0, 0));
    let node = NodeId { id: 1 };
    assert_eq!(scene.get(node), Some(ScenePos { x: 1, y: 0, den: 1 }));
    let mut e = EventMoveVisualizer::new(UnitId { id: 1 }, vec![pos(0, 0), pos(1, 0)]);
    e.draw(&mut scene);
    // frame 0 stands on the first waypoint, centred on (1, 0)
    assert_eq!(scene.get(node), Some(ScenePos { x: 40, y: 0, den: 40 }));
    e.draw(&mut scene);
    // frame 1 is 1/40 of the way to (3, 0)
    assert_eq!(scene.get(node), Some(ScenePos { x: 42, y: 0, den: 40 }));
}

#[test]
fn move_commit_is_exact() {
    for fps in [1u16, 3, 40, 7] {
        let (mut scene, mut state) = world_with_unit(4, pos(0, 0));
        let path = vec![pos(0, 0), pos(1, 0), pos(1, 1)];
        let mut e = EventMoveVisualizer::with_frames_per_segment(UnitId { id: 4 }, path, fps);
        while !e.is_finished() {
            e.draw(&mut scene);
        }
        assert_eq!(e.end(&mut scene, &mut state), Ok(()));
        assert_eq!(state.units, vec![Unit { id: UnitId { id: 4 }, pos: pos(1, 1) }]);
        assert_eq!(scene.get(NodeId { id: 4 }), Some(ScenePos { x: 2, y: 3, den: 1 }));
    }
}

#[test]
fn move_of_unknown_unit_fails() {
    let (mut scene, mut state) = world_with_unit(4, pos(0, 0));
    let e = EventMoveVisualizer::new(UnitId { id: 9 }, vec![pos(0, 0), pos(1, 0)]);
    assert_eq!(e.end(&mut scene, &mut state), Err(EventError::UnknownUnit));
    assert_eq!(state.units, vec![Unit { id: UnitId { id: 4 }, pos: pos(0, 0) }]);
}

#[test]
fn create_unit_on_empty_state() {
    let mut scene = Scene::new();
    let mut state = GameState::new();
    let e = EventCreateUnitVisualizer::new(UnitId { id: 7 }, pos(2, 2));
    assert!(e.is_finished());
    assert_eq!(e.end(&mut scene, &mut state), Ok(()));
    assert_eq!(state.units, vec![Unit { id: UnitId { id: 7 }, pos: pos(2, 2) }]);
    assert_eq!(scene.nodes.len(), 1);
    assert_eq!(scene.get(NodeId { id: 7 }), Some(ScenePos { x: 5, y: 6, den: 1 }));
}

#[test]
fn create_duplicate_unit_fails() {
    let (mut scene, mut state) = world_with_unit(7, pos(2, 2));
    let e = EventCreateUnitVisualizer::new(UnitId { id: 7 }, pos(0, 0));
    assert_eq!(e.end(&mut scene, &mut state), Err(EventError::DuplicateUnitId));
    assert_eq!(state.units, vec![Unit { id: UnitId { id: 7 }, pos: pos(2, 2) }]);
    assert_eq!(scene.get(NodeId { id: 7 }), Some(ScenePos { x: 5, y: 6, den: 1 }));
}

#[test]
fn end_turn_changes_nothing() {
    let (mut scene, mut state) = world_with_unit(1, pos(3, 3));
    let mut e = EventEndTurnVisualizer::new();
    assert!(e.is_finished());
    e.draw(&mut scene);
    assert_eq!(e.end(&mut scene, &mut state), Ok(()));
    assert_eq!(state.units, vec![Unit { id: UnitId { id: 1 }, pos: pos(3, 3) }]);
    assert_eq!(scene.get(NodeId { id: 1 }), Some(ScenePos { x: 6, y: 9, den: 1 }));
}

#[test]
fn queue_runs_events_in_order() {
    let mut scene = Scene::new();
    let mut state = GameState::new();
    let mut queue = EventQueue::new();
    queue.push(EventCreateUnitVisualizer::new(UnitId { id: 2 }, pos(0, 0)));
    queue.push(EventMoveVisualizer::with_frames_per_segment(
        UnitId { id: 2 },
        vec![pos(0, 0), pos(1, 0)],
        3,
    ));
    queue.push(EventEndTurnVisualizer::new());
    // the creation commits first, before the move draws anything
    assert_eq!(queue.tick(&mut scene, &mut state), Ok(()));
    assert_eq!(queue.events.len(), 2);
    assert_eq!(state.units, vec![Unit { id: UnitId { id: 2 }, pos: pos(0, 0) }]);
    // three frames of the move, while the end of turn waits untouched
    for frame in 1..=3u64 {
        assert_eq!(queue.tick(&mut scene, &mut state), Ok(()));
        assert_eq!(move_index(&queue.events[0]), frame);
        assert!(matches!(queue.events[1], EventVisualizer::EndTurn(_)));
        assert_eq!(state.units[0].pos, pos(0, 0));
    }
    // the move commits and leaves
    assert_eq!(queue.tick(&mut scene, &mut state), Ok(()));
    assert_eq!(queue.events.len(), 1);
    assert_eq!(state.units[0].pos, pos(1, 0));
    assert_eq!(queue.tick(&mut scene, &mut state), Ok(()));
    assert!(queue.is_empty());
    assert_eq!(queue.tick(&mut scene, &mut state), Ok(()));
}

#[test]
fn queue_reports_failed_commit() {
    let mut scene = Scene::new();
    let mut state = GameState::new();
    let mut queue = EventQueue::new();
    queue.push(EventMoveVisualizer::with_frames_per_segment(UnitId { id: 8 }, vec![pos(0, 0)], 5));
    assert_eq!(queue.tick(&mut scene, &mut state), Err(EventError::UnknownUnit));
    assert!(queue.is_empty());
    assert!(state.units.is_empty());
}
