use marauder::picker::scene_is_drawable;
use marauder::scene::{NodeId, Scene, ScenePos};

fn at(x: i64, y: i64) -> ScenePos {
    ScenePos { x, y, den: 1 }
}

#[test]
fn insert_then_get() {
    let mut scene = Scene::new();
    assert_eq!(scene.get(NodeId { id: 1 }), None);
    scene.insert(NodeId { id: 1 }, at(1, 2));
    scene.insert(NodeId { id: 2 }, at(3, 4));
    assert_eq!(scene.get(NodeId { id: 1 }), Some(at(1, 2)));
    assert_eq!(scene.get(NodeId { id: 2 }), Some(at(3, 4)));
    // inserting an id that is present moves its node
    scene.insert(NodeId { id: 1 }, at(5, 6));
    assert_eq!(scene.nodes.len(), 2);
    assert_eq!(scene.get(NodeId { id: 1 }), Some(at(5, 6)));
}

#[test]
fn set_pos_only_moves_present_nodes() {
    let mut scene = Scene::new();
    scene.insert(NodeId { id: 1 }, at(1, 2));
    assert!(scene.set_pos(NodeId { id: 1 }, at(7, 8)));
    assert_eq!(scene.get(NodeId { id: 1 }), Some(at(7, 8)));
    assert!(!scene.set_pos(NodeId { id: 3 }, at(0, 0)));
    assert_eq!(scene.get(NodeId { id: 3 }), None);
    assert_eq!(scene.nodes.len(), 1);
}

#[test]
fn drawable_bounds() {
    let mut scene = Scene::new();
    assert!(scene_is_drawable(&scene));
    scene.insert(NodeId { id: 1 }, ScenePos { x: -5, y: 9, den: 40 });
    assert!(scene_is_drawable(&scene));
    scene.insert(NodeId { id: 2 }, ScenePos { x: 0, y: 0, den: 0 });
    assert!(!scene_is_drawable(&scene));
    scene.insert(NodeId { id: 2 }, ScenePos { x: i64::MAX, y: 0, den: 1 });
    assert!(!scene_is_drawable(&scene));
}
