use marauder::dir::{Dir, DirError, MapPos};
use marauder::geom::{index_to_hex_vertex, map_pos_to_world_pos, WorldPos};

const ALL_DIRS: [Dir; 6] = [
    Dir::NorthEast,
    Dir::East,
    Dir::SouthEast,
    Dir::SouthWest,
    Dir::West,
    Dir::NorthWest,
];

fn pos(x: i32, y: i32) -> MapPos {
    MapPos { x, y }
}

#[test]
fn dir_int_round_trip() {
    for n in 0..6 {
        let d = Dir::from_int(n).unwrap();
        assert_eq!(d.to_int(), n);
    }
    assert_eq!(Dir::from_int(0), Ok(Dir::NorthEast));
    assert_eq!(Dir::from_int(5), Ok(Dir::NorthWest));
}

#[test]
fn dir_from_int_out_of_range() {
    assert_eq!(Dir::from_int(-1), Err(DirError::OutOfRange));
    assert_eq!(Dir::from_int(6), Err(DirError::OutOfRange));
    assert_eq!(Dir::from_int(i32::MAX), Err(DirError::OutOfRange));
}

#[test]
fn neighbour_even_row() {
    let p = pos(0, 0);
    assert_eq!(Dir::get_neighbour_pos(p, Dir::NorthEast), pos(1, -1));
    assert_eq!(Dir::get_neighbour_pos(p, Dir::East), pos(1, 0));
    assert_eq!(Dir::get_neighbour_pos(p, Dir::SouthEast), pos(1, 1));
    assert_eq!(Dir::get_neighbour_pos(p, Dir::SouthWest), pos(0, 1));
    assert_eq!(Dir::get_neighbour_pos(p, Dir::West), pos(-1, 0));
    assert_eq!(Dir::get_neighbour_pos(p, Dir::NorthWest), pos(0, -1));
}

#[test]
fn neighbour_odd_and_negative_rows() {
    let p = pos(2, 1);
    assert_eq!(Dir::get_neighbour_pos(p, Dir::NorthEast), pos(2, 0));
    assert_eq!(Dir::get_neighbour_pos(p, Dir::SouthWest), pos(1, 2));
    assert_eq!(Dir::get_neighbour_pos(p, Dir::NorthWest), pos(1, 0));
    let q = pos(0, -1);
    assert_eq!(Dir::get_neighbour_pos(q, Dir::NorthEast), pos(0, -2));
    assert_eq!(Dir::get_neighbour_pos(q, Dir::NorthWest), pos(-1, -2));
}

#[test]
fn dir_between_inverts_neighbour() {
    let samples = [pos(0, 0), pos(3, 1), pos(-4, -3), pos(7, -2), pos(100, 255)];
    for p in samples.iter() {
        for d in ALL_DIRS.iter() {
            let q = Dir::get_neighbour_pos(*p, *d);
            assert_eq!(Dir::get_dir_from_to(*p, q), Ok(*d));
        }
    }
}

#[test]
fn neighbours_pairwise_distinct() {
    let samples = [pos(0, 0), pos(1, 1), pos(-1, -1), pos(5, -6)];
    for p in samples.iter() {
        let ns: Vec<MapPos> = ALL_DIRS.iter().map(|d| Dir::get_neighbour_pos(*p, *d)).collect();
        for i in 0..6 {
            for j in 0..6 {
                if i != j {
                    assert_ne!(ns[i], ns[j]);
                }
            }
        }
    }
}

#[test]
fn dir_between_refuses_non_neighbours() {
    assert_eq!(Dir::get_dir_from_to(pos(0, 0), pos(0, 0)), Err(DirError::InvalidAdjacency));
    assert_eq!(Dir::get_dir_from_to(pos(0, 0), pos(2, 0)), Err(DirError::InvalidAdjacency));
    assert_eq!(Dir::get_dir_from_to(pos(0, 1), pos(1, 0)), Err(DirError::InvalidAdjacency));
    assert_eq!(
        Dir::get_dir_from_to(pos(i32::MIN, 0), pos(i32::MAX, 0)),
        Err(DirError::InvalidAdjacency)
    );
}

#[test]
fn tile_centres() {
    assert_eq!(map_pos_to_world_pos(pos(0, 0)), WorldPos { x: 1, y: 0 });
    assert_eq!(map_pos_to_world_pos(pos(1, 1)), WorldPos { x: 2, y: 3 });
    assert_eq!(map_pos_to_world_pos(pos(2, 2)), WorldPos { x: 5, y: 6 });
    assert_eq!(map_pos_to_world_pos(pos(0, -1)), WorldPos { x: 0, y: -3 });
}

#[test]
fn neighbours_are_two_inradii_apart() {
    let samples = [pos(0, 0), pos(3, 1), pos(-2, -5)];
    for p in samples.iter() {
        let c = map_pos_to_world_pos(*p);
        for d in ALL_DIRS.iter() {
            let n = map_pos_to_world_pos(Dir::get_neighbour_pos(*p, *d));
            let dx = n.x - c.x;
            let dy = n.y - c.y;
            // in real units: dx * inradius, dy * circumradius / 2, with
            // inradius^2 = 3/4 circumradius^2; the squared distance is 4 inradius^2
            assert_eq!(3 * dx * dx + dy * dy, 12);
        }
    }
}

#[test]
fn hex_corners() {
    assert_eq!(index_to_hex_vertex(0), WorldPos { x: 0, y: 2 });
    assert_eq!(index_to_hex_vertex(1), WorldPos { x: -1, y: 1 });
    assert_eq!(index_to_hex_vertex(3), WorldPos { x: 0, y: -2 });
    assert_eq!(index_to_hex_vertex(5), WorldPos { x: 1, y: 1 });
    assert_eq!(index_to_hex_vertex(6), index_to_hex_vertex(0));
    assert_eq!(index_to_hex_vertex(-1), index_to_hex_vertex(5));
}

#[test]
fn hex_corners_on_circumcircle() {
    for i in 0..6 {
        let c = index_to_hex_vertex(i);
        assert_eq!(3 * c.x * c.x + c.y * c.y, 4);
        assert_ne!(index_to_hex_vertex(i), index_to_hex_vertex(i + 1));
    }
}
