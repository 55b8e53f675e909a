use vstd::prelude::*;
use crate::dir::{Dir, MapPos, is_odd_row, neighbour};

verus! {

/// A point of the map plane in exact lattice units: `x` counts hex
/// inradii, `y` counts halves of the hex circumradius.  A renderer
/// multiplies by the two radii to get its floating-point coordinates.
#[derive(Clone, Copy, Debug, PartialEq, Eq, Structural)]
pub struct WorldPos {
    pub x: i64,
    pub y: i64,
}

impl View for WorldPos {
    type V = (int, int);

    open spec fn view(&self) -> (int, int) {
        (self.x as int, self.y as int)
    }
}

/// Centre of the tile at `p`.  Even rows are shifted right by one inradius,
/// with the same parity that selects the neighbour offset table.
pub open spec fn world_of(p: (int, int)) -> (int, int) {
    (2 * p.0 + if is_odd_row(p.1) { 0int } else { 1int }, 3 * p.1)
}

/// Corner `i` (taken mod 6) of a hex centred on the origin, starting at the
/// top (90 degrees) and turning 60 degrees per step.
pub open spec fn hex_corner(i: int) -> (int, int) {
    let k = i % 6;
    if k == 0 {
        (0, 2)
    } else if k == 1 {
        (-1, 1)
    } else if k == 2 {
        (-1, -1)
    } else if k == 3 {
        (0, -2)
    } else if k == 4 {
        (1, -1)
    } else {
        (1, 1)
    }
}

/// Offset between the centres of a tile and of its neighbour in direction `d`.
pub open spec fn world_step(d: Dir) -> (int, int) {
    match d {
        Dir::NorthEast => (1, -3),
        Dir::East => (2, 0),
        Dir::SouthEast => (1, 3),
        Dir::SouthWest => (-1, 3),
        Dir::West => (-2, 0),
        Dir::NorthWest => (-1, -3),
    }
}

/// Centre of the tile at `pos`.
pub fn map_pos_to_world_pos(pos: MapPos) -> (r: WorldPos)
    ensures
        r@ == world_of(pos@),
{
    let shift: i64 = if pos.y % 2 != 0 { 0 } else { 1 };
    WorldPos { x: 2 * (pos.x as i64) + shift, y: 3 * (pos.y as i64) }
}

/// Corner `i mod 6` of a hex centred on the origin.
pub fn index_to_hex_vertex(i: i32) -> (r: WorldPos)
    ensures
        r@ == hex_corner(i as int),
{
    let k: i32 = i % 6;
    let k: i32 = if k < 0 { k + 6 } else { k };
    if k == 0 {
        WorldPos { x: 0, y: 2 }
    } else if k == 1 {
        WorldPos { x: -1, y: 1 }
    } else if k == 2 {
        WorldPos { x: -1, y: -1 }
    } else if k == 3 {
        WorldPos { x: 0, y: -2 }
    } else if k == 4 {
        WorldPos { x: 1, y: -1 }
    } else {
        WorldPos { x: 1, y: 1 }
    }
}

/// Neighbouring tiles are laid out as neighbouring hexes: the centre of the
/// neighbour in direction `d` lies at the same offset from the tile's centre
/// whatever the row, and all six offsets are at the same distance
/// (one inradius across and three half circumradii down make two inradii).
pub proof fn lemma_neighbour_world_step(p: (int, int), d: Dir)
    ensures
        world_of(neighbour(p, d)) == (world_of(p).0 + world_step(d).0, world_of(p).1 + world_step(d).1),
        world_step(d) == (2int, 0int) || world_step(d) == (-2int, 0int)
            || ((world_step(d).0 == 1 || world_step(d).0 == -1) && (world_step(d).1 == 3 || world_step(d).1 == -3)),
{
}

/// Every corner lies on the circumscribed circle: one inradius is
/// `sqrt(3) / 2` circumradii, so a corner `(x, y)` in lattice units is at
/// `(3 x^2 + y^2) / 4` squared circumradii from the centre.
pub proof fn lemma_hex_corner_on_circle(i: int)
    ensures
        3 * hex_corner(i).0 * hex_corner(i).0 + hex_corner(i).1 * hex_corner(i).1 == 4,
{
    let (x, y) = hex_corner(i);
    assert(x * x == 0 || x * x == 1) by (nonlinear_arith)
        requires
            x == 0 || x == 1 || x == -1,
    ;
    if x == 0 {
        assert(y * y == 4) by (nonlinear_arith)
            requires
                y == 2 || y == -2,
        ;
    } else {
        assert(y * y == 1) by (nonlinear_arith)
            requires
                y == 1 || y == -1,
        ;
    }
}

} // verus!
