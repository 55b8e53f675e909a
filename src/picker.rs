use vstd::prelude::*;
use crate::dir::MapPos;
use crate::game_state::UnitId;
use crate::geom::{hex_corner, index_to_hex_vertex, map_pos_to_world_pos, world_of};
use crate::scene::{Scene, SceneNode, ScenePos};

verus! {

/// Blue channel of the background: nothing was drawn there.
pub const KIND_NOTHING: u8 = 0;

/// Blue channel of a tile; red and green hold its column and row.
pub const KIND_TILE: u8 = 1;

/// Blue channel of a unit; red holds its id.
pub const KIND_UNIT: u8 = 2;

/// Scene nodes with an id below this one are units.
pub const LAST_UNIT_NODE_ID: i32 = 1000;

/// The colour of one pixel of the picking frame.
#[derive(Clone, Copy, Debug, PartialEq, Eq, Structural)]
pub struct PickColor {
    pub r: u8,
    pub g: u8,
    pub b: u8,
}

/// Width and height, in pixels or in tiles.
#[derive(Clone, Copy, Debug, PartialEq, Eq, Structural)]
pub struct Size2 {
    pub w: i32,
    pub h: i32,
}

/// A point on the screen or in the frame buffer.
#[derive(Clone, Copy, Debug, PartialEq, Eq, Structural)]
pub struct ScreenPos {
    pub x: i32,
    pub y: i32,
}

/// What a pixel of the picking frame shows.
#[derive(Clone, Copy, Debug, PartialEq, Eq, Structural)]
pub enum PickResult {
    PickedMapPos(MapPos),
    PickedUnitId(UnitId),
    PickedNothing,
}

/// A pixel that no drawing of the picking frame can have produced.
#[derive(Clone, Copy, Debug, PartialEq, Eq, Structural)]
pub enum PickError {
    KindOutOfRange,
}

/// A flat-coloured vertex of the picking frame.
#[derive(Clone, Copy, Debug, PartialEq, Eq, Structural)]
pub struct PickVertex {
    pub pos: ScenePos,
    pub color: PickColor,
}

/// `n` reduced into a byte.
pub open spec fn low_byte(n: int) -> u8 {
    (n % 256) as u8
}

pub open spec fn tile_color(p: MapPos) -> PickColor {
    PickColor { r: low_byte(p.x as int), g: low_byte(p.y as int), b: KIND_TILE }
}

pub open spec fn unit_color(id: int) -> PickColor {
    PickColor { r: low_byte(id), g: 0, b: KIND_UNIT }
}

/// What the pixel `c` shows, if it can be one of the picking frame.
pub open spec fn decoded(c: PickColor) -> Option<PickResult> {
    if c.b == KIND_NOTHING {
        Some(PickResult::PickedNothing)
    } else if c.b == KIND_TILE {
        Some(PickResult::PickedMapPos(MapPos { x: c.r as i32, y: c.g as i32 }))
    } else if c.b == KIND_UNIT {
        Some(PickResult::PickedUnitId(UnitId { id: c.r as i32 }))
    } else {
        None
    }
}

/// The point `center + c / s`, for a hex drawn at `1 / s` of its size.
pub open spec fn offset_pos(center: ScenePos, c: (int, int), s: int) -> ScenePos {
    ScenePos {
        x: (center.x * s + c.0 * center.den) as i64,
        y: (center.y * s + c.1 * center.den) as i64,
        den: (center.den * s) as i64,
    }
}

/// Vertex `i` of the fan of six triangles that draws a hex: triangle `k`
/// joins corner `k`, corner `k + 1` and the centre.
pub open spec fn fan_vertex(center: ScenePos, s: int, color: PickColor, i: int) -> PickVertex {
    let k = i / 3;
    let m = i % 3;
    PickVertex {
        pos: if m == 0 {
            offset_pos(center, hex_corner(k), s)
        } else if m == 1 {
            offset_pos(center, hex_corner(k + 1), s)
        } else {
            offset_pos(center, (0, 0), s)
        },
        color,
    }
}

pub open spec fn hex_fan(center: ScenePos, s: int, color: PickColor) -> Seq<PickVertex> {
    Seq::new(18, |i: int| fan_vertex(center, s, color, i))
}

/// The tile with index `n` in row-major order on a map `w` tiles wide.
pub open spec fn tile_at(w: int, n: int) -> MapPos {
    MapPos { x: (n % w) as i32, y: (n / w) as i32 }
}

pub open spec fn tile_center(p: MapPos) -> ScenePos {
    ScenePos { x: world_of(p@).0 as i64, y: world_of(p@).1 as i64, den: 1 }
}

/// Triangles of the first `n` tiles of a map `w` tiles wide.
pub open spec fn tile_mesh(w: int, n: nat) -> Seq<PickVertex>
    decreases n,
{
    if n == 0 {
        Seq::empty()
    } else {
        let p = tile_at(w, n - 1);
        tile_mesh(w, (n - 1) as nat) + hex_fan(tile_center(p), 1, tile_color(p))
    }
}

/// Triangles of the units among `nodes`, each a hex of half size.
pub open spec fn unit_mesh(nodes: Seq<SceneNode>) -> Seq<PickVertex>
    decreases nodes.len(),
{
    if nodes.len() == 0 {
        Seq::empty()
    } else {
        let n = nodes.last();
        unit_mesh(nodes.drop_last()) + if n.id.id < LAST_UNIT_NODE_ID {
            hex_fan(n.pos, 2, unit_color(n.id.id as int))
        } else {
            Seq::empty()
        }
    }
}

/// A scene position whose hex can be drawn without overflow.
pub open spec fn drawable(p: ScenePos) -> bool {
    &&& -0x4_0000_0000_0000 <= p.x <= 0x4_0000_0000_0000
    &&& -0x4_0000_0000_0000 <= p.y <= 0x4_0000_0000_0000
    &&& 1 <= p.den <= 0x1_0000_0000
}

fn low_byte_of(n: i32) -> (r: u8)
    ensures
        r == low_byte(n as int),
{
    let m: i32 = n % 256;
    let m: i32 = if m < 0 { m + 256 } else { m };
    m as u8
}

/// The colour that marks tile `pos`.
pub fn encode_tile_color(pos: MapPos) -> (r: PickColor)
    ensures
        r == tile_color(pos),
{
    PickColor { r: low_byte_of(pos.x), g: low_byte_of(pos.y), b: KIND_TILE }
}

/// The colour that marks the unit with node id `id`.
pub fn encode_unit_color(id: i32) -> (r: PickColor)
    ensures
        r == unit_color(id as int),
{
    PickColor { r: low_byte_of(id), g: 0, b: KIND_UNIT }
}

/// What the pixel `c` shows; a blue channel outside the three kinds is refused.
pub fn decode_color(c: PickColor) -> (r: Result<PickResult, PickError>)
    ensures
        match decoded(c) {
            Some(p) => r == Ok::<PickResult, PickError>(p),
            None => r == Err::<PickResult, PickError>(PickError::KindOutOfRange),
        },
{
    if c.b == KIND_NOTHING {
        Ok(PickResult::PickedNothing)
    } else if c.b == KIND_TILE {
        Ok(PickResult::PickedMapPos(MapPos { x: c.r as i32, y: c.g as i32 }))
    } else if c.b == KIND_UNIT {
        Ok(PickResult::PickedUnitId(UnitId { id: c.r as i32 }))
    } else {
        Err(PickError::KindOutOfRange)
    }
}

/// A colour decodes to what it was encoded from: a tile whose column and
/// row fit in a byte, a unit whose id fits in a byte; and a background
/// pixel decodes to nothing, whatever its red and green channels hold.
pub proof fn lemma_pick_round_trip(p: MapPos, id: i32, c: PickColor)
    ensures
        0 <= p.x < 256 && 0 <= p.y < 256 ==> decoded(tile_color(p)) == Some(
            PickResult::PickedMapPos(p),
        ),
        0 <= id < 256 ==> decoded(unit_color(id as int)) == Some(
            PickResult::PickedUnitId(UnitId { id }),
        ),
        c.b == KIND_NOTHING ==> decoded(c) == Some(PickResult::PickedNothing),
{
}

fn offset_vertex(center: ScenePos, c: (i64, i64), s: i64, color: PickColor) -> (r: PickVertex)
    requires
        drawable(center),
        -2 <= c.0 <= 2,
        -2 <= c.1 <= 2,
        1 <= s <= 2,
    ensures
        r == (PickVertex { pos: offset_pos(center, (c.0 as int, c.1 as int), s as int), color }),
{
    proof {
        assert(-0x8_0000_0000_0000 <= center.x * s <= 0x8_0000_0000_0000) by (nonlinear_arith)
            requires
                -0x4_0000_0000_0000 <= center.x <= 0x4_0000_0000_0000,
                1 <= s <= 2,
        ;
        assert(-0x8_0000_0000_0000 <= center.y * s <= 0x8_0000_0000_0000) by (nonlinear_arith)
            requires
                -0x4_0000_0000_0000 <= center.y <= 0x4_0000_0000_0000,
                1 <= s <= 2,
        ;
        assert(-0x2_0000_0000 <= c.0 * center.den <= 0x2_0000_0000) by (nonlinear_arith)
            requires
                -2 <= c.0 <= 2,
                1 <= center.den <= 0x1_0000_0000,
        ;
        assert(-0x2_0000_0000 <= c.1 * center.den <= 0x2_0000_0000) by (nonlinear_arith)
            requires
                -2 <= c.1 <= 2,
                1 <= center.den <= 0x1_0000_0000,
        ;
        assert(1 <= center.den * s <= 0x2_0000_0000) by (nonlinear_arith)
            requires
                1 <= center.den <= 0x1_0000_0000,
                1 <= s <= 2,
        ;
    }
    PickVertex {
        pos: ScenePos {
            x: center.x * s + c.0 * center.den,
            y: center.y * s + c.1 * center.den,
            den: center.den * s,
        },
        color,
    }
}

fn hex_corner_of(k: i32) -> (r: (i64, i64))
    ensures
        (r.0 as int, r.1 as int) == hex_corner(k as int),
        -2 <= r.0 <= 2,
        -2 <= r.1 <= 2,
{
    let w = index_to_hex_vertex(k);
    (w.x, w.y)
}

/// Appends the 18 vertices of the fan that draws a hex at `center`.
fn push_hex_fan(v: &mut Vec<PickVertex>, center: ScenePos, s: i64, color: PickColor)
    requires
        drawable(center),
        1 <= s <= 2,
    ensures
        final(v)@ == old(v)@ + hex_fan(center, s as int, color),
{
    let ghost start = v@;
    let mut k: i32 = 0;
    while k < 6
        invariant
            0 <= k <= 6,
            drawable(center),
            1 <= s <= 2,
            v@.len() == start.len() + 3 * k,
            forall|i: int| 0 <= i < start.len() ==> v@[i] == start[i],
            forall|i: int|
                0 <= i < 3 * k ==> v@[start.len() + i] == fan_vertex(center, s as int, color, i),
        decreases 6 - k,
    {
        let a = hex_corner_of(k);
        let b = hex_corner_of(k + 1);
        v.push(offset_vertex(center, a, s, color));
        v.push(offset_vertex(center, b, s, color));
        v.push(offset_vertex(center, (0, 0), s, color));
        proof {
            let base = 3 * k as int;
            assert(base / 3 == k && base % 3 == 0);
            assert((base + 1) / 3 == k && (base + 1) % 3 == 1);
            assert((base + 2) / 3 == k && (base + 2) % 3 == 2);
        }
        k = k + 1;
    }
    assert(v@ =~= start + hex_fan(center, s as int, color));
}

/// The tiles of a map of `map_size` tiles in the order they are visited:
/// row by row, and left to right within a row.
pub fn for_each_tile(map_size: Size2) -> (r: Vec<MapPos>)
    requires
        map_size.w >= 0,
        map_size.h >= 0,
    ensures
        r@.len() == map_size.w * map_size.h,
        forall|n: int| 0 <= n < r@.len() ==> #[trigger] r@[n] == tile_at(map_size.w as int, n),
{
    let mut v: Vec<MapPos> = Vec::new();
    let mut y: i32 = 0;
    while y < map_size.h
        invariant
            0 <= y <= map_size.h,
            map_size.w >= 0,
            v@.len() == y * map_size.w,
            forall|n: int| 0 <= n < v@.len() ==> #[trigger] v@[n] == tile_at(map_size.w as int, n),
        decreases map_size.h - y,
    {
        let mut x: i32 = 0;
        while x < map_size.w
            invariant
                0 <= y < map_size.h,
                0 <= x <= map_size.w,
                v@.len() == y * map_size.w + x,
                forall|n: int|
                    0 <= n < v@.len() ==> #[trigger] v@[n] == tile_at(map_size.w as int, n),
            decreases map_size.w - x,
        {
            proof {
                let w = map_size.w as int;
                let n = y * w + x;
                assert(n % w == x && n / w == y) by (nonlinear_arith)
                    requires
                        n == y * w + x,
                        0 <= x < w,
                        0 <= y,
                ;
            }
            v.push(MapPos { x, y });
            x = x + 1;
        }
        proof {
            assert((y + 1) * map_size.w == y * map_size.w + map_size.w) by (nonlinear_arith);
        }
        y = y + 1;
    }
    assert(map_size.h * map_size.w == map_size.w * map_size.h) by (nonlinear_arith);
    v
}

/// Triangles of every tile of a map of `map_size` tiles, row by row, each
/// tile coloured with its own position.
pub fn get_mesh(map_size: Size2) -> (r: Vec<PickVertex>)
    requires
        map_size.w >= 0,
        map_size.h >= 0,
    ensures
        r@ == tile_mesh(map_size.w as int, (map_size.w * map_size.h) as nat),
{
    let w: i64 = map_size.w as i64;
    proof {
        assert(0 <= w * map_size.h <= 0x7fff_ffff * 0x7fff_ffff) by (nonlinear_arith)
            requires
                0 <= w <= 0x7fff_ffff,
                0 <= map_size.h <= 0x7fff_ffff,
        ;
    }
    let total: i64 = w * (map_size.h as i64);
    let mut v: Vec<PickVertex> = Vec::new();
    let mut n: i64 = 0;
    while n < total
        invariant
            0 <= n <= total,
            w == map_size.w,
            total == map_size.w * map_size.h,
            map_size.w >= 0,
            map_size.h >= 0,
            v@ == tile_mesh(w as int, n as nat),
        decreases total - n,
    {
        proof {
            assert(w > 0) by (nonlinear_arith)
                requires
                    0 <= n < total,
                    total == w * map_size.h,
                    w >= 0,
            ;
            assert(n / w < map_size.h) by (nonlinear_arith)
                requires
                    0 <= n < w * map_size.h,
                    w > 0,
            ;
        }
        let pos = MapPos { x: (n % w) as i32, y: (n / w) as i32 };
        let c = map_pos_to_world_pos(pos);
        let center = ScenePos { x: c.x, y: c.y, den: 1 };
        push_hex_fan(&mut v, center, 1, encode_tile_color(pos));
        n = n + 1;
    }
    v
}

/// Triangles of the units of `nodes`: a hex of half size at each unit's
/// position, coloured with its id; other nodes are left out.
pub fn get_units_mesh(nodes: &Vec<SceneNode>) -> (r: Vec<PickVertex>)
    requires
        forall|i: int| 0 <= i < nodes@.len() ==> drawable(#[trigger] nodes@[i].pos),
    ensures
        r@ == unit_mesh(nodes@),
{
    let mut v: Vec<PickVertex> = Vec::new();
    let mut i: usize = 0;
    while i < nodes.len()
        invariant
            i <= nodes@.len(),
            forall|j: int| 0 <= j < nodes@.len() ==> drawable(#[trigger] nodes@[j].pos),
            v@ == unit_mesh(nodes@.take(i as int)),
        decreases nodes@.len() - i,
    {
        let node = nodes[i];
        proof {
            assert(nodes@.take(i as int + 1).drop_last() =~= nodes@.take(i as int));
        }
        if node.id.id < LAST_UNIT_NODE_ID {
            push_hex_fan(&mut v, node.pos, 2, encode_unit_color(node.id.id));
        } else {
            assert(v@ =~= v@ + Seq::<PickVertex>::empty());
        }
        i = i + 1;
    }
    assert(nodes@.take(nodes@.len() as int) =~= nodes@);
    v
}

/// Whether `p` is `drawable`.
pub fn is_drawable(p: ScenePos) -> (r: bool)
    ensures
        r == drawable(p),
{
    -0x4_0000_0000_0000 <= p.x && p.x <= 0x4_0000_0000_0000 && -0x4_0000_0000_0000 <= p.y && p.y
        <= 0x4_0000_0000_0000 && 1 <= p.den && p.den <= 0x1_0000_0000
}

/// Whether every node of `scene` can be drawn into the unit mesh.
pub fn scene_is_drawable(scene: &Scene) -> (r: bool)
    ensures
        r == forall|i: int| 0 <= i < scene.nodes@.len() ==> drawable(#[trigger] scene.nodes@[i].pos),
{
    let mut i: usize = 0;
    while i < scene.nodes.len()
        invariant
            i <= scene.nodes@.len(),
            forall|j: int| 0 <= j < i ==> drawable(#[trigger] scene.nodes@[j].pos),
        decreases scene.nodes@.len() - i,
    {
        if !is_drawable(scene.nodes[i].pos) {
            return false;
        }
        i = i + 1;
    }
    true
}

/// The picking frame's contents: the static tile mesh, the unit mesh built
/// from the scene, and the size of the window it is drawn into.
#[derive(Debug)]
pub struct TilePicker {
    pub map_mesh: Vec<PickVertex>,
    pub units_mesh: Option<Vec<PickVertex>>,
    pub win_size: Size2,
}

impl TilePicker {
    /// A picker for a map of `map_size` tiles drawn into a window of `win_size`.
    pub fn new(win_size: Size2, map_size: Size2) -> (r: TilePicker)
        requires
            map_size.w >= 0,
            map_size.h >= 0,
        ensures
            r.map_mesh@ == tile_mesh(map_size.w as int, (map_size.w * map_size.h) as nat),
            r.units_mesh is None,
            r.win_size == win_size,
    {
        TilePicker { map_mesh: get_mesh(map_size), units_mesh: None, win_size }
    }

    /// Records a new window size.
    pub fn set_win_size(&mut self, win_size: Size2)
        ensures
            final(self).win_size == win_size,
            final(self).map_mesh == old(self).map_mesh,
            final(self).units_mesh == old(self).units_mesh,
    {
        self.win_size = win_size;
    }

    /// Rebuilds the unit mesh from the scene.
    pub fn update_units(&mut self, scene: &Scene)
        requires
            forall|i: int| 0 <= i < scene.nodes@.len() ==> drawable(#[trigger] scene.nodes@[i].pos),
        ensures
            final(self).units_mesh matches Some(m) && m@ == unit_mesh(scene.nodes@),
            final(self).win_size == old(self).win_size,
            final(self).map_mesh == old(self).map_mesh,
    {
        self.units_mesh = Some(get_units_mesh(&scene.nodes));
    }

    /// The frame-buffer pixel under the mouse: rows of the frame buffer
    /// count from the bottom of the window.
    pub fn pixel_under(&self, mouse_pos: ScreenPos) -> (r: ScreenPos)
        requires
            i32::MIN <= self.win_size.h - mouse_pos.y <= i32::MAX,
        ensures
            r == (ScreenPos { x: mouse_pos.x, y: (self.win_size.h - mouse_pos.y) as i32 }),
    {
        ScreenPos { x: mouse_pos.x, y: self.win_size.h - mouse_pos.y }
    }

    /// What the picking frame shows at a pixel whose colour was read back.
    pub fn pick_tile(&self, pixel: PickColor) -> (r: Result<PickResult, PickError>)
        ensures
            match decoded(pixel) {
                Some(p) => r == Ok::<PickResult, PickError>(p),
                None => r == Err::<PickResult, PickError>(PickError::KindOutOfRange),
            },
    {
        decode_color(pixel)
    }
}

} // verus!
