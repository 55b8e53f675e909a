use vstd::prelude::*;

verus! {

/// Position of a tile on the offset hex grid: column `x`, row `y`.
#[derive(Clone, Copy, Debug, PartialEq, Eq, Structural)]
pub struct MapPos {
    pub x: i32,
    pub y: i32,
}

impl View for MapPos {
    type V = (int, int);

    open spec fn view(&self) -> (int, int) {
        (self.x as int, self.y as int)
    }
}

/// One of the six directions of the hex grid.
#[derive(Clone, Copy, Debug, PartialEq, Eq, Structural)]
pub enum Dir {
    NorthEast,
    East,
    SouthEast,
    SouthWest,
    West,
    NorthWest,
}

/// Failures of the direction algebra.
#[derive(Clone, Copy, Debug, PartialEq, Eq, Structural)]
pub enum DirError {
    /// An integer outside `[0, 6)` was given as a direction.
    OutOfRange,
    /// The two positions are not neighbours.
    InvalidAdjacency,
}

/// Rows with an odd index (in the mathematical sense, so row -1 is odd)
/// use the second offset table; even rows are shifted by half a hex.
pub open spec fn is_odd_row(y: int) -> bool {
    y % 2 == 1
}

pub open spec fn dir_index(d: Dir) -> int {
    match d {
        Dir::NorthEast => 0,
        Dir::East => 1,
        Dir::SouthEast => 2,
        Dir::SouthWest => 3,
        Dir::West => 4,
        Dir::NorthWest => 5,
    }
}

/// The direction with a given index, if the index is in `[0, 6)`.
pub open spec fn dir_from_index(n: int) -> Option<Dir> {
    if n == 0 {
        Some(Dir::NorthEast)
    } else if n == 1 {
        Some(Dir::East)
    } else if n == 2 {
        Some(Dir::SouthEast)
    } else if n == 3 {
        Some(Dir::SouthWest)
    } else if n == 4 {
        Some(Dir::West)
    } else if n == 5 {
        Some(Dir::NorthWest)
    } else {
        None
    }
}

/// Offset from a tile to its neighbour in direction `d`, for the row parity `odd`.
pub open spec fn pos_diff(odd: bool, d: Dir) -> (int, int) {
    if !odd {
        match d {
            Dir::NorthEast => (1, -1),
            Dir::East => (1, 0),
            Dir::SouthEast => (1, 1),
            Dir::SouthWest => (0, 1),
            Dir::West => (-1, 0),
            Dir::NorthWest => (0, -1),
        }
    } else {
        match d {
            Dir::NorthEast => (0, -1),
            Dir::East => (1, 0),
            Dir::SouthEast => (0, 1),
            Dir::SouthWest => (-1, 1),
            Dir::West => (-1, 0),
            Dir::NorthWest => (-1, -1),
        }
    }
}

/// The neighbour of `p` in direction `d`.
pub open spec fn neighbour(p: (int, int), d: Dir) -> (int, int) {
    let diff = pos_diff(is_odd_row(p.1), d);
    (p.0 + diff.0, p.1 + diff.1)
}

/// The direction in which `to` lies from `from`, if `to` is a neighbour of `from`.
pub open spec fn dir_between(from: (int, int), to: (int, int)) -> Option<Dir> {
    if neighbour(from, Dir::NorthEast) == to {
        Some(Dir::NorthEast)
    } else if neighbour(from, Dir::East) == to {
        Some(Dir::East)
    } else if neighbour(from, Dir::SouthEast) == to {
        Some(Dir::SouthEast)
    } else if neighbour(from, Dir::SouthWest) == to {
        Some(Dir::SouthWest)
    } else if neighbour(from, Dir::West) == to {
        Some(Dir::West)
    } else if neighbour(from, Dir::NorthWest) == to {
        Some(Dir::NorthWest)
    } else {
        None
    }
}

/// Whether the neighbours of `p` all fit in a `MapPos`.
pub open spec fn neighbours_fit(p: MapPos) -> bool {
    i32::MIN < p.x < i32::MAX && i32::MIN < p.y < i32::MAX
}

fn row_is_odd(y: i32) -> (r: bool)
    ensures
        r == is_odd_row(y as int),
{
    y % 2 != 0
}

fn offset(odd: bool, d: Dir) -> (r: (i32, i32))
    ensures
        (r.0 as int, r.1 as int) == pos_diff(odd, d),
{
    if !odd {
        match d {
            Dir::NorthEast => (1, -1),
            Dir::East => (1, 0),
            Dir::SouthEast => (1, 1),
            Dir::SouthWest => (0, 1),
            Dir::West => (-1, 0),
            Dir::NorthWest => (0, -1),
        }
    } else {
        match d {
            Dir::NorthEast => (0, -1),
            Dir::East => (1, 0),
            Dir::SouthEast => (0, 1),
            Dir::SouthWest => (-1, 1),
            Dir::West => (-1, 0),
            Dir::NorthWest => (-1, -1),
        }
    }
}

impl Dir {
    /// The direction with index `n`; an index outside `[0, 6)` is refused.
    pub fn from_int(n: i32) -> (r: Result<Dir, DirError>)
        ensures
            match dir_from_index(n as int) {
                Some(d) => r == Ok::<Dir, DirError>(d),
                None => r == Err::<Dir, DirError>(DirError::OutOfRange),
            },
    {
        if n == 0 {
            Ok(Dir::NorthEast)
        } else if n == 1 {
            Ok(Dir::East)
        } else if n == 2 {
            Ok(Dir::SouthEast)
        } else if n == 3 {
            Ok(Dir::SouthWest)
        } else if n == 4 {
            Ok(Dir::West)
        } else if n == 5 {
            Ok(Dir::NorthWest)
        } else {
            Err(DirError::OutOfRange)
        }
    }

    /// The index of this direction, in `[0, 6)`.
    pub fn to_int(&self) -> (r: i32)
        ensures
            r as int == dir_index(*self),
    {
        match *self {
            Dir::NorthEast => 0,
            Dir::East => 1,
            Dir::SouthEast => 2,
            Dir::SouthWest => 3,
            Dir::West => 4,
            Dir::NorthWest => 5,
        }
    }

    /// The direction from `from` to its neighbour `to`; positions that are
    /// not neighbours are refused.
    pub fn get_dir_from_to(from: MapPos, to: MapPos) -> (r: Result<Dir, DirError>)
        ensures
            match dir_between(from@, to@) {
                Some(d) => r == Ok::<Dir, DirError>(d),
                None => r == Err::<Dir, DirError>(DirError::InvalidAdjacency),
            },
    {
        let odd = row_is_odd(from.y);
        let dx: i64 = to.x as i64 - from.x as i64;
        let dy: i64 = to.y as i64 - from.y as i64;
        let mut i: i32 = 0;
        while i < 6
            invariant
                0 <= i <= 6,
                odd == is_odd_row(from.y as int),
                dx == to.x - from.x,
                dy == to.y - from.y,
                forall|j: int|
                    0 <= j < i ==> #[trigger] neighbour(from@, dir_from_index(j).unwrap()) != to@,
            decreases 6 - i,
        {
            let d = match Dir::from_int(i) {
                Ok(d) => d,
                Err(_) => Dir::NorthEast,
            };
            let diff = offset(odd, d);
            if diff.0 as i64 == dx && diff.1 as i64 == dy {
                return Ok(d);
            }
            i = i + 1;
        }
        assert(dir_from_index(0).unwrap() == Dir::NorthEast);
        assert(dir_from_index(1).unwrap() == Dir::East);
        assert(dir_from_index(2).unwrap() == Dir::SouthEast);
        assert(dir_from_index(3).unwrap() == Dir::SouthWest);
        assert(dir_from_index(4).unwrap() == Dir::West);
        assert(dir_from_index(5).unwrap() == Dir::NorthWest);
        Err(DirError::InvalidAdjacency)
    }

    /// The neighbour of `pos` in direction `dir`.
    pub fn get_neighbour_pos(pos: MapPos, dir: Dir) -> (r: MapPos)
        requires
            neighbours_fit(pos),
        ensures
            r@ == neighbour(pos@, dir),
    {
        let diff = offset(row_is_odd(pos.y), dir);
        MapPos { x: pos.x + diff.0, y: pos.y + diff.1 }
    }
}

/// Index and direction convert into each other: every index in `[0, 6)`
/// names a direction whose index it is, no other integer names one, and
/// every direction's index names it again.
pub proof fn lemma_dir_index_round_trip(n: int, d: Dir)
    ensures
        0 <= n < 6 ==> dir_from_index(n) is Some && dir_index(dir_from_index(n).unwrap()) == n,
        !(0 <= n < 6) ==> dir_from_index(n) is None,
        dir_from_index(dir_index(d)) == Some(d),
        0 <= dir_index(d) < 6,
{
}

/// The six neighbours of a tile are pairwise distinct.
pub proof fn lemma_neighbours_distinct(p: (int, int), d1: Dir, d2: Dir)
    requires
        d1 != d2,
    ensures
        neighbour(p, d1) != neighbour(p, d2),
{
}

/// Walking from a tile in one direction and asking for the direction back
/// to the neighbour gives that direction.
pub proof fn lemma_dir_between_neighbour(p: (int, int), d: Dir)
    ensures
        dir_between(p, neighbour(p, d)) == Some(d),
{
    if d != Dir::NorthEast {
        lemma_neighbours_distinct(p, d, Dir::NorthEast);
    }
    if d != Dir::East {
        lemma_neighbours_distinct(p, d, Dir::East);
    }
    if d != Dir::SouthEast {
        lemma_neighbours_distinct(p, d, Dir::SouthEast);
    }
    if d != Dir::SouthWest {
        lemma_neighbours_distinct(p, d, Dir::SouthWest);
    }
    if d != Dir::West {
        lemma_neighbours_distinct(p, d, Dir::West);
    }
}

} // verus!
