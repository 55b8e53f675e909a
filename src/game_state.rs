use vstd::prelude::*;
use crate::dir::MapPos;

verus! {

/// Identity of a unit, assigned by the game logic.
#[derive(Clone, Copy, Debug, PartialEq, Eq, Structural)]
pub struct UnitId {
    pub id: i32,
}

/// The authoritative record of a unit.
#[derive(Clone, Copy, Debug, PartialEq, Eq, Structural)]
pub struct Unit {
    pub id: UnitId,
    pub pos: MapPos,
}

/// The authoritative game state, as far as the visual front end touches it.
#[derive(Debug)]
pub struct GameState {
    pub units: Vec<Unit>,
}

pub open spec fn unit_ids_unique(units: Seq<Unit>) -> bool {
    forall|i: int, j: int| 0 <= i < j < units.len() ==> units[i].id != units[j].id
}

pub open spec fn has_unit(units: Seq<Unit>, id: UnitId) -> bool {
    exists|i: int| 0 <= i < units.len() && units[i].id == id
}

/// Where the unit `id` stands, if the state holds it.
pub open spec fn unit_pos(units: Seq<Unit>, id: UnitId) -> Option<MapPos> {
    if has_unit(units, id) {
        Some(units[choose|i: int| 0 <= i < units.len() && units[i].id == id].pos)
    } else {
        None
    }
}

proof fn lemma_unit_pos_at(units: Seq<Unit>, i: int)
    requires
        unit_ids_unique(units),
        0 <= i < units.len(),
    ensures
        unit_pos(units, units[i].id) == Some(units[i].pos),
{
    let id = units[i].id;
    assert(has_unit(units, id));
    let j = choose|j: int| 0 <= j < units.len() && units[j].id == id;
    assert(j == i) by {
        if j < i {
            assert(units[j].id != units[i].id);
        } else if i < j {
            assert(units[i].id != units[j].id);
        }
    }
}

proof fn lemma_unit_pos_update(units: Seq<Unit>, i: int, pos: MapPos, k: UnitId)
    requires
        unit_ids_unique(units),
        0 <= i < units.len(),
    ensures
        unit_ids_unique(units.update(i, Unit { id: units[i].id, pos })),
        unit_pos(units.update(i, Unit { id: units[i].id, pos }), k) == if k == units[i].id {
            Some(pos)
        } else {
            unit_pos(units, k)
        },
{
    let u2 = units.update(i, Unit { id: units[i].id, pos });
    assert(unit_ids_unique(u2));
    if k == units[i].id {
        lemma_unit_pos_at(u2, i);
    } else if has_unit(units, k) {
        let j = choose|j: int| 0 <= j < units.len() && units[j].id == k;
        lemma_unit_pos_at(units, j);
        lemma_unit_pos_at(u2, j);
    } else {
        assert(!has_unit(u2, k)) by {
            if has_unit(u2, k) {
                let j = choose|j: int| 0 <= j < u2.len() && u2[j].id == k;
                assert(units[j].id == k);
            }
        }
    }
}

proof fn lemma_unit_pos_push(units: Seq<Unit>, unit: Unit, k: UnitId)
    requires
        unit_ids_unique(units),
        !has_unit(units, unit.id),
    ensures
        unit_ids_unique(units.push(unit)),
        unit_pos(units.push(unit), k) == if k == unit.id {
            Some(unit.pos)
        } else {
            unit_pos(units, k)
        },
{
    let u2 = units.push(unit);
    assert(unit_ids_unique(u2)) by {
        assert forall|i: int, j: int| 0 <= i < j < u2.len() implies u2[i].id != u2[j].id by {
            if j == units.len() {
                assert(u2[i] == units[i]);
            }
        }
    }
    if k == unit.id {
        lemma_unit_pos_at(u2, units.len() as int);
    } else if has_unit(units, k) {
        let j = choose|j: int| 0 <= j < units.len() && units[j].id == k;
        lemma_unit_pos_at(units, j);
        lemma_unit_pos_at(u2, j);
    } else {
        assert(!has_unit(u2, k)) by {
            if has_unit(u2, k) {
                let j = choose|j: int| 0 <= j < u2.len() && u2[j].id == k;
                assert(units[j].id == k);
            }
        }
    }
}

impl GameState {
    /// No two units share an id.
    pub open spec fn wf(&self) -> bool {
        unit_ids_unique(self.units@)
    }

    /// Where the unit `id` stands, if the state holds it.
    pub open spec fn pos_of(&self, id: UnitId) -> Option<MapPos> {
        unit_pos(self.units@, id)
    }

    /// A state without units.
    pub fn new() -> (r: GameState)
        ensures
            r.wf(),
            r.units@.len() == 0,
            forall|k: UnitId| r.pos_of(k) is None,
    {
        GameState { units: Vec::new() }
    }

    fn find(&self, id: UnitId) -> (r: Option<usize>)
        ensures
            match r {
                Some(i) => i < self.units@.len() && self.units@[i as int].id == id,
                None => !has_unit(self.units@, id),
            },
    {
        let mut i: usize = 0;
        while i < self.units.len()
            invariant
                i <= self.units@.len(),
                forall|j: int| 0 <= j < i ==> self.units@[j].id != id,
            decreases self.units@.len() - i,
        {
            if self.units[i].id == id {
                return Some(i);
            }
            i = i + 1;
        }
        None
    }

    /// Where the unit `id` stands, if the state holds it.
    pub fn unit_pos(&self, id: UnitId) -> (r: Option<MapPos>)
        requires
            self.wf(),
        ensures
            r == self.pos_of(id),
    {
        match self.find(id) {
            Some(i) => {
                proof {
                    lemma_unit_pos_at(self.units@, i as int);
                }
                Some(self.units[i].pos)
            },
            None => None,
        }
    }

    /// Moves the unit `id` to `pos`; returns whether the state holds it.
    /// A state without that unit is left as it was.
    pub fn set_unit_pos(&mut self, id: UnitId, pos: MapPos) -> (r: bool)
        requires
            old(self).wf(),
        ensures
            final(self).wf(),
            r == (old(self).pos_of(id) is Some),
            !r ==> *final(self) == *old(self),
            final(self).units@.len() == old(self).units@.len(),
            forall|k: UnitId|
                #[trigger] final(self).pos_of(k) == if k == id && r {
                    Some(pos)
                } else {
                    old(self).pos_of(k)
                },
    {
        match self.find(id) {
            Some(i) => {
                let ghost before = self.units@;
                self.units.set(i, Unit { id, pos });
                proof {
                    assert forall|k: UnitId| #[trigger] unit_pos(self.units@, k) == if k == id {
                        Some(pos)
                    } else {
                        unit_pos(before, k)
                    } by {
                        lemma_unit_pos_update(before, i as int, pos, k);
                    }
                    lemma_unit_pos_update(before, i as int, pos, id);
                }
                true
            },
            None => false,
        }
    }

    /// Appends the record of a unit whose id the state does not hold yet.
    pub fn add_unit(&mut self, unit: Unit)
        requires
            old(self).wf(),
            old(self).pos_of(unit.id) is None,
        ensures
            final(self).wf(),
            final(self).units@ == old(self).units@.push(unit),
            forall|k: UnitId|
                #[trigger] final(self).pos_of(k) == if k == unit.id {
                    Some(unit.pos)
                } else {
                    old(self).pos_of(k)
                },
    {
        let ghost before = self.units@;
        self.units.push(unit);
        proof {
            assert forall|k: UnitId| #[trigger] unit_pos(self.units@, k) == if k == unit.id {
                Some(unit.pos)
            } else {
                unit_pos(before, k)
            } by {
                lemma_unit_pos_push(before, unit, k);
            }
            lemma_unit_pos_push(before, unit, unit.id);
        }
    }
}

} // verus!
