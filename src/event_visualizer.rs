use vstd::prelude::*;
use crate::dir::MapPos;
use crate::game_state::{GameState, Unit, UnitId};
use crate::geom::{WorldPos, map_pos_to_world_pos, world_of};
use crate::scene::{NodeId, Scene, ScenePos};

verus! {

/// Frames spent on each segment of a move unless another budget is given.
pub const MOVE_SPEED: u16 = 40;

/// Why an event could not be committed.
#[derive(Clone, Copy, Debug, PartialEq, Eq, Structural)]
pub enum EventError {
    /// The unit to move is missing from the game state or from the scene.
    UnknownUnit,
    /// A unit with the id to create already exists.
    DuplicateUnitId,
}

/// The scene node that draws unit `u`.
pub open spec fn node_of(u: UnitId) -> NodeId {
    NodeId { id: u.id }
}

/// The point `t / f` of the way from `a` to `b`.
pub open spec fn lerp(a: (int, int), b: (int, int), t: int, f: int) -> ScenePos {
    ScenePos {
        x: (a.0 * (f - t) + b.0 * t) as i64,
        y: (a.1 * (f - t) + b.1 * t) as i64,
        den: f as i64,
    }
}

/// The exact scene position of the centre of tile `p`.
pub open spec fn tile_pos(p: MapPos) -> ScenePos {
    ScenePos { x: world_of(p@).0 as i64, y: world_of(p@).1 as i64, den: 1 }
}

proof fn lemma_world_bounds(p: MapPos)
    ensures
        -0x2_0000_0000 <= world_of(p@).0 <= 0x2_0000_0000,
        -0x2_0000_0000 <= world_of(p@).1 <= 0x2_0000_0000,
{
}

fn exact_tile_pos(p: MapPos) -> (r: ScenePos)
    ensures
        r == tile_pos(p),
{
    let w = map_pos_to_world_pos(p);
    ScenePos { x: w.x, y: w.y, den: 1 }
}

fn interpolate(a: WorldPos, b: WorldPos, t: u64, f: u64) -> (r: ScenePos)
    requires
        -0x2_0000_0000 <= a.x <= 0x2_0000_0000,
        -0x2_0000_0000 <= a.y <= 0x2_0000_0000,
        -0x2_0000_0000 <= b.x <= 0x2_0000_0000,
        -0x2_0000_0000 <= b.y <= 0x2_0000_0000,
        t < f <= 0xffff,
    ensures
        r == lerp(a@, b@, t as int, f as int),
{
    let u: i64 = (f - t) as i64;
    let v: i64 = t as i64;
    proof {
        assert(-0x2_0000_0000 * 0xffff <= a.x * u <= 0x2_0000_0000 * 0xffff) by (nonlinear_arith)
            requires
                -0x2_0000_0000 <= a.x <= 0x2_0000_0000,
                0 <= u <= 0xffff,
        ;
        assert(-0x2_0000_0000 * 0xffff <= a.y * u <= 0x2_0000_0000 * 0xffff) by (nonlinear_arith)
            requires
                -0x2_0000_0000 <= a.y <= 0x2_0000_0000,
                0 <= u <= 0xffff,
        ;
        assert(-0x2_0000_0000 * 0xffff <= b.x * v <= 0x2_0000_0000 * 0xffff) by (nonlinear_arith)
            requires
                -0x2_0000_0000 <= b.x <= 0x2_0000_0000,
                0 <= v <= 0xffff,
        ;
        assert(-0x2_0000_0000 * 0xffff <= b.y * v <= 0x2_0000_0000 * 0xffff) by (nonlinear_arith)
            requires
                -0x2_0000_0000 <= b.y <= 0x2_0000_0000,
                0 <= v <= 0xffff,
        ;
    }
    ScenePos { x: a.x * u + b.x * v, y: a.y * u + b.y * v, den: f as i64 }
}

/// Moves a unit along a path of neighbouring tiles, one segment per
/// `frames_per_segment` frames.
#[derive(Debug)]
pub struct EventMoveVisualizer {
    pub unit_id: UnitId,
    pub path: Vec<MapPos>,
    pub current_move_index: u64,
    pub frames_per_segment: u16,
}

/// Marks the end of a turn; it animates nothing and changes nothing.
#[derive(Clone, Copy, Debug, PartialEq, Eq, Structural)]
pub struct EventEndTurnVisualizer;

/// Brings a new unit into the scene and the game state.
#[derive(Clone, Copy, Debug, PartialEq, Eq, Structural)]
pub struct EventCreateUnitVisualizer {
    pub id: UnitId,
    pub pos: MapPos,
}

/// A queued piece of visual work that ends in one commit.
#[derive(Debug)]
pub enum EventVisualizer {
    Move(EventMoveVisualizer),
    EndTurn(EventEndTurnVisualizer),
    CreateUnit(EventCreateUnitVisualizer),
}

impl EventMoveVisualizer {
    /// Number of frames the whole move takes.
    pub open spec fn frames_total(&self) -> int {
        (self.path@.len() - 1) * self.frames_per_segment
    }

    pub open spec fn wf(&self) -> bool {
        &&& self.path@.len() >= 1
        &&& self.frames_per_segment >= 1
        &&& self.frames_total() <= u64::MAX
        &&& self.current_move_index <= self.frames_total()
    }

    pub open spec fn finished(&self) -> bool {
        self.current_move_index == self.frames_total()
    }

    /// Where the unit is drawn on the current frame: on the segment
    /// `k / f`, at `k % f` frames of `f` from its start.
    pub open spec fn position(&self) -> ScenePos {
        let f = self.frames_per_segment as int;
        let k = self.current_move_index as int;
        lerp(world_of(self.path@[k / f]@), world_of(self.path@[k / f + 1]@), k % f, f)
    }

    /// The last waypoint.
    pub open spec fn destination(&self) -> MapPos {
        self.path@.last()
    }

    /// A move of unit `unit_id` along `path` at the default speed.
    pub fn new(unit_id: UnitId, path: Vec<MapPos>) -> (r: EventVisualizer)
        requires
            path@.len() >= 1,
            (path@.len() - 1) * MOVE_SPEED <= u64::MAX,
        ensures
            r.wf(),
            r matches EventVisualizer::Move(m) && m.unit_id == unit_id && m.path@ == path@
                && m.current_move_index == 0 && m.frames_per_segment == MOVE_SPEED,
    {
        EventMoveVisualizer::with_frames_per_segment(unit_id, path, MOVE_SPEED)
    }

    /// A move of unit `unit_id` along `path`, `frames_per_segment` frames per segment.
    pub fn with_frames_per_segment(unit_id: UnitId, path: Vec<MapPos>, frames_per_segment: u16) -> (r:
        EventVisualizer)
        requires
            path@.len() >= 1,
            frames_per_segment >= 1,
            (path@.len() - 1) * frames_per_segment <= u64::MAX,
        ensures
            r.wf(),
            r matches EventVisualizer::Move(m) && m.unit_id == unit_id && m.path@ == path@
                && m.current_move_index == 0 && m.frames_per_segment == frames_per_segment,
    {
        let m = EventMoveVisualizer { unit_id, path, current_move_index: 0, frames_per_segment };
        proof {
            assert(0 <= m.frames_total()) by (nonlinear_arith)
                requires
                    m.path@.len() >= 1,
                    m.frames_per_segment >= 1,
                    m.frames_total() == (m.path@.len() - 1) * m.frames_per_segment,
            ;
        }
        EventVisualizer::Move(m)
    }

    /// Number of frames the whole move takes.
    pub fn frames_count(&self) -> (r: u64)
        requires
            self.wf(),
        ensures
            r == self.frames_total(),
    {
        (self.path.len() as u64 - 1) * (self.frames_per_segment as u64)
    }

    /// Whether every frame of the move has been drawn.
    pub fn is_finished(&self) -> (r: bool)
        requires
            self.wf(),
        ensures
            r == self.finished(),
    {
        self.current_move_index == self.frames_count()
    }

    /// Where the unit is drawn on the current frame.
    pub fn current_position(&self) -> (r: ScenePos)
        requires
            self.wf(),
            !self.finished(),
        ensures
            r == self.position(),
    {
        let f: u64 = self.frames_per_segment as u64;
        let k: u64 = self.current_move_index;
        let s: u64 = k / f;
        let t: u64 = k % f;
        let len: usize = self.path.len();
        proof {
            let n = self.path@.len() - 1;
            assert(k < n * f);
            assert(s < n) by (nonlinear_arith)
                requires
                    0 <= k < n * f,
                    f >= 1,
                    s == k / f,
            ;
            assert(s + 1 < self.path@.len());
            lemma_world_bounds(self.path@[s as int]);
            lemma_world_bounds(self.path@[s as int + 1]);
        }
        let i: usize = s as usize;
        assert(i as int == s as int);
        let a = map_pos_to_world_pos(self.path[i]);
        let b = map_pos_to_world_pos(self.path[i + 1]);
        interpolate(a, b, t, f)
    }

    /// Draws the unit at its position for the current frame and moves on
    /// to the next frame.  A scene without the unit's node is left as it was.
    pub fn draw(&mut self, scene: &mut Scene)
        requires
            old(self).wf(),
            !old(self).finished(),
            old(scene).wf(),
        ensures
            final(self).wf(),
            final(self).unit_id == old(self).unit_id,
            final(self).path == old(self).path,
            final(self).frames_per_segment == old(self).frames_per_segment,
            final(self).current_move_index == old(self).current_move_index + 1,
            final(scene).wf(),
            forall|k: NodeId|
                #[trigger] final(scene).pos_of(k) == if k == node_of(old(self).unit_id)
                    && old(scene).pos_of(k) is Some {
                    Some(old(self).position())
                } else {
                    old(scene).pos_of(k)
                },
    {
        let pos = self.current_position();
        scene.set_pos(NodeId { id: self.unit_id.id }, pos);
        self.current_move_index = self.current_move_index + 1;
    }

    /// Puts the unit exactly on the last waypoint, in the scene and in the
    /// game state.  Fails, changing nothing, where either lacks the unit.
    pub fn end(&self, scene: &mut Scene, game_state: &mut GameState) -> (r: Result<(), EventError>)
        requires
            self.wf(),
            old(scene).wf(),
            old(game_state).wf(),
        ensures
            final(scene).wf(),
            final(game_state).wf(),
            r is Ok == (old(scene).pos_of(node_of(self.unit_id)) is Some && old(game_state).pos_of(
                self.unit_id,
            ) is Some),
            r is Err ==> r == Err::<(), EventError>(EventError::UnknownUnit) && *final(scene)
                == *old(scene) && *final(game_state) == *old(game_state),
            r is Ok ==> final(game_state).units@.len() == old(game_state).units@.len(),
            r is Ok ==> forall|k: NodeId|
                #[trigger] final(scene).pos_of(k) == if k == node_of(self.unit_id) {
                    Some(tile_pos(self.destination()))
                } else {
                    old(scene).pos_of(k)
                },
            r is Ok ==> forall|u: UnitId|
                #[trigger] final(game_state).pos_of(u) == if u == self.unit_id {
                    Some(self.destination())
                } else {
                    old(game_state).pos_of(u)
                },
    {
        let node = NodeId { id: self.unit_id.id };
        match scene.get(node) {
            None => {
                return Err(EventError::UnknownUnit);
            },
            Some(_) => {},
        }
        match game_state.unit_pos(self.unit_id) {
            None => {
                return Err(EventError::UnknownUnit);
            },
            Some(_) => {},
        }
        let last = self.path[self.path.len() - 1];
        let pos = exact_tile_pos(last);
        scene.set_pos(node, pos);
        game_state.set_unit_pos(self.unit_id, last);
        Ok(())
    }
}

impl EventEndTurnVisualizer {
    /// The end of the current turn.
    pub fn new() -> (r: EventVisualizer)
        ensures
            r.wf(),
            r matches EventVisualizer::EndTurn(_),
    {
        EventVisualizer::EndTurn(EventEndTurnVisualizer)
    }
}

impl EventCreateUnitVisualizer {
    /// The creation of unit `id` on tile `pos`.
    pub fn new(id: UnitId, pos: MapPos) -> (r: EventVisualizer)
        ensures
            r.wf(),
            r == EventVisualizer::CreateUnit(EventCreateUnitVisualizer { id, pos }),
    {
        EventVisualizer::CreateUnit(EventCreateUnitVisualizer { id, pos })
    }

    /// Adds the unit's node at the centre of its tile and appends its record
    /// to the game state.  Fails, changing nothing, where the game state
    /// already holds a unit with that id.
    pub fn end(&self, scene: &mut Scene, game_state: &mut GameState) -> (r: Result<(), EventError>)
        requires
            old(scene).wf(),
            old(game_state).wf(),
        ensures
            final(scene).wf(),
            final(game_state).wf(),
            r is Ok == (old(game_state).pos_of(self.id) is None),
            r is Err ==> r == Err::<(), EventError>(EventError::DuplicateUnitId) && *final(scene)
                == *old(scene) && *final(game_state) == *old(game_state),
            r is Ok ==> final(game_state).units@ == old(game_state).units@.push(
                Unit { id: self.id, pos: self.pos },
            ),
            r is Ok ==> forall|k: NodeId|
                #[trigger] final(scene).pos_of(k) == if k == node_of(self.id) {
                    Some(tile_pos(self.pos))
                } else {
                    old(scene).pos_of(k)
                },
            r is Ok ==> forall|u: UnitId|
                #[trigger] final(game_state).pos_of(u) == if u == self.id {
                    Some(self.pos)
                } else {
                    old(game_state).pos_of(u)
                },
    {
        match game_state.unit_pos(self.id) {
            Some(_) => {
                return Err(EventError::DuplicateUnitId);
            },
            None => {},
        }
        let pos = exact_tile_pos(self.pos);
        scene.insert(NodeId { id: self.id.id }, pos);
        game_state.add_unit(Unit { id: self.id, pos: self.pos });
        Ok(())
    }
}

impl EventVisualizer {
    pub open spec fn wf(&self) -> bool {
        match self {
            EventVisualizer::Move(m) => m.wf(),
            _ => true,
        }
    }

    /// Whether the event has nothing left to animate.
    pub open spec fn finished(&self) -> bool {
        match self {
            EventVisualizer::Move(m) => m.finished(),
            _ => true,
        }
    }

    /// The event after one more frame; a finished event stays as it is.
    pub open spec fn advanced(self) -> EventVisualizer {
        match self {
            EventVisualizer::Move(m) => if m.finished() {
                self
            } else {
                EventVisualizer::Move(
                    EventMoveVisualizer {
                        unit_id: m.unit_id,
                        path: m.path,
                        current_move_index: (m.current_move_index + 1) as u64,
                        frames_per_segment: m.frames_per_segment,
                    },
                )
            },
            _ => self,
        }
    }

    /// Where node `k` is drawn after one frame of this event.
    pub open spec fn drawn_pos(&self, scene: Scene, k: NodeId) -> Option<ScenePos> {
        match self {
            EventVisualizer::Move(m) => if !m.finished() && k == node_of(m.unit_id) && scene.pos_of(
                k,
            ) is Some {
                Some(m.position())
            } else {
                scene.pos_of(k)
            },
            _ => scene.pos_of(k),
        }
    }

    /// Whether the commit of this event succeeds on the given scene and state.
    pub open spec fn commit_ok(&self, scene: Scene, game_state: GameState) -> bool {
        match self {
            EventVisualizer::Move(m) => scene.pos_of(node_of(m.unit_id)) is Some
                && game_state.pos_of(m.unit_id) is Some,
            EventVisualizer::EndTurn(_) => true,
            EventVisualizer::CreateUnit(c) => game_state.pos_of(c.id) is None,
        }
    }

    /// The error of a failed commit.
    pub open spec fn commit_error(&self) -> EventError {
        match self {
            EventVisualizer::CreateUnit(_) => EventError::DuplicateUnitId,
            _ => EventError::UnknownUnit,
        }
    }

    /// Where node `k` is drawn after a successful commit.
    pub open spec fn committed_node_pos(&self, scene: Scene, k: NodeId) -> Option<ScenePos> {
        match self {
            EventVisualizer::Move(m) => if k == node_of(m.unit_id) {
                Some(tile_pos(m.destination()))
            } else {
                scene.pos_of(k)
            },
            EventVisualizer::EndTurn(_) => scene.pos_of(k),
            EventVisualizer::CreateUnit(c) => if k == node_of(c.id) {
                Some(tile_pos(c.pos))
            } else {
                scene.pos_of(k)
            },
        }
    }

    /// Where unit `u` stands after a successful commit.
    pub open spec fn committed_unit_pos(&self, game_state: GameState, u: UnitId) -> Option<MapPos> {
        match self {
            EventVisualizer::Move(m) => if u == m.unit_id {
                Some(m.destination())
            } else {
                game_state.pos_of(u)
            },
            EventVisualizer::EndTurn(_) => game_state.pos_of(u),
            EventVisualizer::CreateUnit(c) => if u == c.id {
                Some(c.pos)
            } else {
                game_state.pos_of(u)
            },
        }
    }

    /// The unit records after a successful commit, where the commit adds one.
    pub open spec fn committed_units(&self, units: Seq<Unit>) -> Seq<Unit> {
        match self {
            EventVisualizer::CreateUnit(c) => units.push(Unit { id: c.id, pos: c.pos }),
            _ => units,
        }
    }

    /// Whether the event has nothing left to animate.
    pub fn is_finished(&self) -> (r: bool)
        requires
            self.wf(),
        ensures
            r == self.finished(),
    {
        match self {
            EventVisualizer::Move(m) => m.is_finished(),
            _ => true,
        }
    }

    /// Draws one frame of the event.  A finished event, and an event with
    /// nothing to animate, change nothing.
    pub fn draw(&mut self, scene: &mut Scene)
        requires
            old(self).wf(),
            old(scene).wf(),
        ensures
            final(self).wf(),
            *final(self) == old(self).advanced(),
            final(scene).wf(),
            forall|k: NodeId| #[trigger] final(scene).pos_of(k) == old(self).drawn_pos(*old(scene), k),
    {
        match self {
            EventVisualizer::Move(m) => {
                if !m.is_finished() {
                    m.draw(scene);
                }
            },
            _ => {},
        }
    }

    /// Commits the event to the scene and the game state.
    pub fn end(&self, scene: &mut Scene, game_state: &mut GameState) -> (r: Result<(), EventError>)
        requires
            self.wf(),
            old(scene).wf(),
            old(game_state).wf(),
        ensures
            final(scene).wf(),
            final(game_state).wf(),
            r is Ok == self.commit_ok(*old(scene), *old(game_state)),
            r is Err ==> r == Err::<(), EventError>(self.commit_error()) && *final(scene)
                == *old(scene) && *final(game_state) == *old(game_state),
            r is Ok ==> forall|k: NodeId|
                #[trigger] final(scene).pos_of(k) == self.committed_node_pos(*old(scene), k),
            r is Ok ==> forall|u: UnitId|
                #[trigger] final(game_state).pos_of(u) == self.committed_unit_pos(
                    *old(game_state),
                    u,
                ),
            r is Ok && !(self is Move) ==> final(game_state).units@ == self.committed_units(
                old(game_state).units@,
            ),
            r is Ok ==> final(game_state).units@.len() == self.committed_units(
                old(game_state).units@,
            ).len(),
    {
        match self {
            EventVisualizer::Move(m) => m.end(scene, game_state),
            EventVisualizer::EndTurn(_) => Ok(()),
            EventVisualizer::CreateUnit(c) => c.end(scene, game_state),
        }
    }
}

/// One step of the queue: the head event draws a frame while it is not
/// finished; once finished it is committed and leaves the queue.
pub open spec fn queue_step(q: Seq<EventVisualizer>) -> Seq<EventVisualizer> {
    if q.len() == 0 {
        q
    } else if q[0].finished() {
        q.drop_first()
    } else {
        q.update(0, q[0].advanced())
    }
}

/// Events waiting to be shown, first in first out.
#[derive(Debug)]
pub struct EventQueue {
    pub events: Vec<EventVisualizer>,
}

impl EventQueue {
    pub open spec fn wf(&self) -> bool {
        forall|i: int| 0 <= i < self.events@.len() ==> (#[trigger] self.events@[i]).wf()
    }

    /// An empty queue.
    pub fn new() -> (r: EventQueue)
        ensures
            r.wf(),
            r.events@.len() == 0,
    {
        EventQueue { events: Vec::new() }
    }

    /// Puts `event` at the back of the queue.
    pub fn push(&mut self, event: EventVisualizer)
        requires
            old(self).wf(),
            event.wf(),
        ensures
            final(self).wf(),
            final(self).events@ == old(self).events@.push(event),
    {
        self.events.push(event);
    }

    /// Whether no event is waiting.
    pub fn is_empty(&self) -> (r: bool)
        ensures
            r == (self.events@.len() == 0),
    {
        self.events.len() == 0
    }

    /// Runs one frame: the head event draws a frame if it is not finished,
    /// and is otherwise committed and removed.  Only the head is touched.
    pub fn tick(&mut self, scene: &mut Scene, game_state: &mut GameState) -> (r: Result<
        (),
        EventError,
    >)
        requires
            old(self).wf(),
            old(scene).wf(),
            old(game_state).wf(),
        ensures
            final(self).wf(),
            final(self).events@ == queue_step(old(self).events@),
            final(scene).wf(),
            final(game_state).wf(),
            old(self).events@.len() == 0 ==> r is Ok && *final(scene) == *old(scene)
                && *final(game_state) == *old(game_state),
            old(self).events@.len() > 0 && !old(self).events@[0].finished() ==> {
                &&& r is Ok
                &&& *final(game_state) == *old(game_state)
                &&& forall|k: NodeId|
                    #[trigger] final(scene).pos_of(k) == old(self).events@[0].drawn_pos(
                        *old(scene),
                        k,
                    )
            },
            old(self).events@.len() > 0 && old(self).events@[0].finished() ==> {
                let e = old(self).events@[0];
                &&& r is Ok == e.commit_ok(*old(scene), *old(game_state))
                &&& r is Err ==> r == Err::<(), EventError>(e.commit_error()) && *final(scene)
                    == *old(scene) && *final(game_state) == *old(game_state)
                &&& r is Ok ==> forall|k: NodeId|
                    #[trigger] final(scene).pos_of(k) == e.committed_node_pos(*old(scene), k)
                &&& r is Ok ==> forall|u: UnitId|
                    #[trigger] final(game_state).pos_of(u) == e.committed_unit_pos(
                        *old(game_state),
                        u,
                    )
            },
    {
        if self.events.len() == 0 {
            return Ok(());
        }
        let mut head = self.events.remove(0);
        if head.is_finished() {
            head.end(scene, game_state)
        } else {
            head.draw(scene);
            self.events.insert(0, head);
            Ok(())
        }
    }
}

/// Once an event is finished it stays finished: a further frame leaves it
/// as it is.  Asking whether it is finished reads the event and changes nothing.
pub proof fn lemma_finished_is_stable(e: EventVisualizer)
    requires
        e.wf(),
    ensures
        e.advanced().wf(),
        e.finished() ==> e.advanced() == e,
        e.finished() ==> e.advanced().finished(),
{
}

/// A committed move leaves its unit exactly on the last waypoint, in the
/// game state and in the scene, whatever the number of frames per segment.
pub proof fn lemma_move_commit_exact(m: EventMoveVisualizer, scene: Scene, game_state: GameState)
    requires
        m.wf(),
    ensures
        EventVisualizer::Move(m).committed_unit_pos(game_state, m.unit_id) == Some(
            m.path@[m.path@.len() - 1],
        ),
        EventVisualizer::Move(m).committed_node_pos(scene, node_of(m.unit_id)) == Some(
            tile_pos(m.path@[m.path@.len() - 1]),
        ),
{
}

/// Events run in the order they were queued: while the head event is not
/// finished, one step changes only the head; once it is finished, one step
/// removes it and leaves every later event as it was.  So no later event is
/// drawn or committed before the earlier one is finished and committed.
pub proof fn lemma_queue_order(q: Seq<EventVisualizer>)
    requires
        q.len() >= 1,
    ensures
        !q[0].finished() ==> queue_step(q).len() == q.len() && queue_step(q)[0] == q[0].advanced()
            && queue_step(q).subrange(1, q.len() as int) == q.subrange(1, q.len() as int),
        q[0].finished() ==> queue_step(q) == q.subrange(1, q.len() as int),
{
    if !q[0].finished() {
        assert(queue_step(q).subrange(1, q.len() as int) =~= q.subrange(1, q.len() as int));
    } else {
        assert(queue_step(q) =~= q.subrange(1, q.len() as int));
    }
}

} // verus!
