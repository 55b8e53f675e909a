use vstd::prelude::*;

verus! {

/// Key of a node of the scene.  Units use their own id as node id.
#[derive(Clone, Copy, Debug, PartialEq, Eq, Structural)]
pub struct NodeId {
    pub id: i32,
}

/// A render-space point held exactly as a fraction of the lattice:
/// the point is `(x / den, y / den)` in the units of `WorldPos`.
#[derive(Clone, Copy, Debug, PartialEq, Eq, Structural)]
pub struct ScenePos {
    pub x: i64,
    pub y: i64,
    pub den: i64,
}

/// A visual entity and where it is drawn.
#[derive(Clone, Copy, Debug, PartialEq, Eq, Structural)]
pub struct SceneNode {
    pub id: NodeId,
    pub pos: ScenePos,
}

/// The scene index: one node per id.
#[derive(Debug)]
pub struct Scene {
    pub nodes: Vec<SceneNode>,
}

pub open spec fn ids_unique(nodes: Seq<SceneNode>) -> bool {
    forall|i: int, j: int| 0 <= i < j < nodes.len() ==> nodes[i].id != nodes[j].id
}

pub open spec fn has_node(nodes: Seq<SceneNode>, id: NodeId) -> bool {
    exists|i: int| 0 <= i < nodes.len() && nodes[i].id == id
}

/// Where the node `id` is drawn, if the scene holds it.
pub open spec fn node_pos(nodes: Seq<SceneNode>, id: NodeId) -> Option<ScenePos> {
    if has_node(nodes, id) {
        Some(nodes[choose|i: int| 0 <= i < nodes.len() && nodes[i].id == id].pos)
    } else {
        None
    }
}

proof fn lemma_node_pos_at(nodes: Seq<SceneNode>, i: int)
    requires
        ids_unique(nodes),
        0 <= i < nodes.len(),
    ensures
        node_pos(nodes, nodes[i].id) == Some(nodes[i].pos),
{
    let id = nodes[i].id;
    assert(has_node(nodes, id));
    let j = choose|j: int| 0 <= j < nodes.len() && nodes[j].id == id;
    assert(j == i) by {
        if j < i {
            assert(nodes[j].id != nodes[i].id);
        } else if i < j {
            assert(nodes[i].id != nodes[j].id);
        }
    }
}

proof fn lemma_node_pos_update(nodes: Seq<SceneNode>, i: int, pos: ScenePos, k: NodeId)
    requires
        ids_unique(nodes),
        0 <= i < nodes.len(),
    ensures
        ids_unique(nodes.update(i, SceneNode { id: nodes[i].id, pos })),
        node_pos(nodes.update(i, SceneNode { id: nodes[i].id, pos }), k) == if k == nodes[i].id {
            Some(pos)
        } else {
            node_pos(nodes, k)
        },
{
    let n2 = nodes.update(i, SceneNode { id: nodes[i].id, pos });
    assert(ids_unique(n2));
    if k == nodes[i].id {
        lemma_node_pos_at(n2, i);
    } else if has_node(nodes, k) {
        let j = choose|j: int| 0 <= j < nodes.len() && nodes[j].id == k;
        lemma_node_pos_at(nodes, j);
        lemma_node_pos_at(n2, j);
    } else {
        assert(!has_node(n2, k)) by {
            if has_node(n2, k) {
                let j = choose|j: int| 0 <= j < n2.len() && n2[j].id == k;
                assert(nodes[j].id == k);
            }
        }
    }
}

proof fn lemma_node_pos_push(nodes: Seq<SceneNode>, node: SceneNode, k: NodeId)
    requires
        ids_unique(nodes),
        !has_node(nodes, node.id),
    ensures
        ids_unique(nodes.push(node)),
        node_pos(nodes.push(node), k) == if k == node.id {
            Some(node.pos)
        } else {
            node_pos(nodes, k)
        },
{
    let n2 = nodes.push(node);
    assert(ids_unique(n2)) by {
        assert forall|i: int, j: int| 0 <= i < j < n2.len() implies n2[i].id != n2[j].id by {
            if j == nodes.len() {
                assert(n2[i] == nodes[i]);
            }
        }
    }
    if k == node.id {
        lemma_node_pos_at(n2, nodes.len() as int);
    } else if has_node(nodes, k) {
        let j = choose|j: int| 0 <= j < nodes.len() && nodes[j].id == k;
        lemma_node_pos_at(nodes, j);
        lemma_node_pos_at(n2, j);
    } else {
        assert(!has_node(n2, k)) by {
            if has_node(n2, k) {
                let j = choose|j: int| 0 <= j < n2.len() && n2[j].id == k;
                assert(nodes[j].id == k);
            }
        }
    }
}

impl Scene {
    /// No two nodes share an id.
    pub open spec fn wf(&self) -> bool {
        ids_unique(self.nodes@)
    }

    /// Where the node `id` is drawn, if the scene holds it.
    pub open spec fn pos_of(&self, id: NodeId) -> Option<ScenePos> {
        node_pos(self.nodes@, id)
    }

    /// An empty scene.
    pub fn new() -> (r: Scene)
        ensures
            r.wf(),
            r.nodes@.len() == 0,
            forall|k: NodeId| r.pos_of(k) is None,
    {
        Scene { nodes: Vec::new() }
    }

    fn find(&self, id: NodeId) -> (r: Option<usize>)
        requires
            self.wf(),
        ensures
            match r {
                Some(i) => i < self.nodes@.len() && self.nodes@[i as int].id == id,
                None => !has_node(self.nodes@, id),
            },
    {
        let mut i: usize = 0;
        while i < self.nodes.len()
            invariant
                i <= self.nodes@.len(),
                forall|j: int| 0 <= j < i ==> self.nodes@[j].id != id,
            decreases self.nodes@.len() - i,
        {
            if self.nodes[i].id == id {
                return Some(i);
            }
            i = i + 1;
        }
        None
    }

    /// Where the node `id` is drawn, if the scene holds it.
    pub fn get(&self, id: NodeId) -> (r: Option<ScenePos>)
        requires
            self.wf(),
        ensures
            r == self.pos_of(id),
    {
        match self.find(id) {
            Some(i) => {
                proof {
                    lemma_node_pos_at(self.nodes@, i as int);
                }
                Some(self.nodes[i].pos)
            },
            None => None,
        }
    }

    /// Moves the node `id` to `pos`; returns whether the scene holds it.
    /// A scene without that node is left as it was.
    pub fn set_pos(&mut self, id: NodeId, pos: ScenePos) -> (r: bool)
        requires
            old(self).wf(),
        ensures
            final(self).wf(),
            r == (old(self).pos_of(id) is Some),
            final(self).nodes@.len() == old(self).nodes@.len(),
            forall|i: int|
                0 <= i < old(self).nodes@.len() ==> #[trigger] final(self).nodes@[i].id
                    == old(self).nodes@[i].id,
            forall|k: NodeId|
                #[trigger] final(self).pos_of(k) == if k == id && r {
                    Some(pos)
                } else {
                    old(self).pos_of(k)
                },
    {
        match self.find(id) {
            Some(i) => {
                let ghost before = self.nodes@;
                self.nodes.set(i, SceneNode { id, pos });
                proof {
                    assert forall|k: NodeId| #[trigger] node_pos(self.nodes@, k) == if k == id {
                        Some(pos)
                    } else {
                        node_pos(before, k)
                    } by {
                        lemma_node_pos_update(before, i as int, pos, k);
                    }
                    lemma_node_pos_update(before, i as int, pos, id);
                }
                true
            },
            None => false,
        }
    }

    /// Puts the node `id` at `pos`, adding it if the scene does not hold it.
    pub fn insert(&mut self, id: NodeId, pos: ScenePos)
        requires
            old(self).wf(),
        ensures
            final(self).wf(),
            forall|k: NodeId|
                #[trigger] final(self).pos_of(k) == if k == id {
                    Some(pos)
                } else {
                    old(self).pos_of(k)
                },
    {
        let ghost start = *self;
        if !self.set_pos(id, pos) {
            let ghost before = self.nodes@;
            proof {
                assert(self.pos_of(id) == start.pos_of(id));
                assert forall|k: NodeId| #[trigger] node_pos(before, k) == start.pos_of(k) by {
                    assert(self.pos_of(k) == start.pos_of(k));
                }
            }
            self.nodes.push(SceneNode { id, pos });
            proof {
                assert forall|k: NodeId| #[trigger] node_pos(self.nodes@, k) == if k == id {
                    Some(pos)
                } else {
                    node_pos(before, k)
                } by {
                    lemma_node_pos_push(before, SceneNode { id, pos }, k);
                }
                lemma_node_pos_push(before, SceneNode { id, pos }, id);
            }
        }
    }
}

} // verus!
