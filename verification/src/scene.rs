//! A minimal scene graph: arena-indexed display nodes with a parent link.
//!
//! Visibility by reparenting needs exactly this much of a scene graph: a
//! node is rendered while it sits under a parent and stops being rendered
//! when it is detached, without being destroyed. Nodes are arena indices,
//! so a detached node keeps its identity and all of its state and can be
//! reattached later.

use vstd::prelude::*;

verus! {

/// An arena of display nodes. Each node either hangs under a parent node
/// or is detached; the arena records only that link.
#[derive(Debug, Clone)]
pub struct SceneGraph {
    parents: Vec<Option<usize>>,
}

impl SceneGraph {
    /// The parent link of each node, by node index.
    pub closed spec fn parents(self) -> Seq<Option<usize>> {
        self.parents@
    }

    /// How many nodes the arena holds.
    pub open spec fn spec_len(self) -> nat {
        self.parents().len()
    }

    /// Whether one parent link is sound: it points at a node of an arena of
    /// `len` nodes other than the node `i` it belongs to.
    pub open spec fn link_ok(link: Option<usize>, i: int, len: nat) -> bool {
        match link {
            Some(p) => p < len && p != i,
            None => true,
        }
    }

    /// Every parent link points at a node of the arena other than its own.
    pub open spec fn wf(self) -> bool {
        forall|i: int|
            0 <= i < self.parents().len() ==> SceneGraph::link_ok(
                #[trigger] self.parents()[i],
                i,
                self.parents().len(),
            )
    }

    /// The parent link of one node.
    pub open spec fn parent_of(self, node: int) -> Option<usize>
        recommends
            0 <= node < self.spec_len(),
    {
        self.parents()[node]
    }

    /// Whether `child` currently hangs under `parent`.
    pub open spec fn is_child_of(self, child: int, parent: int) -> bool
        recommends
            0 <= child < self.spec_len(),
    {
        self.parent_of(child) == Some(parent as usize)
    }

    /// Reads the parent link of one node.
    pub fn parent(&self, node: usize) -> (p: Option<usize>)
        requires
            node < self.spec_len(),
        ensures
            p == self.parent_of(node as int),
    {
        self.parents[node]
    }

    /// An empty arena.
    pub fn new() -> (scene: SceneGraph)
        ensures
            scene.spec_len() == 0,
            scene.wf(),
    {
        SceneGraph { parents: Vec::new() }
    }

    /// Allocates a fresh, detached node and returns its index.
    pub fn new_node(&mut self) -> (node: usize)
        ensures
            node == old(self).spec_len(),
            final(self).parents() == old(self).parents().push(None),
            old(self).wf() ==> final(self).wf(),
    {
        let node = self.parents.len();
        self.parents.push(None);
        proof {
            if old(self).wf() {
                assert forall|i: int| 0 <= i < self.parents().len() implies SceneGraph::link_ok(
                    #[trigger] self.parents()[i],
                    i,
                    self.parents().len(),
                ) by {
                    if i < old(self).parents().len() {
                        assert(SceneGraph::link_ok(
                            old(self).parents()[i],
                            i,
                            old(self).parents().len(),
                        ));
                    }
                }
            }
        }
        node
    }

    /// Hangs `child` under `parent`. A node has at most one parent, so any
    /// earlier attachment of `child` is replaced; no other link changes.
    pub fn add_child(&mut self, parent: usize, child: usize)
        requires
            old(self).wf(),
            parent < old(self).spec_len(),
            child < old(self).spec_len(),
            parent != child,
        ensures
            final(self).parents() == old(self).parents().update(child as int, Some(parent)),
            final(self).wf(),
    {
        self.parents.set(child, Some(parent));
    }

    /// Detaches `node` from whatever parent it hangs under; a no-op on an
    /// already detached node. The node itself survives and keeps its index.
    pub fn unset_parent(&mut self, node: usize)
        requires
            old(self).wf(),
            node < old(self).spec_len(),
        ensures
            final(self).parents() == old(self).parents().update(node as int, None),
            final(self).wf(),
    {
        self.parents.set(node, None);
    }
}

} // verus!
