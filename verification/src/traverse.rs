//! Node classification: how generic tree walkers see a node.
use vstd::prelude::*;

verus! {

/// What a node is to a traversal: the root or a branch with its current
/// number of children, a wrapper around one fixed inner value, or a leaf.
#[derive(Debug, Clone, Copy, PartialEq, Eq, Structural)]
pub enum NodeType {
    Root(usize),
    Branch(usize),
    Slab,
    Leaf,
}

impl NodeType {
    /// The number of children that a node of this kind has.
    pub open spec fn child_count(self) -> nat {
        match self {
            NodeType::Root(n) => n as nat,
            NodeType::Branch(n) => n as nat,
            NodeType::Slab => 1,
            NodeType::Leaf => 0,
        }
    }

    /// Whether the node is the root of a tree.
    pub fn is_root(&self) -> (b: bool)
        ensures
            b == (*self is Root),
    {
        match self {
            NodeType::Root(_) => true,
            _ => false,
        }
    }

    /// Whether the node has no place for children.
    pub fn is_leaf(&self) -> (b: bool)
        ensures
            b == (*self is Leaf),
    {
        match self {
            NodeType::Leaf => true,
            _ => false,
        }
    }

    /// The number of children: the count of a root or a branch, 1 for a slab,
    /// 0 for a leaf.
    pub fn n_children(&self) -> (n: usize)
        ensures
            n == self.child_count(),
    {
        match self {
            NodeType::Root(n) => *n,
            NodeType::Branch(n) => *n,
            NodeType::Slab => 1,
            NodeType::Leaf => 0,
        }
    }
}

/// Implemented by every node of the tree.
pub trait Node {
    /// The classification of the node as its fields stand.
    spec fn spec_node_type(&self) -> NodeType;

    /// Classifies the node from its fields at the time of the call; nothing
    /// is cached, so the count follows every change to the children.
    fn node_type(&self) -> (t: NodeType)
        ensures
            t == self.spec_node_type(),
    ;
}

} // verus!
