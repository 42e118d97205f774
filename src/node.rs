use vstd::prelude::*;

use crate::id::Id;
use crate::modifier::ModifierNode;
use crate::scroll_view::Axis;

verus! {

/// The direction in which a stack lays out its children.
#[derive(Clone, Copy, Debug, PartialEq, Eq, Hash, Structural)]
pub enum StackAxis {
    Horizontal,
    Vertical,
}

/// One rendered unit of a render pass.
#[derive(Debug, PartialEq)]
pub enum Node {
    Empty {},
    Text { content: String },
    Toggle { is_on: bool },
    Stack { axis: StackAxis, children: Vec<Node> },
    Group { children: Vec<Node> },
    ScrollView { axes: Axis, show_indicators: bool, wrapped: Box<Node> },
    Identified { id: Id, wrapped: Box<Node> },
    Modified { modifier: ModifierNode, wrapped: Box<Node> },
    Overlay { wrapped: Box<Node>, overlayed: Box<Node> },
}

/// The mathematical value of a `Node`.
pub enum NodeTree {
    Empty,
    Text { content: Seq<char> },
    Toggle { is_on: bool },
    Stack { axis: StackAxis, children: Seq<NodeTree> },
    Group { children: Seq<NodeTree> },
    ScrollView { axes: Axis, show_indicators: bool, wrapped: Box<NodeTree> },
    Identified { id: Id, wrapped: Box<NodeTree> },
    Modified { modifier: ModifierNode, wrapped: Box<NodeTree> },
    Overlay { wrapped: Box<NodeTree>, overlayed: Box<NodeTree> },
}

/// The values of the first `n` nodes of `nodes`.
pub open spec fn trees_of(nodes: Seq<Node>, n: nat) -> Seq<NodeTree>
    decreases nodes, n,
{
    if n == 0 || n > nodes.len() {
        Seq::empty()
    } else {
        trees_of(nodes, (n - 1) as nat).push(tree_of(nodes[n - 1]))
    }
}

/// The value of a node.
pub open spec fn tree_of(node: Node) -> NodeTree
    decreases node, 0nat,
{
    match node {
        Node::Empty {} => NodeTree::Empty,
        Node::Text { content } => NodeTree::Text { content: content@ },
        Node::Toggle { is_on } => NodeTree::Toggle { is_on },
        Node::Stack { axis, children } => NodeTree::Stack {
            axis,
            children: trees_of(children@, children@.len()),
        },
        Node::Group { children } => NodeTree::Group {
            children: trees_of(children@, children@.len()),
        },
        Node::ScrollView { axes, show_indicators, wrapped } => NodeTree::ScrollView {
            axes,
            show_indicators,
            wrapped: Box::new(tree_of(*wrapped)),
        },
        Node::Identified { id, wrapped } => NodeTree::Identified {
            id,
            wrapped: Box::new(tree_of(*wrapped)),
        },
        Node::Modified { modifier, wrapped } => NodeTree::Modified {
            modifier,
            wrapped: Box::new(tree_of(*wrapped)),
        },
        Node::Overlay { wrapped, overlayed } => NodeTree::Overlay {
            wrapped: Box::new(tree_of(*wrapped)),
            overlayed: Box::new(tree_of(*overlayed)),
        },
    }
}

impl View for Node {
    type V = NodeTree;

    open spec fn view(&self) -> NodeTree {
        tree_of(*self)
    }
}

impl Node {
    /// This node tagged with the id of the child that produced it.
    pub fn identify(self, id: Id) -> (r: Node)
        ensures
            r@ == (NodeTree::Identified { id, wrapped: Box::new(self@) }),
    {
        Node::Identified { id, wrapped: Box::new(self) }
    }
}

} // verus!

verus! {

/// Extending a sequence of nodes leaves the values of its prefixes alone.
pub proof fn lemma_trees_of_prefix(nodes: Seq<Node>, x: Node, n: nat)
    requires
        n <= nodes.len(),
    ensures
        trees_of(nodes.push(x), n) == trees_of(nodes, n),
    decreases n,
{
    if n > 0 {
        lemma_trees_of_prefix(nodes, x, (n - 1) as nat);
        assert(nodes.push(x)[n - 1] == nodes[n - 1]);
    }
}

/// The values of a sequence of nodes extended by one node.
pub proof fn lemma_trees_of_push(nodes: Seq<Node>, x: Node)
    ensures
        trees_of(nodes.push(x), nodes.len() + 1) == trees_of(nodes, nodes.len()).push(tree_of(x)),
{
    lemma_trees_of_prefix(nodes, x, nodes.len());
    assert(nodes.push(x)[nodes.len() as int] == x);
}

} // verus!

verus! {

/// The id that a tagged node carries.
pub open spec fn tag_of(t: NodeTree) -> Option<Id> {
    match t {
        NodeTree::Identified { id, .. } => Some(id),
        _ => None,
    }
}

/// The position of the first of `children` tagged `id`, or -1.
pub open spec fn first_tagged(children: Seq<NodeTree>, id: Id) -> int {
    if exists|i: int|
        0 <= i < children.len() && tag_of(children[i]) == Some(id) && forall|j: int|
            0 <= j < i ==> tag_of(children[j]) != Some(id) {
        choose|i: int|
            0 <= i < children.len() && tag_of(children[i]) == Some(id) && forall|j: int|
                0 <= j < i ==> tag_of(children[j]) != Some(id)
    } else {
        -1
    }
}

/// The node under the first of `children` tagged `path[0]`, followed along
/// the rest of `path`.
pub open spec fn child_at(children: Seq<NodeTree>, path: Seq<Id>) -> Option<NodeTree>
    decreases children, 0nat,
{
    let i = first_tagged(children, path[0]);
    if 0 <= i < children.len() {
        match children[i] {
            NodeTree::Identified { wrapped, .. } => node_at(*wrapped, path.drop_first()),
            _ => None,
        }
    } else {
        None
    }
}

/// The node that `path` leads to in a rendered tree, looking through
/// decorations; each step follows the child tagged with that step's id.
pub open spec fn node_at(t: NodeTree, path: Seq<Id>) -> Option<NodeTree>
    decreases t, 1nat,
{
    match t {
        NodeTree::Modified { wrapped, .. } => node_at(*wrapped, path),
        _ => if path.len() == 0 {
            Some(t)
        } else {
            match t {
                NodeTree::ScrollView { wrapped, .. } => match *wrapped {
                    NodeTree::Identified { id, wrapped: inner } => if id == path[0] {
                        node_at(*inner, path.drop_first())
                    } else {
                        None
                    },
                    _ => None,
                },
                NodeTree::Overlay { wrapped, overlayed } => match *wrapped {
                    NodeTree::Identified { id, wrapped: inner } if id == path[0] => node_at(
                        *inner,
                        path.drop_first(),
                    ),
                    _ => match *overlayed {
                        NodeTree::Identified { id, wrapped: inner } if id == path[0] => node_at(
                            *inner,
                            path.drop_first(),
                        ),
                        _ => None,
                    },
                },
                NodeTree::Identified { id, wrapped } => if id == path[0] {
                    node_at(*wrapped, path.drop_first())
                } else {
                    None
                },
                NodeTree::Stack { children, .. } => child_at(children, path),
                NodeTree::Group { children } => child_at(children, path),
                _ => None,
            }
        },
    }
}

} // verus!
