use vstd::prelude::*;

use crate::geometry::Rectangle;
use crate::style::Style;

verus! {

/// The input of the layout engine: a style and the ordered child nodes.
pub struct Node {
    pub style: Style,
    pub children: Vec<Node>,
}

/// The output of the layout engine: a rectangle per node, index-aligned with
/// the node tree that produced it.
pub struct Layout {
    pub bounds: Rectangle,
    pub children: Vec<Layout>,
}

impl Node {
    pub fn new(style: Style) -> (r: Node)
        ensures
            r.style == style,
            r.children@.len() == 0,
    {
        Node { style, children: Vec::new() }
    }

    pub fn with_children(style: Style, children: Vec<Node>) -> (r: Node)
        ensures
            r.style == style,
            r.children@ == children@,
    {
        Node { style, children }
    }
}

impl Layout {
    pub fn new(bounds: Rectangle, children: Vec<Layout>) -> (r: Layout)
        ensures
            r.bounds == bounds,
            r.children@ == children@,
    {
        Layout { bounds, children }
    }

    pub fn bounds(&self) -> (r: Rectangle)
        ensures
            r == self.bounds,
    {
        self.bounds
    }
}

/// A node tree and a layout tree have the same number of children at every
/// depth.
pub open spec fn same_shape(n: Node, l: Layout) -> bool
    decreases n, 1int,
{
    &&& n.children@.len() == l.children@.len()
    &&& shape_upto(n, l, n.children@.len() as int)
}

/// The first `k` children of `n` and of `l` have the same shape, pairwise.
pub open spec fn shape_upto(n: Node, l: Layout, k: int) -> bool
    decreases n, 0int, k,
{
    if k <= 0 {
        true
    } else if k > n.children@.len() {
        false
    } else {
        shape_upto(n, l, k - 1) && same_shape(n.children@[k - 1], l.children@[k - 1])
    }
}

/// The words that a node tree contributes to a structural hash: its style,
/// its number of children, then each child's words in order.
pub open spec fn node_words(n: Node) -> Seq<u64>
    decreases n, 1int,
{
    n.style.words() + seq![n.children@.len() as u64] + child_node_words(n, n.children@.len() as int)
}

/// The words of the first `k` children of `n`, in order.
pub open spec fn child_node_words(n: Node, k: int) -> Seq<u64>
    decreases n, 0int, k,
{
    if k <= 0 || k > n.children@.len() {
        Seq::empty()
    } else {
        child_node_words(n, k - 1) + node_words(n.children@[k - 1])
    }
}

} // verus!
