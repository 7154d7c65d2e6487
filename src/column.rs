use vstd::prelude::*;

use crate::element::Element;
use crate::event::{Event, MouseCursor};
use crate::geometry::Point;
use crate::hasher::Hasher;
use crate::node::{Layout, Node};
use crate::button::{command_views, CommandView, DrawCommand};
use crate::style::{Align, Dimension, FlexDirection, Justify, Style};

verus! {

/// A container that places its contents vertically.
pub struct Column<'a, M> {
    pub style: Style,
    pub spacing: u16,
    pub children: Vec<Element<'a, M>>,
}

impl<'a, M> Column<'a, M> {
    /// Full width, children stacked top to bottom.
    pub open spec fn initial_style() -> Style {
        Style {
            flex_direction: FlexDirection::Column,
            width: Dimension::Percent(100),
            ..Style::initial()
        }
    }

    /// Creates an empty column that fills the width of its parent.
    pub fn new() -> (r: Self)
        ensures
            r.style == Self::initial_style(),
            r.spacing == 0,
            r.children@.len() == 0,
    {
        let mut style = Style::new().fill_width();
        style.flex_direction = FlexDirection::Column;
        Column { style, spacing: 0, children: Vec::new() }
    }

    /// Sets the vertical spacing between children, in pixels; none follows
    /// the last child.
    pub fn spacing(self, px: u16) -> (r: Self)
        ensures
            r.spacing == px,
            r.style == self.style,
            r.children == self.children,
    {
        Column { spacing: px, ..self }
    }

    pub fn padding(self, px: u32) -> (r: Self)
        ensures
            r.style == (Style { padding: px, ..self.style }),
            r.spacing == self.spacing,
            r.children == self.children,
    {
        let style = self.style.padding(px);
        Column { style, ..self }
    }

    pub fn width(self, width: u32) -> (r: Self)
        ensures
            r.style == (Style { width: Dimension::Points(width), ..self.style }),
            r.spacing == self.spacing,
            r.children == self.children,
    {
        let style = self.style.width(width);
        Column { style, ..self }
    }

    pub fn height(self, height: u32) -> (r: Self)
        ensures
            r.style == (Style { height: Dimension::Points(height), ..self.style }),
            r.spacing == self.spacing,
            r.children == self.children,
    {
        let style = self.style.height(height);
        Column { style, ..self }
    }

    pub fn max_width(self, max_width: u32) -> (r: Self)
        ensures
            r.style == (Style { max_width: Dimension::Points(max_width), ..self.style }),
            r.spacing == self.spacing,
            r.children == self.children,
    {
        let style = self.style.max_width(max_width);
        Column { style, ..self }
    }

    pub fn max_height(self, max_height: u32) -> (r: Self)
        ensures
            r.style == (Style { max_height: Dimension::Points(max_height), ..self.style }),
            r.spacing == self.spacing,
            r.children == self.children,
    {
        let style = self.style.max_height(max_height);
        Column { style, ..self }
    }

    /// Overrides the alignment that the parent gives the column.
    pub fn align_self(self, align: Align) -> (r: Self)
        ensures
            r.style == (Style { align_self: Some(align), ..self.style }),
            r.spacing == self.spacing,
            r.children == self.children,
    {
        let style = self.style.align_self(align);
        Column { style, ..self }
    }

    /// Sets the horizontal alignment of the children.
    pub fn align_items(self, align: Align) -> (r: Self)
        ensures
            r.style == (Style { align_items: align, ..self.style }),
            r.spacing == self.spacing,
            r.children == self.children,
    {
        let style = self.style.align_items(align);
        Column { style, ..self }
    }

    /// Sets how the children are distributed vertically.
    pub fn justify_content(self, justify: Justify) -> (r: Self)
        ensures
            r.style == (Style { justify_content: justify, ..self.style }),
            r.spacing == self.spacing,
            r.children == self.children,
    {
        let style = self.style.justify_content(justify);
        Column { style, ..self }
    }

    /// Appends a child; children are laid out, drawn and sent events in the
    /// order they were pushed.
    pub fn push(self, child: Element<'a, M>) -> (r: Self)
        ensures
            r.style == self.style,
            r.spacing == self.spacing,
            r.children@ == self.children@.push(child),
    {
        let Column { style, spacing, children } = self;
        let mut children = children;
        children.push(child);
        Column { style, spacing, children }
    }

    /// The bottom margin of the child at index `i`: the spacing, except after
    /// the last child.
    pub open spec fn gap(self, i: int) -> Dimension {
        if i + 1 == self.children@.len() {
            Dimension::Undefined
        } else {
            Dimension::Points(self.spacing as u32)
        }
    }

    pub open spec fn builds_children(self, n: Node) -> bool
        decreases self, 1int,
    {
        &&& n.children@.len() == self.children@.len()
        &&& self.builds_upto(n.children@, self.children@.len() as int)
    }

    /// The first `k` nodes are those of the first `k` children, each with its
    /// gap as bottom margin.
    pub open spec fn builds_upto(self, nodes: Seq<Node>, k: int) -> bool
        decreases self, 0int, k,
    {
        if k <= 0 {
            true
        } else if k > self.children@.len() {
            false
        } else {
            self.builds_upto(nodes, k - 1) && self.children@[k - 1].builds(
                nodes[k - 1],
                self.gap(k - 1),
            )
        }
    }

    pub open spec fn fits_children(self, l: Layout) -> bool
        decreases self, 1int,
    {
        &&& l.children@.len() == self.children@.len()
        &&& self.fits_upto(l.children@, self.children@.len() as int)
    }

    pub open spec fn fits_upto(self, layouts: Seq<Layout>, k: int) -> bool
        decreases self, 0int, k,
    {
        if k <= 0 {
            true
        } else if k > self.children@.len() {
            false
        } else {
            self.fits_upto(layouts, k - 1) && self.children@[k - 1].fits(layouts[k - 1])
        }
    }

    pub open spec fn emitted_upto(self, event: Event, l: Layout, cursor: Point, k: int) -> Seq<M>
        decreases self, 0int, k,
    {
        if k <= 0 || k > self.children@.len() {
            Seq::empty()
        } else {
            self.emitted_upto(event, l, cursor, k - 1) + self.children@[k - 1].emitted(
                event,
                l.children@[k - 1],
                cursor,
            )
        }
    }

    pub open spec fn updated_children(
        self,
        after: Column<'a, M>,
        event: Event,
        l: Layout,
        cursor: Point,
    ) -> bool
        decreases self, 1int,
    {
        &&& after.style == self.style
        &&& after.spacing == self.spacing
        &&& after.children@.len() == self.children@.len()
        &&& self.updated_upto(after.children@, event, l, cursor, self.children@.len() as int)
    }

    pub open spec fn updated_upto(
        self,
        after: Seq<Element<'a, M>>,
        event: Event,
        l: Layout,
        cursor: Point,
        k: int,
    ) -> bool
        decreases self, 0int, k,
    {
        if k <= 0 {
            true
        } else if k > self.children@.len() {
            false
        } else {
            self.updated_upto(after, event, l, cursor, k - 1) && self.children@[k - 1].updated(
                after[k - 1],
                event,
                l.children@[k - 1],
                cursor,
            )
        }
    }

    /// The first hint other than `OutOfBounds` among the first `k` children.
    pub open spec fn hint_upto(self, l: Layout, cursor: Point, k: int) -> MouseCursor
        decreases self, 0int, k,
    {
        if k <= 0 || k > self.children@.len() {
            MouseCursor::OutOfBounds
        } else {
            let before = self.hint_upto(l, cursor, k - 1);
            if before != MouseCursor::OutOfBounds {
                before
            } else {
                self.children@[k - 1].hint(l.children@[k - 1], cursor)
            }
        }
    }

    /// The commands that drawing the first `k` children issues, in order.
    pub open spec fn drawn_upto(self, l: Layout, cursor: Point, k: int) -> Seq<CommandView>
        decreases self, 0int, k,
    {
        if k <= 0 || k > self.children@.len() {
            Seq::empty()
        } else {
            self.drawn_upto(l, cursor, k - 1) + self.children@[k - 1].drawn(
                l.children@[k - 1],
                cursor,
            )
        }
    }

    pub open spec fn child_words(self, k: int) -> Seq<u64>
        decreases self, 0int, k,
    {
        if k <= 0 || k > self.children@.len() {
            Seq::empty()
        } else {
            self.child_words(k - 1) + self.children@[k - 1].words(self.gap(k - 1))
        }
    }

    /// The words that the column contributes to a structural hash: those of
    /// its node, then its children's in order.
    pub open spec fn words(self, margin: Dimension) -> Seq<u64>
        decreases self, 1int,
    {
        (Style { margin_bottom: margin, ..self.style }).words() + seq![self.children@.len() as u64]
            + self.child_words(self.children@.len() as int)
    }

    pub fn hash_with(&self, margin: Dimension, h: &mut Hasher)
        ensures
            final(h)@ == old(h)@ + self.words(margin),
        decreases self, 2int,
    {
        let style = Style { margin_bottom: margin, ..self.style };
        style.hash(h);
        let n = self.children.len();
        h.write(n as u64);
        let ghost head = old(h)@ + style.words() + seq![n as u64];
        assert(h@ =~= head + self.child_words(0));
        let mut i: usize = 0;
        while i < n
            invariant
                n == self.children@.len(),
                i <= n,
                h@ == head + self.child_words(i as int),
            decreases n - i,
        {
            let gap = if i + 1 == n {
                Dimension::Undefined
            } else {
                Dimension::Points(self.spacing as u32)
            };
            self.children[i].hash_with(gap, h);
            i += 1;
            assert(h@ =~= head + self.child_words(i as int));
        }
    }

    pub fn hash(&self, h: &mut Hasher)
        ensures
            final(h)@ == old(h)@ + self.words(self.style.margin_bottom),
    {
        self.hash_with(self.style.margin_bottom, h);
    }

    pub fn fits_layout(&self, layout: &Layout) -> (r: bool)
        ensures
            r == self.fits_children(*layout),
        decreases self, 2int,
    {
        let n = self.children.len();
        if layout.children.len() != n {
            return false;
        }
        let mut i: usize = 0;
        while i < n
            invariant
                n == self.children@.len(),
                n == layout.children@.len(),
                i <= n,
                self.fits_upto(layout.children@, i as int),
            decreases n - i,
        {
            if !self.children[i].fits_layout(&layout.children[i]) {
                proof {
                    self.lemma_fits_upto_false(layout.children@, n as int, i as int);
                }
                return false;
            }
            i += 1;
        }
        true
    }

    pub fn draw(&self, layout: &Layout, cursor: Point, target: &mut Vec<DrawCommand>) -> (r:
        MouseCursor)
        requires
            self.fits_children(*layout),
        ensures
            r == self.hint_upto(*layout, cursor, self.children@.len() as int),
            command_views(final(target)@) == command_views(old(target)@) + self.drawn_upto(
                *layout,
                cursor,
                self.children@.len() as int,
            ),
        decreases self, 2int,
    {
        let n = self.children.len();
        let mut hint = MouseCursor::OutOfBounds;
        let mut i: usize = 0;
        while i < n
            invariant
                n == self.children@.len(),
                i <= n,
                self.fits_children(*layout),
                hint == self.hint_upto(*layout, cursor, i as int),
                command_views(target@) == command_views(old(target)@) + self.drawn_upto(
                    *layout,
                    cursor,
                    i as int,
                ),
            decreases n - i,
        {
            proof {
                self.lemma_fits_upto_index(layout.children@, n as int, i as int);
            }
            let child_hint = self.children[i].draw(&layout.children[i], cursor, target);
            assert(command_views(target@) =~= command_views(old(target)@) + self.drawn_upto(
                *layout,
                cursor,
                i + 1,
            ));
            if hint == MouseCursor::OutOfBounds {
                hint = child_hint;
            }
            i += 1;
        }
        hint
    }

    pub fn node(&self) -> (r: Node)
        ensures
            r.style == self.style,
            self.builds_children(r),
        decreases self, 2int,
    {
        let n = self.children.len();
        let mut children: Vec<Node> = Vec::new();
        let mut i: usize = 0;
        while i < n
            invariant
                n == self.children@.len(),
                i <= n,
                children@.len() == i,
                self.builds_upto(children@, i as int),
            decreases n - i,
        {
            let mut child = self.children[i].node();
            child.style.margin_bottom = if i + 1 == n {
                Dimension::Undefined
            } else {
                Dimension::Points(self.spacing as u32)
            };
            assert(self.children@[i as int].builds(child, self.gap(i as int)));
            let ghost before = children@;
            children.push(child);
            proof {
                self.lemma_builds_upto_prefix(before, children@, i as int);
            }
            i += 1;
        }
        Node::with_children(self.style, children)
    }

    pub fn on_event(&mut self, event: Event, layout: &Layout, cursor: Point, messages: &mut Vec<M>)
        where
            M: Copy,
        requires
            old(self).fits_children(*layout),
        ensures
            old(self).updated_children(*final(self), event, *layout, cursor),
            final(messages)@ == old(messages)@ + old(self).emitted_upto(
                event,
                *layout,
                cursor,
                old(self).children@.len() as int,
            ),
        decreases *old(self), 2int,
    {
        let n = self.children.len();
        let ghost c0 = *self;
        let mut i: usize = 0;
        while i < n
            invariant
                c0 == *old(self),
                n == c0.children@.len(),
                self.children@.len() == n,
                self.style == c0.style,
                self.spacing == c0.spacing,
                i <= n,
                c0.fits_children(*layout),
                c0.updated_upto(self.children@, event, *layout, cursor, i as int),
                forall|j: int| i <= j < n ==> self.children@[j] == c0.children@[j],
                messages@ == old(messages)@ + c0.emitted_upto(event, *layout, cursor, i as int),
            decreases n - i,
        {
            proof {
                c0.lemma_fits_upto_index(layout.children@, n as int, i as int);
                broadcast use vstd::std_specs::vec::axiom_vec_decreases_to_view, vstd::seq::axiom_seq_index_decreases;
                assert(decreases_to!(c0 => c0.children));
                assert(decreases_to!(c0.children => c0.children@));
                assert(decreases_to!(c0.children@ => c0.children@[i as int]));
            }
            let ghost before = self.children@;
            self.children[i].on_event(event, &layout.children[i], cursor, messages);
            proof {
                c0.lemma_updated_upto_prefix(before, self.children@, event, *layout, cursor, i as int);
            }
            i += 1;
        }
    }

    pub proof fn lemma_builds_upto_prefix(self, a: Seq<Node>, b: Seq<Node>, k: int)
        requires
            k <= a.len(),
            k <= b.len(),
            forall|j: int| 0 <= j < k ==> a[j] == b[j],
        ensures
            self.builds_upto(a, k) == self.builds_upto(b, k),
        decreases k,
    {
        if k > 0 {
            self.lemma_builds_upto_prefix(a, b, k - 1);
        }
    }

    pub proof fn lemma_builds_upto_index(self, a: Seq<Node>, k: int, j: int)
        requires
            self.builds_upto(a, k),
            0 <= j < k,
        ensures
            self.children@[j].builds(a[j], self.gap(j)),
        decreases k,
    {
        if j < k - 1 {
            self.lemma_builds_upto_index(a, k - 1, j);
        }
    }

    pub proof fn lemma_fits_upto_index(self, a: Seq<Layout>, k: int, j: int)
        requires
            self.fits_upto(a, k),
            0 <= j < k,
        ensures
            self.children@[j].fits(a[j]),
        decreases k,
    {
        if j < k - 1 {
            self.lemma_fits_upto_index(a, k - 1, j);
        }
    }

    pub proof fn lemma_fits_upto_false(self, a: Seq<Layout>, k: int, j: int)
        requires
            0 <= j < k <= self.children@.len(),
            !self.children@[j].fits(a[j]),
        ensures
            !self.fits_upto(a, k),
        decreases k,
    {
        if j < k - 1 {
            self.lemma_fits_upto_false(a, k - 1, j);
        }
    }

    pub proof fn lemma_updated_upto_prefix(
        self,
        a: Seq<Element<'a, M>>,
        b: Seq<Element<'a, M>>,
        event: Event,
        l: Layout,
        cursor: Point,
        k: int,
    )
        requires
            k <= a.len(),
            k <= b.len(),
            forall|j: int| 0 <= j < k ==> a[j] == b[j],
        ensures
            self.updated_upto(a, event, l, cursor, k) == self.updated_upto(b, event, l, cursor, k),
        decreases k,
    {
        if k > 0 {
            self.lemma_updated_upto_prefix(a, b, event, l, cursor, k - 1);
        }
    }
}

/// Spacing goes between children only: in the node of a column with `N`
/// children, each of the first `N - 1` child nodes has the spacing as bottom
/// margin and the last one has none.
pub proof fn lemma_spacing_between_children<'a, M>(c: Column<'a, M>, n: Node)
    requires
        c.builds_children(n),
    ensures
        n.children@.len() == c.children@.len(),
        forall|i: int|
            0 <= i < n.children@.len() ==> (#[trigger] n.children@[i]).style.margin_bottom == (if i
                + 1 < n.children@.len() {
                Dimension::Points(c.spacing as u32)
            } else {
                Dimension::Undefined
            }),
{
    assert forall|i: int| 0 <= i < n.children@.len() implies (#[trigger] n.children@[i]).style.margin_bottom == (if i
        + 1 < n.children@.len() {
        Dimension::Points(c.spacing as u32)
    } else {
        Dimension::Undefined
    }) by {
        c.lemma_builds_upto_index(n.children@, c.children@.len() as int, i);
    }
}

/// The hint of a column is that of its first child whenever that child asks
/// for one, whatever the later children ask for.
pub proof fn lemma_first_hint_wins<'a, M>(c: Column<'a, M>, l: Layout, cursor: Point, k: int)
    requires
        1 <= k <= c.children@.len(),
        c.children@[0].hint(l.children@[0], cursor) != MouseCursor::OutOfBounds,
    ensures
        c.hint_upto(l, cursor, k) == c.children@[0].hint(l.children@[0], cursor),
    decreases k,
{
    if k > 1 {
        lemma_first_hint_wins(c, l, cursor, k - 1);
    } else {
        assert(c.hint_upto(l, cursor, 0) == MouseCursor::OutOfBounds);
    }
}

} // verus!
