use vstd::prelude::*;

use crate::button::{command_views, Button, CommandView, DrawCommand};
use crate::column::Column;
use crate::event::{ButtonState, Event, MouseCursor};
use crate::geometry::Point;
use crate::hasher::{digest_of, Hasher};
use crate::node::{child_node_words, node_words, same_shape, shape_upto, Layout, Node};
use crate::style::{Dimension, Style};

verus! {

/// One widget of a tree, owned by its parent.
pub enum Element<'a, M> {
    Button(Button<'a, M>),
    Column(Column<'a, M>),
}

impl<'a, M> Element<'a, M> {
    /// The style of the widget's own node, before its parent sets a margin.
    pub open spec fn root_style(self) -> Style {
        match self {
            Element::Button(b) => b.node_style(),
            Element::Column(c) => c.style,
        }
    }

    /// `n` is the node tree of this widget, its own node carrying the bottom
    /// margin `margin` that the parent asks for.
    pub open spec fn builds(self, n: Node, margin: Dimension) -> bool
        decreases self, 2int,
    {
        &&& n.style == (Style { margin_bottom: margin, ..self.root_style() })
        &&& match self {
            Element::Button(_) => n.children@.len() == 0,
            Element::Column(c) => c.builds_children(n),
        }
    }

    /// The layout tree has the shape of the widget tree: at every column, one
    /// child layout per child widget.
    pub open spec fn fits(self, l: Layout) -> bool
        decreases self, 2int,
    {
        match self {
            Element::Button(_) => true,
            Element::Column(c) => c.fits_children(l),
        }
    }

    /// The messages that one event produces in this tree, in tree order.
    pub open spec fn emitted(self, event: Event, l: Layout, cursor: Point) -> Seq<M>
        decreases self, 1int,
    {
        match self {
            Element::Button(b) => b.emits(event, l.bounds, cursor),
            Element::Column(c) => c.emitted_upto(event, l, cursor, c.children@.len() as int),
        }
    }

    /// `after` is this tree once every widget in it has seen the event: each
    /// button took its own transition, and nothing else changed.
    pub open spec fn updated(self, after: Element<'a, M>, event: Event, l: Layout, cursor: Point) -> bool
        decreases self, 2int,
    {
        match (self, after) {
            (Element::Button(b), Element::Button(b2)) => {
                &&& b2.pressed() == b.next_pressed(event, l.bounds, cursor)
                &&& b2.label == b.label
                &&& b2.width == b.width
                &&& b2.on_click == b.on_click
            },
            (Element::Column(c), Element::Column(c2)) => c.updated_children(c2, event, l, cursor),
            _ => false,
        }
    }

    /// The cursor icon that the tree asks for.
    pub open spec fn hint(self, l: Layout, cursor: Point) -> MouseCursor
        decreases self, 1int,
    {
        match self {
            Element::Button(b) => b.hint(l.bounds, cursor),
            Element::Column(c) => c.hint_upto(l, cursor, c.children@.len() as int),
        }
    }

    /// The commands that drawing the tree issues, in tree order.
    pub open spec fn drawn(self, l: Layout, cursor: Point) -> Seq<CommandView>
        decreases self, 1int,
    {
        match self {
            Element::Button(b) => seq![b.drawn(l.bounds, cursor)],
            Element::Column(c) => c.drawn_upto(l, cursor, c.children@.len() as int),
        }
    }

    /// The words that the tree contributes to a structural hash, its own node
    /// carrying the bottom margin `margin`.
    pub open spec fn words(self, margin: Dimension) -> Seq<u64>
        decreases self, 1int,
    {
        match self {
            Element::Button(b) => b.words(margin),
            Element::Column(c) => c.words(margin),
        }
    }

    /// No button anywhere in the tree is held down.
    pub open spec fn none_pressed(self) -> bool
        decreases self, 1int,
    {
        match self {
            Element::Button(b) => !b.pressed(),
            Element::Column(c) => none_pressed_upto(c, c.children@.len() as int),
        }
    }

    pub fn node(&self) -> (r: Node)
        ensures
            self.builds(r, self.root_style().margin_bottom),
        decreases self, 3int,
    {
        match self {
            Element::Button(b) => b.node(),
            Element::Column(c) => c.node(),
        }
    }

    /// Tells whether `layout` has the shape of this tree, as `on_event` and
    /// `draw` require.
    pub fn fits_layout(&self, layout: &Layout) -> (r: bool)
        ensures
            r == self.fits(*layout),
        decreases self, 3int,
    {
        match self {
            Element::Button(_) => true,
            Element::Column(c) => c.fits_layout(layout),
        }
    }

    pub fn on_event(&mut self, event: Event, layout: &Layout, cursor: Point, messages: &mut Vec<M>)
        where
            M: Copy,
        requires
            old(self).fits(*layout),
        ensures
            old(self).updated(*final(self), event, *layout, cursor),
            final(messages)@ == old(messages)@ + old(self).emitted(event, *layout, cursor),
        decreases *old(self), 3int,
    {
        match self {
            Element::Button(b) => b.on_event(event, layout.bounds, cursor, messages),
            Element::Column(c) => c.on_event(event, layout, cursor, messages),
        }
    }

    pub fn draw(&self, layout: &Layout, cursor: Point, target: &mut Vec<DrawCommand>) -> (r:
        MouseCursor)
        requires
            self.fits(*layout),
        ensures
            r == self.hint(*layout, cursor),
            command_views(final(target)@) == command_views(old(target)@) + self.drawn(
                *layout,
                cursor,
            ),
        decreases self, 3int,
    {
        match self {
            Element::Button(b) => {
                let r = b.draw(layout.bounds, cursor, target);
                assert(command_views(final(target)@) =~= command_views(old(target)@) + self.drawn(
                    *layout,
                    cursor,
                ));
                r
            },
            Element::Column(c) => c.draw(layout, cursor, target),
        }
    }

    /// Writes the tree's words into `h`, its own node carrying the bottom
    /// margin `margin`.
    pub fn hash_with(&self, margin: Dimension, h: &mut Hasher)
        ensures
            final(h)@ == old(h)@ + self.words(margin),
        decreases self, 3int,
    {
        match self {
            Element::Button(b) => b.hash_with(margin, h),
            Element::Column(c) => c.hash_with(margin, h),
        }
    }

    pub fn hash(&self, h: &mut Hasher)
        ensures
            final(h)@ == old(h)@ + self.words(self.root_style().margin_bottom),
    {
        let margin = match self {
            Element::Button(b) => b.style().margin_bottom,
            Element::Column(c) => c.style.margin_bottom,
        };
        self.hash_with(margin, h);
    }
}

/// No button among the first `k` children of `c`, at any depth, is held down.
pub open spec fn none_pressed_upto<'a, M>(c: Column<'a, M>, k: int) -> bool
    decreases c, 0int, k,
{
    if k <= 0 {
        true
    } else if k > c.children@.len() {
        false
    } else {
        none_pressed_upto(c, k - 1) && c.children@[k - 1].none_pressed()
    }
}

impl<'a, M> From<Button<'a, M>> for Element<'a, M> {
    fn from(button: Button<'a, M>) -> (r: Element<'a, M>) {
        Element::Button(button)
    }
}

impl<'a, M> vstd::std_specs::convert::FromSpecImpl<Button<'a, M>> for Element<'a, M> {
    open spec fn obeys_from_spec() -> bool {
        true
    }

    open spec fn from_spec(button: Button<'a, M>) -> Element<'a, M> {
        Element::Button(button)
    }
}

impl<'a, M> From<Column<'a, M>> for Element<'a, M> {
    fn from(column: Column<'a, M>) -> (r: Element<'a, M>) {
        Element::Column(column)
    }
}

impl<'a, M> vstd::std_specs::convert::FromSpecImpl<Column<'a, M>> for Element<'a, M> {
    open spec fn obeys_from_spec() -> bool {
        true
    }

    open spec fn from_spec(column: Column<'a, M>) -> Element<'a, M> {
        Element::Column(column)
    }
}

/// The words that a tree hashes are those of the node tree it builds.
pub proof fn lemma_words_of_node<'a, M>(e: Element<'a, M>, n: Node, margin: Dimension)
    requires
        e.builds(n, margin),
    ensures
        e.words(margin) == node_words(n),
    decreases e, 1int,
{
    match e {
        Element::Button(b) => {
            assert(child_node_words(n, 0) == Seq::<u64>::empty());
            assert(e.words(margin) =~= node_words(n));
        },
        Element::Column(c) => {
            lemma_child_words_of_nodes(c, n, c.children@.len() as int);
        },
    }
}

proof fn lemma_child_words_of_nodes<'a, M>(c: Column<'a, M>, n: Node, k: int)
    requires
        n.children@.len() == c.children@.len(),
        0 <= k <= c.children@.len(),
        c.builds_upto(n.children@, k),
    ensures
        c.child_words(k) == child_node_words(n, k),
    decreases c, 0int, k,
{
    if k > 0 {
        lemma_child_words_of_nodes(c, n, k - 1);
        broadcast use vstd::std_specs::vec::axiom_vec_decreases_to_view, vstd::seq::axiom_seq_index_decreases;
        assert(decreases_to!(c => c.children));
        assert(decreases_to!(c.children => c.children@));
        assert(decreases_to!(c.children@ => c.children@[k - 1]));
        lemma_words_of_node(c.children@[k - 1], n.children@[k - 1], c.gap(k - 1));
    }
}

/// Two trees that build the same node tree hash to the same value: what
/// reaches the hasher depends on the node tree alone.
pub proof fn lemma_hash_stable<'a, M>(
    a: Element<'a, M>,
    b: Element<'a, M>,
    n: Node,
    margin_a: Dimension,
    margin_b: Dimension,
)
    requires
        a.builds(n, margin_a),
        b.builds(n, margin_b),
    ensures
        a.words(margin_a) == b.words(margin_b),
        digest_of(a.words(margin_a)) == digest_of(b.words(margin_b)),
{
    lemma_words_of_node(a, n, margin_a);
    lemma_words_of_node(b, n, margin_b);
}

/// A layout with the shape of the node tree that a widget tree builds has,
/// at every depth, one child layout per child widget.
pub proof fn lemma_layout_fits_tree<'a, M>(e: Element<'a, M>, n: Node, margin: Dimension, l: Layout)
    requires
        e.builds(n, margin),
        same_shape(n, l),
    ensures
        e.fits(l),
    decreases e, 1int,
{
    match e {
        Element::Button(_) => {},
        Element::Column(c) => {
            lemma_fits_upto_of_shape(c, n, l, c.children@.len() as int);
        },
    }
}

proof fn lemma_fits_upto_of_shape<'a, M>(c: Column<'a, M>, n: Node, l: Layout, k: int)
    requires
        n.children@.len() == c.children@.len(),
        0 <= k <= c.children@.len(),
        c.builds_upto(n.children@, k),
        shape_upto(n, l, k),
    ensures
        c.fits_upto(l.children@, k),
    decreases c, 0int, k,
{
    if k > 0 {
        lemma_fits_upto_of_shape(c, n, l, k - 1);
        broadcast use vstd::std_specs::vec::axiom_vec_decreases_to_view, vstd::seq::axiom_seq_index_decreases;
        assert(decreases_to!(c => c.children));
        assert(decreases_to!(c.children => c.children@));
        assert(decreases_to!(c.children@ => c.children@[k - 1]));
        lemma_layout_fits_tree(c.children@[k - 1], n.children@[k - 1], c.gap(k - 1), l.children@[k - 1]);
    }
}

/// A release reaches every button of the tree, wherever the cursor is, even
/// outside every widget: afterwards no button is held down.
pub proof fn lemma_release_reaches_every_button<'a, M>(
    e: Element<'a, M>,
    after: Element<'a, M>,
    l: Layout,
    cursor: Point,
)
    requires
        e.updated(after, Event::MouseInput { state: ButtonState::Released }, l, cursor),
    ensures
        after.none_pressed(),
    decreases e, 1int,
{
    match (e, after) {
        (Element::Column(c), Element::Column(c2)) => {
            lemma_release_upto(c, c2, l, cursor, c.children@.len() as int);
        },
        _ => {},
    }
}

proof fn lemma_release_upto<'a, M>(
    c: Column<'a, M>,
    c2: Column<'a, M>,
    l: Layout,
    cursor: Point,
    k: int,
)
    requires
        c2.children@.len() == c.children@.len(),
        0 <= k <= c.children@.len(),
        c.updated_upto(c2.children@, Event::MouseInput { state: ButtonState::Released }, l, cursor, k),
    ensures
        none_pressed_upto(c2, k),
    decreases c, 0int, k,
{
    if k > 0 {
        lemma_release_upto(c, c2, l, cursor, k - 1);
        broadcast use vstd::std_specs::vec::axiom_vec_decreases_to_view, vstd::seq::axiom_seq_index_decreases;
        assert(decreases_to!(c => c.children));
        assert(decreases_to!(c.children => c.children@));
        assert(decreases_to!(c.children@ => c.children@[k - 1]));
        lemma_release_reaches_every_button(c.children@[k - 1], c2.children@[k - 1], l.children@[k - 1], cursor);
    }
}

/// Trees whose own nodes differ in style hash different words.
pub proof fn lemma_style_change_changes_words<'a, M>(a: Element<'a, M>, b: Element<'a, M>, margin: Dimension)
    requires
        (Style { margin_bottom: margin, ..a.root_style() }) != (Style {
            margin_bottom: margin,
            ..b.root_style()
        }),
    ensures
        a.words(margin) != b.words(margin),
{
    let sa = Style { margin_bottom: margin, ..a.root_style() };
    let sb = Style { margin_bottom: margin, ..b.root_style() };
    if a.words(margin) == b.words(margin) {
        assert(a.words(margin).subrange(0, 16) =~= sa.words());
        assert(b.words(margin).subrange(0, 16) =~= sb.words());
        crate::style::lemma_style_words_injective(sa, sb);
    }
}

} // verus!
