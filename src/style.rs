use vstd::prelude::*;

use crate::hasher::Hasher;

verus! {

/// How a widget sizes itself along an axis.
#[derive(Clone, Copy, Debug, PartialEq, Eq, Structural)]
pub enum Length {
    /// Take as little space as the content needs.
    Shrink,
    /// Take a share of the space that is left.
    Fill,
    /// A fixed number of pixels.
    Px(u16),
}

/// A size constraint of the layout engine.
#[derive(Clone, Copy, Debug, PartialEq, Eq, Structural)]
pub enum Dimension {
    Undefined,
    Auto,
    Points(u32),
    /// A share of the parent's size, in hundredths.
    Percent(u32),
}

/// Alignment along the cross axis.
#[derive(Clone, Copy, Debug, PartialEq, Eq, Structural)]
pub enum Align {
    Start,
    Center,
    End,
    Stretch,
}

/// Distribution along the main axis.
#[derive(Clone, Copy, Debug, PartialEq, Eq, Structural)]
pub enum Justify {
    Start,
    Center,
    End,
    SpaceBetween,
    SpaceAround,
}

#[derive(Clone, Copy, Debug, PartialEq, Eq, Structural)]
pub enum FlexDirection {
    Row,
    Column,
}

/// The flex style of one layout node.
#[derive(Clone, Copy, Debug, PartialEq, Eq, Structural)]
pub struct Style {
    pub flex_direction: FlexDirection,
    /// `None` leaves the alignment to the parent's `align_items`.
    pub align_self: Option<Align>,
    pub align_items: Align,
    pub justify_content: Justify,
    pub flex_grow: u32,
    pub width: Dimension,
    pub height: Dimension,
    pub max_width: Dimension,
    pub max_height: Dimension,
    /// The same inset on all four sides, in pixels.
    pub padding: u32,
    pub margin_bottom: Dimension,
}

pub open spec fn dimension_words(d: Dimension) -> Seq<u64> {
    match d {
        Dimension::Undefined => seq![0u64, 0u64],
        Dimension::Auto => seq![1u64, 0u64],
        Dimension::Points(n) => seq![2u64, n as u64],
        Dimension::Percent(n) => seq![3u64, n as u64],
    }
}

pub open spec fn align_word(a: Align) -> u64 {
    match a {
        Align::Start => 0,
        Align::Center => 1,
        Align::End => 2,
        Align::Stretch => 3,
    }
}

pub open spec fn align_self_word(a: Option<Align>) -> u64 {
    match a {
        None => 0,
        Some(a) => (1 + align_word(a)) as u64,
    }
}

pub open spec fn justify_word(j: Justify) -> u64 {
    match j {
        Justify::Start => 0,
        Justify::Center => 1,
        Justify::End => 2,
        Justify::SpaceBetween => 3,
        Justify::SpaceAround => 4,
    }
}

pub open spec fn direction_word(d: FlexDirection) -> u64 {
    match d {
        FlexDirection::Row => 0,
        FlexDirection::Column => 1,
    }
}

fn hash_dimension(d: Dimension, h: &mut Hasher)
    ensures
        final(h)@ == old(h)@ + dimension_words(d),
{
    let (tag, value): (u64, u64) = match d {
        Dimension::Undefined => (0, 0),
        Dimension::Auto => (1, 0),
        Dimension::Points(n) => (2, n as u64),
        Dimension::Percent(n) => (3, n as u64),
    };
    h.write(tag);
    h.write(value);
    assert(final(h)@ =~= old(h)@ + dimension_words(d));
}

impl Style {
    /// Row direction, automatic size, no padding, no margin, no growth.
    pub open spec fn initial() -> Style {
        Style {
            flex_direction: FlexDirection::Row,
            align_self: None,
            align_items: Align::Stretch,
            justify_content: Justify::Start,
            flex_grow: 0,
            width: Dimension::Auto,
            height: Dimension::Auto,
            max_width: Dimension::Auto,
            max_height: Dimension::Auto,
            padding: 0,
            margin_bottom: Dimension::Undefined,
        }
    }

    pub fn new() -> (r: Style)
        ensures
            r == Style::initial(),
    {
        Style {
            flex_direction: FlexDirection::Row,
            align_self: None,
            align_items: Align::Stretch,
            justify_content: Justify::Start,
            flex_grow: 0,
            width: Dimension::Auto,
            height: Dimension::Auto,
            max_width: Dimension::Auto,
            max_height: Dimension::Auto,
            padding: 0,
            margin_bottom: Dimension::Undefined,
        }
    }

    /// Takes the whole width of the parent.
    pub fn fill_width(self) -> (r: Style)
        ensures
            r == (Style { width: Dimension::Percent(100), ..self }),
    {
        Style { width: Dimension::Percent(100), ..self }
    }

    pub fn padding(self, px: u32) -> (r: Style)
        ensures
            r == (Style { padding: px, ..self }),
    {
        Style { padding: px, ..self }
    }

    pub fn width(self, px: u32) -> (r: Style)
        ensures
            r == (Style { width: Dimension::Points(px), ..self }),
    {
        Style { width: Dimension::Points(px), ..self }
    }

    pub fn height(self, px: u32) -> (r: Style)
        ensures
            r == (Style { height: Dimension::Points(px), ..self }),
    {
        Style { height: Dimension::Points(px), ..self }
    }

    pub fn max_width(self, px: u32) -> (r: Style)
        ensures
            r == (Style { max_width: Dimension::Points(px), ..self }),
    {
        Style { max_width: Dimension::Points(px), ..self }
    }

    pub fn max_height(self, px: u32) -> (r: Style)
        ensures
            r == (Style { max_height: Dimension::Points(px), ..self }),
    {
        Style { max_height: Dimension::Points(px), ..self }
    }

    pub fn align_self(self, align: Align) -> (r: Style)
        ensures
            r == (Style { align_self: Some(align), ..self }),
    {
        Style { align_self: Some(align), ..self }
    }

    pub fn align_items(self, align: Align) -> (r: Style)
        ensures
            r == (Style { align_items: align, ..self }),
    {
        Style { align_items: align, ..self }
    }

    pub fn justify_content(self, justify: Justify) -> (r: Style)
        ensures
            r == (Style { justify_content: justify, ..self }),
    {
        Style { justify_content: justify, ..self }
    }

    /// The words that a style contributes to a structural hash: one fixed-size
    /// group per field, in declaration order.
    pub open spec fn words(self) -> Seq<u64> {
        seq![
            direction_word(self.flex_direction),
            align_self_word(self.align_self),
            align_word(self.align_items),
            justify_word(self.justify_content),
            self.flex_grow as u64,
        ] + dimension_words(self.width) + dimension_words(self.height) + dimension_words(
            self.max_width,
        ) + dimension_words(self.max_height) + seq![self.padding as u64] + dimension_words(
            self.margin_bottom,
        )
    }

    pub fn hash(&self, h: &mut Hasher)
        ensures
            final(h)@ == old(h)@ + self.words(),
    {
        let ghost start = h@;
        let d: u64 = match self.flex_direction {
            FlexDirection::Row => 0,
            FlexDirection::Column => 1,
        };
        h.write(d);
        let s: u64 = match self.align_self {
            None => 0,
            Some(a) => 1 + align_index(a),
        };
        h.write(s);
        h.write(align_index(self.align_items));
        let j: u64 = match self.justify_content {
            Justify::Start => 0,
            Justify::Center => 1,
            Justify::End => 2,
            Justify::SpaceBetween => 3,
            Justify::SpaceAround => 4,
        };
        h.write(j);
        h.write(self.flex_grow as u64);
        hash_dimension(self.width, h);
        hash_dimension(self.height, h);
        hash_dimension(self.max_width, h);
        hash_dimension(self.max_height, h);
        h.write(self.padding as u64);
        hash_dimension(self.margin_bottom, h);
        assert(h@ =~= start + self.words());
    }
}

fn align_index(a: Align) -> (r: u64)
    ensures
        r == align_word(a),
{
    match a {
        Align::Start => 0,
        Align::Center => 1,
        Align::End => 2,
        Align::Stretch => 3,
    }
}

proof fn lemma_dimension_words_injective(a: Dimension, b: Dimension)
    requires
        dimension_words(a) == dimension_words(b),
    ensures
        a == b,
{
    assert(dimension_words(a)[0] == dimension_words(b)[0]);
    assert(dimension_words(a)[1] == dimension_words(b)[1]);
}

/// Styles that differ in any field hash different words.
pub proof fn lemma_style_words_injective(a: Style, b: Style)
    requires
        a.words() == b.words(),
    ensures
        a == b,
{
    let (wa, wb) = (a.words(), b.words());
    assert(wa.len() == 16);
    assert forall|k: int| 0 <= k < 16 implies wa[k] == wb[k] by {}
    assert(wa[0] == wb[0] && wa[1] == wb[1] && wa[2] == wb[2] && wa[3] == wb[3] && wa[4] == wb[4]);
    assert(wa[13] == wb[13]);
    assert(dimension_words(a.width) =~= wa.subrange(5, 7));
    assert(dimension_words(b.width) =~= wb.subrange(5, 7));
    lemma_dimension_words_injective(a.width, b.width);
    assert(dimension_words(a.height) =~= wa.subrange(7, 9));
    assert(dimension_words(b.height) =~= wb.subrange(7, 9));
    lemma_dimension_words_injective(a.height, b.height);
    assert(dimension_words(a.max_width) =~= wa.subrange(9, 11));
    assert(dimension_words(b.max_width) =~= wb.subrange(9, 11));
    lemma_dimension_words_injective(a.max_width, b.max_width);
    assert(dimension_words(a.max_height) =~= wa.subrange(11, 13));
    assert(dimension_words(b.max_height) =~= wb.subrange(11, 13));
    lemma_dimension_words_injective(a.max_height, b.max_height);
    assert(dimension_words(a.margin_bottom) =~= wa.subrange(14, 16));
    assert(dimension_words(b.margin_bottom) =~= wb.subrange(14, 16));
    lemma_dimension_words_injective(a.margin_bottom, b.margin_bottom);
}

} // verus!
