use vstd::prelude::*;

use crate::event::{ButtonState, Event, MouseCursor};
use crate::geometry::{Point, Rectangle};
use crate::hasher::Hasher;
use crate::node::Node;
use crate::style::{Dimension, Length, Style};

verus! {

/// The fixed height of a button, in pixels.
pub const BUTTON_HEIGHT: u32 = 40;

/// The interaction state of a button, kept by the application between
/// frames.
pub struct State {
    pub is_pressed: bool,
}

impl State {
    pub fn new() -> (r: State)
        ensures
            !r.is_pressed,
    {
        State { is_pressed: false }
    }
}

/// A clickable leaf widget with a label.
pub struct Button<'a, M> {
    pub state: &'a mut State,
    pub label: String,
    pub width: Length,
    pub on_click: Option<M>,
}

/// What a widget hands to the renderer for one frame.
pub struct DrawCommand {
    pub bounds: Rectangle,
    pub label: String,
    pub hovered: bool,
    pub pressed: bool,
}

/// What a draw command holds: bounds, label, hovered, pressed.
pub type CommandView = (Rectangle, Seq<char>, bool, bool);

impl View for DrawCommand {
    type V = CommandView;

    open spec fn view(&self) -> CommandView {
        (self.bounds, self.label@, self.hovered, self.pressed)
    }
}

pub open spec fn command_views(cs: Seq<DrawCommand>) -> Seq<CommandView> {
    cs.map_values(|c: DrawCommand| c@)
}

impl<'a, M> Button<'a, M> {
    pub fn new(state: &'a mut State, label: &str) -> (r: Self)
        ensures
            r.pressed() == old(state).is_pressed,
            r.label@ == label@,
            r.width == Length::Shrink,
            r.on_click.is_none(),
    {
        Button { state, label: label.to_owned(), width: Length::Shrink, on_click: None }
    }

    pub fn width(self, length: Length) -> (r: Self)
        ensures
            r == (Button { width: length, ..self }),
    {
        Button { width: length, ..self }
    }

    pub fn on_click(self, msg: M) -> (r: Self)
        ensures
            r == (Button { on_click: Some(msg), ..self }),
    {
        Button { on_click: Some(msg), ..self }
    }

    /// A fixed height; `Fill` grows, `Px` fixes the width, `Shrink` leaves it
    /// to the content.
    pub open spec fn pressed(self) -> bool {
        self.state.is_pressed
    }

    pub open spec fn node_style(self) -> Style {
        let base = Style { height: Dimension::Points(BUTTON_HEIGHT), ..Style::initial() };
        match self.width {
            Length::Shrink => base,
            Length::Fill => Style { flex_grow: 1, ..base },
            Length::Px(w) => Style { width: Dimension::Points(w as u32), ..base },
        }
    }

    pub fn style(&self) -> (r: Style)
        ensures
            r == self.node_style(),
    {
        let mut style = Style::new();
        style.height = Dimension::Points(BUTTON_HEIGHT);
        match self.width {
            Length::Shrink => {},
            Length::Fill => {
                style.flex_grow = 1;
            },
            Length::Px(w) => {
                style.width = Dimension::Points(w as u32);
            },
        }
        style
    }

    pub fn node(&self) -> (r: Node)
        ensures
            r.style == self.node_style(),
            r.children@.len() == 0,
    {
        Node::new(self.style())
    }

    /// The words that the button contributes to a structural hash: those of
    /// its node, which has no children.
    pub open spec fn words(self, margin: Dimension) -> Seq<u64> {
        (Style { margin_bottom: margin, ..self.node_style() }).words() + seq![0u64]
    }

    pub fn hash_with(&self, margin: Dimension, h: &mut Hasher)
        ensures
            final(h)@ == old(h)@ + self.words(margin),
    {
        let style = Style { margin_bottom: margin, ..self.style() };
        style.hash(h);
        h.write(0);
        assert(final(h)@ =~= old(h)@ + self.words(margin));
    }

    /// Pressing records whether the cursor was over the button; releasing
    /// always clears it.
    pub open spec fn next_pressed(self, event: Event, bounds: Rectangle, cursor: Point) -> bool {
        match event {
            Event::MouseInput { state: ButtonState::Pressed } => bounds.holds(cursor),
            Event::MouseInput { state: ButtonState::Released } => false,
            Event::CursorMoved => self.pressed(),
        }
    }

    /// A release over the button after a press over it is a click.
    pub open spec fn clicked(self, event: Event, bounds: Rectangle, cursor: Point) -> bool {
        &&& event == Event::MouseInput { state: ButtonState::Released }
        &&& self.pressed()
        &&& bounds.holds(cursor)
    }

    pub open spec fn emits(self, event: Event, bounds: Rectangle, cursor: Point) -> Seq<M> {
        if self.clicked(event, bounds, cursor) && self.on_click.is_some() {
            seq![self.on_click.unwrap()]
        } else {
            Seq::empty()
        }
    }

    pub open spec fn hint(self, bounds: Rectangle, cursor: Point) -> MouseCursor {
        if !bounds.holds(cursor) {
            MouseCursor::OutOfBounds
        } else if self.pressed() {
            MouseCursor::Grabbing
        } else {
            MouseCursor::Pointer
        }
    }

    /// The command that drawing the button issues.
    pub open spec fn drawn(self, bounds: Rectangle, cursor: Point) -> CommandView {
        (bounds, self.label@, bounds.holds(cursor), self.pressed())
    }

    pub fn draw(&self, bounds: Rectangle, cursor: Point, target: &mut Vec<DrawCommand>) -> (r:
        MouseCursor)
        ensures
            r == self.hint(bounds, cursor),
            command_views(final(target)@) == command_views(old(target)@).push(
                self.drawn(bounds, cursor),
            ),
    {
        let hovered = bounds.contains(cursor);
        let pressed = self.state.is_pressed;
        target.push(DrawCommand { bounds, label: self.label.clone(), hovered, pressed });
        assert(command_views(final(target)@) =~= command_views(old(target)@).push(
            self.drawn(bounds, cursor),
        ));
        if !hovered {
            MouseCursor::OutOfBounds
        } else if pressed {
            MouseCursor::Grabbing
        } else {
            MouseCursor::Pointer
        }
    }
}

impl<'a, M: Copy> Button<'a, M> {
    pub fn on_event(
        &mut self,
        event: Event,
        bounds: Rectangle,
        cursor: Point,
        messages: &mut Vec<M>,
    )
        ensures
            final(self).pressed() == old(self).next_pressed(event, bounds, cursor),
            final(self).label == old(self).label,
            final(self).width == old(self).width,
            final(self).on_click == old(self).on_click,
            final(messages)@ == old(messages)@ + old(self).emits(event, bounds, cursor),
    {
        match event {
            Event::MouseInput { state: ButtonState::Pressed } => {
                self.state.is_pressed = bounds.contains(cursor);
            },
            Event::MouseInput { state: ButtonState::Released } => {
                let is_clicked = self.state.is_pressed && bounds.contains(cursor);
                self.state.is_pressed = false;
                if is_clicked {
                    if let Some(msg) = self.on_click {
                        messages.push(msg);
                    }
                }
            },
            Event::CursorMoved => {},
        }
        assert(final(messages)@ =~= old(messages)@ + old(self).emits(event, bounds, cursor));
    }
}

/// A press over the button never emits; the release that follows emits the
/// click message exactly once when the cursor is still over the button, and
/// nothing when it has left.
pub proof fn lemma_click_exactly_once<'a, M>(
    b: Button<'a, M>,
    pressed: Button<'a, M>,
    msg: M,
    bounds: Rectangle,
    press_at: Point,
    release_at: Point,
)
    requires
        b.on_click == Some(msg),
        bounds.holds(press_at),
        pressed.pressed() == b.next_pressed(
            Event::MouseInput { state: ButtonState::Pressed },
            bounds,
            press_at,
        ),
        pressed.on_click == b.on_click,
    ensures
        b.emits(Event::MouseInput { state: ButtonState::Pressed }, bounds, press_at) == Seq::<
            M,
        >::empty(),
        bounds.holds(release_at) ==> pressed.emits(
            Event::MouseInput { state: ButtonState::Released },
            bounds,
            release_at,
        ) == seq![msg],
        !bounds.holds(release_at) ==> pressed.emits(
            Event::MouseInput { state: ButtonState::Released },
            bounds,
            release_at,
        ) == Seq::<M>::empty(),
{
}

} // verus!
