use coffee_ui::{
    Align, Button, ButtonState, Column, Dimension, DrawCommand, Element, Event, FlexDirection,
    Hasher, Justify, Layout, Length, MouseCursor, Node, Point, Rectangle, State, Style,
};

fn rect(x: i32, y: i32, width: u32, height: u32) -> Rectangle {
    Rectangle { x, y, width, height }
}

fn leaf(bounds: Rectangle) -> Layout {
    Layout::new(bounds, Vec::new())
}

fn press() -> Event {
    Event::MouseInput { state: ButtonState::Pressed }
}

fn release() -> Event {
    Event::MouseInput { state: ButtonState::Released }
}

#[test]
fn rectangle_contains_is_half_open() {
    let r = rect(10, 20, 30, 40);
    assert!(r.contains(Point::new(10, 20)));
    assert!(r.contains(Point::new(39, 59)));
    assert!(!r.contains(Point::new(40, 20)));
    assert!(!r.contains(Point::new(10, 60)));
    assert!(!r.contains(Point::new(9, 30)));
}

#[test]
fn rectangle_contains_near_integer_limits() {
    let r = rect(i32::MAX - 1, 0, u32::MAX, 1);
    assert!(r.contains(Point::new(i32::MAX, 0)));
    assert!(!r.contains(Point::new(i32::MIN, 0)));
}

#[test]
fn state_starts_released() {
    assert!(!State::new().is_pressed);
}

#[test]
fn button_new_has_defaults() {
    let mut state = State::new();
    let b: Button<u32> = Button::new(&mut state, "Play");
    assert_eq!(b.label, "Play");
    assert_eq!(b.width, Length::Shrink);
    assert!(b.on_click.is_none());
}

#[test]
fn button_builders_set_fields() {
    let mut state = State::new();
    let b = Button::new(&mut state, "Quit").width(Length::Px(120)).on_click(3u32);
    assert_eq!(b.width, Length::Px(120));
    assert_eq!(b.on_click, Some(3));
}

#[test]
fn button_node_has_fixed_height() {
    let mut state = State::new();
    let b: Button<u32> = Button::new(&mut state, "A");
    let node = b.node();
    assert_eq!(node.style.height, Dimension::Points(40));
    assert_eq!(node.style.width, Dimension::Auto);
    assert_eq!(node.style.flex_grow, 0);
    assert!(node.children.is_empty());
}

#[test]
fn button_node_follows_width_policy() {
    let mut s1 = State::new();
    let fixed: Button<u32> = Button::new(&mut s1, "A").width(Length::Px(120));
    assert_eq!(fixed.node().style.width, Dimension::Points(120));
    let mut s2 = State::new();
    let fill: Button<u32> = Button::new(&mut s2, "B").width(Length::Fill);
    let style = fill.node().style;
    assert_eq!(style.flex_grow, 1);
    assert_eq!(style.width, Dimension::Auto);
}

#[test]
fn click_inside_emits_message_once() {
    let mut state = State::new();
    let mut b = Button::new(&mut state, "Go").on_click(7u32);
    let bounds = rect(0, 0, 100, 40);
    let mut messages = Vec::new();
    b.on_event(press(), bounds, Point::new(5, 5), &mut messages);
    assert!(messages.is_empty());
    b.on_event(release(), bounds, Point::new(50, 20), &mut messages);
    assert_eq!(messages, vec![7]);
    b.on_event(release(), bounds, Point::new(50, 20), &mut messages);
    assert_eq!(messages, vec![7]);
}

#[test]
fn release_outside_emits_nothing() {
    let mut state = State::new();
    let mut b = Button::new(&mut state, "Go").on_click(7u32);
    let bounds = rect(0, 0, 100, 40);
    let mut messages = Vec::new();
    b.on_event(press(), bounds, Point::new(5, 5), &mut messages);
    b.on_event(release(), bounds, Point::new(150, 20), &mut messages);
    assert!(messages.is_empty());
    assert!(!b.state.is_pressed);
}

#[test]
fn press_outside_then_release_inside_emits_nothing() {
    let mut state = State::new();
    let mut b = Button::new(&mut state, "Go").on_click(7u32);
    let bounds = rect(0, 0, 100, 40);
    let mut messages = Vec::new();
    b.on_event(press(), bounds, Point::new(500, 5), &mut messages);
    b.on_event(release(), bounds, Point::new(5, 5), &mut messages);
    assert!(messages.is_empty());
}

#[test]
fn pressed_state_persists_across_frames() {
    let mut state = State::new();
    let bounds = rect(0, 0, 100, 40);
    let mut messages = Vec::new();
    {
        let mut b = Button::new(&mut state, "Go").on_click(1u32);
        b.on_event(press(), bounds, Point::new(5, 5), &mut messages);
    }
    assert!(state.is_pressed);
    {
        let mut b = Button::new(&mut state, "Go").on_click(1u32);
        b.on_event(release(), bounds, Point::new(5, 5), &mut messages);
    }
    assert_eq!(messages, vec![1]);
}

#[test]
fn button_draw_reports_hint_and_command() {
    let mut state = State::new();
    let b: Button<u32> = Button::new(&mut state, "Hi");
    let bounds = rect(0, 0, 10, 10);
    let mut target: Vec<DrawCommand> = Vec::new();
    assert_eq!(b.draw(bounds, Point::new(3, 3), &mut target), MouseCursor::Pointer);
    assert_eq!(b.draw(bounds, Point::new(30, 3), &mut target), MouseCursor::OutOfBounds);
    assert_eq!(target.len(), 2);
    assert_eq!(target[0].label, "Hi");
    assert!(target[0].hovered);
    assert!(!target[1].hovered);
    assert_eq!(target[1].bounds, bounds);
}

#[test]
fn column_new_fills_width_vertically() {
    let c: Column<u32> = Column::new();
    assert_eq!(c.style.flex_direction, FlexDirection::Column);
    assert_eq!(c.style.width, Dimension::Percent(100));
    assert_eq!(c.spacing, 0);
    assert!(c.children.is_empty());
}

#[test]
fn column_builders_set_style() {
    let c: Column<u32> = Column::new()
        .spacing(12)
        .padding(8)
        .width(300)
        .height(200)
        .max_width(400)
        .max_height(500)
        .align_self(Align::Center)
        .align_items(Align::End)
        .justify_content(Justify::SpaceBetween);
    assert_eq!(c.spacing, 12);
    assert_eq!(c.style.padding, 8);
    assert_eq!(c.style.width, Dimension::Points(300));
    assert_eq!(c.style.height, Dimension::Points(200));
    assert_eq!(c.style.max_width, Dimension::Points(400));
    assert_eq!(c.style.max_height, Dimension::Points(500));
    assert_eq!(c.style.align_self, Some(Align::Center));
    assert_eq!(c.style.align_items, Align::End);
    assert_eq!(c.style.justify_content, Justify::SpaceBetween);
    assert_eq!(c.style.flex_direction, FlexDirection::Column);
}

#[test]
fn style_builders_leave_other_fields() {
    let s = Style::new().padding(4);
    assert_eq!(s.padding, 4);
    assert_eq!(s.width, Dimension::Auto);
    assert_eq!(s.margin_bottom, Dimension::Undefined);
    assert_eq!(s.fill_width().width, Dimension::Percent(100));
}

#[test]
fn spacing_goes_between_children_only() {
    let (mut a, mut b, mut c) = (State::new(), State::new(), State::new());
    let column: Column<u32> = Column::new()
        .spacing(10)
        .push(Element::Button(Button::new(&mut a, "a")))
        .push(Element::Button(Button::new(&mut b, "b")))
        .push(Element::Button(Button::new(&mut c, "c")));
    let node = column.node();
    assert_eq!(node.children.len(), 3);
    assert_eq!(node.children[0].style.margin_bottom, Dimension::Points(10));
    assert_eq!(node.children[1].style.margin_bottom, Dimension::Points(10));
    assert_eq!(node.children[2].style.margin_bottom, Dimension::Undefined);
}

#[test]
fn single_child_has_no_trailing_spacing() {
    let mut a = State::new();
    let column: Column<u32> =
        Column::new().spacing(25).push(Element::Button(Button::new(&mut a, "a")));
    let node = column.node();
    assert_eq!(node.children.len(), 1);
    assert_eq!(node.children[0].style.margin_bottom, Dimension::Undefined);
}

#[test]
fn empty_column_builds_leaf_node() {
    let column: Column<u32> = Column::new().spacing(25);
    let node = Element::Column(column).node();
    assert!(node.children.is_empty());
    assert_eq!(node.style.flex_direction, FlexDirection::Column);
}

#[test]
fn node_tree_has_tree_shape_at_every_depth() {
    let (mut a, mut b, mut c) = (State::new(), State::new(), State::new());
    let inner: Column<u32> = Column::new()
        .push(Element::Button(Button::new(&mut b, "b")))
        .push(Element::Button(Button::new(&mut c, "c")));
    let outer = Column::new()
        .spacing(5)
        .push(Element::Button(Button::new(&mut a, "a")))
        .push(Element::Column(inner));
    let node = Element::Column(outer).node();
    assert_eq!(node.children.len(), 2);
    assert_eq!(node.children[0].children.len(), 0);
    assert_eq!(node.children[1].children.len(), 2);
    assert_eq!(node.children[1].style.margin_bottom, Dimension::Undefined);
    assert_eq!(node.children[1].children[0].style.margin_bottom, Dimension::Points(0));
}

fn nested_layout() -> Layout {
    Layout::new(
        rect(0, 0, 200, 200),
        vec![
            leaf(rect(0, 0, 200, 40)),
            Layout::new(
                rect(0, 50, 200, 90),
                vec![leaf(rect(0, 50, 200, 40)), leaf(rect(0, 100, 200, 40))],
            ),
        ],
    )
}

#[test]
fn layout_shape_check_rejects_mismatch() {
    let (mut a, mut b) = (State::new(), State::new());
    let tree: Element<u32> = Element::Column(
        Column::new()
            .push(Element::Button(Button::new(&mut a, "a")))
            .push(Element::Button(Button::new(&mut b, "b"))),
    );
    assert!(tree.fits_layout(&Layout::new(rect(0, 0, 1, 1), vec![leaf(rect(0, 0, 1, 1)), leaf(rect(0, 0, 1, 1))])));
    assert!(!tree.fits_layout(&Layout::new(rect(0, 0, 1, 1), vec![leaf(rect(0, 0, 1, 1))])));
}

#[test]
fn event_reaches_every_widget_even_outside_all_bounds() {
    let (mut a, mut b, mut c) = (State { is_pressed: true }, State { is_pressed: true }, State { is_pressed: true });
    let mut messages: Vec<u32> = Vec::new();
    {
        let inner = Column::new()
            .push(Element::Button(Button::new(&mut b, "b").on_click(2)))
            .push(Element::Button(Button::new(&mut c, "c").on_click(3)));
        let mut tree = Element::Column(
            Column::new()
                .push(Element::Button(Button::new(&mut a, "a").on_click(1)))
                .push(Element::Column(inner)),
        );
        let layout = nested_layout();
        assert!(tree.fits_layout(&layout));
        tree.on_event(release(), &layout, Point::new(-50, -50), &mut messages);
    }
    assert!(messages.is_empty());
    assert!(!a.is_pressed);
    assert!(!b.is_pressed);
    assert!(!c.is_pressed);
}

#[test]
fn nested_click_reaches_inner_button() {
    let (mut a, mut b, mut c) = (State::new(), State::new(), State::new());
    let inner = Column::new()
        .push(Element::Button(Button::new(&mut b, "b").on_click(2u32)))
        .push(Element::Button(Button::new(&mut c, "c").on_click(3u32)));
    let mut tree = Element::Column(
        Column::new()
            .push(Element::Button(Button::new(&mut a, "a").on_click(1u32)))
            .push(Element::Column(inner)),
    );
    let layout = nested_layout();
    let mut messages = Vec::new();
    tree.on_event(press(), &layout, Point::new(10, 110), &mut messages);
    tree.on_event(Event::CursorMoved, &layout, Point::new(12, 112), &mut messages);
    tree.on_event(release(), &layout, Point::new(12, 112), &mut messages);
    assert_eq!(messages, vec![3]);
}

#[test]
fn first_child_hint_wins() {
    let (mut a, mut b) = (State::new(), State { is_pressed: true });
    let column: Column<u32> = Column::new()
        .push(Element::Button(Button::new(&mut a, "a")))
        .push(Element::Button(Button::new(&mut b, "b")));
    let layout = Layout::new(
        rect(0, 0, 100, 100),
        vec![leaf(rect(0, 0, 100, 100)), leaf(rect(0, 0, 100, 100))],
    );
    let mut target = Vec::new();
    let hint = column.draw(&layout, Point::new(5, 5), &mut target);
    assert_eq!(hint, MouseCursor::Pointer);
    assert_eq!(target.len(), 2);
}

#[test]
fn later_child_hint_used_when_first_has_none() {
    let (mut a, mut b) = (State::new(), State { is_pressed: true });
    let column: Column<u32> = Column::new()
        .push(Element::Button(Button::new(&mut a, "a")))
        .push(Element::Button(Button::new(&mut b, "b")));
    let layout = Layout::new(
        rect(0, 0, 100, 100),
        vec![leaf(rect(0, 0, 100, 10)), leaf(rect(0, 50, 100, 10))],
    );
    let mut target = Vec::new();
    assert_eq!(column.draw(&layout, Point::new(5, 55), &mut target), MouseCursor::Grabbing);
    assert_eq!(column.draw(&layout, Point::new(5, 95), &mut target), MouseCursor::OutOfBounds);
}

fn sample_hash(padding: u32, label: &str) -> u64 {
    let (mut a, mut b) = (State::new(), State::new());
    let tree: Element<u32> = Element::Column(
        Column::new()
            .padding(padding)
            .spacing(4)
            .push(Element::Button(Button::new(&mut a, label)))
            .push(Element::Button(Button::new(&mut b, "b").width(Length::Fill))),
    );
    let mut h = Hasher::new();
    tree.hash(&mut h);
    h.finish()
}

#[test]
fn identical_trees_hash_alike() {
    assert_eq!(sample_hash(3, "a"), sample_hash(3, "a"));
    assert_eq!(sample_hash(3, "a"), sample_hash(3, "other label"));
}

#[test]
fn changed_style_changes_hash() {
    assert_ne!(sample_hash(3, "a"), sample_hash(4, "a"));
}

#[test]
fn hasher_distinguishes_words() {
    let mut h1 = Hasher::new();
    h1.write(1);
    let mut h2 = Hasher::new();
    h2.write(2);
    assert_ne!(h1.finish(), h2.finish());
    assert_ne!(h1.finish(), Hasher::new().finish());
}

#[test]
fn node_constructors_keep_parts() {
    let n = Node::with_children(Style::new(), vec![Node::new(Style::new().width(5))]);
    assert_eq!(n.children.len(), 1);
    assert_eq!(n.children[0].style.width, Dimension::Points(5));
    let l = leaf(rect(1, 2, 3, 4));
    assert_eq!(l.bounds(), rect(1, 2, 3, 4));
}

#[test]
fn elements_convert_from_widgets() {
    let mut a = State::new();
    let e: Element<u32> = Element::from(Button::new(&mut a, "a"));
    assert!(matches!(e, Element::Button(_)));
    let c: Element<u32> = Column::new().spacing(3).into();
    assert!(matches!(c, Element::Column(_)));
}

#[test]
fn spacing_that_shows_in_the_nodes_changes_hash() {
    let hash_with_spacing = |spacing: u16| {
        let (mut a, mut b) = (State::new(), State::new());
        let tree: Element<u32> = Element::Column(
            Column::new()
                .spacing(spacing)
                .push(Element::Button(Button::new(&mut a, "a")))
                .push(Element::Button(Button::new(&mut b, "b"))),
        );
        let mut h = Hasher::new();
        tree.hash(&mut h);
        h.finish()
    };
    assert_eq!(hash_with_spacing(6), hash_with_spacing(6));
    assert_ne!(hash_with_spacing(6), hash_with_spacing(7));
}

#[test]
fn spacing_of_single_child_column_does_not_change_hash() {
    let hash_with_spacing = |spacing: u16| {
        let mut a = State::new();
        let tree: Element<u32> = Element::Column(
            Column::new().spacing(spacing).push(Element::Button(Button::new(&mut a, "a"))),
        );
        let mut h = Hasher::new();
        tree.hash(&mut h);
        h.finish()
    };
    assert_eq!(hash_with_spacing(6), hash_with_spacing(60));
}

#[test]
fn cursor_moved_emits_nothing_and_keeps_state() {
    let mut state = State { is_pressed: true };
    let mut b = Button::new(&mut state, "x").on_click(9u32);
    let mut messages = Vec::new();
    b.on_event(Event::CursorMoved, rect(0, 0, 10, 10), Point::new(1, 1), &mut messages);
    assert!(messages.is_empty());
    assert!(b.state.is_pressed);
}
