use nuit_core::cell::Store;
use nuit_core::composite::Composite;
use nuit_core::context::Context;
use nuit_core::event::{Event, EventResponse};
use nuit_core::ext::ViewExt;
use nuit_core::id::{Id, IdPath};
use nuit_core::modifier::{ModifierNode, Scalar, Vec2};
use nuit_core::node::{Node, StackAxis};
use nuit_core::overlay::Overlay;
use nuit_core::scroll_view::{Axis, ScrollView};
use nuit_core::stack::{ForEach, Stack};
use nuit_core::text::Text;
use nuit_core::toggle::Toggle;
use nuit_core::view::{dispatch, render, AnyView};

fn text(s: &str) -> AnyView {
    AnyView::Text(Text::new(s.to_string()))
}

fn text_node(s: &str) -> Node {
    Node::Text { content: s.to_string() }
}

fn tagged(id: Id, node: Node) -> Node {
    Node::Identified { id, wrapped: Box::new(node) }
}

#[test]
fn toggle_flips_bound_state_and_rerenders() {
    let mut store: Store<bool> = Store::new();
    let state = store.state(false);
    let view = AnyView::Toggle(Toggle::new(state.binding()));
    assert_eq!(render(&view, &store), Node::Toggle { is_on: false });
    let response = dispatch(&view, &Event::ToggleChange, &IdPath::root(), &mut store);
    assert_eq!(response, EventResponse::default());
    assert!(state.get(&store));
    assert_eq!(render(&view, &store), Node::Toggle { is_on: true });
}

#[test]
fn toggle_ignores_other_events() {
    let mut store: Store<bool> = Store::new();
    let state = store.state(false);
    let view = AnyView::Toggle(Toggle::new(state.binding()));
    dispatch(&view, &Event::Appear, &IdPath::root(), &mut store);
    dispatch(&view, &Event::ButtonAction, &IdPath::root(), &mut store);
    assert!(!state.get(&store));
}

#[test]
fn hstack_of_texts_dispatches_to_second_child() {
    let mut store: Store<bool> = Store::new();
    let view = AnyView::Stack(Stack::hstack(vec![text("a"), text("b")]));
    let path = IdPath::from_ids(vec![Id::Index(1)]);
    let response = dispatch(&view, &Event::Appear, &path, &mut store);
    assert_eq!(response, EventResponse::default());
    assert_eq!(store.len(), 0);
}

#[test]
fn hstack_dispatch_flips_only_the_addressed_toggle() {
    let mut store: Store<bool> = Store::new();
    let first = store.state(false);
    let second = store.state(false);
    let view = AnyView::Stack(Stack::hstack(vec![
        AnyView::Toggle(Toggle::new(first.binding())),
        AnyView::Toggle(Toggle::new(second.binding())),
    ]));
    let path = IdPath::from_ids(vec![Id::Index(1)]);
    dispatch(&view, &Event::ToggleChange, &path, &mut store);
    assert!(!first.get(&store));
    assert!(second.get(&store));
}

#[test]
fn stack_renders_children_tagged_by_position() {
    let store: Store<bool> = Store::new();
    let view = AnyView::Stack(Stack::vstack(vec![text("x"), text("y")]));
    let expected = Node::Stack {
        axis: StackAxis::Vertical,
        children: vec![tagged(Id::Index(0), text_node("x")), tagged(Id::Index(1), text_node("y"))],
    };
    assert_eq!(render(&view, &store), expected);
}

#[test]
fn rerender_without_state_change_is_identical() {
    let mut store: Store<bool> = Store::new();
    let s = store.state(true);
    let view = AnyView::Stack(Stack::hstack(vec![
        text("x"),
        AnyView::Toggle(Toggle::new(s.binding())),
        AnyView::Empty,
    ]));
    let first = render(&view, &store);
    let second = render(&view, &store);
    assert_eq!(first, second);
}

#[test]
fn keyed_children_keep_their_ids_after_removal() {
    let store: Store<bool> = Store::new();
    let before = AnyView::ForEach(ForEach::new(vec![10, 20, 30], vec![text("a"), text("b"), text("c")]));
    let after = AnyView::ForEach(ForEach::new(vec![10, 30], vec![text("a"), text("c")]));
    assert_eq!(
        render(&before, &store),
        Node::Group {
            children: vec![
                tagged(Id::Key(10), text_node("a")),
                tagged(Id::Key(20), text_node("b")),
                tagged(Id::Key(30), text_node("c")),
            ],
        }
    );
    assert_eq!(
        render(&after, &store),
        Node::Group {
            children: vec![tagged(Id::Key(10), text_node("a")), tagged(Id::Key(30), text_node("c"))],
        }
    );
}

#[test]
fn keyed_dispatch_follows_the_key() {
    let mut store: Store<bool> = Store::new();
    let a = store.state(false);
    let b = store.state(false);
    let view = AnyView::ForEach(ForEach::new(
        vec![7, 3],
        vec![AnyView::Toggle(Toggle::new(a.binding())), AnyView::Toggle(Toggle::new(b.binding()))],
    ));
    dispatch(&view, &Event::ToggleChange, &IdPath::from_ids(vec![Id::Key(3)]), &mut store);
    assert!(!a.get(&store));
    assert!(b.get(&store));
}

#[test]
fn modifiers_do_not_change_dispatch() {
    let mut store: Store<bool> = Store::new();
    let s = store.state(false);
    let inner = AnyView::Toggle(Toggle::new(s.binding()));
    let once = AnyView::Modified(Box::new(inner.hidden(false)));
    let twice = AnyView::Modified(Box::new(once.help("tip".to_string())));
    let view = AnyView::Stack(Stack::hstack(vec![text("label"), twice]));
    dispatch(&view, &Event::ToggleChange, &IdPath::from_ids(vec![Id::Index(1)]), &mut store);
    assert!(s.get(&store));
}

#[test]
fn modified_renders_at_the_same_level() {
    let store: Store<bool> = Store::new();
    let view = AnyView::Modified(Box::new(text("t").clipped()));
    assert_eq!(
        render(&view, &store),
        Node::Modified { modifier: ModifierNode::Clipped {}, wrapped: Box::new(text_node("t")) }
    );
}

#[test]
fn bindings_of_one_state_alias() {
    let mut store: Store<u32> = Store::new();
    let state = store.state(1);
    let other = store.state(5);
    let b1 = state.binding();
    let b2 = state.binding();
    b1.set(&mut store, 9);
    assert_eq!(b2.get(&store), 9);
    assert_eq!(state.get(&store), 9);
    assert_eq!(other.get(&store), 5);
    state.set(&mut store, 4);
    assert_eq!(b1.get(&store), 4);
}

#[test]
fn scroll_view_builders() {
    let s = ScrollView::new(Axis::Both, 3u8);
    assert_eq!(s.axes, Axis::Both);
    assert!(s.show_indicators);
    assert_eq!(s.wrapped, 3);
    let v = ScrollView::vertical(1u8).show_indicators(false);
    assert_eq!(v.axes, Axis::Vertical);
    assert!(!v.show_indicators);
    let h = ScrollView::horizontal(2u8);
    assert_eq!(h.axes, Axis::Horizontal);
    let f: ScrollView<u8> = ScrollView::from(4u8);
    assert_eq!(f.axes, Axis::Vertical);
    assert!(f.show_indicators);
    assert_eq!(Axis::default(), Axis::Vertical);
}

#[test]
fn scroll_view_renders_child_at_index_zero() {
    let store: Store<bool> = Store::new();
    let view = AnyView::ScrollView(Box::new(ScrollView::horizontal(text("c")).show_indicators(false)));
    assert_eq!(
        render(&view, &store),
        Node::ScrollView {
            axes: Axis::Horizontal,
            show_indicators: false,
            wrapped: Box::new(tagged(Id::Index(0), text_node("c"))),
        }
    );
}

#[test]
fn scroll_view_dispatches_to_its_child() {
    let mut store: Store<bool> = Store::new();
    let s = store.state(true);
    let view = AnyView::ScrollView(Box::new(ScrollView::vertical(AnyView::Toggle(Toggle::new(s.binding())))));
    dispatch(&view, &Event::ToggleChange, &IdPath::from_ids(vec![Id::Index(0)]), &mut store);
    assert!(!s.get(&store));
    dispatch(&view, &Event::ToggleChange, &IdPath::root(), &mut store);
    assert!(!s.get(&store));
}

#[test]
fn nested_paths_reach_deep_views() {
    let mut store: Store<bool> = Store::new();
    let s = store.state(false);
    let view = AnyView::ScrollView(Box::new(ScrollView::vertical(AnyView::Stack(Stack::vstack(vec![
        text("head"),
        AnyView::ForEach(ForEach::new(vec![42], vec![AnyView::Toggle(Toggle::new(s.binding()))])),
    ])))));
    let path = IdPath::from_ids(vec![Id::Index(0), Id::Index(1), Id::Key(42)]);
    dispatch(&view, &Event::ToggleChange, &path, &mut store);
    assert!(s.get(&store));
}

#[test]
fn id_path_decomposition() {
    let root = IdPath::root();
    assert!(root.is_root());
    assert_eq!(root.head(), None);
    assert_eq!(root.tail(), root);
    let p = root.child(Id::Index(2)).child(Id::Key(8));
    assert!(!p.is_root());
    assert_eq!(p.len(), 2);
    assert_eq!(p.head(), Some(Id::Index(2)));
    assert_eq!(p.tail().ids(), vec![Id::Key(8)]);
    assert!(p.tail().tail().is_root());
}

#[test]
fn context_child_extends_path() {
    let ctx = Context::root().child(Id::Index(0)).child(Id::Index(3));
    assert_eq!(ctx.id_path().ids(), vec![Id::Index(0), Id::Index(3)]);
    assert!(Context::root().id_path().is_root());
}

#[test]
fn node_identify_tags_node() {
    let node = text_node("n").identify(Id::Key(1));
    assert_eq!(node, tagged(Id::Key(1), text_node("n")));
}

#[test]
fn modifier_builders_carry_parameters() {
    let half = Scalar { bits: 0.5f64.to_bits() };
    let m = text("m").opacity(half);
    assert_eq!(m.modifier, ModifierNode::Opacity { opacity: half });
    let p = text("p").position(Vec2 { x: half, y: half });
    assert_eq!(p.modifier, ModifierNode::Position { position: Vec2 { x: half, y: half } });
    let t = text("t").navigation_title("Title".to_string());
    assert_eq!(t.modifier, ModifierNode::NavigationTitle { title: "Title".to_string() });
    assert_eq!(t.modifier.duplicate(), t.modifier);
    let d = text("d").disabled(true);
    assert_eq!(d.modifier, ModifierNode::Disabled { is_disabled: true });
}

#[test]
fn event_responses_combine_to_default() {
    let r = EventResponse::none().combine(EventResponse::default());
    assert_eq!(r, EventResponse::default());
}

#[test]
fn overlay_renders_both_children_tagged() {
    let store: Store<bool> = Store::new();
    let view = AnyView::Overlay(Box::new(text("under").overlay(text("over"))));
    assert_eq!(
        render(&view, &store),
        Node::Overlay {
            wrapped: Box::new(tagged(Id::Index(0), text_node("under"))),
            overlayed: Box::new(tagged(Id::Index(1), text_node("over"))),
        }
    );
}

#[test]
fn overlay_dispatches_to_the_addressed_child() {
    let mut store: Store<bool> = Store::new();
    let under = store.state(false);
    let over = store.state(false);
    let view = AnyView::Overlay(Box::new(Overlay::new(
        AnyView::Toggle(Toggle::new(under.binding())),
        AnyView::Toggle(Toggle::new(over.binding())),
    )));
    dispatch(&view, &Event::ToggleChange, &IdPath::from_ids(vec![Id::Index(1)]), &mut store);
    assert!(!under.get(&store));
    assert!(over.get(&store));
    dispatch(&view, &Event::ToggleChange, &IdPath::from_ids(vec![Id::Index(0)]), &mut store);
    assert!(under.get(&store));
    assert!(over.get(&store));
}

#[test]
fn composite_renders_body_one_level_down() {
    let store: Store<bool> = Store::new();
    let view = AnyView::Composite(Box::new(Composite::new(text("body"))));
    assert_eq!(render(&view, &store), tagged(Id::Index(0), text_node("body")));
}

#[test]
fn composite_dispatches_into_its_body() {
    let mut store: Store<bool> = Store::new();
    let s = store.state(false);
    let body = AnyView::Stack(Stack::vstack(vec![text("title"), AnyView::Toggle(Toggle::new(s.binding()))]));
    let view = AnyView::Composite(Box::new(Composite::new(body)));
    let path = Context::root().child(Id::Index(0)).child(Id::Index(1)).id_path();
    dispatch(&view, &Event::ToggleChange, &path, &mut store);
    assert!(s.get(&store));
    dispatch(&view, &Event::ToggleChange, &IdPath::root(), &mut store);
    assert!(s.get(&store));
}
