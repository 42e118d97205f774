use vstd::prelude::*;

use crate::cell::Store;
use crate::context::Context;
use crate::event::{Event, EventResponse};
use crate::id::{Id, IdPath};
use crate::node::Node;
use crate::view::{bound_in, fire_view, render_view, routes, AnyView};

verus! {

/// The axes along which a scroll view scrolls.
#[derive(Clone, Copy, Debug, PartialEq, Eq, Hash, Structural)]
pub enum Axis {
    Horizontal,
    Vertical,
    Both,
}

impl Default for Axis {
    fn default() -> (r: Axis)
        ensures
            r == Axis::Vertical,
    {
        Axis::Vertical
    }
}

/// A scrollable container of exactly one child.
#[derive(Clone, Debug)]
pub struct ScrollView<T> {
    pub axes: Axis,
    pub show_indicators: bool,
    pub wrapped: T,
}

impl<T> ScrollView<T> {
    /// A scroll view along `axes` that shows its indicators.
    pub fn new(axes: Axis, wrapped: T) -> (r: ScrollView<T>)
        ensures
            r.axes == axes,
            r.show_indicators,
            r.wrapped == wrapped,
    {
        ScrollView { axes, show_indicators: true, wrapped }
    }

    pub fn vertical(wrapped: T) -> (r: ScrollView<T>)
        ensures
            r.axes == Axis::Vertical,
            r.show_indicators,
            r.wrapped == wrapped,
    {
        Self::new(Axis::Vertical, wrapped)
    }

    pub fn horizontal(wrapped: T) -> (r: ScrollView<T>)
        ensures
            r.axes == Axis::Horizontal,
            r.show_indicators,
            r.wrapped == wrapped,
    {
        Self::new(Axis::Horizontal, wrapped)
    }

    /// The same scroll view, showing its indicators iff `show`.
    pub fn show_indicators(self, show: bool) -> (r: ScrollView<T>)
        ensures
            r.axes == self.axes,
            r.show_indicators == show,
            r.wrapped == self.wrapped,
    {
        let mut s = self;
        s.show_indicators = show;
        s
    }
}

impl<T> From<T> for ScrollView<T> {
    fn from(wrapped: T) -> (r: ScrollView<T>) {
        Self::vertical(wrapped)
    }
}

impl<T> vstd::std_specs::convert::FromSpecImpl<T> for ScrollView<T> {
    open spec fn obeys_from_spec() -> bool {
        true
    }

    open spec fn from_spec(wrapped: T) -> ScrollView<T> {
        ScrollView { axes: Axis::Vertical, show_indicators: true, wrapped }
    }
}

} // verus!

verus! {

impl ScrollView<AnyView> {
    /// A scroll node around the child, rendered and tagged at index 0.
    pub fn render(&self, ctx: &Context, store: &Store<bool>) -> (r: Node)
        requires
            bound_in(AnyView::ScrollView(Box::new(*self)), store@.len()),
        ensures
            r@ == render_view(AnyView::ScrollView(Box::new(*self)), ctx@, store@),
        decreases self,
    {
        let inner = self.wrapped.render(&ctx.child(Id::Index(0)), store).identify(Id::Index(0));
        Node::ScrollView {
            axes: self.axes,
            show_indicators: self.show_indicators,
            wrapped: Box::new(inner),
        }
    }

    /// Hands the event to the only child; `path` must start at index 0.
    pub fn fire(&self, event: &Event, path: &IdPath, ctx: &Context, store: &mut Store<bool>) -> (r:
        EventResponse)
        requires
            routes(AnyView::ScrollView(Box::new(*self)), path@),
            bound_in(AnyView::ScrollView(Box::new(*self)), old(store)@.len()),
        ensures
            final(store)@ == fire_view(
                AnyView::ScrollView(Box::new(*self)),
                *event,
                path@,
                old(store)@,
            ),
        decreases self,
    {
        if path.is_root() {
            EventResponse::none()
        } else {
            self.wrapped.fire(event, &path.tail(), &ctx.child(Id::Index(0)), store)
        }
    }
}

} // verus!
