use vstd::prelude::*;

use crate::cell::Store;
use crate::context::Context;
use crate::event::{Event, EventResponse};
use crate::id::IdPath;
use crate::modifier::ModifierNode;
use crate::node::Node;
use crate::view::{bound_in, fire_view, render_view, routes, AnyView};

verus! {

/// A view decorated by a modifier. It adds no level to the tree.
#[derive(Debug)]
pub struct Modified<T> {
    pub wrapped: T,
    pub modifier: ModifierNode,
}

impl<T> Modified<T> {
    pub fn new(wrapped: T, modifier: ModifierNode) -> (r: Modified<T>)
        ensures
            r.wrapped == wrapped,
            r.modifier == modifier,
    {
        Modified { wrapped, modifier }
    }
}

} // verus!

verus! {

impl Modified<AnyView> {
    /// The wrapped view rendered at the same context, decorated.
    pub fn render(&self, ctx: &Context, store: &Store<bool>) -> (r: Node)
        requires
            bound_in(AnyView::Modified(Box::new(*self)), store@.len()),
        ensures
            r@ == render_view(AnyView::Modified(Box::new(*self)), ctx@, store@),
        decreases self,
    {
        let inner = self.wrapped.render(ctx, store);
        Node::Modified { modifier: self.modifier.duplicate(), wrapped: Box::new(inner) }
    }

    /// Hands the event on to the wrapped view unchanged.
    pub fn fire(&self, event: &Event, path: &IdPath, ctx: &Context, store: &mut Store<bool>) -> (r:
        EventResponse)
        requires
            routes(AnyView::Modified(Box::new(*self)), path@),
            bound_in(AnyView::Modified(Box::new(*self)), old(store)@.len()),
        ensures
            final(store)@ == fire_view(AnyView::Modified(Box::new(*self)), *event, path@, old(store)@),
        decreases self,
    {
        self.wrapped.fire(event, path, ctx, store)
    }
}

} // verus!
