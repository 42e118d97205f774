use vstd::prelude::*;

use crate::cell::Store;
use crate::context::Context;
use crate::event::{Event, EventResponse};
use crate::id::{Id, IdPath};
use crate::node::Node;
use crate::view::{bound_in, fire_view, render_view, routes, AnyView};

verus! {

/// A view drawn with another on top of it: the primary child is addressed
/// by index 0, the overlaid one by index 1.
#[derive(Debug)]
pub struct Overlay<T, O> {
    pub wrapped: T,
    pub overlayed: O,
}

impl<T, O> Overlay<T, O> {
    pub fn new(wrapped: T, overlayed: O) -> (r: Overlay<T, O>)
        ensures
            r.wrapped == wrapped,
            r.overlayed == overlayed,
    {
        Overlay { wrapped, overlayed }
    }
}

impl Overlay<AnyView, AnyView> {
    /// An overlay node of both children, tagged 0 and 1.
    pub fn render(&self, ctx: &Context, store: &Store<bool>) -> (r: Node)
        requires
            bound_in(AnyView::Overlay(Box::new(*self)), store@.len()),
        ensures
            r@ == render_view(AnyView::Overlay(Box::new(*self)), ctx@, store@),
        decreases self,
    {
        let primary = self.wrapped.render(&ctx.child(Id::Index(0)), store).identify(Id::Index(0));
        let top = self.overlayed.render(&ctx.child(Id::Index(1)), store).identify(Id::Index(1));
        Node::Overlay { wrapped: Box::new(primary), overlayed: Box::new(top) }
    }

    /// Hands the event to the child that heads `path`.
    pub fn fire(&self, event: &Event, path: &IdPath, ctx: &Context, store: &mut Store<bool>) -> (r:
        EventResponse)
        requires
            routes(AnyView::Overlay(Box::new(*self)), path@),
            bound_in(AnyView::Overlay(Box::new(*self)), old(store)@.len()),
        ensures
            final(store)@ == fire_view(
                AnyView::Overlay(Box::new(*self)),
                *event,
                path@,
                old(store)@,
            ),
        decreases self,
    {
        match path.head() {
            None => EventResponse::none(),
            Some(Id::Index(0)) => self.wrapped.fire(
                event,
                &path.tail(),
                &ctx.child(Id::Index(0)),
                store,
            ),
            Some(_) => self.overlayed.fire(event, &path.tail(), &ctx.child(Id::Index(1)), store),
        }
    }
}

} // verus!
