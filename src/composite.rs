use vstd::prelude::*;

use crate::cell::Store;
use crate::context::Context;
use crate::event::{Event, EventResponse};
use crate::id::{Id, IdPath};
use crate::node::Node;
use crate::view::{bound_in, fire_view, render_view, routes, AnyView};

verus! {

/// A view defined by its body: it renders as its body does, one level down,
/// at index 0.
#[derive(Debug)]
pub struct Composite {
    pub body: AnyView,
}

impl Composite {
    pub fn new(body: AnyView) -> (r: Composite)
        ensures
            r.body == body,
    {
        Composite { body }
    }

    /// The body rendered at the child context of index 0, tagged 0.
    pub fn render(&self, ctx: &Context, store: &Store<bool>) -> (r: Node)
        requires
            bound_in(AnyView::Composite(Box::new(*self)), store@.len()),
        ensures
            r@ == render_view(AnyView::Composite(Box::new(*self)), ctx@, store@),
        decreases self,
    {
        self.body.render(&ctx.child(Id::Index(0)), store).identify(Id::Index(0))
    }

    /// Hands the event to the body; `path` must start at index 0.
    pub fn fire(&self, event: &Event, path: &IdPath, ctx: &Context, store: &mut Store<bool>) -> (r:
        EventResponse)
        requires
            routes(AnyView::Composite(Box::new(*self)), path@),
            bound_in(AnyView::Composite(Box::new(*self)), old(store)@.len()),
        ensures
            final(store)@ == fire_view(
                AnyView::Composite(Box::new(*self)),
                *event,
                path@,
                old(store)@,
            ),
        decreases self,
    {
        if path.is_root() {
            EventResponse::none()
        } else {
            self.body.fire(event, &path.tail(), &ctx.child(Id::Index(0)), store)
        }
    }
}

} // verus!
