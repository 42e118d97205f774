use vstd::prelude::*;

use crate::cell::{Binding, Store};
use crate::context::Context;
use crate::event::{Event, EventResponse};
use crate::id::IdPath;
use crate::node::{Node, NodeTree};
use crate::view::{handle, AnyView};

verus! {

/// A control that switches a bound boolean cell on and off.
#[derive(Clone, Copy, Debug)]
pub struct Toggle {
    pub is_on: Binding<bool>,
}

impl Toggle {
    pub fn new(is_on: Binding<bool>) -> (r: Toggle)
        ensures
            r.is_on == is_on,
    {
        Toggle { is_on }
    }
}

} // verus!

verus! {

impl Toggle {
    /// A toggle node that shows the current value of the bound cell.
    pub fn render(&self, _ctx: &Context, store: &Store<bool>) -> (r: Node)
        requires
            self.is_on.slot < store@.len(),
        ensures
            r@ == (NodeTree::Toggle { is_on: store@[self.is_on.slot as int] }),
    {
        Node::Toggle { is_on: self.is_on.get(store) }
    }

    /// On a toggle change, flips the bound cell; other events change nothing.
    pub fn fire(&self, event: &Event, path: &IdPath, _ctx: &Context, store: &mut Store<bool>) -> (r:
        EventResponse)
        requires
            path@.len() == 0,
            self.is_on.slot < old(store)@.len(),
        ensures
            final(store)@ == handle(AnyView::Toggle(*self), *event, old(store)@),
    {
        if let Event::ToggleChange = event {
            let current = self.is_on.get(store);
            self.is_on.set(store, !current);
        }
        EventResponse::none()
    }
}

} // verus!
