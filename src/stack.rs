use vstd::prelude::*;

use crate::node::StackAxis;
use crate::cell::Store;
use crate::context::Context;
use crate::event::{Event, EventResponse};
use crate::id::{Id, IdPath};
use crate::node::Node;
use crate::view::{bound_in, fire_view, lemma_all_bound, lemma_first_index, render_list, render_view, routes, AnyView};

verus! {

/// A container that lays out its children along one axis; each child is
/// addressed by its position.
#[derive(Debug)]
pub struct Stack {
    pub axis: StackAxis,
    pub children: Vec<AnyView>,
}

/// A keyed collection: each child is addressed by its caller-supplied key,
/// so that its address survives insertions and removals around it.
#[derive(Debug)]
pub struct ForEach {
    pub keys: Vec<u64>,
    pub children: Vec<AnyView>,
}

impl Stack {
    pub fn hstack(children: Vec<AnyView>) -> (r: Stack)
        ensures
            r.axis == StackAxis::Horizontal,
            r.children == children,
    {
        Stack { axis: StackAxis::Horizontal, children }
    }

    pub fn vstack(children: Vec<AnyView>) -> (r: Stack)
        ensures
            r.axis == StackAxis::Vertical,
            r.children == children,
    {
        Stack { axis: StackAxis::Vertical, children }
    }
}

impl ForEach {
    /// The collection whose child at each position has the key at that
    /// position.
    pub fn new(keys: Vec<u64>, children: Vec<AnyView>) -> (r: ForEach)
        requires
            keys@.len() == children@.len(),
        ensures
            r.keys == keys,
            r.children == children,
    {
        ForEach { keys, children }
    }
}

} // verus!

verus! {

impl Stack {
    /// A stack node of the children, each rendered at its position.
    pub fn render(&self, ctx: &Context, store: &Store<bool>) -> (r: Node)
        requires
            bound_in(AnyView::Stack(*self), store@.len()),
        ensures
            r@ == render_view(AnyView::Stack(*self), ctx@, store@),
        decreases self,
    {
        let empty: Vec<u64> = Vec::new();
        let children = render_list(&self.children, &empty, false, ctx, store);
        Node::Stack { axis: self.axis, children }
    }

    /// Hands the event to the child at the position that heads `path`.
    pub fn fire(&self, event: &Event, path: &IdPath, ctx: &Context, store: &mut Store<bool>) -> (r:
        EventResponse)
        requires
            routes(AnyView::Stack(*self), path@),
            bound_in(AnyView::Stack(*self), old(store)@.len()),
        ensures
            final(store)@ == fire_view(AnyView::Stack(*self), *event, path@, old(store)@),
        decreases self,
    {
        match path.head() {
            None => EventResponse::none(),
            Some(Id::Index(i)) => {
                assert(path@[0] == Id::Index(i));
                assert(i < self.children@.len());
                let n = self.children.len();
                assert(i < n);
                let k = i as usize;
                proof {
                    lemma_all_bound(self.children@, store@.len(), self.children@.len());
                }
                assert(bound_in(self.children@[k as int], store@.len()));
                proof {
                    assert(decreases_to!(self.children => self.children@[k as int]));
                }
                self.children[k].fire(event, &path.tail(), &ctx.child(Id::Index(i)), store)
            },
            Some(Id::Key(_)) => EventResponse::none(),
        }
    }
}

impl ForEach {
    /// A group node of the children, each rendered at its key.
    pub fn render(&self, ctx: &Context, store: &Store<bool>) -> (r: Node)
        requires
            bound_in(AnyView::ForEach(*self), store@.len()),
        ensures
            r@ == render_view(AnyView::ForEach(*self), ctx@, store@),
        decreases self,
    {
        let children = render_list(&self.children, &self.keys, true, ctx, store);
        Node::Group { children }
    }

    /// Hands the event to the first child whose key heads `path`.
    pub fn fire(&self, event: &Event, path: &IdPath, ctx: &Context, store: &mut Store<bool>) -> (r:
        EventResponse)
        requires
            routes(AnyView::ForEach(*self), path@),
            bound_in(AnyView::ForEach(*self), old(store)@.len()),
        ensures
            final(store)@ == fire_view(AnyView::ForEach(*self), *event, path@, old(store)@),
        decreases self,
    {
        match path.head() {
            None => EventResponse::none(),
            Some(Id::Key(k)) => {
                let n = self.keys.len();
                let mut j: usize = 0;
                while j < n && self.keys[j] != k
                    invariant
                        n == self.keys@.len(),
                        j <= n,
                        forall|l: int| 0 <= l < j ==> self.keys@[l] != k,
                    decreases n - j,
                {
                    j = j + 1;
                }
                if j == n {
                    assert(!exists|i: int| 0 <= i < self.keys@.len() && self.keys@[i] == k);
                    return EventResponse::none();
                }
                proof {
                    lemma_first_index(self.keys@, k, j as int);
                }
                proof {
                    lemma_all_bound(self.children@, store@.len(), self.children@.len());
                }
                assert(bound_in(self.children@[j as int], store@.len()));
                proof {
                    assert(decreases_to!(self.children => self.children@[j as int]));
                }
                self.children[j].fire(event, &path.tail(), &ctx.child(Id::Key(k)), store)
            },
            Some(Id::Index(_)) => EventResponse::none(),
        }
    }
}

} // verus!
