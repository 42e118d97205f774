use vstd::prelude::*;

use crate::id::{Id, IdPath};

verus! {

/// What a render pass or a dispatch carries down the tree: the path of the
/// view being visited.
#[derive(Clone, Debug)]
pub struct Context {
    path: IdPath,
}

impl View for Context {
    type V = Seq<Id>;

    closed spec fn view(&self) -> Seq<Id> {
        self.path@
    }
}

impl Context {
    /// The context of the root of a render pass.
    pub fn root() -> (r: Context)
        ensures
            r@ == Seq::<Id>::empty(),
    {
        Context { path: IdPath::root() }
    }

    /// The context of the child selected by `id`.
    pub fn child(&self, id: Id) -> (r: Context)
        ensures
            r@ == self@.push(id),
    {
        Context { path: self.path.child(id) }
    }

    pub fn id_path(&self) -> (r: IdPath)
        ensures
            r@ == self@,
    {
        IdPath::from_ids(self.path.ids())
    }
}

} // verus!
