use vstd::prelude::*;

verus! {

/// One step of a structural address: a position among siblings, or a
/// caller-supplied stable key of a keyed collection.
#[derive(Clone, Copy, Debug, PartialEq, Eq, Hash, Structural)]
pub enum Id {
    Index(u64),
    Key(u64),
}

/// The address of a node in the composed tree: the ids of the children
/// selected on the way down from the root.
#[derive(Clone, Debug, PartialEq, Eq, Hash)]
pub struct IdPath {
    ids: Vec<Id>,
}

impl View for IdPath {
    type V = Seq<Id>;

    closed spec fn view(&self) -> Seq<Id> {
        self.ids@
    }
}

impl IdPath {
    /// The empty path, which addresses the root.
    pub fn root() -> (r: IdPath)
        ensures
            r@ == Seq::<Id>::empty(),
    {
        IdPath { ids: Vec::new() }
    }

    /// Builds a path from its ids, outermost first.
    pub fn from_ids(ids: Vec<Id>) -> (r: IdPath)
        ensures
            r@ == ids@,
    {
        IdPath { ids }
    }

    pub fn len(&self) -> (r: usize)
        ensures
            r == self@.len(),
    {
        self.ids.len()
    }

    pub fn is_root(&self) -> (r: bool)
        ensures
            r == (self@.len() == 0),
    {
        self.ids.len() == 0
    }

    /// The first id of the path, or `None` at the root.
    pub fn head(&self) -> (r: Option<Id>)
        ensures
            self@.len() == 0 ==> r.is_none(),
            self@.len() > 0 ==> r == Some(self@[0]),
    {
        if self.ids.len() == 0 {
            None
        } else {
            Some(self.ids[0])
        }
    }

    /// The path without its first id; the root stays the root.
    pub fn tail(&self) -> (r: IdPath)
        ensures
            self@.len() == 0 ==> r@ == self@,
            self@.len() > 0 ==> r@ == self@.drop_first(),
    {
        let mut ids: Vec<Id> = Vec::new();
        let n = self.ids.len();
        let mut i: usize = if n == 0 { 0 } else { 1 };
        while i < n
            invariant
                n == self@.len(),
                (if n == 0 { 0usize } else { 1usize }) <= i <= n,
                ids@ == self@.subrange(if n == 0 { 0 } else { 1 }, i as int),
            decreases n - i,
        {
            ids.push(self.ids[i]);
            i = i + 1;
        }
        proof {
            if n > 0 {
                assert(ids@ =~= self@.drop_first());
            } else {
                assert(ids@ =~= self@);
            }
        }
        IdPath { ids }
    }

    /// The path extended by one more id.
    pub fn child(&self, id: Id) -> (r: IdPath)
        ensures
            r@ == self@.push(id),
    {
        let mut ids = self.ids.clone();
        proof {
            assert(ids@ =~= self@);
        }
        ids.push(id);
        IdPath { ids }
    }

    /// The ids of the path, outermost first.
    pub fn ids(&self) -> (r: Vec<Id>)
        ensures
            r@ == self@,
    {
        let r = self.ids.clone();
        proof {
            assert(r@ =~= self@);
        }
        r
    }
}

} // verus!
