use std::marker::PhantomData;

use vstd::prelude::*;

verus! {

/// The storage of every reactive cell of a composition. A cell is created by
/// `state` and lives as long as the store.
#[derive(Clone, Debug)]
pub struct Store<T> {
    cells: Vec<T>,
}

/// The owning handle of one cell of a `Store<T>`.
#[derive(Debug)]
pub struct State<T> {
    pub slot: usize,
    pub marker: PhantomData<T>,
}

/// A read/write handle to a cell owned by a `State<T>`; many bindings may
/// alias one cell.
#[derive(Debug)]
pub struct Binding<T> {
    pub slot: usize,
    pub marker: PhantomData<T>,
}

impl<T> Clone for State<T> {
    fn clone(&self) -> (r: State<T>)
        ensures
            r.slot == self.slot,
    {
        State { slot: self.slot, marker: PhantomData }
    }
}

impl<T> Copy for State<T> {}

impl<T> Clone for Binding<T> {
    fn clone(&self) -> (r: Binding<T>)
        ensures
            r.slot == self.slot,
    {
        Binding { slot: self.slot, marker: PhantomData }
    }
}

impl<T> Copy for Binding<T> {}

impl<T> View for Store<T> {
    type V = Seq<T>;

    closed spec fn view(&self) -> Seq<T> {
        self.cells@
    }
}

impl<T: Copy> Store<T> {
    pub fn new() -> (r: Store<T>)
        ensures
            r@ == Seq::<T>::empty(),
    {
        Store { cells: Vec::new() }
    }

    pub fn len(&self) -> (r: usize)
        ensures
            r == self@.len(),
    {
        self.cells.len()
    }

    /// Creates a cell holding `initial` and returns its owner.
    pub fn state(&mut self, initial: T) -> (r: State<T>)
        ensures
            final(self)@ == old(self)@.push(initial),
            r.slot == old(self)@.len(),
    {
        let slot = self.cells.len();
        self.cells.push(initial);
        State { slot, marker: PhantomData }
    }

    fn read(&self, slot: usize) -> (r: T)
        requires
            slot < self@.len(),
        ensures
            r == self@[slot as int],
    {
        self.cells[slot]
    }

    fn write(&mut self, slot: usize, value: T)
        requires
            slot < old(self)@.len(),
        ensures
            final(self)@ == old(self)@.update(slot as int, value),
    {
        self.cells.set(slot, value);
    }
}

/// `b` aliases the cell that `s` owns.
pub open spec fn aliases<T>(b: Binding<T>, s: State<T>) -> bool {
    b.slot == s.slot
}

impl<T: Copy> State<T> {
    /// A binding to the cell that this state owns.
    pub fn binding(&self) -> (r: Binding<T>)
        ensures
            aliases(r, *self),
    {
        Binding { slot: self.slot, marker: PhantomData }
    }

    pub fn get(&self, store: &Store<T>) -> (r: T)
        requires
            self.slot < store@.len(),
        ensures
            r == store@[self.slot as int],
    {
        store.read(self.slot)
    }

    /// Replaces the value of the cell; no other cell changes.
    pub fn set(&self, store: &mut Store<T>, value: T)
        requires
            self.slot < old(store)@.len(),
        ensures
            final(store)@ == old(store)@.update(self.slot as int, value),
    {
        store.write(self.slot, value)
    }
}

impl<T: Copy> Binding<T> {
    pub fn get(&self, store: &Store<T>) -> (r: T)
        requires
            self.slot < store@.len(),
        ensures
            r == store@[self.slot as int],
    {
        store.read(self.slot)
    }

    /// Replaces the value of the aliased cell; no other cell changes.
    pub fn set(&self, store: &mut Store<T>, value: T)
        requires
            self.slot < old(store)@.len(),
        ensures
            final(store)@ == old(store)@.update(self.slot as int, value),
    {
        store.write(self.slot, value)
    }
}

} // verus!
