//! The shared state cell: the owner of a store's single state value.
//!
//! Exactly one live state value exists per store, and every mutation goes
//! through [`State::write`] while reads go through [`State::read`].  The
//! cell's view is the state value itself, so contracts about a store can
//! speak of `store.state@` directly.  A [`ReadonlyState`] wraps a cell and
//! offers only the reading half; effect functions receive one so that the
//! transition phase can never mutate state.

use vstd::prelude::*;

verus! {

/// Owns the single state value of a store.
pub struct State<S> {
    state: S,
}

impl<S> View for State<S> {
    type V = S;

    closed spec fn view(&self) -> S {
        self.state
    }
}

impl<S> State<S> {
    /// Wraps an initial state value in a cell.
    pub fn new(s: S) -> (cell: State<S>)
        ensures
            cell@ == s,
    {
        State { state: s }
    }

    /// Read access to the state value.
    pub fn read(&self) -> (r: &S)
        ensures
            *r == self@,
    {
        &self.state
    }

    /// Exclusive write access to the state value: the cell afterwards holds
    /// whatever the caller leaves behind the returned reference.
    pub fn write(&mut self) -> (r: &mut S)
        ensures
            *r == old(self)@,
            final(self)@ == *final(r),
    {
        &mut self.state
    }
}

/// The reading half of a state cell, handed to effect functions.
pub struct ReadonlyState<S>(State<S>);

impl<S> View for ReadonlyState<S> {
    type V = S;

    closed spec fn view(&self) -> S {
        self.0@
    }
}

impl<S> ReadonlyState<S> {
    /// Wraps a state cell, keeping only the reading half.
    pub fn new(cell: State<S>) -> (r: ReadonlyState<S>)
        ensures
            r@ == cell@,
    {
        ReadonlyState(cell)
    }

    /// Read access to the wrapped state value.
    pub fn read(&self) -> (r: &S)
        ensures
            *r == self@,
    {
        self.0.read()
    }
}

} // verus!
