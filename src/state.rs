use vstd::prelude::*;

verus! {

/// Who may touch the stored value right now.
#[derive(Clone, Copy, PartialEq, Eq, Debug, Structural)]
#[non_exhaustive]
pub enum State {
    /// No guard is outstanding.
    Unlocked,
    /// Exactly one guard is outstanding.
    Locked,
    /// The last guard was released while a fault was propagating.
    Poisoned,
}

/// A cell holding a [`State`], read and overwritten as a whole.
pub struct StateCell {
    inner: State,
}

impl View for StateCell {
    type V = State;

    closed spec fn view(&self) -> State {
        self.inner
    }
}

impl StateCell {
    pub fn new(data: State) -> (r: StateCell)
        ensures
            r@ == data,
    {
        StateCell { inner: data }
    }

    pub fn get(&self) -> (r: State)
        ensures
            r == self@,
    {
        self.inner
    }

    pub fn set(&mut self, data: State)
        ensures
            final(self)@ == data,
    {
        self.inner = data;
    }
}

} // verus!
