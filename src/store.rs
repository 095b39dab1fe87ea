use vstd::prelude::*;

verus! {

/// The mathematical model of a [`StateStore`]: the two values it holds.
pub struct StoreState {
    pub number: i32,
    pub text: Seq<char>,
}

/// The device's state: a number and a text.
///
/// The store is owned by one party and changed through `&mut self` only, so a
/// setter's comparison and write form one unit of work and no reader can see
/// a value that is half written. A runtime that serves requests concurrently
/// shares it behind a lock.
pub struct StateStore {
    number: i32,
    text: String,
}

impl View for StateStore {
    type V = StoreState;

    closed spec fn view(&self) -> StoreState {
        StoreState { number: self.number, text: self.text@ }
    }
}

impl StateStore {
    /// A store that holds the number 0 and the empty text.
    pub fn new() -> (s: StateStore)
        ensures
            s@.number == 0,
            s@.text == Seq::<char>::empty(),
    {
        StateStore { number: 0, text: String::new() }
    }

    pub fn get_number(&self) -> (r: i32)
        ensures
            r == self@.number,
    {
        self.number
    }

    /// Stores `v` and reports whether it differs from the number held before.
    pub fn set_number(&mut self, v: i32) -> (changed: bool)
        ensures
            changed == (old(self)@.number != v),
            final(self)@.number == v,
            final(self)@.text == old(self)@.text,
    {
        let changed = self.number != v;
        if changed {
            self.number = v;
        }
        changed
    }

    /// A copy of the text held.
    pub fn get_text(&self) -> (r: String)
        ensures
            r@ == self@.text,
    {
        self.text.clone()
    }

    /// Stores `v` and reports whether it differs from the text held before.
    pub fn set_text(&mut self, v: String) -> (changed: bool)
        ensures
            changed == (old(self)@.text != v@),
            final(self)@.text == v@,
            final(self)@.number == old(self)@.number,
    {
        let changed = !(self.text == v);
        if changed {
            self.text = v;
        }
        changed
    }
}

} // verus!
