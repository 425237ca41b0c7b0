use vstd::prelude::*;

verus! {

/// A value reached through its owner, read or replaced between suspension
/// points. Cooperative scheduling serialises every access, so the cell is a
/// plain owned value here.
pub struct InteriorMutability<T> {
    cell: T,
}

impl<T> View for InteriorMutability<T> {
    type V = T;

    closed spec fn view(&self) -> T {
        self.cell
    }
}

impl<T> InteriorMutability<T> {
    pub fn new(value: T) -> (r: Self)
        ensures
            r@ == value,
    {
        InteriorMutability { cell: value }
    }

    pub fn as_ref(&self) -> (r: &T)
        ensures
            *r == self@,
    {
        &self.cell
    }

    pub fn as_mut(&mut self) -> (r: &mut T)
        ensures
            *r == old(self)@,
            final(self)@ == *final(r),
    {
        &mut self.cell
    }

    /// Stores `value` and hands back what was held before.
    pub fn replace(&mut self, value: T) -> (r: T)
        ensures
            r == old(self)@,
            final(self)@ == value,
    {
        let mut value = value;
        std::mem::swap(&mut self.cell, &mut value);
        value
    }
}

} // verus!
