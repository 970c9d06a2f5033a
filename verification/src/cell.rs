use vstd::prelude::*;

verus! {

/// A minimal storage cell: it owns exactly one value, hands out copies of
/// it, and overwrites it in place. The cell keeps no tracking state of its
/// own; any access policy is the business of the containers built on top
/// of it.
pub struct MyCell<T> {
    value: T,
}

impl<T> MyCell<T> {
    /// The value currently stored in the cell.
    pub closed spec fn value(&self) -> T {
        self.value
    }

    /// Constructs a cell owning `value`.
    pub fn new(value: T) -> (cell: Self)
        ensures
            cell.value() == value,
    {
        MyCell { value }
    }

    /// Returns a copy of the current interior value.
    pub fn get(&self) -> (v: T) where T: Copy
        ensures
            v == self.value(),
    {
        self.value
    }

    /// Overwrites the interior value in place.
    pub fn set(&mut self, value: T)
        ensures
            final(self).value() == value,
    {
        self.value = value;
    }

    /// A read-only view of the interior value, without copying.
    pub fn read(&self) -> (v: &T)
        ensures
            *v == self.value(),
    {
        &self.value
    }
}

} // verus!
