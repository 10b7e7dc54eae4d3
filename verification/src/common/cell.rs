use vstd::prelude::*;

verus! {

/// A plain owned cell: a value with a name for its content.
/// Aliased mutation travels by explicit hand-over in this library, so the
/// cell needs no interior mutability; it simply owns its value.
#[derive(Debug)]
pub struct ExtRefCell<T> {
    value: T,
}

impl<T> View for ExtRefCell<T> {
    type V = T;

    closed spec fn view(&self) -> T {
        self.value
    }
}

impl<T> ExtRefCell<T> {
    pub fn new(value: T) -> (r: Self)
        ensures
            r@ == value,
    {
        Self { value }
    }

    pub fn into_inner(self) -> (r: T)
        ensures
            r == self@,
    {
        self.value
    }

    pub fn get(&self) -> (r: &T)
        ensures
            *r == self@,
    {
        &self.value
    }
}

/// Swap-based access to a cell's content
pub trait ExtRefCellExt {
    type Target;

    /// Put a new value in and take the old one out
    fn replace(&mut self, value: Self::Target) -> Self::Target;
}

impl<T> ExtRefCellExt for ExtRefCell<T> {
    type Target = T;

    fn replace(&mut self, value: T) -> (r: T)
        ensures
            final(self)@ == value,
            r == old(self)@,
    {
        let mut value = value;
        core::mem::swap(&mut self.value, &mut value);
        value
    }
}

} // verus!
