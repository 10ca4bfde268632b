//! A cell for values that memory-mapped hardware reads or writes.
use vstd::prelude::*;

verus! {

/// A cell holding one value of a `Copy` type.
pub struct KVolatile<T: Copy>(T);

impl<T: Copy> View for KVolatile<T> {
    type V = T;

    closed spec fn view(&self) -> T {
        self.0
    }
}

impl<T: Copy> KVolatile<T> {
    pub fn new(value: T) -> (r: KVolatile<T>)
        ensures
            r@ == value,
    {
        KVolatile(value)
    }

    pub fn read(&self) -> (r: T)
        ensures
            r == self@,
    {
        self.0
    }

    pub fn write(&mut self, value: T)
        ensures
            final(self)@ == value,
    {
        self.0 = value;
    }
}

} // verus!
