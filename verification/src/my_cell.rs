//! A single mutable memory slot.
//!
//! The classic cell pattern mutates the slot through shared references; here
//! the borrow discipline is enforced at the type level instead, so every
//! mutating operation takes the cell exclusively. The view of a `MyCell<T>`
//! is the value it currently holds.

use vstd::prelude::*;

verus! {

#[derive(Debug, Clone)]
pub struct MyCell<T>(T);

impl<T> View for MyCell<T> {
    type V = T;

    closed spec fn view(&self) -> T {
        self.0
    }
}

impl<T> MyCell<T> {
    /// Creates a cell holding `value`.
    pub fn new(value: T) -> (r: MyCell<T>)
        ensures
            r@ == value,
    {
        MyCell(value)
    }

    /// Overwrites the held value, destroying the old one.
    pub fn set(&mut self, value: T)
        ensures
            final(self)@ == value,
    {
        self.0 = value;
    }

    /// Swaps in `value` and returns the value held before.
    pub fn replace(&mut self, value: T) -> (r: T)
        ensures
            r == old(self)@,
            final(self)@ == value,
    {
        let mut out = value;
        core::mem::swap(&mut self.0, &mut out);
        out
    }

    /// Consumes the cell, returning the held value.
    pub fn into_inner(self) -> (r: T)
        ensures
            r == self@,
    {
        self.0
    }

    /// Exchanges the contents of two cells.
    pub fn swap(&mut self, other: &mut MyCell<T>)
        ensures
            final(self)@ == old(other)@,
            final(other)@ == old(self)@,
    {
        core::mem::swap(&mut self.0, &mut other.0);
    }

    /// A mutable reference to the held value; the cell afterwards holds
    /// whatever the caller wrote through it.
    pub fn get_mut(&mut self) -> (r: &mut T)
        ensures
            *r == old(self)@,
            final(self)@ == *final(r),
    {
        &mut self.0
    }
}

impl<T: Copy> MyCell<T> {
    /// A copy of the held value.
    pub fn get(&self) -> (r: T)
        ensures
            r == self@,
    {
        self.0
    }

    /// Replaces the held value with `f` applied to it.
    pub fn update<F: FnOnce(T) -> T>(&mut self, f: F)
        requires
            call_requires(f, (old(self)@,)),
        ensures
            call_ensures(f, (old(self)@,), final(self)@),
    {
        let old_value = self.get();
        self.set(f(old_value));
    }
}

impl<T: Default> Default for MyCell<T> {
    /// The default cell holds the element type's default value.
    fn default() -> (r: MyCell<T>)
        ensures
            call_ensures(T::default, (), r@),
    {
        MyCell(T::default())
    }
}

impl<T: Default> MyCell<T> {
    /// Takes the held value out, leaving a default value in its place.
    pub fn take(&mut self) -> (r: T)
        ensures
            r == old(self)@,
            call_ensures(T::default, (), final(self)@),
    {
        self.replace(T::default())
    }
}

} // verus!
