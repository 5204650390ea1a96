//! An owned heap cell: exclusive ownership of one heap-allocated value.
//!
//! The view of a `MyBox<T>` is simply the value it holds; every operation's
//! contract is stated against that value.

use vstd::prelude::*;

verus! {

#[derive(Debug)]
pub struct MyBox<T>(Box<T>);

impl<T> View for MyBox<T> {
    type V = T;

    closed spec fn view(&self) -> T {
        *self.0
    }
}

impl<T> MyBox<T> {
    /// Places `value` on the heap. Aborts, as allocation failure always does
    /// here, if the allocator cannot satisfy the request.
    pub fn new(value: T) -> (r: MyBox<T>)
        ensures
            r@ == value,
    {
        MyBox(Box::new(value))
    }

    /// Consumes the box, returning the value it held.
    pub fn into_inner(self) -> (r: T)
        ensures
            r == self@,
    {
        *self.0
    }

    /// A reference to the held value.
    pub fn get(&self) -> (r: &T)
        ensures
            *r == self@,
    {
        &self.0
    }

    /// A mutable reference to the held value; the box afterwards holds
    /// whatever the caller wrote through it.
    pub fn get_mut(&mut self) -> (r: &mut T)
        ensures
            *r == old(self)@,
            final(self)@ == *final(r),
    {
        &mut self.0
    }

    /// Applies `f` to the held value, boxing the result.
    pub fn map<U, F: FnOnce(T) -> U>(self, f: F) -> (r: MyBox<U>)
        requires
            call_requires(f, (self@,)),
        ensures
            call_ensures(f, (self@,), r@),
    {
        let value = self.into_inner();
        MyBox::new(f(value))
    }
}

impl<T: Clone> Clone for MyBox<T> {
    /// Deep copy: the new box holds a clone of the held value.
    fn clone(&self) -> (r: Self)
        ensures
            cloned::<T>(self@, r@),
    {
        MyBox(Box::new((*self.0).clone()))
    }
}

} // verus!
