//! An optional value: either `MySome(T)` or `MyNone`.
//!
//! Mirrors the shape of the standard optional type; every combinator carries a
//! contract that pins down exactly which variant comes back and what it holds.

use vstd::prelude::*;

verus! {

#[derive(Debug, Clone, PartialEq)]
pub enum MyOption<T> {
    MySome(T),
    MyNone,
}

impl<T> MyOption<T> {
    /// True exactly when the option holds a value.
    pub fn is_some(&self) -> (r: bool)
        ensures
            r <==> (*self) is MySome,
    {
        match self {
            MyOption::MySome(_) => true,
            MyOption::MyNone => false,
        }
    }

    /// True exactly when the option holds nothing.
    pub fn is_none(&self) -> (r: bool)
        ensures
            r <==> (*self) is MyNone,
    {
        !self.is_some()
    }

    /// Returns the contained value; callers must show the option is `MySome`.
    pub fn unwrap(self) -> (r: T)
        requires
            self is MySome,
        ensures
            self == MyOption::MySome(r),
    {
        match self {
            MyOption::MySome(val) => val,
            MyOption::MyNone => unreached(),
        }
    }

    /// Returns the contained value, or `or` if there is none.
    pub fn unwrap_or(self, or: T) -> (r: T)
        ensures
            self matches MyOption::MySome(val) ==> r == val,
            self is MyNone ==> r == or,
    {
        match self {
            MyOption::MySome(val) => val,
            MyOption::MyNone => or,
        }
    }

    /// Returns the contained value, or the result of calling `f`.
    pub fn unwrap_or_else<F: FnOnce() -> T>(self, f: F) -> (r: T)
        requires
            self is MyNone ==> call_requires(f, ()),
        ensures
            self matches MyOption::MySome(val) ==> r == val,
            self is MyNone ==> call_ensures(f, (), r),
    {
        match self {
            MyOption::MySome(val) => val,
            MyOption::MyNone => f(),
        }
    }

    /// Applies `f` to the contained value, if any.
    pub fn map<U, F: FnOnce(T) -> U>(self, f: F) -> (r: MyOption<U>)
        requires
            self matches MyOption::MySome(x) ==> call_requires(f, (x,)),
        ensures
            self is MyNone ==> r is MyNone,
            self matches MyOption::MySome(x) ==> r matches MyOption::MySome(y)
                && call_ensures(f, (x,), y),
    {
        match self {
            MyOption::MySome(x) => MyOption::MySome(f(x)),
            MyOption::MyNone => MyOption::MyNone,
        }
    }

    /// Applies an option-returning `f` to the contained value, if any.
    pub fn and_then<U, F: FnOnce(T) -> MyOption<U>>(self, f: F) -> (r: MyOption<U>)
        requires
            self matches MyOption::MySome(x) ==> call_requires(f, (x,)),
        ensures
            self is MyNone ==> r is MyNone,
            self matches MyOption::MySome(x) ==> call_ensures(f, (x,), r),
    {
        match self {
            MyOption::MySome(x) => f(x),
            MyOption::MyNone => MyOption::MyNone,
        }
    }

    /// Keeps the contained value only when `predicate` accepts it.
    pub fn filter<P: FnOnce(&T) -> bool>(self, predicate: P) -> (r: MyOption<T>)
        requires
            self matches MyOption::MySome(x) ==> call_requires(predicate, (&x,)),
        ensures
            self is MyNone ==> r is MyNone,
            self matches MyOption::MySome(x) ==> {
                ||| r == self && call_ensures(predicate, (&x,), true)
                ||| r is MyNone && call_ensures(predicate, (&x,), false)
            },
    {
        match self {
            MyOption::MySome(x) => if predicate(&x) {
                MyOption::MySome(x)
            } else {
                MyOption::MyNone
            },
            MyOption::MyNone => MyOption::MyNone,
        }
    }

    /// Converts `&MyOption<T>` into `MyOption<&T>`.
    pub fn as_ref(&self) -> (r: MyOption<&T>)
        ensures
            (*self) is MyNone ==> r is MyNone,
            (*self) matches MyOption::MySome(x) ==> r matches MyOption::MySome(y) && *y == x,
    {
        match self {
            MyOption::MySome(x) => MyOption::MySome(x),
            MyOption::MyNone => MyOption::MyNone,
        }
    }

    /// Takes the value out, leaving `MyNone` in its place.
    pub fn take(&mut self) -> (r: MyOption<T>)
        ensures
            r == *old(self),
            *final(self) is MyNone,
    {
        let mut out = MyOption::MyNone;
        core::mem::swap(self, &mut out);
        out
    }

    /// Returns the option itself when `MySome`, otherwise `other`.
    pub fn or(self, other: MyOption<T>) -> (r: MyOption<T>)
        ensures
            self is MySome ==> r == self,
            self is MyNone ==> r == other,
    {
        match self {
            MyOption::MySome(x) => MyOption::MySome(x),
            MyOption::MyNone => other,
        }
    }

    /// Returns the option itself when `MySome`, otherwise the result of `f`.
    pub fn or_else<F: FnOnce() -> MyOption<T>>(self, f: F) -> (r: MyOption<T>)
        requires
            self is MyNone ==> call_requires(f, ()),
        ensures
            self is MySome ==> r == self,
            self is MyNone ==> call_ensures(f, (), r),
    {
        match self {
            MyOption::MySome(x) => MyOption::MySome(x),
            MyOption::MyNone => f(),
        }
    }
}

impl<T, U> MyOption<(T, U)> {
    /// Splits an optional pair into a pair of options.
    pub fn unzip(self) -> (r: (MyOption<T>, MyOption<U>))
        ensures
            self matches MyOption::MySome(p) ==> r == (
                MyOption::MySome(p.0),
                MyOption::MySome(p.1),
            ),
            self is MyNone ==> r.0 is MyNone && r.1 is MyNone,
    {
        match self {
            MyOption::MySome((a, b)) => (MyOption::MySome(a), MyOption::MySome(b)),
            MyOption::MyNone => (MyOption::MyNone, MyOption::MyNone),
        }
    }
}

impl<T> MyOption<MyOption<T>> {
    /// Removes one level of nesting.
    pub fn flatten(self) -> (r: MyOption<T>)
        ensures
            self matches MyOption::MySome(inner) ==> r == inner,
            self is MyNone ==> r is MyNone,
    {
        match self {
            MyOption::MySome(inner) => inner,
            MyOption::MyNone => MyOption::MyNone,
        }
    }
}

/// Pairs two options up; the result holds a value only when both do.
pub fn zip<T, U>(a: MyOption<T>, b: MyOption<U>) -> (r: MyOption<(T, U)>)
    ensures
        a is MySome && b is MySome ==> r == MyOption::MySome((a->0, b->0)),
        a is MyNone || b is MyNone ==> r is MyNone,
{
    match (a, b) {
        (MyOption::MySome(x), MyOption::MySome(y)) => MyOption::MySome((x, y)),
        _ => MyOption::MyNone,
    }
}

} // verus!
