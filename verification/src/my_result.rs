//! A fallible result: either `MyOk(T)` or `MyErr(E)`.
//!
//! Every combinator's contract states which variant comes back, and from
//! which input, for both the success and the failure path.

use vstd::prelude::*;

verus! {

#[derive(Debug, Clone, PartialEq)]
pub enum MyResult<T, E> {
    MyOk(T),
    MyErr(E),
}

impl<T, E> MyResult<T, E> {
    /// True exactly when the result is a success.
    pub fn is_ok(&self) -> (r: bool)
        ensures
            r <==> (*self) is MyOk,
    {
        match self {
            MyResult::MyOk(_) => true,
            MyResult::MyErr(_) => false,
        }
    }

    /// True exactly when the result is a failure.
    pub fn is_err(&self) -> (r: bool)
        ensures
            r <==> (*self) is MyErr,
    {
        !self.is_ok()
    }

    /// Converts the success value into a standard optional value.
    pub fn ok(self) -> (r: Option<T>)
        ensures
            self matches MyResult::MyOk(v) ==> r == Some(v),
            self is MyErr ==> r is None,
    {
        match self {
            MyResult::MyOk(v) => Some(v),
            MyResult::MyErr(_) => None,
        }
    }

    /// Converts the failure value into a standard optional value.
    pub fn err(self) -> (r: Option<E>)
        ensures
            self is MyOk ==> r is None,
            self matches MyResult::MyErr(e) ==> r == Some(e),
    {
        match self {
            MyResult::MyOk(_) => None,
            MyResult::MyErr(e) => Some(e),
        }
    }

    /// Returns the success value, or `default` on failure.
    pub fn unwrap_or(self, default: T) -> (r: T)
        ensures
            self matches MyResult::MyOk(v) ==> r == v,
            self is MyErr ==> r == default,
    {
        match self {
            MyResult::MyOk(v) => v,
            MyResult::MyErr(_) => default,
        }
    }

    /// Returns the success value, or computes one from the failure value.
    pub fn unwrap_or_else<F: FnOnce(E) -> T>(self, f: F) -> (r: T)
        requires
            self matches MyResult::MyErr(e) ==> call_requires(f, (e,)),
        ensures
            self matches MyResult::MyOk(v) ==> r == v,
            self matches MyResult::MyErr(e) ==> call_ensures(f, (e,), r),
    {
        match self {
            MyResult::MyOk(v) => v,
            MyResult::MyErr(e) => f(e),
        }
    }

    /// Applies `f` to the success value, leaving a failure untouched.
    pub fn map<U, F: FnOnce(T) -> U>(self, f: F) -> (r: MyResult<U, E>)
        requires
            self matches MyResult::MyOk(v) ==> call_requires(f, (v,)),
        ensures
            self matches MyResult::MyOk(v) ==> r matches MyResult::MyOk(u) && call_ensures(
                f,
                (v,),
                u,
            ),
            self matches MyResult::MyErr(e) ==> r == MyResult::<U, E>::MyErr(e),
    {
        match self {
            MyResult::MyOk(v) => MyResult::MyOk(f(v)),
            MyResult::MyErr(e) => MyResult::MyErr(e),
        }
    }

    /// Applies `op` to the failure value, leaving a success untouched.
    pub fn map_err<F2, O: FnOnce(E) -> F2>(self, op: O) -> (r: MyResult<T, F2>)
        requires
            self matches MyResult::MyErr(e) ==> call_requires(op, (e,)),
        ensures
            self matches MyResult::MyOk(v) ==> r == MyResult::<T, F2>::MyOk(v),
            self matches MyResult::MyErr(e) ==> r matches MyResult::MyErr(e2) && call_ensures(
                op,
                (e,),
                e2,
            ),
    {
        match self {
            MyResult::MyOk(v) => MyResult::MyOk(v),
            MyResult::MyErr(e) => MyResult::MyErr(op(e)),
        }
    }

    /// Applies a result-returning `f` to the success value.
    pub fn and_then<U, F: FnOnce(T) -> MyResult<U, E>>(self, f: F) -> (r: MyResult<U, E>)
        requires
            self matches MyResult::MyOk(v) ==> call_requires(f, (v,)),
        ensures
            self matches MyResult::MyOk(v) ==> call_ensures(f, (v,), r),
            self matches MyResult::MyErr(e) ==> r == MyResult::<U, E>::MyErr(e),
    {
        match self {
            MyResult::MyOk(v) => f(v),
            MyResult::MyErr(e) => MyResult::MyErr(e),
        }
    }

    /// Converts `&MyResult<T, E>` into `MyResult<&T, &E>`.
    pub fn as_ref(&self) -> (r: MyResult<&T, &E>)
        ensures
            (*self) matches MyResult::MyOk(v) ==> r matches MyResult::MyOk(x) && *x == v,
            (*self) matches MyResult::MyErr(e) ==> r matches MyResult::MyErr(y) && *y == e,
    {
        match self {
            MyResult::MyOk(v) => MyResult::MyOk(v),
            MyResult::MyErr(e) => MyResult::MyErr(e),
        }
    }

    /// Returns the result itself on success, otherwise `other`.
    pub fn or(self, other: MyResult<T, E>) -> (r: MyResult<T, E>)
        ensures
            self is MyOk ==> r == self,
            self is MyErr ==> r == other,
    {
        match self {
            MyResult::MyOk(v) => MyResult::MyOk(v),
            MyResult::MyErr(_) => other,
        }
    }

    /// Returns the result itself on success, otherwise applies `f` to the failure.
    pub fn or_else<F: FnOnce(E) -> MyResult<T, E>>(self, f: F) -> (r: MyResult<T, E>)
        requires
            self matches MyResult::MyErr(e) ==> call_requires(f, (e,)),
        ensures
            self is MyOk ==> r == self,
            self matches MyResult::MyErr(e) ==> call_ensures(f, (e,), r),
    {
        match self {
            MyResult::MyOk(v) => MyResult::MyOk(v),
            MyResult::MyErr(e) => f(e),
        }
    }

    /// Returns `other` on success, otherwise keeps the failure.
    pub fn and<U>(self, other: MyResult<U, E>) -> (r: MyResult<U, E>)
        ensures
            self is MyOk ==> r == other,
            self matches MyResult::MyErr(e) ==> r == MyResult::<U, E>::MyErr(e),
    {
        match self {
            MyResult::MyOk(_) => other,
            MyResult::MyErr(e) => MyResult::MyErr(e),
        }
    }
}

impl<T, E> MyResult<MyResult<T, E>, E> {
    /// Removes one level of nesting.
    pub fn flatten(self) -> (r: MyResult<T, E>)
        ensures
            self matches MyResult::MyOk(inner) ==> r == inner,
            self matches MyResult::MyErr(e) ==> r == MyResult::<T, E>::MyErr(e),
    {
        match self {
            MyResult::MyOk(inner) => inner,
            MyResult::MyErr(e) => MyResult::MyErr(e),
        }
    }
}

impl<T, E: core::fmt::Debug> MyResult<T, E> {
    /// Returns the success value; callers must show the result is `MyOk`.
    pub fn unwrap(self) -> (r: T)
        requires
            self is MyOk,
        ensures
            self == MyResult::<T, E>::MyOk(r),
    {
        match self {
            MyResult::MyOk(v) => v,
            MyResult::MyErr(_) => unreached(),
        }
    }

    /// Returns the success value; callers must show the result is `MyOk`.
    /// `msg` names the caller's expectation; with the failure case excluded
    /// it is never rendered.
    pub fn expect(self, msg: &str) -> (r: T)
        requires
            self is MyOk,
        ensures
            self == MyResult::<T, E>::MyOk(r),
    {
        match self {
            MyResult::MyOk(v) => v,
            MyResult::MyErr(_) => unreached(),
        }
    }
}

} // verus!
