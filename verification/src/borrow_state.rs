//! The decision rules of a runtime borrow-checked cell.
//!
//! Such a cell keeps one flag: `0` when free, `n > 0` while `n` shared
//! borrows are outstanding, `-1` while one exclusive borrow is outstanding.
//! The cell itself needs interior mutability and guards that run code on
//! drop, which the verifier refuses, so the storage lives outside the
//! library; the transitions that decide when a borrow may be taken and what
//! the flag becomes are verified here, and the cell only applies them.

use crate::my_result::MyResult;
use vstd::prelude::*;

verus! {

/// The error returned when a shared borrow is refused.
#[derive(Debug, PartialEq, Eq)]
pub struct BorrowError;

/// The error returned when an exclusive borrow is refused.
#[derive(Debug, PartialEq, Eq)]
pub struct BorrowMutError;

/// Decides a shared-borrow request: refused exactly while an exclusive
/// borrow is outstanding (`flag < 0`), otherwise the count of shared
/// borrows rises by one.
pub fn acquire_shared(flag: isize) -> (r: MyResult<isize, BorrowError>)
    requires
        flag < isize::MAX,
    ensures
        flag >= 0 ==> r == MyResult::<isize, BorrowError>::MyOk((flag + 1) as isize),
        flag < 0 ==> r == MyResult::<isize, BorrowError>::MyErr(BorrowError),
{
    if flag < 0 {
        MyResult::MyErr(BorrowError)
    } else {
        MyResult::MyOk(flag + 1)
    }
}

/// Decides an exclusive-borrow request: refused exactly while any borrow is
/// outstanding (`flag != 0`), otherwise the flag marks the cell exclusively
/// borrowed.
pub fn acquire_exclusive(flag: isize) -> (r: MyResult<isize, BorrowMutError>)
    ensures
        flag == 0 ==> r == MyResult::<isize, BorrowMutError>::MyOk(-1isize),
        flag != 0 ==> r == MyResult::<isize, BorrowMutError>::MyErr(BorrowMutError),
{
    if flag != 0 {
        MyResult::MyErr(BorrowMutError)
    } else {
        MyResult::MyOk(-1)
    }
}

/// The flag after one outstanding shared borrow ends.
pub fn release_shared(flag: isize) -> (r: isize)
    requires
        flag > 0,
    ensures
        r == flag - 1,
{
    flag - 1
}

/// The flag after the outstanding exclusive borrow ends: the cell is free
/// again.
pub fn release_exclusive(flag: isize) -> (r: isize)
    requires
        flag == -1,
    ensures
        r == 0,
{
    0
}

} // verus!
