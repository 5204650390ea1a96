//! A growable, contiguous, owned buffer with an explicit growth policy.
//!
//! The buffer tracks a `length` (live elements, the view `self@`) and a
//! `capacity` (allocated slots). Capacity changes only where the contracts
//! say so: appending or inserting into a full buffer doubles it (`0 -> 1`,
//! otherwise `c -> 2 * c`), `shrink_to_fit` reduces it to the length, and
//! every other operation leaves it alone.

use vstd::arithmetic::power2::lemma2_to64;
use vstd::arithmetic::power2::lemma_pow2_pos;
use vstd::arithmetic::power2::lemma_pow2_unfold;
use vstd::arithmetic::power2::pow2;
use vstd::prelude::*;

verus! {

/// The growth policy: the capacity used when a full buffer of capacity `cap`
/// must make room for one more element.
pub open spec fn next_capacity(cap: int) -> int {
    if cap == 0 {
        1
    } else {
        2 * cap
    }
}

/// The capacity reached after `n` growth steps starting from an empty,
/// unallocated buffer.
pub open spec fn capacity_after_growths(n: nat) -> int
    decreases n,
{
    if n == 0 {
        0
    } else {
        next_capacity(capacity_after_growths((n - 1) as nat))
    }
}

pub struct MyVec<T> {
    elems: Vec<T>,
    cap: usize,
}

impl<T> View for MyVec<T> {
    type V = Seq<T>;

    closed spec fn view(&self) -> Seq<T> {
        self.elems@
    }
}

impl<T> MyVec<T> {
    /// The number of allocated slots.
    pub closed spec fn spec_capacity(&self) -> usize {
        self.cap
    }

    /// The buffer's invariant: the live elements always fit in the
    /// allocated slots.
    pub open spec fn wf(&self) -> bool {
        self@.len() <= self.spec_capacity()
    }

    /// Creates an empty buffer without allocating.
    pub fn new() -> (r: MyVec<T>)
        ensures
            r@ == Seq::<T>::empty(),
            r.spec_capacity() == 0,
            r.wf(),
    {
        MyVec { elems: Vec::new(), cap: 0 }
    }

    /// Creates an empty buffer with exactly `capacity` preallocated slots.
    pub fn with_capacity(capacity: usize) -> (r: MyVec<T>)
        ensures
            r@ == Seq::<T>::empty(),
            r.spec_capacity() == capacity,
            r.wf(),
    {
        MyVec { elems: Vec::with_capacity(capacity), cap: capacity }
    }

    /// Builds a buffer owning the elements of `elems`, sized exactly to them.
    pub fn from_vec(elems: Vec<T>) -> (r: MyVec<T>)
        ensures
            r@ == elems@,
            r.spec_capacity() == elems@.len(),
            r.wf(),
    {
        let cap = elems.len();
        MyVec { elems, cap }
    }

    /// The number of live elements.
    pub fn len(&self) -> (r: usize)
        ensures
            r == self@.len(),
    {
        self.elems.len()
    }

    /// The number of allocated slots.
    pub fn capacity(&self) -> (r: usize)
        ensures
            r == self.spec_capacity(),
    {
        self.cap
    }

    /// True exactly when the buffer holds no elements.
    pub fn is_empty(&self) -> (r: bool)
        ensures
            r <==> self@.len() == 0,
    {
        self.elems.is_empty()
    }

    /// Doubles the capacity (`0 -> 1`, otherwise `c -> 2 * c`), keeping the
    /// elements. Aborts, as allocation failure always does here, if the
    /// allocator cannot satisfy the request.
    fn grow(&mut self)
        requires
            old(self).wf(),
            next_capacity(old(self).spec_capacity() as int) <= usize::MAX,
        ensures
            final(self)@ == old(self)@,
            final(self).spec_capacity() == next_capacity(old(self).spec_capacity() as int),
            final(self).wf(),
    {
        let new_cap: usize = if self.cap == 0 {
            1
        } else {
            self.cap * 2
        };
        // make the backing storage really hold `new_cap` slots
        self.elems.reserve(new_cap - self.elems.len());
        self.cap = new_cap;
    }

    /// Grows exactly when the buffer is full, so that one more element fits.
    fn grow_if_needed(&mut self)
        requires
            old(self).wf(),
            old(self)@.len() == old(self).spec_capacity() ==> next_capacity(
                old(self).spec_capacity() as int,
            ) <= usize::MAX,
        ensures
            final(self)@ == old(self)@,
            final(self)@.len() < final(self).spec_capacity(),
            final(self).spec_capacity() == if old(self)@.len() == old(self).spec_capacity() {
                next_capacity(old(self).spec_capacity() as int)
            } else {
                old(self).spec_capacity() as int
            },
            final(self).wf(),
    {
        if self.elems.len() == self.cap {
            self.grow();
        }
    }

    /// Appends `value` at the end; grows (doubling) exactly when the buffer
    /// was full.
    pub fn push(&mut self, value: T)
        requires
            old(self).wf(),
            old(self)@.len() == old(self).spec_capacity() ==> next_capacity(
                old(self).spec_capacity() as int,
            ) <= usize::MAX,
        ensures
            final(self)@ == old(self)@.push(value),
            final(self).spec_capacity() == if old(self)@.len() == old(self).spec_capacity() {
                next_capacity(old(self).spec_capacity() as int)
            } else {
                old(self).spec_capacity() as int
            },
            final(self).wf(),
    {
        self.grow_if_needed();
        self.elems.push(value);
    }

    /// Removes and returns the last element; on an empty buffer it returns
    /// `None` and changes nothing. The capacity never shrinks.
    pub fn pop(&mut self) -> (r: Option<T>)
        requires
            old(self).wf(),
        ensures
            old(self)@.len() == 0 ==> r is None && final(self)@ == old(self)@,
            old(self)@.len() > 0 ==> r == Some(old(self)@.last()) && final(self)@ == old(
                self,
            )@.drop_last(),
            final(self).spec_capacity() == old(self).spec_capacity(),
            final(self).wf(),
    {
        self.elems.pop()
    }

    /// Inserts `value` at position `index`, shifting the elements from
    /// `index` on one slot to the right; grows (doubling) exactly when the
    /// buffer was full. `index == len` appends.
    pub fn insert(&mut self, index: usize, value: T)
        requires
            old(self).wf(),
            index <= old(self)@.len(),
            old(self)@.len() == old(self).spec_capacity() ==> next_capacity(
                old(self).spec_capacity() as int,
            ) <= usize::MAX,
        ensures
            final(self)@ == old(self)@.insert(index as int, value),
            final(self).spec_capacity() == if old(self)@.len() == old(self).spec_capacity() {
                next_capacity(old(self).spec_capacity() as int)
            } else {
                old(self).spec_capacity() as int
            },
            final(self).wf(),
    {
        self.grow_if_needed();
        self.elems.insert(index, value);
    }

    /// Removes and returns the element at `index`, shifting the elements
    /// after it one slot to the left. The capacity is unchanged.
    pub fn remove(&mut self, index: usize) -> (r: T)
        requires
            old(self).wf(),
            index < old(self)@.len(),
        ensures
            r == old(self)@[index as int],
            final(self)@ == old(self)@.remove(index as int),
            final(self).spec_capacity() == old(self).spec_capacity(),
            final(self).wf(),
    {
        self.elems.remove(index)
    }

    /// Destroys all live elements; the capacity is unchanged.
    pub fn clear(&mut self)
        requires
            old(self).wf(),
        ensures
            final(self)@ == Seq::<T>::empty(),
            final(self).spec_capacity() == old(self).spec_capacity(),
            final(self).wf(),
    {
        self.elems.clear();
    }

    /// Reduces the capacity to exactly the length (releasing the whole
    /// allocation when the buffer is empty). The elements are unchanged.
    pub fn shrink_to_fit(&mut self)
        requires
            old(self).wf(),
        ensures
            final(self)@ == old(self)@,
            final(self).spec_capacity() == old(self)@.len(),
            final(self).wf(),
    {
        self.cap = self.elems.len();
    }

    /// A reference to the element at `index`.
    pub fn index(&self, index: usize) -> (r: &T)
        requires
            index < self@.len(),
        ensures
            *r == self@[index as int],
    {
        &self.elems[index]
    }

    /// A mutable reference to the element at `index`; the buffer afterwards
    /// holds whatever the caller wrote through it.
    pub fn index_mut(&mut self, index: usize) -> (r: &mut T)
        requires
            old(self).wf(),
            index < old(self)@.len(),
        ensures
            *r == old(self)@[index as int],
            final(self)@ == old(self)@.update(index as int, *final(r)),
            final(self).spec_capacity() == old(self).spec_capacity(),
            final(self).wf(),
    {
        &mut self.elems[index]
    }

    /// A read-only view of exactly the live range.
    pub fn as_slice(&self) -> (r: &[T])
        ensures
            r@ == self@,
    {
        self.elems.as_slice()
    }

    /// A mutable view of exactly the live range; the buffer afterwards holds
    /// whatever the caller wrote through it. Neither length nor capacity can
    /// change through the view.
    pub fn as_mut_slice(&mut self) -> (r: &mut [T])
        ensures
            r@ == old(self)@,
            final(self)@ == final(r)@,
            final(self).spec_capacity() == old(self).spec_capacity(),
    {
        self.elems.as_mut_slice()
    }

    /// Consumes the buffer, handing its elements (and the duty to destroy
    /// the unconsumed ones) to an iterator.
    pub fn into_iter(self) -> (r: MyVecIntoIter<T>)
        ensures
            r@ == self@,
    {
        MyVecIntoIter { elems: self.elems }
    }
}

/// Relies on std's `Debug` formatting of slices, which renders the elements
/// as a bracketed, comma-separated list. Nothing is assumed of the text.
#[verifier::external_body]
fn format_elements<T: core::fmt::Debug>(s: &[T]) -> String {
    format!("{:?}", s)
}

impl<T: core::fmt::Debug> MyVec<T> {
    /// Renders the live elements as an ordered bracketed list of their
    /// representations.
    pub fn debug_format(&self) -> String {
        format_elements(self.as_slice())
    }
}

impl<T: Clone> MyVec<T> {
    /// Builds a buffer of `count` clones of `value`, equivalent to `count`
    /// pushes into a buffer preallocated for exactly `count` elements.
    pub fn repeat(value: &T, count: usize) -> (r: MyVec<T>)
        ensures
            r@.len() == count,
            forall|i: int| 0 <= i < count ==> cloned::<T>(*value, #[trigger] r@[i]),
            r.spec_capacity() == count,
            r.wf(),
    {
        let mut r: MyVec<T> = MyVec::with_capacity(count);
        let mut n: usize = 0;
        while n < count
            invariant
                r@.len() == n,
                n <= count,
                forall|i: int| 0 <= i < n ==> cloned::<T>(*value, #[trigger] r@[i]),
                r.spec_capacity() == count,
                r.wf(),
            decreases count - n,
        {
            r.push(value.clone());
            n = n + 1;
        }
        r
    }
}

impl<T> Default for MyVec<T> {
    /// The default buffer is empty and unallocated.
    fn default() -> (r: Self)
        ensures
            r@ == Seq::<T>::empty(),
            r.spec_capacity() == 0,
            r.wf(),
    {
        MyVec::new()
    }
}

impl<T: Clone> Clone for MyVec<T> {
    /// Deep copy: clones every live element, allocating exactly the length.
    /// The copy owns its own storage, so mutating either buffer afterwards
    /// never affects the other.
    fn clone(&self) -> (r: Self)
        ensures
            r@.len() == self@.len(),
            forall|i: int| 0 <= i < self@.len() ==> cloned::<T>(self@[i], #[trigger] r@[i]),
            r.spec_capacity() == self@.len(),
            r.wf(),
    {
        let mut r: MyVec<T> = MyVec::with_capacity(self.elems.len());
        let mut n: usize = 0;
        while n < self.elems.len()
            invariant
                r@.len() == n,
                n <= self@.len(),
                forall|i: int| 0 <= i < n ==> cloned::<T>(self@[i], #[trigger] r@[i]),
                r.spec_capacity() == self@.len(),
                r.wf(),
            decreases self@.len() - n,
        {
            r.push(self.elems[n].clone());
            n = n + 1;
        }
        r
    }
}

/// An iterator that owns what is left of a consumed buffer: its view is the
/// sequence of elements not yet produced, in production order. Discarding the
/// iterator drops exactly those elements, so over the buffer's whole life each
/// element is destroyed exactly once.
pub struct MyVecIntoIter<T> {
    elems: Vec<T>,
}

impl<T> View for MyVecIntoIter<T> {
    type V = Seq<T>;

    closed spec fn view(&self) -> Seq<T> {
        self.elems@
    }
}

impl<T> MyVecIntoIter<T> {
    /// Produces the next element, transferring its ownership to the caller;
    /// once exhausted it returns `None` forever.
    pub fn next(&mut self) -> (r: Option<T>)
        ensures
            old(self)@.len() == 0 ==> r is None && final(self)@ == old(self)@,
            old(self)@.len() > 0 ==> r == Some(old(self)@.first()) && final(self)@ == old(
                self,
            )@.drop_first(),
    {
        if self.elems.is_empty() {
            None
        } else {
            let v = self.elems.remove(0);
            proof {
                assert(self.elems@ =~= old(self)@.drop_first());
            }
            Some(v)
        }
    }

    /// Exact bounds on how many elements are still to come.
    pub fn size_hint(&self) -> (r: (usize, Option<usize>))
        ensures
            r.0 == self@.len(),
            r.1 == Some(r.0),
    {
        let remaining = self.elems.len();
        (remaining, Some(remaining))
    }
}

/// Pushing `x` and then popping undoes the push: the pop yields exactly `x`
/// and the remaining elements are the original sequence. Stated over the
/// buffer's view, which `push` extends with `x` and `pop` splits into
/// `last` and `drop_last`.
pub proof fn lemma_push_then_pop<T>(s: Seq<T>, x: T)
    ensures
        s.push(x).len() == s.len() + 1,
        s.push(x).last() == x,
        s.push(x).drop_last() == s,
{
    assert(s.push(x).drop_last() =~= s);
}

/// Removal is insertion's left inverse: after `insert(i, v)` the element at
/// `i` is `v`, the elements around it are the original sequence split at `i`,
/// and `remove(i)` restores the original sequence exactly.
pub proof fn lemma_remove_after_insert<T>(s: Seq<T>, i: int, v: T)
    requires
        0 <= i <= s.len(),
    ensures
        s.insert(i, v).len() == s.len() + 1,
        s.insert(i, v)[i] == v,
        forall|j: int| 0 <= j < i ==> #[trigger] s.insert(i, v)[j] == s[j],
        forall|j: int| i <= j < s.len() ==> #[trigger] s.insert(i, v)[j + 1] == s[j],
        s.insert(i, v).remove(i) == s,
{
    assert(s.insert(i, v).remove(i) =~= s);
}

/// The doubling schedule: starting from an unallocated buffer, the capacities
/// reached by successive growth steps are exactly `0, 1, 2, 4, 8, ...` — after
/// `n` growths the capacity is `2^(n-1)`.
pub proof fn lemma_doubling_schedule(n: nat)
    ensures
        capacity_after_growths(n) == if n == 0 {
            0int
        } else {
            pow2((n - 1) as nat) as int
        },
    decreases n,
{
    if n > 0 {
        lemma_doubling_schedule((n - 1) as nat);
        if n == 1 {
            lemma2_to64();
        } else {
            lemma_pow2_pos((n - 2) as nat);
            lemma_pow2_unfold((n - 1) as nat);
        }
    }
}

} // verus!
