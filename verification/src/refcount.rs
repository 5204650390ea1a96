//! The bookkeeping rules of a single-threaded reference-counted pointer.
//!
//! Such a pointer keeps a strong count and a weak count (the strong handles
//! share one implicit weak reference). The pointer itself lives on raw
//! pointers and interior-mutable counts, which the verifier refuses, so the
//! storage lives outside the library; the transitions that decide when the
//! value is destroyed, when the allocation is released, and what the counts
//! become are verified here, and the pointer only applies them.

use vstd::prelude::*;

verus! {

/// What must happen when a strong handle goes away.
#[derive(Debug, PartialEq, Eq)]
pub struct StrongDropStep {
    /// The value must be destroyed now: this was the last strong handle.
    pub destroy_value: bool,
    /// The allocation must be released now: no weak handle outlives it.
    pub release_allocation: bool,
    /// The strong count left behind.
    pub strong_after: usize,
    /// The weak count left behind.
    pub weak_after: usize,
}

/// What must happen when a weak handle goes away.
#[derive(Debug, PartialEq, Eq)]
pub struct WeakDropStep {
    /// The allocation must be released now: nothing else points at it.
    pub release_allocation: bool,
    /// The weak count left behind.
    pub weak_after: usize,
}

/// Decides a strong handle's departure: the value dies with the last strong
/// handle, which also gives up the strong handles' shared implicit weak
/// reference; the allocation is released once no weak reference remains.
pub fn strong_drop_step(strong: usize, weak: usize) -> (r: StrongDropStep)
    requires
        1 <= strong,
        1 <= weak,
    ensures
        r.destroy_value == (strong == 1),
        r.release_allocation == (strong == 1 && weak == 1),
        r.strong_after == strong - 1,
        r.weak_after == if strong == 1 {
            weak - 1
        } else {
            weak as int
        },
{
    if strong == 1 {
        StrongDropStep {
            destroy_value: true,
            release_allocation: weak == 1,
            strong_after: 0,
            weak_after: weak - 1,
        }
    } else {
        StrongDropStep {
            destroy_value: false,
            release_allocation: false,
            strong_after: strong - 1,
            weak_after: weak,
        }
    }
}

/// Decides a weak handle's departure: the allocation is released once the
/// last weak reference goes and no strong handle is left.
pub fn weak_drop_step(strong: usize, weak: usize) -> (r: WeakDropStep)
    requires
        1 <= weak,
    ensures
        r.release_allocation == (weak == 1 && strong == 0),
        r.weak_after == weak - 1,
{
    WeakDropStep { release_allocation: weak == 1 && strong == 0, weak_after: weak - 1 }
}

/// Decides an upgrade request from a weak handle: it yields a new strong
/// handle (raising the strong count) exactly while the value is still alive.
pub fn upgrade_step(strong: usize) -> (r: Option<usize>)
    requires
        strong < usize::MAX,
    ensures
        strong == 0 ==> r is None,
        strong > 0 ==> r == Some((strong + 1) as usize),
{
    if strong == 0 {
        None
    } else {
        Some(strong + 1)
    }
}

} // verus!
