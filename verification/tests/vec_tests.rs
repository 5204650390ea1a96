use std::sync::Arc;

use libr0::MyVec;

#[test]
fn test_new() {
    let vec: MyVec<i32> = MyVec::new();
    assert_eq!(vec.len(), 0);
    assert_eq!(vec.capacity(), 0);
    assert!(vec.is_empty());
}

#[test]
fn test_with_capacity() {
    let vec: MyVec<i32> = MyVec::with_capacity(10);
    assert_eq!(vec.len(), 0);
    assert_eq!(vec.capacity(), 10);
}

#[test]
fn test_push_and_pop() {
    let mut vec = MyVec::new();
    vec.push(1);
    vec.push(2);
    vec.push(3);

    assert_eq!(vec.len(), 3);
    assert_eq!(vec.pop(), Some(3));
    assert_eq!(vec.pop(), Some(2));
    assert_eq!(vec.pop(), Some(1));
    assert_eq!(vec.pop(), None);
}

#[test]
fn test_growth() {
    let mut vec = MyVec::new();
    assert_eq!(vec.capacity(), 0);

    vec.push(1);
    assert_eq!(vec.capacity(), 1);

    vec.push(2);
    assert_eq!(vec.capacity(), 2);

    vec.push(3);
    assert_eq!(vec.capacity(), 4);
}

#[test]
fn test_index() {
    let mut vec = MyVec::new();
    vec.push(10);
    vec.push(20);
    vec.push(30);

    assert_eq!(*vec.index(0), 10);
    assert_eq!(*vec.index(1), 20);
    assert_eq!(*vec.index(2), 30);
}

#[test]
fn test_index_mut() {
    let mut vec = MyVec::new();
    vec.push(10);
    vec.push(20);

    *vec.index_mut(0) = 100;
    assert_eq!(*vec.index(0), 100);
}

#[test]
fn test_insert() {
    let mut vec = MyVec::new();
    vec.push(1);
    vec.push(3);
    vec.insert(1, 2);

    assert_eq!(*vec.index(0), 1);
    assert_eq!(*vec.index(1), 2);
    assert_eq!(*vec.index(2), 3);
}

#[test]
fn test_remove() {
    let mut vec = MyVec::new();
    vec.push(1);
    vec.push(2);
    vec.push(3);

    assert_eq!(vec.remove(1), 2);
    assert_eq!(vec.len(), 2);
    assert_eq!(*vec.index(0), 1);
    assert_eq!(*vec.index(1), 3);
}

#[test]
fn test_clear() {
    let mut vec = MyVec::new();
    vec.push(1);
    vec.push(2);
    vec.push(3);

    vec.clear();
    assert_eq!(vec.len(), 0);
    assert!(vec.is_empty());
}

#[test]
fn test_shrink_to_fit() {
    let mut vec = MyVec::with_capacity(10);
    vec.push(1);
    vec.push(2);

    assert_eq!(vec.capacity(), 10);
    vec.shrink_to_fit();
    assert_eq!(vec.capacity(), 2);
    assert_eq!(vec.len(), 2);
}

#[test]
fn test_deref_to_slice() {
    let mut vec = MyVec::new();
    vec.push(1);
    vec.push(2);
    vec.push(3);

    let slice: &[i32] = vec.as_slice();
    assert_eq!(slice.len(), 3);
    assert_eq!(slice[0], 1);
}

#[test]
fn test_as_mut_slice() {
    let mut vec = MyVec::new();
    vec.push(3);
    vec.push(1);
    vec.push(2);

    vec.as_mut_slice().sort();
    assert_eq!(*vec.index(0), 1);
    assert_eq!(*vec.index(1), 2);
    assert_eq!(*vec.index(2), 3);
}

#[test]
fn test_into_iter() {
    let mut vec = MyVec::new();
    vec.push(1);
    vec.push(2);
    vec.push(3);

    let mut sum = 0;
    let mut iter = vec.into_iter();
    while let Some(val) = iter.next() {
        sum += val;
    }
    assert_eq!(sum, 6);
}

#[test]
fn vec_test_clone() {
    let mut vec = MyVec::new();
    vec.push(1);
    vec.push(2);

    let vec2 = vec.clone();
    assert_eq!(*vec.index(0), *vec2.index(0));
    assert_eq!(*vec.index(1), *vec2.index(1));
}

#[test]
fn vec_test_debug() {
    let mut vec = MyVec::new();
    vec.push(1);
    vec.push(2);

    assert_eq!(vec.debug_format(), "[1, 2]");
}

#[test]
fn test_drop_elements() {
    let item = Arc::new(42);
    assert_eq!(Arc::strong_count(&item), 1);

    {
        let mut vec = MyVec::new();
        vec.push(item.clone());
        vec.push(item.clone());
        assert_eq!(Arc::strong_count(&item), 3);
    }
    // Vec dropped, items should be dropped
    assert_eq!(Arc::strong_count(&item), 1);
}

#[test]
fn test_size_hint() {
    let mut vec = MyVec::new();
    vec.push(1);
    vec.push(2);

    let mut iter = vec.into_iter();
    assert_eq!(iter.size_hint(), (2, Some(2)));
    iter.next();
    assert_eq!(iter.size_hint(), (1, Some(1)));
    iter.next();
    assert_eq!(iter.size_hint(), (0, Some(0)));
}

#[test]
fn test_growth_schedule() {
    // Capacity walks the doubling schedule 0, 1, 2, 4, 8, 16 exactly at the
    // pushes that find the buffer full.
    let mut vec = MyVec::new();
    let mut seen = Vec::new();
    seen.push(vec.capacity());
    for i in 0..16 {
        vec.push(i);
        if *seen.last().unwrap() != vec.capacity() {
            seen.push(vec.capacity());
        }
    }
    assert_eq!(vec.len(), 16);
    assert_eq!(seen, vec![0, 1, 2, 4, 8, 16]);
}

#[test]
fn test_pop_empty_repeatedly() {
    let mut vec: MyVec<i32> = MyVec::new();
    assert_eq!(vec.pop(), None);
    assert_eq!(vec.pop(), None);
    assert_eq!(vec.pop(), None);
    assert_eq!(vec.len(), 0);
}

#[test]
fn test_insert_remove_round_trip() {
    // remove(i) after insert(i, v) returns v and restores the sequence.
    let mut vec = MyVec::new();
    vec.push(1);
    vec.push(3);

    vec.insert(1, 2);
    assert_eq!(*vec.index(0), 1);
    assert_eq!(*vec.index(1), 2);
    assert_eq!(*vec.index(2), 3);

    assert_eq!(vec.remove(1), 2);
    assert_eq!(vec.len(), 2);
    assert_eq!(*vec.index(0), 1);
    assert_eq!(*vec.index(1), 3);
}

#[test]
fn test_clear_then_shrink() {
    // clear keeps the capacity; shrink_to_fit afterwards reduces it to 0.
    let mut vec = MyVec::with_capacity(8);
    vec.push(1);
    vec.push(2);

    vec.clear();
    assert_eq!(vec.len(), 0);
    assert_eq!(vec.capacity(), 8);

    vec.shrink_to_fit();
    assert_eq!(vec.capacity(), 0);
}

#[test]
fn test_clone_independent() {
    // Mutating the original after cloning never affects the clone.
    let mut vec = MyVec::new();
    vec.push(1);
    vec.push(2);

    let clone = vec.clone();
    vec.push(3);
    *vec.index_mut(0) = 100;

    assert_eq!(clone.len(), 2);
    assert_eq!(*clone.index(0), 1);
    assert_eq!(*clone.index(1), 2);
}

#[test]
fn test_partial_iteration_drops_rest() {
    // Consume only 1 of 3 elements, then discard the iterator: every element
    // is destroyed exactly once, and exactly one was observed.
    let item = Arc::new(0);
    let mut vec = MyVec::new();
    vec.push(item.clone());
    vec.push(item.clone());
    vec.push(item.clone());
    assert_eq!(Arc::strong_count(&item), 4);

    let mut observed = 0;
    {
        let mut iter = vec.into_iter();
        if let Some(first) = iter.next() {
            observed += 1;
            drop(first);
        }
        assert_eq!(Arc::strong_count(&item), 3);
        // iter discarded here with two elements unconsumed
    }
    assert_eq!(observed, 1);
    assert_eq!(Arc::strong_count(&item), 1);
}

#[test]
fn test_push_within_capacity() {
    // No growth event fires while pushes fit in the preallocated slots.
    let mut vec = MyVec::with_capacity(10);
    vec.push(1);
    vec.push(2);
    assert_eq!(vec.len(), 2);
    assert_eq!(vec.capacity(), 10);

    for i in 3..=10 {
        vec.push(i);
    }
    assert_eq!(vec.len(), 10);
    assert_eq!(vec.capacity(), 10);
}

#[test]
fn test_remove_shifts_left() {
    let mut vec = MyVec::new();
    vec.push(10);
    vec.push(20);
    vec.push(30);
    vec.push(40);

    assert_eq!(vec.remove(1), 20);
    assert_eq!(vec.len(), 3);
    assert_eq!(*vec.index(0), 10);
    assert_eq!(*vec.index(1), 30);
    assert_eq!(*vec.index(2), 40);
}

#[test]
fn test_insert_at_end_is_push() {
    let mut vec = MyVec::new();
    vec.push(1);
    vec.insert(1, 2);
    assert_eq!(vec.len(), 2);
    assert_eq!(*vec.index(1), 2);
}

#[test]
fn test_from_vec() {
    let vec = MyVec::from_vec(vec![7, 8, 9]);
    assert_eq!(vec.len(), 3);
    assert_eq!(vec.capacity(), 3);
    assert_eq!(*vec.index(0), 7);
    assert_eq!(*vec.index(2), 9);
}
