//! Hand-rolled reimplementations of a few core standard-library primitives,
//! with machine-checked contracts.
//!
//! The centrepiece is `MyVec`, a growable contiguous buffer with an explicit
//! doubling growth policy; around it stand the simpler companion types
//! `MyOption`, `MyResult`, `MyBox` and `MyCell`, and the verified transition
//! rules (`borrow_state`, `refcount`) that a runtime borrow-checked cell and
//! a reference-counted pointer apply.

mod borrow_state;
mod my_box;
mod my_cell;
mod my_option;
mod my_result;
mod my_vec;
mod refcount;

pub use borrow_state::acquire_exclusive;
pub use borrow_state::acquire_shared;
pub use borrow_state::release_exclusive;
pub use borrow_state::release_shared;
pub use borrow_state::BorrowError;
pub use borrow_state::BorrowMutError;
pub use my_box::MyBox;
pub use my_cell::MyCell;
pub use my_option::zip;
pub use my_option::MyOption;
pub use my_result::MyResult;
pub use my_vec::capacity_after_growths;
pub use my_vec::lemma_doubling_schedule;
pub use my_vec::lemma_push_then_pop;
pub use my_vec::lemma_remove_after_insert;
pub use my_vec::next_capacity;
pub use my_vec::MyVec;
pub use my_vec::MyVecIntoIter;
pub use refcount::strong_drop_step;
pub use refcount::upgrade_step;
pub use refcount::weak_drop_step;
pub use refcount::StrongDropStep;
pub use refcount::WeakDropStep;
