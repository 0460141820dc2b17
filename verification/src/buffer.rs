//! The numeric buffer: created with room set aside up front, then read through
//! a shared borrow.

use vstd::prelude::*;

verus! {

/// Number of elements that [`create_large_array`] asks the allocator to make
/// room for.
pub const LARGE_ARRAY_CAPACITY: usize = 1_000_000;

/// The capacity of a buffer: the number of elements it can hold before it has
/// to reallocate, as [`Vec::capacity`] reports it. It belongs to the buffer
/// itself and not to its contents: two buffers that hold the same elements may
/// have different room.
pub uninterp spec fn room(data: Vec<i32>) -> nat;

/// [`Vec::capacity`]: reads the capacity of the buffer it is given. Not
/// proved: that the result is the buffer's [`room`], and that, as the standard
/// library documents of every vector, there is room for at least the elements
/// it holds.
#[verifier::external_body]
fn capacity_of(data: &Vec<i32>) -> (capacity: usize)
    ensures
        capacity == room(*data),
        capacity >= data@.len(),
{
    data.capacity()
}

/// [`Vec::with_capacity`]: a new, empty buffer. Not proved: that it has
/// [`room`] for at least the number of elements asked for. How much more the
/// allocator hands out is left open. The call gives up when the request
/// exceeds `isize::MAX` bytes, at four bytes to an element, so such requests
/// are kept out.
#[verifier::external_body]
fn with_room(capacity: usize) -> (data: Vec<i32>)
    requires
        capacity * 4 <= isize::MAX,
    ensures
        data@ == Seq::<i32>::empty(),
        room(data) >= capacity,
{
    Vec::with_capacity(capacity)
}

/// Creates the buffer: empty, with room for at least
/// [`LARGE_ARRAY_CAPACITY`] elements. The caller owns the result, and the
/// memory goes back to the allocator when that owner's scope ends.
pub fn create_large_array() -> (data: Vec<i32>)
    ensures
        data@ == Seq::<i32>::empty(),
        room(data) >= LARGE_ARRAY_CAPACITY,
{
    with_room(LARGE_ARRAY_CAPACITY)
}

/// Looks at a borrowed buffer and reports its capacity, which is never below
/// the number of elements it holds. The buffer is only lent: the caller keeps
/// it, unchanged, and may go on using it.
pub fn process_data(data: &Vec<i32>) -> (capacity: usize)
    ensures
        capacity == room(*data),
        capacity >= data@.len(),
{
    capacity_of(data)
}

} // verus!
