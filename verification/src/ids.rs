//! Request identifiers.
//!
//! A server answers a request under the identifier that the request carried,
//! and answers with `-1` when the client is not authenticated. The allocator
//! therefore counts upwards from zero, wraps round at the end of the `i32`
//! range and never hands out `-1`.

use vstd::prelude::*;

verus! {

/// The identifier under which a server reports that authentication failed.
pub const AUTH_FAILURE_ID: i32 = -1;

/// The successor of `n` in the `i32` range, wrapping from the largest value to
/// the smallest.
pub open spec fn wrapping_succ(n: i32) -> i32 {
    if n == i32::MAX {
        i32::MIN
    } else {
        (n + 1) as i32
    }
}

/// The identifier that is handed out while the counter stands at `counter`:
/// the counter itself, or the one after it where the counter is `-1`.
pub open spec fn issued_at(counter: i32) -> i32 {
    if counter == AUTH_FAILURE_ID {
        wrapping_succ(counter)
    } else {
        counter
    }
}

/// The identifier that is handed out after `id`.
pub open spec fn id_after(id: i32) -> i32 {
    issued_at(wrapping_succ(id))
}

/// A source of request identifiers.
#[derive(Debug)]
pub struct IdAllocator {
    counter: i32,
}

impl IdAllocator {
    /// The identifier that the next call of [`IdAllocator::get_next_id`] returns.
    pub closed spec fn upcoming(&self) -> i32 {
        issued_at(self.counter)
    }

    /// An allocator whose first identifier is zero.
    pub fn new() -> (ids: IdAllocator)
        ensures
            ids.upcoming() == 0,
    {
        IdAllocator { counter: 0 }
    }

    /// An allocator whose counter stands at `counter`.
    pub fn starting_at(counter: i32) -> (ids: IdAllocator)
        ensures
            ids.upcoming() == issued_at(counter),
    {
        IdAllocator { counter }
    }

    /// Hands out the next identifier.
    pub fn get_next_id(&mut self) -> (id: i32)
        ensures
            id == old(self).upcoming(),
            id != AUTH_FAILURE_ID,
            final(self).upcoming() == id_after(id),
    {
        let mut id: i32 = self.counter;
        self.counter = self.counter.wrapping_add(1);
        if id == AUTH_FAILURE_ID {
            id = self.counter;
            self.counter = self.counter.wrapping_add(1);
        }
        id
    }
}

/// The identifier that is handed out `n` places after `first`.
pub open spec fn nth_id(first: i32, n: nat) -> i32
    decreases n,
{
    if n == 0 {
        first
    } else {
        id_after(nth_id(first, (n - 1) as nat))
    }
}

/// However many identifiers are handed out, none of them is the
/// authentication failure marker.
pub proof fn law_no_id_is_the_failure_marker(first: i32, n: nat)
    requires
        first != AUTH_FAILURE_ID,
    ensures
        nth_id(first, n) != AUTH_FAILURE_ID,
    decreases n,
{
    if n > 0 {
        law_no_id_is_the_failure_marker(first, (n - 1) as nat);
    }
}

/// The identifiers of a new allocator are 0, 1, 2 and so on, as far as `i32`
/// goes.
pub proof fn law_ids_count_up_from_zero(n: nat)
    requires
        n <= i32::MAX,
    ensures
        nth_id(0, n) == n,
    decreases n,
{
    if n > 0 {
        law_ids_count_up_from_zero((n - 1) as nat);
    }
}

/// No identifier is followed by the authentication failure marker, and each is
/// followed by the next integer, except that `-2` is followed by `0` and the
/// largest `i32` by the smallest.
pub proof fn law_ids_increase_and_skip_failure_marker(id: i32)
    ensures
        id_after(id) != AUTH_FAILURE_ID,
        id_after(id) != id,
        id == i32::MAX ==> id_after(id) == i32::MIN,
        id == -2 ==> id_after(id) == 0,
        id != i32::MAX && id != -2 ==> id_after(id) == id + 1,
        id != i32::MAX ==> id_after(id) > id,
{
}

} // verus!
