//! The shared counter: a state machine with a read and an increment.
//!
//! The counter starts at zero. An increment adds one, wrapping from
//! `i32::MAX` to `i32::MIN`. Callers that share one counter serialise their
//! calls with a lock; each call then acts on the value the previous one left.

use vstd::prelude::*;

use crate::calculator::wrap_i32;

verus! {

/// The value of the counter.
pub struct Counter {
    count: i32,
}

impl View for Counter {
    type V = i32;

    closed spec fn view(&self) -> i32 {
        self.count
    }
}

/// The value that follows `v` after one increment.
pub open spec fn incremented(v: i32) -> i32 {
    wrap_i32(v + 1)
}

/// The value reached from `start` after `n` increments in a row.
pub open spec fn after_increments(start: i32, n: nat) -> i32
    decreases n,
{
    if n == 0 {
        start
    } else {
        incremented(after_increments(start, (n - 1) as nat))
    }
}

impl Counter {
    /// A counter at zero.
    pub fn new() -> (c: Counter)
        ensures
            c@ == 0,
    {
        Counter { count: 0 }
    }
}

/// Reads the counter without changing it.
pub fn get_counter(state: &Counter) -> (r: i32)
    ensures
        r == state@,
{
    state.count
}

/// Adds one to the counter and returns the new value.
pub fn increment_counter(state: &mut Counter) -> (r: i32)
    ensures
        final(state)@ == incremented(old(state)@),
        r == final(state)@,
{
    state.count = state.count.wrapping_add(1);
    state.count
}

proof fn lemma_increments_exact(start: i32, n: nat)
    requires
        start + n <= i32::MAX,
    ensures
        after_increments(start, n) == start + n,
    decreases n,
{
    if n > 0 {
        lemma_increments_exact(start, (n - 1) as nat);
    }
}

proof fn lemma_increments_wrap(start: i32, n: nat)
    ensures
        after_increments(start, n) == wrap_i32(start + n),
    decreases n,
{
    if n > 0 {
        lemma_increments_wrap(start, (n - 1) as nat);
        let x = start + n - 1;
        let m = x % 0x1_0000_0000;
        assert((x + 1) % 0x1_0000_0000 == (m + 1) % 0x1_0000_0000);
    }
}

/// A fresh counter reads zero, and after `n` increments in a row it reads `n`.
pub proof fn law_fresh_counter_counts_increments(n: nat)
    requires
        n <= i32::MAX,
    ensures
        after_increments(0, 0) == 0,
        after_increments(0, n) == n,
{
    lemma_increments_exact(0, n);
}

/// `k` increments, serialised in any order, move the counter from `start` to
/// `start + k` (wrapped modulo 2^32): no increment is lost. Where no wrap
/// occurs, the `k` callers each observe a different value.
pub proof fn law_serialized_increments(start: i32, k: nat)
    ensures
        after_increments(start, k) == wrap_i32(start + k),
        start + k <= i32::MAX ==> after_increments(start, k) == start + k,
        start + k <= i32::MAX ==> forall|i: nat, j: nat|
            1 <= i < j <= k ==> after_increments(start, i) != after_increments(start, j),
{
    lemma_increments_wrap(start, k);
    if start + k <= i32::MAX {
        lemma_increments_exact(start, k);
        assert forall|i: nat, j: nat| 1 <= i < j <= k implies after_increments(start, i)
            != after_increments(start, j) by {
            lemma_increments_exact(start, i);
            lemma_increments_exact(start, j);
        }
    }
}

} // verus!
