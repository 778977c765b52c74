//! Identifier counters.
//!
//! A counter hands out 0, 1, 2 and so on. It is 32 bits wide and wraps: after 4294967295 it
//! starts again at 0, and from then on an identifier may be handed out a second time. That
//! ceiling is a known limit; a process does not reach it in practice.

use vstd::prelude::*;

verus! {

/// A counter that hands out identifiers in increasing order.
pub struct IdGenerator {
    next: u32,
}

/// The counter that follows `counter`.
pub open spec fn spec_counter_after(counter: u32) -> u32 {
    if counter == u32::MAX {
        0
    } else {
        (counter + 1) as u32
    }
}

/// The identifier that a counter standing at `start` hands out at its call number `n`,
/// counted from 0.
pub open spec fn spec_nth_id(start: u32, n: nat) -> u32
    decreases n,
{
    if n == 0 {
        start
    } else {
        spec_nth_id(spec_counter_after(start), (n - 1) as nat)
    }
}

impl View for IdGenerator {
    type V = u32;

    /// The identifier that comes next.
    closed spec fn view(&self) -> u32 {
        self.next
    }
}

impl IdGenerator {
    /// A counter that starts at 0.
    pub fn new() -> (r: IdGenerator)
        ensures
            r@ == 0,
    {
        IdGenerator { next: 0 }
    }

    /// Hands out the next identifier.
    pub fn next(&mut self) -> (id: u32)
        ensures
            id == old(self)@,
            id == spec_nth_id(old(self)@, 0),
            final(self)@ == spec_counter_after(old(self)@),
    {
        let id = self.next;
        self.next = id.wrapping_add(1);
        id
    }

    /// The identifier that comes next, without taking it.
    pub fn peek(&self) -> (id: u32)
        ensures
            id == self@,
    {
        self.next
    }
}

/// Below the ceiling, the identifier of call `n` is `start + n`.
pub proof fn lemma_nth_id_below_ceiling(start: u32, n: nat)
    requires
        start + n <= u32::MAX,
    ensures
        spec_nth_id(start, n) == start + n,
    decreases n,
{
    if n > 0 {
        lemma_nth_id_below_ceiling(spec_counter_after(start), (n - 1) as nat);
    }
}

/// Identifiers are pairwise distinct and come out in strictly increasing order, as long as
/// the counter has not wrapped: of any two calls that both fall below the ceiling, the later
/// one gets the larger identifier.
pub proof fn lemma_ids_strictly_increase(start: u32, earlier: nat, later: nat)
    requires
        earlier < later,
        start + later <= u32::MAX,
    ensures
        spec_nth_id(start, earlier) < spec_nth_id(start, later),
{
    lemma_nth_id_below_ceiling(start, earlier);
    lemma_nth_id_below_ceiling(start, later);
}

} // verus!
