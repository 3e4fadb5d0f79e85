//! Logical-channel identifier allocation.
//!
//! One shared transport is partitioned into logical channels by integer
//! identifiers. Each side of the transport allocates from its own parity —
//! the host draws odd identifiers, the plugin even ones — stepping by two,
//! so the two sides never collide and need no coordination.

use vstd::prelude::*;

verus! {

/// The identifier handed out by the `k`-th draw of a side that starts at
/// `start`.
pub open spec fn nth_channel_id(start: int, k: int) -> int {
    start + 2 * k
}

/// Allocates logical-channel identifiers for one side of the transport.
///
/// `issued` is the ghost record of every identifier handed out so far, in
/// order; `start` is the first identifier of this side's parity.
pub struct ChannelAllocator {
    pub next_id: u32,
    pub start: Ghost<u32>,
    pub issued: Ghost<Seq<u32>>,
}

impl ChannelAllocator {
    /// Every identifier handed out so far follows the stepping-by-two rule,
    /// and `next_id` is the next one in that progression.
    pub open spec fn wf(self) -> bool {
        &&& self.next_id as int == nth_channel_id(self.start@ as int, self.issued@.len() as int)
        &&& forall|k: int|
            0 <= k < self.issued@.len() ==> self.issued@[k] as int == nth_channel_id(
                self.start@ as int,
                k,
            )
    }

    pub fn new(start: u32) -> (a: ChannelAllocator)
        ensures
            a.wf(),
            a.next_id == start,
            a.start@ == start,
            a.issued@ == Seq::<u32>::empty(),
    {
        ChannelAllocator { next_id: start, start: Ghost(start), issued: Ghost(Seq::empty()) }
    }

    /// Hands out the next identifier of this side's parity.
    pub fn allocate(&mut self) -> (id: u32)
        requires
            old(self).wf(),
            old(self).next_id + 2 <= u32::MAX,
        ensures
            final(self).wf(),
            id == old(self).next_id,
            final(self).next_id == old(self).next_id + 2,
            final(self).start@ == old(self).start@,
            final(self).issued@ == old(self).issued@.push(id),
    {
        let id = self.next_id;
        self.next_id = self.next_id + 2;
        self.issued = Ghost(self.issued@.push(id));
        id
    }
}

/// Law: two distinct draws of one side never yield the same identifier.
pub proof fn lemma_channel_ids_distinct(start: int, i: int, j: int)
    requires
        i != j,
    ensures
        nth_channel_id(start, i) != nth_channel_id(start, j),
{
}

/// Law: every pair of identifiers an allocator has issued is distinct, so two
/// distinct accepted connections always get two distinct channel identifiers.
pub proof fn lemma_issued_ids_distinct(a: ChannelAllocator, i: int, j: int)
    requires
        a.wf(),
        0 <= i < a.issued@.len(),
        0 <= j < a.issued@.len(),
        i != j,
    ensures
        a.issued@[i] != a.issued@[j],
{
    lemma_channel_ids_distinct(a.start@ as int, i, j);
}

/// Law: a side that starts on an odd identifier and a side that starts on an
/// even one can never draw the same identifier, however many draws either
/// side has made.
pub proof fn lemma_sides_never_collide(odd_start: int, even_start: int, i: int, j: int)
    requires
        odd_start % 2 == 1,
        even_start % 2 == 0,
    ensures
        nth_channel_id(odd_start, i) != nth_channel_id(even_start, j),
{
    assert(nth_channel_id(odd_start, i) % 2 == 1) by {
        assert((odd_start + 2 * i) % 2 == odd_start % 2) by (nonlinear_arith);
    };
    assert(nth_channel_id(even_start, j) % 2 == 0) by {
        assert((even_start + 2 * j) % 2 == even_start % 2) by (nonlinear_arith);
    };
}

/// Law: every identifier issued by an allocator that started on an odd
/// identifier is odd.
pub proof fn lemma_odd_start_issues_odd_ids(a: ChannelAllocator, k: int)
    requires
        a.wf(),
        a.start@ % 2 == 1,
        0 <= k < a.issued@.len(),
    ensures
        a.issued@[k] % 2 == 1,
{
    assert((a.start@ as int + 2 * k) % 2 == a.start@ as int % 2) by (nonlinear_arith);
}

} // verus!
