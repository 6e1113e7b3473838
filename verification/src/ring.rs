//! The ring protocol itself: wraparound-safe index arithmetic, the producer
//! and consumer step deciders, and a verified in-memory model of the two
//! rings.
//!
//! Cursors (`head`, `tail`) are 32-bit and monotonically increasing modulo
//! 2^32; a wrap is defined behaviour. A slot index is always the cursor value
//! masked with `ring_entries - 1`, computed by the single masking helper
//! [`ring_index`]. The submission ring is written at its tail by the process
//! and drained at its head by the engine; the completion ring inverts the
//! roles. Each ring type only exposes the operations its designated writers
//! may perform.
use vstd::prelude::*;

use crate::abi::{io_uring_cqe, io_uring_sqe};
use crate::errors::SubmitError;
use crate::geometry::{is_pow2, RingGeometry};

verus! {

/// Cursor arithmetic: addition modulo 2^32.
pub open spec fn wadd(x: u32, n: u32) -> u32 {
    vstd::wrapping::u32_specs::wrapping_add(x, n)
}

/// Cursor arithmetic: subtraction modulo 2^32. `wsub(tail, head)` is the
/// number of occupied slots between the two cursors.
pub open spec fn wsub(x: u32, y: u32) -> u32 {
    vstd::wrapping::u32_specs::wrapping_sub(x, y)
}

/// The physical slot that holds logical offset `k` behind cursor `h`.
pub open spec fn slot_at(h: u32, k: u32, mask: u32) -> int {
    (wadd(h, k) & mask) as int
}

/// Masking always lands inside the ring: for a power-of-two entry count,
/// `v & (entries - 1)` is an in-bounds slot for every cursor value `v`.
pub proof fn lemma_mask_in_bounds(v: u32, entries: u32)
    by (bit_vector)
    requires
        is_pow2(entries),
    ensures
        v & ((entries - 1) as u32) < entries,
{
}

/// Wraparound safety: for every cursor value `v` — including values just
/// below the 32-bit boundary — and every offset `k`, the intermediate cursor
/// `v + k` taken modulo 2^32 masks to an in-bounds slot. No special case is
/// needed where the cursor wraps.
pub proof fn lemma_wraparound_index_in_bounds(v: u32, k: u32, entries: u32)
    by (bit_vector)
    requires
        is_pow2(entries),
    ensures
        0 <= slot_at(v, k, (entries - 1) as u32) < entries,
{
}

/// Two distinct logical offsets within one ring's capacity occupy distinct
/// physical slots.
proof fn lemma_slot_at_distinct(h: u32, i: u32, j: u32, entries: u32)
    by (bit_vector)
    requires
        is_pow2(entries),
        i < j,
        j < entries,
    ensures
        slot_at(h, i, (entries - 1) as u32) != slot_at(h, j, (entries - 1) as u32),
{
}

/// The tail cursor sits exactly `used` slots past the head cursor.
proof fn lemma_tail_is_head_plus_used(h: u32, t: u32)
    by (bit_vector)
    ensures
        wadd(h, wsub(t, h)) == t,
{
}

/// Advancing the tail by one grows the occupancy by one.
proof fn lemma_used_after_advance(h: u32, t: u32)
    by (bit_vector)
    requires
        wsub(t, h) < 0xFFFF_FFFFu32,
    ensures
        wsub(wadd(t, 1), h) == wsub(t, h) + 1,
{
}

/// Advancing the head by one shrinks the occupancy by one.
proof fn lemma_used_after_pop(h: u32, t: u32)
    by (bit_vector)
    requires
        wsub(t, h) > 0,
    ensures
        wsub(t, wadd(h, 1)) == wsub(t, h) - 1,
{
}

/// The ring is empty exactly when the cursors coincide.
pub proof fn lemma_empty_iff_equal(h: u32, t: u32)
    by (bit_vector)
    ensures
        wsub(t, h) == 0 <==> h == t,
{
}

/// Stepping the base cursor shifts every logical offset by one.
proof fn lemma_slot_at_shift(h: u32, k: u32, mask: u32)
    by (bit_vector)
    requires
        k < 0xFFFF_FFFFu32,
    ensures
        slot_at(wadd(h, 1), k, mask) == slot_at(h, (k + 1) as u32, mask),
{
}

/// The single masking helper: every index computation in the transport goes
/// through this, so wraparound logic exists in exactly one place.
pub fn ring_index(value: u32, mask: u32) -> (i: u32)
    ensures
        i == value & mask,
{
    value & mask
}

/// Occupancy of a ring observed with the given cursors, wraparound-safe.
pub fn ring_used(head: u32, tail: u32) -> (n: u32)
    ensures
        n == wsub(tail, head),
{
    tail.wrapping_sub(head)
}

/// Advances a cursor by one, wrapping at the 32-bit boundary.
pub fn advance(cursor: u32) -> (r: u32)
    ensures
        r == wadd(cursor, 1),
{
    cursor.wrapping_add(1)
}

/// Submission-producer step decider: given the observed cursors of the
/// submission ring, either the ring is full — `ring_entries` slots are
/// occupied and publishing another entry would overwrite one the engine has
/// not read — or the next entry goes into slot `tail & ring_mask`.
pub fn producer_slot(head: u32, tail: u32, g: &RingGeometry) -> (r: Option<u32>)
    requires
        g.wf(),
    ensures
        r is None <==> wsub(tail, head) >= g.sq_entries,
        match r {
            Some(i) => i == tail & g.sq_off.ring_mask && i < g.sq_entries,
            None => true,
        },
{
    if tail.wrapping_sub(head) >= g.sq_entries {
        None
    } else {
        proof {
            lemma_mask_in_bounds(tail, g.sq_entries);
        }
        Some(tail & g.sq_off.ring_mask)
    }
}

/// Completion-consumer step decider: with `head == tail` nothing is ready and
/// nothing may be advanced; otherwise the next completion sits in slot
/// `head & ring_mask`. The head is never advanced past the observed tail.
pub fn consumer_slot(head: u32, tail: u32, g: &RingGeometry) -> (r: Option<u32>)
    requires
        g.wf(),
    ensures
        r is None <==> head == tail,
        match r {
            Some(i) => i == head & g.cq_off.ring_mask && i < g.cq_entries,
            None => true,
        },
{
    if head == tail {
        None
    } else {
        proof {
            lemma_mask_in_bounds(head, g.cq_entries);
        }
        Some(head & g.cq_off.ring_mask)
    }
}

/// In-memory model of the submission ring: the header cursors, the index
/// array and the entry slots, exactly as they sit in the two mapped
/// submission regions. The process writes the tail side through [`Self::push`];
/// the engine drains the head side through [`Self::engine_pop`].
pub struct SqRing {
    pub head: u32,
    pub tail: u32,
    pub entries: u32,
    pub mask: u32,
    pub array: Vec<u32>,
    pub slots: Vec<io_uring_sqe>,
}

impl SqRing {
    /// Occupied slots.
    pub open spec fn used(self) -> u32 {
        wsub(self.tail, self.head)
    }

    /// Well-formedness: power-of-two capacity, mask one less, both arrays
    /// sized to the capacity, occupancy within capacity, and every occupied
    /// slot's index published in the index array.
    pub open spec fn wf(self) -> bool {
        &&& is_pow2(self.entries)
        &&& self.mask == self.entries - 1
        &&& self.slots.len() == self.entries
        &&& self.array.len() == self.entries
        &&& self.used() <= self.entries
        &&& forall|k: u32|
            k < self.used() ==> #[trigger] self.array@[slot_at(self.head, k, self.mask)]
                == slot_at(self.head, k, self.mask) as u32
    }

    /// The submitted entries the engine has not yet consumed, oldest first.
    pub open spec fn pending(self) -> Seq<io_uring_sqe> {
        Seq::new(self.used() as nat, |k: int| self.slots@[slot_at(self.head, k as u32, self.mask)])
    }

    /// An empty submission ring with both cursors at `start`. A nonzero start
    /// cursor exercises the same arithmetic near the 32-bit wrap.
    pub fn new_at(entries: u32, start: u32) -> (r: SqRing)
        requires
            is_pow2(entries),
        ensures
            r.wf(),
            r.entries == entries,
            r.mask == entries - 1,
            r.head == start,
            r.tail == start,
            r.pending() == Seq::<io_uring_sqe>::empty(),
    {
        let mut array: Vec<u32> = Vec::new();
        let mut slots: Vec<io_uring_sqe> = Vec::new();
        let mut i: u32 = 0;
        while i < entries
            invariant
                i <= entries,
                array.len() == i,
                slots.len() == i,
            decreases entries - i,
        {
            array.push(0);
            slots.push(io_uring_sqe::zeroed());
            i = i + 1;
        }
        let r = SqRing { head: start, tail: start, entries, mask: entries - 1, array, slots };
        proof {
            lemma_empty_iff_equal(start, start);
            assert(r.pending() =~= Seq::<io_uring_sqe>::empty());
        }
        r
    }

    /// An empty submission ring with cursors at zero.
    pub fn new(entries: u32) -> (r: SqRing)
        requires
            is_pow2(entries),
        ensures
            r.wf(),
            r.entries == entries,
            r.mask == entries - 1,
            r.head == 0,
            r.tail == 0,
            r.pending() == Seq::<io_uring_sqe>::empty(),
    {
        Self::new_at(entries, 0)
    }

    /// Producer step: if `ring_entries` slots are already occupied the push
    /// fails with `Full` and changes nothing; otherwise the entry is written
    /// into slot `tail & ring_mask`, that slot index is published in the
    /// index array, and the tail advances by one, appending the entry to the
    /// pending sequence.
    pub fn push(&mut self, e: io_uring_sqe) -> (r: Result<u32, SubmitError>)
        requires
            old(self).wf(),
        ensures
            final(self).wf(),
            final(self).entries == old(self).entries,
            final(self).mask == old(self).mask,
            final(self).head == old(self).head,
            old(self).used() == old(self).entries ==> (r matches Err(SubmitError::Full)
                && *final(self) == *old(self)),
            old(self).used() < old(self).entries ==> {
                &&& (r matches Ok(i) && i == old(self).tail & old(self).mask)
                &&& final(self).tail == wadd(old(self).tail, 1)
                &&& final(self).used() == old(self).used() + 1
                &&& final(self).pending() == old(self).pending().push(e)
            },
    {
        let used = self.tail.wrapping_sub(self.head);
        if used == self.entries {
            return Err(SubmitError::Full);
        }
        let i = self.tail & self.mask;
        proof {
            lemma_mask_in_bounds(self.tail, self.entries);
        }
        self.slots[i as usize] = e;
        self.array[i as usize] = i;
        self.tail = self.tail.wrapping_add(1);
        proof {
            let o = *old(self);
            let u = o.used();
            lemma_tail_is_head_plus_used(o.head, o.tail);
            assert(slot_at(o.head, u, o.mask) == i as int);
            lemma_used_after_advance(o.head, o.tail);
            assert(self.used() == u + 1);
            assert forall|k: u32| k < u implies slot_at(o.head, k, o.mask) != i as int by {
                lemma_slot_at_distinct(o.head, k, u, o.entries);
            }
            assert forall|k: u32| k < u implies 0 <= #[trigger] slot_at(o.head, k, o.mask)
                < o.entries by {
                lemma_wraparound_index_in_bounds(o.head, k, o.entries);
            }
            assert forall|k: u32|
                k < self.used() implies #[trigger] self.array@[slot_at(self.head, k, self.mask)]
                == slot_at(self.head, k, self.mask) as u32 by {
                if k < u {
                    assert(o.array@[slot_at(o.head, k, o.mask)] == slot_at(o.head, k, o.mask)
                        as u32);
                } else {
                    assert(k == u);
                }
            }
            assert forall|k: int| 0 <= k < u + 1 implies self.pending()[k] == o.pending().push(
                e,
            )[k] by {
                if k < u {
                    assert(slot_at(o.head, k as u32, o.mask) != i as int);
                    assert(0 <= slot_at(o.head, k as u32, o.mask) < o.entries);
                } else {
                    assert(k == u);
                }
            }
            assert(self.pending() =~= o.pending().push(e));
        }
        Ok(i)
    }

    /// Engine step of the model: consume the oldest pending entry, reading
    /// its slot through the published index array, and advance the head. On
    /// an empty ring nothing changes and nothing is returned.
    pub fn engine_pop(&mut self) -> (r: Option<io_uring_sqe>)
        requires
            old(self).wf(),
        ensures
            final(self).wf(),
            final(self).entries == old(self).entries,
            final(self).mask == old(self).mask,
            final(self).tail == old(self).tail,
            final(self).slots == old(self).slots,
            final(self).array == old(self).array,
            old(self).used() == 0 ==> r is None && *final(self) == *old(self),
            old(self).used() > 0 ==> {
                &&& r == Some(old(self).pending()[0])
                &&& final(self).head == wadd(old(self).head, 1)
                &&& final(self).used() == old(self).used() - 1
                &&& final(self).pending() == old(self).pending().subrange(
                    1,
                    old(self).pending().len() as int,
                )
            },
    {
        proof {
            lemma_empty_iff_equal(self.head, self.tail);
        }
        if self.head == self.tail {
            return None;
        }
        let i = self.head & self.mask;
        proof {
            lemma_mask_in_bounds(self.head, self.entries);
            assert(wadd(old(self).head, 0) == old(self).head);
            assert(slot_at(old(self).head, 0, old(self).mask) == i as int);
            assert(old(self).array@[slot_at(old(self).head, 0, old(self).mask)] == slot_at(
                old(self).head,
                0,
                old(self).mask,
            ) as u32);
        }
        let slot = self.array[i as usize];
        let entry = self.slots[slot as usize];
        self.head = self.head.wrapping_add(1);
        proof {
            let o = *old(self);
            let u = o.used();
            lemma_used_after_pop(o.head, o.tail);
            assert(self.used() == u - 1);
            assert forall|k: u32|
                k < self.used() implies #[trigger] self.array@[slot_at(self.head, k, self.mask)]
                == slot_at(self.head, k, self.mask) as u32 by {
                lemma_slot_at_shift(o.head, k, o.mask);
                assert(((k + 1) as u32) < u);
                assert(o.array@[slot_at(o.head, (k + 1) as u32, o.mask)] == slot_at(
                    o.head,
                    (k + 1) as u32,
                    o.mask,
                ) as u32);
            }
            assert forall|k: int| 0 <= k < u - 1 implies self.pending()[k] == o.pending().subrange(
                1,
                o.pending().len() as int,
            )[k] by {
                lemma_slot_at_shift(o.head, k as u32, o.mask);
            }
            assert(self.pending() =~= o.pending().subrange(1, o.pending().len() as int));
        }
        Some(entry)
    }
}

/// In-memory model of the completion ring: the header cursors and the entry
/// array, as they sit in the mapped completion region. The engine writes the
/// tail side through [`Self::engine_push`]; the process drains the head side
/// through [`Self::pop`].
pub struct CqRing {
    pub head: u32,
    pub tail: u32,
    pub entries: u32,
    pub mask: u32,
    pub slots: Vec<io_uring_cqe>,
}

impl CqRing {
    /// Occupied slots.
    pub open spec fn used(self) -> u32 {
        wsub(self.tail, self.head)
    }

    /// Well-formedness: power-of-two capacity, mask one less, slot array
    /// sized to the capacity, occupancy within capacity.
    pub open spec fn wf(self) -> bool {
        &&& is_pow2(self.entries)
        &&& self.mask == self.entries - 1
        &&& self.slots.len() == self.entries
        &&& self.used() <= self.entries
    }

    /// The delivered completions the process has not yet consumed, oldest
    /// first.
    pub open spec fn pending(self) -> Seq<io_uring_cqe> {
        Seq::new(self.used() as nat, |k: int| self.slots@[slot_at(self.head, k as u32, self.mask)])
    }

    /// An empty completion ring with both cursors at `start`.
    pub fn new_at(entries: u32, start: u32) -> (r: CqRing)
        requires
            is_pow2(entries),
        ensures
            r.wf(),
            r.entries == entries,
            r.mask == entries - 1,
            r.head == start,
            r.tail == start,
            r.pending() == Seq::<io_uring_cqe>::empty(),
    {
        let mut slots: Vec<io_uring_cqe> = Vec::new();
        let mut i: u32 = 0;
        while i < entries
            invariant
                i <= entries,
                slots.len() == i,
            decreases entries - i,
        {
            slots.push(io_uring_cqe::zeroed());
            i = i + 1;
        }
        let r = CqRing { head: start, tail: start, entries, mask: entries - 1, slots };
        proof {
            lemma_empty_iff_equal(start, start);
            assert(r.pending() =~= Seq::<io_uring_cqe>::empty());
        }
        r
    }

    /// An empty completion ring with cursors at zero.
    pub fn new(entries: u32) -> (r: CqRing)
        requires
            is_pow2(entries),
        ensures
            r.wf(),
            r.entries == entries,
            r.mask == entries - 1,
            r.head == 0,
            r.tail == 0,
            r.pending() == Seq::<io_uring_cqe>::empty(),
    {
        Self::new_at(entries, 0)
    }

    /// Engine step of the model: deliver a completion into slot
    /// `tail & ring_mask` and advance the tail, appending it to the pending
    /// sequence. The model engine never overflows the ring; a real engine
    /// counts an overflow instead.
    pub fn engine_push(&mut self, c: io_uring_cqe)
        requires
            old(self).wf(),
            old(self).used() < old(self).entries,
        ensures
            final(self).wf(),
            final(self).entries == old(self).entries,
            final(self).mask == old(self).mask,
            final(self).head == old(self).head,
            final(self).tail == wadd(old(self).tail, 1),
            final(self).used() == old(self).used() + 1,
            final(self).pending() == old(self).pending().push(c),
    {
        let i = self.tail & self.mask;
        proof {
            lemma_mask_in_bounds(self.tail, self.entries);
        }
        self.slots[i as usize] = c;
        self.tail = self.tail.wrapping_add(1);
        proof {
            let o = *old(self);
            let u = o.used();
            lemma_tail_is_head_plus_used(o.head, o.tail);
            assert(slot_at(o.head, u, o.mask) == i as int);
            lemma_used_after_advance(o.head, o.tail);
            assert(self.used() == u + 1);
            assert forall|k: int| 0 <= k < u + 1 implies self.pending()[k] == o.pending().push(
                c,
            )[k] by {
                if k < u {
                    lemma_slot_at_distinct(o.head, k as u32, u, o.entries);
                    lemma_wraparound_index_in_bounds(o.head, k as u32, o.entries);
                } else {
                    assert(k == u);
                }
            }
            assert(self.pending() =~= o.pending().push(c));
        }
    }

    /// Consumer step: with `head == tail` no completion is ready, the poll
    /// returns nothing and mutates nothing — polling an empty ring is
    /// idempotent. Otherwise the oldest pending completion is read from slot
    /// `head & ring_mask` and the head advances by one; the head never moves
    /// past the observed tail.
    pub fn pop(&mut self) -> (r: Option<io_uring_cqe>)
        requires
            old(self).wf(),
        ensures
            final(self).wf(),
            final(self).entries == old(self).entries,
            final(self).mask == old(self).mask,
            final(self).tail == old(self).tail,
            final(self).slots == old(self).slots,
            old(self).head == old(self).tail ==> r is None && *final(self) == *old(self),
            old(self).head != old(self).tail ==> {
                &&& r == Some(old(self).pending()[0])
                &&& final(self).head == wadd(old(self).head, 1)
                &&& final(self).used() == old(self).used() - 1
                &&& final(self).pending() == old(self).pending().subrange(
                    1,
                    old(self).pending().len() as int,
                )
            },
    {
        proof {
            lemma_empty_iff_equal(self.head, self.tail);
        }
        if self.head == self.tail {
            return None;
        }
        let i = self.head & self.mask;
        proof {
            lemma_mask_in_bounds(self.head, self.entries);
            assert(wadd(old(self).head, 0) == old(self).head);
            assert(slot_at(old(self).head, 0, old(self).mask) == i as int);
        }
        let entry = self.slots[i as usize];
        self.head = self.head.wrapping_add(1);
        proof {
            let o = *old(self);
            let u = o.used();
            lemma_used_after_pop(o.head, o.tail);
            assert(self.used() == u - 1);
            assert forall|k: int| 0 <= k < u - 1 implies self.pending()[k] == o.pending().subrange(
                1,
                o.pending().len() as int,
            )[k] by {
                lemma_slot_at_shift(o.head, k as u32, o.mask);
            }
            assert(self.pending() =~= o.pending().subrange(1, o.pending().len() as int));
        }
        Some(entry)
    }
}

/// Runs the whole transport against a model engine that completes every
/// submission in arrival order with a zero result — the behaviour a real
/// engine shows for no-op requests. Every entry is submitted through the
/// producer side, drained by the engine through the published index array,
/// delivered as a completion, and consumed: the completions come back in
/// submission order, one per entry, each echoing its correlation token.
///
/// `start` positions both rings' cursors, so a run can begin just below the
/// 32-bit wraparound boundary and continue across it unchanged.
pub fn run_loopback(subs: &Vec<io_uring_sqe>, ring_entries: u32, start: u32) -> (out: Vec<
    io_uring_cqe,
>)
    requires
        is_pow2(ring_entries),
    ensures
        out.len() == subs.len(),
        forall|i: int|
            0 <= i < out.len() ==> {
                &&& (#[trigger] out@[i]).user_data == subs@[i].user_data
                &&& out@[i].res == 0
                &&& out@[i].flags == 0
            },
{
    let mut sq = SqRing::new_at(ring_entries, start);
    let mut cq = CqRing::new_at(ring_entries, start);
    let mut out: Vec<io_uring_cqe> = Vec::new();
    let n = subs.len();
    let mut i: usize = 0;
    while i < n
        invariant
            i <= n,
            n == subs.len(),
            sq.wf(),
            cq.wf(),
            sq.entries == ring_entries,
            cq.entries == ring_entries,
            sq.used() == 0,
            cq.used() == 0,
            out.len() == i,
            forall|j: int|
                0 <= j < i ==> {
                    &&& (#[trigger] out@[j]).user_data == subs@[j].user_data
                    &&& out@[j].res == 0
                    &&& out@[j].flags == 0
                },
        decreases n - i,
    {
        let e = subs[i];
        let pushed = sq.push(e);
        match pushed {
            Ok(_) => (),
            Err(_) => {
                proof {
                    assert(false);
                }
            },
        }
        let sub = match sq.engine_pop() {
            Some(s) => s,
            None => {
                proof {
                    assert(false);
                }
                io_uring_sqe::zeroed()
            },
        };
        proof {
            lemma_empty_iff_equal(cq.head, cq.tail);
        }
        cq.engine_push(io_uring_cqe { user_data: sub.user_data, res: 0, flags: 0 });
        proof {
            lemma_empty_iff_equal(cq.head, cq.tail);
        }
        let c = match cq.pop() {
            Some(c) => c,
            None => {
                proof {
                    assert(false);
                }
                io_uring_cqe::zeroed()
            },
        };
        out.push(c);
        i = i + 1;
    }
    out
}

/// No loss, no duplication: when every completion echoes the correlation
/// token of the submission at the same position — as [`run_loopback`]
/// guarantees — and the submitted tokens are pairwise distinct, then every
/// submitted token is observed exactly once: each position delivers its
/// token, and no two completions carry the same token.
pub proof fn lemma_each_token_once(subs: Seq<io_uring_sqe>, out: Seq<io_uring_cqe>)
    requires
        out.len() == subs.len(),
        forall|i: int| 0 <= i < out.len() ==> (#[trigger] out[i]).user_data == subs[i].user_data,
        forall|i: int, j: int|
            #![trigger subs[i], subs[j]]
            0 <= i < j < subs.len() ==> subs[i].user_data != subs[j].user_data,
    ensures
        forall|i: int| 0 <= i < subs.len() ==> (#[trigger] out[i]).user_data == subs[i].user_data,
        forall|i: int, j: int|
            #![trigger out[i], out[j]]
            0 <= i < j < out.len() ==> out[i].user_data != out[j].user_data,
{
    assert forall|i: int, j: int| #![trigger out[i], out[j]] 0 <= i < j < out.len() implies out[i].user_data
        != out[j].user_data by {
        assert(out[i].user_data == subs[i].user_data);
        assert(out[j].user_data == subs[j].user_data);
    }
}

} // verus!
