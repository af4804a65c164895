//! The descriptor ring: a fixed array of records that a producer fills and a
//! consumer drains in index order, with the ownership of each slot told by
//! its cycle bit and the way back to slot 0 told by a link record.

use crate::trb::Trb;
use vstd::arithmetic::power2::is_pow2;
use vstd::prelude::*;

verus! {

/// Size of one record in ring memory, in bytes.
pub const TRB_BYTES: usize = 16;

/// The producer found no free slot: every usable slot holds a record that
/// the consumer has not taken yet.
#[derive(Clone, Copy, Debug, PartialEq, Eq, Structural)]
pub struct RingFull;

/// Where an accepted record went.
#[derive(Clone, Copy, Debug, PartialEq, Eq, Structural)]
pub struct SlotHandle {
    /// Index of the slot that holds the record.
    pub index: usize,
    /// Address of that slot as the hardware sees it.
    pub address: usize,
    /// Cycle bit that the record was written with.
    pub cycle: bool,
    /// Whether the producer went back to slot 0 for this record; in a ring
    /// with a link record the last slot was written as well.
    pub wrapped: bool,
}

/// The state of a ring as mathematics: its memory and the two cursors.
pub struct RingView {
    /// Address of slot 0 as the hardware sees it.
    pub base: usize,
    /// Whether the last slot is kept for a link record.
    pub link: bool,
    /// The records in ring memory, by slot.
    pub slots: Seq<Trb>,
    /// The producer's cursor; equal to `usable()` when the producer has to
    /// go back to slot 0 before its next record.
    pub enqueue_index: nat,
    /// The cycle bit that the producer writes.
    pub producer_cycle: bool,
    /// The consumer's cursor; equal to `usable()` when the consumer has to
    /// go back to slot 0 before its next record.
    pub dequeue_index: nat,
    /// The cycle bit that the consumer takes as "produced".
    pub consumer_cycle: bool,
}

impl RingView {
    /// Number of slots.
    pub open spec fn capacity(self) -> nat {
        self.slots.len()
    }

    /// Number of slots that can hold records: all of them, or all but the
    /// last where that one is kept for the link record.
    pub open spec fn usable(self) -> nat {
        if self.link {
            (self.slots.len() - 1) as nat
        } else {
            self.slots.len()
        }
    }

    /// The producer is on the same lap as the consumer; otherwise it is one
    /// lap ahead.
    pub open spec fn same_lap(self) -> bool {
        self.producer_cycle == self.consumer_cycle
    }

    /// What always holds of a ring: the cursors are in range and at most one
    /// lap apart, every slot behind the producer's cursor carries the
    /// producer's cycle bit and every other slot the opposite bit, and the
    /// link record is in place whenever the consumer still has to follow
    /// it.
    pub open spec fn wf(self) -> bool {
        &&& self.slots.len() >= 2
        &&& is_pow2(self.slots.len() as int)
        &&& self.base + TRB_BYTES * self.slots.len() <= usize::MAX
        &&& self.enqueue_index <= self.usable()
        &&& self.dequeue_index <= self.usable()
        &&& self.same_lap() ==> self.dequeue_index <= self.enqueue_index
        &&& !self.same_lap() ==> 1 <= self.enqueue_index <= self.dequeue_index
        &&& forall|i: int|
            0 <= i < self.enqueue_index ==> (#[trigger] self.slots[i]).spec_cycle()
                == self.producer_cycle
        &&& forall|i: int|
            self.enqueue_index <= i < self.slots.len() ==> (#[trigger] self.slots[i]).spec_cycle()
                == !self.producer_cycle
        &&& self.link && !self.same_lap() ==> self.slots[self.usable() as int] == Trb::spec_link(
            self.base,
            true,
            self.consumer_cycle,
        )
    }

    /// Number of records that were produced and not yet consumed.
    pub open spec fn len(self) -> nat {
        if self.same_lap() {
            (self.enqueue_index - self.dequeue_index) as nat
        } else {
            (self.usable() - self.dequeue_index + self.enqueue_index) as nat
        }
    }

    /// The records that were produced and not yet consumed, oldest first.
    pub open spec fn pending(self) -> Seq<Trb> {
        if self.same_lap() {
            self.slots.subrange(self.dequeue_index as int, self.enqueue_index as int)
        } else {
            self.slots.subrange(self.dequeue_index as int, self.usable() as int)
                + self.slots.subrange(0, self.enqueue_index as int)
        }
    }

    pub open spec fn is_empty(self) -> bool {
        self.len() == 0
    }

    pub open spec fn is_full(self) -> bool {
        self.len() == self.usable()
    }

    /// Slot `i` holds a record that the consumer has not taken yet: the
    /// hardware owns it, and the producer must not write it.
    pub open spec fn hardware_owned(self, i: int) -> bool {
        if self.same_lap() {
            self.dequeue_index <= i < self.enqueue_index
        } else {
            self.dequeue_index <= i < self.usable() || 0 <= i < self.enqueue_index
        }
    }

    /// The producer has to go back to slot 0 for its next record.
    pub open spec fn producer_wraps(self) -> bool {
        self.enqueue_index == self.usable()
    }

    /// The slot that the next record goes to.
    pub open spec fn enqueue_slot(self) -> nat {
        if self.producer_wraps() {
            0
        } else {
            self.enqueue_index
        }
    }

    /// The cycle bit that the next record is written with.
    pub open spec fn enqueue_cycle(self) -> bool {
        if self.producer_wraps() {
            !self.producer_cycle
        } else {
            self.producer_cycle
        }
    }

    /// The consumer has to go back to slot 0 for its next record.
    pub open spec fn consumer_wraps(self) -> bool {
        self.dequeue_index == self.usable()
    }

    /// The slot that the next record is taken from.
    pub open spec fn dequeue_slot(self) -> nat {
        if self.consumer_wraps() {
            0
        } else {
            self.dequeue_index
        }
    }

    /// The cycle bit by which the consumer tells that the slot it looks at
    /// next has been produced.
    pub open spec fn dequeue_cycle(self) -> bool {
        if self.consumer_wraps() {
            !self.consumer_cycle
        } else {
            self.consumer_cycle
        }
    }

    /// A ring that nothing was written to: every slot is a reserved record
    /// with a clear cycle bit, and both sides start at slot 0 with the cycle
    /// bit set.
    pub open spec fn fresh(base: usize, capacity: nat, link: bool) -> RingView {
        RingView {
            base,
            link,
            slots: Seq::new(capacity, |i: int| Trb::spec_reserved(false)),
            enqueue_index: 0,
            producer_cycle: true,
            dequeue_index: 0,
            consumer_cycle: true,
        }
    }

    /// The ring memory once the producer has gone back to slot 0: where
    /// there is a link record it is written into the last slot, with the
    /// toggle flag and the cycle bit of the lap that ends.
    pub open spec fn slots_after_wrap(self) -> Seq<Trb> {
        if self.link {
            self.slots.update(
                self.usable() as int,
                Trb::spec_link(self.base, true, self.producer_cycle),
            )
        } else {
            self.slots
        }
    }

    /// The ring after the producer has accepted `record`: the record is
    /// stored with the producer's cycle bit in the next slot, behind the
    /// link record where the producer had reached the end of its lap.
    pub open spec fn enqueue(self, record: Trb) -> RingView {
        if self.producer_wraps() {
            RingView {
                slots: self.slots_after_wrap().update(
                    0,
                    record.spec_with_cycle(!self.producer_cycle),
                ),
                enqueue_index: 1,
                producer_cycle: !self.producer_cycle,
                ..self
            }
        } else {
            RingView {
                slots: self.slots.update(
                    self.enqueue_index as int,
                    record.spec_with_cycle(self.producer_cycle),
                ),
                enqueue_index: self.enqueue_index + 1,
                ..self
            }
        }
    }

    /// The ring after the consumer has taken the oldest record.
    pub open spec fn dequeue(self) -> RingView {
        if self.consumer_wraps() {
            RingView { dequeue_index: 1, consumer_cycle: !self.consumer_cycle, ..self }
        } else {
            RingView { dequeue_index: self.dequeue_index + 1, ..self }
        }
    }

    /// A fresh ring is well formed and empty.
    pub proof fn lemma_fresh_wf(base: usize, capacity: nat, link: bool)
        requires
            capacity >= 2,
            is_pow2(capacity as int),
            base + TRB_BYTES * capacity <= usize::MAX,
        ensures
            RingView::fresh(base, capacity, link).wf(),
            RingView::fresh(base, capacity, link).pending() =~= Seq::<Trb>::empty(),
            RingView::fresh(base, capacity, link).len() == 0,
    {
        let r = RingView::fresh(base, capacity, link);
        let t = Trb::spec_reserved(false);
        assert(!t.spec_cycle()) by {
            let c = t.control;
            assert(c & 1 != 1) by (bit_vector)
                requires
                    c == (0u32 << 10) | 0u32,
            ;
        }
    }

    /// The count of pending records is the length of `pending()`, and the
    /// ring is full exactly when the slot that the producer would write next
    /// is still owned by the hardware.
    pub proof fn lemma_len(self)
        requires
            self.wf(),
        ensures
            self.pending().len() == self.len(),
            self.len() <= self.usable(),
            self.is_full() <==> self.hardware_owned(self.enqueue_slot() as int),
            !self.is_empty() <==> self.hardware_owned(self.dequeue_slot() as int),
    {
    }

    /// The cycle bit tells ownership: the slot that the consumer looks at
    /// next carries the cycle bit that the consumer expects exactly when it
    /// holds a record that was produced and not yet consumed. The slot that
    /// the producer writes next carries the opposite of the bit that it will
    /// be written with, so that the write is what makes the record visible.
    pub proof fn lemma_cycle_bit_marks_ownership(self)
        requires
            self.wf(),
        ensures
            self.slots[self.dequeue_slot() as int].spec_cycle() == self.dequeue_cycle()
                <==> !self.is_empty(),
            !self.is_empty() ==> self.pending()[0] == self.slots[self.dequeue_slot() as int],
            self.link && self.consumer_wraps() ==> (self.slots[self.usable() as int].spec_cycle()
                == self.consumer_cycle <==> !self.is_empty()),
            self.slots[self.enqueue_slot() as int].spec_cycle() == !self.enqueue_cycle(),
    {
        let q = self.dequeue_slot() as int;
        assert(self.slots[self.enqueue_slot() as int].spec_cycle() == !self.enqueue_cycle()) by {
            if self.producer_wraps() {
                assert(self.slots[0].spec_cycle() == self.producer_cycle);
            } else {
                assert(self.slots[self.enqueue_index as int].spec_cycle()
                    == !self.producer_cycle);
            }
        }
        if self.same_lap() {
            if self.dequeue_index < self.enqueue_index {
                assert(self.slots[q].spec_cycle() == self.producer_cycle);
            } else {
                if self.consumer_wraps() {
                    assert(self.slots[0].spec_cycle() == self.producer_cycle);
                } else {
                    assert(self.slots[q].spec_cycle() == !self.producer_cycle);
                }
            }
        } else {
            assert(self.slots[0].spec_cycle() == self.producer_cycle);
            if self.dequeue_index < self.usable() {
                assert(self.slots[q].spec_cycle() == !self.producer_cycle);
            }
        }
        if self.link && self.consumer_wraps() {
            assert(self.slots[self.usable() as int].spec_cycle() == !self.producer_cycle);
        }
    }

    /// Accepting a record keeps the ring well formed and puts the record,
    /// with the producer's cycle bit, behind all pending ones.
    pub proof fn lemma_enqueue(self, record: Trb)
        requires
            self.wf(),
            !self.is_full(),
        ensures
            self.enqueue(record).wf(),
            self.enqueue(record).pending() =~= self.pending().push(
                record.spec_with_cycle(self.enqueue_cycle()),
            ),
            self.enqueue(record).len() == self.len() + 1,
            self.enqueue(record).slots[self.enqueue_slot() as int] == record.spec_with_cycle(
                self.enqueue_cycle(),
            ),
    {
        let next = self.enqueue(record);
        let stored = record.spec_with_cycle(self.enqueue_cycle());
        record.lemma_with_cycle(self.enqueue_cycle());
        Trb::lemma_link_fields(self.base, true, self.producer_cycle);
        if self.producer_wraps() {
            assert(self.same_lap());
            assert(self.dequeue_index >= 1);
            assert forall|i: int| 1 <= i < next.slots.len() implies (#[trigger] next.slots[i]).spec_cycle()
                == !next.producer_cycle by {
                if i < self.usable() {
                    assert(next.slots[i] == self.slots[i]);
                } else if self.link {
                    assert(i == self.usable());
                }
            }
            assert(next.pending() =~= self.pending().push(stored));
        } else {
            assert forall|i: int| 0 <= i < next.enqueue_index implies (#[trigger] next.slots[i]).spec_cycle()
                == next.producer_cycle by {
                if i < self.enqueue_index {
                    assert(next.slots[i] == self.slots[i]);
                }
            }
            assert forall|i: int|
                next.enqueue_index <= i < next.slots.len() implies (#[trigger] next.slots[i]).spec_cycle()
                == !next.producer_cycle by {
                assert(next.slots[i] == self.slots[i]);
            }
            assert(next.pending() =~= self.pending().push(stored));
        }
    }

    /// Taking a record keeps the ring well formed and removes the oldest
    /// pending record, leaving ring memory as it was.
    pub proof fn lemma_dequeue(self)
        requires
            self.wf(),
            !self.is_empty(),
        ensures
            self.dequeue().wf(),
            self.dequeue().pending() =~= self.pending().drop_first(),
            self.dequeue().len() == self.len() - 1,
            self.dequeue().slots == self.slots,
            self.dequeue().consumer_cycle == self.dequeue_cycle(),
            self.pending()[0] == self.slots[self.dequeue_slot() as int],
            self.pending()[0].spec_cycle() == self.dequeue_cycle(),
    {
        self.lemma_cycle_bit_marks_ownership();
        let next = self.dequeue();
        if self.consumer_wraps() {
            assert(!self.same_lap());
            assert(next.pending() =~= self.pending().drop_first());
        } else {
            assert(next.pending() =~= self.pending().drop_first());
        }
    }
}

/// Whether `n` is a power of two.
pub fn is_power_of_two(n: usize) -> (yes: bool)
    ensures
        yes == is_pow2(n as int),
{
    if n == 0 {
        reveal(is_pow2);
        return false;
    }
    let mut k: usize = n;
    while k % 2 == 0
        invariant
            k > 0,
            is_pow2(k as int) == is_pow2(n as int),
        decreases k,
    {
        proof {
            reveal(is_pow2);
        }
        k = k / 2;
    }
    proof {
        reveal(is_pow2);
    }
    k == 1
}

/// A descriptor ring with the state of both of its sides: ring memory, the
/// producer's cursor and cycle bit, and the consumer's.
pub struct Ring {
    base: usize,
    link: bool,
    trbs: Vec<Trb>,
    enqueue_index: usize,
    producer_cycle: bool,
    dequeue_index: usize,
    consumer_cycle: bool,
}

impl View for Ring {
    type V = RingView;

    closed spec fn view(&self) -> RingView {
        RingView {
            base: self.base,
            link: self.link,
            slots: self.trbs@,
            enqueue_index: self.enqueue_index as nat,
            producer_cycle: self.producer_cycle,
            dequeue_index: self.dequeue_index as nat,
            consumer_cycle: self.consumer_cycle,
        }
    }
}

impl Ring {
    /// The invariant of the ring, stated on its view.
    pub open spec fn wf(&self) -> bool {
        self@.wf()
    }

    /// Whether a ring can be made of `capacity` slots at `base`: the capacity
    /// is a power of two, at least 2, and the last slot ends within the
    /// address space.
    pub open spec fn valid_geometry(base: usize, capacity: usize) -> bool {
        &&& capacity >= 2
        &&& is_pow2(capacity as int)
        &&& base + TRB_BYTES * capacity <= usize::MAX
    }

    /// Makes an empty ring of `capacity` slots whose slot 0 the hardware sees
    /// at `base`. With `link` set the last slot is kept for the link record.
    /// Returns `None` exactly when the geometry is not valid.
    pub fn new(base: usize, capacity: usize, link: bool) -> (ring: Option<Ring>)
        ensures
            ring is Some <==> Ring::valid_geometry(base, capacity),
            ring is Some ==> ring->0.wf() && ring->0@ == RingView::fresh(
                base,
                capacity as nat,
                link,
            ),
    {
        if capacity < 2 || !is_power_of_two(capacity) {
            return None;
        }
        let bytes = match TRB_BYTES.checked_mul(capacity) {
            Some(bytes) => bytes,
            None => {
                return None;
            },
        };
        if base.checked_add(bytes).is_none() {
            return None;
        }
        let mut blank = Trb { data: 0, status: 0, control: 0 };
        blank.reserved(false);
        let mut trbs: Vec<Trb> = Vec::new();
        let mut i: usize = 0;
        while i < capacity
            invariant
                i <= capacity,
                trbs@.len() == i,
                blank == Trb::spec_reserved(false),
                forall|j: int| 0 <= j < i ==> trbs@[j] == Trb::spec_reserved(false),
            decreases capacity - i,
        {
            trbs.push(blank);
            i += 1;
        }
        let ring = Ring {
            base,
            link,
            trbs,
            enqueue_index: 0,
            producer_cycle: true,
            dequeue_index: 0,
            consumer_cycle: true,
        };
        proof {
            RingView::lemma_fresh_wf(base, capacity as nat, link);
            assert(ring@.slots =~= RingView::fresh(base, capacity as nat, link).slots);
        }
        Some(ring)
    }

    /// Address of slot 0 as the hardware sees it.
    pub fn base(&self) -> (base: usize)
        ensures
            base == self@.base,
    {
        self.base
    }

    /// Whether the last slot is kept for a link record.
    pub fn has_link(&self) -> (link: bool)
        ensures
            link == self@.link,
    {
        self.link
    }

    /// Number of slots.
    pub fn capacity(&self) -> (n: usize)
        ensures
            n == self@.capacity(),
    {
        self.trbs.len()
    }

    /// Number of slots that can hold records.
    pub fn usable(&self) -> (n: usize)
        requires
            self.wf(),
        ensures
            n == self@.usable(),
            n >= 1,
    {
        if self.link {
            self.trbs.len() - 1
        } else {
            self.trbs.len()
        }
    }

    /// Number of records that were produced and not yet consumed.
    pub fn len(&self) -> (n: usize)
        requires
            self.wf(),
        ensures
            n == self@.len(),
            n == self@.pending().len(),
            n <= self@.usable(),
    {
        proof {
            self@.lemma_len();
        }
        if self.producer_cycle == self.consumer_cycle {
            self.enqueue_index - self.dequeue_index
        } else {
            self.usable() - self.dequeue_index + self.enqueue_index
        }
    }

    pub fn is_empty(&self) -> (empty: bool)
        requires
            self.wf(),
        ensures
            empty == self@.is_empty(),
            empty == (self@.pending().len() == 0),
    {
        self.len() == 0
    }

    pub fn is_full(&self) -> (full: bool)
        requires
            self.wf(),
        ensures
            full == self@.is_full(),
            full == self@.hardware_owned(self@.enqueue_slot() as int),
    {
        proof {
            self@.lemma_len();
        }
        self.len() == self.usable()
    }

    /// The record in slot `index` of ring memory.
    pub fn slot(&self, index: usize) -> (record: Option<Trb>)
        ensures
            index < self@.capacity() ==> record == Some(self@.slots[index as int]),
            index >= self@.capacity() ==> record is None,
    {
        if index < self.trbs.len() {
            Some(self.trbs[index])
        } else {
            None
        }
    }

    /// The producer's cursor.
    pub fn enqueue_index(&self) -> (index: usize)
        ensures
            index == self@.enqueue_index,
    {
        self.enqueue_index
    }

    /// The cycle bit that the producer writes.
    pub fn producer_cycle(&self) -> (cycle: bool)
        ensures
            cycle == self@.producer_cycle,
    {
        self.producer_cycle
    }

    /// The cycle bit that the next accepted record is written with: the
    /// producer's, flipped where the producer stands at the end of its lap.
    pub fn enqueue_cycle(&self) -> (cycle: bool)
        requires
            self.wf(),
        ensures
            cycle == self@.enqueue_cycle(),
    {
        if self.enqueue_index == self.usable() {
            !self.producer_cycle
        } else {
            self.producer_cycle
        }
    }

    /// The slot that the next accepted record goes to.
    pub fn enqueue_slot(&self) -> (index: usize)
        requires
            self.wf(),
        ensures
            index == self@.enqueue_slot(),
            index < self@.capacity(),
    {
        if self.enqueue_index == self.usable() {
            0
        } else {
            self.enqueue_index
        }
    }

    /// The slot that the next record is taken from.
    pub fn dequeue_slot(&self) -> (index: usize)
        requires
            self.wf(),
        ensures
            index == self@.dequeue_slot(),
            index < self@.capacity(),
    {
        if self.dequeue_index == self.usable() {
            0
        } else {
            self.dequeue_index
        }
    }

    /// The cycle bit by which the consumer tells that the slot it looks at
    /// next has been produced.
    pub fn dequeue_cycle(&self) -> (cycle: bool)
        requires
            self.wf(),
        ensures
            cycle == self@.dequeue_cycle(),
    {
        if self.dequeue_index == self.usable() {
            !self.consumer_cycle
        } else {
            self.consumer_cycle
        }
    }

    /// The consumer's cursor.
    pub fn dequeue_index(&self) -> (index: usize)
        ensures
            index == self@.dequeue_index,
    {
        self.dequeue_index
    }

    /// The cycle bit that the consumer takes as "produced".
    pub fn consumer_cycle(&self) -> (cycle: bool)
        ensures
            cycle == self@.consumer_cycle,
    {
        self.consumer_cycle
    }

    /// Hands a record to the producer. The record is stored with the
    /// producer's cycle bit in place of its own, which makes it visible to
    /// the consumer. Where the producer stands at the end of its lap it
    /// first writes the link record into the last slot (if the ring has
    /// one), flips its cycle bit and goes back to slot 0. A full ring is
    /// reported and left as it was.
    pub fn enqueue(&mut self, record: Trb) -> (result: Result<SlotHandle, RingFull>)
        requires
            old(self).wf(),
        ensures
            final(self).wf(),
            result is Err <==> old(self)@.is_full(),
            result is Err ==> final(self)@ == old(self)@,
            result is Ok ==> final(self)@ == old(self)@.enqueue(record),
            result is Ok ==> final(self)@.pending() == old(self)@.pending().push(
                record.spec_with_cycle(old(self)@.enqueue_cycle()),
            ),
            result is Ok ==> result->Ok_0 == (SlotHandle {
                index: old(self)@.enqueue_slot() as usize,
                address: (old(self)@.base + TRB_BYTES * old(self)@.enqueue_slot()) as usize,
                cycle: old(self)@.enqueue_cycle(),
                wrapped: old(self)@.producer_wraps(),
            }),
    {
        if self.is_full() {
            return Err(RingFull);
        }
        proof {
            self@.lemma_enqueue(record);
        }
        let usable = self.usable();
        let wrapped = self.enqueue_index == usable;
        if wrapped {
            if self.link {
                let mut link_record = Trb { data: 0, status: 0, control: 0 };
                link_record.link(self.base, true, self.producer_cycle);
                self.trbs.set(usable, link_record);
            }
            self.producer_cycle = !self.producer_cycle;
            self.enqueue_index = 0;
        }
        let index = self.enqueue_index;
        let cycle = self.producer_cycle;
        self.trbs.set(index, record.with_cycle(cycle));
        self.enqueue_index = index + 1;
        proof {
            assert(self@.slots =~= old(self)@.enqueue(record).slots);
            assert(TRB_BYTES * index <= TRB_BYTES * self.trbs@.len()) by (nonlinear_arith)
                requires
                    index <= self.trbs@.len(),
            ;
        }
        Ok(SlotHandle { index, address: self.base + TRB_BYTES * index, cycle, wrapped })
    }

    /// Takes the oldest record that was produced and not yet consumed. The
    /// consumer reads the slot under its cursor and takes the record only
    /// where the cycle bit is the one it expects; at the end of its lap it
    /// first follows the link record, or goes back to slot 0 where the ring
    /// has none, and flips its cycle sense. An empty ring gives `None` and is
    /// left as it was.
    pub fn dequeue(&mut self) -> (record: Option<Trb>)
        requires
            old(self).wf(),
        ensures
            final(self).wf(),
            record is Some <==> !old(self)@.is_empty(),
            record is None ==> final(self)@ == old(self)@,
            record is Some ==> final(self)@ == old(self)@.dequeue(),
            record is Some ==> record->0 == old(self)@.pending()[0],
            record is Some ==> final(self)@.pending() == old(self)@.pending().drop_first(),
            record is Some ==> record->0.spec_cycle() == final(self)@.consumer_cycle,
    {
        proof {
            self@.lemma_cycle_bit_marks_ownership();
            self@.lemma_len();
            if !self@.is_empty() {
                self@.lemma_dequeue();
            }
        }
        let usable = self.usable();
        let mut index = self.dequeue_index;
        let mut cycle = self.consumer_cycle;
        if index == usable {
            if self.link {
                let link_record = self.trbs[index];
                if link_record.cycle() != cycle {
                    return None;
                }
            }
            index = 0;
            cycle = !cycle;
        }
        let record = self.trbs[index];
        if record.cycle() != cycle {
            return None;
        }
        self.dequeue_index = index + 1;
        self.consumer_cycle = cycle;
        Some(record)
    }

    /// Takes in a record that was read from the slot that the producer
    /// writes next, for a ring whose producer is the hardware. The record
    /// counts as produced exactly where it carries the cycle bit that the
    /// producer writes there and the ring is not full; it is then stored as
    /// it was read, behind all pending records. Otherwise the slot still
    /// holds what an earlier lap left there, and nothing changes.
    pub fn observe(&mut self, record: Trb) -> (produced: bool)
        requires
            old(self).wf(),
        ensures
            final(self).wf(),
            produced <==> !old(self)@.is_full() && record.spec_cycle() == old(
                self,
            )@.enqueue_cycle(),
            !produced ==> final(self)@ == old(self)@,
            produced ==> final(self)@ == old(self)@.enqueue(record),
            produced ==> final(self)@.pending() == old(self)@.pending().push(record),
            produced ==> final(self)@.slots[old(self)@.enqueue_slot() as int] == record,
    {
        if self.is_full() || record.cycle() != self.enqueue_cycle() {
            return false;
        }
        proof {
            record.lemma_with_cycle(self@.enqueue_cycle());
            self@.lemma_enqueue(record);
        }
        match self.enqueue(record) {
            Ok(_) => true,
            Err(_) => false,
        }
    }
}

} // verus!
