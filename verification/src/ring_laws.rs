//! What holds of a ring over any run of operations: records leave in the
//! order in which they were accepted, none is lost or repeated, and the
//! producer goes back to slot 0 exactly where its lap ends.

use crate::ring::RingView;
use crate::ring::TRB_BYTES;
use crate::trb::Trb;
use vstd::arithmetic::power2::is_pow2;
use vstd::prelude::*;

verus! {

/// One call on a ring.
pub enum RingOp {
    /// The producer is offered a record.
    Enqueue(Trb),
    /// The consumer asks for a record.
    Dequeue,
}

/// The ring after one operation; an operation without effect leaves it as
/// it was.
pub open spec fn step(r: RingView, op: RingOp) -> RingView {
    match op {
        RingOp::Enqueue(record) => if r.is_full() {
            r
        } else {
            r.enqueue(record)
        },
        RingOp::Dequeue => if r.is_empty() {
            r
        } else {
            r.dequeue()
        },
    }
}

/// The ring after a run of operations.
pub open spec fn run(r: RingView, ops: Seq<RingOp>) -> RingView
    decreases ops.len(),
{
    if ops.len() == 0 {
        r
    } else {
        step(run(r, ops.drop_last()), ops.last())
    }
}

/// The records that the producer accepted during a run, as they were
/// offered.
pub open spec fn offered(r: RingView, ops: Seq<RingOp>) -> Seq<Trb>
    decreases ops.len(),
{
    if ops.len() == 0 {
        Seq::empty()
    } else {
        let before = run(r, ops.drop_last());
        match ops.last() {
            RingOp::Enqueue(record) => if before.is_full() {
                offered(r, ops.drop_last())
            } else {
                offered(r, ops.drop_last()).push(record)
            },
            RingOp::Dequeue => offered(r, ops.drop_last()),
        }
    }
}

/// The records that the producer accepted during a run, as they were
/// stored.
pub open spec fn produced(r: RingView, ops: Seq<RingOp>) -> Seq<Trb>
    decreases ops.len(),
{
    if ops.len() == 0 {
        Seq::empty()
    } else {
        let before = run(r, ops.drop_last());
        match ops.last() {
            RingOp::Enqueue(record) => if before.is_full() {
                produced(r, ops.drop_last())
            } else {
                produced(r, ops.drop_last()).push(
                    record.spec_with_cycle(before.enqueue_cycle()),
                )
            },
            RingOp::Dequeue => produced(r, ops.drop_last()),
        }
    }
}

/// The slots that the accepted records of a run went to.
pub open spec fn slots_taken(r: RingView, ops: Seq<RingOp>) -> Seq<nat>
    decreases ops.len(),
{
    if ops.len() == 0 {
        Seq::empty()
    } else {
        let before = run(r, ops.drop_last());
        match ops.last() {
            RingOp::Enqueue(record) => if before.is_full() {
                slots_taken(r, ops.drop_last())
            } else {
                slots_taken(r, ops.drop_last()).push(before.enqueue_slot())
            },
            RingOp::Dequeue => slots_taken(r, ops.drop_last()),
        }
    }
}

/// How often the producer flipped its cycle bit during a run.
pub open spec fn flips(r: RingView, ops: Seq<RingOp>) -> nat
    decreases ops.len(),
{
    if ops.len() == 0 {
        0
    } else {
        let before = run(r, ops.drop_last());
        match ops.last() {
            RingOp::Enqueue(record) => if !before.is_full() && before.producer_wraps() {
                flips(r, ops.drop_last()) + 1
            } else {
                flips(r, ops.drop_last())
            },
            RingOp::Dequeue => flips(r, ops.drop_last()),
        }
    }
}

/// The records that the consumer took during a run.
pub open spec fn consumed(r: RingView, ops: Seq<RingOp>) -> Seq<Trb>
    decreases ops.len(),
{
    if ops.len() == 0 {
        Seq::empty()
    } else {
        let before = run(r, ops.drop_last());
        match ops.last() {
            RingOp::Enqueue(record) => consumed(r, ops.drop_last()),
            RingOp::Dequeue => if before.is_empty() {
                consumed(r, ops.drop_last())
            } else {
                consumed(r, ops.drop_last()).push(before.pending()[0])
            },
        }
    }
}

/// The cycle bit that the consumer expected at each record it took during a
/// run.
pub open spec fn expected(r: RingView, ops: Seq<RingOp>) -> Seq<bool>
    decreases ops.len(),
{
    if ops.len() == 0 {
        Seq::empty()
    } else {
        let before = run(r, ops.drop_last());
        match ops.last() {
            RingOp::Enqueue(record) => expected(r, ops.drop_last()),
            RingOp::Dequeue => if before.is_empty() {
                expected(r, ops.drop_last())
            } else {
                expected(r, ops.drop_last()).push(before.dequeue_cycle())
            },
        }
    }
}

/// A run keeps a ring well formed.
pub proof fn lemma_run_wf(r: RingView, ops: Seq<RingOp>)
    requires
        r.wf(),
    ensures
        run(r, ops).wf(),
        run(r, ops).base == r.base,
        run(r, ops).link == r.link,
        run(r, ops).slots.len() == r.slots.len(),
    decreases ops.len(),
{
    if ops.len() > 0 {
        lemma_run_wf(r, ops.drop_last());
        let before = run(r, ops.drop_last());
        match ops.last() {
            RingOp::Enqueue(record) => {
                if !before.is_full() {
                    before.lemma_enqueue(record);
                }
            },
            RingOp::Dequeue => {
                if !before.is_empty() {
                    before.lemma_dequeue();
                }
            },
        }
    }
}

/// First in, first out, nothing lost, nothing repeated: over any run of
/// operations on a well-formed ring, the records that were pending at the
/// start followed by those that the producer accepted are exactly the
/// records that the consumer took followed by those still pending, in the
/// same order. Each accepted record is stored as it was offered but for its
/// cycle bit, and each record that the consumer took carried the cycle bit
/// that the consumer expected at that moment.
pub proof fn lemma_fifo(r: RingView, ops: Seq<RingOp>)
    requires
        r.wf(),
    ensures
        run(r, ops).wf(),
        r.pending() + produced(r, ops) =~= consumed(r, ops) + run(r, ops).pending(),
        produced(r, ops).len() == offered(r, ops).len(),
        forall|k: int|
            0 <= k < offered(r, ops).len() ==> {
                &&& (#[trigger] produced(r, ops)[k]).data == offered(r, ops)[k].data
                &&& produced(r, ops)[k].status == offered(r, ops)[k].status
                &&& produced(r, ops)[k].control & 0xFFFF_FFFE == offered(r, ops)[k].control
                    & 0xFFFF_FFFE
            },
        expected(r, ops).len() == consumed(r, ops).len(),
        forall|k: int|
            0 <= k < consumed(r, ops).len() ==> (#[trigger] consumed(r, ops)[k]).spec_cycle()
                == expected(r, ops)[k],
    decreases ops.len(),
{
    if ops.len() > 0 {
        let init = ops.drop_last();
        lemma_fifo(r, init);
        let before = run(r, init);
        match ops.last() {
            RingOp::Enqueue(record) => {
                if !before.is_full() {
                    before.lemma_enqueue(record);
                    record.lemma_with_cycle(before.enqueue_cycle());
                    let stored = record.spec_with_cycle(before.enqueue_cycle());
                    assert(r.pending() + produced(r, ops) =~= (r.pending() + produced(
                        r,
                        init,
                    )).push(stored));
                    assert(consumed(r, ops) + run(r, ops).pending() =~= (consumed(r, init)
                        + before.pending()).push(stored));
                }
            },
            RingOp::Dequeue => {
                if !before.is_empty() {
                    before.lemma_dequeue();
                    before.lemma_len();
                    assert(consumed(r, ops) + run(r, ops).pending() =~= consumed(r, init)
                        + before.pending());
                }
            },
        }
    }
}

/// A run that offers the given records one after another.
pub open spec fn enqueues(records: Seq<Trb>) -> Seq<RingOp> {
    Seq::new(records.len(), |i: int| RingOp::Enqueue(records[i]))
}

/// A run that asks for a record `n` times.
pub open spec fn dequeues(n: nat) -> Seq<RingOp> {
    Seq::new(n, |i: int| RingOp::Dequeue)
}

/// Records that fit into the free slots of a ring are all accepted.
pub proof fn lemma_fill(r: RingView, records: Seq<Trb>)
    requires
        r.wf(),
        r.len() + records.len() <= r.usable(),
    ensures
        run(r, enqueues(records)).wf(),
        run(r, enqueues(records)).len() == r.len() + records.len(),
        run(r, enqueues(records)).usable() == r.usable(),
        offered(r, enqueues(records)) =~= records,
        consumed(r, enqueues(records)) =~= Seq::<Trb>::empty(),
    decreases records.len(),
{
    let ops = enqueues(records);
    if records.len() > 0 {
        let init = records.drop_last();
        assert(ops.drop_last() =~= enqueues(init));
        lemma_fill(r, init);
        let before = run(r, enqueues(init));
        before.lemma_enqueue(records.last());
        assert(ops.last() == RingOp::Enqueue(records.last()));
    }
}

/// The round trip: where a ring is offered no more records than it has
/// free slots, every one of them is accepted, and as many requests for a
/// record as the ring then holds records hand out first the records that
/// were pending before and then each of the new ones exactly once, in the
/// order in which they were offered, each with the cycle bit that the
/// consumer expects at that moment and otherwise as it was offered; the
/// ring is empty afterwards.
pub proof fn lemma_round_trip(r: RingView, records: Seq<Trb>)
    requires
        r.wf(),
        r.len() + records.len() <= r.usable(),
    ensures
        ({
            let ops = enqueues(records) + dequeues(r.len() + records.len());
            &&& offered(r, ops) =~= records
            &&& consumed(r, ops) =~= r.pending() + produced(r, ops)
            &&& produced(r, ops).len() == records.len()
            &&& run(r, ops).is_empty()
            &&& forall|k: int|
                0 <= k < records.len() ==> {
                    &&& (#[trigger] produced(r, ops)[k]).data == records[k].data
                    &&& produced(r, ops)[k].status == records[k].status
                    &&& produced(r, ops)[k].control & 0xFFFF_FFFE == records[k].control
                        & 0xFFFF_FFFE
                }
            &&& expected(r, ops).len() == consumed(r, ops).len()
            &&& forall|k: int|
                0 <= k < consumed(r, ops).len() ==> (#[trigger] consumed(r, ops)[k]).spec_cycle()
                    == expected(r, ops)[k]
        }),
{
    let ops = enqueues(records) + dequeues(r.len() + records.len());
    lemma_drain(r, records, r.len() + records.len());
    lemma_fifo(r, ops);
    run(r, ops).lemma_len();
    assert(run(r, ops).pending() =~= Seq::<Trb>::empty());
    assert(consumed(r, ops) =~= r.pending() + produced(r, ops));
}

/// After the records are accepted, `n` requests take `n` of the records
/// that the ring then holds.
proof fn lemma_drain(r: RingView, records: Seq<Trb>, n: nat)
    requires
        r.wf(),
        r.len() + records.len() <= r.usable(),
        n <= r.len() + records.len(),
    ensures
        ({
            let ops = enqueues(records) + dequeues(n);
            &&& run(r, ops).wf()
            &&& run(r, ops).len() == r.len() + records.len() - n
            &&& offered(r, ops) =~= records
            &&& consumed(r, ops).len() == n
        }),
    decreases n,
{
    let ops = enqueues(records) + dequeues(n);
    if n == 0 {
        assert(ops =~= enqueues(records));
        lemma_fill(r, records);
    } else {
        assert(ops.drop_last() =~= enqueues(records) + dequeues((n - 1) as nat));
        assert(ops.last() == RingOp::Dequeue);
        lemma_drain(r, records, (n - 1) as nat);
        let before = run(r, ops.drop_last());
        before.lemma_dequeue();
    }
}

/// Where the producer of a fresh ring stands after it has accepted `n`
/// records, for `n` up to twice the number of usable slots: within the first
/// lap the record of number `k` goes to slot `k` and the cycle bit is never
/// flipped; the record that finds the lap at its end goes to slot 0, behind
/// a link record where the ring has one, with the cycle bit flipped once.
pub proof fn lemma_producer_position(base: usize, capacity: nat, link: bool, ops: Seq<RingOp>)
    requires
        capacity >= 2,
        is_pow2(capacity as int),
        base + TRB_BYTES * capacity <= usize::MAX,
        slots_taken(RingView::fresh(base, capacity, link), ops).len() <= 2 * RingView::fresh(
            base,
            capacity,
            link,
        ).usable(),
    ensures
        ({
            let fresh = RingView::fresh(base, capacity, link);
            let end = run(fresh, ops);
            let taken = slots_taken(fresh, ops);
            let usable = fresh.usable();
            &&& end.wf()
            &&& end.usable() == usable
            &&& offered(fresh, ops).len() == taken.len()
            &&& produced(fresh, ops).len() == taken.len()
            &&& taken.len() <= usable ==> {
                &&& end.enqueue_index == taken.len()
                &&& end.producer_cycle
                &&& flips(fresh, ops) == 0
                &&& forall|k: int| 0 <= k < taken.len() ==> #[trigger] taken[k] == k
            }
            &&& taken.len() > usable ==> {
                &&& end.enqueue_index == taken.len() - usable
                &&& !end.producer_cycle
                &&& flips(fresh, ops) == 1
                &&& forall|k: int| 0 <= k < usable ==> #[trigger] taken[k] == k
                &&& forall|k: int| usable <= k < taken.len() ==> #[trigger] taken[k] == k - usable
                &&& link ==> end.slots[usable as int] == Trb::spec_link(base, true, true)
            }
            &&& forall|k: int|
                0 <= k < taken.len() ==> (#[trigger] produced(fresh, ops)[k]).spec_cycle() == (k
                    < usable)
        }),
    decreases ops.len(),
{
    let fresh = RingView::fresh(base, capacity, link);
    RingView::lemma_fresh_wf(base, capacity, link);
    lemma_run_wf(fresh, ops);
    if ops.len() > 0 {
        let init = ops.drop_last();
        lemma_producer_position(base, capacity, link, init);
        let before = run(fresh, init);
        lemma_run_wf(fresh, init);
        match ops.last() {
            RingOp::Enqueue(record) => {
                if !before.is_full() {
                    before.lemma_enqueue(record);
                    record.lemma_with_cycle(before.enqueue_cycle());
                }
            },
            RingOp::Dequeue => {
                if !before.is_empty() {
                    before.lemma_dequeue();
                }
            },
        }
    }
}

/// Wraparound: where a fresh ring of `capacity` slots, at least 4, with a
/// link record has accepted `capacity + 1` records over a run of operations,
/// its producer has flipped the cycle bit exactly once. The first
/// `capacity - 1` records went to the slots of their numbers; the next one,
/// whose number is that of the last slot, went to slot 0 instead, and the
/// one after it to slot 1, both with the flipped cycle bit; the last slot
/// holds the link record that leads back to slot 0. Every accepted record
/// has been taken by the consumer or is still pending.
pub proof fn lemma_wraparound(base: usize, capacity: nat, ops: Seq<RingOp>)
    requires
        capacity >= 4,
        is_pow2(capacity as int),
        base + TRB_BYTES * capacity <= usize::MAX,
        slots_taken(RingView::fresh(base, capacity, true), ops).len() == capacity + 1,
    ensures
        ({
            let fresh = RingView::fresh(base, capacity, true);
            let end = run(fresh, ops);
            let taken = slots_taken(fresh, ops);
            &&& flips(fresh, ops) == 1
            &&& end.producer_cycle == !fresh.producer_cycle
            &&& end.enqueue_index == 2
            &&& forall|k: int| 0 <= k < capacity - 1 ==> #[trigger] taken[k] == k
            &&& taken[capacity - 1] == 0
            &&& taken[capacity as int] == 1
            &&& forall|k: int|
                0 <= k < capacity - 1 ==> (#[trigger] produced(fresh, ops)[k]).spec_cycle()
            &&& !produced(fresh, ops)[capacity - 1].spec_cycle()
            &&& !produced(fresh, ops)[capacity as int].spec_cycle()
            &&& end.slots[capacity - 1] == Trb::spec_link(base, true, true)
            &&& produced(fresh, ops) =~= consumed(fresh, ops) + end.pending()
        }),
{
    let fresh = RingView::fresh(base, capacity, true);
    RingView::lemma_fresh_wf(base, capacity, true);
    lemma_producer_position(base, capacity, true, ops);
    lemma_fifo(fresh, ops);
    assert(fresh.pending() + produced(fresh, ops) =~= produced(fresh, ops));
    let taken = slots_taken(fresh, ops);
    assert(taken[capacity - 1] == (capacity - 1) - (capacity - 1));
    assert(taken[capacity as int] == capacity - (capacity - 1));
}

} // verus!
