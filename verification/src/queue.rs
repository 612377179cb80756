//! The bounded FIFO task queue that carries work from a producer thread into
//! the worker.
//!
//! The ring buffer itself comes from the `rtrb` crate: a bounded
//! single-producer/single-consumer queue whose `push` fails on a full queue
//! instead of blocking, and whose `pop` fails on an empty queue instead of
//! waiting. [`TaskQueue`] owns both halves of one ring, so its contents can
//! be tracked as a single sequence; the producer and consumer sides of a
//! deployment that spreads the halves over two threads rely on exactly the
//! FIFO contract stated here.

use vstd::prelude::*;
use crate::task::M2WTask;

verus! {

#[verifier::external_type_specification]
#[verifier::external_body]
#[verifier::reject_recursive_types(T)]
pub struct ExProducer<T>(rtrb::Producer<T>);

#[verifier::external_type_specification]
#[verifier::external_body]
#[verifier::reject_recursive_types(T)]
pub struct ExConsumer<T>(rtrb::Consumer<T>);

/// The tasks currently sitting in the ring that `c` reads, oldest first.
pub uninterp spec fn ring_items(c: rtrb::Consumer<M2WTask>) -> Seq<M2WTask>;

/// The fixed capacity of the ring that `c` reads.
pub uninterp spec fn ring_capacity(c: rtrb::Consumer<M2WTask>) -> nat;

/// What a push leaves in the queue: the task is appended when there is room,
/// and the queue is unchanged when it is full.
pub open spec fn queue_push_model(items: Seq<M2WTask>, cap: nat, t: M2WTask) -> Seq<M2WTask> {
    if items.len() < cap {
        items.push(t)
    } else {
        items
    }
}

/// The queue contents after pushing every task of `ts` in order.
pub open spec fn queue_after_pushes(items: Seq<M2WTask>, cap: nat, ts: Seq<M2WTask>) -> Seq<
    M2WTask,
>
    decreases ts.len(),
{
    if ts.len() == 0 {
        items
    } else {
        queue_after_pushes(queue_push_model(items, cap, ts[0]), cap, ts.drop_first())
    }
}

/// FIFO, nothing lost, nothing duplicated: as long as the batch fits into the
/// remaining room, pushing it appends it unchanged, so the pops that follow
/// observe exactly the push order.
pub proof fn lemma_queue_fifo(items: Seq<M2WTask>, cap: nat, ts: Seq<M2WTask>)
    requires
        items.len() + ts.len() <= cap,
    ensures
        queue_after_pushes(items, cap, ts) == items + ts,
    decreases ts.len(),
{
    if ts.len() == 0 {
        assert(items + ts =~= items);
    } else {
        lemma_queue_fifo(items.push(ts[0]), cap, ts.drop_first());
        assert(items.push(ts[0]) + ts.drop_first() =~= items + ts);
    }
}

/// The law for a whole burst: pushing any batch that fits onto an empty
/// queue leaves exactly that batch queued, so the pops that follow observe
/// it in push order, nothing lost, nothing duplicated.
pub proof fn lemma_queue_round_trip(ts: Seq<M2WTask>, cap: nat)
    requires
        ts.len() <= cap,
    ensures
        queue_after_pushes(Seq::<M2WTask>::empty(), cap, ts) == ts,
{
    lemma_queue_fifo(Seq::<M2WTask>::empty(), cap, ts);
    assert(Seq::<M2WTask>::empty() + ts =~= ts);
}

/// The occupied count never exceeds the capacity: a push onto a queue within
/// its bound leaves it within its bound.
pub proof fn lemma_queue_occupancy_bound(items: Seq<M2WTask>, cap: nat, t: M2WTask)
    requires
        items.len() <= cap,
    ensures
        queue_push_model(items, cap, t).len() <= cap,
{
}

/// A bounded FIFO queue of tasks, both halves of one `rtrb` ring.
pub struct TaskQueue {
    prod: rtrb::Producer<M2WTask>,
    cons: rtrb::Consumer<M2WTask>,
}

/// Relies on `rtrb::RingBuffer::new`: it returns the producer and consumer
/// halves of a fresh ring with exactly the given capacity and no elements.
#[verifier::external_body]
fn ring_new(capacity: usize) -> (q: TaskQueue)
    requires
        1 <= capacity <= 0x10000000,
    ensures
        ring_items(q.cons) == Seq::<M2WTask>::empty(),
        ring_capacity(q.cons) == capacity as nat,
{
    let (prod, cons) = rtrb::RingBuffer::new(capacity);
    TaskQueue { prod, cons }
}

/// Relies on `rtrb::Producer::push`: it appends the element to the ring and
/// returns `Ok` when a slot is free, and returns the element back in
/// `Err(PushError::Full)` without touching the ring when the queue is full.
/// It never blocks.
#[verifier::external_body]
fn ring_push(q: &mut TaskQueue, t: M2WTask) -> (ok: bool)
    ensures
        ring_capacity(final(q).cons) == ring_capacity(old(q).cons),
        ring_items(final(q).cons) == queue_push_model(
            ring_items(old(q).cons),
            ring_capacity(old(q).cons),
            t,
        ),
        ok == (ring_items(old(q).cons).len() < ring_capacity(old(q).cons)),
{
    match q.prod.push(t) {
        Ok(()) => true,
        Err(rtrb::PushError::Full(_)) => false,
    }
}

/// Relies on `rtrb::Consumer::pop`: it removes and returns the oldest element
/// of the ring, and returns `Err(PopError::Empty)` without touching the ring
/// when the queue is empty. It never blocks.
#[verifier::external_body]
fn ring_pop(q: &mut TaskQueue) -> (t: Option<M2WTask>)
    ensures
        ring_capacity(final(q).cons) == ring_capacity(old(q).cons),
        match t {
            Some(x) => ring_items(old(q).cons).len() > 0 && x == ring_items(old(q).cons)[0]
                && ring_items(final(q).cons) == ring_items(old(q).cons).drop_first(),
            None => ring_items(old(q).cons).len() == 0 && ring_items(final(q).cons) == ring_items(
                old(q).cons,
            ),
        },
{
    q.cons.pop().ok()
}

/// Relies on `rtrb::Consumer::slots`: it returns the number of slots
/// available for reading, which with both halves held in one place is the
/// number of queued elements.
#[verifier::external_body]
fn ring_len(q: &TaskQueue) -> (n: usize)
    ensures
        n as nat == ring_items(q.cons).len(),
{
    q.cons.slots()
}

impl TaskQueue {
    /// The queued tasks, oldest first.
    pub closed spec fn items(self) -> Seq<M2WTask> {
        ring_items(self.cons)
    }

    /// The fixed capacity chosen at construction.
    pub closed spec fn capacity(self) -> nat {
        ring_capacity(self.cons)
    }

    /// The queue never holds more than its capacity.
    pub open spec fn wf(self) -> bool {
        self.items().len() <= self.capacity()
    }

    /// A fresh, empty queue with the given capacity.
    pub fn new(capacity: usize) -> (q: TaskQueue)
        requires
            1 <= capacity <= 0x10000000,
        ensures
            q.items() == Seq::<M2WTask>::empty(),
            q.capacity() == capacity as nat,
            q.wf(),
    {
        ring_new(capacity)
    }

    /// Append a task. Never blocks: on a full queue the task is dropped and
    /// `false` comes back, and the queue is unchanged.
    pub fn push(&mut self, t: M2WTask) -> (ok: bool)
        ensures
            final(self).capacity() == old(self).capacity(),
            final(self).items() == queue_push_model(
                old(self).items(),
                old(self).capacity(),
                t,
            ),
            ok == (old(self).items().len() < old(self).capacity()),
            old(self).wf() ==> final(self).wf(),
    {
        ring_push(self, t)
    }

    /// Remove and return the oldest task. Never blocks: on an empty queue
    /// `None` comes back at once and the queue is unchanged.
    pub fn pop(&mut self) -> (t: Option<M2WTask>)
        ensures
            final(self).capacity() == old(self).capacity(),
            match t {
                Some(x) => old(self).items().len() > 0 && x == old(self).items()[0]
                    && final(self).items() == old(self).items().drop_first(),
                None => old(self).items().len() == 0 && final(self).items() == old(self).items(),
            },
            old(self).wf() ==> final(self).wf(),
    {
        ring_pop(self)
    }

    /// The number of queued tasks.
    pub fn len(&self) -> (n: usize)
        ensures
            n as nat == self.items().len(),
    {
        ring_len(self)
    }

    /// Push a whole batch in order, stopping early only for lack of room:
    /// exactly as many tasks as fit are appended, the rest are dropped.
    pub fn push_batch(&mut self, ts: Vec<M2WTask>) -> (accepted: usize)
        requires
            old(self).wf(),
        ensures
            final(self).wf(),
            final(self).capacity() == old(self).capacity(),
            accepted as nat == min_nat(
                ts@.len(),
                (old(self).capacity() - old(self).items().len()) as nat,
            ),
            final(self).items() == old(self).items() + ts@.take(accepted as int),
    {
        let ghost orig = self.items();
        let ghost all = ts@;
        let mut rest = ts;
        let n: usize = rest.len();
        let mut i: usize = 0;
        // Stop at the first failed push, which can only mean the queue is
        // full; everything accepted so far sits behind the old contents.
        loop
            invariant_except_break
                i as nat + rest@.len() == all.len(),
                rest@ == all.skip(i as int),
            invariant
                all.len() == n as nat,
                self.wf(),
                self.capacity() == old(self).capacity(),
                i as nat <= min_nat(all.len(), (old(self).capacity() - orig.len()) as nat),
                self.items() == orig + all.take(i as int),
                orig == old(self).items(),
                self.items().len() == orig.len() + i,
            ensures
                i as nat == min_nat(all.len(), (old(self).capacity() - orig.len()) as nat),
            decreases rest@.len(),
        {
            if rest.len() == 0 {
                break ;
            }
            let t = rest.remove(0);
            proof {
                assert(t == all[i as int]);
                assert(rest@ =~= all.skip(i as int + 1));
            }
            let ok = self.push(t);
            if !ok {
                proof {
                    assert(i as nat == (old(self).capacity() - orig.len()) as nat);
                }
                break ;
            }
            proof {
                assert(orig + all.take(i as int) + seq![all[i as int]] =~= orig + all.take(
                    i as int + 1,
                ));
            }
            i = i + 1;
        }
        i
    }
}

/// The smaller of two lengths.
pub open spec fn min_nat(a: nat, b: nat) -> nat {
    if a <= b {
        a
    } else {
        b
    }
}

} // verus!
