//! The pair of task queues behind the current worker generation, and the
//! restart protocol that replaces them.
//!
//! A restart discards the running generation's queues, installs fresh empty
//! ones, and hands out a new producer handle. A producer still holding a
//! handle from an earlier generation is permanently inert: its pushes change
//! nothing and report failure instead of erroring, so a stale handle is
//! always safe to use.

use vstd::prelude::*;
use crate::queue::TaskQueue;
use crate::queue::queue_push_model;
use crate::queue::min_nat;
use crate::task::M2WTask;

verus! {

/// Capacity of each queue: large enough that one processing block's worth of
/// note events never overflows under normal musical input.
pub const QUEUE_CAPACITY: usize = 1024;

/// The token a producer holds to push into a specific worker generation.
#[derive(Debug, Clone, Copy, PartialEq, Eq, Structural)]
pub struct ProducerHandle {
    generation: u64,
}

impl ProducerHandle {
    /// The generation this handle addresses.
    pub closed spec fn generation(self) -> u64 {
        self.generation
    }

    /// The generation number this handle addresses, as the host sees it.
    pub fn generation_of(&self) -> (g: u64)
        ensures
            g == self.generation(),
    {
        self.generation
    }
}

/// Where a push through a handle lands: appended to the live generation's
/// queue (when there is room) if the handle is live, and nowhere at all if
/// the handle is stale.
pub open spec fn routed_push(live: u64, h: u64, items: Seq<M2WTask>, t: M2WTask) -> Seq<M2WTask> {
    if h == live {
        queue_push_model(items, QUEUE_CAPACITY as nat, t)
    } else {
        items
    }
}

/// After a restart, a push through the freshly issued handle always reaches
/// the new generation's queue — which starts empty, so the task is the only
/// thing there — while a push through any other generation's handle is
/// inert: it lands nowhere, and (by the push contracts) merely reports
/// failure instead of erroring.
pub proof fn lemma_restart_routing(live: u64, stale: u64, t: M2WTask)
    requires
        stale != live,
    ensures
        routed_push(live, stale, Seq::<M2WTask>::empty(), t) == Seq::<M2WTask>::empty(),
        routed_push(live, live, Seq::<M2WTask>::empty(), t) == seq![t],
{
    assert(Seq::<M2WTask>::empty().push(t) =~= seq![t]);
}

/// The current generation's queues: one for real-time note events, one for
/// control tasks (program reloads).
pub struct TaskBridge {
    generation: u64,
    events: TaskQueue,
    controls: TaskQueue,
}

impl TaskBridge {
    /// The live generation number.
    pub closed spec fn generation(self) -> u64 {
        self.generation
    }

    /// The queued real-time events, oldest first.
    pub closed spec fn events(self) -> Seq<M2WTask> {
        self.events.items()
    }

    /// The queued control tasks, oldest first.
    pub closed spec fn controls(self) -> Seq<M2WTask> {
        self.controls.items()
    }

    /// Both queues stay within the fixed capacity.
    pub open spec fn wf(self) -> bool {
        self.events().len() <= QUEUE_CAPACITY && self.controls().len() <= QUEUE_CAPACITY
            && self.events_capacity() == QUEUE_CAPACITY && self.controls_capacity()
            == QUEUE_CAPACITY
    }

    /// The event queue's fixed capacity.
    pub closed spec fn events_capacity(self) -> nat {
        self.events.capacity()
    }

    /// The control queue's fixed capacity.
    pub closed spec fn controls_capacity(self) -> nat {
        self.controls.capacity()
    }

    /// A fresh bridge: generation zero, both queues empty. The returned
    /// handle addresses this first generation.
    pub fn new() -> (r: (TaskBridge, ProducerHandle))
        ensures
            r.0.wf(),
            r.0.generation() == 0,
            r.0.events() == Seq::<M2WTask>::empty(),
            r.0.controls() == Seq::<M2WTask>::empty(),
            r.1.generation() == 0,
    {
        let b = TaskBridge {
            generation: 0,
            events: TaskQueue::new(QUEUE_CAPACITY),
            controls: TaskQueue::new(QUEUE_CAPACITY),
        };
        (b, ProducerHandle { generation: 0 })
    }

    /// A handle for the generation that is live right now.
    pub fn handle(&self) -> (h: ProducerHandle)
        ensures
            h.generation() == self.generation(),
    {
        ProducerHandle { generation: self.generation }
    }

    /// Replace the running generation: discard both queues with whatever
    /// they still hold, install fresh empty ones, and hand out the handle of
    /// the new generation. Every handle of an earlier generation is inert
    /// from this point on.
    pub fn restart(&mut self) -> (h: ProducerHandle)
        requires
            old(self).generation() < u64::MAX,
        ensures
            final(self).wf(),
            final(self).generation() == old(self).generation() + 1,
            final(self).events() == Seq::<M2WTask>::empty(),
            final(self).controls() == Seq::<M2WTask>::empty(),
            h.generation() == final(self).generation(),
    {
        self.generation = self.generation + 1;
        self.events = TaskQueue::new(QUEUE_CAPACITY);
        self.controls = TaskQueue::new(QUEUE_CAPACITY);
        ProducerHandle { generation: self.generation }
    }

    /// Push a real-time event task. Never blocks: with a stale handle or a
    /// full queue the task is dropped and `false` comes back. A push through
    /// the live handle always lands in the live generation's queue.
    pub fn push_event(&mut self, h: &ProducerHandle, t: M2WTask) -> (ok: bool)
        requires
            old(self).wf(),
        ensures
            final(self).wf(),
            final(self).generation() == old(self).generation(),
            final(self).controls() == old(self).controls(),
            final(self).events() == routed_push(
                old(self).generation(),
                h.generation(),
                old(self).events(),
                t,
            ),
            ok == (h.generation() == old(self).generation() && old(self).events().len()
                < QUEUE_CAPACITY),
    {
        if h.generation == self.generation {
            self.events.push(t)
        } else {
            false
        }
    }

    /// Push a control task; the same contract as [`Self::push_event`], on
    /// the control queue.
    pub fn push_control(&mut self, h: &ProducerHandle, t: M2WTask) -> (ok: bool)
        requires
            old(self).wf(),
        ensures
            final(self).wf(),
            final(self).generation() == old(self).generation(),
            final(self).events() == old(self).events(),
            final(self).controls() == routed_push(
                old(self).generation(),
                h.generation(),
                old(self).controls(),
                t,
            ),
            ok == (h.generation() == old(self).generation() && old(self).controls().len()
                < QUEUE_CAPACITY),
    {
        if h.generation == self.generation {
            self.controls.push(t)
        } else {
            false
        }
    }

    /// Take the next task for the worker, draining the real-time event queue
    /// before the control queue. `None` exactly when both are empty.
    pub fn pop_task(&mut self) -> (t: Option<M2WTask>)
        requires
            old(self).wf(),
        ensures
            final(self).wf(),
            final(self).generation() == old(self).generation(),
            match t {
                Some(x) => if old(self).events().len() > 0 {
                    x == old(self).events()[0] && final(self).events()
                        == old(self).events().drop_first() && final(self).controls()
                        == old(self).controls()
                } else {
                    old(self).controls().len() > 0 && x == old(self).controls()[0]
                        && final(self).controls() == old(self).controls().drop_first()
                        && final(self).events() == old(self).events()
                },
                None => old(self).events().len() == 0 && old(self).controls().len() == 0
                    && final(self).events() == old(self).events() && final(self).controls()
                    == old(self).controls(),
            },
    {
        let first = self.events.pop();
        match first {
            Some(t) => Some(t),
            None => self.controls.pop(),
        }
    }

    /// The number of queued real-time events.
    pub fn pending_events(&self) -> (n: usize)
        ensures
            n as nat == self.events().len(),
    {
        self.events.len()
    }

    /// The number of queued control tasks.
    pub fn pending_controls(&self) -> (n: usize)
        ensures
            n as nat == self.controls().len(),
    {
        self.controls.len()
    }

    /// The live generation number, as the host sees it.
    pub fn generation_number(&self) -> (g: u64)
        ensures
            g == self.generation(),
    {
        self.generation
    }
}

/// Push one processing block's note events through a producer handle: each
/// `(note, on)` pair becomes an `M2WTask::MIDI` task, in order. With a stale
/// handle nothing is pushed; with the live handle exactly as many events as
/// fit are appended and the rest are dropped, never blocking the caller.
pub fn push_note_events(b: &mut TaskBridge, h: &ProducerHandle, notes: &Vec<(u8, bool)>) -> (accepted:
    usize)
    requires
        old(b).wf(),
    ensures
        final(b).wf(),
        final(b).generation() == old(b).generation(),
        final(b).controls() == old(b).controls(),
        h.generation() != old(b).generation() ==> final(b).events() == old(b).events() && accepted
            == 0,
        h.generation() == old(b).generation() ==> accepted as nat == min_nat(
            notes@.len(),
            (QUEUE_CAPACITY - old(b).events().len()) as nat,
        ) && final(b).events() == old(b).events() + note_tasks(notes@).take(accepted as int),
{
    let ghost orig = b.events();
    let mut i: usize = 0;
    let mut accepted: usize = 0;
    if b.generation_number() != h.generation_of() {
        return 0;
    }
    while i < notes.len()
        invariant
            old(b).generation() == h.generation(),
            i <= notes@.len(),
            b.wf(),
            b.generation() == old(b).generation(),
            b.controls() == old(b).controls(),
            orig == old(b).events(),
            accepted as nat == min_nat(i as nat, (QUEUE_CAPACITY - orig.len()) as nat),
            b.events() == orig + note_tasks(notes@).take(accepted as int),
            b.events().len() == orig.len() + accepted,
        decreases notes@.len() - i,
    {
        let pair = notes[i];
        let ok = b.push_event(h, M2WTask::MIDI(pair.0 as i64, pair.1));
        proof {
            assert(note_tasks(notes@)[i as int] == M2WTask::MIDI(notes@[i as int].0 as i64, notes@[i as int].1));
            if ok {
                assert(orig + note_tasks(notes@).take(accepted as int) + seq![
                    note_tasks(notes@)[accepted as int],
                ] =~= orig + note_tasks(notes@).take(accepted as int + 1));
            }
        }
        if ok {
            accepted = accepted + 1;
        }
        i = i + 1;
    }
    accepted
}

/// The task each note pair becomes.
pub open spec fn note_tasks(notes: Seq<(u8, bool)>) -> Seq<M2WTask> {
    notes.map_values(|p: (u8, bool)| M2WTask::MIDI(p.0 as i64, p.1))
}

} // verus!
