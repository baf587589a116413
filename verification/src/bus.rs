//! The control bus: a bounded FIFO of typed messages from producers (UI,
//! keyboard) into the audio-render context.
//!
//! The queue itself is crossbeam's `ArrayQueue`. Pushing onto a full queue
//! fails and drops the message; popping an empty queue returns nothing;
//! successful pushes come back out in FIFO order.

use vstd::prelude::*;
use crate::note::Note;
use crate::osc::Waveform;
use crate::filter::FilterType;

verus! {

/// How many messages the bus can hold.
pub const QUEUE_CAP: usize = 2048;

/// A control message. Levels, times and resonance are Q16; cutoffs are
/// millihertz.
#[derive(Debug)]
pub enum Msg {
    NoteOn { note: Note },
    NoteOff { note: Note },
    SetMasterVolume(i64),
    SetAdsr { a: i64, d: i64, s: i64, r: i64 },
    SetWaveform(Waveform),
    SetFilter(Option<FilterType>),
}

#[verifier::external_type_specification]
#[verifier::external_body]
#[verifier::reject_recursive_types(T)]
pub struct ExArrayQueue<T>(crossbeam::queue::ArrayQueue<T>);

/// The messages currently queued, oldest first.
pub uninterp spec fn queue_contents(q: crossbeam::queue::ArrayQueue<Msg>) -> Seq<Msg>;

/// The fixed capacity the queue was created with.
pub uninterp spec fn queue_capacity(q: crossbeam::queue::ArrayQueue<Msg>) -> nat;

/// Relies on crossbeam's `ArrayQueue::new`: a fresh queue of the given
/// capacity holds nothing. (`new` panics on capacity zero, hence the bound.)
#[verifier::external_body]
fn queue_with_capacity(cap: usize) -> (q: crossbeam::queue::ArrayQueue<Msg>)
    requires
        1 <= cap <= 1000000,
    ensures
        queue_contents(q) == Seq::<Msg>::empty(),
        queue_capacity(q) == cap as nat,
{
    crossbeam::queue::ArrayQueue::new(cap)
}

/// Relies on crossbeam's `ArrayQueue::push`: with exclusive access, the push
/// succeeds and appends at the tail exactly when the queue is not full, and
/// fails leaving the queue unchanged when it is.
#[verifier::external_body]
fn queue_push(q: &mut crossbeam::queue::ArrayQueue<Msg>, m: Msg) -> (ok: bool)
    ensures
        queue_capacity(*final(q)) == queue_capacity(*old(q)),
        queue_contents(*old(q)).len() < queue_capacity(*old(q)) ==> ok && queue_contents(
            *final(q),
        ) == queue_contents(*old(q)).push(m),
        queue_contents(*old(q)).len() >= queue_capacity(*old(q)) ==> !ok && queue_contents(
            *final(q),
        ) == queue_contents(*old(q)),
{
    match q.push(m) {
        Ok(()) => true,
        Err(_dropped) => false,
    }
}

/// Relies on crossbeam's `ArrayQueue::pop`: with exclusive access, the pop
/// returns the oldest element when there is one and nothing otherwise.
#[verifier::external_body]
fn queue_pop(q: &mut crossbeam::queue::ArrayQueue<Msg>) -> (r: Option<Msg>)
    ensures
        queue_capacity(*final(q)) == queue_capacity(*old(q)),
        queue_contents(*old(q)).len() > 0 ==> r == Some(queue_contents(*old(q))[0])
            && queue_contents(*final(q)) == queue_contents(*old(q)).subrange(
            1,
            queue_contents(*old(q)).len() as int,
        ),
        queue_contents(*old(q)).len() == 0 ==> r is None && queue_contents(*final(q))
            == queue_contents(*old(q)),
{
    q.pop()
}

/// The bounded control-message bus.
#[derive(Debug)]
pub struct SharedBus {
    /// The underlying bounded lock-free queue.
    pub q: crossbeam::queue::ArrayQueue<Msg>,
}

impl SharedBus {
    /// The queued messages, oldest first.
    pub open spec fn contents(self) -> Seq<Msg> {
        queue_contents(self.q)
    }

    /// The fixed capacity.
    pub open spec fn capacity(self) -> nat {
        queue_capacity(self.q)
    }

    /// Build an empty bus of capacity `QUEUE_CAP`.
    pub fn new() -> (b: SharedBus)
        ensures
            b.contents() == Seq::<Msg>::empty(),
            b.capacity() == QUEUE_CAP as nat,
    {
        SharedBus { q: queue_with_capacity(QUEUE_CAP) }
    }

    /// Append a message; fails (dropping the message) exactly when the bus
    /// is already full.
    pub fn push(&mut self, m: Msg) -> (ok: bool)
        ensures
            final(self).capacity() == old(self).capacity(),
            old(self).contents().len() < old(self).capacity() ==> ok && final(self).contents()
                == old(self).contents().push(m),
            old(self).contents().len() >= old(self).capacity() ==> !ok && final(self).contents()
                == old(self).contents(),
    {
        queue_push(&mut self.q, m)
    }

    /// Take the oldest message, if any.
    pub fn pop(&mut self) -> (r: Option<Msg>)
        ensures
            final(self).capacity() == old(self).capacity(),
            old(self).contents().len() > 0 ==> r == Some(old(self).contents()[0])
                && final(self).contents() == old(self).contents().subrange(
                1,
                old(self).contents().len() as int,
            ),
            old(self).contents().len() == 0 ==> r is None
                && final(self).contents() == old(self).contents(),
    {
        queue_pop(&mut self.q)
    }
}

impl Default for SharedBus {
    /// An empty bus of the standard capacity.
    fn default() -> (b: SharedBus)
        ensures
            b.contents() == Seq::<Msg>::empty(),
            b.capacity() == QUEUE_CAP as nat,
    {
        SharedBus::new()
    }
}

} // verus!
