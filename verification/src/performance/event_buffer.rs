//! A bounded first-in first-out event buffer over `crossbeam_queue::ArrayQueue`.
//!
//! Items are event numbers (`u64`), by which the events they stand for are found again.
use crossbeam_queue::ArrayQueue;
use vstd::prelude::*;

verus! {

/// `crossbeam_queue::ArrayQueue`, a bounded queue.
#[verifier::external_type_specification]
#[verifier::external_body]
#[verifier::reject_recursive_types(T)]
pub struct ExArrayQueue<T>(ArrayQueue<T>);

/// The items an `ArrayQueue` holds, from the head (next to pop) to the tail.
pub uninterp spec fn queue_items(q: ArrayQueue<u64>) -> Seq<u64>;

/// The capacity an `ArrayQueue` was made with.
pub uninterp spec fn queue_capacity(q: ArrayQueue<u64>) -> nat;

/// Calls `ArrayQueue::new`, which panics on a zero capacity and on one whose successor has
/// no next power of two in a `usize`. The queue is empty and has capacity `cap`.
#[verifier::external_body]
fn array_queue_new(cap: usize) -> (q: ArrayQueue<u64>)
    requires
        0 < cap <= usize::MAX / 2,
    ensures
        queue_items(q) == Seq::<u64>::empty(),
        queue_capacity(q) == cap,
{
    ArrayQueue::new(cap)
}

/// A successful push.
pub open spec fn push_accepted() -> Result<(), u64> {
    Ok(())
}

/// A push refused, the item handed back.
pub open spec fn push_refused(item: u64) -> Result<(), u64> {
    Err(item)
}

/// Calls `ArrayQueue::push` with exclusive access: the item goes to the tail unless the
/// queue holds `capacity` items, in which case it is handed back.
#[verifier::external_body]
fn array_queue_push(q: &mut ArrayQueue<u64>, value: u64) -> (r: Result<(), u64>)
    ensures
        queue_capacity(*final(q)) == queue_capacity(*old(q)),
        queue_items(*old(q)).len() < queue_capacity(*old(q)) ==> (r == push_accepted()
            && queue_items(*final(q)) == queue_items(*old(q)).push(value)),
        queue_items(*old(q)).len() >= queue_capacity(*old(q)) ==> (r == push_refused(value)
            && queue_items(*final(q)) == queue_items(*old(q))),
{
    q.push(value)
}

/// Calls `ArrayQueue::pop` with exclusive access: the head item, or `None` on an empty queue.
#[verifier::external_body]
fn array_queue_pop(q: &mut ArrayQueue<u64>) -> (r: Option<u64>)
    ensures
        queue_capacity(*final(q)) == queue_capacity(*old(q)),
        queue_items(*old(q)).len() == 0 ==> (r is None && queue_items(*final(q)) == queue_items(*old(q))),
        queue_items(*old(q)).len() > 0 ==> (r == Some(queue_items(*old(q))[0]) && queue_items(*final(q)) == queue_items(*old(q)).drop_first()),
{
    q.pop()
}

/// Calls `ArrayQueue::len`: the number of items held.
#[verifier::external_body]
fn array_queue_len(q: &ArrayQueue<u64>) -> (r: usize)
    ensures
        r == queue_items(*q).len(),
{
    q.len()
}

/// What an event buffer holds, as the contracts see it.
pub struct EventBufferState {
    /// Items from the oldest (next to pop) to the newest.
    pub items: Seq<u64>,
    pub capacity: nat,
}

/// The result and the state after pushing `item` onto a buffer in state `s`: it goes to
/// the newest end when there is room, and is handed back otherwise.
pub open spec fn push_outcome(s: EventBufferState, item: u64) -> (Result<(), u64>, EventBufferState) {
    if s.items.len() < s.capacity {
        (push_accepted(), EventBufferState { items: s.items.push(item), ..s })
    } else {
        (push_refused(item), s)
    }
}

/// The result and the state after popping from a buffer in state `s`: the oldest item, or
/// `None` when empty.
pub open spec fn pop_outcome(s: EventBufferState) -> (Option<u64>, EventBufferState) {
    if s.items.len() == 0 {
        (None, s)
    } else {
        (Some(s.items[0]), EventBufferState { items: s.items.drop_first(), ..s })
    }
}

/// The items that popping a buffer in state `s` until it is empty yields, in order.
pub open spec fn drained(s: EventBufferState) -> Seq<u64>
    decreases s.items.len(),
{
    if s.items.len() == 0 {
        Seq::empty()
    } else {
        seq![pop_outcome(s).0->0] + drained(pop_outcome(s).1)
    }
}

/// First in, first out: popping until empty yields the items in the order they were
/// pushed.
pub proof fn law_drain_in_push_order(s: EventBufferState)
    ensures
        drained(s) == s.items,
    decreases s.items.len(),
{
    if s.items.len() > 0 {
        law_drain_in_push_order(pop_outcome(s).1);
        assert(seq![s.items[0]] + s.items.drop_first() =~= s.items);
    }
}

/// A push onto a buffer with room is the last thing popped after everything already in it;
/// a push onto a full buffer hands the item back and changes nothing.
pub proof fn law_push_then_drain(s: EventBufferState, item: u64)
    ensures
        s.items.len() < s.capacity ==> drained(push_outcome(s, item).1) == s.items.push(item),
        s.items.len() >= s.capacity ==> push_outcome(s, item) == (push_refused(item), s),
{
    law_drain_in_push_order(push_outcome(s, item).1);
}

/// High-performance bounded event buffer.
pub struct EventBuffer {
    buffer: ArrayQueue<u64>,
    capacity: usize,
}

impl View for EventBuffer {
    type V = EventBufferState;

    closed spec fn view(&self) -> EventBufferState {
        EventBufferState { items: queue_items(self.buffer), capacity: self.capacity as nat }
    }
}

impl EventBuffer {
    /// The buffer's capacity is that of its queue.
    pub closed spec fn agrees(&self) -> bool {
        queue_capacity(self.buffer) == self.capacity
    }

    /// The buffer agrees with its queue, and holds no more than its capacity.
    pub open spec fn wf(&self) -> bool {
        &&& self.agrees()
        &&& self@.items.len() <= self@.capacity
    }

    pub fn new(capacity: usize) -> (b: Self)
        requires
            0 < capacity <= usize::MAX / 2,
        ensures
            b.wf(),
            b@.items == Seq::<u64>::empty(),
            b@.capacity == capacity,
    {
        EventBuffer { buffer: array_queue_new(capacity), capacity }
    }

    /// Appends `item` at the newest end; when the buffer is full it is handed back.
    pub fn push(&mut self, item: u64) -> (r: Result<(), u64>)
        requires
            old(self).wf(),
        ensures
            final(self).wf(),
            (r, final(self)@) == push_outcome(old(self)@, item),
    {
        array_queue_push(&mut self.buffer, item)
    }

    /// Removes and returns the oldest item; `None` when the buffer is empty.
    pub fn pop(&mut self) -> (r: Option<u64>)
        requires
            old(self).wf(),
        ensures
            final(self).wf(),
            (r, final(self)@) == pop_outcome(old(self)@),
    {
        array_queue_pop(&mut self.buffer)
    }

    pub fn len(&self) -> (r: usize)
        ensures
            r == self@.items.len(),
    {
        array_queue_len(&self.buffer)
    }

    pub fn is_full(&self) -> (r: bool)
        ensures
            r == (self@.items.len() == self@.capacity),
    {
        array_queue_len(&self.buffer) == self.capacity
    }

    pub fn capacity(&self) -> (r: usize)
        ensures
            r == self@.capacity,
    {
        self.capacity
    }
}

} // verus!
