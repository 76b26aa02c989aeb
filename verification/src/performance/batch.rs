//! Batching of items: a batch is handed out when it reaches its size or when the flush
//! interval has passed since the last flush.
use crate::clock::{duration_as_nanos, duration_nanos, elapsed_nanos, instant_now};
use std::time::{Duration, Instant};
use vstd::prelude::*;

verus! {

/// What a batch processor holds, as the contracts see it.
pub struct BatchState<T> {
    /// The items pushed since the last flush, oldest first.
    pub batch: Seq<T>,
    pub batch_size: usize,
    /// The flush interval, in whole nanoseconds.
    pub flush_interval_nanos: u128,
}

/// A batch handed out, as the contracts see it.
pub open spec fn batch_view<T>(r: Option<Vec<T>>) -> Option<Seq<T>> {
    match r {
        Some(b) => Some(b@),
        None => None,
    }
}

/// The items handed out.
pub open spec fn handed<T>(out: Option<Seq<T>>) -> Seq<T> {
    match out {
        Some(b) => b,
        None => Seq::empty(),
    }
}

/// What a flush of state `s` hands out, and the state after it.
pub open spec fn flush_outcome<T>(s: BatchState<T>) -> (Option<Seq<T>>, BatchState<T>) {
    if s.batch.len() == 0 {
        (None, s)
    } else {
        (Some(s.batch), BatchState { batch: Seq::empty(), ..s })
    }
}

/// What pushing `item` onto state `s` hands out, and the state after it: the whole batch
/// when it reaches the batch size or the flush interval has passed.
pub open spec fn push_outcome<T>(s: BatchState<T>, item: T, interval_elapsed: bool) -> (
    Option<Seq<T>>,
    BatchState<T>,
) {
    let b = s.batch.push(item);
    if b.len() >= s.batch_size || interval_elapsed {
        (Some(b), BatchState { batch: Seq::empty(), ..s })
    } else {
        (None, BatchState { batch: b, ..s })
    }
}

/// No item is lost, duplicated or reordered: what a push or a flush hands out, followed by
/// the batch it leaves, is the batch before it with the pushed item at the end; a batch
/// handed out is never empty.
pub proof fn law_batches_keep_every_item_in_order<T>(s: BatchState<T>, item: T, interval_elapsed: bool)
    ensures
        handed(push_outcome(s, item, interval_elapsed).0) + push_outcome(s, item, interval_elapsed).1.batch
            == s.batch.push(item),
        handed(flush_outcome(s).0) + flush_outcome(s).1.batch == s.batch,
        push_outcome(s, item, interval_elapsed).0 matches Some(b) ==> b.len() > 0,
        flush_outcome(s).0 matches Some(b) ==> b.len() > 0,
{
    assert(s.batch.push(item) + Seq::<T>::empty() =~= s.batch.push(item));
    assert(Seq::<T>::empty() + s.batch.push(item) =~= s.batch.push(item));
    assert(s.batch + Seq::<T>::empty() =~= s.batch);
    assert(Seq::<T>::empty() + s.batch =~= s.batch);
}

/// A push hands out everything pending with the item at the end, leaving nothing pending,
/// whenever the batch is full with it or at least the flush interval has passed since the
/// last flush; otherwise it hands out nothing and keeps the item pending.
pub proof fn law_push_flushes_on_size_or_interval<T>(s: BatchState<T>, item: T, elapsed_nanos: u128)
    ensures
        (s.batch.len() + 1 >= s.batch_size || elapsed_nanos >= s.flush_interval_nanos) ==> ({
            let o = push_outcome(s, item, elapsed_nanos >= s.flush_interval_nanos);
            o.0 == Some(s.batch.push(item)) && o.1.batch.len() == 0
        }),
        !(s.batch.len() + 1 >= s.batch_size || elapsed_nanos >= s.flush_interval_nanos) ==> ({
            let o = push_outcome(s, item, elapsed_nanos >= s.flush_interval_nanos);
            o.0 is None && o.1.batch == s.batch.push(item)
        }),
{
}

/// A call on a batch processor: a push of an item with the nanoseconds elapsed since the
/// last flush, or a flush.
pub enum BatchOp<T> {
    Push(T, u128),
    Flush,
}

/// What the call `op` on state `s` hands out, and the state after it.
pub open spec fn batch_step<T>(s: BatchState<T>, op: BatchOp<T>) -> (Option<Seq<T>>, BatchState<T>) {
    match op {
        BatchOp::Push(item, elapsed) => push_outcome(s, item, elapsed >= s.flush_interval_nanos),
        BatchOp::Flush => flush_outcome(s),
    }
}

/// Everything that the calls `ops` on state `s` hand out, in call order, and the state
/// after them.
pub open spec fn batch_run<T>(s: BatchState<T>, ops: Seq<BatchOp<T>>) -> (Seq<T>, BatchState<T>)
    decreases ops.len(),
{
    if ops.len() == 0 {
        (Seq::empty(), s)
    } else {
        let before = batch_run(s, ops.drop_last());
        let step = batch_step(before.1, ops.last());
        (before.0 + handed(step.0), step.1)
    }
}

/// The items that the calls `ops` push, in order.
pub open spec fn pushed_items<T>(ops: Seq<BatchOp<T>>) -> Seq<T>
    decreases ops.len(),
{
    if ops.len() == 0 {
        Seq::empty()
    } else {
        match ops.last() {
            BatchOp::Push(item, _) => pushed_items(ops.drop_last()).push(item),
            BatchOp::Flush => pushed_items(ops.drop_last()),
        }
    }
}

/// Over any sequence of pushes and flushes, what is handed out, in call order, followed by
/// what is still pending, is what was pending at the start followed by every pushed item:
/// no item is lost, duplicated or reordered. The batch size and interval stay as they were.
pub proof fn law_batch_calls_keep_every_item_in_order<T>(s: BatchState<T>, ops: Seq<BatchOp<T>>)
    ensures
        batch_run(s, ops).0 + batch_run(s, ops).1.batch == s.batch + pushed_items(ops),
        batch_run(s, ops).1.batch_size == s.batch_size,
        batch_run(s, ops).1.flush_interval_nanos == s.flush_interval_nanos,
    decreases ops.len(),
{
    if ops.len() == 0 {
        assert(Seq::<T>::empty() + s.batch =~= s.batch);
        assert(s.batch + Seq::<T>::empty() =~= s.batch);
    } else {
        let rest = ops.drop_last();
        law_batch_calls_keep_every_item_in_order(s, rest);
        let before = batch_run(s, rest);
        let mid = before.1;
        match ops.last() {
            BatchOp::Push(item, elapsed) => {
                law_batches_keep_every_item_in_order(mid, item, elapsed >= mid.flush_interval_nanos);
                let o = push_outcome(mid, item, elapsed >= mid.flush_interval_nanos);
                assert(before.0 + handed(o.0) + o.1.batch =~= before.0 + (handed(o.0) + o.1.batch));
                assert(s.batch + pushed_items(rest).push(item) =~= (s.batch + pushed_items(rest)).push(
                    item,
                ));
                assert(before.0 + mid.batch.push(item) =~= (before.0 + mid.batch).push(item));
            },
            BatchOp::Flush => {
                law_batches_keep_every_item_in_order(mid, arbitrary(), false);
                let o = flush_outcome(mid);
                assert(before.0 + handed(o.0) + o.1.batch =~= before.0 + (handed(o.0) + o.1.batch));
            },
        }
    }
}

/// Batch processor for efficient event handling.
pub struct BatchProcessor<T> {
    batch: Vec<T>,
    batch_size: usize,
    last_flush: Instant,
    flush_interval: Duration,
}

impl<T> View for BatchProcessor<T> {
    type V = BatchState<T>;

    closed spec fn view(&self) -> BatchState<T> {
        BatchState {
            batch: self.batch@,
            batch_size: self.batch_size,
            flush_interval_nanos: duration_nanos(self.flush_interval),
        }
    }
}

impl<T> BatchProcessor<T> {
    /// When the current batch was started: at creation or at the last flush that handed
    /// out a batch.
    pub closed spec fn last_flush(&self) -> Instant {
        self.last_flush
    }

    pub fn new(batch_size: usize, flush_interval: Duration) -> (p: Self)
        ensures
            p@.batch.len() == 0,
            p@.batch_size == batch_size,
            p@.flush_interval_nanos == duration_nanos(flush_interval),
    {
        BatchProcessor {
            batch: Vec::with_capacity(batch_size),
            batch_size,
            last_flush: instant_now(),
            flush_interval,
        }
    }

    /// Adds `item`; hands out the whole batch when it has reached the batch size or the
    /// flush interval has passed since the last flush, as `push_at` decides with the time
    /// elapsed read from the clock.
    pub fn push(&mut self, item: T) -> (r: Option<Vec<T>>)
        ensures
            exists|elapsed: u128|
                (batch_view(r), final(self)@) == #[trigger] batch_step(old(self)@, BatchOp::Push(item, elapsed)),
            old(self)@.batch.len() + 1 >= old(self)@.batch_size ==> r is Some,
            r matches Some(b) ==> b@ == old(self)@.batch.push(item) && final(self)@.batch.len()
                == 0,
            r is None ==> final(self)@.batch == old(self)@.batch.push(item),
            r is None ==> final(self).last_flush() == old(self).last_flush(),
            exists|d: Duration|
                (batch_view(r), final(self)@) == push_outcome(
                    old(self)@,
                    item,
                    #[trigger] duration_nanos(d) >= old(self)@.flush_interval_nanos,
                ),
    {
        let elapsed = elapsed_nanos(&self.last_flush);
        let r = self.push_at(item, elapsed);
        assert((batch_view(r), self@) == batch_step(old(self)@, BatchOp::Push(item, elapsed)));
        r
    }

    /// Adds `item`, `elapsed_nanos` nanoseconds after the last flush; hands out the whole
    /// batch, oldest first, exactly when it has reached the batch size or the flush interval
    /// has passed. Otherwise the time of the last flush is kept.
    pub fn push_at(&mut self, item: T, elapsed_nanos: u128) -> (r: Option<Vec<T>>)
        ensures
            (batch_view(r), final(self)@) == push_outcome(
                old(self)@,
                item,
                elapsed_nanos >= old(self)@.flush_interval_nanos,
            ),
            r is None ==> final(self).last_flush() == old(self).last_flush(),
    {
        let interval = duration_as_nanos(&self.flush_interval);
        self.batch.push(item);
        if self.batch.len() >= self.batch_size || elapsed_nanos >= interval {
            let r = self.flush();
            assert(self@.batch =~= Seq::<T>::empty());
            r
        } else {
            None
        }
    }

    /// Hands out the current batch, oldest first, and starts an empty one at the current
    /// time; `None`, and nothing changed, when the batch is empty.
    pub fn flush(&mut self) -> (r: Option<Vec<T>>)
        ensures
            (batch_view(r), final(self)@) == flush_outcome(old(self)@),
            old(self)@.batch.len() == 0 ==> final(self).last_flush() == old(self).last_flush(),
    {
        if self.batch.len() == 0 {
            None
        } else {
            let mut batch = Vec::with_capacity(self.batch_size);
            std::mem::swap(&mut self.batch, &mut batch);
            self.last_flush = instant_now();
            assert(self@.batch =~= Seq::<T>::empty());
            Some(batch)
        }
    }

    pub fn len(&self) -> (r: usize)
        ensures
            r == self@.batch.len(),
    {
        self.batch.len()
    }
}

} // verus!
