//! Batch accumulator: two parallel, position-correlated sequences of
//! delivery tags and decoded records, and the size/time flush trigger.

use vstd::prelude::*;

verus! {

/// A batch taken out of the accumulator for one flush: the delivery tag
/// at position `i` belongs to the record at position `i`.
pub struct Batch<R> {
    pub tags: Vec<u64>,
    pub records: Vec<R>,
}

impl<R> Batch<R> {
    /// Position correlation: one tag per record.
    pub open spec fn wf(&self) -> bool {
        self.tags@.len() == self.records@.len()
    }
}

/// Buffers deliveries and their decoded records until a flush trigger fires.
pub struct BatchAccumulator<R> {
    deliveries: Vec<u64>,
    records: Vec<R>,
}

impl<R> BatchAccumulator<R> {
    /// The buffered delivery tags, oldest first.
    pub closed spec fn tags(&self) -> Seq<u64> {
        self.deliveries@
    }

    /// The buffered records, oldest first.
    pub closed spec fn buffered(&self) -> Seq<R> {
        self.records@
    }

    /// Invariant: the two sequences stay position-correlated.
    pub open spec fn wf(&self) -> bool {
        self.tags().len() == self.buffered().len()
    }

    pub fn new() -> (r: Self)
        ensures
            r.wf(),
            r.tags() == Seq::<u64>::empty(),
            r.buffered() == Seq::<R>::empty(),
    {
        BatchAccumulator { deliveries: Vec::new(), records: Vec::new() }
    }

    pub fn len(&self) -> (n: usize)
        requires
            self.wf(),
        ensures
            n == self.tags().len(),
            n == self.buffered().len(),
    {
        self.deliveries.len()
    }

    pub fn is_empty(&self) -> (r: bool)
        requires
            self.wf(),
        ensures
            r == (self.tags().len() == 0),
    {
        self.deliveries.len() == 0
    }

    /// Appends one delivery and its decoded record to the batch, keeping
    /// the position correlation.
    pub fn offer(&mut self, tag: u64, record: R)
        requires
            old(self).wf(),
        ensures
            final(self).wf(),
            final(self).tags() == old(self).tags().push(tag),
            final(self).buffered() == old(self).buffered().push(record),
    {
        self.deliveries.push(tag);
        self.records.push(record);
    }

    /// Decides whether the buffered batch is ready to flush: either the
    /// size threshold is reached, or the flush clock has run out and
    /// something is buffered. A time trigger with an empty buffer never
    /// flushes.
    pub fn should_flush(
        &self,
        size_threshold: usize,
        elapsed_ms: u64,
        time_threshold_ms: u64,
    ) -> (r: bool)
        requires
            self.wf(),
        ensures
            r == (self.tags().len() >= size_threshold || (elapsed_ms >= time_threshold_ms
                && self.tags().len() > 0)),
    {
        self.deliveries.len() >= size_threshold || (elapsed_ms >= time_threshold_ms
            && self.deliveries.len() > 0)
    }

    /// Hands the whole buffered batch out and leaves the accumulator
    /// empty, as a flush does after it completes.
    pub fn take(&mut self) -> (b: Batch<R>)
        requires
            old(self).wf(),
        ensures
            final(self).wf(),
            final(self).tags() == Seq::<u64>::empty(),
            final(self).buffered() == Seq::<R>::empty(),
            b.wf(),
            b.tags@ == old(self).tags(),
            b.records@ == old(self).buffered(),
    {
        let mut tags: Vec<u64> = Vec::new();
        let mut records: Vec<R> = Vec::new();
        core::mem::swap(&mut tags, &mut self.deliveries);
        core::mem::swap(&mut records, &mut self.records);
        Batch { tags, records }
    }
}

/// The buffer never holds more deliveries than records or the other way
/// round: the counts are equal at every observation point.
pub proof fn law_position_correlated<R>(b: &BatchAccumulator<R>)
    requires
        b.wf(),
    ensures
        b.tags().len() == b.buffered().len(),
{
}

} // verus!
