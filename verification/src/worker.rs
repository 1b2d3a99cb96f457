//! The batch-ingestion worker's decision logic.
//!
//! The consumer loop outside the library multiplexes two events, a new
//! delivery and a tick of the flush clock, and feeds them to
//! [`BatchEngine`]. When the engine hands a batch back, the loop
//! acquires a rate-limiter token, then drives one persistence attempt
//! after another, feeding each outcome to [`flush_step`] until the step
//! says to acknowledge or to reject the whole batch. [`resolve`] turns
//! that verdict into one acknowledgment instruction per delivery.

use vstd::prelude::*;

use crate::batch::{Batch, BatchAccumulator};
use crate::models::hog_record::restamped;
use crate::models::hog_record::HogRecord;

verus! {

/// Re-stamps `created_at` on every record of the batch with the time
/// of the persistence attempt about to be made, so that stored records
/// carry the time of the attempt that succeeded, not of their receipt.
pub fn stamp_created_at(records: &mut Vec<HogRecord>, now_ms: i64)
    ensures
        final(records)@.len() == old(records)@.len(),
        forall|i: int|
            0 <= i < old(records)@.len() ==> final(records)@[i]@ == restamped(
                old(records)@[i]@,
                now_ms,
            ),
{
    let mut i: usize = 0;
    while i < records.len()
        invariant
            0 <= i <= records@.len(),
            records@.len() == old(records)@.len(),
            forall|j: int| 0 <= j < i ==> records@[j]@ == restamped(old(records)@[j]@, now_ms),
            forall|j: int| i <= j < records@.len() ==> records@[j] == old(records)@[j],
        decreases records@.len() - i,
    {
        let mut rec = records[i].clone();
        rec.created_at = Some(now_ms);
        records.set(i, rec);
        i = i + 1;
    }
}

/// Consumes delivery events and decides when a batch is ready to flush.
pub struct BatchEngine<R> {
    acc: BatchAccumulator<R>,
    size_threshold: usize,
}

impl<R> BatchEngine<R> {
    /// The buffered delivery tags, oldest first.
    pub closed spec fn tags(&self) -> Seq<u64> {
        self.acc.tags()
    }

    /// The buffered records, oldest first.
    pub closed spec fn buffered(&self) -> Seq<R> {
        self.acc.buffered()
    }

    /// The batch size at which a flush fires without waiting for the clock.
    pub closed spec fn threshold(&self) -> usize {
        self.size_threshold
    }

    pub open spec fn wf(&self) -> bool {
        self.tags().len() == self.buffered().len()
    }

    pub fn new(size_threshold: usize) -> (r: Self)
        ensures
            r.wf(),
            r.tags() == Seq::<u64>::empty(),
            r.buffered() == Seq::<R>::empty(),
            r.threshold() == size_threshold,
    {
        BatchEngine { acc: BatchAccumulator::new(), size_threshold }
    }

    pub fn len(&self) -> (n: usize)
        requires
            self.wf(),
        ensures
            n == self.tags().len(),
    {
        self.acc.len()
    }

    /// Handles one delivery event. A decoded record is appended beside
    /// its delivery tag; when that fills the batch up to the size
    /// threshold the whole batch comes back at once, without waiting
    /// for the time trigger. A malformed payload (`decoded` is `None`)
    /// is dropped: it is neither buffered nor ever part of a batch, so
    /// its delivery is neither acked nor nacked.
    pub fn handle_delivery(&mut self, tag: u64, decoded: Option<R>) -> (r: Option<Batch<R>>)
        requires
            old(self).wf(),
        ensures
            final(self).wf(),
            final(self).threshold() == old(self).threshold(),
            decoded is None ==> final(self).tags() == old(self).tags() && final(self).buffered()
                == old(self).buffered() && r is None,
            decoded matches Some(rec) ==> {
                let tags = old(self).tags().push(tag);
                let records = old(self).buffered().push(rec);
                if tags.len() >= old(self).threshold() {
                    &&& r matches Some(b) && b.tags@ == tags && b.records@ == records
                    &&& final(self).tags() == Seq::<u64>::empty()
                    &&& final(self).buffered() == Seq::<R>::empty()
                } else {
                    &&& r is None
                    &&& final(self).tags() == tags
                    &&& final(self).buffered() == records
                }
            },
    {
        match decoded {
            None => None,
            Some(rec) => {
                self.acc.offer(tag, rec);
                if self.acc.len() >= self.size_threshold {
                    Some(self.acc.take())
                } else {
                    None
                }
            }
        }
    }

    /// Handles one tick of the flush clock. With an empty buffer the
    /// tick is a no-op and returns nothing, so the caller acquires no
    /// rate-limiter token and makes no persistence call; otherwise the
    /// whole buffered batch comes back and the buffer resets.
    pub fn handle_tick(&mut self) -> (r: Option<Batch<R>>)
        requires
            old(self).wf(),
        ensures
            final(self).wf(),
            final(self).threshold() == old(self).threshold(),
            old(self).tags().len() == 0 ==> r is None && final(self).tags() == old(self).tags()
                && final(self).buffered() == old(self).buffered(),
            old(self).tags().len() > 0 ==> {
                &&& r matches Some(b) && b.tags@ == old(self).tags() && b.records@ == old(
                    self,
                ).buffered()
                &&& final(self).tags() == Seq::<u64>::empty()
                &&& final(self).buffered() == Seq::<R>::empty()
            },
    {
        if self.acc.is_empty() {
            None
        } else {
            Some(self.acc.take())
        }
    }
}

/// What the flush driver must do after one persistence attempt.
#[derive(Clone, Copy, Debug, PartialEq, Eq, Structural)]
pub enum FlushStep {
    /// The batch is stored: ack every delivery in it.
    AckBatch,
    /// Retries are exhausted: nack every delivery in it.
    NackBatch,
    /// Sleep this many milliseconds, then retry the whole batch.
    Backoff(u64),
}

/// The delay in milliseconds slept before retry attempt
/// `next_attempt`: linear backoff, `next_attempt * base_delay_ms`.
pub open spec fn backoff_delay_spec(next_attempt: u64, base_delay_ms: u64) -> int {
    next_attempt * base_delay_ms
}

/// Backoff before retry attempt `next_attempt` (the second attempt or
/// later): the delay grows linearly, `next_attempt * base_delay_ms`.
pub fn backoff_delay_ms(next_attempt: u64, base_delay_ms: u64) -> (r: u64)
    requires
        2 <= next_attempt,
        backoff_delay_spec(next_attempt, base_delay_ms) <= u64::MAX,
    ensures
        r == backoff_delay_spec(next_attempt, base_delay_ms),
{
    next_attempt * base_delay_ms
}

/// The retry policy: success acks the batch; a failure before the
/// retry ceiling backs off and retries; a failure at the ceiling nacks
/// the batch.
pub open spec fn flush_step_spec(attempt: u64, max_retries: u64, base_delay_ms: u64, ok: bool) -> FlushStep {
    if ok {
        FlushStep::AckBatch
    } else if attempt < max_retries {
        FlushStep::Backoff(((attempt + 1) * base_delay_ms) as u64)
    } else {
        FlushStep::NackBatch
    }
}

/// Decides what follows persistence attempt number `attempt` (1-based)
/// with outcome `ok`.
pub fn flush_step(attempt: u64, max_retries: u64, base_delay_ms: u64, ok: bool) -> (r: FlushStep)
    requires
        1 <= attempt <= max_retries,
        (attempt + 1) * base_delay_ms <= u64::MAX,
    ensures
        r == flush_step_spec(attempt, max_retries, base_delay_ms, ok),
{
    if ok {
        FlushStep::AckBatch
    } else if attempt < max_retries {
        FlushStep::Backoff(backoff_delay_ms(attempt + 1, base_delay_ms))
    } else {
        FlushStep::NackBatch
    }
}

/// The delay before retry attempt `k` (the second attempt or later) is
/// `k` times the base delay: a failure of attempt `k - 1` below the
/// retry ceiling backs off exactly that long.
pub proof fn law_linear_backoff(k: u64, max_retries: u64, base_delay_ms: u64)
    requires
        2 <= k <= max_retries,
        k * base_delay_ms <= u64::MAX,
    ensures
        flush_step_spec((k - 1) as u64, max_retries, base_delay_ms, false) == FlushStep::Backoff(
            (k * base_delay_ms) as u64,
        ),
{
}

/// Whether a flush whose persistence attempts come out as `outcomes`
/// (entry `k` is the outcome of attempt `k + 1`) ends by acking the
/// batch, when it is currently at attempt number `attempt`.
pub open spec fn flush_run_acks(
    outcomes: Seq<bool>,
    attempt: int,
    max_retries: u64,
    base_delay_ms: u64,
) -> bool
    decreases max_retries - attempt,
{
    if 1 <= attempt <= max_retries && attempt <= outcomes.len() {
        match flush_step_spec(attempt as u64, max_retries, base_delay_ms, outcomes[attempt - 1]) {
            FlushStep::AckBatch => true,
            FlushStep::NackBatch => false,
            FlushStep::Backoff(_) => flush_run_acks(outcomes, attempt + 1, max_retries, base_delay_ms),
        }
    } else {
        false
    }
}

/// One acknowledgment verdict for one delivery.
#[derive(Clone, Copy, Debug, PartialEq, Eq, Structural)]
pub enum AckKind {
    Ack,
    Nack,
}

/// One instruction of the acknowledgment coordinator: the delivery
/// carrying `tag` is to be resolved with `kind`, exactly once.
#[derive(Clone, Copy, Debug, PartialEq, Eq, Structural)]
pub struct AckInstruction {
    pub tag: u64,
    pub kind: AckKind,
}

/// The resolution of a whole batch: one instruction per delivery, in
/// batch order, all of the same kind.
pub open spec fn resolve_spec(tags: Seq<u64>, success: bool) -> Seq<AckInstruction> {
    Seq::new(
        tags.len(),
        |i: int|
            AckInstruction {
                tag: tags[i],
                kind: if success {
                    AckKind::Ack
                } else {
                    AckKind::Nack
                },
            },
    )
}

/// Resolves every delivery of a batch to ack (stored) or nack
/// (exhausted retries): one instruction per delivery, position for
/// position, so no outcome is ever misattributed. The caller executes
/// the instructions one by one, and an individual transport failure
/// must not keep it from executing the rest.
pub fn resolve(tags: &Vec<u64>, success: bool) -> (r: Vec<AckInstruction>)
    ensures
        r@ == resolve_spec(tags@, success),
{
    let mut out: Vec<AckInstruction> = Vec::new();
    let mut i: usize = 0;
    while i < tags.len()
        invariant
            0 <= i <= tags@.len(),
            out@.len() == i,
            forall|j: int|
                0 <= j < i ==> out@[j] == resolve_spec(tags@, success)[j],
        decreases tags@.len() - i,
    {
        out.push(
            AckInstruction {
                tag: tags[i],
                kind: if success {
                    AckKind::Ack
                } else {
                    AckKind::Nack
                },
            },
        );
        i = i + 1;
    }
    proof {
        assert(out@ =~= resolve_spec(tags@, success));
    }
    out
}

/// When persistence succeeds on the first attempt, the flush run acks,
/// and the resolution gives every delivery in the batch exactly one
/// instruction, an ack; none is nacked.
pub proof fn law_first_attempt_success_acks(
    tags: Seq<u64>,
    outcomes: Seq<bool>,
    max_retries: u64,
    base_delay_ms: u64,
)
    requires
        max_retries >= 1,
        outcomes.len() >= 1,
        outcomes[0] == true,
    ensures
        flush_run_acks(outcomes, 1, max_retries, base_delay_ms),
        resolve_spec(tags, true).len() == tags.len(),
        forall|i: int|
            0 <= i < tags.len() ==> resolve_spec(tags, true)[i] == (AckInstruction {
                tag: tags[i],
                kind: AckKind::Ack,
            }),
        forall|i: int| 0 <= i < tags.len() ==> resolve_spec(tags, true)[i].kind != AckKind::Nack,
{
}

/// Helper for the exhausted-retries law: from any attempt on, a run
/// whose remaining outcomes are all failures never acks.
proof fn lemma_all_failures_never_ack(
    outcomes: Seq<bool>,
    attempt: int,
    max_retries: u64,
    base_delay_ms: u64,
)
    requires
        forall|k: int| 0 <= k < outcomes.len() ==> !outcomes[k],
    ensures
        !flush_run_acks(outcomes, attempt, max_retries, base_delay_ms),
    decreases max_retries - attempt,
{
    if 1 <= attempt <= max_retries && attempt <= outcomes.len() {
        if attempt < max_retries {
            lemma_all_failures_never_ack(outcomes, attempt + 1, max_retries, base_delay_ms);
        }
    }
}

/// When persistence fails on every attempt up to the retry ceiling,
/// the flush run does not ack, and the resolution gives every delivery
/// in the batch exactly one instruction, a nack; none is acked.
pub proof fn law_exhausted_retries_nack(
    tags: Seq<u64>,
    outcomes: Seq<bool>,
    max_retries: u64,
    base_delay_ms: u64,
)
    requires
        max_retries >= 1,
        outcomes.len() == max_retries,
        forall|k: int| 0 <= k < outcomes.len() ==> !outcomes[k],
    ensures
        !flush_run_acks(outcomes, 1, max_retries, base_delay_ms),
        resolve_spec(tags, false).len() == tags.len(),
        forall|i: int|
            0 <= i < tags.len() ==> resolve_spec(tags, false)[i] == (AckInstruction {
                tag: tags[i],
                kind: AckKind::Nack,
            }),
        forall|i: int| 0 <= i < tags.len() ==> resolve_spec(tags, false)[i].kind != AckKind::Ack,
{
    lemma_all_failures_never_ack(outcomes, 1, max_retries, base_delay_ms);
}

} // verus!
