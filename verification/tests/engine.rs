//! The batch engine: triggers, retry policy, acknowledgment resolution.

use hog_ingest::batch::BatchAccumulator;
use hog_ingest::models::hog_record::HogRecord;
use hog_ingest::worker::backoff_delay_ms;
use hog_ingest::worker::flush_step;
use hog_ingest::worker::resolve;
use hog_ingest::worker::stamp_created_at;
use hog_ingest::worker::AckKind;
use hog_ingest::worker::BatchEngine;
use hog_ingest::worker::FlushStep;
use hog_ingest::BASE_DELAY_MS;
use hog_ingest::BULK_SIZE;
use hog_ingest::MAX_RETRIES;

fn record(message: &str) -> HogRecord {
    HogRecord {
        log_timestamp: 1_000,
        log_level: None,
        log_message: message.to_string(),
        log_data: None,
        log_type: None,
        log_source: None,
        log_source_id: None,
        hog_uuid: None,
        hog_timestamp: None,
        created_at: None,
        id: None,
    }
}

#[test]
fn size_trigger_fires_without_tick() {
    let mut engine: BatchEngine<u64> = BatchEngine::new(BULK_SIZE);
    for tag in 0..(BULK_SIZE as u64 - 1) {
        assert!(engine.handle_delivery(tag, Some(tag)).is_none());
    }
    assert_eq!(engine.len(), BULK_SIZE - 1);
    let batch = engine
        .handle_delivery(BULK_SIZE as u64 - 1, Some(BULK_SIZE as u64 - 1))
        .expect("the 1000th accepted record must flush immediately");
    assert_eq!(batch.tags.len(), BULK_SIZE);
    assert_eq!(batch.records.len(), BULK_SIZE);
    assert_eq!(engine.len(), 0);
}

#[test]
fn empty_tick_is_a_no_op() {
    let mut engine: BatchEngine<u64> = BatchEngine::new(BULK_SIZE);
    // With nothing buffered the tick returns no batch: the caller
    // acquires no rate-limiter token and makes no persistence call.
    assert!(engine.handle_tick().is_none());
    assert_eq!(engine.len(), 0);
}

#[test]
fn tick_flushes_a_partial_batch() {
    let mut engine: BatchEngine<u64> = BatchEngine::new(BULK_SIZE);
    assert!(engine.handle_delivery(7, Some(70)).is_none());
    assert!(engine.handle_delivery(8, Some(80)).is_none());
    let batch = engine.handle_tick().expect("a non-empty buffer must flush on the tick");
    assert_eq!(batch.tags, vec![7, 8]);
    assert_eq!(batch.records, vec![70, 80]);
    assert!(engine.handle_tick().is_none());
}

#[test]
fn malformed_payload_is_dropped_and_never_resolved() {
    // Offer 3 valid records, then a malformed payload, then 997 more
    // valid ones: the flush fires at 1000 accepted records and the
    // malformed delivery's tag is never part of any batch.
    let mut engine: BatchEngine<u64> = BatchEngine::new(1000);
    for tag in 0..3u64 {
        assert!(engine.handle_delivery(tag, Some(tag)).is_none());
    }
    let malformed_tag = 999_999u64;
    assert!(engine.handle_delivery(malformed_tag, None).is_none());
    assert_eq!(engine.len(), 3);

    let mut flushed = None;
    for tag in 3..1000u64 {
        let r = engine.handle_delivery(tag, Some(tag));
        if tag < 999 {
            assert!(r.is_none());
        } else {
            flushed = r;
        }
    }
    let batch = flushed.expect("the 1000th accepted record must flush");
    assert_eq!(batch.tags.len(), 1000);
    assert!(!batch.tags.contains(&malformed_tag));
    let instructions = resolve(&batch.tags, true);
    assert!(instructions.iter().all(|i| i.tag != malformed_tag));
}

#[test]
fn first_attempt_success_acks_every_delivery_once() {
    let step = flush_step(1, MAX_RETRIES, BASE_DELAY_MS, true);
    assert_eq!(step, FlushStep::AckBatch);
    let tags: Vec<u64> = vec![10, 11, 12];
    let instructions = resolve(&tags, true);
    assert_eq!(instructions.len(), tags.len());
    for (i, instr) in instructions.iter().enumerate() {
        assert_eq!(instr.tag, tags[i]);
        assert_eq!(instr.kind, AckKind::Ack);
    }
}

#[test]
fn exhausted_retries_nack_every_delivery_once() {
    let mut steps = Vec::new();
    for attempt in 1..=MAX_RETRIES {
        steps.push(flush_step(attempt, MAX_RETRIES, BASE_DELAY_MS, false));
    }
    assert_eq!(
        steps,
        vec![
            FlushStep::Backoff(1000),
            FlushStep::Backoff(1500),
            FlushStep::Backoff(2000),
            FlushStep::Backoff(2500),
            FlushStep::NackBatch,
        ]
    );
    let tags: Vec<u64> = vec![1, 2, 3, 4];
    let instructions = resolve(&tags, false);
    assert_eq!(instructions.len(), tags.len());
    for (i, instr) in instructions.iter().enumerate() {
        assert_eq!(instr.tag, tags[i]);
        assert_eq!(instr.kind, AckKind::Nack);
    }
}

#[test]
fn backoff_is_linear_in_the_attempt_number() {
    // The delay before retry attempt k is k * base_delay.
    assert_eq!(backoff_delay_ms(2, BASE_DELAY_MS), 1000);
    assert_eq!(backoff_delay_ms(3, BASE_DELAY_MS), 1500);
    assert_eq!(backoff_delay_ms(4, BASE_DELAY_MS), 2000);
    assert_eq!(backoff_delay_ms(5, BASE_DELAY_MS), 2500);
    assert_eq!(backoff_delay_ms(2, 7), 14);
}

#[test]
fn buffered_deliveries_and_records_stay_correlated() {
    let mut acc: BatchAccumulator<u64> = BatchAccumulator::new();
    for tag in 0..50u64 {
        acc.offer(tag, tag * 2);
        assert_eq!(acc.len(), (tag + 1) as usize);
    }
    let batch = acc.take();
    assert_eq!(batch.tags.len(), batch.records.len());
    assert_eq!(acc.len(), 0);
}

#[test]
fn late_success_acks_and_stamps_the_last_attempt_time() {
    // Persistence fails on attempts 1 through 4 and succeeds on
    // attempt 5: every delivery is acked exactly once, and created_at
    // on every record reflects the attempt-5 timestamp.
    let tags: Vec<u64> = vec![100, 101, 102];
    let mut records = vec![record("a"), record("b"), record("c")];
    let attempt_times: Vec<i64> = vec![10_000, 11_000, 12_000, 13_000, 14_000];

    let mut resolution = None;
    for attempt in 1..=MAX_RETRIES {
        stamp_created_at(&mut records, attempt_times[(attempt - 1) as usize]);
        let ok = attempt == 5;
        match flush_step(attempt, MAX_RETRIES, BASE_DELAY_MS, ok) {
            FlushStep::AckBatch => {
                resolution = Some(resolve(&tags, true));
                break;
            }
            FlushStep::NackBatch => {
                resolution = Some(resolve(&tags, false));
                break;
            }
            FlushStep::Backoff(delay) => {
                assert_eq!(delay, (attempt + 1) * BASE_DELAY_MS);
            }
        }
    }

    let instructions = resolution.expect("attempt 5 must resolve the batch");
    assert_eq!(instructions.len(), tags.len());
    for (i, instr) in instructions.iter().enumerate() {
        assert_eq!(instr.tag, tags[i]);
        assert_eq!(instr.kind, AckKind::Ack);
    }
    for rec in &records {
        assert_eq!(rec.created_at, Some(14_000));
    }
}
