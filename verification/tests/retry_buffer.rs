use sensor_telemetry::retry::RetryBuffer;
use sensor_telemetry::telemetry::{Measurement, TelemetryBatch};

fn batch(timestamp: u64) -> TelemetryBatch {
    TelemetryBatch {
        timestamp,
        measurements: vec![Measurement::from_parts("temperature", 21.5f32.to_bits())],
    }
}

#[test]
fn new_buffer_is_empty() {
    let mut buffer = RetryBuffer::new(4);
    assert_eq!(buffer.len(), 0);
    assert_eq!(buffer.capacity(), 4);
    assert_eq!(buffer.dropped_batches(), 0);
    assert!(buffer.pop_front().is_none());
}

#[test]
fn pop_returns_oldest_first() {
    let mut buffer = RetryBuffer::new(4);
    buffer.push(batch(100));
    buffer.push(batch(200));
    buffer.push(batch(300));
    assert_eq!(buffer.pop_front().unwrap().timestamp, 100);
    assert_eq!(buffer.pop_front().unwrap().timestamp, 200);
    assert_eq!(buffer.pop_front().unwrap().timestamp, 300);
    assert!(buffer.pop_front().is_none());
}

#[test]
fn push_past_capacity_evicts_oldest() {
    // Three pushes into a buffer of capacity 2: the first batch is evicted.
    let mut buffer = RetryBuffer::new(2);
    buffer.push(batch(100));
    buffer.push(batch(200));
    buffer.push(batch(300));
    assert_eq!(buffer.len(), 2);
    assert_eq!(buffer.dropped_batches(), 1);
    assert_eq!(buffer.pop_front().unwrap().timestamp, 200);
    assert_eq!(buffer.pop_front().unwrap().timestamp, 300);
    assert!(buffer.pop_front().is_none());
}

#[test]
fn failed_delivery_requeues_at_front() {
    // Delivery attempted on [200, 300]: 200 goes through, 300 fails.
    let mut buffer = RetryBuffer::new(4);
    buffer.push(batch(200));
    buffer.push(batch(300));

    let first = buffer.pop_front().unwrap();
    assert_eq!(first.timestamp, 200);
    assert!(buffer.settle_attempt(first, true));

    let second = buffer.pop_front().unwrap();
    assert_eq!(second.timestamp, 300);
    assert!(!buffer.settle_attempt(second, false));

    // The buffer afterwards holds [300]; the next drain attempts 300 first.
    assert_eq!(buffer.len(), 1);
    assert_eq!(buffer.pop_front().unwrap().timestamp, 300);
}

#[test]
fn requeued_batch_precedes_newer_batches() {
    let mut buffer = RetryBuffer::new(4);
    buffer.push(batch(100));
    buffer.push(batch(200));

    let attempted = buffer.pop_front().unwrap();
    assert_eq!(attempted.timestamp, 100);
    buffer.requeue_front(attempted);

    // A later cycle contributes a newer batch before the next drain.
    buffer.push(batch(300));
    assert_eq!(buffer.pop_front().unwrap().timestamp, 100);
    assert_eq!(buffer.pop_front().unwrap().timestamp, 200);
    assert_eq!(buffer.pop_front().unwrap().timestamp, 300);
}

#[test]
fn requeue_at_capacity_drops_the_returning_batch() {
    let mut buffer = RetryBuffer::new(1);
    buffer.push(batch(100));
    let attempted = buffer.pop_front().unwrap();
    buffer.push(batch(200));
    // The buffer is full again; the failed batch is the oldest and the
    // eviction policy gives it up.
    buffer.requeue_front(attempted);
    assert_eq!(buffer.len(), 1);
    assert_eq!(buffer.dropped_batches(), 1);
    assert_eq!(buffer.pop_front().unwrap().timestamp, 200);
}

#[test]
fn buffer_for_period_holds_a_day_of_batches() {
    let buffer = RetryBuffer::for_period(300);
    assert_eq!(buffer.capacity(), 288);
    let tight = RetryBuffer::for_period(86399);
    assert_eq!(tight.capacity(), 2);
}

#[test]
fn dropped_counter_counts_every_eviction() {
    let mut buffer = RetryBuffer::new(2);
    for ts in 0..10u64 {
        buffer.push(batch(ts));
    }
    assert_eq!(buffer.len(), 2);
    assert_eq!(buffer.dropped_batches(), 8);
}

#[test]
fn batches_keep_their_measurements() {
    let mut buffer = RetryBuffer::new(2);
    buffer.push(TelemetryBatch {
        timestamp: 7,
        measurements: vec![
            Measurement::from_parts("lux", 42.5f32.to_bits()),
            Measurement::from_parts("humidity", 40.2f32.to_bits()),
        ],
    });
    let out = buffer.pop_front().unwrap();
    assert_eq!(out.timestamp, 7);
    assert_eq!(out.measurements.len(), 2);
    assert_eq!(out.measurements[0].name, "lux");
    assert_eq!(f32::from_bits(out.measurements[0].value_bits), 42.5);
    assert_eq!(out.measurements[1].name, "humidity");
    assert_eq!(f32::from_bits(out.measurements[1].value_bits), 40.2);
}
