use backend::clock::{now_ms, reading_to_ms, EPOCH_UNIX_MS};
use backend::snowflake::{unpack_id, IdError, SnowflakeIdBucket, SEQUENCE_SPACE, TIMESTAMP_SPACE};

#[test]
fn readings_shift_to_the_epoch() {
    // At the epoch the allocator's clock starts at zero ...
    assert_eq!(reading_to_ms(EPOCH_UNIX_MS), 0);
    // ... and counts wall-clock milliseconds from there.
    assert_eq!(reading_to_ms(EPOCH_UNIX_MS + 5), 5);
    assert_eq!(reading_to_ms(EPOCH_UNIX_MS + 1_000_000), 1_000_000);
    // A reading before the epoch counts as zero, like any backward clock.
    assert_eq!(reading_to_ms(EPOCH_UNIX_MS - 1), 0);
    assert_eq!(reading_to_ms(0), 0);
    // Past the 41-bit ceiling the reading wraps into the timestamp space.
    assert_eq!(reading_to_ms(EPOCH_UNIX_MS + TIMESTAMP_SPACE as i64 + 7), 7);
}

#[test]
fn clock_reads_within_timestamp_space() {
    // The clock shifts the wall clock to the crate epoch (the start of
    // 2020), so a live reading is well inside the 41-bit space but years
    // past zero.
    let reading = now_ms();
    assert!(reading < TIMESTAMP_SPACE);
    assert!(reading > 0);
}

#[test]
fn live_ids_carry_the_machine_identity() {
    let mut bucket = SnowflakeIdBucket::new(9, 23);
    let id = bucket.next_id().expect("the live clock never regresses");
    let (ts, dc, worker, _seq) = unpack_id(id);
    assert_eq!((dc, worker), (9, 23));
    assert!(ts > 0 && ts < TIMESTAMP_SPACE);
}

#[test]
fn monotonic_across_calls() {
    let mut bucket = SnowflakeIdBucket::new(1, 1);
    let mut last: Option<u64> = None;
    for _ in 0..10_000 {
        let id = bucket.next_id().expect("the live clock never regresses");
        if let Some(prev) = last {
            assert!(id > prev, "identifiers must strictly increase");
        }
        last = Some(id);
    }
}

#[test]
fn unique_across_calls() {
    let mut bucket = SnowflakeIdBucket::new(0, 31);
    let mut seen = std::collections::HashSet::new();
    for _ in 0..10_000 {
        let id = bucket.next_id().expect("the live clock never regresses");
        assert!(seen.insert(id), "no identifier may repeat");
    }
}

#[test]
fn field_round_trip() {
    let mut bucket = SnowflakeIdBucket::new(3, 7);
    let id = bucket.try_next_id(123_456).expect("a fresh millisecond issues");
    assert_eq!(unpack_id(id), (123_456, 3, 7, 0));
    let id2 = bucket.try_next_id(123_456).expect("sequence numbers remain");
    assert_eq!(unpack_id(id2), (123_456, 3, 7, 1));
}

#[test]
fn exact_packing() {
    let mut bucket = SnowflakeIdBucket::new(1, 1);
    let id = bucket.try_next_id(5).expect("a fresh millisecond issues");
    // 5 << 22 | 1 << 17 | 1 << 12 | 0
    assert_eq!(id, 21_106_688);
    let id2 = bucket.try_next_id(5).expect("sequence numbers remain");
    assert_eq!(id2, 21_106_689);
    assert_eq!(unpack_id(21_106_689), (5, 1, 1, 1));
}

#[test]
fn sequence_bound_within_one_millisecond() {
    let mut bucket = SnowflakeIdBucket::new(1, 1);
    let mut issued = Vec::new();
    for _ in 0..SEQUENCE_SPACE {
        issued.push(bucket.try_next_id(5).expect("4096 identifiers fit in one millisecond"));
    }
    assert_eq!(issued.len() as u64, 4096);
    // The 4097th request in the same millisecond is refused ...
    assert_eq!(bucket.try_next_id(5), None);
    // ... and the next millisecond serves it with a timestamp one greater.
    let next = bucket.try_next_id(6).expect("the next millisecond issues again");
    let (ts, dc, worker, seq) = unpack_id(next);
    let (prev_ts, _, _, _) = unpack_id(*issued.last().unwrap());
    assert_eq!(ts, prev_ts + 1);
    assert_eq!((dc, worker, seq), (1, 1, 0));
    for window in issued.windows(2) {
        assert!(window[0] < window[1]);
    }
}

#[test]
fn backward_clock_never_regresses() {
    let mut bucket = SnowflakeIdBucket::new(2, 2);
    let id1 = bucket.try_next_id(100).expect("a fresh millisecond issues");
    // The clock reads 5ms earlier than the bucket's last millisecond: the
    // call is refused rather than issuing out of order.
    assert_eq!(bucket.try_next_id(95), None);
    // Once the clock catches up, issuing resumes above every earlier id.
    let id2 = bucket.try_next_id(100).expect("the caught-up clock issues");
    assert!(id2 > id1);
    let id3 = bucket.try_next_id(101).expect("a fresh millisecond issues");
    assert!(id3 > id2);
}

#[test]
fn large_clock_regression_is_reported() {
    // A bucket that believes it is at the very end of the timestamp space:
    // the wall clock can never catch up, so the bounded spin gives up.
    let mut bucket = SnowflakeIdBucket {
        datacenter_id: 1,
        worker_id: 1,
        last_timestamp: TIMESTAMP_SPACE - 1,
        sequence: 0,
    };
    assert_eq!(bucket.next_id(), Err(IdError::ClockRegression));
    // The failed call left the bucket untouched.
    assert_eq!(bucket.last_timestamp, TIMESTAMP_SPACE - 1);
    assert_eq!(bucket.sequence, 0);
}

#[test]
fn stress_sixty_four_callers() {
    // 64 callers, each taking 10,000 identifiers from one bucket in turn:
    // 640,000 values, strictly increasing in order of return, no duplicates.
    let mut bucket = SnowflakeIdBucket::new(1, 1);
    let mut ids: Vec<u64> = Vec::with_capacity(64 * 10_000);
    for _caller in 0..64 {
        for _ in 0..10_000 {
            ids.push(bucket.next_id().expect("the live clock never regresses"));
        }
    }
    assert_eq!(ids.len(), 640_000);
    for window in ids.windows(2) {
        assert!(window[0] < window[1], "return order must be sorted order");
    }
}
