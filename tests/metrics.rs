use human_index_prover::metrics::{elapsed_millis, job_metrics, timestamp_text, Timestamp};

#[test]
fn timestamps_render_as_rfc3339() {
    assert_eq!(timestamp_text(Timestamp { secs: 0, nanos: 0 }), "1970-01-01T00:00:00+00:00");
    assert_eq!(
        timestamp_text(Timestamp { secs: 1_700_000_000, nanos: 500_000_000 }),
        "2023-11-14T22:13:20.500+00:00"
    );
    assert_eq!(timestamp_text(Timestamp { secs: i64::MAX, nanos: 0 }), "");
}

#[test]
fn elapsed_counts_whole_milliseconds() {
    let a = Timestamp { secs: 10, nanos: 999_999_999 };
    let b = Timestamp { secs: 12, nanos: 1_000_000 };
    assert_eq!(elapsed_millis(a, b), 1001);
    assert_eq!(elapsed_millis(b, a), 0);
    assert_eq!(elapsed_millis(a, a), 0);
    let far = Timestamp { secs: i64::MAX, nanos: 0 };
    let early = Timestamp { secs: i64::MIN, nanos: 0 };
    assert_eq!(elapsed_millis(early, far), u64::MAX);
}

#[test]
fn metrics_span_receipt_to_completion() {
    let received = Timestamp { secs: 100, nanos: 0 };
    let started = Timestamp { secs: 101, nanos: 0 };
    let completed = Timestamp { secs: 105, nanos: 250_000_000 };
    let m = job_metrics(received, started, completed);
    assert_eq!(m.duration_ms, 5250);
    assert_eq!(m.received_at, "1970-01-01T00:01:40+00:00");
    assert_eq!(m.started_at, "1970-01-01T00:01:41+00:00");
    assert_eq!(m.completed_at, "1970-01-01T00:01:45.250+00:00");
}
