use swe_edge_runtime::metrics::{
    AutoscalePolicy, BackgroundSampler, LoadCounters, LoadSnapshot, MetricsConfig, RingBuffer,
};
use swe_edge_runtime::monitor;

#[test]
fn test_new_counters_are_zero() {
    let c = LoadCounters::new();
    assert_eq!(c.requests_active, 0);
    assert_eq!(c.requests_total, 0);
    assert_eq!(c.errors_total, 0);
}

#[test]
fn test_record_increments_total_and_decrements_active() {
    let mut c = LoadCounters::new();
    c.begin_request();
    c.record(500, false);
    assert_eq!(c.requests_active, 0);
    assert_eq!(c.requests_total, 1);
    assert_eq!(c.errors_total, 0);
}

#[test]
fn test_record_error_increments_error_counter() {
    let mut c = LoadCounters::new();
    c.begin_request();
    c.record(100, true);
    assert_eq!(c.errors_total, 1);
}

#[test]
fn load_monitor_test_ring_buffer_p99_ms_returns_correct_percentile() {
    let mut rb = RingBuffer::new(100);
    for i in 1u64..=100 {
        rb.push(i * 1_000);
    }
    let p99 = rb.p99_ms();
    assert!(p99 >= 98 && p99 <= 100, "p99={p99}");
}

#[test]
fn load_monitor_test_ring_buffer_p99_ms_returns_zero_when_empty() {
    let rb = RingBuffer::new(64);
    assert_eq!(rb.p99_ms(), 0);
}

#[test]
fn monitor_test_ring_buffer_p99_ms_returns_correct_percentile() {
    let mut rb = RingBuffer::new(100);
    for i in 1u64..=100 {
        rb.push(i * 1_000);
    }
    let p99 = rb.p99_us() as f64 / 1_000.0;
    assert!(p99 >= 98.0 && p99 <= 100.0, "p99={p99}");
}

#[test]
fn monitor_test_ring_buffer_p99_ms_returns_zero_when_empty() {
    let rb = RingBuffer::new(64);
    assert_eq!(rb.p99_us() as f64 / 1_000.0, 0.0);
}

#[test]
fn ring_buffer_exact_percentile_and_wraparound() {
    let mut rb = RingBuffer::new(100);
    for i in 1u64..=100 {
        rb.push(i * 1_000);
    }
    assert_eq!(rb.p99_us(), 99_000);
    assert_eq!(rb.p99_ms(), 99);
    let mut small = RingBuffer::new(2);
    small.push(5_000);
    small.push(7_000);
    small.push(9_000);
    assert_eq!(small.capacity(), 2);
    assert_eq!(small.p99_us(), 7_000);
    let mut one = RingBuffer::new(4);
    one.push(2_500);
    assert_eq!(one.p99_ms(), 2);
}

#[test]
fn test_to_prometheus_contains_all_metric_names() {
    let snap = LoadSnapshot {
        requests_active: 5,
        requests_total: 100,
        errors_total: 2,
        requests_per_sec: 50,
        latency_p99_ms: 12,
        err_per_sec: 1,
    };
    let out = snap.to_prometheus();
    assert!(out.contains("edge_requests_active 5"));
    assert!(out.contains("edge_requests_total 100"));
    assert!(out.contains("edge_request_latency_p99_ms 12"));
}

#[test]
fn to_prometheus_full_text() {
    let snap = LoadSnapshot {
        requests_active: 0,
        requests_total: 18446744073709551615,
        errors_total: 2,
        requests_per_sec: 50,
        latency_p99_ms: 12,
        err_per_sec: 1,
    };
    let expected = "# HELP edge_requests_active In-flight request count\n\
                    # TYPE edge_requests_active gauge\n\
                    edge_requests_active 0\n\
                    # HELP edge_requests_total Total requests processed\n\
                    # TYPE edge_requests_total counter\n\
                    edge_requests_total 18446744073709551615\n\
                    # HELP edge_errors_total Total error responses\n\
                    # TYPE edge_errors_total counter\n\
                    edge_errors_total 2\n\
                    # HELP edge_requests_per_second Current request rate\n\
                    # TYPE edge_requests_per_second gauge\n\
                    edge_requests_per_second 50\n\
                    # HELP edge_request_latency_p99_ms 99th-percentile request latency in milliseconds\n\
                    # TYPE edge_request_latency_p99_ms gauge\n\
                    edge_request_latency_p99_ms 12\n\
                    # HELP edge_errors_per_second Error rate\n\
                    # TYPE edge_errors_per_second gauge\n\
                    edge_errors_per_second 1\n";
    assert_eq!(snap.to_prometheus(), expected);
}

#[test]
fn test_autoscale_policy_default_values_are_reasonable() {
    let p = AutoscalePolicy::default();
    assert!(p.requests_active_max > 0);
    assert!(p.requests_per_sec_max > 0);
    assert!(p.latency_p99_ms_max > 0);
    assert_eq!((p.requests_active_max, p.requests_per_sec_max, p.latency_p99_ms_max), (500, 1000, 200));
}

#[test]
fn metrics_config_defaults() {
    let m = MetricsConfig::default();
    assert_eq!(m.bind, "0.0.0.0:9090");
    assert_eq!(m.path, "/metrics");
}

#[test]
fn snapshot_copies_counters() {
    let mut c = LoadCounters::new();
    c.begin_request();
    c.begin_request();
    c.record(1_000, true);
    let s = c.snapshot();
    assert_eq!((s.requests_active, s.requests_total, s.errors_total), (1, 1, 1));
    assert_eq!((s.requests_per_sec, s.latency_p99_ms, s.err_per_sec), (0, 0, 0));
}

#[test]
fn record_without_begin_wraps_active() {
    let mut c = LoadCounters::new();
    c.record(1, false);
    assert_eq!(c.requests_active, u64::MAX);
}

#[test]
fn sampler_tick_publishes_rates_and_signals() {
    let mut c = LoadCounters::new();
    let policy = AutoscalePolicy { requests_active_max: 0, requests_per_sec_max: 2, latency_p99_ms_max: 4 };
    let mut s = BackgroundSampler::new(Some(policy));
    for _ in 0..3 {
        c.begin_request();
        c.record(5_000, false);
    }
    c.begin_request();
    c.record(1_000, true);
    let sig = s.tick(&mut c);
    assert_eq!(c.snapshot_rps, 4);
    assert_eq!(c.snapshot_err_per_sec, 1);
    assert_eq!(c.snapshot_p99_ms, 5);
    assert!(!sig.requests_active);
    assert!(sig.requests_per_sec);
    assert!(sig.latency_p99_ms);
    c.begin_request();
    c.record(1_000, false);
    let sig2 = s.tick(&mut c);
    assert_eq!(c.snapshot_rps, 1);
    assert_eq!(c.snapshot_err_per_sec, 0);
    assert!(!sig2.requests_per_sec);
    assert_eq!((s.prev_total, s.prev_errors), (5, 1));
}

#[test]
fn sampler_without_policy_never_signals() {
    let mut c = LoadCounters::new();
    c.begin_request();
    let mut s = BackgroundSampler::new(None);
    let sig = s.tick(&mut c);
    assert!(!sig.requests_active && !sig.requests_per_sec && !sig.latency_p99_ms);
}

#[test]
fn test_new_counters_start_at_zero() {
    let c = monitor::LoadCounters::new();
    assert_eq!(c.requests_in_flight, 0);
    assert_eq!(c.requests_since_tick, 0);
}

#[test]
fn test_on_start_increments_in_flight() {
    let mut c = monitor::LoadCounters::new();
    c.on_start();
    assert_eq!(c.requests_in_flight, 1);
}

#[test]
fn test_on_end_decrements_in_flight_and_records_total() {
    let mut c = monitor::LoadCounters::new();
    c.on_start();
    let recorded = c.on_end(500, false);
    assert_eq!(c.requests_in_flight, 0);
    assert_eq!(c.requests_since_tick, 1);
    assert!(recorded.iter().any(|s| s == "edge_requests_total"));
}

#[test]
fn test_on_end_error_records_error_counter() {
    let mut c = monitor::LoadCounters::new();
    c.on_start();
    let recorded = c.on_end(100, true);
    assert!(recorded.iter().any(|s| s == "edge_errors_total"));
    assert_eq!(recorded, vec!["edge_requests_total".to_string(), "edge_errors_total".to_string()]);
    assert_eq!(c.errors_since_tick, 1);
}

#[test]
fn on_end_without_start_goes_negative() {
    let mut c = monitor::LoadCounters::new();
    let recorded = c.on_end(100, false);
    assert_eq!(c.requests_in_flight, -1);
    assert_eq!(recorded, vec!["edge_requests_total".to_string()]);
    assert_eq!(c.latency_ring.p99_us(), 100);
}

#[test]
fn p99_sorts_samples_recorded_out_of_order() {
    let mut rb = RingBuffer::new(100);
    for i in (1u64..=100).rev() {
        rb.push(i * 1_000);
    }
    assert_eq!(rb.p99_us(), 99_000);
    let mut mixed = RingBuffer::new(5);
    for v in [40_000u64, 10_000, 50_000, 20_000, 30_000] {
        mixed.push(v);
    }
    // 5 samples: index 5 * 99 / 100 - 1 = 3 of the sorted window.
    assert_eq!(mixed.p99_ms(), 40);
}

#[test]
fn test_background_sampler_new_does_not_panic() {
    let _s = BackgroundSampler::new(None);
}

#[test]
fn successive_ticks_publish_increases_since_previous_tick() {
    let mut c = LoadCounters::new();
    let mut s = BackgroundSampler::new(None);
    c.requests_total = 7;
    c.errors_total = 2;
    s.tick(&mut c);
    assert_eq!(c.snapshot().requests_per_sec, 7);
    assert_eq!(c.snapshot().err_per_sec, 2);
    c.requests_total = 10;
    c.errors_total = 2;
    s.tick(&mut c);
    assert_eq!(c.snapshot().requests_per_sec, 3);
    assert_eq!(c.snapshot().err_per_sec, 0);
    assert_eq!(c.requests_total, 10);
}

#[test]
fn scale_signal_needs_a_value_strictly_above_threshold() {
    let policy = AutoscalePolicy { requests_active_max: 2, requests_per_sec_max: 5, latency_p99_ms_max: 100 };
    let mut c = LoadCounters::new();
    c.requests_active = 2;
    c.requests_total = 5;
    let mut s = BackgroundSampler::new(Some(policy));
    let sig = s.tick(&mut c);
    assert!(!sig.requests_active);
    assert!(!sig.requests_per_sec);
    assert!(!sig.latency_p99_ms);
    c.requests_active = 3;
    c.requests_total = 11;
    let sig = s.tick(&mut c);
    assert!(sig.requests_active);
    assert!(sig.requests_per_sec);
}
