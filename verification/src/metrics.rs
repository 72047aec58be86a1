//! Load metrics: the latency ring buffer and its 99th percentile, the
//! request counters, their point-in-time snapshot and its Prometheus
//! rendering, the once-per-second sampler, and the metrics/autoscale
//! settings.

use vstd::prelude::*;
use vstd::relations::{sorted_by, total_ordering};
use crate::text::{decimal, u64_to_decimal};

verus! {

/// Number of latency samples kept by the request counters.
pub const RING_CAPACITY: usize = 1024;

/// `x + 1` with wrap-around at `u64::MAX`.
pub open spec fn wrap_inc(x: u64) -> u64 {
    if x == u64::MAX { 0 } else { (x + 1) as u64 }
}

/// `x - 1` with wrap-around at zero.
pub open spec fn wrap_dec(x: u64) -> u64 {
    if x == 0 { u64::MAX } else { (x - 1) as u64 }
}

/// `x + 1` with wrap-around at `usize::MAX`.
pub open spec fn wrap_inc_usize(x: usize) -> usize {
    if x == usize::MAX { 0 } else { (x + 1) as usize }
}

fn inc(x: u64) -> (r: u64)
    ensures
        r == wrap_inc(x),
{
    if x == u64::MAX { 0 } else { x + 1 }
}

fn dec(x: u64) -> (r: u64)
    ensures
        r == wrap_dec(x),
{
    if x == 0 { u64::MAX } else { x - 1 }
}

/// Ring buffer of latency samples in microseconds.
#[derive(Debug, Clone)]
pub struct RingBuffer {
    buf: Vec<u64>,
    head: usize,
}

/// Model of a [`RingBuffer`]: the slots and the write cursor.
pub struct RingView {
    pub samples: Seq<u64>,
    pub head: usize,
}

impl View for RingBuffer {
    type V = RingView;

    closed spec fn view(&self) -> RingView {
        RingView { samples: self.buf@, head: self.head }
    }
}

/// The samples that were recorded: a slot holding zero counts as empty.
pub open spec fn positive_samples(s: Seq<u64>) -> Seq<u64>
    decreases s.len(),
{
    if s.len() == 0 {
        Seq::empty()
    } else {
        let p = positive_samples(s.drop_last());
        if s.last() > 0 {
            p.push(s.last())
        } else {
            p
        }
    }
}

/// Ascending order on samples.
pub open spec fn ascending() -> spec_fn(u64, u64) -> bool {
    |a: u64, b: u64| a <= b
}

/// Position of the 99th percentile among `n` sorted samples:
/// `n * 99 / 100 - 1`, or 0 when that would be negative.
pub open spec fn percentile_index(n: nat) -> int {
    let k = (n * 99) / 100;
    if k >= 1 { k - 1 } else { 0 }
}

/// The 99th-percentile sample itself over the recorded samples, in
/// microseconds; 0 when there are none.
pub open spec fn p99_us_of(s: Seq<u64>) -> u64 {
    let p = positive_samples(s);
    if p.len() == 0 {
        0
    } else {
        p.sort_by(ascending())[percentile_index(p.len())]
    }
}

/// The 99th-percentile latency in milliseconds over the recorded samples
/// (microseconds, truncated to whole milliseconds); 0 when there are none.
pub open spec fn p99_ms_of(s: Seq<u64>) -> u64 {
    let p = positive_samples(s);
    if p.len() == 0 {
        0
    } else {
        (p.sort_by(ascending())[percentile_index(p.len())] / 1000) as u64
    }
}

/// Calls `<[u64]>::sort_unstable`, which documents that it sorts the slice
/// in ascending order: the result holds the same elements, in order.
#[verifier::external_body]
fn sort_ascending(v: &mut Vec<u64>)
    ensures
        final(v)@.len() == old(v)@.len(),
        final(v)@.to_multiset() == old(v)@.to_multiset(),
        sorted_by(final(v)@, ascending()),
{
    v.sort_unstable();
}

proof fn lemma_ascending_total()
    ensures
        total_ordering(ascending()),
{
}

proof fn lemma_percentile_in_range(n: nat)
    requires
        n >= 1,
    ensures
        0 <= percentile_index(n) < n,
        (n * 99) / 100 <= n,
{
    assert((n * 99) / 100 < n) by (nonlinear_arith)
        requires
            n >= 1,
    ;
}

impl RingBuffer {
    /// A buffer of `capacity` empty (zero) slots.
    pub fn new(capacity: usize) -> (rb: Self)
        ensures
            rb@.samples == Seq::new(capacity as nat, |i: int| 0u64),
            rb@.head == 0,
    {
        let mut buf: Vec<u64> = Vec::new();
        let mut i: usize = 0;
        while i < capacity
            invariant
                i <= capacity,
                buf@ =~= Seq::new(i as nat, |j: int| 0u64),
            decreases capacity - i,
        {
            buf.push(0);
            i = i + 1;
        }
        RingBuffer { buf, head: 0 }
    }

    /// Number of slots.
    pub fn capacity(&self) -> (n: usize)
        ensures
            n == self@.samples.len(),
    {
        self.buf.len()
    }

    /// Writes a sample into the slot under the cursor and advances it.
    pub fn push(&mut self, val_us: u64)
        requires
            old(self)@.samples.len() > 0,
        ensures
            final(self)@.samples == old(self)@.samples.update(
                (old(self)@.head as int) % (old(self)@.samples.len() as int),
                val_us,
            ),
            final(self)@.head == wrap_inc_usize(old(self)@.head),
    {
        let cap = self.buf.len();
        let idx = self.head % cap;
        self.buf.set(idx, val_us);
        self.head = if self.head == usize::MAX { 0 } else { self.head + 1 };
    }

    /// 99th-percentile latency in milliseconds over the current window.
    pub fn p99_ms(&self) -> (r: u64)
        ensures
            r == p99_ms_of(self@.samples),
    {
        let r = self.p99_us();
        if r == 0 { 0 } else { r / 1000 }
    }

    /// The 99th-percentile sample itself, in microseconds; 0 when there
    /// are no samples.
    pub fn p99_us(&self) -> (r: u64)
        ensures
            positive_samples(self@.samples).len() == 0 ==> r == 0,
            positive_samples(self@.samples).len() > 0 ==> r == positive_samples(self@.samples).sort_by(
                ascending(),
            )[percentile_index(positive_samples(self@.samples).len())],
            r / 1000 == p99_ms_of(self@.samples),
            r == p99_us_of(self@.samples),
    {
        let n = self.buf.len();
        let mut samples: Vec<u64> = Vec::new();
        let mut i: usize = 0;
        while i < n
            invariant
                n == self.buf@.len(),
                i <= n,
                samples@ == positive_samples(self.buf@.take(i as int)),
            decreases n - i,
        {
            assert(self.buf@.take(i as int + 1).drop_last() =~= self.buf@.take(i as int));
            let v = self.buf[i];
            if v > 0 {
                samples.push(v);
            }
            i = i + 1;
        }
        assert(self.buf@.take(n as int) =~= self.buf@);
        let ghost pos = samples@;
        if samples.len() == 0 {
            return 0;
        }
        sort_ascending(&mut samples);
        proof {
            lemma_ascending_total();
            pos.lemma_sort_by_ensures(ascending());
            vstd::seq_lib::lemma_sorted_unique(samples@, pos.sort_by(ascending()), ascending());
            lemma_percentile_in_range(pos.len());
        }
        let m = samples.len();
        let k: u128 = (m as u128) * 99 / 100;
        assert(k as int == (pos.len() * 99) / 100);
        let idx: usize = if k >= 1 { (k - 1) as usize } else { 0 };
        assert(idx as int == percentile_index(pos.len()));
        assert(samples@ == pos.sort_by(ascending()));
        samples[idx]
    }
}

/// A point-in-time snapshot of load metrics.
#[derive(Debug, Clone, Copy)]
pub struct LoadSnapshot {
    pub requests_active: u64,
    pub requests_total: u64,
    pub errors_total: u64,
    pub requests_per_sec: u64,
    pub latency_p99_ms: u64,
    pub err_per_sec: u64,
}

/// The Prometheus text exposition (version 0.0.4) of a snapshot.
pub open spec fn prometheus_text(s: LoadSnapshot) -> Seq<char> {
    "# HELP edge_requests_active In-flight request count\n# TYPE edge_requests_active gauge\nedge_requests_active "@
        + decimal(s.requests_active as nat)
        + "\n# HELP edge_requests_total Total requests processed\n# TYPE edge_requests_total counter\nedge_requests_total "@
        + decimal(s.requests_total as nat)
        + "\n# HELP edge_errors_total Total error responses\n# TYPE edge_errors_total counter\nedge_errors_total "@
        + decimal(s.errors_total as nat)
        + "\n# HELP edge_requests_per_second Current request rate\n# TYPE edge_requests_per_second gauge\nedge_requests_per_second "@
        + decimal(s.requests_per_sec as nat)
        + "\n# HELP edge_request_latency_p99_ms 99th-percentile request latency in milliseconds\n# TYPE edge_request_latency_p99_ms gauge\nedge_request_latency_p99_ms "@
        + decimal(s.latency_p99_ms as nat)
        + "\n# HELP edge_errors_per_second Error rate\n# TYPE edge_errors_per_second gauge\nedge_errors_per_second "@
        + decimal(s.err_per_sec as nat)
        + "\n"@
}

impl LoadSnapshot {
    /// Render as Prometheus text exposition format (version 0.0.4).
    pub fn to_prometheus(&self) -> (r: String)
        ensures
            r@ == prometheus_text(*self),
    {
        let r = String::from_str(
            "# HELP edge_requests_active In-flight request count\n# TYPE edge_requests_active gauge\nedge_requests_active ",
        );
        let r = r.concat(u64_to_decimal(self.requests_active).as_str());
        let r = r.concat(
            "\n# HELP edge_requests_total Total requests processed\n# TYPE edge_requests_total counter\nedge_requests_total ",
        );
        let r = r.concat(u64_to_decimal(self.requests_total).as_str());
        let r = r.concat(
            "\n# HELP edge_errors_total Total error responses\n# TYPE edge_errors_total counter\nedge_errors_total ",
        );
        let r = r.concat(u64_to_decimal(self.errors_total).as_str());
        let r = r.concat(
            "\n# HELP edge_requests_per_second Current request rate\n# TYPE edge_requests_per_second gauge\nedge_requests_per_second ",
        );
        let r = r.concat(u64_to_decimal(self.requests_per_sec).as_str());
        let r = r.concat(
            "\n# HELP edge_request_latency_p99_ms 99th-percentile request latency in milliseconds\n# TYPE edge_request_latency_p99_ms gauge\nedge_request_latency_p99_ms ",
        );
        let r = r.concat(u64_to_decimal(self.latency_p99_ms).as_str());
        let r = r.concat(
            "\n# HELP edge_errors_per_second Error rate\n# TYPE edge_errors_per_second gauge\nedge_errors_per_second ",
        );
        let r = r.concat(u64_to_decimal(self.err_per_sec).as_str());
        r.concat("\n")
    }
}

/// Request counters updated on the request path, with the derived values
/// the sampler publishes once per second.
#[derive(Debug, Clone)]
pub struct LoadCounters {
    pub requests_active: u64,
    pub requests_total: u64,
    pub errors_total: u64,
    pub latency_ring: RingBuffer,
    pub snapshot_rps: u64,
    pub snapshot_p99_ms: u64,
    pub snapshot_err_per_sec: u64,
}

impl LoadCounters {
    /// Zeroed counters with an empty ring of [`RING_CAPACITY`] slots.
    pub fn new() -> (c: Self)
        ensures
            c.requests_active == 0,
            c.requests_total == 0,
            c.errors_total == 0,
            c.snapshot_rps == 0,
            c.snapshot_p99_ms == 0,
            c.snapshot_err_per_sec == 0,
            c.latency_ring@.samples == Seq::new(RING_CAPACITY as nat, |i: int| 0u64),
            c.latency_ring@.head == 0,
    {
        LoadCounters {
            requests_active: 0,
            requests_total: 0,
            errors_total: 0,
            latency_ring: RingBuffer::new(RING_CAPACITY),
            snapshot_rps: 0,
            snapshot_p99_ms: 0,
            snapshot_err_per_sec: 0,
        }
    }

    /// A request started: one more in flight.
    pub fn begin_request(&mut self)
        ensures
            *final(self) == (LoadCounters { requests_active: wrap_inc(old(self).requests_active), ..*old(self) }),
    {
        self.requests_active = inc(self.requests_active);
    }

    /// Record one completed request: one fewer in flight, one more in the
    /// total (and in the error count when `is_error`), and its latency in
    /// the ring.
    pub fn record(&mut self, latency_us: u64, is_error: bool)
        requires
            old(self).latency_ring@.samples.len() > 0,
        ensures
            final(self).requests_active == wrap_dec(old(self).requests_active),
            final(self).requests_total == wrap_inc(old(self).requests_total),
            final(self).errors_total == if is_error { wrap_inc(old(self).errors_total) } else { old(self).errors_total },
            final(self).latency_ring@.samples == old(self).latency_ring@.samples.update(
                (old(self).latency_ring@.head as int) % (old(self).latency_ring@.samples.len() as int),
                latency_us,
            ),
            final(self).latency_ring@.head == wrap_inc_usize(old(self).latency_ring@.head),
            final(self).snapshot_rps == old(self).snapshot_rps,
            final(self).snapshot_p99_ms == old(self).snapshot_p99_ms,
            final(self).snapshot_err_per_sec == old(self).snapshot_err_per_sec,
    {
        self.requests_active = dec(self.requests_active);
        self.requests_total = inc(self.requests_total);
        if is_error {
            self.errors_total = inc(self.errors_total);
        }
        self.latency_ring.push(latency_us);
    }

    /// A point-in-time snapshot suitable for Prometheus exposition.
    pub fn snapshot(&self) -> (s: LoadSnapshot)
        ensures
            s == (LoadSnapshot {
                requests_active: self.requests_active,
                requests_total: self.requests_total,
                errors_total: self.errors_total,
                requests_per_sec: self.snapshot_rps,
                latency_p99_ms: self.snapshot_p99_ms,
                err_per_sec: self.snapshot_err_per_sec,
            }),
    {
        LoadSnapshot {
            requests_active: self.requests_active,
            requests_total: self.requests_total,
            errors_total: self.errors_total,
            requests_per_sec: self.snapshot_rps,
            latency_p99_ms: self.snapshot_p99_ms,
            err_per_sec: self.snapshot_err_per_sec,
        }
    }
}

/// Settings of the Prometheus metrics endpoint.
#[derive(Debug, Clone)]
pub struct MetricsConfig {
    /// Bind address of the metrics server (separate from `http_bind`).
    pub bind: String,
    /// Path served by the metrics endpoint.
    pub path: String,
}

impl Default for MetricsConfig {
    fn default() -> (c: Self)
        ensures
            c.bind@ == "0.0.0.0:9090"@,
            c.path@ == "/metrics"@,
    {
        MetricsConfig { bind: String::from_str("0.0.0.0:9090"), path: String::from_str("/metrics") }
    }
}

/// Thresholds above which a scale-out signal is raised.
#[derive(Debug, Clone, Copy)]
pub struct AutoscalePolicy {
    /// In-flight requests.
    pub requests_active_max: u64,
    /// Requests per second.
    pub requests_per_sec_max: u64,
    /// 99th-percentile latency in milliseconds.
    pub latency_p99_ms_max: u64,
}

impl Default for AutoscalePolicy {
    fn default() -> (p: Self)
        ensures
            p == (AutoscalePolicy { requests_active_max: 500, requests_per_sec_max: 1000, latency_p99_ms_max: 200 }),
    {
        AutoscalePolicy { requests_active_max: 500, requests_per_sec_max: 1000, latency_p99_ms_max: 200 }
    }
}

/// Which thresholds a sample exceeded.
#[derive(Debug, Clone, Copy)]
pub struct ScaleSignals {
    pub requests_active: bool,
    pub requests_per_sec: bool,
    pub latency_p99_ms: bool,
}

/// `a - b`, or 0 when `b` is larger.
pub open spec fn sat_sub(a: u64, b: u64) -> u64 {
    if a >= b { (a - b) as u64 } else { 0 }
}

/// The thresholds that a sample strictly exceeds; none without a policy.
pub open spec fn signals_for(policy: Option<AutoscalePolicy>, active: u64, rps: u64, p99_ms: u64) -> ScaleSignals {
    match policy {
        None => ScaleSignals { requests_active: false, requests_per_sec: false, latency_p99_ms: false },
        Some(p) => ScaleSignals {
            requests_active: active > p.requests_active_max,
            requests_per_sec: rps > p.requests_per_sec_max,
            latency_p99_ms: p99_ms > p.latency_p99_ms_max,
        },
    }
}

/// The once-per-second sampler: turns counter totals into rates and checks
/// the autoscale thresholds.
#[derive(Debug, Clone, Copy)]
pub struct BackgroundSampler {
    pub prev_total: u64,
    pub prev_errors: u64,
    pub policy: Option<AutoscalePolicy>,
}

impl BackgroundSampler {
    /// A sampler that has not ticked yet.
    pub fn new(policy: Option<AutoscalePolicy>) -> (s: Self)
        ensures
            s == (BackgroundSampler { prev_total: 0, prev_errors: 0, policy }),
    {
        BackgroundSampler { prev_total: 0, prev_errors: 0, policy }
    }

    /// One tick: publishes the requests and errors since the previous tick
    /// and the current p99 latency into `counters`, remembers the totals,
    /// and reports which policy thresholds are strictly exceeded (none
    /// without a policy).
    pub fn tick(&mut self, counters: &mut LoadCounters) -> (sig: ScaleSignals)
        ensures
            final(counters).snapshot_rps == sat_sub(old(counters).requests_total, old(self).prev_total),
            final(counters).snapshot_err_per_sec == sat_sub(old(counters).errors_total, old(self).prev_errors),
            final(counters).snapshot_p99_ms == p99_ms_of(old(counters).latency_ring@.samples),
            final(counters).requests_active == old(counters).requests_active,
            final(counters).requests_total == old(counters).requests_total,
            final(counters).errors_total == old(counters).errors_total,
            final(counters).latency_ring@ == old(counters).latency_ring@,
            final(self).prev_total == old(counters).requests_total,
            final(self).prev_errors == old(counters).errors_total,
            final(self).policy == old(self).policy,
            sig == signals_for(
                old(self).policy,
                old(counters).requests_active,
                final(counters).snapshot_rps,
                final(counters).snapshot_p99_ms,
            ),
            *final(self) == sampler_after(*old(self), reading_of(*old(counters))),
            (TickOutcome {
                requests_per_sec: final(counters).snapshot_rps,
                err_per_sec: final(counters).snapshot_err_per_sec,
                latency_p99_ms: final(counters).snapshot_p99_ms,
                signals: sig,
            }) == tick_outcome(*old(self), reading_of(*old(counters))),
    {
        let total = counters.requests_total;
        let errors = counters.errors_total;
        let active = counters.requests_active;
        let rps = if total >= self.prev_total { total - self.prev_total } else { 0 };
        let eps = if errors >= self.prev_errors { errors - self.prev_errors } else { 0 };
        let p99 = counters.latency_ring.p99_ms();
        counters.snapshot_rps = rps;
        counters.snapshot_p99_ms = p99;
        counters.snapshot_err_per_sec = eps;
        self.prev_total = total;
        self.prev_errors = errors;
        match self.policy {
            None => ScaleSignals { requests_active: false, requests_per_sec: false, latency_p99_ms: false },
            Some(p) => ScaleSignals {
                requests_active: active > p.requests_active_max,
                requests_per_sec: rps > p.requests_per_sec_max,
                latency_p99_ms: p99 > p.latency_p99_ms_max,
            },
        }
    }
}

/// What one tick reads: the counters' in-flight gauge and totals, and the
/// p99 latency of the ring at that moment.
pub struct TickReading {
    pub requests_active: u64,
    pub requests_total: u64,
    pub errors_total: u64,
    pub latency_p99_ms: u64,
}

/// What one tick publishes and signals.
pub struct TickOutcome {
    pub requests_per_sec: u64,
    pub err_per_sec: u64,
    pub latency_p99_ms: u64,
    pub signals: ScaleSignals,
}

/// The reading a tick takes of `c`.
pub open spec fn reading_of(c: LoadCounters) -> TickReading {
    TickReading {
        requests_active: c.requests_active,
        requests_total: c.requests_total,
        errors_total: c.errors_total,
        latency_p99_ms: p99_ms_of(c.latency_ring@.samples),
    }
}

/// What a tick of sampler `s` publishes for reading `r`.
pub open spec fn tick_outcome(s: BackgroundSampler, r: TickReading) -> TickOutcome {
    TickOutcome {
        requests_per_sec: sat_sub(r.requests_total, s.prev_total),
        err_per_sec: sat_sub(r.errors_total, s.prev_errors),
        latency_p99_ms: r.latency_p99_ms,
        signals: signals_for(s.policy, r.requests_active, sat_sub(r.requests_total, s.prev_total), r.latency_p99_ms),
    }
}

/// The sampler after a tick that took reading `r`: it remembers the totals.
pub open spec fn sampler_after(s: BackgroundSampler, r: TickReading) -> BackgroundSampler {
    BackgroundSampler { prev_total: r.requests_total, prev_errors: r.errors_total, policy: s.policy }
}

/// What a run of ticks of sampler `s` publishes, one outcome per reading.
pub open spec fn run_ticks(s: BackgroundSampler, readings: Seq<TickReading>) -> Seq<TickOutcome>
    decreases readings.len(),
{
    if readings.len() == 0 {
        Seq::empty()
    } else {
        seq![tick_outcome(s, readings[0])] + run_ticks(sampler_after(s, readings[0]), readings.drop_first())
    }
}

} // verus!
