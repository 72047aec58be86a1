//! Request counters that report into an external metrics provider: the
//! provider keeps the durable totals, these counters keep what the
//! sampler needs per tick (in-flight requests, requests and errors since
//! the last tick, the latency ring).

use vstd::prelude::*;
use crate::metrics::{wrap_inc, RingBuffer, RING_CAPACITY, wrap_inc_usize};

verus! {

/// Provider counter incremented once per completed request.
pub open spec fn requests_total_name() -> Seq<char> {
    "edge_requests_total"@
}

/// Provider counter incremented once per failed request.
pub open spec fn errors_total_name() -> Seq<char> {
    "edge_errors_total"@
}

/// `x + 1` with two's-complement wrap-around.
pub open spec fn wrap_inc_i64(x: i64) -> i64 {
    if x == i64::MAX { i64::MIN } else { (x + 1) as i64 }
}

/// `x - 1` with two's-complement wrap-around.
pub open spec fn wrap_dec_i64(x: i64) -> i64 {
    if x == i64::MIN { i64::MAX } else { (x - 1) as i64 }
}

/// Per-tick load state of requests whose totals go to a metrics provider.
#[derive(Debug, Clone)]
pub struct LoadCounters {
    /// Signed, so that an unmatched end never wraps to a huge count.
    pub requests_in_flight: i64,
    /// Reset each tick by the sampler.
    pub requests_since_tick: u64,
    pub errors_since_tick: u64,
    /// Request latencies in microseconds.
    pub latency_ring: RingBuffer,
}

impl LoadCounters {
    /// Zeroed counters with an empty ring of [`RING_CAPACITY`] slots.
    pub fn new() -> (c: Self)
        ensures
            c.requests_in_flight == 0,
            c.requests_since_tick == 0,
            c.errors_since_tick == 0,
            c.latency_ring@.samples == Seq::new(RING_CAPACITY as nat, |i: int| 0u64),
            c.latency_ring@.head == 0,
    {
        LoadCounters {
            requests_in_flight: 0,
            requests_since_tick: 0,
            errors_since_tick: 0,
            latency_ring: RingBuffer::new(RING_CAPACITY),
        }
    }

    /// Called at the start of each request.
    pub fn on_start(&mut self)
        ensures
            final(self).requests_in_flight == wrap_inc_i64(old(self).requests_in_flight),
            final(self).requests_since_tick == old(self).requests_since_tick,
            final(self).errors_since_tick == old(self).errors_since_tick,
            final(self).latency_ring@ == old(self).latency_ring@,
    {
        self.requests_in_flight = if self.requests_in_flight == i64::MAX {
            i64::MIN
        } else {
            self.requests_in_flight + 1
        };
    }

    /// Called at the end of each request with its latency and outcome.
    /// Returns the provider counters to increment by one, in order:
    /// `edge_requests_total`, then `edge_errors_total` for an error.
    pub fn on_end(&mut self, latency_us: u64, is_error: bool) -> (counters: Vec<String>)
        requires
            old(self).latency_ring@.samples.len() > 0,
        ensures
            final(self).requests_in_flight == wrap_dec_i64(old(self).requests_in_flight),
            final(self).requests_since_tick == wrap_inc(old(self).requests_since_tick),
            final(self).errors_since_tick == if is_error {
                wrap_inc(old(self).errors_since_tick)
            } else {
                old(self).errors_since_tick
            },
            final(self).latency_ring@.samples == old(self).latency_ring@.samples.update(
                (old(self).latency_ring@.head as int) % (old(self).latency_ring@.samples.len() as int),
                latency_us,
            ),
            final(self).latency_ring@.head == wrap_inc_usize(old(self).latency_ring@.head),
            counters.deep_view() == if is_error {
                seq![requests_total_name(), errors_total_name()]
            } else {
                seq![requests_total_name()]
            },
    {
        self.requests_in_flight = if self.requests_in_flight == i64::MIN {
            i64::MAX
        } else {
            self.requests_in_flight - 1
        };
        self.requests_since_tick = if self.requests_since_tick == u64::MAX {
            0
        } else {
            self.requests_since_tick + 1
        };
        let mut counters: Vec<String> = Vec::new();
        counters.push(String::from_str("edge_requests_total"));
        if is_error {
            self.errors_since_tick = if self.errors_since_tick == u64::MAX {
                0
            } else {
                self.errors_since_tick + 1
            };
            counters.push(String::from_str("edge_errors_total"));
        }
        self.latency_ring.push(latency_us);
        assert(counters.deep_view() =~= if is_error {
            seq![requests_total_name(), errors_total_name()]
        } else {
            seq![requests_total_name()]
        });
        counters
    }
}

} // verus!
