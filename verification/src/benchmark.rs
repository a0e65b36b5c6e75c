//! Performance metric bookkeeping.
//!
//! Timings and memory figures are handed in by the caller as plain
//! numbers; nothing here reads a clock or the process tables itself.

use vstd::prelude::*;
use vstd::string::StringSliceAdditionalSpecFns;
use std::collections::HashMap;

verus! {

/// Collected timings (nanoseconds), memory figures (bytes) and counters,
/// each keyed by an operation name.
#[derive(Debug)]
pub struct PerformanceMetrics {
    timings: HashMap<u64, Vec<u64>>,
    memory_usage: HashMap<u64, usize>,
    counters: HashMap<u64, usize>,
}

impl Default for PerformanceMetrics {
    /// An empty collection.
    fn default() -> (r: Self)
        ensures
            r.timings_view() == Map::<u64, Seq<u64>>::empty(),
    {
        PerformanceMetrics::new()
    }
}

/// The sum of a timing list, in nanoseconds.
pub open spec fn sum_of_timings(s: Seq<u64>) -> int
    decreases s.len(),
{
    if s.len() == 0 {
        0
    } else {
        sum_of_timings(s.drop_last()) + s.last()
    }
}

impl PerformanceMetrics {
    /// The recorded timing lists, keyed by the operation name's hash.
    pub closed spec fn timings_view(&self) -> Map<u64, Seq<u64>> {
        Map::new(
            |h: u64| self.timings@.contains_key(h),
            |h: u64| self.timings@[h]@,
        )
    }

    /// An empty collection.
    pub fn new() -> (r: Self)
        ensures
            r.timings_view() == Map::<u64, Seq<u64>>::empty(),
    {
        let r = PerformanceMetrics {
            timings: HashMap::new(),
            memory_usage: HashMap::new(),
            counters: HashMap::new(),
        };
        proof {
            assert(r.timings_view() =~= Map::<u64, Seq<u64>>::empty());
        }
        r
    }

    /// Record one timing, in nanoseconds, for an operation.
    pub fn record_timing(&mut self, operation: &str, duration_nanos: u64)
        ensures
            ({
                let h = crate::strutil::fnv1a_spec(operation.spec_bytes());
                final(self).timings_view() == old(self).timings_view().insert(
                    h,
                    (if old(self).timings_view().contains_key(h) {
                        old(self).timings_view()[h]
                    } else {
                        Seq::empty()
                    }).push(duration_nanos),
                )
            }),
    {
        let h = crate::strutil::fnv1a(operation.as_bytes());
        let mut times: Vec<u64> = match self.timings.get(&h) {
            Some(v) => clone_u64_vec(v),
            None => Vec::new(),
        };
        let ghost prefix = times@;
        times.push(duration_nanos);
        self.timings.insert(h, times);
        proof {
            assert(self.timings_view() =~= old(self).timings_view().insert(
                crate::strutil::fnv1a_spec(operation.spec_bytes()),
                prefix.push(duration_nanos),
            ));
        }
    }

    /// Record the memory used by an operation, in bytes.
    pub fn record_memory(&mut self, operation: &str, bytes: usize)
        ensures
            final(self).timings_view() == old(self).timings_view(),
    {
        let h = crate::strutil::fnv1a(operation.as_bytes());
        self.memory_usage.insert(h, bytes);
    }

    /// Increment a counter.
    pub fn increment_counter(&mut self, counter: &str)
        ensures
            final(self).timings_view() == old(self).timings_view(),
    {
        let h = crate::strutil::fnv1a(counter.as_bytes());
        let next: usize = match self.counters.get(&h) {
            Some(v) => {
                if *v < usize::MAX {
                    *v + 1
                } else {
                    *v
                }
            },
            None => 1,
        };
        self.counters.insert(h, next);
    }

    /// The mean of the recorded timings for an operation, in nanoseconds
    /// (the integer quotient of their sum by their count); nothing when
    /// none were recorded.
    pub fn avg_timing(&self, operation: &str) -> (r: Option<u64>)
        ensures
            ({
                let h = crate::strutil::fnv1a_spec(operation.spec_bytes());
                &&& (r is Some <==> self.timings_view().contains_key(h)
                    && self.timings_view()[h].len() > 0)
                &&& (r matches Some(v) ==> v == sum_of_timings(self.timings_view()[h])
                    / self.timings_view()[h].len() as int)
            }),
    {
        let h = crate::strutil::fnv1a(operation.as_bytes());
        match self.timings.get(&h) {
            Some(times) => {
                if times.len() == 0 {
                    return None;
                }
                let mut total: u128 = 0;
                let mut i: usize = 0;
                while i < times.len()
                    invariant
                        i <= times@.len(),
                        total <= i * 0xFFFFFFFFFFFFFFFFu64,
                        total == sum_of_timings(times@.take(i as int)),
                    decreases times@.len() - i,
                {
                    proof {
                        assert((i + 1) * 0xFFFFFFFFFFFFFFFFu64 == i * 0xFFFFFFFFFFFFFFFFu64
                            + 0xFFFFFFFFFFFFFFFFu64) by (nonlinear_arith);
                        assert(times@.take(i + 1).drop_last() =~= times@.take(i as int));
                    }
                    total = total + (times[i] as u128);
                    i = i + 1;
                }
                proof {
                    assert(times@.take(times@.len() as int) =~= times@);
                }
                let avg128 = total / (times.len() as u128);
                let avg: u64 = if avg128 > 0xFFFFFFFFFFFFFFFF {
                    0xFFFFFFFFFFFFFFFF
                } else {
                    avg128 as u64
                };
                proof {
                    let m = 0xFFFFFFFFFFFFFFFFu64 as int;
                    let nlen = times@.len() as int;
                    vstd::arithmetic::div_mod::lemma_div_is_ordered(total as int, nlen * m, nlen);
                    vstd::arithmetic::div_mod::lemma_div_by_multiple(m, nlen);
                    assert(avg128 as int == sum_of_timings(times@) / nlen);
                }
                Some(avg)
            },
            None => None,
        }
    }
}

/// Copy a timing list.
fn clone_u64_vec(v: &Vec<u64>) -> (r: Vec<u64>)
    ensures
        r@ == v@,
{
    let mut r: Vec<u64> = Vec::new();
    let mut i: usize = 0;
    while i < v.len()
        invariant
            i <= v@.len(),
            r@ == v@.take(i as int),
        decreases v@.len() - i,
    {
        r.push(v[i]);
        proof {
            assert(r@ =~= v@.take(i + 1));
        }
        i = i + 1;
    }
    proof {
        assert(v@.take(v@.len() as int) =~= v@);
    }
    r
}

/// A timer over caller-supplied clock readings: the start instant is
/// handed in, in nanoseconds of the caller's monotonic clock.
pub struct Timer {
    /// The clock reading at the start.
    pub start_nanos: u64,
    /// The operation being timed.
    pub operation: String,
}

impl Timer {
    /// Start a timer at the given clock reading.
    pub fn new(operation: &str, start_nanos: u64) -> (r: Timer)
        ensures
            r.start_nanos == start_nanos,
            r.operation@ == operation@,
    {
        Timer { start_nanos, operation: operation.to_owned() }
    }

    /// Start a timer whose stop will feed the given metrics.
    pub fn with_metrics(operation: &str, start_nanos: u64) -> (r: Timer)
        ensures
            r.start_nanos == start_nanos,
            r.operation@ == operation@,
    {
        Timer::new(operation, start_nanos)
    }

    /// The nanoseconds elapsed to the given clock reading, never negative.
    pub fn elapsed(&self, now_nanos: u64) -> (r: u64)
        ensures
            r == (if now_nanos >= self.start_nanos {
                now_nanos - self.start_nanos
            } else {
                0int
            }),
    {
        if now_nanos >= self.start_nanos {
            now_nanos - self.start_nanos
        } else {
            0u64
        }
    }

    /// Stop the timer, recording the elapsed time under its operation.
    pub fn stop(self, now_nanos: u64, metrics: &mut PerformanceMetrics) -> (r: u64)
        ensures
            r == (if now_nanos >= self.start_nanos {
                now_nanos - self.start_nanos
            } else {
                0int
            }),
    {
        let elapsed = self.elapsed(now_nanos);
        metrics.record_timing(self.operation.as_str(), elapsed);
        elapsed
    }
}

/// Memory usage deltas over caller-supplied readings, in bytes.
pub struct MemoryTracker {
    /// The reading taken when tracking began.
    pub initial_usage: usize,
}

impl MemoryTracker {
    /// Start tracking from the given reading.
    pub fn new(initial_usage: usize) -> (r: Self)
        ensures
            r.initial_usage == initial_usage,
    {
        MemoryTracker { initial_usage }
    }

    /// The current reading, passed through.
    pub fn current_usage(&self, now: usize) -> (r: usize)
        ensures
            r == now,
    {
        now
    }

    /// The signed change against the initial reading.
    pub fn delta(&self, now: usize) -> (r: i128)
        ensures
            r == now - self.initial_usage,
    {
        (now as i128) - (self.initial_usage as i128)
    }
}

/// Metric collection for whole parsing runs.
pub struct MftBenchmark {
    /// The metrics the run fills.
    pub metrics: PerformanceMetrics,
}

impl MftBenchmark {
    /// An empty benchmark.
    pub fn new() -> (r: Self)
        ensures
            r.metrics.timings_view() == Map::<u64, Seq<u64>>::empty(),
    {
        MftBenchmark { metrics: PerformanceMetrics::new() }
    }
}

} // verus!
