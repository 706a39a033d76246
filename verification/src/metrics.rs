//! The observability surface of the protocol: two monotonic counters, one for
//! pings sent and one for pings received, owned by a protocol instance and
//! read at any time by an external metrics collector.

use vstd::prelude::*;

verus! {

/// A monotonically increasing counter.
///
/// It starts at zero, moves only by increments of one, and is never reset for
/// the lifetime of the owning instance.
#[derive(Clone, Copy, Debug, PartialEq, Eq, Structural)]
pub struct Counter {
    pub count: u64,
}

impl Counter {
    /// Creates a counter at zero.
    pub fn new() -> (r: Counter)
        ensures
            r.count == 0,
    {
        Counter { count: 0 }
    }

    /// Reads the counter's current value.
    pub fn get(&self) -> (r: u64)
        ensures
            r == self.count,
    {
        self.count
    }

    /// Increments the counter by exactly one.
    pub fn inc(&mut self)
        requires
            old(self).count < u64::MAX,
        ensures
            final(self).count == old(self).count + 1,
    {
        self.count = self.count + 1;
    }
}

impl Default for Counter {
    fn default() -> (r: Counter)
        ensures
            r.count == 0,
    {
        Counter::new()
    }
}

/// The metrics of one protocol instance.
#[derive(Clone, Copy, Debug, PartialEq, Eq, Structural)]
pub struct Metrics {
    /// Count of valid ping messages sent.
    pub pings_sent: Counter,
    /// Count of valid ping messages received.
    pub pings_recv: Counter,
}

impl Metrics {
    /// Creates fresh, zeroed metrics.
    pub fn new() -> (r: Metrics)
        ensures
            r.pings_sent.count == 0,
            r.pings_recv.count == 0,
    {
        Metrics { pings_sent: Counter::new(), pings_recv: Counter::new() }
    }
}

impl Default for Metrics {
    fn default() -> (r: Metrics)
        ensures
            r.pings_sent.count == 0,
            r.pings_recv.count == 0,
    {
        Metrics::new()
    }
}

} // verus!
