//! Metric primitives and the collectors the dispatch core reports to.
//!
//! Metrics receive observations and never influence control flow.

use vstd::prelude::*;
use crate::block::DeploymentLocator;
use crate::text::concat_strs;

verus! {

/// `a + b`, stopping at the largest representable value.
pub open spec fn sat_add(a: u64, b: u64) -> u64 {
    if a + b > u64::MAX {
        u64::MAX
    } else {
        (a + b) as u64
    }
}

/// A monotonically increasing counter.
#[derive(Debug)]
pub struct Counter {
    pub name: String,
    pub help: String,
    pub value: u64,
}

impl Counter {
    pub fn new(name: &str, help: &str) -> (r: Counter)
        ensures
            r.name@ == name@,
            r.help@ == help@,
            r.value == 0,
    {
        Counter { name: name.to_owned(), help: help.to_owned(), value: 0 }
    }

    /// Counts one more occurrence; the counter never wraps around.
    pub fn inc(&mut self)
        ensures
            final(self).value == sat_add(old(self).value, 1),
            final(self).name == old(self).name,
            final(self).help == old(self).help,
    {
        self.value = self.value.checked_add(1).unwrap_or(u64::MAX);
    }

    pub fn get(&self) -> (r: u64)
        ensures
            r == self.value,
    {
        self.value
    }
}

/// A gauge: a value that can be set or moved in either direction.
#[derive(Debug)]
pub struct Gauge {
    pub name: String,
    pub help: String,
    pub value: u64,
}

impl Gauge {
    pub fn new(name: &str, help: &str) -> (r: Gauge)
        ensures
            r.name@ == name@,
            r.help@ == help@,
            r.value == 0,
    {
        Gauge { name: name.to_owned(), help: help.to_owned(), value: 0 }
    }

    pub fn set(&mut self, value: u64)
        ensures
            final(self).value == value,
            final(self).name == old(self).name,
            final(self).help == old(self).help,
    {
        self.value = value;
    }

    /// Adds to the gauge, stopping at the largest representable value.
    pub fn add(&mut self, x: u64)
        ensures
            final(self).value == sat_add(old(self).value, x),
            final(self).name == old(self).name,
            final(self).help == old(self).help,
    {
        self.value = self.value.checked_add(x).unwrap_or(u64::MAX);
    }

    pub fn inc(&mut self)
        ensures
            final(self).value == sat_add(old(self).value, 1),
            final(self).name == old(self).name,
            final(self).help == old(self).help,
    {
        self.value = self.value.checked_add(1).unwrap_or(u64::MAX);
    }

    pub fn get(&self) -> (r: u64)
        ensures
            r == self.value,
    {
        self.value
    }
}

/// Aggregate statistics over a stream of duration observations, kept in
/// four gauges named `<name>_<suffix>` and described as
/// `<help> (<suffix>)`: the number of values, their sum, their average,
/// and the latest value.
#[derive(Debug)]
pub struct Aggregate {
    pub count: Gauge,
    pub sum: Gauge,
    pub avg: Gauge,
    pub cur: Gauge,
}

impl Aggregate {
    pub fn new(name: &str, deployment: &DeploymentLocator, help: &str) -> (r: Aggregate)
        ensures
            r.count.name@ == name@ + "_count"@,
            r.sum.name@ == name@ + "_sum"@,
            r.avg.name@ == name@ + "_avg"@,
            r.cur.name@ == name@ + "_cur"@,
            r.count.help@ == help@ + " (count)"@,
            r.sum.help@ == help@ + " (sum)"@,
            r.avg.help@ == help@ + " (avg)"@,
            r.cur.help@ == help@ + " (cur)"@,
            r.count.value == 0 && r.sum.value == 0 && r.avg.value == 0 && r.cur.value == 0,
    {
        let _ = deployment;
        Aggregate {
            count: Gauge::new(
                concat_strs(name, "_count").as_str(),
                concat_strs(help, " (count)").as_str(),
            ),
            sum: Gauge::new(
                concat_strs(name, "_sum").as_str(),
                concat_strs(help, " (sum)").as_str(),
            ),
            avg: Gauge::new(
                concat_strs(name, "_avg").as_str(),
                concat_strs(help, " (avg)").as_str(),
            ),
            cur: Gauge::new(
                concat_strs(name, "_cur").as_str(),
                concat_strs(help, " (cur)").as_str(),
            ),
        }
    }

    /// Feeds one value into the aggregate: the count grows by one, the sum
    /// by the value, the latest value is replaced, and the average is the
    /// integral mean of the accumulated sum over the count.
    pub fn update(&mut self, x: u64)
        ensures
            final(self).count.value == sat_add(old(self).count.value, 1),
            final(self).sum.value == sat_add(old(self).sum.value, x),
            final(self).cur.value == x,
            final(self).avg.value == final(self).sum.value / final(self).count.value,
            final(self).count.name == old(self).count.name,
            final(self).sum.name == old(self).sum.name,
            final(self).avg.name == old(self).avg.name,
            final(self).cur.name == old(self).cur.name,
    {
        self.count.inc();
        self.sum.add(x);
        self.cur.set(x);
        let avg = self.sum.get() / self.count.get();
        self.avg.set(avg);
    }

    /// Feeds one duration, given in milliseconds, into the aggregate.
    pub fn update_duration(&mut self, millis: u64)
        ensures
            final(self).count.value == sat_add(old(self).count.value, 1),
            final(self).sum.value == sat_add(old(self).sum.value, millis),
            final(self).cur.value == millis,
            final(self).avg.value == final(self).sum.value / final(self).count.value,
            final(self).count.name == old(self).count.name,
            final(self).sum.name == old(self).sum.name,
            final(self).avg.name == old(self).avg.name,
            final(self).cur.name == old(self).cur.name,
    {
        self.update(millis)
    }
}

/// Counters and a queue-depth gauge maintained for the service that polls
/// off-chain data.
#[derive(Debug)]
pub struct PollingMonitorMetrics {
    pub requests: Counter,
    pub errors: Counter,
    pub not_found: Counter,
    pub queue_depth: Gauge,
}

impl PollingMonitorMetrics {
    pub fn new(deployment: &DeploymentLocator) -> (r: Self)
        ensures
            r.requests.name@ == "polling_monitor_requests"@,
            r.errors.name@ == "polling_monitor_errors"@,
            r.not_found.name@ == "polling_monitor_not_found"@,
            r.queue_depth.name@ == "polling_monitor_queue_depth"@,
            r.requests.help@ == "counts the total requests made to the service being polled"@,
            r.errors.help@ == "counts errors returned from the service being polled"@,
            r.not_found.help@
                == "counts 'not found' responses returned from the service being polled"@,
            r.queue_depth.help@ == "size of the queue of polling requests"@,
            r.requests.value == 0 && r.errors.value == 0 && r.not_found.value == 0
                && r.queue_depth.value == 0,
    {
        let _ = deployment;
        Self {
            requests: Counter::new(
                "polling_monitor_requests",
                "counts the total requests made to the service being polled",
            ),
            errors: Counter::new(
                "polling_monitor_errors",
                "counts errors returned from the service being polled",
            ),
            not_found: Counter::new(
                "polling_monitor_not_found",
                "counts 'not found' responses returned from the service being polled",
            ),
            queue_depth: Gauge::new(
                "polling_monitor_queue_depth",
                "size of the queue of polling requests",
            ),
        }
    }

    pub fn mock() -> (r: Self)
        ensures
            r.requests.name@ == "x"@,
            r.errors.name@ == "y"@,
            r.not_found.name@ == "z"@,
            r.queue_depth.name@ == "w"@,
            r.requests.help@ == " "@ && r.errors.help@ == " "@ && r.not_found.help@ == " "@
                && r.queue_depth.help@ == " "@,
            r.requests.value == 0 && r.errors.value == 0 && r.not_found.value == 0
                && r.queue_depth.value == 0,
    {
        Self {
            requests: Counter::new("x", " "),
            errors: Counter::new("y", " "),
            not_found: Counter::new("z", " "),
            queue_depth: Gauge::new("w", " "),
        }
    }
}

/// One record of a completed dispatch, keyed by handler name: the elapsed
/// wall time and the gas the handler consumed (zero when it failed).
#[derive(Debug)]
pub struct Observation {
    pub handler: String,
    pub elapsed_ms: u64,
    pub gas: u64,
}

/// The collector a runtime host reports handler executions to.
#[derive(Debug)]
pub struct HostMetrics {
    pub observations: Vec<Observation>,
}

impl HostMetrics {
    pub fn new() -> (r: HostMetrics)
        ensures
            r.observations@.len() == 0,
    {
        HostMetrics { observations: Vec::new() }
    }

    /// Records one handler execution.
    pub fn observe_handler_execution(&mut self, handler: String, elapsed_ms: u64, gas: u64)
        ensures
            final(self).observations@ == old(self).observations@.push(
                Observation { handler, elapsed_ms, gas },
            ),
    {
        self.observations.push(Observation { handler, elapsed_ms, gas });
    }
}

} // verus!
