//! The counters that the pipeline updates, and the names under which they
//! and the latency distributions are exposed.

use crate::pod::Remedy;
use prometheus_client::metrics::counter::Counter as ExposedCounter;
use prometheus_client::registry::Registry;
use std::sync::atomic::AtomicU64;
use vstd::prelude::*;

verus! {

/// One of the counters of the pipeline.
#[derive(Clone, Copy, Debug, PartialEq, Eq, Structural)]
pub enum CounterKind {
    /// Targets dropped because the queue was full.
    QueueOverflow,
    /// Pods removed.
    PodsDeleted,
    /// Removal calls that returned an error.
    PodsDeleteErrors,
    /// Removal calls that did not answer in time.
    PodsDeleteTimeouts,
    /// Event publications that returned an error.
    EventsPublishErrors,
    /// Event publications that did not answer in time.
    EventsPublishTimeouts,
}

/// One of the two calls whose latency is recorded.
#[derive(Clone, Copy, Debug, PartialEq, Eq, Structural)]
pub enum Latency {
    /// The call that removes a pod.
    Delete,
    /// The call that publishes an event.
    Publish,
}

/// Upper bounds of the latency buckets, in milliseconds: from five
/// milliseconds to ten seconds.
pub const LATENCY_BUCKETS_MILLIS: [u64; 11] = [5, 10, 25, 50, 100, 250, 500, 1000, 2500, 5000, 10000];

/// The value of a counter after one more increment. Counters are 64 bits
/// wide and start again at zero after the largest value.
pub open spec fn bumped(n: u64) -> u64 {
    if n == u64::MAX {
        0
    } else {
        (n + 1) as u64
    }
}

/// The value of a counter after `k` more increments.
pub open spec fn advanced(n: u64, k: nat) -> u64 {
    ((n + k) % 0x1_0000_0000_0000_0000) as u64
}

/// One increment advances a counter by one.
pub proof fn lemma_advanced_step(n: u64, k: nat)
    ensures
        advanced(n, 0) == n,
        advanced(n, k + 1) == bumped(advanced(n, k)),
{
}

/// The name under which a counter is exposed.
pub open spec fn counter_name(counter: CounterKind, remedy: Remedy) -> Seq<char> {
    match counter {
        CounterKind::QueueOverflow => "queue_overflow"@,
        CounterKind::PodsDeleted => match remedy {
            Remedy::Delete => "pods_deleted"@,
            Remedy::Evict => "evicted"@,
        },
        CounterKind::PodsDeleteErrors => "pods_delete_errors"@,
        CounterKind::PodsDeleteTimeouts => "pods_delete_timeout"@,
        CounterKind::EventsPublishErrors => "events_publish_errors"@,
        CounterKind::EventsPublishTimeouts => "events_publish_timeouts"@,
    }
}

/// The help text of a counter.
pub open spec fn counter_help(counter: CounterKind, remedy: Remedy) -> Seq<char> {
    match counter {
        CounterKind::QueueOverflow => "Incremented whenever the event processing queue overflows"@,
        CounterKind::PodsDeleted => match remedy {
            Remedy::Delete => "Number of pods deleted by the controller"@,
            Remedy::Evict => "Number of pods evicted by the controller"@,
        },
        CounterKind::PodsDeleteErrors => "Incremented whenever the pod deletion call errors out"@,
        CounterKind::PodsDeleteTimeouts => "Incremented whenever the pod deletion call times out"@,
        CounterKind::EventsPublishErrors => "Incremented whenever the event publishing call errors out"@,
        CounterKind::EventsPublishTimeouts => "Incremented whenever the event publishing call times out"@,
    }
}

/// The name under which a latency distribution is exposed.
pub open spec fn latency_name(latency: Latency) -> Seq<char> {
    match latency {
        Latency::Delete => "pods_delete_latency_seconds"@,
        Latency::Publish => "events_publish_latency_seconds"@,
    }
}

/// The help text of a latency distribution.
pub open spec fn latency_help(latency: Latency) -> Seq<char> {
    match latency {
        Latency::Delete => "Pod deletion latency distribution"@,
        Latency::Publish => "Events publish latency distribution"@,
    }
}

impl CounterKind {
    /// The name under which this counter is exposed.
    pub fn name(self, remedy: Remedy) -> (r: &'static str)
        ensures
            r@ == counter_name(self, remedy),
    {
        match self {
            CounterKind::QueueOverflow => "queue_overflow",
            CounterKind::PodsDeleted => match remedy {
                Remedy::Delete => "pods_deleted",
                Remedy::Evict => "evicted",
            },
            CounterKind::PodsDeleteErrors => "pods_delete_errors",
            CounterKind::PodsDeleteTimeouts => "pods_delete_timeout",
            CounterKind::EventsPublishErrors => "events_publish_errors",
            CounterKind::EventsPublishTimeouts => "events_publish_timeouts",
        }
    }

    /// The help text of this counter.
    pub fn help(self, remedy: Remedy) -> (r: &'static str)
        ensures
            r@ == counter_help(self, remedy),
    {
        match self {
            CounterKind::QueueOverflow => "Incremented whenever the event processing queue overflows",
            CounterKind::PodsDeleted => match remedy {
                Remedy::Delete => "Number of pods deleted by the controller",
                Remedy::Evict => "Number of pods evicted by the controller",
            },
            CounterKind::PodsDeleteErrors => "Incremented whenever the pod deletion call errors out",
            CounterKind::PodsDeleteTimeouts => "Incremented whenever the pod deletion call times out",
            CounterKind::EventsPublishErrors => "Incremented whenever the event publishing call errors out",
            CounterKind::EventsPublishTimeouts => "Incremented whenever the event publishing call times out",
        }
    }
}

impl Latency {
    /// The name under which this distribution is exposed.
    pub fn name(self) -> (r: &'static str)
        ensures
            r@ == latency_name(self),
    {
        match self {
            Latency::Delete => "pods_delete_latency_seconds",
            Latency::Publish => "events_publish_latency_seconds",
        }
    }

    /// The help text of this distribution.
    pub fn help(self) -> (r: &'static str)
        ensures
            r@ == latency_help(self),
    {
        match self {
            Latency::Delete => "Pod deletion latency distribution",
            Latency::Publish => "Events publish latency distribution",
        }
    }
}

/// A counter as the registry exposes it. Nothing inside it is visible to
/// the verifier.
#[verifier::external_type_specification]
#[verifier::external_body]
#[verifier::reject_recursive_types(N)]
#[verifier::reject_recursive_types(A)]
pub struct ExExposedCounter<N, A>(prometheus_client::metrics::counter::Counter<N, A>);

/// The registry that exposes metrics. Nothing inside it is visible to the
/// verifier.
#[verifier::external_type_specification]
#[verifier::external_body]
pub struct ExRegistry(prometheus_client::registry::Registry);

/// A metric as a registry keeps it: its name and its help text.
pub struct Exposure {
    pub name: Seq<char>,
    pub help: Seq<char>,
}

/// The metrics that were registered with a registry itself, in the order in
/// which they were registered.
pub uninterp spec fn registered(prom: Registry) -> Seq<Exposure>;

/// What a registry keeps of a metric that is registered under `name` with
/// the help text `help`.
pub open spec fn exposure(name: Seq<char>, help: Seq<char>) -> Exposure {
    Exposure { name, help: help.push('.') }
}

/// What a registry keeps of a counter of the pipeline.
pub open spec fn counter_exposure(counter: CounterKind, remedy: Remedy) -> Exposure {
    exposure(counter_name(counter, remedy), counter_help(counter, remedy))
}

/// What a registry keeps of the counters of the pipeline, in the order in
/// which they are registered.
pub open spec fn counter_exposures(remedy: Remedy) -> Seq<Exposure> {
    seq![
        counter_exposure(CounterKind::QueueOverflow, remedy),
        counter_exposure(CounterKind::PodsDeleted, remedy),
        counter_exposure(CounterKind::PodsDeleteErrors, remedy),
        counter_exposure(CounterKind::PodsDeleteTimeouts, remedy),
        counter_exposure(CounterKind::EventsPublishErrors, remedy),
        counter_exposure(CounterKind::EventsPublishTimeouts, remedy),
    ]
}

/// `Counter::default` of `prometheus_client`: a new counter of the
/// registry's kind. Nothing is claimed of it.
#[verifier::external_body]
fn new_exposed() -> (exposed: ExposedCounter<u64, AtomicU64>) {
    ExposedCounter::default()
}

/// `Counter::clone`: another handle on the same exposed counter. Nothing
/// is claimed of it.
pub assume_specification<N, A>[ <prometheus_client::metrics::counter::Counter<N, A> as Clone>::clone ](
    exposed: &prometheus_client::metrics::counter::Counter<N, A>,
) -> prometheus_client::metrics::counter::Counter<N, A>
;

/// `Registry::register`: the registry keeps one more metric, behind those
/// it kept, under the name given and with the help text given, to which it
/// adds a full stop. Nothing is claimed of the value that is exposed.
#[verifier::external_body]
fn expose(prom: &mut Registry, name: &str, help: &str, exposed: ExposedCounter<u64, AtomicU64>)
    ensures
        registered(*final(prom)) == registered(*old(prom)).push(exposure(name@, help@)),
{
    prom.register(name, help, exposed)
}

/// `Counter::inc`: the exposed counter moves by one. Its value is shared
/// with every clone, and nothing is claimed of it.
#[verifier::external_body]
fn increment(exposed: &ExposedCounter<u64, AtomicU64>) {
    exposed.inc();
}

/// How often each counter was moved by one holder.
#[derive(Clone, Copy, Debug, PartialEq, Eq, Structural)]
struct Tally {
    queue_overflow: u64,
    pods_deleted: u64,
    pods_delete_errors: u64,
    pods_delete_timeouts: u64,
    events_publish_errors: u64,
    events_publish_timeouts: u64,
}

/// The counters as the registry exposes them.
#[derive(Clone, Debug)]
struct Exposed {
    queue_overflow: ExposedCounter<u64, AtomicU64>,
    pods_deleted: ExposedCounter<u64, AtomicU64>,
    pods_delete_errors: ExposedCounter<u64, AtomicU64>,
    pods_delete_timeouts: ExposedCounter<u64, AtomicU64>,
    events_publish_errors: ExposedCounter<u64, AtomicU64>,
    events_publish_timeouts: ExposedCounter<u64, AtomicU64>,
}

/// The counters of one pipeline. They start at zero and only ever count
/// upwards.
///
/// Each counter is kept twice: as the counter that the registry exposes,
/// which every clone of these metrics moves, and as a plain number, which
/// tells how often this holder has moved it. The contracts speak of the
/// plain numbers.
#[derive(Clone, Debug)]
pub struct Metrics {
    tally: Tally,
    exposed: Exposed,
}

impl Tally {
    /// The value of a counter.
    closed spec fn count(&self, counter: CounterKind) -> u64 {
        match counter {
            CounterKind::QueueOverflow => self.queue_overflow,
            CounterKind::PodsDeleted => self.pods_deleted,
            CounterKind::PodsDeleteErrors => self.pods_delete_errors,
            CounterKind::PodsDeleteTimeouts => self.pods_delete_timeouts,
            CounterKind::EventsPublishErrors => self.events_publish_errors,
            CounterKind::EventsPublishTimeouts => self.events_publish_timeouts,
        }
    }

    /// This tally with one of its counters set to `value`.
    closed spec fn with(&self, counter: CounterKind, value: u64) -> Tally {
        match counter {
            CounterKind::QueueOverflow => Tally { queue_overflow: value, ..*self },
            CounterKind::PodsDeleted => Tally { pods_deleted: value, ..*self },
            CounterKind::PodsDeleteErrors => Tally { pods_delete_errors: value, ..*self },
            CounterKind::PodsDeleteTimeouts => Tally { pods_delete_timeouts: value, ..*self },
            CounterKind::EventsPublishErrors => Tally { events_publish_errors: value, ..*self },
            CounterKind::EventsPublishTimeouts => Tally { events_publish_timeouts: value, ..*self },
        }
    }

    /// Setting a counter changes that counter and no other, and the last
    /// value set is the one that stays.
    proof fn lemma_with(self, counter: CounterKind, value: u64)
        ensures
            self.with(counter, self.count(counter)) == self,
            forall|next: u64| #[trigger]
                self.with(counter, value).with(counter, next) == self.with(counter, next),
            forall|other: CounterKind| #[trigger]
                self.with(counter, value).count(other) == if other == counter {
                    value
                } else {
                    self.count(other)
                },
    {
    }

    fn zero() -> (t: Tally)
        ensures
            forall|counter: CounterKind| t.count(counter) == 0,
    {
        Tally {
            queue_overflow: 0,
            pods_deleted: 0,
            pods_delete_errors: 0,
            pods_delete_timeouts: 0,
            events_publish_errors: 0,
            events_publish_timeouts: 0,
        }
    }

    fn get(&self, counter: CounterKind) -> (n: u64)
        ensures
            n == self.count(counter),
    {
        match counter {
            CounterKind::QueueOverflow => self.queue_overflow,
            CounterKind::PodsDeleted => self.pods_deleted,
            CounterKind::PodsDeleteErrors => self.pods_delete_errors,
            CounterKind::PodsDeleteTimeouts => self.pods_delete_timeouts,
            CounterKind::EventsPublishErrors => self.events_publish_errors,
            CounterKind::EventsPublishTimeouts => self.events_publish_timeouts,
        }
    }

    fn record(&mut self, counter: CounterKind)
        ensures
            *final(self) == old(self).with(counter, bumped(old(self).count(counter))),
    {
        match counter {
            CounterKind::QueueOverflow => {
                self.queue_overflow = self.queue_overflow.wrapping_add(1);
            },
            CounterKind::PodsDeleted => {
                self.pods_deleted = self.pods_deleted.wrapping_add(1);
            },
            CounterKind::PodsDeleteErrors => {
                self.pods_delete_errors = self.pods_delete_errors.wrapping_add(1);
            },
            CounterKind::PodsDeleteTimeouts => {
                self.pods_delete_timeouts = self.pods_delete_timeouts.wrapping_add(1);
            },
            CounterKind::EventsPublishErrors => {
                self.events_publish_errors = self.events_publish_errors.wrapping_add(1);
            },
            CounterKind::EventsPublishTimeouts => {
                self.events_publish_timeouts = self.events_publish_timeouts.wrapping_add(1);
            },
        }
    }
}

impl Exposed {
    /// The exposed counter of a kind.
    closed spec fn slot(&self, counter: CounterKind) -> ExposedCounter<u64, AtomicU64> {
        match counter {
            CounterKind::QueueOverflow => self.queue_overflow,
            CounterKind::PodsDeleted => self.pods_deleted,
            CounterKind::PodsDeleteErrors => self.pods_delete_errors,
            CounterKind::PodsDeleteTimeouts => self.pods_delete_timeouts,
            CounterKind::EventsPublishErrors => self.events_publish_errors,
            CounterKind::EventsPublishTimeouts => self.events_publish_timeouts,
        }
    }

    fn of(&self, counter: CounterKind) -> (exposed: &ExposedCounter<u64, AtomicU64>)
        ensures
            *exposed == self.slot(counter),
    {
        match counter {
            CounterKind::QueueOverflow => &self.queue_overflow,
            CounterKind::PodsDeleted => &self.pods_deleted,
            CounterKind::PodsDeleteErrors => &self.pods_delete_errors,
            CounterKind::PodsDeleteTimeouts => &self.pods_delete_timeouts,
            CounterKind::EventsPublishErrors => &self.events_publish_errors,
            CounterKind::EventsPublishTimeouts => &self.events_publish_timeouts,
        }
    }
}

/// Makes a counter and has the registry expose it under the name and with
/// the help text of its kind.
fn register_counter(prom: &mut Registry, counter: CounterKind, remedy: Remedy) -> (exposed:
    ExposedCounter<u64, AtomicU64>)
    ensures
        registered(*final(prom)) == registered(*old(prom)).push(counter_exposure(counter, remedy)),
{
    let exposed = new_exposed();
    expose(prom, counter.name(remedy), counter.help(remedy), exposed.clone());
    exposed
}

impl Metrics {
    /// How often this holder has moved a counter.
    pub closed spec fn count(&self, counter: CounterKind) -> u64 {
        self.tally.count(counter)
    }

    /// These metrics with one of the counts set to `value`.
    pub closed spec fn with(&self, counter: CounterKind, value: u64) -> Metrics {
        Metrics { tally: self.tally.with(counter, value), exposed: self.exposed }
    }

    /// These metrics after `k` more increments of `counter`.
    pub open spec fn advanced(&self, counter: CounterKind, k: nat) -> Metrics {
        self.with(counter, advanced(self.count(counter), k))
    }

    /// These metrics after one more increment of `counter`.
    pub open spec fn recorded(&self, counter: CounterKind) -> Metrics {
        self.advanced(counter, 1)
    }

    /// Setting a count changes that count and no other, and the last value
    /// set is the one that stays.
    pub proof fn lemma_with(self, counter: CounterKind, value: u64)
        ensures
            self.with(counter, self.count(counter)) == self,
            forall|next: u64| #[trigger]
                self.with(counter, value).with(counter, next) == self.with(counter, next),
            forall|other: CounterKind| #[trigger]
                self.with(counter, value).count(other) == if other == counter {
                    value
                } else {
                    self.count(other)
                },
    {
        self.tally.lemma_with(counter, value);
    }

    /// Counting `k` times moves one count by `k` and leaves the others as
    /// they are, and counting once more after that is counting `k + 1`
    /// times.
    pub proof fn lemma_advanced(self, counter: CounterKind, k: nat)
        ensures
            self.advanced(counter, 0) == self,
            self.advanced(counter, k).recorded(counter) == self.advanced(counter, k + 1),
            forall|other: CounterKind| #[trigger]
                self.advanced(counter, k).count(other) == if other == counter {
                    advanced(self.count(other), k)
                } else {
                    self.count(other)
                },
    {
        let n = self.count(counter);
        let m = advanced(n, k);
        lemma_advanced_step(n, k);
        lemma_advanced_step(m, 0);
        self.lemma_with(counter, n);
        self.lemma_with(counter, m);
        self.with(counter, m).lemma_with(counter, m);
        assert(advanced(m, 1) == advanced(n, k + 1));
        assert(self.with(counter, m).with(counter, advanced(n, k + 1)) == self.with(
            counter,
            advanced(n, k + 1),
        ));
    }

    /// Makes the counters and has the registry expose each of them under
    /// its name, behind what the registry exposed before. Nothing has been
    /// counted yet.
    pub fn register(prom: &mut Registry, remedy: Remedy) -> (m: Metrics)
        ensures
            forall|counter: CounterKind| m.count(counter) == 0,
            registered(*final(prom)) == registered(*old(prom)) + counter_exposures(remedy),
    {
        let queue_overflow = register_counter(prom, CounterKind::QueueOverflow, remedy);
        let pods_deleted = register_counter(prom, CounterKind::PodsDeleted, remedy);
        let pods_delete_errors = register_counter(prom, CounterKind::PodsDeleteErrors, remedy);
        let pods_delete_timeouts = register_counter(prom, CounterKind::PodsDeleteTimeouts, remedy);
        let events_publish_errors = register_counter(prom, CounterKind::EventsPublishErrors, remedy);
        let events_publish_timeouts = register_counter(
            prom,
            CounterKind::EventsPublishTimeouts,
            remedy,
        );
        Metrics {
            tally: Tally::zero(),
            exposed: Exposed {
                queue_overflow,
                pods_deleted,
                pods_delete_errors,
                pods_delete_timeouts,
                events_publish_errors,
                events_publish_timeouts,
            },
        }
    }

    /// Tells how often this holder has moved a counter.
    pub fn get(&self, counter: CounterKind) -> (n: u64)
        ensures
            n == self.count(counter),
    {
        self.tally.get(counter)
    }

    /// Increments a counter by one, here and in the registry.
    pub fn record(&mut self, counter: CounterKind)
        ensures
            *final(self) == old(self).recorded(counter),
            forall|other: CounterKind| #[trigger]
                final(self).count(other) == if other == counter {
                    bumped(old(self).count(other))
                } else {
                    old(self).count(other)
                },
    {
        proof {
            lemma_advanced_step(self.count(counter), 0);
            self.lemma_with(counter, bumped(self.count(counter)));
        }
        self.tally.record(counter);
        increment(self.exposed.of(counter));
    }
}

} // verus!
