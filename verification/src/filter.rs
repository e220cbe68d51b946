//! The event filter and enqueuer: what is decided of each observed pod,
//! and what the decision does to the queue and to the overflow counter.

use crate::metrics::{CounterKind, Metrics};
use crate::pod::{
    already_remediating, failure_signature, target_of, PodObservation, Remedy, TargetView,
};
use crate::queue::{after_offer, offer_answer, Offer, Queue};
use vstd::prelude::*;

verus! {

/// What the filter finds of one observation.
#[derive(Clone, Copy, Debug, PartialEq, Eq, Structural)]
pub enum Verdict {
    /// The pod has no status block yet.
    NoStatus,
    /// The pod does not bear the failure signature.
    Healthy,
    /// The pod bears the failure signature and is being removed already.
    InProgress,
    /// The pod bears the failure signature and is to be removed.
    Remediate,
}

/// What became of one observation.
#[derive(Clone, Copy, Debug, PartialEq, Eq, Structural)]
pub enum Handled {
    /// Skipped: the pod has no status block.
    NoStatus,
    /// Passed over: the pod does not bear the failure signature.
    Healthy,
    /// Passed over: the pod is being removed already.
    InProgress,
    /// The pod's reference was offered, and the queue took it.
    Enqueued,
    /// The pod's reference was offered to a full queue, dropped and counted.
    Dropped,
    /// The pod's reference was offered to a queue whose consumer is gone.
    /// The filter has to stop.
    Closed,
}

/// The verdict on an observation.
pub open spec fn verdict(obs: PodObservation, remedy: Remedy) -> Verdict {
    if obs.status is None {
        Verdict::NoStatus
    } else if !failure_signature(obs.status->0) {
        Verdict::Healthy
    } else if already_remediating(obs, remedy) {
        Verdict::InProgress
    } else {
        Verdict::Remediate
    }
}

/// What becomes of an observation that is not offered to the queue.
pub open spec fn passed_over(v: Verdict) -> Handled {
    match v {
        Verdict::NoStatus => Handled::NoStatus,
        Verdict::Healthy => Handled::Healthy,
        _ => Handled::InProgress,
    }
}

/// What becomes of an observation whose reference was offered, by the
/// queue's answer.
pub open spec fn settled(answer: Offer) -> Handled {
    match answer {
        Offer::Accepted => Handled::Enqueued,
        Offer::Full => Handled::Dropped,
        Offer::Closed => Handled::Closed,
    }
}

/// The counters after an observation was handled: a dropped reference is
/// counted, and nothing else is.
pub open spec fn counted(metrics: Metrics, handled: Handled) -> Metrics {
    if handled == Handled::Dropped {
        metrics.recorded(CounterKind::QueueOverflow)
    } else {
        metrics
    }
}

/// What the filter has done to a queue that nothing takes from: the
/// references that the queue holds, and how many were dropped.
pub struct Filtered {
    pub items: Seq<TargetView>,
    pub dropped: nat,
}

/// A queue that holds `items`, before anything was dropped.
pub open spec fn holding(items: Seq<TargetView>) -> Filtered {
    Filtered { items, dropped: 0 }
}

/// The effect of one observation on a queue of the given capacity.
pub open spec fn filter_one(
    before: Filtered,
    obs: PodObservation,
    remedy: Remedy,
    capacity: nat,
) -> Filtered {
    if verdict(obs, remedy) == Verdict::Remediate {
        let answer = offer_answer(before.items, capacity);
        Filtered {
            items: after_offer(before.items, target_of(obs), answer),
            dropped: if answer == Offer::Full {
                before.dropped + 1
            } else {
                before.dropped
            },
        }
    } else {
        before
    }
}

/// The effect of a sequence of observations, handled in order.
pub open spec fn filter_all(
    before: Filtered,
    observations: Seq<PodObservation>,
    remedy: Remedy,
    capacity: nat,
) -> Filtered
    decreases observations.len(),
{
    if observations.len() == 0 {
        before
    } else {
        filter_one(
            filter_all(before, observations.drop_last(), remedy, capacity),
            observations.last(),
            remedy,
            capacity,
        )
    }
}

/// What becomes of an observation at a queue that nothing takes from.
pub open spec fn handled(
    items: Seq<TargetView>,
    obs: PodObservation,
    remedy: Remedy,
    capacity: nat,
) -> Handled {
    if verdict(obs, remedy) == Verdict::Remediate {
        settled(offer_answer(items, capacity))
    } else {
        passed_over(verdict(obs, remedy))
    }
}

/// Whether `handled` can be what becomes of an observation: one that does
/// not call for remediation is passed over, and one that does is offered
/// and meets one of the three answers of the queue.
pub open spec fn well_handled(obs: PodObservation, remedy: Remedy, handled: Handled) -> bool {
    if verdict(obs, remedy) == Verdict::Remediate {
        handled == Handled::Enqueued || handled == Handled::Dropped || handled == Handled::Closed
    } else {
        handled == passed_over(verdict(obs, remedy))
    }
}

/// How many observations ended with a dropped reference.
pub open spec fn dropped_among(handled: Seq<Handled>) -> nat
    decreases handled.len(),
{
    if handled.len() == 0 {
        0
    } else if handled.last() == Handled::Dropped {
        dropped_among(handled.drop_last()) + 1
    } else {
        dropped_among(handled.drop_last())
    }
}

/// Computes the verdict on an observation.
pub fn classify(obs: &PodObservation, remedy: Remedy) -> (v: Verdict)
    ensures
        v == verdict(*obs, remedy),
{
    match &obs.status {
        None => Verdict::NoStatus,
        Some(status) => {
            if !status.failure_signature() {
                Verdict::Healthy
            } else if obs.already_remediating(remedy) {
                Verdict::InProgress
            } else {
                Verdict::Remediate
            }
        },
    }
}

/// Accounts for the queue's answer to an offer: a dropped reference counts
/// as an overflow.
pub fn settle(answer: Offer, metrics: &mut Metrics) -> (h: Handled)
    ensures
        h == settled(answer),
        *final(metrics) == counted(*old(metrics), h),
{
    match answer {
        Offer::Accepted => Handled::Enqueued,
        Offer::Full => {
            metrics.record(CounterKind::QueueOverflow);
            Handled::Dropped
        },
        Offer::Closed => Handled::Closed,
    }
}

/// Handles one observation: the reference of a pod that bears the failure
/// signature and is not being removed yet is offered to the queue, once and
/// without waiting. Any other observation touches nothing.
pub fn process_event(
    obs: &PodObservation,
    remedy: Remedy,
    queue: &mut Queue,
    metrics: &mut Metrics,
) -> (h: Handled)
    requires
        old(queue).wf(),
    ensures
        final(queue).wf(),
        final(queue).capacity() == old(queue).capacity(),
        final(queue).attached() == old(queue).attached(),
        *final(metrics) == counted(*old(metrics), h),
        well_handled(*obs, remedy, h),
        verdict(*obs, remedy) != Verdict::Remediate ==> final(queue).items() == old(queue).items(),
        old(queue).attached() ==> h == handled(
            old(queue).items(),
            *obs,
            remedy,
            old(queue).capacity(),
        ),
        old(queue).attached() ==> final(queue).items() == filter_one(
            holding(old(queue).items()),
            *obs,
            remedy,
            old(queue).capacity(),
        ).items,
{
    match classify(obs, remedy) {
        Verdict::NoStatus => Handled::NoStatus,
        Verdict::Healthy => Handled::Healthy,
        Verdict::InProgress => Handled::InProgress,
        Verdict::Remediate => {
            let answer = queue.offer(obs.target());
            settle(answer, metrics)
        },
    }
}

/// Handles a sequence of observations in order, until all are handled or
/// the queue is found closed. Returns what became of each observation
/// that was handled; where the queue was found closed, that is the last
/// of them.
pub fn process_events(
    observations: &Vec<PodObservation>,
    remedy: Remedy,
    queue: &mut Queue,
    metrics: &mut Metrics,
) -> (log: Vec<Handled>)
    requires
        old(queue).wf(),
    ensures
        final(queue).wf(),
        final(queue).capacity() == old(queue).capacity(),
        final(queue).attached() == old(queue).attached(),
        log@.len() <= observations@.len(),
        forall|k: int|
            0 <= k < log@.len() ==> well_handled(
                #[trigger] observations@[k],
                remedy,
                log@[k],
            ),
        forall|k: int| 0 <= k < log@.len() - 1 ==> #[trigger] log@[k] != Handled::Closed,
        log@.len() < observations@.len() ==> log@.len() > 0 && log@.last()
            == Handled::Closed,
        *final(metrics) == old(metrics).advanced(
            CounterKind::QueueOverflow,
            dropped_among(log@),
        ),
        old(queue).attached() ==> log@.len() == observations@.len(),
        old(queue).attached() ==> forall|k: int|
            0 <= k < log@.len() ==> #[trigger] log@[k] == handled(
                filter_all(
                    holding(old(queue).items()),
                    observations@.take(k),
                    remedy,
                    old(queue).capacity(),
                ).items,
                observations@[k],
                remedy,
                old(queue).capacity(),
            ),
        old(queue).attached() ==> final(queue).items() == filter_all(
            holding(old(queue).items()),
            observations@,
            remedy,
            old(queue).capacity(),
        ).items,
        old(queue).attached() ==> dropped_among(log@) == filter_all(
            holding(old(queue).items()),
            observations@,
            remedy,
            old(queue).capacity(),
        ).dropped,
{
    let ghost start = holding(queue.items());
    let ghost capacity = queue.capacity();
    let ghost attached = queue.attached();
    let ghost counters = *metrics;
    proof {
        counters.lemma_advanced(CounterKind::QueueOverflow, 0);
    }
    let mut out: Vec<Handled> = Vec::new();
    let mut i: usize = 0;
    while i < observations.len()
        invariant
            i <= observations@.len(),
            out@.len() == i,
            queue.wf(),
            queue.capacity() == capacity,
            queue.attached() == attached,
            start == holding(old(queue).items()),
            capacity == old(queue).capacity(),
            attached == old(queue).attached(),
            counters == *old(metrics),
            forall|k: int|
                0 <= k < i ==> well_handled(#[trigger] observations@[k], remedy, out@[k]),
            forall|k: int| 0 <= k < i ==> #[trigger] out@[k] != Handled::Closed,
            *metrics == counters.advanced(CounterKind::QueueOverflow, dropped_among(out@)),
            attached ==> forall|k: int|
                0 <= k < i ==> #[trigger] out@[k] == handled(
                    filter_all(start, observations@.take(k), remedy, capacity).items,
                    observations@[k],
                    remedy,
                    capacity,
                ),
            attached ==> queue.items() == filter_all(
                start,
                observations@.take(i as int),
                remedy,
                capacity,
            ).items,
            attached ==> dropped_among(out@) == filter_all(
                start,
                observations@.take(i as int),
                remedy,
                capacity,
            ).dropped,
        decreases observations@.len() - i,
    {
        let ghost earlier = out@;
        let h = process_event(&observations[i], remedy, queue, metrics);
        out.push(h);
        proof {
            let seen = observations@.take(i + 1);
            assert(seen.drop_last() == observations@.take(i as int));
            assert(seen.last() == observations@[i as int]);
            assert(out@.drop_last() == earlier);
            assert(out@.last() == h);
            counters.lemma_advanced(CounterKind::QueueOverflow, dropped_among(earlier));
        }
        if h == Handled::Closed {
            return out;
        }
        i += 1;
    }
    proof {
        assert(observations@.take(i as int) == observations@);
    }
    out
}

/// An observation without a status block changes neither the queue nor
/// the count of dropped references.
pub proof fn lemma_no_status_is_skipped(
    before: Filtered,
    obs: PodObservation,
    remedy: Remedy,
    capacity: nat,
)
    requires
        obs.status is None,
    ensures
        verdict(obs, remedy) == Verdict::NoStatus,
        filter_one(before, obs, remedy, capacity) == before,
        handled(before.items, obs, remedy, capacity) == Handled::NoStatus,
{
}

/// A pod that does not bear the failure signature is not enqueued.
pub proof fn lemma_healthy_is_not_enqueued(
    before: Filtered,
    obs: PodObservation,
    remedy: Remedy,
    capacity: nat,
)
    requires
        obs.status is Some,
        !failure_signature(obs.status->0),
    ensures
        verdict(obs, remedy) == Verdict::Healthy,
        filter_one(before, obs, remedy, capacity) == before,
        handled(before.items, obs, remedy, capacity) == Handled::Healthy,
{
}

/// A pod that bears the failure signature and is not being removed yet is
/// offered exactly once: either the queue holds its reference behind those
/// it held before, or one more reference has been dropped, and never both.
pub proof fn lemma_failing_is_offered_once(
    before: Filtered,
    obs: PodObservation,
    remedy: Remedy,
    capacity: nat,
)
    requires
        obs.status is Some,
        failure_signature(obs.status->0),
        !already_remediating(obs, remedy),
    ensures
        verdict(obs, remedy) == Verdict::Remediate,
        before.items.len() < capacity ==> filter_one(before, obs, remedy, capacity) == (Filtered {
            items: before.items.push(target_of(obs)),
            dropped: before.dropped,
        }) && handled(before.items, obs, remedy, capacity) == Handled::Enqueued,
        before.items.len() >= capacity ==> filter_one(before, obs, remedy, capacity) == (Filtered {
            items: before.items,
            dropped: before.dropped + 1,
        }) && handled(before.items, obs, remedy, capacity) == Handled::Dropped,
{
}

/// A pod that bears the failure signature but is being removed already is
/// not enqueued.
pub proof fn lemma_in_progress_is_not_enqueued(
    before: Filtered,
    obs: PodObservation,
    remedy: Remedy,
    capacity: nat,
)
    requires
        obs.status is Some,
        failure_signature(obs.status->0),
        already_remediating(obs, remedy),
    ensures
        verdict(obs, remedy) == Verdict::InProgress,
        filter_one(before, obs, remedy, capacity) == before,
        handled(before.items, obs, remedy, capacity) == Handled::InProgress,
{
}

/// The references of the first `n` observations.
pub open spec fn targets(observations: Seq<PodObservation>, n: int) -> Seq<TargetView> {
    Seq::new(n as nat, |i: int| target_of(observations[i]))
}

/// Overflow: where every one of the observations calls for remediation and
/// nothing takes from the queue, an empty queue accepts as many as it has
/// room for, in the order observed, and every further one is dropped and
/// counted. The queue never holds more than its capacity.
pub proof fn lemma_overflow(observations: Seq<PodObservation>, remedy: Remedy, capacity: nat)
    requires
        forall|i: int|
            0 <= i < observations.len() ==> #[trigger] verdict(observations[i], remedy)
                == Verdict::Remediate,
    ensures
        ({
            let after = filter_all(holding(Seq::empty()), observations, remedy, capacity);
            if observations.len() <= capacity {
                after.items == targets(observations, observations.len() as int) && after.dropped
                    == 0
            } else {
                after.items == targets(observations, capacity as int) && after.dropped
                    == observations.len() - capacity
            }
        }),
    decreases observations.len(),
{
    let start = holding(Seq::empty());
    if observations.len() > 0 {
        let earlier = observations.drop_last();
        lemma_overflow(earlier, remedy, capacity);
        let before = filter_all(start, earlier, remedy, capacity);
        let after = filter_all(start, observations, remedy, capacity);
        assert(verdict(observations.last(), remedy) == Verdict::Remediate);
        if observations.len() <= capacity {
            assert(before.items == targets(earlier, earlier.len() as int));
            assert(after.items =~= targets(observations, observations.len() as int));
        } else if earlier.len() <= capacity {
            assert(before.items == targets(earlier, earlier.len() as int));
            assert(after.items =~= targets(observations, capacity as int));
        } else {
            assert(before.items == targets(earlier, capacity as int));
            assert(after.items =~= targets(observations, capacity as int));
        }
    } else {
        assert(start.items =~= targets(observations, 0));
    }
}

/// Whatever is observed, a queue that held no more than its capacity
/// holds no more than its capacity afterwards, and what it held before
/// stays at its head, in the same order.
pub proof fn lemma_filter_keeps_bound(
    before: Filtered,
    observations: Seq<PodObservation>,
    remedy: Remedy,
    capacity: nat,
)
    requires
        before.items.len() <= capacity,
    ensures
        ({
            let after = filter_all(before, observations, remedy, capacity);
            &&& after.items.len() <= capacity
            &&& before.items.len() <= after.items.len()
            &&& after.items.take(before.items.len() as int) == before.items
            &&& before.dropped <= after.dropped
            &&& after.items.len() - before.items.len() + after.dropped - before.dropped
                <= observations.len()
        }),
    decreases observations.len(),
{
    if observations.len() > 0 {
        lemma_filter_keeps_bound(before, observations.drop_last(), remedy, capacity);
        let mid = filter_all(before, observations.drop_last(), remedy, capacity);
        let after = filter_all(before, observations, remedy, capacity);
        assert(after.items.take(before.items.len() as int) =~= mid.items.take(
            before.items.len() as int,
        ));
    } else {
        assert(before.items.take(before.items.len() as int) =~= before.items);
    }
}

} // verus!
