//! The bounded queue between the event filter and the remediation worker:
//! a `tokio` channel, offered to without waiting.

use crate::pod::{RemediationTarget, TargetView};
use tokio::sync::mpsc::error::TrySendError;
use tokio::sync::mpsc::{Receiver, Sender};
use vstd::prelude::*;

verus! {

/// The sending half of a `tokio` channel. Nothing inside it is visible to
/// the verifier.
#[verifier::external_type_specification]
#[verifier::external_body]
#[verifier::reject_recursive_types(T)]
pub struct ExSender<T>(tokio::sync::mpsc::Sender<T>);

/// The receiving half of a `tokio` channel. Nothing inside it is visible
/// to the verifier.
#[verifier::external_type_specification]
#[verifier::external_body]
#[verifier::reject_recursive_types(T)]
pub struct ExReceiver<T>(tokio::sync::mpsc::Receiver<T>);

/// The messages that a channel buffers for its receiver, oldest first.
pub uninterp spec fn channel_backlog(rx: Receiver<RemediationTarget>) -> Seq<TargetView>;

/// The number of messages that a channel was made to buffer at most.
pub uninterp spec fn channel_bound(tx: Sender<RemediationTarget>) -> nat;

/// Reference capacity of the queue. A pod whose event is dropped because
/// the queue is full is observed again at its next restart.
pub const EVENT_CHANNEL_CAPACITY: usize = 32;

/// The largest capacity that a channel accepts on every platform.
pub const MAX_CAPACITY: usize = 0x1fff_ffff;

/// What became of a target that was offered to the queue.
#[derive(Clone, Copy, Debug, PartialEq, Eq, Structural)]
pub enum Offer {
    /// The queue took the target.
    Accepted,
    /// The queue held as many targets as it can; the target was dropped.
    Full,
    /// The receiving side is gone; the target was dropped.
    Closed,
}

/// A bounded first-in, first-out queue of remediation targets.
///
/// The queue starts with both halves of its channel. While it holds both,
/// nothing else can reach the channel, and what it buffers is known. Once
/// the receiving half has been detached for a consumer of its own, only
/// the three possible answers to an offer are known.
pub struct Queue {
    tx: Sender<RemediationTarget>,
    rx: Option<Receiver<RemediationTarget>>,
}

/// What a queue that holds `items` and has room for `capacity` answers to
/// an offer, while its receiving half is attached.
pub open spec fn offer_answer(items: Seq<TargetView>, capacity: nat) -> Offer {
    if items.len() < capacity {
        Offer::Accepted
    } else {
        Offer::Full
    }
}

/// What a queue that held `items` holds after `item` was offered and
/// `answer` came back.
pub open spec fn after_offer(items: Seq<TargetView>, item: TargetView, answer: Offer) -> Seq<
    TargetView,
> {
    if answer == Offer::Accepted {
        items.push(item)
    } else {
        items
    }
}

/// What a queue that held `items` holds after its oldest target, if it had
/// one, was taken out.
pub open spec fn after_take(items: Seq<TargetView>) -> Seq<TargetView> {
    if items.len() > 0 {
        items.drop_first()
    } else {
        items
    }
}

/// `tokio::sync::mpsc::channel`: a new channel buffers nothing and is bound
/// by the capacity it was asked for. The call panics on a capacity of zero
/// and on one above the semaphore's limit; `requires` leaves both out.
#[verifier::external_body]
fn channel(capacity: usize) -> (q: Queue)
    requires
        0 < capacity <= MAX_CAPACITY,
    ensures
        q.rx is Some,
        channel_bound(q.tx) == capacity,
        channel_backlog(q.rx->0) == Seq::<TargetView>::empty(),
{
    let (tx, rx) = tokio::sync::mpsc::channel(capacity);
    Queue { tx, rx: Some(rx) }
}

/// `Sender::try_send`: never waits, and answers in one of three ways. While
/// the queue holds the receiving half, the channel is not closed, the
/// answer is `Full` exactly when the backlog has reached the bound, and an
/// accepted message is buffered behind the others. With the receiving half
/// elsewhere nothing is claimed of the answer.
#[verifier::external_body]
fn channel_try_send(q: &mut Queue, item: RemediationTarget) -> (answer: Offer)
    ensures
        channel_bound(final(q).tx) == channel_bound(old(q).tx),
        final(q).rx is Some <==> old(q).rx is Some,
        old(q).rx is Some ==> answer == offer_answer(
            channel_backlog(old(q).rx->0),
            channel_bound(old(q).tx),
        ),
        old(q).rx is Some ==> channel_backlog(final(q).rx->0) == after_offer(
            channel_backlog(old(q).rx->0),
            item@,
            answer,
        ),
{
    match q.tx.try_send(item) {
        Ok(()) => Offer::Accepted,
        Err(TrySendError::Full(_)) => Offer::Full,
        Err(TrySendError::Closed(_)) => Offer::Closed,
    }
}

/// `Receiver::try_recv`: never waits. It hands out the oldest buffered
/// message and removes it from the backlog, or nothing when the backlog is
/// empty.
#[verifier::external_body]
fn channel_try_recv(q: &mut Queue) -> (r: Option<RemediationTarget>)
    requires
        old(q).rx is Some,
    ensures
        channel_bound(final(q).tx) == channel_bound(old(q).tx),
        final(q).rx is Some,
        r is Some <==> channel_backlog(old(q).rx->0).len() > 0,
        r is Some ==> r->0@ == channel_backlog(old(q).rx->0)[0],
        channel_backlog(final(q).rx->0) == after_take(channel_backlog(old(q).rx->0)),
{
    match q.rx.as_mut() {
        Some(rx) => rx.try_recv().ok(),
        None => None,
    }
}

impl Queue {
    /// Whether the queue still holds its receiving half.
    pub closed spec fn attached(&self) -> bool {
        self.rx is Some
    }

    /// The number of targets that the queue holds at most.
    pub closed spec fn capacity(&self) -> nat {
        channel_bound(self.tx)
    }

    /// The targets that the queue holds, oldest first. Of a queue whose
    /// receiving half is detached nothing is known, and this is empty.
    pub closed spec fn items(&self) -> Seq<TargetView> {
        match self.rx {
            Some(rx) => channel_backlog(rx),
            None => Seq::empty(),
        }
    }

    /// The queue has room for at least one target and never holds more
    /// than its capacity.
    pub open spec fn wf(&self) -> bool {
        &&& 0 < self.capacity()
        &&& self.items().len() <= self.capacity()
    }

    /// Makes an empty queue for at most `capacity` targets.
    pub fn new(capacity: usize) -> (q: Queue)
        requires
            0 < capacity <= MAX_CAPACITY,
        ensures
            q.wf(),
            q.attached(),
            q.capacity() == capacity,
            q.items() == Seq::<TargetView>::empty(),
    {
        channel(capacity)
    }

    /// Offers a target without waiting. A full queue drops it.
    pub fn offer(&mut self, item: RemediationTarget) -> (answer: Offer)
        requires
            old(self).wf(),
        ensures
            final(self).wf(),
            final(self).capacity() == old(self).capacity(),
            final(self).attached() == old(self).attached(),
            old(self).attached() ==> answer == offer_answer(old(self).items(), old(self).capacity()),
            old(self).attached() ==> final(self).items() == after_offer(
                old(self).items(),
                item@,
                answer,
            ),
            !old(self).attached() ==> final(self).items() == old(self).items(),
    {
        channel_try_send(self, item)
    }

    /// Takes the oldest target out of the queue, if it holds one. A queue
    /// whose receiving half is detached hands out nothing.
    pub fn take(&mut self) -> (r: Option<RemediationTarget>)
        requires
            old(self).wf(),
        ensures
            final(self).wf(),
            final(self).capacity() == old(self).capacity(),
            final(self).attached() == old(self).attached(),
            r is Some <==> old(self).items().len() > 0,
            r is Some ==> r->0@ == old(self).items()[0],
            final(self).items() == after_take(old(self).items()),
    {
        if self.rx.is_some() {
            channel_try_recv(self)
        } else {
            None
        }
    }

    /// Hands the receiving half to a consumer of its own. From then on the
    /// queue only offers.
    pub fn detach(&mut self) -> (rx: Option<Receiver<RemediationTarget>>)
        requires
            old(self).wf(),
        ensures
            final(self).wf(),
            final(self).capacity() == old(self).capacity(),
            !final(self).attached(),
            rx is Some <==> old(self).attached(),
    {
        self.rx.take()
    }
}

/// One use of a queue.
pub enum Op {
    /// A target is offered.
    Offer(TargetView),
    /// The oldest target is taken out, if there is one.
    Take,
}

/// What a run of offers and takes has come to.
pub struct Trace {
    /// The targets that the queue holds, oldest first.
    pub items: Seq<TargetView>,
    /// The targets that the queue took, in the order offered.
    pub accepted: Seq<TargetView>,
    /// The targets that were taken out, in the order taken.
    pub taken: Seq<TargetView>,
    /// How many targets were dropped.
    pub dropped: nat,
}

/// The effect of one use on a queue of the given capacity.
pub open spec fn step(t: Trace, op: Op, capacity: nat) -> Trace {
    match op {
        Op::Offer(item) => {
            let answer = offer_answer(t.items, capacity);
            Trace {
                items: after_offer(t.items, item, answer),
                accepted: after_offer(t.accepted, item, answer),
                taken: t.taken,
                dropped: if answer == Offer::Accepted {
                    t.dropped
                } else {
                    t.dropped + 1
                },
            }
        },
        Op::Take => Trace {
            items: after_take(t.items),
            accepted: t.accepted,
            taken: if t.items.len() > 0 {
                t.taken.push(t.items[0])
            } else {
                t.taken
            },
            dropped: t.dropped,
        },
    }
}

/// The effect of a run of uses on an empty queue.
pub open spec fn run(ops: Seq<Op>, capacity: nat) -> Trace
    decreases ops.len(),
{
    if ops.len() == 0 {
        Trace { items: Seq::empty(), accepted: Seq::empty(), taken: Seq::empty(), dropped: 0 }
    } else {
        step(run(ops.drop_last(), capacity), ops.last(), capacity)
    }
}

/// How many of the uses are offers.
pub open spec fn offers(ops: Seq<Op>) -> nat
    decreases ops.len(),
{
    if ops.len() == 0 {
        0
    } else if ops.last() is Offer {
        offers(ops.drop_last()) + 1
    } else {
        offers(ops.drop_last())
    }
}

/// First in, first out: however offers and takes alternate, what has been
/// taken out, followed by what the queue still holds, is what the queue
/// accepted, in the order in which it was offered. The queue never holds
/// more than its capacity, and every offer is either accepted or counted
/// as dropped.
pub proof fn lemma_first_in_first_out(ops: Seq<Op>, capacity: nat)
    ensures
        run(ops, capacity).accepted == run(ops, capacity).taken + run(ops, capacity).items,
        run(ops, capacity).items.len() <= capacity,
        run(ops, capacity).accepted.len() + run(ops, capacity).dropped == offers(ops),
    decreases ops.len(),
{
    if ops.len() > 0 {
        lemma_first_in_first_out(ops.drop_last(), capacity);
        let before = run(ops.drop_last(), capacity);
        let after = run(ops, capacity);
        assert(after.accepted =~= after.taken + after.items);
    } else {
        assert(run(ops, capacity).accepted =~= run(ops, capacity).taken + run(ops, capacity).items);
    }
}

} // verus!
