//! The remediation worker: the single consumer of the queue. It removes one
//! pod at a time and then publishes an event about it. The calls
//! themselves are made by the caller; the worker decides what is called
//! next and keeps the counters.

use crate::metrics::{CounterKind, Latency, Metrics};
use crate::pod::{text, RemediationTarget, Remedy, TargetView};
use vstd::prelude::*;

verus! {

/// Time that a removal and the publication of an event are each given, in
/// milliseconds.
pub const CALL_TIMEOUT_MILLIS: u64 = 1000;

/// Reason that every published event carries.
pub const EVENT_REASON: &'static str = "LinkerdCNINotConfigured";

/// How a call that was raced against its timeout ended.
#[derive(Clone, Copy, Debug, PartialEq, Eq, Structural)]
pub enum CallResult {
    /// The call returned without error, after the given time.
    Done { elapsed_nanos: u64 },
    /// The call returned an error.
    Failed,
    /// The timeout came first.
    TimedOut,
}

/// The type of an event.
#[derive(Clone, Copy, Debug, PartialEq, Eq, Structural)]
pub enum EventType {
    /// An event that reports on the ordinary course of things.
    Normal,
    /// An event that warns.
    Warning,
}

/// A latency that is to be recorded.
#[derive(Clone, Copy, Debug, PartialEq, Eq, Structural)]
pub struct Observation {
    pub latency: Latency,
    pub elapsed_nanos: u64,
}

/// The call that removes a pod.
#[derive(Clone, Debug, PartialEq, Eq)]
pub struct Removal {
    pub namespace: String,
    pub name: String,
    pub remedy: Remedy,
    /// Grace period that a deletion asks for. An eviction asks for none.
    pub grace_period_seconds: Option<u32>,
    pub timeout_millis: u64,
}

/// The event that is published about a removed pod.
#[derive(Clone, Debug, PartialEq, Eq)]
pub struct EventRecord {
    pub type_: EventType,
    pub action: &'static str,
    pub reason: &'static str,
    pub note: &'static str,
    /// Name of the controller that reports.
    pub controller: &'static str,
    /// Name of the pod in which the controller runs.
    pub instance: String,
    /// The pod that the event is about.
    pub regarding: RemediationTarget,
    pub timeout_millis: u64,
}

/// What the worker waits for.
#[derive(Clone, Debug, PartialEq, Eq)]
pub enum WorkerState {
    /// The next target from the queue.
    Receiving,
    /// The end of the removal of the target.
    Removing(RemediationTarget),
    /// The end of the publication of the event about the target.
    Publishing(RemediationTarget),
    /// Nothing: the queue is closed and drained.
    Stopped,
}

/// What happened outside the worker.
#[derive(Clone, Debug, PartialEq, Eq)]
pub enum WorkerEvent {
    /// The queue handed out a target.
    Dequeued(RemediationTarget),
    /// The queue is closed and holds nothing more.
    QueueClosed,
    /// The removal ended.
    Removed(CallResult),
    /// The publication ended.
    Published(CallResult),
}

/// What the caller is to do next.
#[derive(Clone, Debug, PartialEq, Eq)]
pub enum WorkerAction {
    /// Wait for the next target from the queue.
    Receive,
    /// Remove a pod, within the timeout.
    Remove(Removal),
    /// Publish an event, within the timeout.
    Publish(EventRecord),
    /// Stop.
    Stop,
}

/// The worker's answer to an event.
#[derive(Clone, Debug, PartialEq, Eq)]
pub struct Reaction {
    pub action: WorkerAction,
    /// The latency to record, where the call that ended succeeded.
    pub observed: Option<Observation>,
}

/// The remediation worker.
pub struct Worker {
    remedy: Remedy,
    instance: String,
    state: WorkerState,
}

/// The mathematical value of a [`Removal`].
pub struct RemovalView {
    pub namespace: Seq<char>,
    pub name: Seq<char>,
    pub remedy: Remedy,
    pub grace_period_seconds: Option<u32>,
    pub timeout_millis: u64,
}

/// The mathematical value of an [`EventRecord`].
pub struct EventRecordView {
    pub type_: EventType,
    pub action: Seq<char>,
    pub reason: Seq<char>,
    pub note: Seq<char>,
    pub controller: Seq<char>,
    pub instance: Seq<char>,
    pub regarding: TargetView,
    pub timeout_millis: u64,
}

/// The mathematical value of a [`WorkerState`].
pub enum StateView {
    Receiving,
    Removing(TargetView),
    Publishing(TargetView),
    Stopped,
}

/// The mathematical value of a [`WorkerEvent`].
pub enum EventView {
    Dequeued(TargetView),
    QueueClosed,
    Removed(CallResult),
    Published(CallResult),
}

/// The mathematical value of a [`WorkerAction`].
pub enum ActionView {
    Receive,
    Remove(RemovalView),
    Publish(EventRecordView),
    Stop,
}

/// The mathematical value of a [`Worker`].
pub struct WorkerView {
    pub remedy: Remedy,
    pub instance: Seq<char>,
    pub state: StateView,
}

/// The worker's answer to an event, all of it: the state it goes to, what
/// is to be done next, the latency to record, and the counters.
pub struct Step {
    pub state: StateView,
    pub action: ActionView,
    pub observed: Option<Observation>,
    pub metrics: Metrics,
}

impl View for Removal {
    type V = RemovalView;

    open spec fn view(&self) -> RemovalView {
        RemovalView {
            namespace: self.namespace@,
            name: self.name@,
            remedy: self.remedy,
            grace_period_seconds: self.grace_period_seconds,
            timeout_millis: self.timeout_millis,
        }
    }
}

impl View for EventRecord {
    type V = EventRecordView;

    open spec fn view(&self) -> EventRecordView {
        EventRecordView {
            type_: self.type_,
            action: self.action@,
            reason: self.reason@,
            note: self.note@,
            controller: self.controller@,
            instance: self.instance@,
            regarding: self.regarding@,
            timeout_millis: self.timeout_millis,
        }
    }
}

impl View for WorkerState {
    type V = StateView;

    open spec fn view(&self) -> StateView {
        match self {
            WorkerState::Receiving => StateView::Receiving,
            WorkerState::Removing(target) => StateView::Removing(target@),
            WorkerState::Publishing(target) => StateView::Publishing(target@),
            WorkerState::Stopped => StateView::Stopped,
        }
    }
}

impl View for WorkerEvent {
    type V = EventView;

    open spec fn view(&self) -> EventView {
        match self {
            WorkerEvent::Dequeued(target) => EventView::Dequeued(target@),
            WorkerEvent::QueueClosed => EventView::QueueClosed,
            WorkerEvent::Removed(result) => EventView::Removed(*result),
            WorkerEvent::Published(result) => EventView::Published(*result),
        }
    }
}

impl View for WorkerAction {
    type V = ActionView;

    open spec fn view(&self) -> ActionView {
        match self {
            WorkerAction::Receive => ActionView::Receive,
            WorkerAction::Remove(removal) => ActionView::Remove(removal@),
            WorkerAction::Publish(event) => ActionView::Publish(event@),
            WorkerAction::Stop => ActionView::Stop,
        }
    }
}

impl View for Worker {
    type V = WorkerView;

    closed spec fn view(&self) -> WorkerView {
        WorkerView { remedy: self.remedy, instance: self.instance@, state: self.state@ }
    }
}

/// A text, or the empty text where there is none.
pub open spec fn or_empty(s: Option<Seq<char>>) -> Seq<char> {
    match s {
        Some(s) => s,
        None => Seq::empty(),
    }
}

/// The label of what is done to the pod.
pub open spec fn event_action(remedy: Remedy) -> Seq<char> {
    match remedy {
        Remedy::Delete => "Deleting"@,
        Remedy::Evict => "Evicting"@,
    }
}

/// The explanation that an event carries.
pub open spec fn event_note(remedy: Remedy) -> Seq<char> {
    match remedy {
        Remedy::Delete => "Deleting pod to create a new one with proper CNI config"@,
        Remedy::Evict => "Evicting pod to create a new one with proper CNI config"@,
    }
}

/// The name under which the controller reports.
pub open spec fn controller_name(remedy: Remedy) -> Seq<char> {
    match remedy {
        Remedy::Delete => "linkerd-cni-repair-controller"@,
        Remedy::Evict => "linkerd-reinitialize-pods"@,
    }
}

/// The call that removes a target. A deletion grants no grace period.
pub open spec fn removal_of(target: TargetView, remedy: Remedy) -> RemovalView {
    RemovalView {
        namespace: or_empty(target.namespace),
        name: or_empty(target.name),
        remedy,
        grace_period_seconds: match remedy {
            Remedy::Delete => Some(0u32),
            Remedy::Evict => None,
        },
        timeout_millis: CALL_TIMEOUT_MILLIS,
    }
}

/// The event that is published about a removed target. It is an ordinary
/// event, no warning.
pub open spec fn event_of(target: TargetView, remedy: Remedy, instance: Seq<char>) -> EventRecordView {
    EventRecordView {
        type_: EventType::Normal,
        action: event_action(remedy),
        reason: EVENT_REASON@,
        note: event_note(remedy),
        controller: controller_name(remedy),
        instance,
        regarding: target,
        timeout_millis: CALL_TIMEOUT_MILLIS,
    }
}

/// What a worker in the given state asks its caller to do.
pub open spec fn pending(worker: WorkerView) -> ActionView {
    match worker.state {
        StateView::Receiving => ActionView::Receive,
        StateView::Removing(target) => ActionView::Remove(removal_of(target, worker.remedy)),
        StateView::Publishing(target) => ActionView::Publish(
            event_of(target, worker.remedy, worker.instance),
        ),
        StateView::Stopped => ActionView::Stop,
    }
}

/// The counter that counts how a removal ended.
pub open spec fn removal_counter(result: CallResult) -> CounterKind {
    match result {
        CallResult::Done { .. } => CounterKind::PodsDeleted,
        CallResult::Failed => CounterKind::PodsDeleteErrors,
        CallResult::TimedOut => CounterKind::PodsDeleteTimeouts,
    }
}

/// The counters after a publication ended. A publication that succeeded
/// is not counted.
pub open spec fn publication_counted(result: CallResult, metrics: Metrics) -> Metrics {
    match result {
        CallResult::Done { .. } => metrics,
        CallResult::Failed => metrics.recorded(CounterKind::EventsPublishErrors),
        CallResult::TimedOut => metrics.recorded(CounterKind::EventsPublishTimeouts),
    }
}

/// The latency to record of a call that ended.
pub open spec fn observation(latency: Latency, result: CallResult) -> Option<Observation> {
    match result {
        CallResult::Done { elapsed_nanos } => Some(Observation { latency, elapsed_nanos }),
        _ => None,
    }
}

/// The state that the worker goes to on an event. An event that the
/// worker does not wait for leaves it where it is.
pub open spec fn next_state(state: StateView, event: EventView) -> StateView {
    match (state, event) {
        (StateView::Receiving, EventView::Dequeued(target)) => StateView::Removing(target),
        (StateView::Receiving, EventView::QueueClosed) => StateView::Stopped,
        (StateView::Removing(target), EventView::Removed(CallResult::Done { .. })) => StateView::Publishing(
            target,
        ),
        (StateView::Removing(_), EventView::Removed(_)) => StateView::Receiving,
        (StateView::Publishing(_), EventView::Published(_)) => StateView::Receiving,
        _ => state,
    }
}

/// The counters after an event. Only the end of a call that the worker
/// waits for is counted.
pub open spec fn next_metrics(state: StateView, event: EventView, metrics: Metrics) -> Metrics {
    match (state, event) {
        (StateView::Removing(_), EventView::Removed(result)) => metrics.recorded(
            removal_counter(result),
        ),
        (StateView::Publishing(_), EventView::Published(result)) => publication_counted(
            result,
            metrics,
        ),
        _ => metrics,
    }
}

/// The latency to record after an event.
pub open spec fn next_observed(state: StateView, event: EventView) -> Option<Observation> {
    match (state, event) {
        (StateView::Removing(_), EventView::Removed(result)) => observation(Latency::Delete, result),
        (StateView::Publishing(_), EventView::Published(result)) => observation(
            Latency::Publish,
            result,
        ),
        _ => None,
    }
}

/// The worker's whole answer to an event.
pub open spec fn step(worker: WorkerView, event: EventView, metrics: Metrics) -> Step {
    let state = next_state(worker.state, event);
    Step {
        state,
        action: pending(WorkerView { state, ..worker }),
        observed: next_observed(worker.state, event),
        metrics: next_metrics(worker.state, event, metrics),
    }
}

fn copy_target(target: &RemediationTarget) -> (r: RemediationTarget)
    ensures
        r@ == target@,
{
    RemediationTarget {
        namespace: copy_or_none(&target.namespace),
        name: copy_or_none(&target.name),
        uid: copy_or_none(&target.uid),
    }
}

fn copy_or_none(s: &Option<String>) -> (r: Option<String>)
    ensures
        text(r) == text(*s),
{
    match s {
        Some(s) => Some(s.clone()),
        None => None,
    }
}

fn copy_or_empty(s: &Option<String>) -> (r: String)
    ensures
        r@ == or_empty(text(*s)),
{
    match s {
        Some(s) => s.clone(),
        None => String::new(),
    }
}

impl Remedy {
    /// The label of what is done to the pod.
    pub fn event_action(self) -> (r: &'static str)
        ensures
            r@ == event_action(self),
    {
        match self {
            Remedy::Delete => "Deleting",
            Remedy::Evict => "Evicting",
        }
    }

    /// The explanation that an event carries.
    pub fn event_note(self) -> (r: &'static str)
        ensures
            r@ == event_note(self),
    {
        match self {
            Remedy::Delete => "Deleting pod to create a new one with proper CNI config",
            Remedy::Evict => "Evicting pod to create a new one with proper CNI config",
        }
    }

    /// The name under which the controller reports.
    pub fn controller_name(self) -> (r: &'static str)
        ensures
            r@ == controller_name(self),
    {
        match self {
            Remedy::Delete => "linkerd-cni-repair-controller",
            Remedy::Evict => "linkerd-reinitialize-pods",
        }
    }
}

impl Worker {
    /// A worker that waits for its first target. `instance` is the name of
    /// the pod in which the controller runs.
    pub fn new(remedy: Remedy, instance: String) -> (w: Worker)
        ensures
            w@ == (WorkerView { remedy, instance: instance@, state: StateView::Receiving }),
    {
        Worker { remedy, instance, state: WorkerState::Receiving }
    }

    /// Whether the worker has stopped.
    pub fn is_stopped(&self) -> (r: bool)
        ensures
            r == (self@.state == StateView::Stopped),
    {
        match &self.state {
            WorkerState::Stopped => true,
            _ => false,
        }
    }

    fn removal(&self, target: &RemediationTarget) -> (r: Removal)
        ensures
            r@ == removal_of(target@, self@.remedy),
    {
        Removal {
            namespace: copy_or_empty(&target.namespace),
            name: copy_or_empty(&target.name),
            remedy: self.remedy,
            grace_period_seconds: match self.remedy {
                Remedy::Delete => Some(0),
                Remedy::Evict => None,
            },
            timeout_millis: CALL_TIMEOUT_MILLIS,
        }
    }

    fn event(&self, target: &RemediationTarget) -> (r: EventRecord)
        ensures
            r@ == event_of(target@, self@.remedy, self@.instance),
    {
        EventRecord {
            type_: EventType::Normal,
            action: self.remedy.event_action(),
            reason: EVENT_REASON,
            note: self.remedy.event_note(),
            controller: self.remedy.controller_name(),
            instance: self.instance.clone(),
            regarding: copy_target(target),
            timeout_millis: CALL_TIMEOUT_MILLIS,
        }
    }

    /// What the worker asks its caller to do in the state it is in.
    pub fn pending(&self) -> (r: WorkerAction)
        ensures
            r@ == pending(self@),
    {
        match &self.state {
            WorkerState::Receiving => WorkerAction::Receive,
            WorkerState::Removing(target) => WorkerAction::Remove(self.removal(target)),
            WorkerState::Publishing(target) => WorkerAction::Publish(self.event(target)),
            WorkerState::Stopped => WorkerAction::Stop,
        }
    }

    /// Takes an event and says what is to be done next.
    ///
    /// A target from the queue is removed. A removal that succeeded is
    /// counted, its latency is recorded and an event is published; one that
    /// failed or timed out is counted and the target is given up. However
    /// the publication ends, the worker goes on to the next target; a
    /// publication that failed or timed out is counted, one that succeeded
    /// has its latency recorded. The worker stops when the queue is closed.
    /// An event that the worker does not wait for changes nothing.
    pub fn step(&mut self, event: WorkerEvent, metrics: &mut Metrics) -> (r: Reaction)
        ensures
            final(self)@.remedy == old(self)@.remedy,
            final(self)@.instance == old(self)@.instance,
            final(self)@.state == step(old(self)@, event@, *old(metrics)).state,
            r.action@ == step(old(self)@, event@, *old(metrics)).action,
            r.observed == step(old(self)@, event@, *old(metrics)).observed,
            *final(metrics) == step(old(self)@, event@, *old(metrics)).metrics,
    {
        let mut state = WorkerState::Receiving;
        std::mem::swap(&mut self.state, &mut state);
        let mut observed: Option<Observation> = None;
        let next = match (state, event) {
            (WorkerState::Receiving, WorkerEvent::Dequeued(target)) => WorkerState::Removing(target),
            (WorkerState::Receiving, WorkerEvent::QueueClosed) => WorkerState::Stopped,
            (WorkerState::Removing(target), WorkerEvent::Removed(result)) => match result {
                CallResult::Done { elapsed_nanos } => {
                    metrics.record(CounterKind::PodsDeleted);
                    observed = Some(Observation { latency: Latency::Delete, elapsed_nanos });
                    WorkerState::Publishing(target)
                },
                CallResult::Failed => {
                    metrics.record(CounterKind::PodsDeleteErrors);
                    WorkerState::Receiving
                },
                CallResult::TimedOut => {
                    metrics.record(CounterKind::PodsDeleteTimeouts);
                    WorkerState::Receiving
                },
            },
            (WorkerState::Publishing(_), WorkerEvent::Published(result)) => {
                match result {
                    CallResult::Done { elapsed_nanos } => {
                        observed = Some(Observation { latency: Latency::Publish, elapsed_nanos });
                    },
                    CallResult::Failed => {
                        metrics.record(CounterKind::EventsPublishErrors);
                    },
                    CallResult::TimedOut => {
                        metrics.record(CounterKind::EventsPublishTimeouts);
                    },
                }
                WorkerState::Receiving
            },
            (state, _) => state,
        };
        self.state = next;
        Reaction { action: self.pending(), observed }
    }
}

/// Idempotence: the removal of a target that is gone already returns an
/// error. The worker counts the error, publishes nothing, records no
/// latency and goes on to the next target, in whatever state the counters
/// were.
pub proof fn lemma_failed_removal_is_absorbed(
    worker: WorkerView,
    target: TargetView,
    metrics: Metrics,
)
    requires
        worker.state == StateView::Removing(target),
    ensures
        step(worker, EventView::Removed(CallResult::Failed), metrics).state == StateView::Receiving,
        step(worker, EventView::Removed(CallResult::Failed), metrics).action == ActionView::Receive,
        step(worker, EventView::Removed(CallResult::Failed), metrics).observed
            == None::<Observation>,
        step(worker, EventView::Removed(CallResult::Failed), metrics).metrics == metrics.recorded(
            CounterKind::PodsDeleteErrors,
        ),
        forall|counter: CounterKind|
            counter != CounterKind::PodsDeleteErrors ==> #[trigger] step(
                worker,
                EventView::Removed(CallResult::Failed),
                metrics,
            ).metrics.count(counter) == metrics.count(counter),
{
    metrics.lemma_advanced(CounterKind::PodsDeleteErrors, 1);
}

/// The same target, processed twice: the first removal succeeds, the
/// second finds the pod gone. After both passes the worker waits for the
/// next target, one pod is counted as removed and one error is counted.
pub proof fn lemma_second_pass_counts_an_error(
    worker: WorkerView,
    target: TargetView,
    metrics: Metrics,
    first: u64,
    published: CallResult,
)
    requires
        worker.state == StateView::Receiving,
    ensures
        ({
            let a = step(worker, EventView::Dequeued(target), metrics);
            let b = step(
                WorkerView { state: a.state, ..worker },
                EventView::Removed(CallResult::Done { elapsed_nanos: first }),
                a.metrics,
            );
            let c = step(WorkerView { state: b.state, ..worker }, EventView::Published(published), b.metrics);
            let d = step(WorkerView { state: c.state, ..worker }, EventView::Dequeued(target), c.metrics);
            let e = step(
                WorkerView { state: d.state, ..worker },
                EventView::Removed(CallResult::Failed),
                d.metrics,
            );
            &&& a.action == ActionView::Remove(removal_of(target, worker.remedy))
            &&& b.action == ActionView::Publish(event_of(target, worker.remedy, worker.instance))
            &&& c.action == ActionView::Receive
            &&& d.action == a.action
            &&& e.action == ActionView::Receive
            &&& e.state == StateView::Receiving
            &&& e.metrics == publication_counted(
                published,
                metrics.recorded(CounterKind::PodsDeleted),
            ).recorded(CounterKind::PodsDeleteErrors)
        }),
{
}

/// The worker stops only when the queue is closed while it waits for a
/// target, and a stopped worker stays stopped.
pub proof fn lemma_stops_only_on_closed_queue(worker: WorkerView, event: EventView)
    ensures
        next_state(worker.state, event) == StateView::Stopped <==> worker.state
            == StateView::Stopped || (worker.state == StateView::Receiving && event
            == EventView::QueueClosed),
{
}

} // verus!
