use cni_repair::metrics::{CounterKind, Latency, Metrics};
use cni_repair::pod::{RemediationTarget, Remedy};
use cni_repair::worker::{
    CallResult, EventRecord, EventType, Observation, Reaction, Removal, Worker, WorkerAction, WorkerEvent,
    CALL_TIMEOUT_MILLIS, EVENT_REASON,
};

fn target(name: &str) -> RemediationTarget {
    RemediationTarget {
        namespace: Some("emojivoto".to_string()),
        name: Some(name.to_string()),
        uid: Some("1234".to_string()),
    }
}

fn new_metrics() -> Metrics {
    Metrics::register(&mut prometheus_client::registry::Registry::default(), Remedy::Delete)
}

fn worker(remedy: Remedy) -> Worker {
    Worker::new(remedy, "controller-abcde".to_string())
}

fn done(elapsed_nanos: u64) -> CallResult {
    CallResult::Done { elapsed_nanos }
}

fn receive() -> Reaction {
    Reaction {
        action: WorkerAction::Receive,
        observed: None,
    }
}

fn removal(name: &str, remedy: Remedy) -> Removal {
    Removal {
        namespace: "emojivoto".to_string(),
        name: name.to_string(),
        remedy,
        grace_period_seconds: match remedy {
            Remedy::Delete => Some(0),
            Remedy::Evict => None,
        },
        timeout_millis: 1000,
    }
}

fn counts(metrics: &Metrics) -> [u64; 6] {
    [
        metrics.get(CounterKind::QueueOverflow),
        metrics.get(CounterKind::PodsDeleted),
        metrics.get(CounterKind::PodsDeleteErrors),
        metrics.get(CounterKind::PodsDeleteTimeouts),
        metrics.get(CounterKind::EventsPublishErrors),
        metrics.get(CounterKind::EventsPublishTimeouts),
    ]
}

#[test]
fn worker_constants() {
    assert_eq!(CALL_TIMEOUT_MILLIS, 1000);
    assert_eq!(EVENT_REASON, "LinkerdCNINotConfigured");
}

#[test]
fn new_worker_waits_for_a_target() {
    let w = worker(Remedy::Delete);
    assert_eq!(w.pending(), WorkerAction::Receive);
    assert!(!w.is_stopped());
}

#[test]
fn successful_pass_deletes_then_publishes() {
    let mut metrics = new_metrics();
    let mut w = worker(Remedy::Delete);

    let r = w.step(WorkerEvent::Dequeued(target("web-1")), &mut metrics);
    assert_eq!(
        r,
        Reaction {
            action: WorkerAction::Remove(removal("web-1", Remedy::Delete)),
            observed: None
        }
    );
    assert_eq!(counts(&metrics), [0, 0, 0, 0, 0, 0]);

    let r = w.step(WorkerEvent::Removed(done(1_500_000)), &mut metrics);
    assert_eq!(
        r,
        Reaction {
            action: WorkerAction::Publish(EventRecord {
                type_: EventType::Normal,
                action: "Deleting",
                reason: "LinkerdCNINotConfigured",
                note: "Deleting pod to create a new one with proper CNI config",
                controller: "linkerd-cni-repair-controller",
                instance: "controller-abcde".to_string(),
                regarding: target("web-1"),
                timeout_millis: 1000,
            }),
            observed: Some(Observation {
                latency: Latency::Delete,
                elapsed_nanos: 1_500_000
            }),
        }
    );
    assert_eq!(counts(&metrics), [0, 1, 0, 0, 0, 0]);

    let r = w.step(WorkerEvent::Published(done(42)), &mut metrics);
    assert_eq!(
        r,
        Reaction {
            action: WorkerAction::Receive,
            observed: Some(Observation {
                latency: Latency::Publish,
                elapsed_nanos: 42
            }),
        }
    );
    assert_eq!(counts(&metrics), [0, 1, 0, 0, 0, 0]);
    assert!(!w.is_stopped());
}

#[test]
fn eviction_asks_for_no_grace_period_and_names_itself() {
    let mut metrics = new_metrics();
    let mut w = worker(Remedy::Evict);
    let r = w.step(WorkerEvent::Dequeued(target("web-2")), &mut metrics);
    assert_eq!(r.action, WorkerAction::Remove(removal("web-2", Remedy::Evict)));
    let r = w.step(WorkerEvent::Removed(done(7)), &mut metrics);
    match r.action {
        WorkerAction::Publish(event) => {
            assert_eq!(event.type_, EventType::Normal);
            assert_eq!(event.action, "Evicting");
            assert_eq!(event.reason, "LinkerdCNINotConfigured");
            assert_eq!(
                event.note,
                "Evicting pod to create a new one with proper CNI config"
            );
            assert_eq!(event.controller, "linkerd-reinitialize-pods");
            assert_eq!(event.instance, "controller-abcde");
            assert_eq!(event.regarding, target("web-2"));
        }
        other => panic!("{:?}", other),
    }
    assert_eq!(counts(&metrics), [0, 1, 0, 0, 0, 0]);
}

#[test]
fn failed_removal_is_counted_and_the_target_given_up() {
    let mut metrics = new_metrics();
    let mut w = worker(Remedy::Delete);
    w.step(WorkerEvent::Dequeued(target("web-1")), &mut metrics);
    let r = w.step(WorkerEvent::Removed(CallResult::Failed), &mut metrics);
    assert_eq!(r, receive());
    assert_eq!(counts(&metrics), [0, 0, 1, 0, 0, 0]);
    assert_eq!(w.pending(), WorkerAction::Receive);
}

#[test]
fn removal_that_timed_out_is_counted_and_the_target_given_up() {
    let mut metrics = new_metrics();
    let mut w = worker(Remedy::Delete);
    w.step(WorkerEvent::Dequeued(target("web-1")), &mut metrics);
    let r = w.step(WorkerEvent::Removed(CallResult::TimedOut), &mut metrics);
    assert_eq!(r, receive());
    assert_eq!(counts(&metrics), [0, 0, 0, 1, 0, 0]);
}

#[test]
fn failed_publication_does_not_undo_the_removal() {
    for (result, expected) in [
        (CallResult::Failed, [0, 1, 0, 0, 1, 0]),
        (CallResult::TimedOut, [0, 1, 0, 0, 0, 1]),
    ] {
        let mut metrics = new_metrics();
        let mut w = worker(Remedy::Delete);
        w.step(WorkerEvent::Dequeued(target("web-1")), &mut metrics);
        w.step(WorkerEvent::Removed(done(10)), &mut metrics);
        let r = w.step(WorkerEvent::Published(result), &mut metrics);
        assert_eq!(r, receive());
        assert_eq!(counts(&metrics), expected);
    }
}

#[test]
fn second_pass_over_a_removed_pod_counts_an_error_and_goes_on() {
    let mut metrics = new_metrics();
    let mut w = worker(Remedy::Delete);
    w.step(WorkerEvent::Dequeued(target("web-1")), &mut metrics);
    w.step(WorkerEvent::Removed(done(10)), &mut metrics);
    w.step(WorkerEvent::Published(done(10)), &mut metrics);
    assert_eq!(counts(&metrics), [0, 1, 0, 0, 0, 0]);

    let r = w.step(WorkerEvent::Dequeued(target("web-1")), &mut metrics);
    assert_eq!(r.action, WorkerAction::Remove(removal("web-1", Remedy::Delete)));
    let r = w.step(WorkerEvent::Removed(CallResult::Failed), &mut metrics);
    assert_eq!(r, receive());
    assert_eq!(counts(&metrics), [0, 1, 1, 0, 0, 0]);

    let r = w.step(WorkerEvent::Dequeued(target("web-2")), &mut metrics);
    assert_eq!(r.action, WorkerAction::Remove(removal("web-2", Remedy::Delete)));
}

#[test]
fn worker_stops_when_the_queue_is_closed() {
    let mut metrics = new_metrics();
    let mut w = worker(Remedy::Delete);
    let r = w.step(WorkerEvent::QueueClosed, &mut metrics);
    assert_eq!(
        r,
        Reaction {
            action: WorkerAction::Stop,
            observed: None
        }
    );
    assert!(w.is_stopped());
    for event in [
        WorkerEvent::Dequeued(target("late")),
        WorkerEvent::QueueClosed,
        WorkerEvent::Removed(done(1)),
        WorkerEvent::Published(CallResult::Failed),
    ] {
        assert_eq!(w.step(event, &mut metrics).action, WorkerAction::Stop);
        assert!(w.is_stopped());
    }
    assert_eq!(counts(&metrics), [0, 0, 0, 0, 0, 0]);
}

#[test]
fn event_that_is_not_awaited_changes_nothing() {
    let mut metrics = new_metrics();
    let mut w = worker(Remedy::Delete);
    assert_eq!(w.step(WorkerEvent::Removed(done(5)), &mut metrics), receive());
    assert_eq!(
        w.step(WorkerEvent::Published(CallResult::Failed), &mut metrics),
        receive()
    );

    w.step(WorkerEvent::Dequeued(target("web-1")), &mut metrics);
    let again = WorkerAction::Remove(removal("web-1", Remedy::Delete));
    for event in [
        WorkerEvent::Dequeued(target("web-2")),
        WorkerEvent::QueueClosed,
        WorkerEvent::Published(done(5)),
    ] {
        let r = w.step(event, &mut metrics);
        assert_eq!(r.action, again);
        assert_eq!(r.observed, None);
    }

    w.step(WorkerEvent::Removed(done(5)), &mut metrics);
    let before = counts(&metrics);
    for event in [
        WorkerEvent::Dequeued(target("web-2")),
        WorkerEvent::QueueClosed,
        WorkerEvent::Removed(CallResult::Failed),
    ] {
        let r = w.step(event, &mut metrics);
        assert!(matches!(r.action, WorkerAction::Publish(_)));
        assert_eq!(r.observed, None);
    }
    assert_eq!(counts(&metrics), before);
    assert!(!w.is_stopped());
}

#[test]
fn target_without_names_is_removed_by_empty_names() {
    let mut metrics = new_metrics();
    let mut w = worker(Remedy::Delete);
    let anonymous = RemediationTarget {
        namespace: None,
        name: None,
        uid: None,
    };
    let r = w.step(WorkerEvent::Dequeued(anonymous), &mut metrics);
    match r.action {
        WorkerAction::Remove(removal) => {
            assert_eq!(removal.namespace, "");
            assert_eq!(removal.name, "");
        }
        other => panic!("{:?}", other),
    }
}

#[test]
fn remedy_labels() {
    assert_eq!(Remedy::Delete.event_action(), "Deleting");
    assert_eq!(Remedy::Evict.event_action(), "Evicting");
    assert_eq!(Remedy::Delete.controller_name(), "linkerd-cni-repair-controller");
    assert_eq!(Remedy::Evict.controller_name(), "linkerd-reinitialize-pods");
    assert_eq!(
        Remedy::Delete.event_note(),
        "Deleting pod to create a new one with proper CNI config"
    );
    assert_eq!(
        Remedy::Evict.event_note(),
        "Evicting pod to create a new one with proper CNI config"
    );
}
