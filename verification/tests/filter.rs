use cni_repair::filter::{classify, process_event, process_events, settle, Handled, Verdict};
use cni_repair::metrics::{CounterKind, Metrics};
use cni_repair::pod::{
    InitContainerStatus, PodCondition, PodObservation, PodStatus, RemediationTarget, Remedy,
    UNSUCCESSFUL_EXIT_CODE,
};
use cni_repair::queue::{Offer, Queue, EVENT_CHANNEL_CAPACITY};
use prometheus_client::registry::Registry;

fn new_metrics() -> Metrics {
    Metrics::register(&mut Registry::default(), Remedy::Delete)
}

fn counts(metrics: &Metrics) -> [u64; 6] {
    [
        metrics.get(CounterKind::QueueOverflow),
        metrics.get(CounterKind::PodsDeleted),
        metrics.get(CounterKind::PodsDeleteErrors),
        metrics.get(CounterKind::PodsDeleteTimeouts),
        metrics.get(CounterKind::EventsPublishErrors),
        metrics.get(CounterKind::EventsPublishTimeouts),
    ]
}

fn failing_status() -> PodStatus {
    PodStatus {
        init_containers: vec![InitContainerStatus {
            name: "linkerd-network-validator".to_string(),
            last_exit_code: Some(UNSUCCESSFUL_EXIT_CODE),
        }],
        conditions: vec![],
    }
}

fn healthy_status() -> PodStatus {
    PodStatus {
        init_containers: vec![InitContainerStatus {
            name: "linkerd-network-validator".to_string(),
            last_exit_code: None,
        }],
        conditions: vec![],
    }
}

fn evicted_status() -> PodStatus {
    PodStatus {
        init_containers: failing_status().init_containers,
        conditions: vec![PodCondition {
            reason: Some("EvictionByEvictionAPI".to_string()),
        }],
    }
}

fn pod(name: &str, status: Option<PodStatus>, deleting: bool) -> PodObservation {
    PodObservation {
        namespace: Some("default".to_string()),
        name: Some(name.to_string()),
        uid: None,
        deleting,
        status,
    }
}

fn overflow(metrics: &Metrics) -> u64 {
    metrics.get(CounterKind::QueueOverflow)
}

fn drain(queue: &mut Queue) -> Vec<RemediationTarget> {
    let mut out = Vec::new();
    while let Some(target) = queue.take() {
        out.push(target);
    }
    out
}

#[test]
fn test_process_events() {
    let mut metrics = new_metrics();

    // This pod should be ignored
    let pod1 = pod("pod1", None, false);

    // This pod should be processed
    let pod2 = pod("pod2", Some(failing_status()), false);

    // This pod should be ignored
    let pod3 = PodObservation {
        deleting: true,
        ..pod2.clone()
    };

    let mut queue = Queue::new(EVENT_CHANNEL_CAPACITY);
    let log = process_events(&vec![pod1, pod2, pod3], Remedy::Delete, &mut queue, &mut metrics);
    let msg = queue.take();
    let object_ref = msg.unwrap();
    assert_eq!(object_ref.name, Some("pod2".to_string()));
    let msg = queue.take();
    assert_eq!(msg, None);
    assert_eq!(
        log,
        vec![Handled::NoStatus, Handled::Enqueued, Handled::InProgress]
    );
}

#[test]
fn three_observations_leave_one_target() {
    let mut metrics = new_metrics();
    let mut queue = Queue::new(EVENT_CHANNEL_CAPACITY);
    let failing = pod("pod2", Some(failing_status()), false);

    let first = process_event(&pod("pod1", None, false), Remedy::Delete, &mut queue, &mut metrics);
    assert_eq!(first, Handled::NoStatus);
    let second = process_event(&failing, Remedy::Delete, &mut queue, &mut metrics);
    assert_eq!(second, Handled::Enqueued);
    let deleting = PodObservation {
        deleting: true,
        ..failing.clone()
    };
    let third = process_event(&deleting, Remedy::Delete, &mut queue, &mut metrics);
    assert_eq!(third, Handled::InProgress);

    let held = drain(&mut queue);
    assert_eq!(held.len(), 1);
    assert_eq!(held[0].name, Some("pod2".to_string()));
    assert_eq!(held[0].namespace, Some("default".to_string()));
    assert_eq!(overflow(&metrics), 0);
}

#[test]
fn verdicts() {
    assert_eq!(classify(&pod("a", None, false), Remedy::Delete), Verdict::NoStatus);
    assert_eq!(classify(&pod("a", None, true), Remedy::Delete), Verdict::NoStatus);
    assert_eq!(
        classify(&pod("a", Some(healthy_status()), false), Remedy::Delete),
        Verdict::Healthy
    );
    assert_eq!(
        classify(&pod("a", Some(healthy_status()), true), Remedy::Delete),
        Verdict::Healthy
    );
    assert_eq!(
        classify(&pod("a", Some(failing_status()), false), Remedy::Delete),
        Verdict::Remediate
    );
    assert_eq!(
        classify(&pod("a", Some(failing_status()), true), Remedy::Delete),
        Verdict::InProgress
    );
    assert_eq!(
        classify(&pod("a", Some(evicted_status()), false), Remedy::Delete),
        Verdict::Remediate
    );
    assert_eq!(
        classify(&pod("a", Some(evicted_status()), false), Remedy::Evict),
        Verdict::InProgress
    );
    assert_eq!(
        classify(&pod("a", Some(failing_status()), true), Remedy::Evict),
        Verdict::Remediate
    );
}

#[test]
fn pod_without_status_is_skipped() {
    for remedy in [Remedy::Delete, Remedy::Evict] {
        for deleting in [false, true] {
            let mut metrics = new_metrics();
            let mut queue = Queue::new(2);
            let h = process_event(&pod("a", None, deleting), remedy, &mut queue, &mut metrics);
            assert_eq!(h, Handled::NoStatus);
            assert_eq!(queue.take(), None);
            assert_eq!(counts(&metrics), [0; 6]);
        }
    }
}

#[test]
fn pod_without_the_failure_signature_is_not_enqueued() {
    let other_code = PodStatus {
        init_containers: vec![InitContainerStatus {
            name: "linkerd-network-validator".to_string(),
            last_exit_code: Some(1),
        }],
        conditions: vec![],
    };
    let other_container = PodStatus {
        init_containers: vec![InitContainerStatus {
            name: "linkerd-init".to_string(),
            last_exit_code: Some(95),
        }],
        conditions: vec![],
    };
    let nothing = PodStatus {
        init_containers: vec![],
        conditions: vec![],
    };
    for status in [healthy_status(), other_code, other_container, nothing] {
        let mut metrics = new_metrics();
        let mut queue = Queue::new(2);
        let h = process_event(&pod("a", Some(status), false), Remedy::Delete, &mut queue, &mut metrics);
        assert_eq!(h, Handled::Healthy);
        assert_eq!(queue.take(), None);
        assert_eq!(counts(&metrics), [0; 6]);
    }
}

#[test]
fn failing_pod_is_offered_exactly_once() {
    let mut metrics = new_metrics();
    let mut queue = Queue::new(4);
    let h = process_event(
        &pod("a", Some(failing_status()), false),
        Remedy::Delete,
        &mut queue,
        &mut metrics,
    );
    assert_eq!(h, Handled::Enqueued);
    let held = drain(&mut queue);
    assert_eq!(held, vec![pod("a", None, false).target()]);
    assert_eq!(counts(&metrics), [0; 6]);
}

#[test]
fn pod_being_removed_is_not_enqueued() {
    let mut metrics = new_metrics();
    let mut queue = Queue::new(4);
    let deleting = pod("a", Some(failing_status()), true);
    assert_eq!(
        process_event(&deleting, Remedy::Delete, &mut queue, &mut metrics),
        Handled::InProgress
    );
    let evicted = pod("b", Some(evicted_status()), false);
    assert_eq!(
        process_event(&evicted, Remedy::Evict, &mut queue, &mut metrics),
        Handled::InProgress
    );
    assert_eq!(queue.take(), None);
    assert_eq!(counts(&metrics), [0; 6]);
}

#[test]
fn repeated_observations_of_one_pod_are_each_enqueued() {
    let mut metrics = new_metrics();
    let mut queue = Queue::new(4);
    let failing = pod("again", Some(failing_status()), false);
    let all = vec![failing.clone(), failing.clone(), failing.clone()];
    assert_eq!(
        process_events(&all, Remedy::Delete, &mut queue, &mut metrics),
        vec![Handled::Enqueued; 3]
    );
    assert_eq!(drain(&mut queue).len(), 3);
}

#[test]
fn overflow_is_dropped_and_counted() {
    let capacity = 3;
    let offered = 8;
    let mut metrics = new_metrics();
    let mut queue = Queue::new(capacity);
    let all: Vec<PodObservation> = (0..offered)
        .map(|n| pod(&format!("pod{}", n), Some(failing_status()), false))
        .collect();
    let log = process_events(&all, Remedy::Delete, &mut queue, &mut metrics);
    assert_eq!(log.len(), offered);
    assert!(log[..capacity].iter().all(|h| *h == Handled::Enqueued));
    assert!(log[capacity..].iter().all(|h| *h == Handled::Dropped));
    assert_eq!(overflow(&metrics), (offered - capacity) as u64);
    let held = drain(&mut queue);
    assert_eq!(held.len(), capacity);
    for (n, target) in held.iter().enumerate() {
        assert_eq!(target.name, Some(format!("pod{}", n)));
    }
    assert_eq!(counts(&metrics), [(offered - capacity) as u64, 0, 0, 0, 0, 0]);
}

#[test]
fn overflow_counts_only_what_calls_for_remediation() {
    let mut metrics = new_metrics();
    let mut queue = Queue::new(1);
    let all = vec![
        pod("a", Some(failing_status()), false),
        pod("b", None, false),
        pod("c", Some(healthy_status()), false),
        pod("d", Some(failing_status()), true),
        pod("e", Some(failing_status()), false),
        pod("f", Some(failing_status()), false),
    ];
    assert_eq!(
        process_events(&all, Remedy::Delete, &mut queue, &mut metrics),
        vec![
            Handled::Enqueued,
            Handled::NoStatus,
            Handled::Healthy,
            Handled::InProgress,
            Handled::Dropped,
            Handled::Dropped,
        ]
    );
    assert_eq!(overflow(&metrics), 2);
    assert_eq!(drain(&mut queue), vec![pod("a", None, false).target()]);
}

#[test]
fn filter_stops_at_a_closed_queue() {
    let mut metrics = new_metrics();
    let mut queue = Queue::new(4);
    let rx = queue.detach().unwrap();
    drop(rx);
    let all = vec![
        pod("a", None, false),
        pod("b", Some(healthy_status()), false),
        pod("c", Some(failing_status()), false),
        pod("d", Some(failing_status()), false),
    ];
    assert_eq!(
        process_events(&all, Remedy::Delete, &mut queue, &mut metrics),
        vec![Handled::NoStatus, Handled::Healthy, Handled::Closed]
    );
    assert_eq!(
        process_event(&all[3], Remedy::Delete, &mut queue, &mut metrics),
        Handled::Closed
    );
    assert_eq!(
        process_event(&all[0], Remedy::Delete, &mut queue, &mut metrics),
        Handled::NoStatus
    );
    assert_eq!(counts(&metrics), [0; 6]);
}

#[test]
fn filter_feeds_a_detached_consumer() {
    let mut metrics = new_metrics();
    let mut queue = Queue::new(2);
    let mut rx = queue.detach().unwrap();
    let all: Vec<PodObservation> = (0..3)
        .map(|n| pod(&format!("pod{}", n), Some(failing_status()), false))
        .collect();
    assert_eq!(
        process_events(&all, Remedy::Evict, &mut queue, &mut metrics),
        vec![Handled::Enqueued, Handled::Enqueued, Handled::Dropped]
    );
    assert_eq!(overflow(&metrics), 1);
    assert_eq!(rx.try_recv().ok(), Some(all[0].target()));
    assert_eq!(rx.try_recv().ok(), Some(all[1].target()));
    assert_eq!(rx.try_recv().ok(), None);
}

#[test]
fn settle_counts_only_a_full_queue() {
    let mut metrics = new_metrics();
    assert_eq!(settle(Offer::Accepted, &mut metrics), Handled::Enqueued);
    assert_eq!(overflow(&metrics), 0);
    assert_eq!(settle(Offer::Closed, &mut metrics), Handled::Closed);
    assert_eq!(overflow(&metrics), 0);
    assert_eq!(settle(Offer::Full, &mut metrics), Handled::Dropped);
    assert_eq!(overflow(&metrics), 1);
    assert_eq!(settle(Offer::Full, &mut metrics), Handled::Dropped);
    assert_eq!(overflow(&metrics), 2);
}

#[test]
fn dropped_targets_show_in_the_registry() {
    let mut registry = Registry::default();
    let mut metrics = Metrics::register(
        registry.sub_registry_with_prefix("linkerd_cni_repair_controller"),
        Remedy::Delete,
    );
    let mut queue = Queue::new(1);
    let all: Vec<PodObservation> = (0..4)
        .map(|n| pod(&format!("pod{}", n), Some(failing_status()), false))
        .collect();
    process_events(&all, Remedy::Delete, &mut queue, &mut metrics);
    let mut text = String::new();
    prometheus_client::encoding::text::encode(&mut text, &registry).unwrap();
    assert!(
        text.contains("linkerd_cni_repair_controller_queue_overflow_total 3\n"),
        "{}",
        text
    );
    assert!(
        text.contains("linkerd_cni_repair_controller_pods_deleted_total 0\n"),
        "{}",
        text
    );
}
