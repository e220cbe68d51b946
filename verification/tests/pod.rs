use cni_repair::pod::{
    node_field_selector, same_text, InitContainerStatus, PodCondition, PodObservation, PodStatus,
    Remedy, CONDITION_EVICTED_REASON, DATA_PLANE_LABEL, UNSUCCESSFUL_EXIT_CODE,
    VALIDATOR_CONTAINER,
};

fn container(name: &str, last_exit_code: Option<i32>) -> InitContainerStatus {
    InitContainerStatus {
        name: name.to_string(),
        last_exit_code,
    }
}

fn status(init_containers: Vec<InitContainerStatus>, reasons: Vec<Option<&str>>) -> PodStatus {
    PodStatus {
        init_containers,
        conditions: reasons
            .into_iter()
            .map(|reason| PodCondition {
                reason: reason.map(|r| r.to_string()),
            })
            .collect(),
    }
}

fn observed(deleting: bool, status: Option<PodStatus>) -> PodObservation {
    PodObservation {
        namespace: Some("default".to_string()),
        name: Some("web-0".to_string()),
        uid: Some("0a1b".to_string()),
        deleting,
        status,
    }
}

#[test]
fn constants_of_the_interface() {
    assert_eq!(VALIDATOR_CONTAINER, "linkerd-network-validator");
    assert_eq!(UNSUCCESSFUL_EXIT_CODE, 95);
    assert_eq!(CONDITION_EVICTED_REASON, "EvictionByEvictionAPI");
    assert_eq!(DATA_PLANE_LABEL, "linkerd.io/control-plane-ns");
}

#[test]
fn field_selector_names_the_node() {
    assert_eq!(node_field_selector("node-1"), "spec.nodeName=node-1");
    assert_eq!(node_field_selector(""), "spec.nodeName=");
    assert_eq!(node_field_selector("ünïcode"), "spec.nodeName=ünïcode");
}

#[test]
fn same_text_compares_whole_texts() {
    assert!(same_text("", ""));
    assert!(same_text("abc", "abc"));
    assert!(!same_text("abc", "abd"));
    assert!(!same_text("abc", "ab"));
    assert!(!same_text("ab", "abc"));
    assert!(same_text("grüße", "grüße"));
    assert!(!same_text("grüße", "grusse"));
}

#[test]
fn failure_signature_needs_the_validator_and_the_exit_code() {
    assert!(status(vec![container(VALIDATOR_CONTAINER, Some(95))], vec![]).failure_signature());
    assert!(!status(vec![], vec![]).failure_signature());
    assert!(!status(vec![container(VALIDATOR_CONTAINER, None)], vec![]).failure_signature());
    assert!(!status(vec![container(VALIDATOR_CONTAINER, Some(0))], vec![]).failure_signature());
    assert!(!status(vec![container(VALIDATOR_CONTAINER, Some(1))], vec![]).failure_signature());
    assert!(!status(vec![container(VALIDATOR_CONTAINER, Some(-95))], vec![]).failure_signature());
    assert!(!status(vec![container("linkerd-init", Some(95))], vec![]).failure_signature());
    assert!(
        !status(vec![container("linkerd-network-validator2", Some(95))], vec![]).failure_signature()
    );
}

#[test]
fn failure_signature_reads_the_first_status_of_the_validator() {
    let others_first = status(
        vec![
            container("linkerd-init", Some(0)),
            container("istio-init", None),
            container(VALIDATOR_CONTAINER, Some(95)),
        ],
        vec![],
    );
    assert!(others_first.failure_signature());
    let first_is_fine = status(
        vec![
            container(VALIDATOR_CONTAINER, Some(0)),
            container(VALIDATOR_CONTAINER, Some(95)),
        ],
        vec![],
    );
    assert!(!first_is_fine.failure_signature());
    let first_failed = status(
        vec![
            container(VALIDATOR_CONTAINER, Some(95)),
            container(VALIDATOR_CONTAINER, Some(0)),
        ],
        vec![],
    );
    assert!(first_failed.failure_signature());
}

#[test]
fn eviction_is_read_from_the_conditions() {
    assert!(!status(vec![], vec![]).evicted());
    assert!(!status(vec![], vec![None]).evicted());
    assert!(!status(vec![], vec![Some("Unschedulable")]).evicted());
    assert!(status(vec![], vec![Some("EvictionByEvictionAPI")]).evicted());
    assert!(status(vec![], vec![None, Some("Other"), Some("EvictionByEvictionAPI")]).evicted());
    assert!(PodCondition {
        reason: Some("EvictionByEvictionAPI".to_string())
    }
    .is_eviction());
    assert!(!PodCondition { reason: None }.is_eviction());
    assert!(container(VALIDATOR_CONTAINER, None).is_validator());
    assert!(!container("other", Some(95)).is_validator());
}

#[test]
fn already_remediating_depends_on_the_remedy() {
    let evicted = status(vec![], vec![Some("EvictionByEvictionAPI")]);
    let plain = status(vec![], vec![]);

    assert!(observed(true, None).already_remediating(Remedy::Delete));
    assert!(observed(true, Some(plain.clone())).already_remediating(Remedy::Delete));
    assert!(!observed(false, Some(evicted.clone())).already_remediating(Remedy::Delete));
    assert!(!observed(false, None).already_remediating(Remedy::Delete));

    assert!(observed(false, Some(evicted.clone())).already_remediating(Remedy::Evict));
    assert!(observed(true, Some(evicted)).already_remediating(Remedy::Evict));
    assert!(!observed(true, Some(plain)).already_remediating(Remedy::Evict));
    assert!(!observed(true, None).already_remediating(Remedy::Evict));
}

#[test]
fn target_refers_to_the_observed_pod() {
    let target = observed(false, None).target();
    assert_eq!(target.namespace, Some("default".to_string()));
    assert_eq!(target.name, Some("web-0".to_string()));
    assert_eq!(target.uid, Some("0a1b".to_string()));

    let anonymous = PodObservation {
        namespace: None,
        name: None,
        uid: None,
        deleting: false,
        status: None,
    }
    .target();
    assert_eq!(anonymous.namespace, None);
    assert_eq!(anonymous.name, None);
    assert_eq!(anonymous.uid, None);
}
