//! What the controller observes of a pod, and the two signatures it
//! computes from an observation.

use vstd::prelude::*;
use vstd::string::StringSliceAdditionalSpecFns;

verus! {

/// Name of the init container whose failure marks a pod for remediation.
pub const VALIDATOR_CONTAINER: &'static str = "linkerd-network-validator";

/// Exit code with which the validator reports that the network of the pod
/// is not set up (errno 95, operation not supported).
pub const UNSUCCESSFUL_EXIT_CODE: i32 = 95;

/// Reason of the pod condition that an eviction leaves behind.
pub const CONDITION_EVICTED_REASON: &'static str = "EvictionByEvictionAPI";

/// Label that every pod of the data plane carries.
pub const DATA_PLANE_LABEL: &'static str = "linkerd.io/control-plane-ns";

/// Start of the field selector that restricts the watch to one node.
pub const NODE_FIELD: &'static str = "spec.nodeName=";

/// How a failing pod is removed.
#[derive(Clone, Copy, Debug, PartialEq, Eq, Structural)]
pub enum Remedy {
    /// The pod is deleted with no grace period.
    Delete,
    /// The pod is evicted through the eviction API.
    Evict,
}

/// Status of one init container, as far as the controller reads it.
#[derive(Clone, Debug, PartialEq, Eq)]
pub struct InitContainerStatus {
    pub name: String,
    /// Exit code of the termination recorded as the container's last state;
    /// `None` where the last state is absent or is no termination.
    pub last_exit_code: Option<i32>,
}

/// One condition of a pod, as far as the controller reads it.
#[derive(Clone, Debug, PartialEq, Eq)]
pub struct PodCondition {
    pub reason: Option<String>,
}

/// The status block of a pod.
#[derive(Clone, Debug, PartialEq, Eq)]
pub struct PodStatus {
    pub init_containers: Vec<InitContainerStatus>,
    pub conditions: Vec<PodCondition>,
}

/// A snapshot of a pod, taken from one watch event.
#[derive(Clone, Debug, PartialEq, Eq)]
pub struct PodObservation {
    pub namespace: Option<String>,
    pub name: Option<String>,
    pub uid: Option<String>,
    /// Whether the pod carries a deletion timestamp.
    pub deleting: bool,
    pub status: Option<PodStatus>,
}

/// Reference to a pod that is to be removed: what the queue holds.
#[derive(Clone, Debug, PartialEq, Eq)]
pub struct RemediationTarget {
    pub namespace: Option<String>,
    pub name: Option<String>,
    pub uid: Option<String>,
}

/// The mathematical value of a [`RemediationTarget`].
pub struct TargetView {
    pub namespace: Option<Seq<char>>,
    pub name: Option<Seq<char>>,
    pub uid: Option<Seq<char>>,
}

/// The characters of an optional string.
pub open spec fn text(s: Option<String>) -> Option<Seq<char>> {
    match s {
        Some(s) => Some(s@),
        None => None,
    }
}

impl View for RemediationTarget {
    type V = TargetView;

    open spec fn view(&self) -> TargetView {
        TargetView { namespace: text(self.namespace), name: text(self.name), uid: text(self.uid) }
    }
}

/// Whether a container status belongs to the validator.
pub open spec fn is_validator(c: InitContainerStatus) -> bool {
    c.name@ == VALIDATOR_CONTAINER@
}

/// Whether a condition records an eviction.
pub open spec fn is_eviction(c: PodCondition) -> bool {
    text(c.reason) == Some(CONDITION_EVICTED_REASON@)
}

/// The failure signature: the first init container that bears the
/// validator's name last terminated with the unsuccessful exit code.
pub open spec fn failure_signature(status: PodStatus) -> bool {
    exists|i: int|
        0 <= i < status.init_containers@.len() && #[trigger] is_validator(
            status.init_containers@[i],
        ) && status.init_containers@[i].last_exit_code == Some(UNSUCCESSFUL_EXIT_CODE)
            && forall|j: int| 0 <= j < i ==> !#[trigger] is_validator(status.init_containers@[j])
}

/// Whether some condition of the status records an eviction.
pub open spec fn evicted(status: PodStatus) -> bool {
    exists|i: int| 0 <= i < status.conditions@.len() && #[trigger] is_eviction(status.conditions@[i])
}

/// The already-remediating signature. A pod that is to be deleted is
/// recognised by its deletion timestamp, one that is to be evicted by the
/// condition that the eviction left.
pub open spec fn already_remediating(obs: PodObservation, remedy: Remedy) -> bool {
    match remedy {
        Remedy::Delete => obs.deleting,
        Remedy::Evict => obs.status is Some && evicted(obs.status->0),
    }
}

/// The reference that stands for an observed pod.
pub open spec fn target_of(obs: PodObservation) -> TargetView {
    TargetView { namespace: text(obs.namespace), name: text(obs.name), uid: text(obs.uid) }
}

/// The field selector of the watch on the pods of `node`.
pub open spec fn node_selector(node: Seq<char>) -> Seq<char> {
    NODE_FIELD@ + node
}

/// Compares two strings by their UTF-8 encodings.
pub fn same_text(a: &str, b: &str) -> (r: bool)
    ensures
        r == (a@ == b@),
{
    let x = a.as_bytes();
    let y = b.as_bytes();
    proof {
        vstd::utf8::encode_utf8_decode_utf8(a@);
        vstd::utf8::encode_utf8_decode_utf8(b@);
    }
    if x.len() != y.len() {
        return false;
    }
    let mut i: usize = 0;
    while i < x.len()
        invariant
            i <= x.len(),
            x.len() == y.len(),
            x@ == a.spec_bytes(),
            y@ == b.spec_bytes(),
            forall|k: int| 0 <= k < i ==> x@[k] == y@[k],
        decreases x.len() - i,
    {
        if x[i] != y[i] {
            return false;
        }
        i += 1;
    }
    assert(x@ =~= y@);
    true
}

fn copy_text(s: &Option<String>) -> (r: Option<String>)
    ensures
        text(r) == text(*s),
{
    match s {
        Some(s) => Some(s.clone()),
        None => None,
    }
}

impl InitContainerStatus {
    /// Whether this is the status of the validator.
    pub fn is_validator(&self) -> (r: bool)
        ensures
            r == is_validator(*self),
    {
        same_text(self.name.as_str(), VALIDATOR_CONTAINER)
    }
}

impl PodCondition {
    /// Whether this condition records an eviction.
    pub fn is_eviction(&self) -> (r: bool)
        ensures
            r == is_eviction(*self),
    {
        match &self.reason {
            Some(reason) => same_text(reason.as_str(), CONDITION_EVICTED_REASON),
            None => false,
        }
    }
}

impl PodStatus {
    /// Computes the failure signature.
    pub fn failure_signature(&self) -> (r: bool)
        ensures
            r == failure_signature(*self),
    {
        let mut i: usize = 0;
        while i < self.init_containers.len()
            invariant
                i <= self.init_containers@.len(),
                forall|j: int| 0 <= j < i ==> !#[trigger] is_validator(self.init_containers@[j]),
            decreases self.init_containers@.len() - i,
        {
            if self.init_containers[i].is_validator() {
                return match self.init_containers[i].last_exit_code {
                    Some(code) => code == UNSUCCESSFUL_EXIT_CODE,
                    None => false,
                };
            }
            i += 1;
        }
        false
    }

    /// Whether some condition records an eviction.
    pub fn evicted(&self) -> (r: bool)
        ensures
            r == evicted(*self),
    {
        let mut i: usize = 0;
        while i < self.conditions.len()
            invariant
                i <= self.conditions@.len(),
                forall|j: int| 0 <= j < i ==> !#[trigger] is_eviction(self.conditions@[j]),
            decreases self.conditions@.len() - i,
        {
            if self.conditions[i].is_eviction() {
                return true;
            }
            i += 1;
        }
        false
    }
}

impl PodObservation {
    /// Computes the already-remediating signature.
    pub fn already_remediating(&self, remedy: Remedy) -> (r: bool)
        ensures
            r == already_remediating(*self, remedy),
    {
        match remedy {
            Remedy::Delete => self.deleting,
            Remedy::Evict => match &self.status {
                Some(status) => status.evicted(),
                None => false,
            },
        }
    }

    /// The reference under which this pod is queued.
    pub fn target(&self) -> (r: RemediationTarget)
        ensures
            r@ == target_of(*self),
    {
        RemediationTarget {
            namespace: copy_text(&self.namespace),
            name: copy_text(&self.name),
            uid: copy_text(&self.uid),
        }
    }
}

/// Builds the field selector of the watch on the pods of `node`.
pub fn node_field_selector(node: &str) -> (r: String)
    ensures
        r@ == node_selector(node@),
{
    let mut r = String::from_str(NODE_FIELD);
    r.append(node);
    r
}

} // verus!
