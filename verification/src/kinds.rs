//! The closed set of workload kinds the engine can pause and resume, and
//! the policy table deciding how each kind is treated.
//!
//! `Deployment` and `StateFulSet` are scaled through their replica count;
//! `CronJob` is suspended through its schedule flag; `DaemonSet` and `Job`
//! have no meaningful desired-replica concept, so pausing and resuming
//! them is defined to be a no-op.

use vstd::prelude::*;

verus! {

/// A Kubernetes workload kind subject to pause/resume.
#[derive(Clone, Copy, Debug, PartialEq, Eq, Structural)]
pub enum K8sResourceType {
    StateFulSet,
    Deployment,
    CronJob,
    DaemonSet,
    Job,
}

/// Kinds on which pause and resume are defined to do nothing.
pub open spec fn is_noop_kind(kind: K8sResourceType) -> bool {
    kind == K8sResourceType::DaemonSet || kind == K8sResourceType::Job
}

/// Kinds paused by scaling their replica count to a target value.
pub open spec fn uses_replica_scaling(kind: K8sResourceType) -> bool {
    kind == K8sResourceType::Deployment || kind == K8sResourceType::StateFulSet
}

/// Kinds paused by setting their schedule-suspend flag.
pub open spec fn uses_suspend_flag(kind: K8sResourceType) -> bool {
    kind == K8sResourceType::CronJob
}

impl K8sResourceType {
    /// Whether pause and resume leave this kind untouched.
    pub fn is_pause_noop(&self) -> (b: bool)
        ensures
            b == is_noop_kind(*self),
    {
        match self {
            K8sResourceType::DaemonSet => true,
            K8sResourceType::Job => true,
            _ => false,
        }
    }

    /// Whether this kind is paused through its replica count.
    pub fn is_replica_scaled(&self) -> (b: bool)
        ensures
            b == uses_replica_scaling(*self),
    {
        match self {
            K8sResourceType::Deployment => true,
            K8sResourceType::StateFulSet => true,
            _ => false,
        }
    }

    /// Whether this kind is paused through its suspend flag.
    pub fn is_suspendable(&self) -> (b: bool)
        ensures
            b == uses_suspend_flag(*self),
    {
        match self {
            K8sResourceType::CronJob => true,
            _ => false,
        }
    }
}

/// Every kind falls under exactly one of the three policies.
pub proof fn lemma_policy_table_total(kind: K8sResourceType)
    ensures
        is_noop_kind(kind) || uses_replica_scaling(kind) || uses_suspend_flag(kind),
        !(is_noop_kind(kind) && uses_replica_scaling(kind)),
        !(is_noop_kind(kind) && uses_suspend_flag(kind)),
        !(uses_replica_scaling(kind) && uses_suspend_flag(kind)),
{
}

} // verus!
