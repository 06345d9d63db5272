//! Convergence predicates over a single workload's observed state.
//!
//! Each predicate decides, from one status read of one resource, whether
//! that resource has finished converging to its target.  A missing
//! resource, status or field counts as zero ready replicas for scalable
//! kinds, and as "not equal" for the suspend flag.

use vstd::prelude::*;

verus! {

/// What one status read of a scalable workload reports.
#[derive(Clone, Copy, Debug)]
pub struct ReplicaObservation {
    /// `status.ready_replicas`; absent when no replica is ready yet.
    pub ready_replicas: Option<u32>,
}

/// What one spec read of a schedule-suspendable workload reports.
#[derive(Clone, Copy, Debug)]
pub struct SuspendObservation {
    /// `spec.suspend`; absent when the field was never set.
    pub suspend: Option<bool>,
}

/// The ready-replica count an observation stands for: a missing
/// resource, status or field counts as zero.
pub open spec fn observed_ready_replicas(obs: Option<ReplicaObservation>) -> nat {
    match obs {
        None => 0,
        Some(o) => match o.ready_replicas {
            None => 0,
            Some(r) => r as nat,
        },
    }
}

/// The suspend flag an observation stands for, when one was observed.
pub open spec fn observed_suspend(obs: Option<SuspendObservation>) -> Option<bool> {
    match obs {
        None => None,
        Some(o) => o.suspend,
    }
}

/// True iff the observed deployment reports exactly `nb_ready_replicas`
/// ready replicas.
pub fn has_deployment_ready_replicas(
    deployment: Option<&ReplicaObservation>,
    nb_ready_replicas: usize,
) -> (b: bool)
    ensures
        b == (observed_ready_replicas(match deployment {
            None => None,
            Some(o) => Some(*o),
        }) == nb_ready_replicas),
{
    let observed: usize = match deployment {
        None => 0,
        Some(o) => match o.ready_replicas {
            None => 0,
            Some(r) => r as usize,
        },
    };
    observed == nb_ready_replicas
}

/// True iff the observed stateful set reports exactly `nb_ready_replicas`
/// ready replicas.
pub fn has_statefulset_ready_replicas(
    statefulset: Option<&ReplicaObservation>,
    nb_ready_replicas: usize,
) -> (b: bool)
    ensures
        b == (observed_ready_replicas(match statefulset {
            None => None,
            Some(o) => Some(*o),
        }) == nb_ready_replicas),
{
    let observed: usize = match statefulset {
        None => 0,
        Some(o) => match o.ready_replicas {
            None => 0,
            Some(r) => r as usize,
        },
    };
    observed == nb_ready_replicas
}

/// True iff the observed cron job's suspend flag is present and equals
/// `suspend`; a missing resource or field never matches.
pub fn has_cron_job_suspended_value(
    cron_job: Option<&SuspendObservation>,
    suspend: bool,
) -> (b: bool)
    ensures
        b == (observed_suspend(match cron_job {
            None => None,
            Some(o) => Some(*o),
        }) == Some(suspend)),
{
    match cron_job {
        None => false,
        Some(o) => match o.suspend {
            None => false,
            Some(v) => v == suspend,
        },
    }
}

} // verus!
