//! The pause/resume action wired into the deployment pipeline.
//!
//! A [`PauseServiceAction`] owns the target selector, resource kind,
//! cluster-wide flag and aggregate timeout.  The pipeline invokes it
//! through four lifecycle hooks; only the pause hook acts, by starting a
//! selector-scoped execution that the unverified shell then drives under
//! the configured timeout.  [`PauseServiceAction::conclude`] translates
//! how that run ended into the action's typed errors.

use vstd::prelude::*;
use vstd::string::StringExecFns;

use crate::errors::ScaleError;
use crate::events::EventDetails;
use crate::executor::ApiFailure;
use crate::executor::ExecAction;
use crate::executor::ScaleExecution;
use crate::executor::pause_service;
use crate::executor::unpause_service_if_needed;
use crate::kinds::K8sResourceType;

verus! {

/// How a run of an execution under the aggregate timeout ended.
#[derive(Debug)]
pub enum ScaleOutcome {
    /// The execution finished, with the result its final order carried.
    Completed(Result<(), ApiFailure>),
    /// The timeout elapsed while some step was still in flight; the
    /// operation was abandoned where it stood, with nothing rolled back.
    TimedOut,
}

/// A pause/resume step of the deployment pipeline, configured once and
/// reused across calls; the namespace is supplied per call.
pub struct PauseServiceAction {
    pub selector: String,
    pub k8s_resource_type: K8sResourceType,
    pub event_details: EventDetails,
    /// Aggregate deadline for one pause or resume call, in seconds.
    pub timeout_secs: u64,
    pub is_cluster_wide_resources_allowed: bool,
}

impl PauseServiceAction {
    /// A namespaced action over the replica-scaling strategy: stateful
    /// targets are treated as stateful sets, all others as deployments.
    pub fn new(
        selector: String,
        is_stateful: bool,
        timeout_secs: u64,
        event_details: EventDetails,
    ) -> (action: PauseServiceAction)
        ensures
            action.selector == selector,
            action.k8s_resource_type == if is_stateful {
                K8sResourceType::StateFulSet
            } else {
                K8sResourceType::Deployment
            },
            action.timeout_secs == timeout_secs,
            action.event_details == event_details,
            action.is_cluster_wide_resources_allowed == false,
    {
        PauseServiceAction {
            selector,
            k8s_resource_type: if is_stateful {
                K8sResourceType::StateFulSet
            } else {
                K8sResourceType::Deployment
            },
            timeout_secs,
            event_details,
            is_cluster_wide_resources_allowed: false,
        }
    }

    /// An action over an explicit resource kind and listing scope.
    pub fn new_with_resource_type(
        selector: String,
        k8s_resource_type: K8sResourceType,
        timeout_secs: u64,
        event_details: EventDetails,
        is_cluster_wide_resources_allowed: bool,
    ) -> (action: PauseServiceAction)
        ensures
            action.selector == selector,
            action.k8s_resource_type == k8s_resource_type,
            action.timeout_secs == timeout_secs,
            action.event_details == event_details,
            action.is_cluster_wide_resources_allowed == is_cluster_wide_resources_allowed,
    {
        PauseServiceAction {
            selector,
            k8s_resource_type,
            timeout_secs,
            event_details,
            is_cluster_wide_resources_allowed,
        }
    }

    /// Begins the pause of this action's target in `namespace`: desired
    /// size zero, suspend for schedule-driven kinds.  The shell drives
    /// the returned execution under `timeout_secs` and reports how it
    /// ended to [`PauseServiceAction::conclude`].
    pub fn on_pause(&self, namespace: &str) -> (r: (ScaleExecution, ExecAction))
        ensures
            crate::executor::exec_wf(r.0),
            r.0.kind == self.k8s_resource_type,
            r.0.mode == crate::executor::ScaleMode::Pause,
            r.0.desired_size == 0,
            r.0.namespace@ == namespace@,
            r.0.list_filter.label_selector@ == self.selector@,
            r.0.cluster_wide == self.is_cluster_wide_resources_allowed,
            crate::kinds::is_noop_kind(self.k8s_resource_type) ==> r.0.phase is Complete
                && r.1 == (ExecAction::Finished { result: Ok::<(), ApiFailure>(()) }),
            !crate::kinds::is_noop_kind(self.k8s_resource_type) ==> r.0.phase is Listing
                && r.1 is List,
    {
        pause_service(
            namespace,
            self.selector.as_str(),
            0,
            self.k8s_resource_type,
            self.is_cluster_wide_resources_allowed,
        )
    }

    /// Begins the resume of this action's target in `namespace`: only
    /// resources observed at zero replicas are re-scaled, to exactly one
    /// replica; schedule-driven kinds are unconditionally un-suspended.
    pub fn unpause_if_needed(&self, namespace: &str) -> (r: (ScaleExecution, ExecAction))
        ensures
            crate::executor::exec_wf(r.0),
            r.0.kind == self.k8s_resource_type,
            r.0.mode == crate::executor::ScaleMode::ResumeIfNeeded,
            r.0.desired_size == 1,
            r.0.namespace@ == namespace@,
            r.0.list_filter.label_selector@ == self.selector@,
            r.0.cluster_wide == self.is_cluster_wide_resources_allowed,
            crate::kinds::is_noop_kind(self.k8s_resource_type) ==> r.0.phase is Complete
                && r.1 == (ExecAction::Finished { result: Ok::<(), ApiFailure>(()) }),
            !crate::kinds::is_noop_kind(self.k8s_resource_type) ==> r.0.phase is Listing
                && r.1 is List,
    {
        unpause_service_if_needed(
            namespace,
            self.selector.as_str(),
            self.k8s_resource_type,
            self.is_cluster_wide_resources_allowed,
        )
    }

    /// Translates how a run under the timeout ended into this action's
    /// result: success passes through; an API failure becomes
    /// `ScaleOperationFailed` carrying the selector, the namespace and
    /// the underlying message; an elapsed timeout becomes
    /// `ScaleOperationTimedOut` carrying the same context plus the
    /// configured timeout.  Nothing is rolled back in either failure
    /// case.
    pub fn conclude(&self, namespace: &str, outcome: ScaleOutcome) -> (r: Result<(), ScaleError>)
        ensures
            r is Ok <==> (outcome matches ScaleOutcome::Completed(res) && res is Ok),
            (outcome matches ScaleOutcome::Completed(Err(f)) ==> (r matches Err(e)
                && e matches ScaleError::ScaleOperationFailed { selector, namespace: ns, message }
                && selector@ == self.selector@
                && ns@ == namespace@
                && message == f.message)),
            (outcome is TimedOut ==> (r matches Err(e)
                && e matches ScaleError::ScaleOperationTimedOut { selector, namespace: ns, timeout_secs }
                && selector@ == self.selector@
                && ns@ == namespace@
                && timeout_secs == self.timeout_secs)),
    {
        match outcome {
            ScaleOutcome::Completed(Ok(())) => Ok(()),
            ScaleOutcome::Completed(Err(f)) => Err(ScaleError::ScaleOperationFailed {
                selector: self.selector.clone(),
                namespace: String::from_str(namespace),
                message: f.message,
            }),
            ScaleOutcome::TimedOut => Err(ScaleError::ScaleOperationTimedOut {
                selector: self.selector.clone(),
                namespace: String::from_str(namespace),
                timeout_secs: self.timeout_secs,
            }),
        }
    }

    /// Creation hook: pausing is never initiated at creation; always
    /// succeeds without touching anything.
    pub fn on_create(&self) -> (r: Result<(), ScaleError>)
        ensures
            r is Ok,
    {
        Ok(())
    }

    /// Deletion hook: deletion bypasses graceful pause; always succeeds
    /// without touching anything.
    pub fn on_delete(&self) -> (r: Result<(), ScaleError>)
        ensures
            r is Ok,
    {
        Ok(())
    }

    /// Restart hook: a restart does not resume a paused service; always
    /// succeeds without touching anything.
    pub fn on_restart(&self) -> (r: Result<(), ScaleError>)
        ensures
            r is Ok,
    {
        Ok(())
    }
}

} // verus!
