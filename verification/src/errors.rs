//! Error types of the engine.
//!
//! A workload scale operation fails in exactly two ways: the underlying
//! API reported an error, or the aggregate timeout elapsed.  A selector
//! matching zero resources is success, not an error.  Infrastructure
//! operations surface collaborator failures wrapped with enough context
//! for the caller to report them.

use vstd::prelude::*;

verus! {

/// A sanitized failure message, safe to show to a user.
#[derive(Clone, Debug)]
pub struct CommandError {
    pub safe_message: String,
}

impl CommandError {
    pub fn new_from_safe_message(message: String) -> (e: CommandError)
        ensures
            e.safe_message == message,
    {
        CommandError { safe_message: message }
    }
}

/// Failure of a workload pause/resume operation.
#[derive(Clone, Debug)]
pub enum ScaleError {
    /// The underlying API reported an error while listing or patching.
    ScaleOperationFailed { selector: String, namespace: String, message: String },
    /// The aggregate timeout elapsed before the operation finished.
    ScaleOperationTimedOut { selector: String, namespace: String, timeout_secs: u64 },
}

/// Failure of a cluster-level infrastructure operation.
#[derive(Clone, Debug)]
pub enum EngineError {
    /// A failure reported by an external collaborator, passed through verbatim.
    Collaborator { message: String },
    /// Kubernetes worker nodes did not become ready.
    K8sNodeNotReady { cause: CommandError },
    /// The cluster's kubeconfig could not be read back.
    CannotRetrieveClusterConfigFile { cause: CommandError },
    /// A managed object-storage bucket could not be created or updated.
    ObjectStorage { message: String },
    /// The Helm charts to deploy could not be prepared.
    HelmChartsSetup { cause: CommandError },
}

} // verus!
