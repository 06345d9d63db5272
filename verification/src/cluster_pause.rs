//! Cluster-capacity pause orchestration.
//!
//! Pausing a cluster's compute capacity takes one of two mutually
//! exclusive branches, selected once per invocation.  When the cluster
//! uses a managed autoscaling controller, the whole pause is delegated to
//! that controller's own routine and nothing else runs.  On the legacy
//! node-group path, the orchestrator asks the sizing policy for each
//! group's pause capacity, makes a best-effort read of the cluster's pod
//! population to derive an eviction-aware timeout, re-renders the
//! infrastructure context with the worker node-group list emptied, and
//! finally directs a destructive apply targeted at node-group resources
//! only — the control plane is never touched, so configuration,
//! certificates and persistent state survive the pause.
//!
//! As with the workload executor, every decision is made here and every
//! external call is an order carried out by the unverified shell.

use vstd::prelude::*;
use vstd::pervasive::unreached;
use vstd::string::StringExecFns;

use crate::errors::EngineError;

verus! {

/// Desired sizing of one node group, as the sizing policy returns it.
#[derive(Clone, Debug)]
pub struct NodeGroupDesired {
    pub name: String,
    pub min_nodes: u32,
    pub max_nodes: u32,
    pub desired_nodes: u32,
}

/// What the timeout policy reads of one running pod.
#[derive(Clone, Copy, Debug)]
pub struct PodSummary {
    /// The pod's graceful-termination window, in seconds, when one is set.
    pub termination_grace_period_seconds: Option<u64>,
}

/// An order from the orchestrator to the unverified shell.
#[derive(Debug)]
pub enum ClusterPauseAction {
    /// Delegate the entire pause to the managed autoscaling controller's
    /// own routine; answer with [`ClusterPauseEvent::DelegateDone`].
    DelegateToAutoscaler,
    /// Ask the node-group sizing policy for every group's desired, minimum
    /// and maximum size under a pause; answer with
    /// [`ClusterPauseEvent::NodeGroupsComputed`].
    ComputeDesiredNodeGroups,
    /// Best-effort: list all pods cluster-wide; answer with
    /// [`ClusterPauseEvent::PodsListed`].  A failure here never aborts the
    /// pause.
    ListAllPods,
    /// Ask the timeout policy how long the pause may take for this pod
    /// population; answer with [`ClusterPauseEvent::TimeoutComputed`].
    ComputeTimeout { pods: Vec<PodSummary> },
    /// Re-render the infrastructure context with the node groups stored in
    /// the flow, the computed timeout, and the worker node-group list
    /// emptied; answer with [`ClusterPauseEvent::ContextRendered`].
    RenderContext { timeout_minutes: u64, workers_cleared: bool },
    /// Destructive apply restricted to the resource-address prefixes given
    /// by [`node_group_target_prefixes`]; answer with
    /// [`ClusterPauseEvent::ApplyDone`].
    TargetedApply,
    /// The pause is finished with this outcome; no event is expected.
    Finished { result: Result<(), EngineError> },
}

/// An observed result handed back by the shell.
#[derive(Debug)]
pub enum ClusterPauseEvent {
    DelegateDone(Result<(), EngineError>),
    NodeGroupsComputed(Result<Vec<NodeGroupDesired>, EngineError>),
    PodsListed(Result<Vec<PodSummary>, EngineError>),
    TimeoutComputed { timeout_minutes: u64, advisory: Option<String> },
    ContextRendered(Result<(), EngineError>),
    ApplyDone(Result<(), EngineError>),
}

/// Where the orchestrator stands between two orders.
#[derive(Clone, Copy, Debug)]
pub enum ClusterPausePhase {
    /// The delegated controller pause is outstanding.
    DelegateWait,
    /// The node-group sizing computation is outstanding.
    NodeGroupsWait,
    /// The best-effort pod listing is outstanding.
    PodListWait,
    /// The timeout derivation is outstanding.
    TimeoutWait,
    /// The context re-rendering is outstanding.
    RenderWait,
    /// The targeted apply is outstanding.
    ApplyWait,
    /// Terminal: the pause finished.
    Complete,
}

/// One cluster-capacity pause in flight.
pub struct ClusterPauseFlow {
    pub cluster_name: String,
    /// Whether the cluster's capacity is owned by the managed autoscaling
    /// controller.
    pub karpenter_enabled: bool,
    /// The sizing the policy returned; empty until then.  The shell reads
    /// these when rendering the context.
    pub node_groups: Vec<NodeGroupDesired>,
    /// The derived pause timeout; zero until computed.
    pub timeout_minutes: u64,
    pub phase: ClusterPausePhase,
}

/// The resource-address prefixes a targeted pause apply is limited to:
/// node-group resources only, never the control plane.
pub fn node_group_target_prefixes() -> (prefixes: Vec<String>)
    ensures
        prefixes@.len() == 1,
        prefixes@[0]@ == "aws_eks_node_group."@,
{
    let prefixes = vec![String::from_str("aws_eks_node_group.")];
    prefixes
}

/// Phases that belong to the legacy node-group branch.
pub open spec fn legacy_phase(phase: ClusterPausePhase) -> bool {
    match phase {
        ClusterPausePhase::NodeGroupsWait => true,
        ClusterPausePhase::PodListWait => true,
        ClusterPausePhase::TimeoutWait => true,
        ClusterPausePhase::RenderWait => true,
        ClusterPausePhase::ApplyWait => true,
        _ => false,
    }
}

/// Orders that belong to the legacy node-group branch.
pub open spec fn legacy_action(a: ClusterPauseAction) -> bool {
    match a {
        ClusterPauseAction::ComputeDesiredNodeGroups => true,
        ClusterPauseAction::ListAllPods => true,
        ClusterPauseAction::ComputeTimeout { .. } => true,
        ClusterPauseAction::RenderContext { .. } => true,
        ClusterPauseAction::TargetedApply => true,
        _ => false,
    }
}

/// Well-formedness: with the managed controller enabled the flow never
/// enters a legacy phase.
pub open spec fn cluster_pause_wf(m: ClusterPauseFlow) -> bool {
    m.karpenter_enabled ==> !legacy_phase(m.phase)
}

/// The event the orchestrator expects in its current phase.
pub open spec fn cluster_pause_expects(m: ClusterPauseFlow, e: ClusterPauseEvent) -> bool {
    match m.phase {
        ClusterPausePhase::DelegateWait => e is DelegateDone,
        ClusterPausePhase::NodeGroupsWait => e is NodeGroupsComputed,
        ClusterPausePhase::PodListWait => e is PodsListed,
        ClusterPausePhase::TimeoutWait => e is TimeoutComputed,
        ClusterPausePhase::RenderWait => e is ContextRendered,
        ClusterPausePhase::ApplyWait => e is ApplyDone,
        ClusterPausePhase::Complete => false,
    }
}

/// With the managed-autoscaling path enabled, no reachable state of the
/// flow stands in the legacy branch: the timeout computation and the
/// targeted apply can never be directed.
pub proof fn lemma_managed_path_never_legacy(m: ClusterPauseFlow)
    requires
        cluster_pause_wf(m),
        m.karpenter_enabled,
    ensures
        !legacy_phase(m.phase),
{
}

/// Begins the pause of a cluster's compute capacity.  With the managed
/// autoscaling controller enabled the one and only order is the
/// delegation; otherwise the legacy branch starts by sizing the node
/// groups for the pause.
pub fn pause_eks_cluster(cluster_name: &str, is_karpenter_enabled: bool) -> (r: (
    ClusterPauseFlow,
    ClusterPauseAction,
))
    ensures
        cluster_pause_wf(r.0),
        r.0.cluster_name@ == cluster_name@,
        r.0.karpenter_enabled == is_karpenter_enabled,
        is_karpenter_enabled ==> r.0.phase is DelegateWait && r.1 is DelegateToAutoscaler,
        !is_karpenter_enabled ==> r.0.phase is NodeGroupsWait && r.1 is ComputeDesiredNodeGroups,
        !legacy_action(r.1) || !is_karpenter_enabled,
{
    let flow = ClusterPauseFlow {
        cluster_name: String::from_str(cluster_name),
        karpenter_enabled: is_karpenter_enabled,
        node_groups: Vec::new(),
        timeout_minutes: 0,
        phase: if is_karpenter_enabled {
            ClusterPausePhase::DelegateWait
        } else {
            ClusterPausePhase::NodeGroupsWait
        },
    };
    let action = if is_karpenter_enabled {
        ClusterPauseAction::DelegateToAutoscaler
    } else {
        ClusterPauseAction::ComputeDesiredNodeGroups
    };
    (flow, action)
}

impl ClusterPauseFlow {
    /// Feeds one observed result back and returns the next order.
    ///
    /// The pod listing is the only best-effort read: its failure
    /// substitutes an empty pod population and the pause carries on.
    /// Every other failure — delegation, sizing, rendering, the targeted
    /// apply — is fatal and reported verbatim.
    pub fn on_event(&mut self, event: ClusterPauseEvent) -> (action: ClusterPauseAction)
        requires
            cluster_pause_wf(*old(self)),
            cluster_pause_expects(*old(self), event),
        ensures
            cluster_pause_wf(*final(self)),
            final(self).cluster_name == old(self).cluster_name,
            final(self).karpenter_enabled == old(self).karpenter_enabled,
            // With the managed controller, the only order left is the final report.
            old(self).karpenter_enabled ==> !legacy_action(action),
            // Delegation: the controller's outcome passes through verbatim.
            (event matches ClusterPauseEvent::DelegateDone(res)
                ==> final(self).phase is Complete
                    && action == (ClusterPauseAction::Finished { result: res })),
            // Sizing failure is fatal; success stores the sizing and moves
            // on to the best-effort pod read.
            (event matches ClusterPauseEvent::NodeGroupsComputed(res) ==> match res {
                Ok(groups) => final(self).phase is PodListWait
                    && final(self).node_groups == groups
                    && action is ListAllPods,
                Err(e) => final(self).phase is Complete
                    && action == (ClusterPauseAction::Finished { result: Err(e) }),
            }),
            // The pod read never fails the pause: an error substitutes an
            // empty population.
            (event matches ClusterPauseEvent::PodsListed(res)
                ==> final(self).phase is TimeoutWait && match res {
                Ok(pods) => action == (ClusterPauseAction::ComputeTimeout { pods }),
                Err(_) => action matches ClusterPauseAction::ComputeTimeout { pods }
                    && pods@.len() == 0,
            }),
            // The computed timeout is recorded and handed to the renderer,
            // with the worker list cleared; the advisory text changes nothing.
            (event matches ClusterPauseEvent::TimeoutComputed { timeout_minutes, advisory }
                ==> final(self).phase is RenderWait
                    && final(self).timeout_minutes == timeout_minutes
                    && final(self).node_groups == old(self).node_groups
                    && action == (ClusterPauseAction::RenderContext {
                        timeout_minutes,
                        workers_cleared: true,
                    })),
            // Rendering failure is fatal; success directs the targeted apply.
            (event matches ClusterPauseEvent::ContextRendered(res) ==> match res {
                Ok(_) => final(self).phase is ApplyWait && action is TargetedApply,
                Err(e) => final(self).phase is Complete
                    && action == (ClusterPauseAction::Finished { result: Err(e) }),
            }),
            // The apply's outcome concludes the pause verbatim.
            (event matches ClusterPauseEvent::ApplyDone(res)
                ==> final(self).phase is Complete
                    && action == (ClusterPauseAction::Finished { result: res })),
    {
        let ph = self.phase;
        match (ph, event) {
            (ClusterPausePhase::DelegateWait, ClusterPauseEvent::DelegateDone(res)) => {
                self.phase = ClusterPausePhase::Complete;
                ClusterPauseAction::Finished { result: res }
            },
            (ClusterPausePhase::NodeGroupsWait, ClusterPauseEvent::NodeGroupsComputed(res)) => {
                match res {
                    Ok(groups) => {
                        self.node_groups = groups;
                        self.phase = ClusterPausePhase::PodListWait;
                        ClusterPauseAction::ListAllPods
                    },
                    Err(e) => {
                        self.phase = ClusterPausePhase::Complete;
                        ClusterPauseAction::Finished { result: Err(e) }
                    },
                }
            },
            (ClusterPausePhase::PodListWait, ClusterPauseEvent::PodsListed(res)) => {
                self.phase = ClusterPausePhase::TimeoutWait;
                let pods = match res {
                    Ok(pods) => pods,
                    Err(_) => Vec::new(),
                };
                ClusterPauseAction::ComputeTimeout { pods }
            },
            (
                ClusterPausePhase::TimeoutWait,
                ClusterPauseEvent::TimeoutComputed { timeout_minutes, advisory: _ },
            ) => {
                self.phase = ClusterPausePhase::RenderWait;
                self.timeout_minutes = timeout_minutes;
                ClusterPauseAction::RenderContext { timeout_minutes, workers_cleared: true }
            },
            (ClusterPausePhase::RenderWait, ClusterPauseEvent::ContextRendered(res)) => {
                match res {
                    Ok(_) => {
                        self.phase = ClusterPausePhase::ApplyWait;
                        ClusterPauseAction::TargetedApply
                    },
                    Err(e) => {
                        self.phase = ClusterPausePhase::Complete;
                        ClusterPauseAction::Finished { result: Err(e) }
                    },
                }
            },
            (ClusterPausePhase::ApplyWait, ClusterPauseEvent::ApplyDone(res)) => {
                self.phase = ClusterPausePhase::Complete;
                ClusterPauseAction::Finished { result: res }
            },
            _ => unreached(),
        }
    }
}

} // verus!
