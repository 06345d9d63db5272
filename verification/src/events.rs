//! Event context attached to engine operations, used to report progress
//! and failures of an infrastructure step to the caller.

use vstd::prelude::*;

verus! {

/// The infrastructure step an operation belongs to.
#[derive(Clone, Copy, Debug, PartialEq, Eq, Structural)]
pub enum InfrastructureStep {
    Create,
    Pause,
    Delete,
    Upgrade,
}

/// The stage a reported event belongs to.
#[derive(Clone, Copy, Debug, PartialEq, Eq, Structural)]
pub enum Stage {
    Infrastructure(InfrastructureStep),
}

/// The component an event originates from.
#[derive(Clone, Debug)]
pub enum Transmitter {
    CloudProvider { long_id: String, name: String },
}

/// Identification carried by every reported event: which organization and
/// cluster the operation acts on, and during which execution and stage.
#[derive(Clone, Debug)]
pub struct EventDetails {
    pub organization_id: String,
    pub cluster_id: String,
    pub execution_id: String,
    pub stage: Stage,
    pub transmitter: Transmitter,
}

impl EventDetails {
    pub fn new(
        organization_id: String,
        cluster_id: String,
        execution_id: String,
        stage: Stage,
        transmitter: Transmitter,
    ) -> (details: EventDetails)
        ensures
            details.organization_id == organization_id,
            details.cluster_id == cluster_id,
            details.execution_id == execution_id,
            details.stage == stage,
            details.transmitter == transmitter,
    {
        EventDetails { organization_id, cluster_id, execution_id, stage, transmitter }
    }
}

} // verus!
