//! Core logic of an infrastructure-lifecycle engine: the pause/resume
//! orchestration for managed Kubernetes clusters and their workloads.
//!
//! Workload-level pausing scales every resource matched by a label selector
//! down to zero (or suspends it, for schedule-driven kinds) and later
//! restores it; cluster-level pausing either delegates to a managed
//! autoscaling controller or shrinks a legacy node-group fleet through a
//! targeted infrastructure apply.  All decisions are made here, as verified
//! state machines over plain values; the network calls they direct are
//! performed by an unverified shell that feeds the observed results back in.

pub mod cluster_pause;
pub mod container_registry;
pub mod errors;
pub mod events;
pub mod executor;
pub mod gcp;
pub mod gke;
pub mod helm_charts;
pub mod karpenter_configuration;
pub mod kinds;
pub mod observe;
pub mod patch;
pub mod pause_action;
pub mod text;
