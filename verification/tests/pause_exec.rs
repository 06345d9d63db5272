use infra_engine::errors::ScaleError;
use infra_engine::events::EventDetails;
use infra_engine::events::InfrastructureStep;
use infra_engine::events::Stage;
use infra_engine::events::Transmitter;
use infra_engine::executor::ApiFailure;
use infra_engine::executor::ConvergeTarget;
use infra_engine::executor::ExecAction;
use infra_engine::executor::ExecEvent;
use infra_engine::executor::ListedResource;
use infra_engine::executor::pause_service;
use infra_engine::executor::unpause_service_if_needed;
use infra_engine::kinds::K8sResourceType;
use infra_engine::observe::ReplicaObservation;
use infra_engine::observe::SuspendObservation;
use infra_engine::observe::has_cron_job_suspended_value;
use infra_engine::observe::has_deployment_ready_replicas;
use infra_engine::observe::has_statefulset_ready_replicas;
use infra_engine::patch::PatchSpec;
use infra_engine::patch::get_patch_merge;
use infra_engine::patch::get_patch_suspend;
use infra_engine::patch::suspend_field_path;
use infra_engine::pause_action::PauseServiceAction;
use infra_engine::pause_action::ScaleOutcome;

fn sample_event_details() -> EventDetails {
    EventDetails::new(
        "org".to_string(),
        "cluster".to_string(),
        "exec-1".to_string(),
        Stage::Infrastructure(InfrastructureStep::Pause),
        Transmitter::CloudProvider { long_id: "id".to_string(), name: "gcp".to_string() },
    )
}

fn resource(ns: &str, name: &str, replicas: Option<u32>) -> ListedResource {
    ListedResource {
        namespace: Some(ns.to_string()),
        name: Some(name.to_string()),
        status_replicas: replicas,
    }
}

#[test]
fn test_pause_noop_kinds() {
    for kind in [K8sResourceType::DaemonSet, K8sResourceType::Job] {
        let (machine, action) = pause_service("ns", "app=web", 0, kind, false);
        assert!(matches!(action, ExecAction::Finished { result: Ok(()) }));
        assert!(matches!(
            machine.phase,
            infra_engine::executor::ExecPhase::Complete
        ));
        let (_, action) = unpause_service_if_needed("ns", "app=web", kind, false);
        assert!(matches!(action, ExecAction::Finished { result: Ok(()) }));
    }
}

#[test]
fn test_pause_empty_selector_succeeds() {
    // Scalable kind: empty listing leads straight to the pod poll, which
    // converges at once on the desired count of zero.
    let (mut machine, action) =
        pause_service("ns", "app=nothing", 0, K8sResourceType::Deployment, false);
    assert!(matches!(action, ExecAction::List));
    let action = machine.on_event(ExecEvent::Listed(Ok(vec![])));
    assert!(matches!(action, ExecAction::CountPods));
    let action = machine.on_event(ExecEvent::PodsCounted(Ok(0)));
    assert!(matches!(action, ExecAction::Finished { result: Ok(()) }));

    // Suspend strategy: empty listing is immediate success.
    let (mut machine, action) =
        pause_service("ns", "app=nothing", 0, K8sResourceType::CronJob, false);
    assert!(matches!(action, ExecAction::List));
    let action = machine.on_event(ExecEvent::Listed(Ok(vec![])));
    assert!(matches!(action, ExecAction::Finished { result: Ok(()) }));

    // Resume: empty listing is immediate success.
    let (mut machine, _) =
        unpause_service_if_needed("ns", "app=nothing", K8sResourceType::StateFulSet, false);
    let action = machine.on_event(ExecEvent::Listed(Ok(vec![])));
    assert!(matches!(action, ExecAction::Finished { result: Ok(()) }));
}

#[test]
fn test_scale_deployment_down() {
    let (mut machine, action) =
        pause_service("ns", "app=web", 0, K8sResourceType::Deployment, false);
    assert!(matches!(action, ExecAction::List));
    assert_eq!(machine.list_filter.label_selector, "app=web");

    // One complete resource, one listed without a name (skipped).
    let listed = vec![
        resource("ns", "web-a", Some(3)),
        ListedResource { namespace: Some("ns".to_string()), name: None, status_replicas: None },
    ];
    let action = machine.on_event(ExecEvent::Listed(Ok(listed)));
    match action {
        ExecAction::ApplyPatch { namespace, name, patch } => {
            assert_eq!(namespace, "ns");
            assert_eq!(name, "web-a");
            assert!(matches!(patch, PatchSpec::ScaleMerge { replicas: 0 }));
        }
        other => panic!("expected a patch, got {:?}", other),
    }
    let action = machine.on_event(ExecEvent::Patched(Ok(())));
    match action {
        ExecAction::AwaitCondition { name, condition, .. } => {
            assert_eq!(name, "web-a");
            assert!(matches!(condition, ConvergeTarget::ReadyReplicas(0)));
        }
        other => panic!("expected a condition wait, got {:?}", other),
    }
    // The per-resource wait is advisory: a failure there changes nothing.
    let action = machine.on_event(ExecEvent::ConditionAwaited(Err(ApiFailure {
        message: "timed out".to_string(),
    })));
    assert!(matches!(action, ExecAction::CountPods));
    // Pods still terminating: sleep, poll again, then converge.
    let action = machine.on_event(ExecEvent::PodsCounted(Ok(2)));
    assert!(matches!(action, ExecAction::Sleep { seconds: 10 }));
    let action = machine.on_event(ExecEvent::Slept);
    assert!(matches!(action, ExecAction::CountPods));
    let action = machine.on_event(ExecEvent::PodsCounted(Ok(0)));
    assert!(matches!(action, ExecAction::Finished { result: Ok(()) }));
}

#[test]
fn test_pause_api_error_fails_operation() {
    let (mut machine, _) =
        pause_service("ns", "app=web", 0, K8sResourceType::StateFulSet, false);
    let action = machine.on_event(ExecEvent::Listed(Err(ApiFailure {
        message: "forbidden".to_string(),
    })));
    let failure = match action {
        ExecAction::Finished { result: Err(f) } => f,
        other => panic!("expected a failure, got {:?}", other),
    };
    assert_eq!(failure.message, "forbidden");

    let details = sample_event_details();
    let action = PauseServiceAction::new("app=web".to_string(), true, 120, details);
    let concluded = action.conclude("ns", ScaleOutcome::Completed(Err(failure)));
    match concluded {
        Err(ScaleError::ScaleOperationFailed { selector, namespace, message }) => {
            assert_eq!(selector, "app=web");
            assert_eq!(namespace, "ns");
            assert_eq!(message, "forbidden");
        }
        other => panic!("expected a scale failure, got {:?}", other),
    }
}

#[test]
fn test_pause_timeout_error() {
    let details = sample_event_details();
    let action = PauseServiceAction::new("app=web".to_string(), false, 30, details);
    assert!(matches!(action.k8s_resource_type, K8sResourceType::Deployment));
    let concluded = action.conclude("ns", ScaleOutcome::TimedOut);
    match concluded {
        Err(ScaleError::ScaleOperationTimedOut { selector, namespace, timeout_secs }) => {
            assert_eq!(selector, "app=web");
            assert_eq!(namespace, "ns");
            assert_eq!(timeout_secs, 30);
        }
        other => panic!("expected a timeout, got {:?}", other),
    }
    let ok = action.conclude("ns", ScaleOutcome::Completed(Ok(())));
    assert!(ok.is_ok());
}

#[test]
fn test_unpause_resume_guard() {
    // A stateful set observed at two replicas is left untouched; only
    // the ones observed at zero (or with no status) are re-scaled, to
    // exactly one replica.
    let (mut machine, action) =
        unpause_service_if_needed("ns", "app=db", K8sResourceType::StateFulSet, false);
    assert!(matches!(action, ExecAction::List));
    let listed = vec![
        resource("ns", "running", Some(2)),
        resource("ns", "paused", Some(0)),
        resource("ns", "no-status", None),
    ];
    let action = machine.on_event(ExecEvent::Listed(Ok(listed)));
    match action {
        ExecAction::ApplyPatch { name, patch, .. } => {
            assert_eq!(name, "paused");
            assert!(matches!(patch, PatchSpec::ScaleMerge { replicas: 1 }));
        }
        other => panic!("expected a patch, got {:?}", other),
    }
    // Resume has no per-resource wait: the next patch follows at once.
    let action = machine.on_event(ExecEvent::Patched(Ok(())));
    match action {
        ExecAction::ApplyPatch { name, patch, .. } => {
            assert_eq!(name, "no-status");
            assert!(matches!(patch, PatchSpec::ScaleMerge { replicas: 1 }));
        }
        other => panic!("expected a patch, got {:?}", other),
    }
    // No pod-count poll on resume: done right after the last patch.
    let action = machine.on_event(ExecEvent::Patched(Ok(())));
    assert!(matches!(action, ExecAction::Finished { result: Ok(()) }));
}

#[test]
fn test_scale_cron_job_round_trip() {
    // Pause: suspend goes true.
    let (mut machine, _) = pause_service("ns", "app=cron", 0, K8sResourceType::CronJob, false);
    let action = machine.on_event(ExecEvent::Listed(Ok(vec![resource("ns", "report", None)])));
    match action {
        ExecAction::ApplyPatch { name, patch, .. } => {
            assert_eq!(name, "report");
            assert!(matches!(patch, PatchSpec::SuspendReplace { value: true }));
        }
        other => panic!("expected a patch, got {:?}", other),
    }
    let action = machine.on_event(ExecEvent::Patched(Ok(())));
    match action {
        ExecAction::AwaitCondition { condition, .. } => {
            assert!(matches!(condition, ConvergeTarget::Suspended(true)));
        }
        other => panic!("expected a condition wait, got {:?}", other),
    }
    // No pod-count convergence for cron jobs.
    let action = machine.on_event(ExecEvent::ConditionAwaited(Ok(())));
    assert!(matches!(action, ExecAction::Finished { result: Ok(()) }));

    // Resume: suspend goes false, unconditionally.
    let (mut machine, _) =
        unpause_service_if_needed("ns", "app=cron", K8sResourceType::CronJob, false);
    let action = machine.on_event(ExecEvent::Listed(Ok(vec![resource("ns", "report", Some(4))])));
    match action {
        ExecAction::ApplyPatch { name, patch, .. } => {
            assert_eq!(name, "report");
            assert!(matches!(patch, PatchSpec::SuspendReplace { value: false }));
        }
        other => panic!("expected a patch, got {:?}", other),
    }
    let action = machine.on_event(ExecEvent::Patched(Ok(())));
    assert!(matches!(action, ExecAction::Finished { result: Ok(()) }));
}

#[test]
fn test_pause_resume_round_trip_deployment() {
    // Pause: the deployment is scaled to zero, its ready-replica target
    // is zero, and the pod population must reach zero before success.
    let (mut machine, _) = pause_service("ns", "app=web", 0, K8sResourceType::Deployment, false);
    let action = machine.on_event(ExecEvent::Listed(Ok(vec![resource("ns", "web", Some(3))])));
    match action {
        ExecAction::ApplyPatch { patch, .. } => {
            assert!(matches!(patch, PatchSpec::ScaleMerge { replicas: 0 }));
        }
        other => panic!("expected a patch, got {:?}", other),
    }
    let action = machine.on_event(ExecEvent::Patched(Ok(())));
    assert!(matches!(
        action,
        ExecAction::AwaitCondition { condition: ConvergeTarget::ReadyReplicas(0), .. }
    ));
    let action = machine.on_event(ExecEvent::ConditionAwaited(Ok(())));
    assert!(matches!(action, ExecAction::CountPods));
    let action = machine.on_event(ExecEvent::PodsCounted(Ok(0)));
    assert!(matches!(action, ExecAction::Finished { result: Ok(()) }));

    // Resume: the paused deployment is observed at zero replicas and
    // re-scaled to exactly one — not its pre-pause count of three.
    let (mut machine, _) =
        unpause_service_if_needed("ns", "app=web", K8sResourceType::Deployment, false);
    let action = machine.on_event(ExecEvent::Listed(Ok(vec![resource("ns", "web", Some(0))])));
    match action {
        ExecAction::ApplyPatch { patch, .. } => {
            assert!(matches!(patch, PatchSpec::ScaleMerge { replicas: 1 }));
        }
        other => panic!("expected a patch, got {:?}", other),
    }
    let action = machine.on_event(ExecEvent::Patched(Ok(())));
    assert!(matches!(action, ExecAction::Finished { result: Ok(()) }));
}

#[test]
fn test_pause_is_idempotent_per_listing() {
    // Two pauses in sequence issue the same patch towards the same
    // converged state: replica count zero.
    for _ in 0..2 {
        let (mut machine, _) =
            pause_service("ns", "app=web", 0, K8sResourceType::Deployment, false);
        let action = machine.on_event(ExecEvent::Listed(Ok(vec![resource(
            "ns",
            "web-a",
            Some(0),
        )])));
        match action {
            ExecAction::ApplyPatch { patch, .. } => {
                assert!(matches!(patch, PatchSpec::ScaleMerge { replicas: 0 }));
            }
            other => panic!("expected a patch, got {:?}", other),
        }
    }
}

#[test]
fn test_convergence_predicates() {
    // Absence counts as zero ready replicas.
    assert!(has_deployment_ready_replicas(None, 0));
    assert!(!has_deployment_ready_replicas(None, 1));
    let zero = ReplicaObservation { ready_replicas: None };
    assert!(has_deployment_ready_replicas(Some(&zero), 0));
    let three = ReplicaObservation { ready_replicas: Some(3) };
    assert!(has_deployment_ready_replicas(Some(&three), 3));
    assert!(!has_deployment_ready_replicas(Some(&three), 0));
    assert!(has_statefulset_ready_replicas(Some(&three), 3));
    assert!(!has_statefulset_ready_replicas(None, 2));

    // A missing suspend flag never matches, either way.
    assert!(!has_cron_job_suspended_value(None, true));
    assert!(!has_cron_job_suspended_value(None, false));
    let unset = SuspendObservation { suspend: None };
    assert!(!has_cron_job_suspended_value(Some(&unset), false));
    let on = SuspendObservation { suspend: Some(true) };
    assert!(has_cron_job_suspended_value(Some(&on), true));
    assert!(!has_cron_job_suspended_value(Some(&on), false));
}

#[test]
fn test_patch_builders() {
    let (filter, patch) = get_patch_merge("app=web", 0);
    assert_eq!(filter.label_selector, "app=web");
    assert!(matches!(patch, PatchSpec::ScaleMerge { replicas: 0 }));
    let (_, patch) = get_patch_merge("app=web", 1);
    assert!(matches!(patch, PatchSpec::ScaleMerge { replicas: 1 }));

    let (filter, patch) = get_patch_suspend("app=cron", true);
    assert_eq!(filter.label_selector, "app=cron");
    assert!(matches!(patch, PatchSpec::SuspendReplace { value: true }));

    let path = suspend_field_path();
    assert_eq!(path, vec!["spec".to_string(), "suspend".to_string()]);
}

#[test]
fn test_lifecycle_hooks_are_noops() {
    let action = PauseServiceAction::new_with_resource_type(
        "app=web".to_string(),
        K8sResourceType::CronJob,
        60,
        sample_event_details(),
        true,
    );
    assert!(action.is_cluster_wide_resources_allowed);
    assert_eq!(action.timeout_secs, 60);
    assert!(action.on_create().is_ok());
    assert!(action.on_delete().is_ok());
    assert!(action.on_restart().is_ok());
}

#[test]
fn test_on_pause_and_unpause_configuration() {
    let action = PauseServiceAction::new_with_resource_type(
        "app=web".to_string(),
        K8sResourceType::Deployment,
        60,
        sample_event_details(),
        false,
    );
    let (machine, first) = action.on_pause("target-ns");
    assert!(matches!(first, ExecAction::List));
    assert_eq!(machine.desired_size, 0);
    assert_eq!(machine.namespace, "target-ns");
    assert_eq!(machine.list_filter.label_selector, "app=web");

    let (machine, first) = action.unpause_if_needed("target-ns");
    assert!(matches!(first, ExecAction::List));
    assert_eq!(machine.desired_size, 1);
}
