use infra_engine::errors::CommandError;
use infra_engine::errors::EngineError;
use infra_engine::events::InfrastructureStep;
use infra_engine::gke::BucketInfo;
use infra_engine::gke::ClusterOperation;
use infra_engine::gke::GkeClusterSource;
use infra_engine::gke::GkeCreateAction;
use infra_engine::gke::GkeCreateEvent;
use infra_engine::gke::GkeQoveryTerraformOutput;
use infra_engine::gke::ObjectStorageAction;
use infra_engine::gke::ObjectStorageEvent;
use infra_engine::gke::ServiceAction;
use infra_engine::gke::create_gke_cluster;
use infra_engine::gke::create_object_storage;
use infra_engine::gke::gke_operation_dispatch;

fn sample_cluster(is_dry_run: bool) -> GkeClusterSource {
    GkeClusterSource {
        gcp_credentials_json: "{\"type\":\"service_account\"}".to_string(),
        project_id: "proj".to_string(),
        region: "europe-west1".to_string(),
        cluster_kind: "Gke".to_string(),
        cloud_provider_name: "GCP".to_string(),
        cluster_long_id: "long-id".to_string(),
        grafana_admin_user: "admin".to_string(),
        grafana_admin_password: "SECRET-REDACTED".to_string(),
        organization_long_id: "org-long-id".to_string(),
        is_test_cluster: false,
        is_dry_run,
    }
}

fn sample_output() -> GkeQoveryTerraformOutput {
    GkeQoveryTerraformOutput {
        gke_cluster_public_hostname: "gke.example.com".to_string(),
        loki_logging_service_account_email: "loki@proj.iam".to_string(),
        kubeconfig: "apiVersion: v1\nkind: Config\n".to_string(),
    }
}

#[test]
fn test_gke_operation_dispatch() {
    assert_eq!(
        gke_operation_dispatch(ClusterOperation::Create),
        (InfrastructureStep::Create, ServiceAction::Create)
    );
    assert_eq!(
        gke_operation_dispatch(ClusterOperation::Pause),
        (InfrastructureStep::Pause, ServiceAction::Pause)
    );
    assert_eq!(
        gke_operation_dispatch(ClusterOperation::Delete),
        (InfrastructureStep::Delete, ServiceAction::Delete)
    );
    // An upgrade reports its progress as a creation.
    assert_eq!(
        gke_operation_dispatch(ClusterOperation::Upgrade),
        (InfrastructureStep::Upgrade, ServiceAction::Create)
    );
}

#[test]
fn test_object_storage_versioned_bucket_needs_no_update() {
    let (mut flow, action) = create_object_storage(vec!["logs-bucket".to_string()]);
    match action {
        ObjectStorageAction::CreateBucket { name } => assert_eq!(name, "logs-bucket"),
        other => panic!("expected a bucket creation, got {:?}", other),
    }
    let action = flow.on_event(ObjectStorageEvent::BucketCreated(Ok(BucketInfo {
        versioning_activated: true,
    })));
    assert!(matches!(action, ObjectStorageAction::Finished { result: Ok(()) }));
}

#[test]
fn test_object_storage_legacy_bucket_gets_versioning() {
    let (mut flow, _) = create_object_storage(vec!["logs-bucket".to_string()]);
    let action = flow.on_event(ObjectStorageEvent::BucketCreated(Ok(BucketInfo {
        versioning_activated: false,
    })));
    match action {
        ObjectStorageAction::UpdateBucketVersioning { name } => assert_eq!(name, "logs-bucket"),
        other => panic!("expected a versioning update, got {:?}", other),
    }
    let action = flow.on_event(ObjectStorageEvent::BucketUpdated(Ok(())));
    assert!(matches!(action, ObjectStorageAction::Finished { result: Ok(()) }));
}

#[test]
fn test_object_storage_failures_are_fatal() {
    let (mut flow, _) = create_object_storage(vec!["logs-bucket".to_string()]);
    let action = flow.on_event(ObjectStorageEvent::BucketCreated(Err(
        CommandError::new_from_safe_message("quota exceeded".to_string()),
    )));
    match action {
        ObjectStorageAction::Finished { result: Err(EngineError::ObjectStorage { message }) } => {
            assert_eq!(message, "quota exceeded");
        }
        other => panic!("expected a storage failure, got {:?}", other),
    }

    let (flow, action) = create_object_storage(vec![]);
    assert!(matches!(action, ObjectStorageAction::Finished { result: Ok(()) }));
    assert!(flow.buckets.is_empty());
}

#[test]
fn test_create_gke_cluster_full_run() {
    let (mut flow, action) = create_gke_cluster(sample_cluster(false));
    assert!(matches!(action, GkeCreateAction::CreateObjectStorage));

    let action = flow.on_event(GkeCreateEvent::StorageDone(Ok(())));
    assert!(matches!(action, GkeCreateAction::RenderInfraContext));
    let action = flow.on_event(GkeCreateEvent::ContextRendered(Ok(())));
    assert!(matches!(action, GkeCreateAction::TerraformCreate));

    let output = sample_output();
    let action = flow.on_event(GkeCreateEvent::TerraformApplied(Ok(output.clone())));
    match action {
        GkeCreateAction::UpdateKubeconfigFile { kubeconfig } => {
            assert_eq!(kubeconfig, output.kubeconfig);
        }
        other => panic!("expected the kubeconfig write, got {:?}", other),
    }
    let action = flow.on_event(GkeCreateEvent::KubeconfigUpdated(Ok(())));
    assert!(matches!(action, GkeCreateAction::ConfigureGcloud));

    // The cloud-CLI configuration is advisory: a failure changes nothing.
    let action = flow.on_event(GkeCreateEvent::GcloudConfigured(Err(
        CommandError::new_from_safe_message("gcloud missing".to_string()),
    )));
    assert!(matches!(action, GkeCreateAction::CheckWorkers));

    let action = flow.on_event(GkeCreateEvent::WorkersChecked(Ok(())));
    assert!(matches!(action, GkeCreateAction::ReadKubeconfigFile));

    let action =
        flow.on_event(GkeCreateEvent::KubeconfigRead(Ok(output.kubeconfig.clone())));
    match action {
        GkeCreateAction::UpdateVaultConfig { secrets } => {
            assert_eq!(secrets.project_id, "proj");
            assert_eq!(
                secrets.cluster_public_hostname.as_deref(),
                Some("gke.example.com")
            );
            // The vault copy carries the kubeconfig base64-encoded.
            let expected =
                base64::Engine::encode(&base64::engine::general_purpose::STANDARD, &output.kubeconfig);
            assert_eq!(secrets.kubeconfig_b64, Some(expected));
            assert_ne!(secrets.kubeconfig_b64.as_deref(), Some(output.kubeconfig.as_str()));
        }
        other => panic!("expected the vault copy, got {:?}", other),
    }

    // The vault copy is advisory too.
    let action = flow.on_event(GkeCreateEvent::VaultUpdated(Err(
        CommandError::new_from_safe_message("vault sealed".to_string()),
    )));
    assert!(matches!(action, GkeCreateAction::DeployCharts));
    let action = flow.on_event(GkeCreateEvent::ChartsDeployed(Ok(())));
    assert!(matches!(action, GkeCreateAction::Finished { result: Ok(()) }));
}

#[test]
fn test_create_gke_cluster_dry_run_stops_after_apply() {
    let (mut flow, _) = create_gke_cluster(sample_cluster(true));
    let _ = flow.on_event(GkeCreateEvent::StorageDone(Ok(())));
    let _ = flow.on_event(GkeCreateEvent::ContextRendered(Ok(())));
    let action = flow.on_event(GkeCreateEvent::TerraformApplied(Ok(sample_output())));
    assert!(matches!(action, GkeCreateAction::Finished { result: Ok(()) }));
}

#[test]
fn test_create_gke_cluster_worker_failure() {
    let (mut flow, _) = create_gke_cluster(sample_cluster(false));
    let _ = flow.on_event(GkeCreateEvent::StorageDone(Ok(())));
    let _ = flow.on_event(GkeCreateEvent::ContextRendered(Ok(())));
    let _ = flow.on_event(GkeCreateEvent::TerraformApplied(Ok(sample_output())));
    let _ = flow.on_event(GkeCreateEvent::KubeconfigUpdated(Ok(())));
    let _ = flow.on_event(GkeCreateEvent::GcloudConfigured(Ok(())));
    let action = flow.on_event(GkeCreateEvent::WorkersChecked(Err(
        CommandError::new_from_safe_message("node pool degraded".to_string()),
    )));
    match action {
        GkeCreateAction::Finished { result: Err(EngineError::K8sNodeNotReady { cause }) } => {
            assert_eq!(cause.safe_message, "node pool degraded");
        }
        other => panic!("expected the node failure, got {:?}", other),
    }
}

#[test]
fn test_create_gke_cluster_kubeconfig_read_failure() {
    let (mut flow, _) = create_gke_cluster(sample_cluster(false));
    let _ = flow.on_event(GkeCreateEvent::StorageDone(Ok(())));
    let _ = flow.on_event(GkeCreateEvent::ContextRendered(Ok(())));
    let _ = flow.on_event(GkeCreateEvent::TerraformApplied(Ok(sample_output())));
    let _ = flow.on_event(GkeCreateEvent::KubeconfigUpdated(Ok(())));
    let _ = flow.on_event(GkeCreateEvent::GcloudConfigured(Ok(())));
    let _ = flow.on_event(GkeCreateEvent::WorkersChecked(Ok(())));
    let action = flow.on_event(GkeCreateEvent::KubeconfigRead(Err(
        "permission denied".to_string(),
    )));
    match action {
        GkeCreateAction::Finished {
            result: Err(EngineError::CannotRetrieveClusterConfigFile { cause }),
        } => {
            assert_eq!(cause.safe_message, "Cannot read kubeconfig file: permission denied");
        }
        other => panic!("expected the read failure, got {:?}", other),
    }
}
