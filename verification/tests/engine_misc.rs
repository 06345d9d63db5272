use infra_engine::errors::CommandError;
use infra_engine::errors::EngineError;
use infra_engine::events::EventDetails;
use infra_engine::events::InfrastructureStep;
use infra_engine::events::Stage;
use infra_engine::events::Transmitter;
use infra_engine::gcp::Context;
use infra_engine::gcp::Google;
use infra_engine::gcp::TerraformStateCredentials;
use infra_engine::gcp::to_short_id;
use infra_engine::helm_charts::AwsEksQoveryTerraformOutput;
use infra_engine::helm_charts::ClusterChartSource;
use infra_engine::helm_charts::EksHelmsDeployment;
use infra_engine::helm_charts::EngineLocation;
use infra_engine::helm_charts::HelmInfraContext;
use infra_engine::karpenter_configuration::CommonChart;
use infra_engine::karpenter_configuration::CpuArchitecture;
use infra_engine::kinds::K8sResourceType;
use infra_engine::text::u64_to_string;

#[test]
fn test_u64_to_string_exact_values() {
    assert_eq!(u64_to_string(0), "0");
    assert_eq!(u64_to_string(7), "7");
    assert_eq!(u64_to_string(10), "10");
    assert_eq!(u64_to_string(42), "42");
    assert_eq!(u64_to_string(400), "400");
    assert_eq!(u64_to_string(1234567890), "1234567890");
    assert_eq!(u64_to_string(u64::MAX), "18446744073709551615");
}

#[test]
fn test_to_short_id() {
    assert_eq!(to_short_id("1234567890"), "12345678");
    assert_eq!(to_short_id("abc"), "abc");
    assert_eq!(to_short_id(""), "");
}

#[test]
fn test_google_provider_identity() {
    let context = Context {
        organization_long_id: "org-long".to_string(),
        cluster_long_id: "cluster-long".to_string(),
        execution_id: "exec-7".to_string(),
    };
    let credentials = TerraformStateCredentials {
        access_key_id: "ak".to_string(),
        secret_access_key: "SECRET-REDACTED".to_string(),
        region: "eu".to_string(),
    };
    let google = Google::new(
        context,
        "0123456789abcdef",
        "my-provider",
        "access",
        "secret",
        "proj",
        "europe-west1",
        credentials,
    );
    assert_eq!(google.id, "01234567");
    assert_eq!(google.region, "europe-west1");
    assert_eq!(google.access_key_id(), "");
    assert_eq!(google.secret_access_key(), "");
    assert!(google.credentials_environment_variables().is_empty());
    assert!(google.is_valid().is_ok());

    let details = google.get_event_details(Stage::Infrastructure(InfrastructureStep::Create));
    assert_eq!(details.organization_id, "org-long");
    assert_eq!(details.cluster_id, "cluster-long");
    assert_eq!(details.execution_id, "exec-7");
    match details.transmitter {
        Transmitter::CloudProvider { long_id, name } => {
            assert_eq!(long_id, "0123456789abcdef");
            assert_eq!(name, "my-provider");
        }
    }
}

fn sample_deployment() -> EksHelmsDeployment {
    let event_details = EventDetails::new(
        "org".to_string(),
        "cluster".to_string(),
        "exec".to_string(),
        Stage::Infrastructure(InfrastructureStep::Create),
        Transmitter::CloudProvider { long_id: "id".to_string(), name: "aws".to_string() },
    );
    let context = HelmInfraContext::new(
        "/srv/lib".to_string(),
        "/srv/templates".to_string(),
        "/tmp/helms".to_string(),
        event_details,
        false,
    );
    let terraform_output = AwsEksQoveryTerraformOutput {
        aws_account_id: "123456789012".to_string(),
        aws_iam_eks_user_mapper_role_arn: "arn:mapper".to_string(),
        aws_iam_cluster_autoscaler_role_arn: "arn:autoscaler".to_string(),
        aws_iam_cloudwatch_role_arn: "arn:cloudwatch".to_string(),
        aws_iam_loki_role_arn: "arn:loki".to_string(),
        aws_s3_loki_bucket_name: "loki-bucket".to_string(),
        loki_storage_config_aws_s3: "s3://loki-bucket".to_string(),
        karpenter_controller_aws_role_arn: "arn:karpenter".to_string(),
        cluster_security_group_id: "sg-1".to_string(),
        aws_iam_alb_controller_arn: "arn:alb".to_string(),
    };
    let cluster = ClusterChartSource {
        organization_id: "org".to_string(),
        organization_long_id: "org-long".to_string(),
        cluster_id: "cid".to_string(),
        cluster_long_id: "cid-long".to_string(),
        region: "eu-west-3".to_string(),
        cluster_name: "qovery-cid".to_string(),
        cpu_architectures: vec![CpuArchitecture::AMD64, CpuArchitecture::ARM64],
        qovery_engine_location: EngineLocation::ClientSide,
        ff_log_history_enabled: true,
        ff_metrics_history_enabled: false,
        ff_grafana_enabled: false,
        managed_dns_helm_format: "example.com".to_string(),
        managed_dns_resolvers_terraform_format: "[\"1.1.1.1\"]".to_string(),
        managed_dns_root_domain_helm_format: "example.com".to_string(),
        tls_email_report: "ops@example.com".to_string(),
        is_test_cluster: false,
        is_karpenter_enabled: true,
        karpenter_parameters: None,
        };
    EksHelmsDeployment::new(context, terraform_output, cluster, false, false)
}

#[test]
fn test_eks_chart_prerequisites_mapping() {
    let deployment = sample_deployment();
    assert_eq!(deployment.charts_context().lib_root_dir, "/srv/lib");

    let p = deployment.new_chart_prerequisite();
    assert_eq!(p.cloud_provider, "aws");
    assert_eq!(p.organization_id, "org");
    assert_eq!(p.cluster_name, "qovery-cid");
    assert_eq!(p.cpu_architectures.len(), 2);
    assert_eq!(p.lets_encrypt_config.tls_email_report, "ops@example.com");
    assert!(!p.lets_encrypt_config.is_test_cluster);
    assert!(p.is_karpenter_enabled);
    assert_eq!(p.aws_account_id, "123456789012");
    assert_eq!(p.cluster_security_group_id, "sg-1");
    assert_eq!(p.karpenter_controller_aws_role_arn, "arn:karpenter");
}

#[test]
fn test_gen_charts_to_deploy_wraps_failure() {
    let deployment = sample_deployment();
    let charts: Vec<Vec<CommonChart>> = vec![vec![]];
    let passed = deployment.gen_charts_to_deploy(Ok(charts));
    assert!(passed.is_ok());
    let failed = deployment.gen_charts_to_deploy(Err(CommandError::new_from_safe_message(
        "render failed".to_string(),
    )));
    match failed {
        Err(EngineError::HelmChartsSetup { cause }) => {
            assert_eq!(cause.safe_message, "render failed");
        }
        other => panic!("expected the chart-setup failure, got {:?}", other),
    }
}

#[test]
fn test_new_defaults_to_namespaced_deployment_or_statefulset() {
    let details = EventDetails::new(
        "org".to_string(),
        "cluster".to_string(),
        "exec".to_string(),
        Stage::Infrastructure(InfrastructureStep::Pause),
        Transmitter::CloudProvider { long_id: "id".to_string(), name: "gcp".to_string() },
    );
    let stateful =
        infra_engine::pause_action::PauseServiceAction::new("s".to_string(), true, 9, details.clone());
    assert!(matches!(stateful.k8s_resource_type, K8sResourceType::StateFulSet));
    assert!(!stateful.is_cluster_wide_resources_allowed);
    let stateless =
        infra_engine::pause_action::PauseServiceAction::new("s".to_string(), false, 9, details);
    assert!(matches!(stateless.k8s_resource_type, K8sResourceType::Deployment));
}
