//! Assembly of the EKS cluster's Helm chart deployment: the facts the
//! charts are rendered from, gathered into one prerequisites value, and
//! the deployment step that turns the chart generator's outcome into the
//! engine's result.

use vstd::prelude::*;
use vstd::string::StringExecFns;

use crate::errors::CommandError;
use crate::errors::EngineError;
use crate::events::EventDetails;
use crate::karpenter_configuration::CommonChart;
use crate::karpenter_configuration::CpuArchitecture;
use crate::karpenter_configuration::KarpenterParameters;

verus! {

/// Which side runs the engine for this cluster.
#[derive(Clone, Copy, Debug, PartialEq, Eq, Structural)]
pub enum EngineLocation {
    ClientSide,
    QoverySide,
}

/// The certificate issuer's configuration.
#[derive(Clone, Debug)]
pub struct LetsEncryptConfig {
    pub tls_email_report: String,
    pub is_test_cluster: bool,
}

impl LetsEncryptConfig {
    pub fn new(tls_email_report: String, is_test_cluster: bool) -> (config: LetsEncryptConfig)
        ensures
            config.tls_email_report == tls_email_report,
            config.is_test_cluster == is_test_cluster,
    {
        LetsEncryptConfig { tls_email_report, is_test_cluster }
    }
}

/// Everything the cluster's infrastructure produced that the charts
/// need: account, role and bucket identifiers from the applied
/// infrastructure.
#[derive(Clone, Debug)]
pub struct AwsEksQoveryTerraformOutput {
    pub aws_account_id: String,
    pub aws_iam_eks_user_mapper_role_arn: String,
    pub aws_iam_cluster_autoscaler_role_arn: String,
    pub aws_iam_cloudwatch_role_arn: String,
    pub aws_iam_loki_role_arn: String,
    pub aws_s3_loki_bucket_name: String,
    pub loki_storage_config_aws_s3: String,
    pub karpenter_controller_aws_role_arn: String,
    pub cluster_security_group_id: String,
    pub aws_iam_alb_controller_arn: String,
}

/// What the chart prerequisites read of the cluster, its providers and
/// its options, as plain values.
#[derive(Clone, Debug)]
pub struct ClusterChartSource {
    pub organization_id: String,
    pub organization_long_id: String,
    pub cluster_id: String,
    pub cluster_long_id: String,
    pub region: String,
    pub cluster_name: String,
    pub cpu_architectures: Vec<CpuArchitecture>,
    pub qovery_engine_location: EngineLocation,
    pub ff_log_history_enabled: bool,
    pub ff_metrics_history_enabled: bool,
    pub ff_grafana_enabled: bool,
    pub managed_dns_helm_format: String,
    pub managed_dns_resolvers_terraform_format: String,
    pub managed_dns_root_domain_helm_format: String,
    pub tls_email_report: String,
    pub is_test_cluster: bool,
    pub is_karpenter_enabled: bool,
    pub karpenter_parameters: Option<KarpenterParameters>,
}

/// The one value every EKS chart is rendered from.
#[derive(Clone, Debug)]
pub struct EksChartsConfigPrerequisites {
    pub organization_id: String,
    pub organization_long_id: String,
    pub cluster_id: String,
    pub cluster_long_id: String,
    pub region: String,
    pub cluster_name: String,
    pub cpu_architectures: Vec<CpuArchitecture>,
    pub cloud_provider: String,
    pub qovery_engine_location: EngineLocation,
    pub ff_log_history_enabled: bool,
    pub ff_metrics_history_enabled: bool,
    pub ff_grafana_enabled: bool,
    pub managed_dns_helm_format: String,
    pub managed_dns_resolvers_terraform_format: String,
    pub managed_dns_root_domain_helm_format: String,
    pub lets_encrypt_config: LetsEncryptConfig,
    pub alb_controller_already_deployed: bool,
    pub kubernetes_version_upgrade_requested: bool,
    pub is_karpenter_enabled: bool,
    pub karpenter_parameters: Option<KarpenterParameters>,
    pub aws_account_id: String,
    pub aws_iam_eks_user_mapper_role_arn: String,
    pub aws_iam_cluster_autoscaler_role_arn: String,
    pub aws_iam_cloudwatch_role_arn: String,
    pub aws_iam_loki_role_arn: String,
    pub aws_s3_loki_bucket_name: String,
    pub loki_storage_config_aws_s3: String,
    pub karpenter_controller_aws_role_arn: String,
    pub cluster_security_group_id: String,
    pub aws_iam_alb_controller_arn: String,
}

/// Where and how the charts deployment renders and installs: the paths
/// it works in and the event context it reports under.
#[derive(Clone, Debug)]
pub struct HelmInfraContext {
    pub lib_root_dir: String,
    pub template_directory: String,
    pub destination_folder: String,
    pub event_details: EventDetails,
    pub is_dry_run: bool,
}

impl HelmInfraContext {
    pub fn new(
        lib_root_dir: String,
        template_directory: String,
        destination_folder: String,
        event_details: EventDetails,
        is_dry_run: bool,
    ) -> (context: HelmInfraContext)
        ensures
            context.lib_root_dir == lib_root_dir,
            context.template_directory == template_directory,
            context.destination_folder == destination_folder,
            context.event_details == event_details,
            context.is_dry_run == is_dry_run,
    {
        HelmInfraContext {
            lib_root_dir,
            template_directory,
            destination_folder,
            event_details,
            is_dry_run,
        }
    }
}

/// The EKS charts deployment step.
pub struct EksHelmsDeployment {
    pub context: HelmInfraContext,
    pub terraform_output: AwsEksQoveryTerraformOutput,
    pub cluster: ClusterChartSource,
    pub alb_already_deployed: bool,
    pub kubernetes_version_upgrade_requested: bool,
}

impl EksHelmsDeployment {
    pub fn new(
        context: HelmInfraContext,
        terraform_output: AwsEksQoveryTerraformOutput,
        cluster: ClusterChartSource,
        alb_already_deployed: bool,
        kubernetes_version_upgrade_requested: bool,
    ) -> (deployment: EksHelmsDeployment)
        ensures
            deployment.context == context,
            deployment.terraform_output == terraform_output,
            deployment.cluster == cluster,
            deployment.alb_already_deployed == alb_already_deployed,
            deployment.kubernetes_version_upgrade_requested == kubernetes_version_upgrade_requested,
    {
        EksHelmsDeployment {
            context,
            terraform_output,
            cluster,
            alb_already_deployed,
            kubernetes_version_upgrade_requested,
        }
    }

    /// The rendering context the deployment works in.
    pub fn charts_context(&self) -> (context: &HelmInfraContext)
        ensures
            context == &self.context,
    {
        &self.context
    }

    /// Gathers the prerequisites every chart is rendered from: the
    /// cluster's facts verbatim, the provider fixed to `aws`, and the
    /// certificate issuer configured from the report address and the
    /// test flag.
    pub fn new_chart_prerequisite(&self) -> (p: EksChartsConfigPrerequisites)
        ensures
            p.organization_id == self.cluster.organization_id,
            p.organization_long_id == self.cluster.organization_long_id,
            p.cluster_id == self.cluster.cluster_id,
            p.cluster_long_id == self.cluster.cluster_long_id,
            p.region == self.cluster.region,
            p.cluster_name == self.cluster.cluster_name,
            p.cpu_architectures@ == self.cluster.cpu_architectures@,
            p.cloud_provider@ == "aws"@,
            p.qovery_engine_location == self.cluster.qovery_engine_location,
            p.ff_log_history_enabled == self.cluster.ff_log_history_enabled,
            p.ff_metrics_history_enabled == self.cluster.ff_metrics_history_enabled,
            p.ff_grafana_enabled == self.cluster.ff_grafana_enabled,
            p.managed_dns_helm_format == self.cluster.managed_dns_helm_format,
            p.managed_dns_resolvers_terraform_format
                == self.cluster.managed_dns_resolvers_terraform_format,
            p.managed_dns_root_domain_helm_format
                == self.cluster.managed_dns_root_domain_helm_format,
            p.lets_encrypt_config.tls_email_report == self.cluster.tls_email_report,
            p.lets_encrypt_config.is_test_cluster == self.cluster.is_test_cluster,
            p.alb_controller_already_deployed == self.alb_already_deployed,
            p.kubernetes_version_upgrade_requested == self.kubernetes_version_upgrade_requested,
            p.is_karpenter_enabled == self.cluster.is_karpenter_enabled,
            p.karpenter_parameters is Some <==> self.cluster.karpenter_parameters is Some,
            (self.cluster.karpenter_parameters matches Some(kp0) ==> (p.karpenter_parameters
                matches Some(kp) && kp.spot_enabled == kp0.spot_enabled
                && kp.max_node_drain_time_in_secs == kp0.max_node_drain_time_in_secs
                && kp.disk_size_in_gib == kp0.disk_size_in_gib
                && kp.default_service_architecture == kp0.default_service_architecture)),
            p.aws_account_id == self.terraform_output.aws_account_id,
            p.aws_iam_eks_user_mapper_role_arn
                == self.terraform_output.aws_iam_eks_user_mapper_role_arn,
            p.aws_iam_cluster_autoscaler_role_arn
                == self.terraform_output.aws_iam_cluster_autoscaler_role_arn,
            p.aws_iam_cloudwatch_role_arn == self.terraform_output.aws_iam_cloudwatch_role_arn,
            p.aws_iam_loki_role_arn == self.terraform_output.aws_iam_loki_role_arn,
            p.aws_s3_loki_bucket_name == self.terraform_output.aws_s3_loki_bucket_name,
            p.loki_storage_config_aws_s3 == self.terraform_output.loki_storage_config_aws_s3,
            p.karpenter_controller_aws_role_arn
                == self.terraform_output.karpenter_controller_aws_role_arn,
            p.cluster_security_group_id == self.terraform_output.cluster_security_group_id,
            p.aws_iam_alb_controller_arn == self.terraform_output.aws_iam_alb_controller_arn,
    {
        let mut cpu_architectures: Vec<CpuArchitecture> = Vec::new();
        let mut i: usize = 0;
        while i < self.cluster.cpu_architectures.len()
            invariant
                i <= self.cluster.cpu_architectures.len(),
                cpu_architectures@ == self.cluster.cpu_architectures@.subrange(0, i as int),
        decreases self.cluster.cpu_architectures.len() - i,
        {
            cpu_architectures.push(self.cluster.cpu_architectures[i]);
            proof {
                assert(cpu_architectures@ =~= self.cluster.cpu_architectures@.subrange(
                    0,
                    i + 1 as int,
                ));
            }
            i = i + 1;
        }
        proof {
            assert(cpu_architectures@ =~= self.cluster.cpu_architectures@);
        }
        let karpenter_parameters = match &self.cluster.karpenter_parameters {
            Some(p) => Some(duplicate_karpenter_parameters(p)),
            None => None,
        };
        EksChartsConfigPrerequisites {
            organization_id: self.cluster.organization_id.clone(),
            organization_long_id: self.cluster.organization_long_id.clone(),
            cluster_id: self.cluster.cluster_id.clone(),
            cluster_long_id: self.cluster.cluster_long_id.clone(),
            region: self.cluster.region.clone(),
            cluster_name: self.cluster.cluster_name.clone(),
            cpu_architectures,
            cloud_provider: String::from_str("aws"),
            qovery_engine_location: self.cluster.qovery_engine_location,
            ff_log_history_enabled: self.cluster.ff_log_history_enabled,
            ff_metrics_history_enabled: self.cluster.ff_metrics_history_enabled,
            ff_grafana_enabled: self.cluster.ff_grafana_enabled,
            managed_dns_helm_format: self.cluster.managed_dns_helm_format.clone(),
            managed_dns_resolvers_terraform_format:
                self.cluster.managed_dns_resolvers_terraform_format.clone(),
            managed_dns_root_domain_helm_format:
                self.cluster.managed_dns_root_domain_helm_format.clone(),
            lets_encrypt_config: LetsEncryptConfig::new(
                self.cluster.tls_email_report.clone(),
                self.cluster.is_test_cluster,
            ),
            alb_controller_already_deployed: self.alb_already_deployed,
            kubernetes_version_upgrade_requested: self.kubernetes_version_upgrade_requested,
            is_karpenter_enabled: self.cluster.is_karpenter_enabled,
            karpenter_parameters,
            aws_account_id: self.terraform_output.aws_account_id.clone(),
            aws_iam_eks_user_mapper_role_arn:
                self.terraform_output.aws_iam_eks_user_mapper_role_arn.clone(),
            aws_iam_cluster_autoscaler_role_arn:
                self.terraform_output.aws_iam_cluster_autoscaler_role_arn.clone(),
            aws_iam_cloudwatch_role_arn: self.terraform_output.aws_iam_cloudwatch_role_arn.clone(),
            aws_iam_loki_role_arn: self.terraform_output.aws_iam_loki_role_arn.clone(),
            aws_s3_loki_bucket_name: self.terraform_output.aws_s3_loki_bucket_name.clone(),
            loki_storage_config_aws_s3: self.terraform_output.loki_storage_config_aws_s3.clone(),
            karpenter_controller_aws_role_arn:
                self.terraform_output.karpenter_controller_aws_role_arn.clone(),
            cluster_security_group_id: self.terraform_output.cluster_security_group_id.clone(),
            aws_iam_alb_controller_arn: self.terraform_output.aws_iam_alb_controller_arn.clone(),
        }
    }

    /// Turns the chart generator's outcome into the deployment's result:
    /// the generated chart groups pass through verbatim, a generation
    /// failure is reported as a chart-setup error carrying the
    /// generator's message.
    pub fn gen_charts_to_deploy(&self, generated: Result<Vec<Vec<CommonChart>>, CommandError>) -> (r:
        Result<Vec<Vec<CommonChart>>, EngineError>)
        ensures
            r is Ok <==> generated is Ok,
            (generated matches Ok(charts) ==> r == Ok::<Vec<Vec<CommonChart>>, EngineError>(
                charts,
            )),
            (generated matches Err(e) ==> r == Err::<Vec<Vec<CommonChart>>, EngineError>(
                EngineError::HelmChartsSetup { cause: e },
            )),
    {
        match generated {
            Ok(charts) => Ok(charts),
            Err(e) => Err(EngineError::HelmChartsSetup { cause: e }),
        }
    }
}

/// Fresh strings carrying the same texts.
fn duplicate_strings(src: &Vec<String>) -> (out: Vec<String>)
    ensures
        out@ == src@,
{
    let mut out: Vec<String> = Vec::new();
    let mut i: usize = 0;
    while i < src.len()
        invariant
            i <= src.len(),
            out@ == src@.subrange(0, i as int),
        decreases src.len() - i,
    {
        out.push(src[i].clone());
        proof {
            assert(out@ =~= src@.subrange(0, i + 1 as int));
        }
        i = i + 1;
    }
    proof {
        assert(src@.subrange(0, src@.len() as int) =~= src@);
    }
    out
}

/// A fresh requirement list carrying the same requirements.
fn duplicate_requirements(
    src: &Vec<crate::karpenter_configuration::KarpenterNodePoolRequirement>,
) -> (out: Vec<crate::karpenter_configuration::KarpenterNodePoolRequirement>)
    ensures
        out@.len() == src@.len(),
        forall|k: int| 0 <= k < src@.len()
            ==> crate::karpenter_configuration::requirement_view(#[trigger] out@[k])
            == crate::karpenter_configuration::requirement_view(src@[k]),
{
    let mut out: Vec<crate::karpenter_configuration::KarpenterNodePoolRequirement> = Vec::new();
    let mut i: usize = 0;
    while i < src.len()
        invariant
            i <= src.len(),
            out@.len() == i,
            forall|k: int| 0 <= k < i
                ==> crate::karpenter_configuration::requirement_view(#[trigger] out@[k])
                == crate::karpenter_configuration::requirement_view(src@[k]),
        decreases src.len() - i,
    {
        out.push(crate::karpenter_configuration::KarpenterNodePoolRequirement {
            key: src[i].key,
            operator: src[i].operator,
            values: duplicate_strings(&src[i].values),
        });
        i = i + 1;
    }
    out
}

/// Fresh Karpenter parameters carrying the same settings.
fn duplicate_karpenter_parameters(p: &KarpenterParameters) -> (c: KarpenterParameters)
    ensures
        c.spot_enabled == p.spot_enabled,
        c.max_node_drain_time_in_secs == p.max_node_drain_time_in_secs,
        c.disk_size_in_gib == p.disk_size_in_gib,
        c.default_service_architecture == p.default_service_architecture,
        c.qovery_node_pools is Some <==> p.qovery_node_pools is Some,
{
    let qovery_node_pools = match &p.qovery_node_pools {
        Some(pool) => {
            let requirements = match &pool.requirements {
                Some(reqs) => Some(duplicate_requirements(reqs)),
                None => None,
            };
            Some(crate::karpenter_configuration::KarpenterNodePool { requirements })
        },
        None => None,
    };
    KarpenterParameters {
        spot_enabled: p.spot_enabled,
        max_node_drain_time_in_secs: p.max_node_drain_time_in_secs,
        disk_size_in_gib: p.disk_size_in_gib,
        default_service_architecture: p.default_service_architecture,
        qovery_node_pools,
    }
}

} // verus!
