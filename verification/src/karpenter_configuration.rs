//! The Karpenter configuration Helm chart: node-pool requirements and
//! the chart's set-values, computed from the cluster's configuration.
//!
//! When the cluster owner supplies node-pool requirements, they are used
//! as given, with the capacity-type requirement appended according to
//! the spot setting; otherwise a default requirement set applies.  The
//! chart is deployed when Karpenter replaces the cluster autoscaler and
//! destroyed otherwise.

use vstd::prelude::*;
use vstd::string::StringExecFns;

use crate::errors::CommandError;
use crate::text::dec_digits;
use crate::text::join_seq;
use crate::text::join_with;
use crate::text::lower_of;
use crate::text::lowercase;
use crate::text::u64_to_string;

verus! {

/// The requirement keys a Karpenter node pool can constrain.
#[derive(Clone, Copy, Debug, PartialEq, Eq, Structural)]
pub enum KarpenterNodePoolRequirementKey {
    InstanceCategory,
    InstanceGeneration,
    Arch,
    CapacityType,
    Os,
}

/// The label each requirement key maps to.
pub open spec fn k8s_label_of(key: KarpenterNodePoolRequirementKey) -> Seq<char> {
    match key {
        KarpenterNodePoolRequirementKey::InstanceCategory => "karpenter.k8s.aws/instance-category"@,
        KarpenterNodePoolRequirementKey::InstanceGeneration => "karpenter.k8s.aws/instance-generation"@,
        KarpenterNodePoolRequirementKey::Arch => "kubernetes.io/arch"@,
        KarpenterNodePoolRequirementKey::CapacityType => "karpenter.sh/capacity-type"@,
        KarpenterNodePoolRequirementKey::Os => "kubernetes.io/os"@,
    }
}

impl KarpenterNodePoolRequirementKey {
    /// The Kubernetes label this requirement key constrains.
    pub fn to_k8s_label(&self) -> (label: String)
        ensures
            label@ == k8s_label_of(*self),
    {
        match self {
            KarpenterNodePoolRequirementKey::InstanceCategory => String::from_str(
                "karpenter.k8s.aws/instance-category",
            ),
            KarpenterNodePoolRequirementKey::InstanceGeneration => String::from_str(
                "karpenter.k8s.aws/instance-generation",
            ),
            KarpenterNodePoolRequirementKey::Arch => String::from_str("kubernetes.io/arch"),
            KarpenterNodePoolRequirementKey::CapacityType => String::from_str(
                "karpenter.sh/capacity-type",
            ),
            KarpenterNodePoolRequirementKey::Os => String::from_str("kubernetes.io/os"),
        }
    }
}

/// How a requirement compares the label against its values.
#[derive(Clone, Copy, Debug, PartialEq, Eq, Structural)]
pub enum KarpenterRequirementOperator {
    In,
    Gt,
}

/// The name each operator is written as in the chart.
pub open spec fn operator_label_of(op: KarpenterRequirementOperator) -> Seq<char> {
    match op {
        KarpenterRequirementOperator::In => "In"@,
        KarpenterRequirementOperator::Gt => "Gt"@,
    }
}

impl KarpenterRequirementOperator {
    /// The operator's name as written in the chart.
    pub fn to_string(&self) -> (label: String)
        ensures
            label@ == operator_label_of(*self),
    {
        match self {
            KarpenterRequirementOperator::In => String::from_str("In"),
            KarpenterRequirementOperator::Gt => String::from_str("Gt"),
        }
    }
}

/// One node-pool requirement: a key, an operator (`In` when absent), and
/// the values compared against.
#[derive(Clone, Debug)]
pub struct KarpenterNodePoolRequirement {
    pub key: KarpenterNodePoolRequirementKey,
    pub operator: Option<KarpenterRequirementOperator>,
    pub values: Vec<String>,
}

/// Node-pool constraints supplied by the cluster owner.
#[derive(Clone, Debug)]
pub struct KarpenterNodePool {
    pub requirements: Option<Vec<KarpenterNodePoolRequirement>>,
}

/// The CPU architecture a service runs on by default.
#[derive(Clone, Copy, Debug, PartialEq, Eq, Structural)]
pub enum CpuArchitecture {
    AMD64,
    ARM64,
}

/// Karpenter's configuration as the cluster carries it.
#[derive(Clone, Debug)]
pub struct KarpenterParameters {
    pub spot_enabled: bool,
    pub max_node_drain_time_in_secs: Option<u32>,
    pub disk_size_in_gib: u32,
    pub default_service_architecture: CpuArchitecture,
    pub qovery_node_pools: Option<KarpenterNodePool>,
}

/// Subnets of a user-managed network, one list per availability zone.
#[derive(Clone, Debug)]
pub struct UserNetworkConfig {
    pub eks_subnets_zone_a_ids: Vec<String>,
    pub eks_subnets_zone_b_ids: Vec<String>,
    pub eks_subnets_zone_c_ids: Vec<String>,
}

/// Spec-level view of one requirement: its key, operator and value
/// texts.
#[verifier::ext_equal]
pub struct RequirementView {
    pub key: KarpenterNodePoolRequirementKey,
    pub operator: Option<KarpenterRequirementOperator>,
    pub values: Seq<Seq<char>>,
}

/// The view of one requirement value.
pub open spec fn requirement_view(r: KarpenterNodePoolRequirement) -> RequirementView {
    RequirementView {
        key: r.key,
        operator: r.operator,
        values: r.values@.map_values(|v: String| v@),
    }
}

/// The capacity-type requirement appended to owner-supplied pools:
/// on-demand capacity, and spot capacity too when spot is enabled.
pub open spec fn capacity_type_view(spot_enabled: bool) -> RequirementView {
    RequirementView {
        key: KarpenterNodePoolRequirementKey::CapacityType,
        operator: Some(KarpenterRequirementOperator::In),
        values: if spot_enabled {
            seq!["spot"@, "on-demand"@]
        } else {
            seq!["on-demand"@]
        },
    }
}

/// The default requirement set, used when the owner supplied none:
/// both architectures, Linux, the general instance categories past
/// generation two, and the capacity types allowed by the spot setting.
pub open spec fn default_requirement_views(spot_enabled: bool) -> Seq<RequirementView> {
    seq![
        RequirementView {
            key: KarpenterNodePoolRequirementKey::Arch,
            operator: Some(KarpenterRequirementOperator::In),
            values: seq!["amd64"@, "arm64"@],
        },
        RequirementView {
            key: KarpenterNodePoolRequirementKey::Os,
            operator: Some(KarpenterRequirementOperator::In),
            values: seq!["linux"@],
        },
        RequirementView {
            key: KarpenterNodePoolRequirementKey::InstanceCategory,
            operator: Some(KarpenterRequirementOperator::In),
            values: seq![
                "c"@, "d"@, "h"@, "i"@, "im"@, "inf"@, "is"@, "m"@, "r"@, "t"@, "trn"@, "x"@, "z"@,
            ],
        },
        RequirementView {
            key: KarpenterNodePoolRequirementKey::InstanceGeneration,
            operator: Some(KarpenterRequirementOperator::Gt),
            values: seq!["2"@],
        },
        capacity_type_view(spot_enabled),
    ]
}

/// The requirement views supplied by the owner's pools, when any.
pub open spec fn supplied_requirement_views(pools: Option<KarpenterNodePool>) -> Option<
    Seq<RequirementView>,
> {
    match pools {
        Some(p) => match p.requirements {
            Some(reqs) => if reqs@.len() > 0 {
                Some(reqs@.map_values(|r: KarpenterNodePoolRequirement| requirement_view(r)))
            } else {
                None
            },
            None => None,
        },
        None => None,
    }
}

/// The requirement set the chart renders: the owner's non-empty set with
/// the capacity-type requirement appended, or the default set.
pub open spec fn resolved_requirement_views(
    spot_enabled: bool,
    pools: Option<KarpenterNodePool>,
) -> Seq<RequirementView> {
    match supplied_requirement_views(pools) {
        Some(views) => views.push(capacity_type_view(spot_enabled)),
        None => default_requirement_views(spot_enabled),
    }
}

/// One `--set` value of a Helm chart.
#[derive(Clone, Debug)]
pub struct ChartSetValue {
    pub key: String,
    pub value: String,
}

/// The pair of texts one set-value stands for.
pub open spec fn chart_value_view(v: ChartSetValue) -> (Seq<char>, Seq<char>) {
    (v.key@, v.value@)
}

/// Whether a chart is to be installed or removed.
#[derive(Clone, Copy, Debug, PartialEq, Eq, Structural)]
pub enum HelmAction {
    Deploy,
    Destroy,
}

/// The namespaces the engine installs charts into.
#[derive(Clone, Copy, Debug, PartialEq, Eq, Structural)]
pub enum HelmChartNamespaces {
    KubeSystem,
    Qovery,
}

/// Everything needed to render and install one chart.
#[derive(Clone, Debug)]
pub struct ChartInfo {
    pub name: String,
    pub action: HelmAction,
    pub namespace: HelmChartNamespaces,
    pub path: String,
    pub values_files: Vec<String>,
    pub values: Vec<ChartSetValue>,
    /// Values that must be passed as strings even when numeric.
    pub values_string: Vec<ChartSetValue>,
}

/// A chart together with its installation checker's verdict hook.
#[derive(Clone, Debug)]
pub struct CommonChart {
    pub chart_info: ChartInfo,
}

/// Failure to assemble a chart.
#[derive(Clone, Debug)]
pub enum HelmChartError {
    CreateTemplateError { message: String },
}

/// The Karpenter configuration chart, bound to one cluster.
pub struct KarpenterConfigurationChart {
    pub chart_path: String,
    pub chart_values_path: String,
    pub cluster_name: String,
    pub replace_cluster_autoscaler: bool,
    pub security_group_id: String,
    pub cluster_id: String,
    pub cluster_long_id: String,
    pub organization_id: String,
    pub organization_long_id: String,
    pub region: String,
    pub karpenter_parameters: Option<KarpenterParameters>,
    pub explicit_subnet_ids: Vec<String>,
    pub pleco_resources_ttl: u32,
}

/// `prefix` followed by `/<dir>/<name>`; an absent prefix leaves the
/// path relative.
pub open spec fn chart_file_path(prefix: Option<&str>, dir: Seq<char>, name: Seq<char>) -> Seq<
    char,
> {
    (match prefix {
        Some(p) => p@,
        None => Seq::empty(),
    }) + "/"@ + dir + "/"@ + name
}

/// Builds the location of one chart file under the engine's chart
/// layout.
fn build_chart_path(prefix: Option<&str>, dir: &str, name: &str) -> (path: String)
    ensures
        path@ == chart_file_path(prefix, dir@, name@),
{
    let base = match prefix {
        Some(p) => String::from_str(p),
        None => String::new(),
    };
    base.concat("/").concat(dir).concat("/").concat(name)
}

impl KarpenterConfigurationChart {
    /// The chart's name.
    pub fn chart_name() -> (name: String)
        ensures
            name@ == "karpenter-configuration"@,
    {
        String::from_str("karpenter-configuration")
    }

    /// Binds the chart to one cluster's identity, network and Karpenter
    /// settings.  With a user-managed network, the chart pins the
    /// subnets of the three availability zones, in zone order.
    pub fn new(
        chart_prefix_path: Option<&str>,
        cluster_name: String,
        replace_cluster_autoscaler: bool,
        cluster_security_group_id: String,
        cluster_id: &str,
        cluster_long_id: &str,
        organization_id: &str,
        organization_long_id: &str,
        region: &str,
        karpenter_parameters: Option<KarpenterParameters>,
        user_network_config: Option<&UserNetworkConfig>,
        pleco_resources_ttl: u32,
    ) -> (chart: KarpenterConfigurationChart)
        ensures
            chart.chart_path@ == chart_file_path(
                chart_prefix_path,
                "charts"@,
                "karpenter-configuration"@,
            ),
            chart.chart_values_path@ == chart_file_path(
                chart_prefix_path,
                "chart_values"@,
                "karpenter-configuration"@,
            ),
            chart.cluster_name == cluster_name,
            chart.replace_cluster_autoscaler == replace_cluster_autoscaler,
            chart.security_group_id == cluster_security_group_id,
            chart.cluster_id@ == cluster_id@,
            chart.cluster_long_id@ == cluster_long_id@,
            chart.organization_id@ == organization_id@,
            chart.organization_long_id@ == organization_long_id@,
            chart.region@ == region@,
            chart.karpenter_parameters == karpenter_parameters,
            chart.explicit_subnet_ids@ == (match user_network_config {
                Some(cfg) => cfg.eks_subnets_zone_a_ids@ + cfg.eks_subnets_zone_b_ids@
                    + cfg.eks_subnets_zone_c_ids@,
                None => Seq::<String>::empty(),
            }),
            chart.pleco_resources_ttl == pleco_resources_ttl,
    {
        let name = Self::chart_name();
        let explicit_subnet_ids = match user_network_config {
            Some(cfg) => {
                let mut combined: Vec<String> = Vec::new();
                append_cloned(&mut combined, &cfg.eks_subnets_zone_a_ids);
                append_cloned(&mut combined, &cfg.eks_subnets_zone_b_ids);
                append_cloned(&mut combined, &cfg.eks_subnets_zone_c_ids);
                proof {
                    assert(combined@ =~= cfg.eks_subnets_zone_a_ids@
                        + cfg.eks_subnets_zone_b_ids@ + cfg.eks_subnets_zone_c_ids@);
                }
                combined
            },
            None => Vec::new(),
        };
        KarpenterConfigurationChart {
            chart_path: build_chart_path(chart_prefix_path, "charts", name.as_str()),
            chart_values_path: build_chart_path(chart_prefix_path, "chart_values", name.as_str()),
            cluster_name,
            replace_cluster_autoscaler,
            security_group_id: cluster_security_group_id,
            cluster_id: String::from_str(cluster_id),
            cluster_long_id: String::from_str(cluster_long_id),
            organization_id: String::from_str(organization_id),
            organization_long_id: String::from_str(organization_long_id),
            region: String::from_str(region),
            karpenter_parameters,
            explicit_subnet_ids,
            pleco_resources_ttl,
        }
    }

    /// The requirement set for the chart: the owner's non-empty
    /// requirements with the capacity-type requirement appended, or the
    /// default set.
    pub fn get_karpenter_node_pools_requirements(
        spot_enabled: bool,
        qovery_node_pools: Option<&KarpenterNodePool>,
    ) -> (reqs: Vec<KarpenterNodePoolRequirement>)
        ensures
            reqs@.map_values(|r: KarpenterNodePoolRequirement| requirement_view(r))
                == resolved_requirement_views(
                spot_enabled,
                match qovery_node_pools {
                    Some(p) => Some(*p),
                    None => None,
                },
            ),
    {
        if let Some(pools) = qovery_node_pools {
            if let Some(supplied) = &pools.requirements {
                if supplied.len() > 0 {
                    let mut reqs: Vec<KarpenterNodePoolRequirement> = Vec::new();
                    let mut i: usize = 0;
                    while i < supplied.len()
                        invariant
                            i <= supplied.len(),
                            reqs@.len() == i,
                            forall|k: int| 0 <= k < i ==> requirement_view(#[trigger] reqs@[k])
                                == requirement_view(supplied@[k]),
                        decreases supplied.len() - i,
                    {
                        reqs.push(duplicate_requirement(&supplied[i]));
                        i = i + 1;
                    }
                    reqs.push(KarpenterNodePoolRequirement {
                        key: KarpenterNodePoolRequirementKey::CapacityType,
                        operator: Some(KarpenterRequirementOperator::In),
                        values: capacity_type_values(spot_enabled),
                    });
                    proof {
                        let view_of = |r: KarpenterNodePoolRequirement| requirement_view(r);
                        assert(reqs@.map_values(view_of) =~~= supplied@.map_values(view_of).push(
                            capacity_type_view(spot_enabled),
                        ));
                    }
                    return reqs;
                }
            }
        }
        Self::default_karpenter_node_pools_requirements(spot_enabled)
    }

    /// The default requirement set: both architectures, Linux, the
    /// general instance categories past generation two, and the capacity
    /// types allowed by the spot setting.
    pub fn default_karpenter_node_pools_requirements(spot_enabled: bool) -> (reqs: Vec<
        KarpenterNodePoolRequirement,
    >)
        ensures
            reqs@.map_values(|r: KarpenterNodePoolRequirement| requirement_view(r))
                == default_requirement_views(spot_enabled),
    {
        let arch_values = vec![String::from_str("amd64"), String::from_str("arm64")];
        let os_values = vec![String::from_str("linux")];
        let category_values = vec![
            String::from_str("c"),
            String::from_str("d"),
            String::from_str("h"),
            String::from_str("i"),
            String::from_str("im"),
            String::from_str("inf"),
            String::from_str("is"),
            String::from_str("m"),
            String::from_str("r"),
            String::from_str("t"),
            String::from_str("trn"),
            String::from_str("x"),
            String::from_str("z"),
        ];
        let generation_values = vec![String::from_str("2")];
        let reqs = vec![
            KarpenterNodePoolRequirement {
                key: KarpenterNodePoolRequirementKey::Arch,
                operator: Some(KarpenterRequirementOperator::In),
                values: arch_values,
            },
            KarpenterNodePoolRequirement {
                key: KarpenterNodePoolRequirementKey::Os,
                operator: Some(KarpenterRequirementOperator::In),
                values: os_values,
            },
            KarpenterNodePoolRequirement {
                key: KarpenterNodePoolRequirementKey::InstanceCategory,
                operator: Some(KarpenterRequirementOperator::In),
                values: category_values,
            },
            KarpenterNodePoolRequirement {
                key: KarpenterNodePoolRequirementKey::InstanceGeneration,
                operator: Some(KarpenterRequirementOperator::Gt),
                values: generation_values,
            },
            KarpenterNodePoolRequirement {
                key: KarpenterNodePoolRequirementKey::CapacityType,
                operator: Some(KarpenterRequirementOperator::In),
                values: capacity_type_values(spot_enabled),
            },
        ];
        proof {
            let mapped = reqs@.map_values(|r: KarpenterNodePoolRequirement| requirement_view(r));
            let expected = default_requirement_views(spot_enabled);
            assert(mapped.len() == 5);
            assert(mapped[0] =~~= expected[0]);
            assert(mapped[1] =~~= expected[1]);
            assert(mapped[2] =~~= expected[2]);
            assert(mapped[3] =~~= expected[3]);
            assert(mapped[4] =~~= expected[4]);
            assert(mapped =~~= expected);
        }
        reqs
    }
}

/// The Karpenter settings the chart renders with; without parameters the
/// disk size is zero, spot is off and no pools are supplied.
pub open spec fn chart_disk_size(c: KarpenterConfigurationChart) -> nat {
    match c.karpenter_parameters {
        Some(p) => p.disk_size_in_gib as nat,
        None => 0,
    }
}

/// Whether the chart renders with spot capacity enabled.
pub open spec fn chart_spot_enabled(c: KarpenterConfigurationChart) -> bool {
    match c.karpenter_parameters {
        Some(p) => p.spot_enabled,
        None => false,
    }
}

/// The owner-supplied node pools the chart renders with.
pub open spec fn chart_node_pools(c: KarpenterConfigurationChart) -> Option<KarpenterNodePool> {
    match c.karpenter_parameters {
        Some(p) => p.qovery_node_pools,
        None => None,
    }
}

/// The chart's fixed set-values: the cluster's identity and disk sizing.
pub open spec fn base_entries(c: KarpenterConfigurationChart) -> Seq<(Seq<char>, Seq<char>)> {
    seq![
        ("clusterName"@, c.cluster_name@),
        ("securityGroupId"@, c.security_group_id@),
        ("diskSizeInGib"@, dec_digits(chart_disk_size(c)) + "Gi"@),
        ("tags.ClusterId"@, c.cluster_id@),
        ("tags.ClusterLongId"@, c.cluster_long_id@),
        ("tags.OrganizationId"@, c.organization_id@),
        ("tags.OrganizationLongId"@, c.organization_long_id@),
        ("tags.Region"@, c.region@),
    ]
}

/// The subnet pinning entry: present only with explicit subnets, whose
/// ids are joined with commas inside braces.
pub open spec fn subnet_entries(c: KarpenterConfigurationChart) -> Seq<(Seq<char>, Seq<char>)> {
    if c.explicit_subnet_ids@.len() == 0 {
        Seq::empty()
    } else {
        seq![
            (
                "explicitSubnetIds"@,
                "{"@ + join_seq(c.explicit_subnet_ids@.map_values(|v: String| v@), ","@) + "}"@,
            ),
        ]
    }
}

/// The entries one requirement contributes at position `i`: its key's
/// label, its operator (`In` when unset), and its values joined with
/// commas inside braces — lowercased for the architecture key, which the
/// node pools accept in lower case only.
pub open spec fn requirement_entries(rv: RequirementView, i: nat) -> Seq<(Seq<char>, Seq<char>)> {
    let prefix = "global_node_pools.requirements["@ + dec_digits(i) + "]"@;
    let formatted = if rv.key == KarpenterNodePoolRequirementKey::Arch {
        join_seq(rv.values.map_values(|v: Seq<char>| lower_of(v)), ","@)
    } else {
        join_seq(rv.values, ","@)
    };
    seq![
        (prefix + ".key"@, k8s_label_of(rv.key)),
        (
            prefix + ".operator"@,
            operator_label_of(
                match rv.operator {
                    Some(op) => op,
                    None => KarpenterRequirementOperator::In,
                },
            ),
        ),
        (prefix + ".values"@, "{"@ + formatted + "}"@),
    ]
}

/// The entries the first `n` requirements contribute, in order.
pub open spec fn requirements_entries_prefix(rvs: Seq<RequirementView>, n: nat) -> Seq<
    (Seq<char>, Seq<char>),
>
    decreases n,
{
    if n == 0 {
        Seq::empty()
    } else {
        requirements_entries_prefix(rvs, (n - 1) as nat) + requirement_entries(
            rvs[n - 1],
            (n - 1) as nat,
        )
    }
}

/// Every set-value the chart renders, in order: the fixed entries, the
/// subnet pinning when explicit subnets exist, then each requirement's
/// three entries.
pub open spec fn expected_chart_values(c: KarpenterConfigurationChart) -> Seq<
    (Seq<char>, Seq<char>),
> {
    let rvs = resolved_requirement_views(chart_spot_enabled(c), chart_node_pools(c));
    base_entries(c) + subnet_entries(c) + requirements_entries_prefix(rvs, rvs.len())
}

/// The string-typed entries: the resource time-to-live tag, only when a
/// positive one is configured, quoted so Helm keeps it a string.
pub open spec fn ttl_entries(c: KarpenterConfigurationChart) -> Seq<(Seq<char>, Seq<char>)> {
    if c.pleco_resources_ttl > 0 {
        seq![("tags.ttl"@, "\""@ + dec_digits(c.pleco_resources_ttl as nat) + "\""@)]
    } else {
        Seq::empty()
    }
}

/// The capacity types allowed: on-demand, plus spot when enabled.
fn capacity_type_values(spot_enabled: bool) -> (values: Vec<String>)
    ensures
        values@.map_values(|v: String| v@) == capacity_type_view(spot_enabled).values,
{
    let values = if spot_enabled {
        vec![String::from_str("spot"), String::from_str("on-demand")]
    } else {
        vec![String::from_str("on-demand")]
    };
    proof {
        assert(values@.map_values(|v: String| v@) =~= capacity_type_view(spot_enabled).values);
    }
    values
}

impl KarpenterConfigurationChart {
    /// Renders the chart: deployed when Karpenter replaces the cluster
    /// autoscaler and destroyed otherwise, into the kube-system
    /// namespace, carrying exactly the set-values of
    /// [`expected_chart_values`] and [`ttl_entries`].
    pub fn to_common_helm_chart(&self) -> (r: Result<CommonChart, HelmChartError>)
        ensures
            r is Ok,
            (r matches Ok(chart) ==> {
                &&& chart.chart_info.name@ == "karpenter-configuration"@
                &&& chart.chart_info.action == (if self.replace_cluster_autoscaler {
                    HelmAction::Deploy
                } else {
                    HelmAction::Destroy
                })
                &&& chart.chart_info.namespace == HelmChartNamespaces::KubeSystem
                &&& chart.chart_info.path == self.chart_path
                &&& chart.chart_info.values_files@ == seq![self.chart_values_path]
                &&& chart.chart_info.values@.map_values(|v: ChartSetValue| chart_value_view(v))
                    == expected_chart_values(*self)
                &&& chart.chart_info.values_string@.map_values(
                    |v: ChartSetValue| chart_value_view(v),
                ) == ttl_entries(*self)
            }),
    {
        let ghost view_of = |v: ChartSetValue| chart_value_view(v);
        let (disk_size_in_gib, spot_enabled, qovery_node_pools) =
            match &self.karpenter_parameters {
            Some(p) => (
                p.disk_size_in_gib,
                p.spot_enabled,
                match &p.qovery_node_pools {
                    Some(q) => Some(q),
                    None => None,
                },
            ),
            None => (0u32, false, None),
        };

        let mut values: Vec<ChartSetValue> = Vec::new();
        values.push(ChartSetValue {
            key: String::from_str("clusterName"),
            value: self.cluster_name.clone(),
        });
        values.push(ChartSetValue {
            key: String::from_str("securityGroupId"),
            value: self.security_group_id.clone(),
        });
        values.push(ChartSetValue {
            key: String::from_str("diskSizeInGib"),
            value: u64_to_string(disk_size_in_gib as u64).concat("Gi"),
        });
        values.push(ChartSetValue {
            key: String::from_str("tags.ClusterId"),
            value: self.cluster_id.clone(),
        });
        values.push(ChartSetValue {
            key: String::from_str("tags.ClusterLongId"),
            value: self.cluster_long_id.clone(),
        });
        values.push(ChartSetValue {
            key: String::from_str("tags.OrganizationId"),
            value: self.organization_id.clone(),
        });
        values.push(ChartSetValue {
            key: String::from_str("tags.OrganizationLongId"),
            value: self.organization_long_id.clone(),
        });
        values.push(ChartSetValue {
            key: String::from_str("tags.Region"),
            value: self.region.clone(),
        });
        proof {
            assert(values@.map_values(view_of) =~~= base_entries(*self));
        }

        if self.explicit_subnet_ids.len() > 0 {
            let joined = join_with(&self.explicit_subnet_ids, ",");
            values.push(ChartSetValue {
                key: String::from_str("explicitSubnetIds"),
                value: String::from_str("{").concat(joined.as_str()).concat("}"),
            });
        }
        proof {
            assert(values@.map_values(view_of) =~~= base_entries(*self) + subnet_entries(*self));
        }

        let requirements = Self::get_karpenter_node_pools_requirements(
            spot_enabled,
            qovery_node_pools,
        );
        let ghost rvs = resolved_requirement_views(chart_spot_enabled(*self), chart_node_pools(*self));
        proof {
            assert(requirements@.map_values(|r: KarpenterNodePoolRequirement| requirement_view(r))
                == rvs);
        }

        let mut i: usize = 0;
        while i < requirements.len()
            invariant
                i <= requirements.len(),
                requirements@.map_values(|r: KarpenterNodePoolRequirement| requirement_view(r))
                    == rvs,
                values@.map_values(|v: ChartSetValue| chart_value_view(v)) == base_entries(*self)
                    + subnet_entries(*self) + requirements_entries_prefix(rvs, i as nat),
            decreases requirements.len() - i,
        {
            let ghost values_before = values@;
            let requirement = &requirements[i];
            let ghost rv = rvs[i as int];
            proof {
                assert(rv == requirement_view(requirements@[i as int]));
            }

            let idx_text = u64_to_string(i as u64);
            let prefix = String::from_str("global_node_pools.requirements[").concat(
                idx_text.as_str(),
            ).concat("]");

            let formatted_values = if requirement.key == KarpenterNodePoolRequirementKey::Arch {
                // The node pools accept only lowercase architecture values.
                let mut lowered: Vec<String> = Vec::new();
                let mut j: usize = 0;
                while j < requirement.values.len()
                    invariant
                        j <= requirement.values.len(),
                        lowered@.len() == j,
                        forall|k: int| 0 <= k < j ==> (#[trigger] lowered@[k])@ == lower_of(
                            requirement.values@[k]@,
                        ),
                    decreases requirement.values.len() - j,
                {
                    lowered.push(lowercase(requirement.values[j].as_str()));
                    j = j + 1;
                }
                proof {
                    assert(lowered@.map_values(|v: String| v@) =~~= rv.values.map_values(
                        |v: Seq<char>| lower_of(v),
                    ));
                }
                join_with(&lowered, ",")
            } else {
                join_with(&requirement.values, ",")
            };

            values.push(ChartSetValue {
                key: prefix.clone().concat(".key"),
                value: requirement.key.to_k8s_label(),
            });
            let operator = match &requirement.operator {
                Some(op) => *op,
                None => KarpenterRequirementOperator::In,
            };
            values.push(ChartSetValue {
                key: prefix.clone().concat(".operator"),
                value: operator.to_string(),
            });
            values.push(ChartSetValue {
                key: prefix.concat(".values"),
                value: String::from_str("{").concat(formatted_values.as_str()).concat("}"),
            });
            proof {
                assert(values@.map_values(|v: ChartSetValue| chart_value_view(v))
                    =~~= values_before.map_values(|v: ChartSetValue| chart_value_view(v))
                    + requirement_entries(rv, i as nat));
                assert(requirements_entries_prefix(rvs, (i + 1) as nat)
                    == requirements_entries_prefix(rvs, i as nat) + requirement_entries(
                    rv,
                    i as nat,
                ));
            }
            i = i + 1;
        }
        proof {
            assert(values@.map_values(|v: ChartSetValue| chart_value_view(v))
                == expected_chart_values(*self));
        }

        let mut values_string: Vec<ChartSetValue> = Vec::new();
        if self.pleco_resources_ttl > 0 {
            values_string.push(ChartSetValue {
                key: String::from_str("tags.ttl"),
                value: String::from_str("\"").concat(
                    u64_to_string(self.pleco_resources_ttl as u64).as_str(),
                ).concat("\""),
            });
        }
        proof {
            assert(values_string@.map_values(view_of) =~~= ttl_entries(*self));
        }

        let values_files = vec![self.chart_values_path.clone()];
        proof {
            assert(values_files@ =~= seq![self.chart_values_path]);
        }
        Ok(CommonChart {
            chart_info: ChartInfo {
                name: Self::chart_name(),
                action: if self.replace_cluster_autoscaler {
                    HelmAction::Deploy
                } else {
                    HelmAction::Destroy
                },
                namespace: HelmChartNamespaces::KubeSystem,
                path: self.chart_path.clone(),
                values_files,
                values,
                values_string,
            },
        })
    }
}

/// Checks a deployed Karpenter configuration chart.
#[derive(Clone, Debug)]
pub struct KarpenterChartChecker {}

impl KarpenterChartChecker {
    pub fn new() -> (checker: KarpenterChartChecker) {
        KarpenterChartChecker {}
    }

    /// The chart's installation has no dedicated verification yet: every
    /// installation passes.
    pub fn verify_installation(&self) -> (r: Result<(), CommandError>)
        ensures
            r is Ok,
    {
        Ok(())
    }
}

impl Default for KarpenterChartChecker {
    fn default() -> (checker: KarpenterChartChecker) {
        KarpenterChartChecker::new()
    }
}

/// A fresh requirement carrying the same key, operator and value texts.
fn duplicate_requirement(r: &KarpenterNodePoolRequirement) -> (c: KarpenterNodePoolRequirement)
    ensures
        requirement_view(c) == requirement_view(*r),
{
    let mut values: Vec<String> = Vec::new();
    append_cloned(&mut values, &r.values);
    KarpenterNodePoolRequirement { key: r.key, operator: r.operator, values }
}

/// Appends clones of every element of `src` to `dst`.
fn append_cloned(dst: &mut Vec<String>, src: &Vec<String>)
    ensures
        final(dst)@ == old(dst)@ + src@,
{
    let ghost dst0 = dst@;
    let mut i: usize = 0;
    while i < src.len()
        invariant
            i <= src.len(),
            dst@ == dst0 + src@.subrange(0, i as int),
        decreases src.len() - i,
    {
        dst.push(src[i].clone());
        proof {
            assert(dst@ =~= dst0 + src@.subrange(0, i + 1 as int));
        }
        i = i + 1;
    }
    proof {
        assert(dst0 + src@.subrange(0, src@.len() as int) =~= dst0 + src@);
    }
}

} // verus!
