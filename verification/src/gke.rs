//! GKE cluster lifecycle logic: the creation flow's decisions, the
//! managed object-storage provisioning, and the dispatch of lifecycle
//! operations to their infrastructure steps.

use vstd::prelude::*;
use vstd::pervasive::unreached;
use vstd::string::StrSliceExecFns;
use vstd::string::StringExecFns;

use crate::errors::CommandError;
use crate::errors::EngineError;
use crate::events::InfrastructureStep;
use crate::text::base64_of_text;
use crate::text::encode_base64_str;

verus! {

/// What the applied GKE infrastructure reports back.
#[derive(Clone, Debug)]
pub struct GkeQoveryTerraformOutput {
    pub gke_cluster_public_hostname: String,
    pub loki_logging_service_account_email: String,
    pub kubeconfig: String,
}

/// The progress category a lifecycle operation reports under.
#[derive(Clone, Copy, Debug, PartialEq, Eq, Structural)]
pub enum ServiceAction {
    Create,
    Pause,
    Delete,
}

/// The lifecycle operations a cluster can undergo.
#[derive(Clone, Copy, Debug, PartialEq, Eq, Structural)]
pub enum ClusterOperation {
    Create,
    Pause,
    Delete,
    Upgrade,
}

/// Which infrastructure step and progress category each lifecycle
/// operation runs under.  An upgrade reports its progress as a creation:
/// there is no dedicated long-task category for upgrades.
pub fn gke_operation_dispatch(operation: ClusterOperation) -> (r: (
    InfrastructureStep,
    ServiceAction,
))
    ensures
        operation == ClusterOperation::Create ==> r == (
            InfrastructureStep::Create,
            ServiceAction::Create,
        ),
        operation == ClusterOperation::Pause ==> r == (
            InfrastructureStep::Pause,
            ServiceAction::Pause,
        ),
        operation == ClusterOperation::Delete ==> r == (
            InfrastructureStep::Delete,
            ServiceAction::Delete,
        ),
        operation == ClusterOperation::Upgrade ==> r == (
            InfrastructureStep::Upgrade,
            ServiceAction::Create,
        ),
{
    match operation {
        ClusterOperation::Create => (InfrastructureStep::Create, ServiceAction::Create),
        ClusterOperation::Pause => (InfrastructureStep::Pause, ServiceAction::Pause),
        ClusterOperation::Delete => (InfrastructureStep::Delete, ServiceAction::Delete),
        ClusterOperation::Upgrade => (InfrastructureStep::Upgrade, ServiceAction::Create),
    }
}

/// A managed bucket's state as the storage collaborator reports it.
#[derive(Clone, Copy, Debug)]
pub struct BucketInfo {
    pub versioning_activated: bool,
}

/// An order from the object-storage provisioning to the shell.
#[derive(Debug)]
pub enum ObjectStorageAction {
    /// Create the named bucket, or report it as existing; answer with
    /// [`ObjectStorageEvent::BucketCreated`].
    CreateBucket { name: String },
    /// Activate versioning on the named bucket; answer with
    /// [`ObjectStorageEvent::BucketUpdated`].
    UpdateBucketVersioning { name: String },
    /// Provisioning finished with this outcome; no event is expected.
    Finished { result: Result<(), EngineError> },
}

/// An observed result handed back by the shell.
#[derive(Debug)]
pub enum ObjectStorageEvent {
    BucketCreated(Result<BucketInfo, CommandError>),
    BucketUpdated(Result<(), CommandError>),
}

/// Where the provisioning stands.
#[derive(Clone, Copy, Debug)]
pub enum ObjectStoragePhase {
    /// Creation of the bucket at `current` is outstanding.
    CreateWait { current: usize },
    /// The versioning update of the bucket at `current` is outstanding.
    UpdateWait { current: usize },
    /// Terminal: provisioning finished.
    Complete,
}

/// Provisioning of the cluster's managed object-storage buckets, one at
/// a time: each bucket is created (or found existing), and versioning is
/// activated on buckets that do not have it yet — buckets created before
/// versioning became the default.
pub struct ObjectStorageFlow {
    pub buckets: Vec<String>,
    pub phase: ObjectStoragePhase,
}

/// Well-formedness: the phase's bucket index stays within the list.
pub open spec fn object_storage_wf(m: ObjectStorageFlow) -> bool {
    match m.phase {
        ObjectStoragePhase::CreateWait { current } => current < m.buckets.len(),
        ObjectStoragePhase::UpdateWait { current } => current < m.buckets.len(),
        ObjectStoragePhase::Complete => true,
    }
}

/// The event the provisioning expects in its current phase.
pub open spec fn object_storage_expects(m: ObjectStorageFlow, e: ObjectStorageEvent) -> bool {
    match m.phase {
        ObjectStoragePhase::CreateWait { .. } => e is BucketCreated,
        ObjectStoragePhase::UpdateWait { .. } => e is BucketUpdated,
        ObjectStoragePhase::Complete => false,
    }
}

/// Begins the provisioning of the given buckets; with none to provision
/// it finishes successfully at once.
pub fn create_object_storage(buckets: Vec<String>) -> (r: (
    ObjectStorageFlow,
    ObjectStorageAction,
))
    ensures
        object_storage_wf(r.0),
        r.0.buckets == buckets,
        buckets@.len() == 0 ==> r.0.phase is Complete
            && r.1 == (ObjectStorageAction::Finished { result: Ok::<(), EngineError>(()) }),
        buckets@.len() > 0 ==> r.0.phase == (ObjectStoragePhase::CreateWait { current: 0 })
            && (r.1 matches ObjectStorageAction::CreateBucket { name } && name == buckets@[0]),
{
    if buckets.len() == 0 {
        let flow = ObjectStorageFlow { buckets, phase: ObjectStoragePhase::Complete };
        (flow, ObjectStorageAction::Finished { result: Ok(()) })
    } else {
        let name = buckets[0].clone();
        let flow = ObjectStorageFlow {
            buckets,
            phase: ObjectStoragePhase::CreateWait { current: 0 },
        };
        (flow, ObjectStorageAction::CreateBucket { name })
    }
}

impl ObjectStorageFlow {
    /// The order that advances to the bucket after `current`, or reports
    /// success when none is left.
    fn advance(&mut self, current: usize) -> (action: ObjectStorageAction)
        requires
            current < old(self).buckets.len(),
        ensures
            final(self).buckets == old(self).buckets,
            object_storage_wf(*final(self)),
            current + 1 < old(self).buckets.len() ==> final(self).phase == (
                ObjectStoragePhase::CreateWait { current: (current + 1) as usize }
            ) && (action matches ObjectStorageAction::CreateBucket { name } && name == old(
                self,
            ).buckets@[current + 1]),
            current + 1 == old(self).buckets.len() ==> final(self).phase is Complete && action == (
                ObjectStorageAction::Finished { result: Ok::<(), EngineError>(()) }
            ),
    {
        if current + 1 < self.buckets.len() {
            let next = current + 1;
            self.phase = ObjectStoragePhase::CreateWait { current: next };
            ObjectStorageAction::CreateBucket { name: self.buckets[next].clone() }
        } else {
            self.phase = ObjectStoragePhase::Complete;
            ObjectStorageAction::Finished { result: Ok(()) }
        }
    }

    /// Feeds one observed result back and returns the next order.  A
    /// creation failure is fatal; a created or existing bucket that
    /// already has versioning active needs nothing more; one without it
    /// gets versioning activated before the next bucket is taken up.
    pub fn on_event(&mut self, event: ObjectStorageEvent) -> (action: ObjectStorageAction)
        requires
            object_storage_wf(*old(self)),
            object_storage_expects(*old(self), event),
        ensures
            object_storage_wf(*final(self)),
            final(self).buckets == old(self).buckets,
            (event matches ObjectStorageEvent::BucketCreated(Err(e)) ==> final(self).phase
                is Complete && action == (ObjectStorageAction::Finished {
                result: Err(EngineError::ObjectStorage { message: e.safe_message }),
            })),
            (event matches ObjectStorageEvent::BucketCreated(Ok(info)) ==> ({
                let current = old(self).phase->CreateWait_current;
                if info.versioning_activated {
                    advanced_from(*old(self), *final(self), action, current)
                } else {
                    final(self).phase == (ObjectStoragePhase::UpdateWait { current })
                        && (action matches ObjectStorageAction::UpdateBucketVersioning { name }
                        && name == old(self).buckets@[current as int])
                }
            })),
            (event matches ObjectStorageEvent::BucketUpdated(res) ==> ({
                let current = old(self).phase->UpdateWait_current;
                match res {
                    Ok(_) => advanced_from(*old(self), *final(self), action, current),
                    Err(e) => final(self).phase is Complete && action == (
                        ObjectStorageAction::Finished {
                            result: Err(EngineError::ObjectStorage { message: e.safe_message }),
                        }
                    ),
                }
            })),
    {
        let ph = self.phase;
        match (ph, event) {
            (ObjectStoragePhase::CreateWait { current }, ObjectStorageEvent::BucketCreated(res)) => {
                match res {
                    Ok(info) => {
                        if info.versioning_activated {
                            self.advance(current)
                        } else {
                            self.phase = ObjectStoragePhase::UpdateWait { current };
                            ObjectStorageAction::UpdateBucketVersioning {
                                name: self.buckets[current].clone(),
                            }
                        }
                    },
                    Err(e) => {
                        self.phase = ObjectStoragePhase::Complete;
                        ObjectStorageAction::Finished {
                            result: Err(EngineError::ObjectStorage { message: e.safe_message }),
                        }
                    },
                }
            },
            (ObjectStoragePhase::UpdateWait { current }, ObjectStorageEvent::BucketUpdated(res)) => {
                match res {
                    Ok(_) => self.advance(current),
                    Err(e) => {
                        self.phase = ObjectStoragePhase::Complete;
                        ObjectStorageAction::Finished {
                            result: Err(EngineError::ObjectStorage { message: e.safe_message }),
                        }
                    },
                }
            },
            _ => unreached(),
        }
    }
}

/// What the creation flow reads of the cluster, its credentials and its
/// options, as plain values.
#[derive(Clone, Debug)]
pub struct GkeClusterSource {
    pub gcp_credentials_json: String,
    pub project_id: String,
    pub region: String,
    pub cluster_kind: String,
    pub cloud_provider_name: String,
    pub cluster_long_id: String,
    pub grafana_admin_user: String,
    pub grafana_admin_password: String,
    pub organization_long_id: String,
    pub is_test_cluster: bool,
    pub is_dry_run: bool,
}

/// The cluster configuration pushed to the vault after a creation.
#[derive(Clone, Debug)]
pub struct ClusterSecretsGcp {
    pub gcp_credentials_json: String,
    pub project_id: String,
    pub region: String,
    pub kubeconfig_b64: Option<String>,
    pub cluster_public_hostname: Option<String>,
    pub cluster_kind: String,
    pub cloud_provider_name: String,
    pub cluster_long_id: String,
    pub grafana_admin_user: String,
    pub grafana_admin_password: String,
    pub organization_long_id: String,
    pub is_test_cluster: bool,
}

/// Longest kubeconfig, in characters, whose vault copy is attempted; the
/// base64 encoder's input bound.
pub const VAULT_KUBECONFIG_MAX_CHARS: usize = 0x1000_0000;

/// An order from the creation flow to the shell.
#[derive(Debug)]
pub enum GkeCreateAction {
    /// Provision the managed object-storage buckets (run an
    /// [`ObjectStorageFlow`]); answer with [`GkeCreateEvent::StorageDone`].
    CreateObjectStorage,
    /// Render the infrastructure template context for the cluster; answer
    /// with [`GkeCreateEvent::ContextRendered`].
    RenderInfraContext,
    /// Apply the rendered infrastructure; answer with
    /// [`GkeCreateEvent::TerraformApplied`].
    TerraformCreate,
    /// Write the returned kubeconfig to the cluster's kubeconfig file;
    /// answer with [`GkeCreateEvent::KubeconfigUpdated`].
    UpdateKubeconfigFile { kubeconfig: String },
    /// Configure the cloud CLI for the cluster; answer with
    /// [`GkeCreateEvent::GcloudConfigured`].  The outcome is advisory.
    ConfigureGcloud,
    /// Wait for all worker nodes to be ready; answer with
    /// [`GkeCreateEvent::WorkersChecked`].
    CheckWorkers,
    /// Read the kubeconfig file back; answer with
    /// [`GkeCreateEvent::KubeconfigRead`], carrying the file's text or the
    /// read error's text.
    ReadKubeconfigFile,
    /// Push the cluster configuration to the vault; answer with
    /// [`GkeCreateEvent::VaultUpdated`].  A failure only warns.
    UpdateVaultConfig { secrets: ClusterSecretsGcp },
    /// Deploy the cluster's Helm charts; answer with
    /// [`GkeCreateEvent::ChartsDeployed`].
    DeployCharts,
    /// Creation finished with this outcome; no event is expected.
    Finished { result: Result<(), EngineError> },
}

/// An observed result handed back by the shell.
#[derive(Debug)]
pub enum GkeCreateEvent {
    StorageDone(Result<(), EngineError>),
    ContextRendered(Result<(), EngineError>),
    TerraformApplied(Result<GkeQoveryTerraformOutput, EngineError>),
    KubeconfigUpdated(Result<(), EngineError>),
    GcloudConfigured(Result<(), CommandError>),
    WorkersChecked(Result<(), CommandError>),
    KubeconfigRead(Result<String, String>),
    VaultUpdated(Result<(), CommandError>),
    ChartsDeployed(Result<(), EngineError>),
}

/// Where the creation flow stands.
#[derive(Clone, Copy, Debug)]
pub enum GkeCreatePhase {
    StorageWait,
    ContextWait,
    TerraformWait,
    KubeconfigUpdateWait,
    GcloudWait,
    WorkersWait,
    KubeconfigReadWait,
    VaultWait,
    ChartsWait,
    Complete,
}

/// One GKE cluster creation in flight: storage, infrastructure, node
/// readiness, vault copy and charts, in that order.
pub struct GkeCreateFlow {
    pub cluster: GkeClusterSource,
    /// The applied infrastructure's output, once it arrived.
    pub terraform_output: Option<GkeQoveryTerraformOutput>,
    pub phase: GkeCreatePhase,
}

/// Well-formedness: from the kubeconfig write on, the infrastructure
/// output is at hand.
pub open spec fn gke_create_wf(m: GkeCreateFlow) -> bool {
    match m.phase {
        GkeCreatePhase::KubeconfigUpdateWait => m.terraform_output is Some,
        GkeCreatePhase::GcloudWait => m.terraform_output is Some,
        GkeCreatePhase::WorkersWait => m.terraform_output is Some,
        GkeCreatePhase::KubeconfigReadWait => m.terraform_output is Some,
        _ => true,
    }
}

/// The event the creation flow expects in its current phase.
pub open spec fn gke_create_expects(m: GkeCreateFlow, e: GkeCreateEvent) -> bool {
    match m.phase {
        GkeCreatePhase::StorageWait => e is StorageDone,
        GkeCreatePhase::ContextWait => e is ContextRendered,
        GkeCreatePhase::TerraformWait => e is TerraformApplied,
        GkeCreatePhase::KubeconfigUpdateWait => e is KubeconfigUpdated,
        GkeCreatePhase::GcloudWait => e is GcloudConfigured,
        GkeCreatePhase::WorkersWait => e is WorkersChecked,
        GkeCreatePhase::KubeconfigReadWait => e is KubeconfigRead,
        GkeCreatePhase::VaultWait => e is VaultUpdated,
        GkeCreatePhase::ChartsWait => e is ChartsDeployed,
        GkeCreatePhase::Complete => false,
    }
}

/// Begins a GKE cluster creation: the first step provisions the managed
/// object storage.
pub fn create_gke_cluster(cluster: GkeClusterSource) -> (r: (GkeCreateFlow, GkeCreateAction))
    ensures
        gke_create_wf(r.0),
        r.0.cluster == cluster,
        r.0.phase is StorageWait,
        r.1 is CreateObjectStorage,
{
    let flow = GkeCreateFlow { cluster, terraform_output: None, phase: GkeCreatePhase::StorageWait };
    (flow, GkeCreateAction::CreateObjectStorage)
}

impl GkeCreateFlow {
    /// Feeds one observed result back and returns the next order.
    ///
    /// Storage, rendering, the apply, the kubeconfig write, node
    /// readiness and the charts are fatal when they fail; the cloud-CLI
    /// configuration and the vault copy are advisory and never stop the
    /// creation.  A dry run ends successfully right after the apply.
    pub fn on_event(&mut self, event: GkeCreateEvent) -> (action: GkeCreateAction)
        requires
            gke_create_wf(*old(self)),
            gke_create_expects(*old(self), event),
        ensures
            gke_create_wf(*final(self)),
            final(self).cluster == old(self).cluster,
            (event matches GkeCreateEvent::StorageDone(res) ==> match res {
                Ok(_) => final(self).phase is ContextWait && action is RenderInfraContext,
                Err(e) => final(self).phase is Complete && action == (GkeCreateAction::Finished {
                    result: Err(e),
                }),
            }),
            (event matches GkeCreateEvent::ContextRendered(res) ==> match res {
                Ok(_) => final(self).phase is TerraformWait && action is TerraformCreate,
                Err(e) => final(self).phase is Complete && action == (GkeCreateAction::Finished {
                    result: Err(e),
                }),
            }),
            (event matches GkeCreateEvent::TerraformApplied(res) ==> match res {
                Ok(output) => if old(self).cluster.is_dry_run {
                    final(self).phase is Complete && action == (GkeCreateAction::Finished {
                        result: Ok::<(), EngineError>(()),
                    })
                } else {
                    final(self).phase is KubeconfigUpdateWait
                        && final(self).terraform_output == Some(output)
                        && (action matches GkeCreateAction::UpdateKubeconfigFile { kubeconfig }
                        && kubeconfig == output.kubeconfig)
                },
                Err(e) => final(self).phase is Complete && action == (GkeCreateAction::Finished {
                    result: Err(e),
                }),
            }),
            (event matches GkeCreateEvent::KubeconfigUpdated(res) ==> match res {
                Ok(_) => final(self).phase is GcloudWait && action is ConfigureGcloud,
                Err(e) => final(self).phase is Complete && action == (GkeCreateAction::Finished {
                    result: Err(e),
                }),
            }),
            // The cloud-CLI configuration is advisory: whatever it
            // reported, the flow moves on to the node-readiness check.
            (event is GcloudConfigured ==> final(self).phase is WorkersWait
                && action is CheckWorkers),
            (event matches GkeCreateEvent::WorkersChecked(res) ==> match res {
                Ok(_) => final(self).phase is KubeconfigReadWait && action is ReadKubeconfigFile,
                Err(e) => final(self).phase is Complete && action == (GkeCreateAction::Finished {
                    result: Err(EngineError::K8sNodeNotReady { cause: e }),
                }),
            }),
            (event matches GkeCreateEvent::KubeconfigRead(res) ==> match res {
                Ok(kubeconfig) => if kubeconfig@.len() <= VAULT_KUBECONFIG_MAX_CHARS {
                    final(self).phase is VaultWait
                        && (action matches GkeCreateAction::UpdateVaultConfig { secrets }
                        && vault_secrets_for(*old(self), kubeconfig@, secrets))
                } else {
                    // An oversized kubeconfig skips the advisory vault
                    // copy rather than fail the creation.
                    final(self).phase is ChartsWait && action is DeployCharts
                },
                Err(io_message) => final(self).phase is Complete
                    && (action matches GkeCreateAction::Finished { result }
                    && result matches Err(e)
                    && e matches EngineError::CannotRetrieveClusterConfigFile { cause }
                    && cause.safe_message@ == "Cannot read kubeconfig file: "@ + io_message@),
            }),
            // The vault copy is advisory: whatever it reported, the
            // charts deployment follows.
            (event is VaultUpdated ==> final(self).phase is ChartsWait && action is DeployCharts),
            (event matches GkeCreateEvent::ChartsDeployed(res) ==> final(self).phase is Complete
                && action == (GkeCreateAction::Finished { result: res })),
    {
        let ph = self.phase;
        match (ph, event) {
            (GkeCreatePhase::StorageWait, GkeCreateEvent::StorageDone(res)) => match res {
                Ok(_) => {
                    self.phase = GkeCreatePhase::ContextWait;
                    GkeCreateAction::RenderInfraContext
                },
                Err(e) => {
                    self.phase = GkeCreatePhase::Complete;
                    GkeCreateAction::Finished { result: Err(e) }
                },
            },
            (GkeCreatePhase::ContextWait, GkeCreateEvent::ContextRendered(res)) => match res {
                Ok(_) => {
                    self.phase = GkeCreatePhase::TerraformWait;
                    GkeCreateAction::TerraformCreate
                },
                Err(e) => {
                    self.phase = GkeCreatePhase::Complete;
                    GkeCreateAction::Finished { result: Err(e) }
                },
            },
            (GkeCreatePhase::TerraformWait, GkeCreateEvent::TerraformApplied(res)) => match res {
                Ok(output) => {
                    if self.cluster.is_dry_run {
                        self.phase = GkeCreatePhase::Complete;
                        GkeCreateAction::Finished { result: Ok(()) }
                    } else {
                        let kubeconfig = output.kubeconfig.clone();
                        self.terraform_output = Some(output);
                        self.phase = GkeCreatePhase::KubeconfigUpdateWait;
                        GkeCreateAction::UpdateKubeconfigFile { kubeconfig }
                    }
                },
                Err(e) => {
                    self.phase = GkeCreatePhase::Complete;
                    GkeCreateAction::Finished { result: Err(e) }
                },
            },
            (GkeCreatePhase::KubeconfigUpdateWait, GkeCreateEvent::KubeconfigUpdated(res)) => {
                match res {
                    Ok(_) => {
                        self.phase = GkeCreatePhase::GcloudWait;
                        GkeCreateAction::ConfigureGcloud
                    },
                    Err(e) => {
                        self.phase = GkeCreatePhase::Complete;
                        GkeCreateAction::Finished { result: Err(e) }
                    },
                }
            },
            (GkeCreatePhase::GcloudWait, GkeCreateEvent::GcloudConfigured(_)) => {
                self.phase = GkeCreatePhase::WorkersWait;
                GkeCreateAction::CheckWorkers
            },
            (GkeCreatePhase::WorkersWait, GkeCreateEvent::WorkersChecked(res)) => match res {
                Ok(_) => {
                    self.phase = GkeCreatePhase::KubeconfigReadWait;
                    GkeCreateAction::ReadKubeconfigFile
                },
                Err(e) => {
                    self.phase = GkeCreatePhase::Complete;
                    GkeCreateAction::Finished {
                        result: Err(EngineError::K8sNodeNotReady { cause: e }),
                    }
                },
            },
            (GkeCreatePhase::KubeconfigReadWait, GkeCreateEvent::KubeconfigRead(res)) => match res {
                Ok(kubeconfig) => {
                    if kubeconfig.as_str().unicode_len() <= VAULT_KUBECONFIG_MAX_CHARS {
                        let secrets = self.build_vault_secrets(&kubeconfig);
                        self.phase = GkeCreatePhase::VaultWait;
                        GkeCreateAction::UpdateVaultConfig { secrets }
                    } else {
                        self.phase = GkeCreatePhase::ChartsWait;
                        GkeCreateAction::DeployCharts
                    }
                },
                Err(io_message) => {
                    self.phase = GkeCreatePhase::Complete;
                    let cause = CommandError::new_from_safe_message(
                        String::from_str("Cannot read kubeconfig file: ").concat(
                            io_message.as_str(),
                        ),
                    );
                    GkeCreateAction::Finished {
                        result: Err(EngineError::CannotRetrieveClusterConfigFile { cause }),
                    }
                },
            },
            (GkeCreatePhase::VaultWait, GkeCreateEvent::VaultUpdated(_)) => {
                self.phase = GkeCreatePhase::ChartsWait;
                GkeCreateAction::DeployCharts
            },
            (GkeCreatePhase::ChartsWait, GkeCreateEvent::ChartsDeployed(res)) => {
                self.phase = GkeCreatePhase::Complete;
                GkeCreateAction::Finished { result: res }
            },
            _ => unreached(),
        }
    }

    /// The vault copy of the cluster's configuration: its credentials
    /// and identity, the public hostname the infrastructure reported,
    /// and the kubeconfig base64-encoded.
    fn build_vault_secrets(&self, kubeconfig: &String) -> (secrets: ClusterSecretsGcp)
        requires
            self.terraform_output is Some,
            kubeconfig@.len() <= VAULT_KUBECONFIG_MAX_CHARS,
        ensures
            vault_secrets_for(*self, kubeconfig@, secrets),
    {
        let output = match &self.terraform_output {
            Some(o) => o,
            None => unreached(),
        };
        ClusterSecretsGcp {
            gcp_credentials_json: self.cluster.gcp_credentials_json.clone(),
            project_id: self.cluster.project_id.clone(),
            region: self.cluster.region.clone(),
            kubeconfig_b64: Some(encode_base64_str(kubeconfig.as_str())),
            cluster_public_hostname: Some(output.gke_cluster_public_hostname.clone()),
            cluster_kind: self.cluster.cluster_kind.clone(),
            cloud_provider_name: self.cluster.cloud_provider_name.clone(),
            cluster_long_id: self.cluster.cluster_long_id.clone(),
            grafana_admin_user: self.cluster.grafana_admin_user.clone(),
            grafana_admin_password: self.cluster.grafana_admin_password.clone(),
            organization_long_id: self.cluster.organization_long_id.clone(),
            is_test_cluster: self.cluster.is_test_cluster,
        }
    }
}

/// Whether `secrets` is the vault copy for flow `m` and this kubeconfig
/// text: the cluster's facts verbatim, the reported hostname, and the
/// kubeconfig's base64 encoding.
pub open spec fn vault_secrets_for(
    m: GkeCreateFlow,
    kubeconfig: Seq<char>,
    secrets: ClusterSecretsGcp,
) -> bool {
    &&& secrets.gcp_credentials_json == m.cluster.gcp_credentials_json
    &&& secrets.project_id == m.cluster.project_id
    &&& secrets.region == m.cluster.region
    &&& (secrets.kubeconfig_b64 matches Some(b) && b@ == base64_of_text(kubeconfig))
    &&& (secrets.cluster_public_hostname matches Some(h) && m.terraform_output matches Some(o)
        && h == o.gke_cluster_public_hostname)
    &&& secrets.cluster_kind == m.cluster.cluster_kind
    &&& secrets.cloud_provider_name == m.cluster.cloud_provider_name
    &&& secrets.cluster_long_id == m.cluster.cluster_long_id
    &&& secrets.grafana_admin_user == m.cluster.grafana_admin_user
    &&& secrets.grafana_admin_password == m.cluster.grafana_admin_password
    &&& secrets.organization_long_id == m.cluster.organization_long_id
    &&& secrets.is_test_cluster == m.cluster.is_test_cluster
}

/// Whether `after` and `action` are the advance from bucket `current` of
/// `before`: the next bucket's creation, or the successful finish after
/// the last one.
pub open spec fn advanced_from(
    before: ObjectStorageFlow,
    after: ObjectStorageFlow,
    action: ObjectStorageAction,
    current: usize,
) -> bool {
    if current + 1 < before.buckets.len() {
        after.phase == (ObjectStoragePhase::CreateWait { current: (current + 1) as usize })
            && (action matches ObjectStorageAction::CreateBucket { name } && name
            == before.buckets@[current + 1])
    } else {
        after.phase is Complete && action == (ObjectStorageAction::Finished {
            result: Ok::<(), EngineError>(()),
        })
    }
}

} // verus!
