//! The Google Cloud provider's identity: the credentials and region a
//! cluster runs under, and the event context its operations report with.

use vstd::prelude::*;
use vstd::string::StrSliceExecFns;
use vstd::string::StringExecFns;

use crate::events::EventDetails;
use crate::events::Stage;
use crate::events::Transmitter;

verus! {

/// The execution's identifiers, as loaded from the request.
#[derive(Clone, Debug)]
pub struct Context {
    pub organization_long_id: String,
    pub cluster_long_id: String,
    pub execution_id: String,
}

/// Where the infrastructure's state is kept.
#[derive(Clone, Debug)]
pub struct TerraformStateCredentials {
    pub access_key_id: String,
    pub secret_access_key: String,
    pub region: String,
}

/// A short identifier: the first eight characters of a long identifier
/// (all of it, when shorter).
pub open spec fn short_id_of(long_id: Seq<char>) -> Seq<char> {
    if long_id.len() <= 8 {
        long_id
    } else {
        long_id.subrange(0, 8)
    }
}

/// Derives the engine's short identifier from a long one.
pub fn to_short_id(long_id: &str) -> (short: String)
    ensures
        short@ == short_id_of(long_id@),
{
    let chars = long_id.unicode_len();
    if chars <= 8 {
        String::from_str(long_id)
    } else {
        String::from_str(long_id.substring_char(0, 8))
    }
}

/// The Google Cloud provider of one cluster.
pub struct Google {
    pub context: Context,
    pub id: String,
    pub long_id: String,
    pub name: String,
    pub access_key: String,
    pub secret_key: String,
    pub project_id: String,
    pub region: String,
    pub terraform_state_credentials: TerraformStateCredentials,
}

impl Google {
    pub fn new(
        context: Context,
        long_id: &str,
        name: &str,
        access_key: &str,
        secret_key: &str,
        project_id: &str,
        region: &str,
        terraform_state_credentials: TerraformStateCredentials,
    ) -> (google: Google)
        ensures
            google.context == context,
            google.id@ == short_id_of(long_id@),
            google.long_id@ == long_id@,
            google.name@ == name@,
            google.access_key@ == access_key@,
            google.secret_key@ == secret_key@,
            google.project_id@ == project_id@,
            google.region@ == region@,
            google.terraform_state_credentials == terraform_state_credentials,
    {
        Google {
            context,
            id: to_short_id(long_id),
            long_id: String::from_str(long_id),
            name: String::from_str(name),
            access_key: String::from_str(access_key),
            secret_key: String::from_str(secret_key),
            project_id: String::from_str(project_id),
            region: String::from_str(region),
            terraform_state_credentials,
        }
    }

    /// The event context of this provider's operations: the execution's
    /// identifiers under the given stage, transmitted by this provider.
    pub fn get_event_details(&self, stage: Stage) -> (details: EventDetails)
        ensures
            details.organization_id == self.context.organization_long_id,
            details.cluster_id == self.context.cluster_long_id,
            details.execution_id == self.context.execution_id,
            details.stage == stage,
            details.transmitter matches Transmitter::CloudProvider { long_id, name }
                && long_id == self.long_id && name == self.name,
    {
        EventDetails::new(
            self.context.organization_long_id.clone(),
            self.context.cluster_long_id.clone(),
            self.context.execution_id.clone(),
            stage,
            self.to_transmitter(),
        )
    }

    /// This provider, as an event transmitter.
    pub fn to_transmitter(&self) -> (t: Transmitter)
        ensures
            t matches Transmitter::CloudProvider { long_id, name } && long_id == self.long_id
                && name == self.name,
    {
        Transmitter::CloudProvider { long_id: self.long_id.clone(), name: self.name.clone() }
    }

    /// Google clusters carry no access-key credentials: the key pair is
    /// empty.
    pub fn access_key_id(&self) -> (k: String)
        ensures
            k@.len() == 0,
    {
        String::new()
    }

    /// See [`Google::access_key_id`].
    pub fn secret_access_key(&self) -> (k: String)
        ensures
            k@.len() == 0,
    {
        String::new()
    }

    /// No credential environment variables are injected for Google
    /// clusters.
    pub fn credentials_environment_variables(&self) -> (vars: Vec<(String, String)>)
        ensures
            vars@.len() == 0,
    {
        Vec::new()
    }

    /// Validation of the provider's credentials is not performed yet:
    /// every configuration passes.
    pub fn is_valid(&self) -> (r: Result<(), crate::errors::EngineError>)
        ensures
            r is Ok,
    {
        Ok(())
    }
}

} // verus!
