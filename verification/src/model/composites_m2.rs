//! Platform-level composite records: tenant sets, secret slugs, model
//! runtimes, external services, vault entries and the platform defaults.

use vstd::prelude::*;

use super::ids::{AgentId, McpServerId, ModelProviderId, OrgId, SecretId};
use crate::time::Timestamp;

verus! {

/// Which LLM API protocol a model runtime speaks (phi-core's enum).
pub type ProviderKind = phi_core::provider::model::ApiProtocol;

/// Which orgs may consume a shared platform resource: every org, or only
/// the enumerated ones.
#[derive(Clone, Debug, PartialEq, Eq)]
pub enum TenantSet {
    /// Every org currently on the platform.
    All,
    /// Only the enumerated orgs.
    Only(Vec<OrgId>),
}

/// Model of a [`TenantSet`]: `None` = every org, `Some(ids)` = only those.
impl View for TenantSet {
    type V = Option<Seq<OrgId>>;

    open spec fn view(&self) -> Option<Seq<OrgId>> {
        match self {
            TenantSet::All => None,
            TenantSet::Only(ids) => Some(ids@),
        }
    }
}

impl TenantSet {
    /// Whether `org` may consume the resource.
    pub open spec fn admits(self, org: OrgId) -> bool {
        match self@ {
            None => true,
            Some(ids) => ids.contains(org),
        }
    }

    /// Whether `org` is permitted to consume the resource.
    pub fn contains(&self, org: OrgId) -> (b: bool)
        ensures
            b == self.admits(org),
    {
        match self {
            TenantSet::All => true,
            TenantSet::Only(ids) => {
                let mut i: usize = 0;
                while i < ids.len()
                    invariant
                        0 <= i <= ids@.len(),
                        self@ == Some(ids@),
                        forall|j: int| 0 <= j < i ==> ids@[j] != org,
                    decreases ids@.len() - i,
                {
                    if ids[i] == org {
                        proof {
                            assert(ids@[i as int] == org);
                            assert(ids@.contains(org));
                        }
                        return true;
                    }
                    i = i + 1;
                }
                false
            },
        }
    }

    /// The explicitly enumerated orgs — empty for `All` (callers handle
    /// `All` separately).
    pub fn explicit_orgs(&self) -> (orgs: &[OrgId])
        ensures
            orgs@ == match self@ {
                None => Seq::<OrgId>::empty(),
                Some(ids) => ids,
            },
    {
        match self {
            TenantSet::All => {
                let none: &[OrgId] = &[];
                proof { assert(none@ =~= Seq::<OrgId>::empty()); }
                none
            },
            TenantSet::Only(ids) => ids.as_slice(),
        }
    }
}

/// Kind discriminator for [`ExternalService`] instances.
#[derive(Clone, Copy, Debug, PartialEq, Eq, Hash, Structural)]
pub enum ExternalServiceKind {
    Mcp,
    OpenApi,
    Webhook,
    Other,
}

/// Runtime availability state for a platform resource.
#[derive(Clone, Copy, Debug, PartialEq, Eq, Hash, Structural)]
pub enum RuntimeStatus {
    /// Available (wire name `ok`).
    Healthy,
    Probing,
    Degraded,
    Error,
    Archived,
}

/// Human-readable slug referring to a vault entry (e.g.
/// `anthropic-api-key`), stable across rotations.
#[derive(Clone, Debug, PartialEq, Eq, Hash)]
pub struct SecretRef(pub String);

impl SecretRef {
    /// The slug `slug`.
    pub fn new(slug: String) -> (r: Self)
        ensures
            r.0@ == slug@,
    {
        SecretRef(slug)
    }

    /// The slug `slug`, copied from a string slice.
    pub fn from_str(slug: &str) -> (r: Self)
        ensures
            r.0@ == slug@,
    {
        SecretRef(slug.to_string())
    }

    /// The slug text.
    pub fn as_str(&self) -> (s: &str)
        ensures
            s@ == self.0@,
    {
        self.0.as_str()
    }
}

impl From<String> for SecretRef {
    fn from(slug: String) -> (r: SecretRef) {
        SecretRef(slug)
    }
}

impl vstd::std_specs::convert::FromSpecImpl<String> for SecretRef {
    open spec fn obeys_from_spec() -> bool {
        true
    }

    open spec fn from_spec(slug: String) -> SecretRef {
        SecretRef(slug)
    }
}

/// A `model_runtime_object` instance: a bound LLM provider endpoint (the
/// phi-core `ModelConfig`) plus governance metadata.
#[derive(Clone, Debug)]
pub struct ModelRuntime {
    pub id: ModelProviderId,
    pub config: phi_core::provider::model::ModelConfig,
    /// Vault entry holding the real API key.
    pub secret_ref: SecretRef,
    pub tenants_allowed: TenantSet,
    pub status: RuntimeStatus,
    pub archived_at: Option<Timestamp>,
    pub created_at: Timestamp,
}

/// An `external_service_object` instance — MCP server, OpenAPI spec,
/// webhook, etc.
#[derive(Clone, Debug)]
pub struct ExternalService {
    pub id: McpServerId,
    pub display_name: String,
    pub kind: ExternalServiceKind,
    /// Transport endpoint (stdio command, HTTP URL, etc.).
    pub endpoint: String,
    pub secret_ref: Option<SecretRef>,
    pub tenants_allowed: TenantSet,
    pub status: RuntimeStatus,
    pub archived_at: Option<Timestamp>,
    pub created_at: Timestamp,
}

/// A `secret_credential` catalogue entry in the vault.
#[derive(Clone, Debug)]
pub struct SecretCredential {
    pub id: SecretId,
    pub slug: SecretRef,
    /// Agent authorized to rotate and reveal the secret.
    pub custodian: AgentId,
    pub last_rotated_at: Option<Timestamp>,
    /// Mask the value in audit diffs and list views.
    pub sensitive: bool,
    pub created_at: Timestamp,
}

/// Platform-wide defaults applied at org-creation time (not
/// retroactively).
#[derive(Clone, Debug)]
pub struct PlatformDefaults {
    /// Always `1`: at most one row ever exists.
    pub singleton: u8,
    pub execution_limits: phi_core::context::execution::ExecutionLimits,
    pub default_agent_profile: phi_core::agents::profile::AgentProfile,
    pub context_config: phi_core::context::config::ContextConfig,
    pub retry_config: phi_core::provider::retry::RetryConfig,
    /// Default audit-log retention in days.
    pub default_retention_days: u32,
    /// Default alert-delivery channel handles.
    pub default_alert_channels: Vec<String>,
    pub updated_at: Timestamp,
    /// Revision counter, incremented on every update.
    pub version: u64,
}

} // verus!
