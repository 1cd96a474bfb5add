//! The graph model — every type that populates the phi ontology.
//!
//! - [`ids`] — strongly-typed UUID newtypes for every entity.
//! - [`fundamentals`] — the nine atomic resource classes.
//! - [`composites`] and its companions — named bundles of fundamentals and
//!   the composite records of each tier.
//! - [`nodes`] — the node types and the `NodeKind` inventory.
//! - [`edges`] — the `Edge` enum.
//! - [`principal_resource`] — which identifiers hold authority and which
//!   can be owned.
//! - [`external`] — declarations of the phi-core and JSON types the model
//!   embeds.

pub mod composites;
pub mod composites_m2;
pub mod composites_m3;
pub mod composites_m4;
pub mod composites_m5;
pub mod edges;
pub mod external;
pub mod fundamentals;
pub mod ids;
pub mod nodes;
pub mod principal_resource;

pub use composites::Composite;
pub use composites_m2::{
    ExternalService, ExternalServiceKind, ModelRuntime, PlatformDefaults, ProviderKind,
    RuntimeStatus, SecretCredential, SecretRef, TenantSet,
};
pub use composites_m3::{ConsentPolicy, OrganizationDefaultsSnapshot, TokenBudgetPool};
pub use composites_m4::{
    AgentExecutionLimitsOverride, KeyResultStatus, MeasurementType, Objective, ObjectiveStatus,
    ResourceBoundaries,
};
pub use composites_m5::{
    AgentCatalogEntry, RecentSessionEntry, SessionDetail, ShapeBPendingProject,
    SystemAgentRuntimeStatus,
};
pub use edges::{Edge, EDGE_KIND_NAMES};
pub use fundamentals::Fundamental;
pub use ids::{
    AgentCatalogEntryId, AgentId, AuditEventId, AuthRequestId, ConsentId, EdgeId, GrantId, LoopId,
    McpServerId, MemoryId, ModelProviderId, NodeId, OrgId, ProjectId, SecretId, SessionId,
    SystemAgentRuntimeStatusId, TemplateId, TurnNodeId, UserId,
};
pub use nodes::{
    Agent, AgentKind, AgentProfile, AgentRole, ApprovalMode, ApproverSlot, ApproverSlotState,
    AuthRequest, AuthRequestState, Channel, ChannelKind, Consent, ConsentScope, ConsentState,
    InboxObject, LoopRecordNode, Memory, NodeKind, OutboxObject, PrincipalRef, ProjectShape,
    ProjectStatus, ResourceRef, ResourceSlot, ResourceSlotState, Session, SessionGovernanceState,
    Template, TemplateKind, TimeoutResponse, ToolAuthorityManifest, TurnNode, User,
};
pub use principal_resource::{Principal, Resource};
