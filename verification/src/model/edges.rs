//! The 74 edge types of the v0 ontology, modelled as one tagged enum.
//!
//! Each variant carries the edge's id and the ids of its `from` and `to`
//! nodes. Where the ontology lists distinct source/target type pairs
//! for one edge name (`CONNECTS_TO`, `HOLDS_GRANT`, `PROVIDES_TOOL`,
//! `OWNED_BY`, `SUBMITTED_BY`), each pair is a variant of its own.

use vstd::prelude::*;

use super::ids::{
    is_v4, AgentId, AuthRequestId, BlueprintId, ConsentId, EdgeId, GrantId, MemoryId, NodeId, OrgId,
    OwnedResourceId, ProjectId, SessionId, TemplateId, UserId,
};
use super::principal_resource::{Principal, Resource};

verus! {

/// Every edge type in the v0 ontology.
#[derive(Clone, Copy, Debug)]
#[allow(inconsistent_fields)]
pub enum Edge {
    /// Agent → profile it uses (wire name `USES_PROFILE`; legacy reads accept `HAS_PROFILE`).
    UsesProfile { id: EdgeId, from: AgentId, to: NodeId },
    UsesModel { id: EdgeId, from: AgentId, to: NodeId },
    HasTool { id: EdgeId, from: AgentId, to: NodeId },
    HasSkill { id: EdgeId, from: AgentId, to: NodeId },
    AgentHoldsGrant { id: EdgeId, from: AgentId, to: GrantId },
    GovernedBy { id: EdgeId, from: AgentId, to: NodeId },
    UsesCompaction { id: EdgeId, from: AgentId, to: NodeId },
    UsesRetry { id: EdgeId, from: AgentId, to: NodeId },
    UsesCache { id: EdgeId, from: AgentId, to: NodeId },
    UsesEvaluation { id: EdgeId, from: AgentId, to: NodeId },
    HasSystemPrompt { id: EdgeId, from: AgentId, to: NodeId },
    AgentConnectsToMcpServer { id: EdgeId, from: AgentId, to: NodeId },
    AgentConnectsToOpenApiSpec { id: EdgeId, from: AgentId, to: NodeId },
    RunsSession { id: EdgeId, from: AgentId, to: SessionId },
    DelegatesTo { id: EdgeId, from: AgentId, to: AgentId },
    /// Specific case of the generic `OWNED_BY`: an Agent is owned by a User.
    AgentOwnedByUser { id: EdgeId, from: AgentId, to: UserId },
    HasMemory { id: EdgeId, from: AgentId, to: MemoryId },
    HasInbox { id: EdgeId, from: AgentId, to: NodeId },
    HasOutbox { id: EdgeId, from: AgentId, to: NodeId },
    HasChannel { id: EdgeId, from: AgentId, to: NodeId },
    LoadedFrom { id: EdgeId, from: AgentId, to: NodeId },
    MemberOf { id: EdgeId, from: AgentId, to: OrgId },
    ContainsLoop { id: EdgeId, from: SessionId, to: NodeId },
    ContinuesFrom { id: EdgeId, from: NodeId, to: NodeId },
    ContainsTurn { id: EdgeId, from: NodeId, to: NodeId },
    ConfiguredWith { id: EdgeId, from: NodeId, to: NodeId },
    Emits { id: EdgeId, from: NodeId, to: NodeId },
    Produces { id: EdgeId, from: NodeId, to: NodeId },
    ExecutesTool { id: EdgeId, from: NodeId, to: NodeId },
    SpawnedFrom { id: EdgeId, from: SessionId, to: SessionId },
    SpawnedChild { id: EdgeId, from: NodeId, to: NodeId },
    ParallelWith { id: EdgeId, from: NodeId, to: NodeId },
    ImplementedBy { id: EdgeId, from: NodeId, to: NodeId },
    HasManifest { id: EdgeId, from: NodeId, to: NodeId },
    McpProvidesTool { id: EdgeId, from: NodeId, to: NodeId },
    OpenApiProvidesTool { id: EdgeId, from: NodeId, to: NodeId },
    ContainsBlock { id: EdgeId, from: NodeId, to: NodeId },
    HasBoard { id: EdgeId, from: OrgId, to: AgentId },
    HasCeo { id: EdgeId, from: OrgId, to: AgentId },
    HasProject { id: EdgeId, from: OrgId, to: ProjectId },
    HasMember { id: EdgeId, from: OrgId, to: AgentId },
    HasSuborganization { id: EdgeId, from: OrgId, to: OrgId },
    HasSponsor { id: EdgeId, from: ProjectId, to: AgentId },
    HasAgent { id: EdgeId, from: ProjectId, to: AgentId },
    /// Project P → Agent X: X is the designated lead of P.
    HasLead { id: EdgeId, from: ProjectId, to: AgentId },
    /// Agent M → Agent S: M manages S within `org`.
    Manages { id: EdgeId, from: AgentId, to: AgentId, org: OrgId },
    /// Agent S → Agent T: S supervises T within `project`.
    HasAgentSupervisor { id: EdgeId, from: AgentId, to: AgentId, project: ProjectId },
    HasTask { id: EdgeId, from: ProjectId, to: NodeId },
    /// Project P → Project Q: Q is a sub-project of P.
    HasSubproject { id: EdgeId, from: ProjectId, to: ProjectId },
    /// Project P → AgentConfig C: the project-level root configuration.
    HasConfig { id: EdgeId, from: ProjectId, to: NodeId },
    BelongsTo { id: EdgeId, from: ProjectId, to: OrgId },
    AssignedTo { id: EdgeId, from: NodeId, to: AgentId },
    HasBid { id: EdgeId, from: NodeId, to: NodeId },
    BidSubmittedBy { id: EdgeId, from: NodeId, to: AgentId },
    Rates { id: EdgeId, from: NodeId, to: AgentId },
    GivenBy { id: EdgeId, from: NodeId, to: AgentId },
    /// Generic form: any Resource is owned by any Principal.
    OwnedBy { id: EdgeId, from: NodeId, to: NodeId },
    /// A Principal created a Resource (creation provenance).
    Created { id: EdgeId, from: NodeId, to: NodeId },
    /// Principal A allocates some scope of authority to Principal B.
    AllocatedTo { id: EdgeId, from: NodeId, to: NodeId },
    /// An Agent owns an Organization or a Project (typed at both ends).
    Owns { id: EdgeId, from: AgentId, to: OwnedResourceId },
    IssuedGrant { id: EdgeId, from: UserId, to: GrantId },
    DescendsFrom { id: EdgeId, from: GrantId, to: AuthRequestId },
    AppliesTo { id: EdgeId, from: GrantId, to: AgentId },
    ProjectHoldsGrant { id: EdgeId, from: ProjectId, to: GrantId },
    OrgHoldsGrant { id: EdgeId, from: OrgId, to: GrantId },
    RequestsOn { id: EdgeId, from: AuthRequestId, to: NodeId },
    ApprovedBy { id: EdgeId, from: AuthRequestId, to: NodeId },
    AuthRequestSubmittedBy { id: EdgeId, from: AuthRequestId, to: NodeId },
    EmittedBy { id: EdgeId, from: AuthRequestId, to: TemplateId },
    /// Governance-table listing of the Agent → Grant `HOLDS_GRANT` edge.
    AgentHoldsGrantDedupe { id: EdgeId, from: AgentId, to: GrantId },
    HasConsent { id: EdgeId, from: AgentId, to: ConsentId },
    ScopedTo { id: EdgeId, from: ConsentId, to: OrgId },
    /// AgentProfile → template-tier Blueprint.
    AgentProfileUsesBlueprint { id: EdgeId, from: NodeId, to: BlueprintId },
    /// Agent → per-agent override Blueprint.
    AgentUsesBlueprintOverride { id: EdgeId, from: AgentId, to: BlueprintId },
}

/// Every edge kind name, in the order of [`Edge`]'s variants.
pub const EDGE_KIND_NAMES: [&'static str; 74] = [
    "USES_PROFILE",
    "USES_MODEL",
    "HAS_TOOL",
    "HAS_SKILL",
    "HOLDS_GRANT(agent)",
    "GOVERNED_BY",
    "USES_COMPACTION",
    "USES_RETRY",
    "USES_CACHE",
    "USES_EVALUATION",
    "HAS_SYSTEM_PROMPT",
    "CONNECTS_TO(mcp)",
    "CONNECTS_TO(openapi)",
    "RUNS_SESSION",
    "DELEGATES_TO",
    "OWNED_BY(agent->user)",
    "HAS_MEMORY",
    "HAS_INBOX",
    "HAS_OUTBOX",
    "HAS_CHANNEL",
    "LOADED_FROM",
    "MEMBER_OF",
    "CONTAINS_LOOP",
    "CONTINUES_FROM",
    "CONTAINS_TURN",
    "CONFIGURED_WITH",
    "EMITS",
    "PRODUCES",
    "EXECUTES_TOOL",
    "SPAWNED_FROM",
    "SPAWNED_CHILD",
    "PARALLEL_WITH",
    "IMPLEMENTED_BY",
    "HAS_MANIFEST",
    "PROVIDES_TOOL(mcp)",
    "PROVIDES_TOOL(openapi)",
    "CONTAINS_BLOCK",
    "HAS_BOARD",
    "HAS_CEO",
    "HAS_PROJECT",
    "HAS_MEMBER",
    "HAS_SUBORGANIZATION",
    "HAS_SPONSOR",
    "HAS_AGENT",
    "HAS_LEAD",
    "MANAGES",
    "HAS_AGENT_SUPERVISOR",
    "HAS_TASK",
    "HAS_SUBPROJECT",
    "HAS_CONFIG",
    "BELONGS_TO",
    "ASSIGNED_TO",
    "HAS_BID",
    "SUBMITTED_BY(bid->agent)",
    "RATES",
    "GIVEN_BY",
    "OWNED_BY",
    "CREATED",
    "ALLOCATED_TO",
    "OWNS",
    "ISSUED_GRANT",
    "DESCENDS_FROM",
    "APPLIES_TO",
    "HOLDS_GRANT(project)",
    "HOLDS_GRANT(org)",
    "REQUESTS_ON",
    "APPROVED_BY",
    "SUBMITTED_BY(auth_request->principal)",
    "EMITTED_BY",
    "HOLDS_GRANT(agent-governance-listing)",
    "HAS_CONSENT",
    "SCOPED_TO",
    "AGENT_PROFILE_USES_BLUEPRINT",
    "AGENT_USES_BLUEPRINT_OVERRIDE",
];

impl Edge {
    /// Position of this edge's kind in the variant order.
    pub open spec fn kind_index(self) -> int {
        match self {
            Edge::UsesProfile { .. } => 0,
            Edge::UsesModel { .. } => 1,
            Edge::HasTool { .. } => 2,
            Edge::HasSkill { .. } => 3,
            Edge::AgentHoldsGrant { .. } => 4,
            Edge::GovernedBy { .. } => 5,
            Edge::UsesCompaction { .. } => 6,
            Edge::UsesRetry { .. } => 7,
            Edge::UsesCache { .. } => 8,
            Edge::UsesEvaluation { .. } => 9,
            Edge::HasSystemPrompt { .. } => 10,
            Edge::AgentConnectsToMcpServer { .. } => 11,
            Edge::AgentConnectsToOpenApiSpec { .. } => 12,
            Edge::RunsSession { .. } => 13,
            Edge::DelegatesTo { .. } => 14,
            Edge::AgentOwnedByUser { .. } => 15,
            Edge::HasMemory { .. } => 16,
            Edge::HasInbox { .. } => 17,
            Edge::HasOutbox { .. } => 18,
            Edge::HasChannel { .. } => 19,
            Edge::LoadedFrom { .. } => 20,
            Edge::MemberOf { .. } => 21,
            Edge::ContainsLoop { .. } => 22,
            Edge::ContinuesFrom { .. } => 23,
            Edge::ContainsTurn { .. } => 24,
            Edge::ConfiguredWith { .. } => 25,
            Edge::Emits { .. } => 26,
            Edge::Produces { .. } => 27,
            Edge::ExecutesTool { .. } => 28,
            Edge::SpawnedFrom { .. } => 29,
            Edge::SpawnedChild { .. } => 30,
            Edge::ParallelWith { .. } => 31,
            Edge::ImplementedBy { .. } => 32,
            Edge::HasManifest { .. } => 33,
            Edge::McpProvidesTool { .. } => 34,
            Edge::OpenApiProvidesTool { .. } => 35,
            Edge::ContainsBlock { .. } => 36,
            Edge::HasBoard { .. } => 37,
            Edge::HasCeo { .. } => 38,
            Edge::HasProject { .. } => 39,
            Edge::HasMember { .. } => 40,
            Edge::HasSuborganization { .. } => 41,
            Edge::HasSponsor { .. } => 42,
            Edge::HasAgent { .. } => 43,
            Edge::HasLead { .. } => 44,
            Edge::Manages { .. } => 45,
            Edge::HasAgentSupervisor { .. } => 46,
            Edge::HasTask { .. } => 47,
            Edge::HasSubproject { .. } => 48,
            Edge::HasConfig { .. } => 49,
            Edge::BelongsTo { .. } => 50,
            Edge::AssignedTo { .. } => 51,
            Edge::HasBid { .. } => 52,
            Edge::BidSubmittedBy { .. } => 53,
            Edge::Rates { .. } => 54,
            Edge::GivenBy { .. } => 55,
            Edge::OwnedBy { .. } => 56,
            Edge::Created { .. } => 57,
            Edge::AllocatedTo { .. } => 58,
            Edge::Owns { .. } => 59,
            Edge::IssuedGrant { .. } => 60,
            Edge::DescendsFrom { .. } => 61,
            Edge::AppliesTo { .. } => 62,
            Edge::ProjectHoldsGrant { .. } => 63,
            Edge::OrgHoldsGrant { .. } => 64,
            Edge::RequestsOn { .. } => 65,
            Edge::ApprovedBy { .. } => 66,
            Edge::AuthRequestSubmittedBy { .. } => 67,
            Edge::EmittedBy { .. } => 68,
            Edge::AgentHoldsGrantDedupe { .. } => 69,
            Edge::HasConsent { .. } => 70,
            Edge::ScopedTo { .. } => 71,
            Edge::AgentProfileUsesBlueprint { .. } => 72,
            Edge::AgentUsesBlueprintOverride { .. } => 73,
        }
    }

    /// Canonical UPPER_SNAKE_CASE name of the edge kind.
    pub open spec fn name_spec(self) -> Seq<char> {
        match self {
            Edge::UsesProfile { .. } => "USES_PROFILE"@,
            Edge::UsesModel { .. } => "USES_MODEL"@,
            Edge::HasTool { .. } => "HAS_TOOL"@,
            Edge::HasSkill { .. } => "HAS_SKILL"@,
            Edge::AgentHoldsGrant { .. } => "HOLDS_GRANT(agent)"@,
            Edge::GovernedBy { .. } => "GOVERNED_BY"@,
            Edge::UsesCompaction { .. } => "USES_COMPACTION"@,
            Edge::UsesRetry { .. } => "USES_RETRY"@,
            Edge::UsesCache { .. } => "USES_CACHE"@,
            Edge::UsesEvaluation { .. } => "USES_EVALUATION"@,
            Edge::HasSystemPrompt { .. } => "HAS_SYSTEM_PROMPT"@,
            Edge::AgentConnectsToMcpServer { .. } => "CONNECTS_TO(mcp)"@,
            Edge::AgentConnectsToOpenApiSpec { .. } => "CONNECTS_TO(openapi)"@,
            Edge::RunsSession { .. } => "RUNS_SESSION"@,
            Edge::DelegatesTo { .. } => "DELEGATES_TO"@,
            Edge::AgentOwnedByUser { .. } => "OWNED_BY(agent->user)"@,
            Edge::HasMemory { .. } => "HAS_MEMORY"@,
            Edge::HasInbox { .. } => "HAS_INBOX"@,
            Edge::HasOutbox { .. } => "HAS_OUTBOX"@,
            Edge::HasChannel { .. } => "HAS_CHANNEL"@,
            Edge::LoadedFrom { .. } => "LOADED_FROM"@,
            Edge::MemberOf { .. } => "MEMBER_OF"@,
            Edge::ContainsLoop { .. } => "CONTAINS_LOOP"@,
            Edge::ContinuesFrom { .. } => "CONTINUES_FROM"@,
            Edge::ContainsTurn { .. } => "CONTAINS_TURN"@,
            Edge::ConfiguredWith { .. } => "CONFIGURED_WITH"@,
            Edge::Emits { .. } => "EMITS"@,
            Edge::Produces { .. } => "PRODUCES"@,
            Edge::ExecutesTool { .. } => "EXECUTES_TOOL"@,
            Edge::SpawnedFrom { .. } => "SPAWNED_FROM"@,
            Edge::SpawnedChild { .. } => "SPAWNED_CHILD"@,
            Edge::ParallelWith { .. } => "PARALLEL_WITH"@,
            Edge::ImplementedBy { .. } => "IMPLEMENTED_BY"@,
            Edge::HasManifest { .. } => "HAS_MANIFEST"@,
            Edge::McpProvidesTool { .. } => "PROVIDES_TOOL(mcp)"@,
            Edge::OpenApiProvidesTool { .. } => "PROVIDES_TOOL(openapi)"@,
            Edge::ContainsBlock { .. } => "CONTAINS_BLOCK"@,
            Edge::HasBoard { .. } => "HAS_BOARD"@,
            Edge::HasCeo { .. } => "HAS_CEO"@,
            Edge::HasProject { .. } => "HAS_PROJECT"@,
            Edge::HasMember { .. } => "HAS_MEMBER"@,
            Edge::HasSuborganization { .. } => "HAS_SUBORGANIZATION"@,
            Edge::HasSponsor { .. } => "HAS_SPONSOR"@,
            Edge::HasAgent { .. } => "HAS_AGENT"@,
            Edge::HasLead { .. } => "HAS_LEAD"@,
            Edge::Manages { .. } => "MANAGES"@,
            Edge::HasAgentSupervisor { .. } => "HAS_AGENT_SUPERVISOR"@,
            Edge::HasTask { .. } => "HAS_TASK"@,
            Edge::HasSubproject { .. } => "HAS_SUBPROJECT"@,
            Edge::HasConfig { .. } => "HAS_CONFIG"@,
            Edge::BelongsTo { .. } => "BELONGS_TO"@,
            Edge::AssignedTo { .. } => "ASSIGNED_TO"@,
            Edge::HasBid { .. } => "HAS_BID"@,
            Edge::BidSubmittedBy { .. } => "SUBMITTED_BY(bid->agent)"@,
            Edge::Rates { .. } => "RATES"@,
            Edge::GivenBy { .. } => "GIVEN_BY"@,
            Edge::OwnedBy { .. } => "OWNED_BY"@,
            Edge::Created { .. } => "CREATED"@,
            Edge::AllocatedTo { .. } => "ALLOCATED_TO"@,
            Edge::Owns { .. } => "OWNS"@,
            Edge::IssuedGrant { .. } => "ISSUED_GRANT"@,
            Edge::DescendsFrom { .. } => "DESCENDS_FROM"@,
            Edge::AppliesTo { .. } => "APPLIES_TO"@,
            Edge::ProjectHoldsGrant { .. } => "HOLDS_GRANT(project)"@,
            Edge::OrgHoldsGrant { .. } => "HOLDS_GRANT(org)"@,
            Edge::RequestsOn { .. } => "REQUESTS_ON"@,
            Edge::ApprovedBy { .. } => "APPROVED_BY"@,
            Edge::AuthRequestSubmittedBy { .. } => "SUBMITTED_BY(auth_request->principal)"@,
            Edge::EmittedBy { .. } => "EMITTED_BY"@,
            Edge::AgentHoldsGrantDedupe { .. } => "HOLDS_GRANT(agent-governance-listing)"@,
            Edge::HasConsent { .. } => "HAS_CONSENT"@,
            Edge::ScopedTo { .. } => "SCOPED_TO"@,
            Edge::AgentProfileUsesBlueprint { .. } => "AGENT_PROFILE_USES_BLUEPRINT"@,
            Edge::AgentUsesBlueprintOverride { .. } => "AGENT_USES_BLUEPRINT_OVERRIDE"@,
        }
    }

    /// Stable, canonical name for this edge kind.
    pub fn name(&self) -> (s: &'static str)
        ensures
            s@ == self.name_spec(),
    {
        match self {
            Edge::UsesProfile { .. } => "USES_PROFILE",
            Edge::UsesModel { .. } => "USES_MODEL",
            Edge::HasTool { .. } => "HAS_TOOL",
            Edge::HasSkill { .. } => "HAS_SKILL",
            Edge::AgentHoldsGrant { .. } => "HOLDS_GRANT(agent)",
            Edge::GovernedBy { .. } => "GOVERNED_BY",
            Edge::UsesCompaction { .. } => "USES_COMPACTION",
            Edge::UsesRetry { .. } => "USES_RETRY",
            Edge::UsesCache { .. } => "USES_CACHE",
            Edge::UsesEvaluation { .. } => "USES_EVALUATION",
            Edge::HasSystemPrompt { .. } => "HAS_SYSTEM_PROMPT",
            Edge::AgentConnectsToMcpServer { .. } => "CONNECTS_TO(mcp)",
            Edge::AgentConnectsToOpenApiSpec { .. } => "CONNECTS_TO(openapi)",
            Edge::RunsSession { .. } => "RUNS_SESSION",
            Edge::DelegatesTo { .. } => "DELEGATES_TO",
            Edge::AgentOwnedByUser { .. } => "OWNED_BY(agent->user)",
            Edge::HasMemory { .. } => "HAS_MEMORY",
            Edge::HasInbox { .. } => "HAS_INBOX",
            Edge::HasOutbox { .. } => "HAS_OUTBOX",
            Edge::HasChannel { .. } => "HAS_CHANNEL",
            Edge::LoadedFrom { .. } => "LOADED_FROM",
            Edge::MemberOf { .. } => "MEMBER_OF",
            Edge::ContainsLoop { .. } => "CONTAINS_LOOP",
            Edge::ContinuesFrom { .. } => "CONTINUES_FROM",
            Edge::ContainsTurn { .. } => "CONTAINS_TURN",
            Edge::ConfiguredWith { .. } => "CONFIGURED_WITH",
            Edge::Emits { .. } => "EMITS",
            Edge::Produces { .. } => "PRODUCES",
            Edge::ExecutesTool { .. } => "EXECUTES_TOOL",
            Edge::SpawnedFrom { .. } => "SPAWNED_FROM",
            Edge::SpawnedChild { .. } => "SPAWNED_CHILD",
            Edge::ParallelWith { .. } => "PARALLEL_WITH",
            Edge::ImplementedBy { .. } => "IMPLEMENTED_BY",
            Edge::HasManifest { .. } => "HAS_MANIFEST",
            Edge::McpProvidesTool { .. } => "PROVIDES_TOOL(mcp)",
            Edge::OpenApiProvidesTool { .. } => "PROVIDES_TOOL(openapi)",
            Edge::ContainsBlock { .. } => "CONTAINS_BLOCK",
            Edge::HasBoard { .. } => "HAS_BOARD",
            Edge::HasCeo { .. } => "HAS_CEO",
            Edge::HasProject { .. } => "HAS_PROJECT",
            Edge::HasMember { .. } => "HAS_MEMBER",
            Edge::HasSuborganization { .. } => "HAS_SUBORGANIZATION",
            Edge::HasSponsor { .. } => "HAS_SPONSOR",
            Edge::HasAgent { .. } => "HAS_AGENT",
            Edge::HasLead { .. } => "HAS_LEAD",
            Edge::Manages { .. } => "MANAGES",
            Edge::HasAgentSupervisor { .. } => "HAS_AGENT_SUPERVISOR",
            Edge::HasTask { .. } => "HAS_TASK",
            Edge::HasSubproject { .. } => "HAS_SUBPROJECT",
            Edge::HasConfig { .. } => "HAS_CONFIG",
            Edge::BelongsTo { .. } => "BELONGS_TO",
            Edge::AssignedTo { .. } => "ASSIGNED_TO",
            Edge::HasBid { .. } => "HAS_BID",
            Edge::BidSubmittedBy { .. } => "SUBMITTED_BY(bid->agent)",
            Edge::Rates { .. } => "RATES",
            Edge::GivenBy { .. } => "GIVEN_BY",
            Edge::OwnedBy { .. } => "OWNED_BY",
            Edge::Created { .. } => "CREATED",
            Edge::AllocatedTo { .. } => "ALLOCATED_TO",
            Edge::Owns { .. } => "OWNS",
            Edge::IssuedGrant { .. } => "ISSUED_GRANT",
            Edge::DescendsFrom { .. } => "DESCENDS_FROM",
            Edge::AppliesTo { .. } => "APPLIES_TO",
            Edge::ProjectHoldsGrant { .. } => "HOLDS_GRANT(project)",
            Edge::OrgHoldsGrant { .. } => "HOLDS_GRANT(org)",
            Edge::RequestsOn { .. } => "REQUESTS_ON",
            Edge::ApprovedBy { .. } => "APPROVED_BY",
            Edge::AuthRequestSubmittedBy { .. } => "SUBMITTED_BY(auth_request->principal)",
            Edge::EmittedBy { .. } => "EMITTED_BY",
            Edge::AgentHoldsGrantDedupe { .. } => "HOLDS_GRANT(agent-governance-listing)",
            Edge::HasConsent { .. } => "HAS_CONSENT",
            Edge::ScopedTo { .. } => "SCOPED_TO",
            Edge::AgentProfileUsesBlueprint { .. } => "AGENT_PROFILE_USES_BLUEPRINT",
            Edge::AgentUsesBlueprintOverride { .. } => "AGENT_USES_BLUEPRINT_OVERRIDE",
        }
    }

    /// Typed constructor for `owned_by` — a Resource is owned by a
    /// Principal.
    pub fn new_owned_by<R: Resource, P: Principal>(resource: &R, principal: &P) -> (e: Edge)
        ensures
            e matches Edge::OwnedBy { id, from, to } && is_v4(id.0) && from.0 == resource.resource_bits()
                && to.0 == principal.principal_bits(),
    {
        Edge::OwnedBy {
            id: EdgeId::new(),
            from: Resource::node_id(resource),
            to: Principal::node_id(principal),
        }
    }

    /// Typed constructor for `created` — a Principal created a Resource.
    pub fn new_created<P: Principal, R: Resource>(creator: &P, resource: &R) -> (e: Edge)
        ensures
            e matches Edge::Created { id, from, to } && is_v4(id.0) && from.0 == creator.principal_bits()
                && to.0 == resource.resource_bits(),
    {
        Edge::Created {
            id: EdgeId::new(),
            from: Principal::node_id(creator),
            to: Resource::node_id(resource),
        }
    }

    /// Typed constructor for `allocated_to` — Principal `from` allocates
    /// some scope of authority to Principal `to`.
    pub fn new_allocated_to<P1: Principal, P2: Principal>(from: &P1, to: &P2) -> (e: Edge)
        ensures
            e matches Edge::AllocatedTo { id, from: f, to: t } && is_v4(id.0) && f.0
                == from.principal_bits() && t.0 == to.principal_bits(),
    {
        Edge::AllocatedTo {
            id: EdgeId::new(),
            from: Principal::node_id(from),
            to: Principal::node_id(to),
        }
    }

    /// Typed constructor for `owns` — an Agent owns an Organization or a
    /// Project.
    pub fn new_owns(agent: &AgentId, owned: OwnedResourceId) -> (e: Edge)
        ensures
            e matches Edge::Owns { id, from, to } && is_v4(id.0) && from == *agent && to == owned,
    {
        Edge::Owns { id: EdgeId::new(), from: *agent, to: owned }
    }
}

/// `Edge::name` and the [`EDGE_KIND_NAMES`] table agree: the name of an
/// edge is the entry at its kind's position.
pub proof fn law_name_matches_table(e: Edge)
    ensures
        0 <= e.kind_index() < 74,
        EDGE_KIND_NAMES@.len() == 74,
        EDGE_KIND_NAMES@[e.kind_index()]@ == e.name_spec(),
{
}

/// Edges of different kinds have different names.
pub proof fn law_edge_names_distinct(a: Edge, b: Edge)
    ensures
        a.kind_index() != b.kind_index() ==> a.name_spec() != b.name_spec(),
{
    law_name_matches_table(a);
    law_name_matches_table(b);
    law_edge_kind_names_distinct();
    let i = a.kind_index();
    let j = b.kind_index();
    if i < j {
        assert(EDGE_KIND_NAMES@[i]@ != EDGE_KIND_NAMES@[j]@);
    } else if j < i {
        assert(EDGE_KIND_NAMES@[j]@ != EDGE_KIND_NAMES@[i]@);
    }
}

/// The [`EDGE_KIND_NAMES`] table lists 74 distinct names.
pub proof fn law_edge_kind_names_distinct()
    ensures
        forall|i: int, j: int|
            0 <= i < j < 74 ==> #[trigger] EDGE_KIND_NAMES@[i]@ != #[trigger] EDGE_KIND_NAMES@[j]@,
{
    reveal_strlit("USES_PROFILE");
    reveal_strlit("USES_MODEL");
    reveal_strlit("HAS_TOOL");
    reveal_strlit("HAS_SKILL");
    reveal_strlit("HOLDS_GRANT(agent)");
    reveal_strlit("GOVERNED_BY");
    reveal_strlit("USES_COMPACTION");
    reveal_strlit("USES_RETRY");
    reveal_strlit("USES_CACHE");
    reveal_strlit("USES_EVALUATION");
    reveal_strlit("HAS_SYSTEM_PROMPT");
    reveal_strlit("CONNECTS_TO(mcp)");
    reveal_strlit("CONNECTS_TO(openapi)");
    reveal_strlit("RUNS_SESSION");
    reveal_strlit("DELEGATES_TO");
    reveal_strlit("OWNED_BY(agent->user)");
    reveal_strlit("HAS_MEMORY");
    reveal_strlit("HAS_INBOX");
    reveal_strlit("HAS_OUTBOX");
    reveal_strlit("HAS_CHANNEL");
    reveal_strlit("LOADED_FROM");
    reveal_strlit("MEMBER_OF");
    reveal_strlit("CONTAINS_LOOP");
    reveal_strlit("CONTINUES_FROM");
    reveal_strlit("CONTAINS_TURN");
    reveal_strlit("CONFIGURED_WITH");
    reveal_strlit("EMITS");
    reveal_strlit("PRODUCES");
    reveal_strlit("EXECUTES_TOOL");
    reveal_strlit("SPAWNED_FROM");
    reveal_strlit("SPAWNED_CHILD");
    reveal_strlit("PARALLEL_WITH");
    reveal_strlit("IMPLEMENTED_BY");
    reveal_strlit("HAS_MANIFEST");
    reveal_strlit("PROVIDES_TOOL(mcp)");
    reveal_strlit("PROVIDES_TOOL(openapi)");
    reveal_strlit("CONTAINS_BLOCK");
    reveal_strlit("HAS_BOARD");
    reveal_strlit("HAS_CEO");
    reveal_strlit("HAS_PROJECT");
    reveal_strlit("HAS_MEMBER");
    reveal_strlit("HAS_SUBORGANIZATION");
    reveal_strlit("HAS_SPONSOR");
    reveal_strlit("HAS_AGENT");
    reveal_strlit("HAS_LEAD");
    reveal_strlit("MANAGES");
    reveal_strlit("HAS_AGENT_SUPERVISOR");
    reveal_strlit("HAS_TASK");
    reveal_strlit("HAS_SUBPROJECT");
    reveal_strlit("HAS_CONFIG");
    reveal_strlit("BELONGS_TO");
    reveal_strlit("ASSIGNED_TO");
    reveal_strlit("HAS_BID");
    reveal_strlit("SUBMITTED_BY(bid->agent)");
    reveal_strlit("RATES");
    reveal_strlit("GIVEN_BY");
    reveal_strlit("OWNED_BY");
    reveal_strlit("CREATED");
    reveal_strlit("ALLOCATED_TO");
    reveal_strlit("OWNS");
    reveal_strlit("ISSUED_GRANT");
    reveal_strlit("DESCENDS_FROM");
    reveal_strlit("APPLIES_TO");
    reveal_strlit("HOLDS_GRANT(project)");
    reveal_strlit("HOLDS_GRANT(org)");
    reveal_strlit("REQUESTS_ON");
    reveal_strlit("APPROVED_BY");
    reveal_strlit("SUBMITTED_BY(auth_request->principal)");
    reveal_strlit("EMITTED_BY");
    reveal_strlit("HOLDS_GRANT(agent-governance-listing)");
    reveal_strlit("HAS_CONSENT");
    reveal_strlit("SCOPED_TO");
    reveal_strlit("AGENT_PROFILE_USES_BLUEPRINT");
    reveal_strlit("AGENT_USES_BLUEPRINT_OVERRIDE");
    assert forall|i: int, j: int| 0 <= i < j < 74 implies #[trigger] EDGE_KIND_NAMES@[i]@
        != #[trigger] EDGE_KIND_NAMES@[j]@ by {
        let x = EDGE_KIND_NAMES@[i]@;
        let y = EDGE_KIND_NAMES@[j]@;
        if x == y {
            assert(x.len() == y.len());
            assert(x[0] == y[0]);
            assert(x[4] == y[4]);
            assert(x[7] == y[7]);
            assert(x[9] == y[9]);
        }
    }
}

} // verus!
