//! Node types of the v0 ontology.
//!
//! Nodes that are load-bearing for the governance spine carry their full
//! field shape; the rest are scaffolded with an `id` only. [`NodeKind`]
//! is the authoritative inventory of the 37 node type names.

use vstd::prelude::*;

use super::composites_m3::ConsentPolicy;
use super::ids::{
    AgentId, AuthRequestId, ConsentId, GrantId, LoopId, MemoryId, NodeId, OrgId, ProjectId,
    SessionId, TemplateId, TurnNodeId, UserId,
};
use crate::audit::AuditClass;
use crate::permissions::Action;
use crate::time::Timestamp;

verus! {

// ============================================================================
// NodeKind — the inventory of all 37 node type names.
// ============================================================================

/// Every node type the v0 ontology defines, by name.
#[derive(Clone, Copy, Debug, PartialEq, Eq, Hash, Structural)]
pub enum NodeKind {
    Agent,
    AgentProfile,
    User,
    Identity,
    Session,
    Loop,
    Turn,
    Message,
    Event,
    ModelConfig,
    ToolDefinition,
    ToolImplementation,
    Skill,
    McpServer,
    OpenApiSpec,
    SystemPrompt,
    EvaluationStrategy,
    ExecutionLimits,
    Grant,
    AuthRequest,
    Template,
    ToolAuthorityManifest,
    Consent,
    CompactionPolicy,
    RetryPolicy,
    CachePolicy,
    Project,
    Task,
    Bid,
    Rating,
    Organization,
    Channel,
    Memory,
    AgentConfig,
    PromptBlock,
    InboxObject,
    OutboxObject,
}

impl NodeKind {
    /// Every node kind in a stable order, grouped by tier.
    pub const ALL: [NodeKind; 37] = [
        NodeKind::Agent,
        NodeKind::AgentProfile,
        NodeKind::User,
        NodeKind::Identity,
        NodeKind::Session,
        NodeKind::Loop,
        NodeKind::Turn,
        NodeKind::Message,
        NodeKind::Event,
        NodeKind::ModelConfig,
        NodeKind::ToolDefinition,
        NodeKind::ToolImplementation,
        NodeKind::Skill,
        NodeKind::McpServer,
        NodeKind::OpenApiSpec,
        NodeKind::SystemPrompt,
        NodeKind::EvaluationStrategy,
        NodeKind::ExecutionLimits,
        NodeKind::Grant,
        NodeKind::AuthRequest,
        NodeKind::Template,
        NodeKind::ToolAuthorityManifest,
        NodeKind::Consent,
        NodeKind::CompactionPolicy,
        NodeKind::RetryPolicy,
        NodeKind::CachePolicy,
        NodeKind::Project,
        NodeKind::Task,
        NodeKind::Bid,
        NodeKind::Rating,
        NodeKind::Organization,
        NodeKind::Channel,
        NodeKind::Memory,
        NodeKind::AgentConfig,
        NodeKind::PromptBlock,
        NodeKind::InboxObject,
        NodeKind::OutboxObject,
    ];

    /// Canonical snake_case name of the node kind.
    pub open spec fn wire(self) -> Seq<char> {
        match self {
            NodeKind::Agent => "agent"@,
            NodeKind::AgentProfile => "agent_profile"@,
            NodeKind::User => "user"@,
            NodeKind::Identity => "identity"@,
            NodeKind::Session => "session"@,
            NodeKind::Loop => "loop"@,
            NodeKind::Turn => "turn"@,
            NodeKind::Message => "message"@,
            NodeKind::Event => "event"@,
            NodeKind::ModelConfig => "model_config"@,
            NodeKind::ToolDefinition => "tool_definition"@,
            NodeKind::ToolImplementation => "tool_implementation"@,
            NodeKind::Skill => "skill"@,
            NodeKind::McpServer => "mcp_server"@,
            NodeKind::OpenApiSpec => "open_api_spec"@,
            NodeKind::SystemPrompt => "system_prompt"@,
            NodeKind::EvaluationStrategy => "evaluation_strategy"@,
            NodeKind::ExecutionLimits => "execution_limits"@,
            NodeKind::Grant => "grant"@,
            NodeKind::AuthRequest => "auth_request"@,
            NodeKind::Template => "template"@,
            NodeKind::ToolAuthorityManifest => "tool_authority_manifest"@,
            NodeKind::Consent => "consent"@,
            NodeKind::CompactionPolicy => "compaction_policy"@,
            NodeKind::RetryPolicy => "retry_policy"@,
            NodeKind::CachePolicy => "cache_policy"@,
            NodeKind::Project => "project"@,
            NodeKind::Task => "task"@,
            NodeKind::Bid => "bid"@,
            NodeKind::Rating => "rating"@,
            NodeKind::Organization => "organization"@,
            NodeKind::Channel => "channel"@,
            NodeKind::Memory => "memory"@,
            NodeKind::AgentConfig => "agent_config"@,
            NodeKind::PromptBlock => "prompt_block"@,
            NodeKind::InboxObject => "inbox_object"@,
            NodeKind::OutboxObject => "outbox_object"@,
        }
    }

    /// Canonical snake_case name of the node kind.
    pub fn as_str(&self) -> (s: &'static str)
        ensures
            s@ == self.wire(),
    {
        match self {
            NodeKind::Agent => "agent",
            NodeKind::AgentProfile => "agent_profile",
            NodeKind::User => "user",
            NodeKind::Identity => "identity",
            NodeKind::Session => "session",
            NodeKind::Loop => "loop",
            NodeKind::Turn => "turn",
            NodeKind::Message => "message",
            NodeKind::Event => "event",
            NodeKind::ModelConfig => "model_config",
            NodeKind::ToolDefinition => "tool_definition",
            NodeKind::ToolImplementation => "tool_implementation",
            NodeKind::Skill => "skill",
            NodeKind::McpServer => "mcp_server",
            NodeKind::OpenApiSpec => "open_api_spec",
            NodeKind::SystemPrompt => "system_prompt",
            NodeKind::EvaluationStrategy => "evaluation_strategy",
            NodeKind::ExecutionLimits => "execution_limits",
            NodeKind::Grant => "grant",
            NodeKind::AuthRequest => "auth_request",
            NodeKind::Template => "template",
            NodeKind::ToolAuthorityManifest => "tool_authority_manifest",
            NodeKind::Consent => "consent",
            NodeKind::CompactionPolicy => "compaction_policy",
            NodeKind::RetryPolicy => "retry_policy",
            NodeKind::CachePolicy => "cache_policy",
            NodeKind::Project => "project",
            NodeKind::Task => "task",
            NodeKind::Bid => "bid",
            NodeKind::Rating => "rating",
            NodeKind::Organization => "organization",
            NodeKind::Channel => "channel",
            NodeKind::Memory => "memory",
            NodeKind::AgentConfig => "agent_config",
            NodeKind::PromptBlock => "prompt_block",
            NodeKind::InboxObject => "inbox_object",
            NodeKind::OutboxObject => "outbox_object",
        }
    }
}

/// Distinct variants have distinct string forms.
pub proof fn law_node_kind_wire_injective(a: NodeKind, b: NodeKind)
    ensures
        a != b ==> a.wire() != b.wire(),
{
    reveal_strlit("agent");
    reveal_strlit("agent_profile");
    reveal_strlit("user");
    reveal_strlit("identity");
    reveal_strlit("session");
    reveal_strlit("loop");
    reveal_strlit("turn");
    reveal_strlit("message");
    reveal_strlit("event");
    reveal_strlit("model_config");
    reveal_strlit("tool_definition");
    reveal_strlit("tool_implementation");
    reveal_strlit("skill");
    reveal_strlit("mcp_server");
    reveal_strlit("open_api_spec");
    reveal_strlit("system_prompt");
    reveal_strlit("evaluation_strategy");
    reveal_strlit("execution_limits");
    reveal_strlit("grant");
    reveal_strlit("auth_request");
    reveal_strlit("template");
    reveal_strlit("tool_authority_manifest");
    reveal_strlit("consent");
    reveal_strlit("compaction_policy");
    reveal_strlit("retry_policy");
    reveal_strlit("cache_policy");
    reveal_strlit("project");
    reveal_strlit("task");
    reveal_strlit("bid");
    reveal_strlit("rating");
    reveal_strlit("organization");
    reveal_strlit("channel");
    reveal_strlit("memory");
    reveal_strlit("agent_config");
    reveal_strlit("prompt_block");
    reveal_strlit("inbox_object");
    reveal_strlit("outbox_object");
    if a != b && a.wire() == b.wire() {
        assert(a.wire().len() == b.wire().len());
        assert(a.wire()[1] == b.wire()[1]);
        assert(a.wire()[0] == b.wire()[0]);
    }
}

// ============================================================================
// Agents
// ============================================================================

/// A principal: human or LLM. Agents are both principals and resources.
#[derive(Clone, Debug)]
pub struct Agent {
    pub id: AgentId,
    pub kind: AgentKind,
    pub display_name: String,
    /// Owning org once membership is established (`None` for a fresh
    /// platform admin at bootstrap time).
    pub owning_org: Option<OrgId>,
    /// Governance role within the owning org; `None` = unclassified.
    pub role: Option<AgentRole>,
    pub created_at: Timestamp,
    /// Durable disable flag: `false` = the agent is disabled.
    pub active: bool,
    /// Archive instant; `None` = not archived.
    pub archived_at: Option<Timestamp>,
}

/// The value `active` takes on rows that do not carry it.
pub fn default_agent_active() -> (b: bool)
    ensures
        b,
{
    true
}

/// Human vs LLM agent.
#[derive(Clone, Copy, Debug, PartialEq, Eq, Hash, Structural)]
pub enum AgentKind {
    Human,
    Llm,
}

/// An agent's governance role within an org. Executive, Admin and Member
/// are human-only roles; Intern, Contract and System are LLM-only roles.
#[derive(Clone, Copy, Debug, PartialEq, Eq, Hash, Structural)]
pub enum AgentRole {
    Executive,
    Admin,
    Member,
    Intern,
    Contract,
    System,
}

impl AgentRole {
    /// Every variant, human-side first, LLM-side second.
    pub const ALL: [AgentRole; 6] = [
        AgentRole::Executive,
        AgentRole::Admin,
        AgentRole::Member,
        AgentRole::Intern,
        AgentRole::Contract,
        AgentRole::System,
    ];

    /// Canonical string form (the snake_case wire name).
    pub open spec fn wire(self) -> Seq<char> {
        match self {
            AgentRole::Executive => "executive"@,
            AgentRole::Admin => "admin"@,
            AgentRole::Member => "member"@,
            AgentRole::Intern => "intern"@,
            AgentRole::Contract => "contract"@,
            AgentRole::System => "system"@,
        }
    }

    /// Canonical string form (the snake_case wire name).
    pub fn as_str(&self) -> (s: &'static str)
        ensures
            s@ == self.wire(),
    {
        match self {
            AgentRole::Executive => "executive",
            AgentRole::Admin => "admin",
            AgentRole::Member => "member",
            AgentRole::Intern => "intern",
            AgentRole::Contract => "contract",
            AgentRole::System => "system",
        }
    }

    /// The roles a human agent may hold.
    pub open spec fn is_human_role(self) -> bool {
        self is Executive || self is Admin || self is Member
    }

    /// The role may be held by an agent of this kind.
    pub open spec fn fits(self, kind: AgentKind) -> bool {
        self.is_human_role() <==> kind == AgentKind::Human
    }

    /// Validation rule enforced at agent creation and edit: human agents
    /// carry human roles, LLM agents carry LLM roles.
    pub fn is_valid_for(self, kind: AgentKind) -> (ok: bool)
        ensures
            ok == self.fits(kind),
    {
        match self {
            AgentRole::Executive | AgentRole::Admin | AgentRole::Member => match kind {
                AgentKind::Human => true,
                AgentKind::Llm => false,
            },
            AgentRole::Intern | AgentRole::Contract | AgentRole::System => match kind {
                AgentKind::Human => false,
                AgentKind::Llm => true,
            },
        }
    }
}

/// Distinct variants have distinct string forms.
pub proof fn law_agent_role_wire_injective(a: AgentRole, b: AgentRole)
    ensures
        a != b ==> a.wire() != b.wire(),
{
    reveal_strlit("executive");
    reveal_strlit("admin");
    reveal_strlit("member");
    reveal_strlit("intern");
    reveal_strlit("contract");
    reveal_strlit("system");
    if a != b && a.wire() == b.wire() {
        assert(a.wire().len() == b.wire().len());
        assert(a.wire()[0] == b.wire()[0]);
    }
}

/// Every role is valid for exactly one agent kind.
pub proof fn law_each_role_fits_exactly_one_kind(r: AgentRole)
    ensures
        r.fits(AgentKind::Human) != r.fits(AgentKind::Llm),
{
}

/// Blueprint of an agent: wraps phi-core's `AgentProfile` and adds the
/// governance fields phi-core does not model.
#[derive(Clone, Debug)]
pub struct AgentProfile {
    pub id: NodeId,
    pub agent_id: AgentId,
    /// Concurrent session cap, enforced at session start.
    pub parallelize: u32,
    /// The phi-core execution blueprint (system prompt, thinking level,
    /// skills, ...).
    pub blueprint: phi_core::agents::profile::AgentProfile,
    /// Per-agent model binding; `None` = inherit the org default.
    pub model_config_id: Option<String>,
    /// Dev/test override of the mock provider's response.
    pub mock_response: Option<String>,
    pub created_at: Timestamp,
}

/// A human owner of agents (a platform-level identity).
#[derive(Clone, Debug)]
pub struct User {
    pub id: UserId,
    pub display_name: String,
    pub created_at: Timestamp,
}

// ============================================================================
// Projects and templates
// ============================================================================

/// The four-state project lifecycle: `Planned → InProgress ⇄ OnHold`,
/// `InProgress → Finished`.
#[derive(Clone, Copy, Debug, PartialEq, Eq, Hash, Structural)]
pub enum ProjectStatus {
    Planned,
    InProgress,
    OnHold,
    Finished,
}

impl ProjectStatus {
    /// Every variant in a stable order.
    pub const ALL: [ProjectStatus; 4] = [
        ProjectStatus::Planned,
        ProjectStatus::InProgress,
        ProjectStatus::OnHold,
        ProjectStatus::Finished,
    ];

    /// Canonical string form.
    pub open spec fn wire(self) -> Seq<char> {
        match self {
            ProjectStatus::Planned => "planned"@,
            ProjectStatus::InProgress => "in_progress"@,
            ProjectStatus::OnHold => "on_hold"@,
            ProjectStatus::Finished => "finished"@,
        }
    }

    /// Canonical string form.
    pub fn as_str(&self) -> (s: &'static str)
        ensures
            s@ == self.wire(),
    {
        match self {
            ProjectStatus::Planned => "planned",
            ProjectStatus::InProgress => "in_progress",
            ProjectStatus::OnHold => "on_hold",
            ProjectStatus::Finished => "finished",
        }
    }
}

/// Distinct variants have distinct string forms.
pub proof fn law_project_status_wire_injective(a: ProjectStatus, b: ProjectStatus)
    ensures
        a != b ==> a.wire() != b.wire(),
{
    reveal_strlit("planned");
    reveal_strlit("in_progress");
    reveal_strlit("on_hold");
    reveal_strlit("finished");
    if a != b && a.wire() == b.wire() {
        assert(a.wire().len() == b.wire().len());
        assert(a.wire()[0] == b.wire()[0]);
    }
}

/// Project governance shape: A (single org) or B (co-owned by two orgs).
#[derive(Clone, Copy, Debug, PartialEq, Eq, Hash, Structural)]
pub enum ProjectShape {
    A,
    B,
}

impl ProjectShape {
    /// Every variant in a stable order.
    pub const ALL: [ProjectShape; 2] = [
        ProjectShape::A,
        ProjectShape::B,
    ];

    /// Canonical string form.
    pub open spec fn wire(self) -> Seq<char> {
        match self {
            ProjectShape::A => "shape_a"@,
            ProjectShape::B => "shape_b"@,
        }
    }

    /// Canonical string form.
    pub fn as_str(&self) -> (s: &'static str)
        ensures
            s@ == self.wire(),
    {
        match self {
            ProjectShape::A => "shape_a",
            ProjectShape::B => "shape_b",
        }
    }
}

/// Distinct variants have distinct string forms.
pub proof fn law_project_shape_wire_injective(a: ProjectShape, b: ProjectShape)
    ensures
        a != b ==> a.wire() != b.wire(),
{
    reveal_strlit("shape_a");
    reveal_strlit("shape_b");
    if a != b && a.wire() == b.wire() {
        assert(a.wire().len() == b.wire().len());
        assert(a.wire()[6] == b.wire()[6]);
    }
}

/// A reusable permission pattern whose adoption emits an Auth Request.
#[derive(Clone, Debug)]
pub struct Template {
    pub id: TemplateId,
    /// Stable name — e.g. `template:system_bootstrap`.
    pub name: String,
    pub kind: TemplateKind,
    pub created_at: Timestamp,
}

/// The lifecycle pattern family a [`Template`] implements.
#[derive(Clone, Copy, Debug, PartialEq, Eq, PartialOrd, Ord, Hash, Structural)]
pub enum TemplateKind {
    /// The platform-install bootstrap template.
    SystemBootstrap,
    /// Explicit human-to-human request.
    A,
    /// Delegated approval.
    B,
    /// Pre-authorized template.
    C,
    /// Consent-gated template.
    D,
    /// Self-interested auto-approve.
    E,
    /// Break-glass.
    F,
}

impl TemplateKind {
    /// Every variant in a stable order.
    pub const ALL: [TemplateKind; 7] = [
        TemplateKind::SystemBootstrap,
        TemplateKind::A,
        TemplateKind::B,
        TemplateKind::C,
        TemplateKind::D,
        TemplateKind::E,
        TemplateKind::F,
    ];

    /// Canonical string form.
    pub open spec fn wire(self) -> Seq<char> {
        match self {
            TemplateKind::SystemBootstrap => "system_bootstrap"@,
            TemplateKind::A => "a"@,
            TemplateKind::B => "b"@,
            TemplateKind::C => "c"@,
            TemplateKind::D => "d"@,
            TemplateKind::E => "e"@,
            TemplateKind::F => "f"@,
        }
    }

    /// Canonical string form.
    pub fn as_str(&self) -> (s: &'static str)
        ensures
            s@ == self.wire(),
    {
        match self {
            TemplateKind::SystemBootstrap => "system_bootstrap",
            TemplateKind::A => "a",
            TemplateKind::B => "b",
            TemplateKind::C => "c",
            TemplateKind::D => "d",
            TemplateKind::E => "e",
            TemplateKind::F => "f",
        }
    }
}

/// Distinct variants have distinct string forms.
pub proof fn law_template_kind_wire_injective(a: TemplateKind, b: TemplateKind)
    ensures
        a != b ==> a.wire() != b.wire(),
{
    reveal_strlit("system_bootstrap");
    reveal_strlit("a");
    reveal_strlit("b");
    reveal_strlit("c");
    reveal_strlit("d");
    reveal_strlit("e");
    reveal_strlit("f");
    if a != b && a.wire() == b.wire() {
        assert(a.wire().len() == b.wire().len());
        assert(a.wire()[0] == b.wire()[0]);
    }
}

impl Default for TemplateKind {
    /// Templates that carry no kind are the bootstrap template.
    fn default() -> (k: TemplateKind)
        ensures
            k == TemplateKind::SystemBootstrap,
    {
        TemplateKind::SystemBootstrap
    }
}

// ============================================================================
// Grants, approval and auth requests
// ============================================================================

/// Per-grant approval mode: whether a read under the grant needs runtime
/// subordinate approval, and under which org consent policy.
#[derive(Clone, Copy, Debug, PartialEq, Eq, Hash, Structural)]
pub enum ApprovalMode {
    /// No runtime consent gate (default).
    Implicit,
    /// The read target's consent is required at runtime.
    SubordinateRequired { policy: ConsentPolicy },
    /// Reserved for human-in-the-loop flows.
    HumanApprovalRequired,
}

impl Default for ApprovalMode {
    fn default() -> (m: ApprovalMode)
        ensures
            m == ApprovalMode::Implicit,
    {
        ApprovalMode::Implicit
    }
}

/// What the engine answers when a requested consent times out.
#[derive(Clone, Copy, Debug, PartialEq, Eq, Hash, Structural)]
pub enum TimeoutResponse {
    /// Absence of consent is not consent (default).
    Deny,
    Allow,
}

impl Default for TimeoutResponse {
    fn default() -> (r: TimeoutResponse)
        ensures
            r == TimeoutResponse::Deny,
    {
        TimeoutResponse::Deny
    }
}

/// Who holds a grant, submits a request or approves one.
#[derive(Clone, Debug, PartialEq, Eq)]
pub enum PrincipalRef {
    Agent(AgentId),
    User(UserId),
    Organization(OrgId),
    Project(ProjectId),
    /// System axioms — `system:genesis`, `system:root`, etc.
    System(String),
}

/// What a grant or request targets, as a namespaced URI.
#[derive(Clone, Debug)]
pub struct ResourceRef {
    /// e.g. `system:root`, `filesystem:/workspace/**`.
    pub uri: String,
}

/// First-class workflow composite mediating grant creation.
#[derive(Clone, Debug)]
pub struct AuthRequest {
    pub id: AuthRequestId,
    pub requestor: PrincipalRef,
    pub kinds: Vec<String>,
    pub scope: Vec<String>,
    pub state: AuthRequestState,
    pub valid_until: Option<Timestamp>,
    pub submitted_at: Timestamp,
    pub resource_slots: Vec<ResourceSlot>,
    pub justification: Option<String>,
    pub audit_class: AuditClass,
    pub terminal_state_entered_at: Option<Timestamp>,
    pub archived: bool,
    pub active_window_days: u32,
    pub provenance_template: Option<TemplateId>,
    /// Instance-identity tags (`#kind:auth_request`, `auth_request:<id>`).
    pub tags: Vec<String>,
    /// The grant under whose authority this request was submitted; `None`
    /// for bootstrap requests.
    pub descends_from_grant: Option<GrantId>,
}

/// One resource within an Auth Request, with its per-approver slots.
#[derive(Clone, Debug)]
pub struct ResourceSlot {
    pub resource: ResourceRef,
    pub approvers: Vec<ApproverSlot>,
    pub state: ResourceSlotState,
}

/// One approver's slot on a resource.
#[derive(Clone, Debug)]
pub struct ApproverSlot {
    pub approver: PrincipalRef,
    pub state: ApproverSlotState,
    pub responded_at: Option<Timestamp>,
    pub reconsidered_at: Option<Timestamp>,
}

/// The nine-state Auth Request lifecycle.
#[derive(Clone, Copy, Debug, PartialEq, Eq, Hash, Structural)]
pub enum AuthRequestState {
    Draft,
    Pending,
    InProgress,
    Approved,
    Denied,
    Partial,
    Expired,
    Revoked,
    Cancelled,
}

impl AuthRequestState {
    /// Every variant in declaration order.
    pub const ALL: [AuthRequestState; 9] = [
        AuthRequestState::Draft,
        AuthRequestState::Pending,
        AuthRequestState::InProgress,
        AuthRequestState::Approved,
        AuthRequestState::Denied,
        AuthRequestState::Partial,
        AuthRequestState::Expired,
        AuthRequestState::Revoked,
        AuthRequestState::Cancelled,
    ];
}

/// Per-resource aggregation state.
#[derive(Clone, Copy, Debug, PartialEq, Eq, Hash, Structural)]
pub enum ResourceSlotState {
    InProgress,
    Approved,
    Denied,
    Partial,
    Expired,
}

/// Per-approver slot state.
#[derive(Clone, Copy, Debug, PartialEq, Eq, Hash, Structural)]
pub enum ApproverSlotState {
    Unfilled,
    Approved,
    Denied,
}

// ============================================================================
// Consent
// ============================================================================

/// Lifecycle state of a [`Consent`] record.
///
/// `Default = Acknowledged` matches the implicit consent policy (consent is
/// auto-acknowledged at agent creation) and is the back-compat value for
/// rows that carry no state.
#[derive(Clone, Copy, Debug, PartialEq, Eq, Hash, Structural)]
pub enum ConsentState {
    Requested,
    Acknowledged,
    Declined,
    Revoked,
    TimedOut,
    Expired,
}

impl ConsentState {
    /// Every variant in declaration order.
    pub const ALL: [ConsentState; 6] = [
        ConsentState::Requested,
        ConsentState::Acknowledged,
        ConsentState::Declined,
        ConsentState::Revoked,
        ConsentState::TimedOut,
        ConsentState::Expired,
    ];
}

impl Default for ConsentState {
    fn default() -> (s: ConsentState)
        ensures
            s == ConsentState::Acknowledged,
    {
        ConsentState::Acknowledged
    }
}

/// What a consent covers: the org under whose policy it applies, the
/// templates and actions it narrows to (empty = any), and for per-session
/// consents the session it is bound to.
#[derive(Clone, Debug)]
pub struct ConsentScope {
    pub org: OrgId,
    pub templates: Vec<TemplateId>,
    pub actions: Vec<Action>,
    pub session_id: Option<SessionId>,
}

/// Mathematical model of a [`ConsentScope`].
pub struct ConsentScopeView {
    pub org: OrgId,
    pub templates: Seq<TemplateId>,
    pub actions: Seq<Action>,
    pub session_id: Option<SessionId>,
}

impl View for ConsentScope {
    type V = ConsentScopeView;

    open spec fn view(&self) -> ConsentScopeView {
        ConsentScopeView {
            org: self.org,
            templates: self.templates@,
            actions: self.actions@,
            session_id: self.session_id,
        }
    }
}

impl ConsentScope {
    /// A copy of the scope, equal in every field.
    pub fn duplicate(&self) -> (r: ConsentScope)
        ensures
            r@ == self@,
    {
        let templates = self.templates.clone();
        let actions = self.actions.clone();
        proof {
            assert(templates@ =~= self.templates@);
            assert(actions@ =~= self.actions@);
        }
        ConsentScope { org: self.org, templates, actions, session_id: self.session_id }
    }
}

/// Subordinate consent record gating Authority Template grants.
#[derive(Clone, Debug)]
pub struct Consent {
    pub id: ConsentId,
    pub agent_id: AgentId,
    pub scope: ConsentScope,
    pub state: ConsentState,
    pub requested_at: Timestamp,
    pub responded_at: Option<Timestamp>,
    pub revoked_at: Option<Timestamp>,
    pub revocable: bool,
    pub provenance: String,
    /// When a `Requested` consent is auto-flipped to `TimedOut` by the
    /// sweeper; `None` = no auto-timeout.
    pub deadline_at: Option<Timestamp>,
}

/// Mathematical model of a [`Consent`].
pub struct ConsentView {
    pub id: ConsentId,
    pub agent_id: AgentId,
    pub scope: ConsentScopeView,
    pub state: ConsentState,
    pub requested_at: Timestamp,
    pub responded_at: Option<Timestamp>,
    pub revoked_at: Option<Timestamp>,
    pub revocable: bool,
    pub provenance: Seq<char>,
    pub deadline_at: Option<Timestamp>,
}

impl View for Consent {
    type V = ConsentView;

    open spec fn view(&self) -> ConsentView {
        ConsentView {
            id: self.id,
            agent_id: self.agent_id,
            scope: self.scope@,
            state: self.state,
            requested_at: self.requested_at,
            responded_at: self.responded_at,
            revoked_at: self.revoked_at,
            revocable: self.revocable,
            provenance: self.provenance@,
            deadline_at: self.deadline_at,
        }
    }
}

impl Consent {
    /// A copy of the record, equal in every field.
    pub fn duplicate(&self) -> (r: Consent)
        ensures
            r@ == self@,
    {
        Consent {
            id: self.id,
            agent_id: self.agent_id,
            scope: self.scope.duplicate(),
            state: self.state,
            requested_at: self.requested_at,
            responded_at: self.responded_at,
            revoked_at: self.revoked_at,
            revocable: self.revocable,
            provenance: self.provenance.clone(),
            deadline_at: self.deadline_at,
        }
    }
}

// ============================================================================
// Manifests, channels, inboxes, memory
// ============================================================================

/// Publish-time authority declaration for a tool.
#[derive(Clone, Debug)]
pub struct ToolAuthorityManifest {
    pub id: NodeId,
    /// Name of the `ToolDefinition` this manifest is attached to.
    pub tool_name: String,
    pub resource: Vec<String>,
    pub transitive: Vec<String>,
    pub actions: Vec<Action>,
    pub constraints: Vec<String>,
    pub kinds: Vec<String>,
    pub target_kinds: Vec<String>,
    pub delegable: bool,
    pub approval: String,
}

/// How to reach a human agent.
#[derive(Clone, Debug)]
pub struct Channel {
    pub id: NodeId,
    pub agent_id: AgentId,
    pub kind: ChannelKind,
    pub handle: String,
    pub created_at: Timestamp,
}

/// Medium of a [`Channel`].
#[derive(Clone, Copy, Debug, PartialEq, Eq, Hash, Structural)]
pub enum ChannelKind {
    Slack,
    Email,
    Web,
}

/// An agent's inbox (received messages).
#[derive(Clone, Debug)]
pub struct InboxObject {
    pub id: NodeId,
    pub agent_id: AgentId,
    pub created_at: Timestamp,
    /// Instance-identity tags (`#kind:inbox`, `inbox:<id>`).
    pub tags: Vec<String>,
}

/// An agent's outbox (sent messages).
#[derive(Clone, Debug)]
pub struct OutboxObject {
    pub id: NodeId,
    pub agent_id: AgentId,
    pub created_at: Timestamp,
    /// Instance-identity tags (`#kind:outbox`, `outbox:<id>`).
    pub tags: Vec<String>,
}

/// Persistent knowledge across sessions.
#[derive(Clone, Debug)]
pub struct Memory {
    pub id: MemoryId,
    pub owning_agent: AgentId,
    pub tags: Vec<String>,
    pub created_at: Timestamp,
}

// ============================================================================
// Identity experience counters (supervised doing)
// ============================================================================

/// Supervised-doing metrics of an LLM agent's identity; empty for
/// non-supervisor agents.
#[derive(Clone, Debug, PartialEq, Eq)]
pub struct WitnessedExperience {
    pub memories_extracted: u64,
    pub subordinates_observed: Vec<AgentId>,
    /// How many extractions were private vs public.
    pub extraction_scope_distribution: ExtractionScopeDistribution,
}

impl Default for WitnessedExperience {
    fn default() -> (w: WitnessedExperience)
        ensures
            w.memories_extracted == 0,
            w.subordinates_observed@.len() == 0,
            w.extraction_scope_distribution == (ExtractionScopeDistribution { private: 0, public: 0 }),
    {
        WitnessedExperience {
            memories_extracted: 0,
            subordinates_observed: Vec::new(),
            extraction_scope_distribution: ExtractionScopeDistribution::default(),
        }
    }
}

/// Counts of private and public memory extractions.
#[derive(Clone, Copy, Debug, PartialEq, Eq, Structural)]
pub struct ExtractionScopeDistribution {
    pub private: u64,
    pub public: u64,
}

impl Default for ExtractionScopeDistribution {
    fn default() -> (d: ExtractionScopeDistribution)
        ensures
            d.private == 0,
            d.public == 0,
    {
        ExtractionScopeDistribution { private: 0, public: 0 }
    }
}

/// Reference to a skill the agent currently has (by name).
#[derive(Clone, Debug, PartialEq, Eq)]
pub struct SkillRef {
    pub name: String,
}

// ============================================================================
// Session / LoopRecordNode / TurnNode — wraps of phi-core's session tier.
// ============================================================================

/// One logical task or conversation; wraps phi-core's `Session` tree and
/// adds the governance fields.
#[derive(Clone, Debug)]
pub struct Session {
    pub id: SessionId,
    /// The phi-core session tree (session-id, agent-id, loops, formation).
    pub inner: phi_core::session::model::Session,
    pub owning_org: OrgId,
    pub owning_project: ProjectId,
    pub started_by: AgentId,
    pub governance_state: SessionGovernanceState,
    pub started_at: Timestamp,
    pub ended_at: Option<Timestamp>,
    /// Running total of tokens consumed across every turn.
    pub tokens_spent: u64,
    /// Instance-identity tags (`#kind:session`, `session:<id>`).
    pub tags: Vec<String>,
}

/// Session lifecycle state: `Running` until it completes, is aborted, or
/// its launch fails.
#[derive(Clone, Copy, Debug, PartialEq, Eq, Hash, Structural)]
pub enum SessionGovernanceState {
    Running,
    Completed,
    Aborted,
    FailedLaunch,
}

impl SessionGovernanceState {
    /// Every variant in a stable order.
    pub const ALL: [SessionGovernanceState; 4] = [
        SessionGovernanceState::Running,
        SessionGovernanceState::Completed,
        SessionGovernanceState::Aborted,
        SessionGovernanceState::FailedLaunch,
    ];

    /// Canonical string form.
    pub open spec fn wire(self) -> Seq<char> {
        match self {
            SessionGovernanceState::Running => "running"@,
            SessionGovernanceState::Completed => "completed"@,
            SessionGovernanceState::Aborted => "aborted"@,
            SessionGovernanceState::FailedLaunch => "failed_launch"@,
        }
    }

    /// Canonical string form.
    pub fn as_str(&self) -> (s: &'static str)
        ensures
            s@ == self.wire(),
    {
        match self {
            SessionGovernanceState::Running => "running",
            SessionGovernanceState::Completed => "completed",
            SessionGovernanceState::Aborted => "aborted",
            SessionGovernanceState::FailedLaunch => "failed_launch",
        }
    }

    /// True once the session no longer accepts turns: every state but
    /// `Running`.
    pub fn is_terminal(&self) -> (t: bool)
        ensures
            t == !(*self is Running),
    {
        match self {
            SessionGovernanceState::Running => false,
            _ => true,
        }
    }
}

/// Distinct variants have distinct string forms.
pub proof fn law_session_governance_state_wire_injective(a: SessionGovernanceState, b: SessionGovernanceState)
    ensures
        a != b ==> a.wire() != b.wire(),
{
    reveal_strlit("running");
    reveal_strlit("completed");
    reveal_strlit("aborted");
    reveal_strlit("failed_launch");
    if a != b && a.wire() == b.wire() {
        assert(a.wire().len() == b.wire().len());
        assert(a.wire()[0] == b.wire()[0]);
    }
}

/// One `agent_loop()` call; wraps phi-core's `LoopRecord`.
#[derive(Clone, Debug)]
pub struct LoopRecordNode {
    pub id: LoopId,
    /// The phi-core loop record (messages, usage, status, timing).
    pub inner: phi_core::session::model::LoopRecord,
    pub session_id: SessionId,
    /// Zero-based index of this loop within its session.
    pub loop_index: u32,
}

/// One LLM round-trip; wraps phi-core's `Turn`.
#[derive(Clone, Debug)]
pub struct TurnNode {
    pub id: TurnNodeId,
    /// The phi-core turn (input messages, output message, tool results).
    pub inner: phi_core::session::model::Turn,
    pub loop_id: LoopId,
    /// Zero-based index of this turn within its loop.
    pub turn_index: u32,
}

// ============================================================================
// Scaffolded (id-only) node structs.
// ============================================================================

/// Atomic unit of conversation.
#[derive(Clone, Copy, Debug)]
pub struct MessageNode {
    pub id: NodeId,
}

/// Granular execution-trace event.
#[derive(Clone, Copy, Debug)]
pub struct EventNode {
    pub id: NodeId,
}

/// Which LLM backs the agent.
#[derive(Clone, Copy, Debug)]
pub struct ModelConfig {
    pub id: NodeId,
}

/// Tool schema sent to the LLM.
#[derive(Clone, Copy, Debug)]
pub struct ToolDefinition {
    pub id: NodeId,
}

/// Concrete tool execution logic.
#[derive(Clone, Copy, Debug)]
pub struct ToolImplementation {
    pub id: NodeId,
}

/// Loaded skill with metadata.
#[derive(Clone, Copy, Debug)]
pub struct Skill {
    pub id: NodeId,
}

/// External tool server via MCP.
#[derive(Clone, Copy, Debug)]
pub struct McpServer {
    pub id: NodeId,
}

/// External OpenAPI spec.
#[derive(Clone, Copy, Debug)]
pub struct OpenApiSpec {
    pub id: NodeId,
}

/// Assembled system prompt.
#[derive(Clone, Copy, Debug)]
pub struct SystemPrompt {
    pub id: NodeId,
}

/// How parallel branches are evaluated.
#[derive(Clone, Copy, Debug)]
pub struct EvaluationStrategy {
    pub id: NodeId,
}

/// Constrains agent resources.
#[derive(Clone, Copy, Debug)]
pub struct ExecutionLimits {
    pub id: NodeId,
}

/// Context-management strategy.
#[derive(Clone, Copy, Debug)]
pub struct CompactionPolicy {
    pub id: NodeId,
}

/// Error-retry behavior.
#[derive(Clone, Copy, Debug)]
pub struct RetryPolicy {
    pub id: NodeId,
}

/// Prompt-caching behavior.
#[derive(Clone, Copy, Debug)]
pub struct CachePolicy {
    pub id: NodeId,
}

/// Biddable unit of work.
#[derive(Clone, Copy, Debug)]
pub struct Task {
    pub id: NodeId,
}

/// Agent proposal for a Task.
#[derive(Clone, Copy, Debug)]
pub struct Bid {
    pub id: NodeId,
}

/// Quality assessment of agent work.
#[derive(Clone, Copy, Debug)]
pub struct Rating {
    pub id: NodeId,
}

/// Root configuration document.
#[derive(Clone, Copy, Debug)]
pub struct AgentConfig {
    pub id: NodeId,
}

/// One block within a system-prompt strategy.
#[derive(Clone, Copy, Debug)]
pub struct PromptBlock {
    pub id: NodeId,
}

} // verus!
