//! Domain events: the facts a committed write reports to its reactive
//! listeners, and the decisions those listeners take.
//!
//! An event is emitted only after the write that produced it has
//! committed; listeners react after the fact and their failures never undo
//! the write.

pub mod bus;
pub mod listeners;

pub use bus::{drain_step, DrainError, DrainStep};
pub use listeners::{
    AgentCatalogListener, CatalogAuditMode, MemoryExtractionListener, TemplateAFireListener,
    TemplateCFireListener, TemplateDFireListener, AGENT_CATALOG_SYSTEM_AGENT_DISPLAY_NAME,
    MEMORY_EXTRACTION_SYSTEM_AGENT_DISPLAY_NAME,
};

use vstd::prelude::*;

use crate::model::ids::{AgentId, AuditEventId, BlueprintId, MemoryId, NodeId, OrgId, ProjectId, SessionId};
use crate::model::nodes::{AgentKind, AgentRole};
use crate::time::Timestamp;

verus! {

/// Every event the domain layer emits. Each carries the identifier of the
/// audit event that recorded the same fact.
#[derive(Clone, Debug)]
pub enum DomainEvent {
    /// A project gained a lead agent.
    HasLeadEdgeCreated { project: ProjectId, lead: AgentId, at: Timestamp, event_id: AuditEventId },
    /// A session was launched.
    SessionStarted {
        session_id: SessionId,
        agent_id: AgentId,
        project_id: ProjectId,
        started_at: Timestamp,
        event_id: AuditEventId,
    },
    /// A session finished naturally.
    SessionEnded {
        session_id: SessionId,
        agent_id: AgentId,
        project_id: ProjectId,
        ended_at: Timestamp,
        duration_ms: u64,
        turn_count: u32,
        tokens_spent: u64,
        event_id: AuditEventId,
    },
    /// A session was terminated before finishing.
    SessionAborted {
        session_id: SessionId,
        reason: String,
        terminated_by: AgentId,
        at: Timestamp,
        event_id: AuditEventId,
    },
    /// An agent became the manager of another within an org.
    ManagesEdgeCreated {
        org_id: OrgId,
        manager: AgentId,
        subordinate: AgentId,
        at: Timestamp,
        event_id: AuditEventId,
    },
    /// An agent became the supervisor of another within a project.
    HasAgentSupervisorEdgeCreated {
        project_id: ProjectId,
        supervisor: AgentId,
        supervisee: AgentId,
        at: Timestamp,
        event_id: AuditEventId,
    },
    /// An agent was created in an org.
    AgentCreated {
        agent_id: AgentId,
        owning_org: OrgId,
        agent_kind: AgentKind,
        role: Option<AgentRole>,
        at: Timestamp,
        event_id: AuditEventId,
    },
    /// An agent was archived.
    AgentArchived { agent_id: AgentId, at: Timestamp, event_id: AuditEventId },
    /// An agent's profile edge moved to another profile (`None` when the
    /// agent had none before).
    UsesProfileEdgeChanged {
        agent_id: AgentId,
        old_profile_id: Option<NodeId>,
        new_profile_id: NodeId,
        at: Timestamp,
        event_id: AuditEventId,
    },
    /// An agent's identity record changed.
    IdentityUpdated {
        agent_id: AgentId,
        trigger: IdentityUpdateTrigger,
        at: Timestamp,
        event_id: AuditEventId,
    },
    /// A memory was extracted from a finished session.
    MemoryExtracted {
        memory_id: MemoryId,
        session_id: SessionId,
        owning_agent: AgentId,
        org_scope: Option<OrgId>,
        tags: Vec<String>,
        extracted_at: Timestamp,
        event_id: AuditEventId,
    },
    /// A blueprint was created or changed (`agent_id` names the agent it
    /// belongs to, when it belongs to one).
    BlueprintUpserted {
        blueprint_id: BlueprintId,
        agent_id: Option<AgentId>,
        at: Timestamp,
        event_id: AuditEventId,
    },
}

/// What caused an identity update.
#[derive(Clone, Copy, Debug, PartialEq, Eq, Structural)]
pub enum IdentityUpdateTrigger {
    SessionEnded,
    MemoryExtracted,
    SkillChanged,
    RatingReceived,
}

impl DomainEvent {
    /// Position of the event's variant in declaration order.
    pub open spec fn variant_index(self) -> nat {
        match self {
            DomainEvent::HasLeadEdgeCreated { .. } => 0,
            DomainEvent::SessionStarted { .. } => 1,
            DomainEvent::SessionEnded { .. } => 2,
            DomainEvent::SessionAborted { .. } => 3,
            DomainEvent::ManagesEdgeCreated { .. } => 4,
            DomainEvent::HasAgentSupervisorEdgeCreated { .. } => 5,
            DomainEvent::AgentCreated { .. } => 6,
            DomainEvent::AgentArchived { .. } => 7,
            DomainEvent::UsesProfileEdgeChanged { .. } => 8,
            DomainEvent::IdentityUpdated { .. } => 9,
            DomainEvent::MemoryExtracted { .. } => 10,
            DomainEvent::BlueprintUpserted { .. } => 11,
        }
    }

    /// Stable snake-case name of the event's variant.
    pub open spec fn kind_wire(self) -> Seq<char> {
        match self {
            DomainEvent::HasLeadEdgeCreated { .. } => "has_lead_edge_created"@,
            DomainEvent::SessionStarted { .. } => "session_started"@,
            DomainEvent::SessionEnded { .. } => "session_ended"@,
            DomainEvent::SessionAborted { .. } => "session_aborted"@,
            DomainEvent::ManagesEdgeCreated { .. } => "manages_edge_created"@,
            DomainEvent::HasAgentSupervisorEdgeCreated { .. } => "has_agent_supervisor_edge_created"@,
            DomainEvent::AgentCreated { .. } => "agent_created"@,
            DomainEvent::AgentArchived { .. } => "agent_archived"@,
            DomainEvent::UsesProfileEdgeChanged { .. } => "uses_profile_edge_changed"@,
            DomainEvent::IdentityUpdated { .. } => "identity_updated"@,
            DomainEvent::MemoryExtracted { .. } => "memory_extracted"@,
            DomainEvent::BlueprintUpserted { .. } => "blueprint_upserted"@,
        }
    }

    /// The audit-event identifier the event carries.
    pub open spec fn recorded_event_id(self) -> AuditEventId {
        match self {
            DomainEvent::HasLeadEdgeCreated { event_id, .. } => event_id,
            DomainEvent::SessionStarted { event_id, .. } => event_id,
            DomainEvent::SessionEnded { event_id, .. } => event_id,
            DomainEvent::SessionAborted { event_id, .. } => event_id,
            DomainEvent::ManagesEdgeCreated { event_id, .. } => event_id,
            DomainEvent::HasAgentSupervisorEdgeCreated { event_id, .. } => event_id,
            DomainEvent::AgentCreated { event_id, .. } => event_id,
            DomainEvent::AgentArchived { event_id, .. } => event_id,
            DomainEvent::UsesProfileEdgeChanged { event_id, .. } => event_id,
            DomainEvent::IdentityUpdated { event_id, .. } => event_id,
            DomainEvent::MemoryExtracted { event_id, .. } => event_id,
            DomainEvent::BlueprintUpserted { event_id, .. } => event_id,
        }
    }

    /// Stable snake-case name of the event's variant, for logs and audit
    /// payloads.
    pub fn kind(&self) -> (s: &'static str)
        ensures
            s@ == self.kind_wire(),
    {
        match self {
            DomainEvent::HasLeadEdgeCreated { .. } => "has_lead_edge_created",
            DomainEvent::SessionStarted { .. } => "session_started",
            DomainEvent::SessionEnded { .. } => "session_ended",
            DomainEvent::SessionAborted { .. } => "session_aborted",
            DomainEvent::ManagesEdgeCreated { .. } => "manages_edge_created",
            DomainEvent::HasAgentSupervisorEdgeCreated { .. } => "has_agent_supervisor_edge_created",
            DomainEvent::AgentCreated { .. } => "agent_created",
            DomainEvent::AgentArchived { .. } => "agent_archived",
            DomainEvent::UsesProfileEdgeChanged { .. } => "uses_profile_edge_changed",
            DomainEvent::IdentityUpdated { .. } => "identity_updated",
            DomainEvent::MemoryExtracted { .. } => "memory_extracted",
            DomainEvent::BlueprintUpserted { .. } => "blueprint_upserted",
        }
    }

    /// The audit-event identifier the event carries, whatever its variant.
    pub fn event_id(&self) -> (id: AuditEventId)
        ensures
            id == self.recorded_event_id(),
    {
        match self {
            DomainEvent::HasLeadEdgeCreated { event_id, .. } => *event_id,
            DomainEvent::SessionStarted { event_id, .. } => *event_id,
            DomainEvent::SessionEnded { event_id, .. } => *event_id,
            DomainEvent::SessionAborted { event_id, .. } => *event_id,
            DomainEvent::ManagesEdgeCreated { event_id, .. } => *event_id,
            DomainEvent::HasAgentSupervisorEdgeCreated { event_id, .. } => *event_id,
            DomainEvent::AgentCreated { event_id, .. } => *event_id,
            DomainEvent::AgentArchived { event_id, .. } => *event_id,
            DomainEvent::UsesProfileEdgeChanged { event_id, .. } => *event_id,
            DomainEvent::IdentityUpdated { event_id, .. } => *event_id,
            DomainEvent::MemoryExtracted { event_id, .. } => *event_id,
            DomainEvent::BlueprintUpserted { event_id, .. } => *event_id,
        }
    }
}

/// Two events have the same kind exactly when they are of the same
/// variant: the kind names tell the variants apart.
pub proof fn law_event_kind_identifies_variant(a: DomainEvent, b: DomainEvent)
    ensures
        (a.kind_wire() == b.kind_wire()) <==> (a.variant_index() == b.variant_index()),
{
    reveal_strlit("has_lead_edge_created");
    reveal_strlit("session_started");
    reveal_strlit("session_ended");
    reveal_strlit("session_aborted");
    reveal_strlit("manages_edge_created");
    reveal_strlit("has_agent_supervisor_edge_created");
    reveal_strlit("agent_created");
    reveal_strlit("agent_archived");
    reveal_strlit("uses_profile_edge_changed");
    reveal_strlit("identity_updated");
    reveal_strlit("memory_extracted");
    reveal_strlit("blueprint_upserted");
    if a.variant_index() != b.variant_index() && a.kind_wire() == b.kind_wire() {
        assert(a.kind_wire().len() == b.kind_wire().len());
        assert(a.kind_wire()[9] == b.kind_wire()[9]);
    }
}

} // verus!
