//! Session-tier read models and per-org projection rows: the assembled
//! view of a session, pending Shape B projects, the agent catalog, the
//! system-agent runtime tiles and the recent-session summaries.

use vstd::prelude::*;
use vstd::string::StringExecFns;

use std::collections::BTreeMap;

use super::ids::{
    AgentCatalogEntryId, AgentId, AuthRequestId, LoopId, OrgId, ProjectId, SessionId,
    SystemAgentRuntimeStatusId,
};
use super::nodes::{AgentKind, LoopRecordNode, Session, SessionGovernanceState, TurnNode};
use crate::time::Timestamp;

verus! {

/// A session with its loops and, per loop, its turns, as a repository
/// read assembles it.
#[derive(Clone, Debug)]
pub struct SessionDetail {
    pub session: Session,
    pub loops: Vec<LoopRecordNode>,
    pub turns_by_loop: BTreeMap<LoopId, Vec<TurnNode>>,
    pub tags: Vec<String>,
}

/// A Shape B (co-owned) project waiting for its two-approver request to
/// resolve; the creation payload is kept as JSON until then.
#[derive(Clone, Debug)]
pub struct ShapeBPendingProject {
    pub auth_request_id: AuthRequestId,
    pub payload: serde_json::Value,
    pub created_at: Timestamp,
    pub tags: Vec<String>,
}

/// One row of an org's agent catalog: a cached projection of an agent
/// that the catalog listener refreshes on lifecycle and session events.
#[derive(Clone, Debug)]
pub struct AgentCatalogEntry {
    pub id: AgentCatalogEntryId,
    pub agent_id: AgentId,
    pub owning_org: OrgId,
    pub display_name: String,
    pub kind: AgentKind,
    /// Wire name of the agent's role, when it has one.
    pub role: Option<String>,
    /// `false` once the agent is disabled or archived.
    pub active: bool,
    /// JSON of the agent's blueprint as last seen.
    pub profile_snapshot: Option<serde_json::Value>,
    pub last_seen_at: Timestamp,
    pub updated_at: Timestamp,
    pub tags: Vec<String>,
}

/// The value `active` takes on catalog rows that do not carry it.
pub fn default_active_true() -> (b: bool)
    ensures
        b,
{
    true
}

/// Runtime tile of a system agent: how busy it is, when it last fired and
/// the last error it hit.
#[derive(Clone, Debug)]
pub struct SystemAgentRuntimeStatus {
    pub id: SystemAgentRuntimeStatusId,
    pub agent_id: AgentId,
    pub owning_org: OrgId,
    pub queue_depth: u32,
    pub last_fired_at: Option<Timestamp>,
    pub effective_parallelize: u32,
    pub last_error: Option<String>,
    pub updated_at: Timestamp,
    pub tags: Vec<String>,
}

/// Compact summary of a session for dashboards.
#[derive(Clone, Debug)]
pub struct RecentSessionEntry {
    pub id: SessionId,
    pub project_id: ProjectId,
    pub agent_id: AgentId,
    pub started_at: Timestamp,
    pub ended_at: Option<Timestamp>,
    /// Wire name of the session's governance state.
    pub status: String,
}

impl RecentSessionEntry {
    /// The summary of `session`: its ids, its start and end, and the wire
    /// name of its governance state as the status.
    pub fn from_session(session: &Session) -> (e: RecentSessionEntry)
        ensures
            e.id == session.id,
            e.project_id == session.owning_project,
            e.agent_id == session.started_by,
            e.started_at == session.started_at,
            e.ended_at == session.ended_at,
            e.status@ == session.governance_state.wire(),
    {
        RecentSessionEntry {
            id: session.id,
            project_id: session.owning_project,
            agent_id: session.started_by,
            started_at: session.started_at,
            ended_at: session.ended_at,
            status: String::from_str(session.governance_state.as_str()),
        }
    }
}

} // verus!
