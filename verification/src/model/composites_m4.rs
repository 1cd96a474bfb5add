//! Project-level records: objectives and their status vocabularies, the
//! per-project resource boundaries, and per-agent execution-limit
//! overrides.
//!
//! Key results carry floating-point values (percentages, arbitrary JSON
//! numbers) and live with the application layer.

use vstd::prelude::*;

use phi_core::context::execution::ExecutionLimits;

use super::ids::{AgentId, McpServerId, ModelProviderId, NodeId};
use crate::time::Timestamp;

verus! {

/// A project objective: what the project sets out to achieve, owned by an
/// agent, optionally due by a deadline and measured by key results.
#[derive(Clone, Debug, PartialEq, Eq)]
pub struct Objective {
    /// Project-scoped identifier (for example `obj-1`).
    pub objective_id: String,
    pub name: String,
    pub description: String,
    pub status: ObjectiveStatus,
    pub owner: AgentId,
    pub deadline: Option<Timestamp>,
    /// Identifiers of the key results that measure this objective.
    pub key_result_ids: Vec<String>,
}

/// Lifecycle of an objective.
#[derive(Clone, Copy, Debug, PartialEq, Eq, Hash, Structural)]
pub enum ObjectiveStatus {
    Draft,
    Active,
    Achieved,
    Missed,
    Cancelled,
}

impl ObjectiveStatus {
    /// Every variant in declaration order.
    pub const ALL: [ObjectiveStatus; 5] = [
        ObjectiveStatus::Draft,
        ObjectiveStatus::Active,
        ObjectiveStatus::Achieved,
        ObjectiveStatus::Missed,
        ObjectiveStatus::Cancelled,
    ];
}

/// How a key result is measured.
#[derive(Clone, Copy, Debug, PartialEq, Eq, Hash, Structural)]
pub enum MeasurementType {
    Count,
    Boolean,
    Percentage,
    Custom,
}

impl MeasurementType {
    /// Every variant in declaration order.
    pub const ALL: [MeasurementType; 4] = [
        MeasurementType::Count,
        MeasurementType::Boolean,
        MeasurementType::Percentage,
        MeasurementType::Custom,
    ];
}

/// Lifecycle of a key result.
#[derive(Clone, Copy, Debug, PartialEq, Eq, Hash, Structural)]
pub enum KeyResultStatus {
    NotStarted,
    InProgress,
    Achieved,
    Missed,
    Cancelled,
}

impl KeyResultStatus {
    /// Every variant in declaration order.
    pub const ALL: [KeyResultStatus; 5] = [
        KeyResultStatus::NotStarted,
        KeyResultStatus::InProgress,
        KeyResultStatus::Achieved,
        KeyResultStatus::Missed,
        KeyResultStatus::Cancelled,
    ];
}

/// What a project may draw on: the model providers, MCP servers and skills
/// its sessions may use, and an optional token budget. Empty lists mean
/// nothing is allowed yet; no budget means the org pool alone limits it.
#[derive(Clone, Debug, PartialEq, Eq)]
pub struct ResourceBoundaries {
    pub allowed_model_providers: Vec<ModelProviderId>,
    pub allowed_mcp_servers: Vec<McpServerId>,
    pub allowed_skills: Vec<String>,
    pub token_budget: Option<u64>,
}

impl Default for ResourceBoundaries {
    /// No provider, server or skill allowed, and no budget.
    fn default() -> (rb: ResourceBoundaries)
        ensures
            rb.allowed_model_providers@.len() == 0,
            rb.allowed_mcp_servers@.len() == 0,
            rb.allowed_skills@.len() == 0,
            rb.token_budget is None,
    {
        ResourceBoundaries {
            allowed_model_providers: Vec::new(),
            allowed_mcp_servers: Vec::new(),
            allowed_skills: Vec::new(),
            token_budget: None,
        }
    }
}

/// Per-agent execution limits that tighten the org-level defaults. The
/// limits are phi-core's `ExecutionLimits`, held verbatim.
#[derive(Clone, Debug)]
pub struct AgentExecutionLimitsOverride {
    pub id: NodeId,
    pub owning_agent: AgentId,
    pub limits: ExecutionLimits,
    pub created_at: Timestamp,
}

} // verus!
