//! Org-level governance primitives: the consent policy, the per-org
//! snapshot of platform defaults and the token budget pool.

use vstd::prelude::*;

use super::composites_m2::PlatformDefaults;
use super::ids::{is_v4, NodeId, OrgId};
use crate::time::Timestamp;

verus! {

/// Org-level consent policy governing how an org's members authorise
/// cross-session data access: `Implicit` (membership alone), `OneTime`
/// (prompt once per consenter pair) or `PerSession` (prompt on every
/// session launch).
#[derive(Clone, Copy, Debug, PartialEq, Eq, Hash, Structural)]
pub enum ConsentPolicy {
    Implicit,
    OneTime,
    PerSession,
}

impl ConsentPolicy {
    /// Every variant in declaration order.
    pub const ALL: [ConsentPolicy; 3] = [
        ConsentPolicy::Implicit,
        ConsentPolicy::OneTime,
        ConsentPolicy::PerSession,
    ];

    /// Stable wire name of the policy.
    pub open spec fn wire(self) -> Seq<char> {
        match self {
            ConsentPolicy::Implicit => "implicit"@,
            ConsentPolicy::OneTime => "one_time"@,
            ConsentPolicy::PerSession => "per_session"@,
        }
    }

    /// Stable wire name of the policy.
    pub fn as_wire(&self) -> (s: &'static str)
        ensures
            s@ == self.wire(),
    {
        match self {
            ConsentPolicy::Implicit => "implicit",
            ConsentPolicy::OneTime => "one_time",
            ConsentPolicy::PerSession => "per_session",
        }
    }
}

/// Distinct variants have distinct string forms.
pub proof fn law_consent_policy_wire_injective(a: ConsentPolicy, b: ConsentPolicy)
    ensures
        a != b ==> a.wire() != b.wire(),
{
    reveal_strlit("implicit");
    reveal_strlit("one_time");
    reveal_strlit("per_session");
    if a != b && a.wire() == b.wire() {
        assert(a.wire().len() == b.wire().len());
        assert(a.wire()[0] == b.wire()[0]);
    }
}

/// A per-org snapshot of the platform's default agent-loop and governance
/// settings, captured at org creation and never updated afterwards.
#[derive(Clone, Debug)]
pub struct OrganizationDefaultsSnapshot {
    pub execution_limits: phi_core::context::execution::ExecutionLimits,
    pub default_agent_profile: phi_core::agents::profile::AgentProfile,
    pub context_config: phi_core::context::config::ContextConfig,
    pub retry_config: phi_core::provider::retry::RetryConfig,
    /// Audit-log retention in days for this org.
    pub default_retention_days: u32,
    /// Alert-delivery channel handles (emails, webhook URLs).
    pub default_alert_channels: Vec<String>,
}

impl OrganizationDefaultsSnapshot {
    /// The snapshot matches the platform defaults it was taken from, field
    /// by field.
    pub open spec fn copies(self, pd: PlatformDefaults) -> bool {
        &&& self.execution_limits == pd.execution_limits
        &&& self.default_agent_profile == pd.default_agent_profile
        &&& self.context_config == pd.context_config
        &&& self.retry_config == pd.retry_config
        &&& self.default_retention_days == pd.default_retention_days
        &&& self.default_alert_channels@ == pd.default_alert_channels@
    }

    /// Snapshot the current platform defaults for a newly created org.
    pub fn from_platform_defaults(pd: &PlatformDefaults) -> (s: Self)
        ensures
            s.copies(*pd),
    {
        let channels = pd.default_alert_channels.clone();
        proof {
            assert(channels@ =~= pd.default_alert_channels@);
        }
        OrganizationDefaultsSnapshot {
            execution_limits: pd.execution_limits.clone(),
            default_agent_profile: pd.default_agent_profile.clone(),
            context_config: pd.context_config.clone(),
            retry_config: pd.retry_config.clone(),
            default_retention_days: pd.default_retention_days,
            default_alert_channels: channels,
        }
    }
}

/// Non-retroactive snapshot: a later edit of the platform defaults leaves
/// an existing snapshot as it was; it still matches the defaults at
/// snapshot time and not the edited ones where they differ.
pub proof fn law_snapshot_is_not_retroactive(
    snap: OrganizationDefaultsSnapshot,
    at_snapshot: PlatformDefaults,
    edited: PlatformDefaults,
)
    requires
        snap.copies(at_snapshot),
        edited.default_retention_days != at_snapshot.default_retention_days,
    ensures
        snap.copies(at_snapshot),
        !snap.copies(edited),
{
}

// ============================================================================
// TokenBudgetPool
// ============================================================================

/// Refusal text when a debit overflows the counter.
pub open spec fn debit_overflow_text() -> Seq<char> {
    "token_budget_pool: usize overflow on debit"@
}

/// Refusal text when a debit would exceed the allocation.
pub open spec fn debit_exceeds_text() -> Seq<char> {
    "token_budget_pool: debit would exceed initial_allocation"@
}

/// Per-org token budget pool: cumulative consumption `used` against the
/// ceiling `initial_allocation`.
#[derive(Clone, Copy, Debug, PartialEq, Eq, Structural)]
pub struct TokenBudgetPool {
    pub id: NodeId,
    pub owning_org: OrgId,
    /// Ceiling granted at org creation, in LLM tokens.
    pub initial_allocation: u64,
    /// Tokens consumed to date.
    pub used: u64,
    pub created_at: Timestamp,
}

impl TokenBudgetPool {
    /// The pool's invariant: consumption never exceeds the allocation.
    pub open spec fn within_budget(self) -> bool {
        self.used <= self.initial_allocation
    }

    /// Tokens left: allocation minus consumption, or 0 past the ceiling.
    pub open spec fn spec_remaining(self) -> nat {
        if self.used <= self.initial_allocation {
            (self.initial_allocation - self.used) as nat
        } else {
            0
        }
    }

    /// A fresh pool for a newly created org: nothing used yet.
    pub fn new(owning_org: OrgId, initial_allocation: u64, now: Timestamp) -> (p: Self)
        ensures
            is_v4(p.id.0),
            p.owning_org == owning_org,
            p.initial_allocation == initial_allocation,
            p.used == 0,
            p.created_at == now,
            p.within_budget(),
    {
        TokenBudgetPool { id: NodeId::new(), owning_org, initial_allocation, used: 0, created_at: now }
    }

    /// Tokens remaining, saturating at 0.
    pub fn remaining(&self) -> (r: u64)
        ensures
            r == self.spec_remaining(),
    {
        self.initial_allocation.saturating_sub(self.used)
    }

    /// Record `amount` tokens of consumption and return the new total.
    /// All or nothing: a debit that overflows the counter or would pass
    /// the allocation is refused and leaves the pool unchanged.
    pub fn debit(&mut self, amount: u64) -> (r: Result<u64, &'static str>)
        ensures
            match r {
                Ok(total) => {
                    &&& old(self).used + amount <= old(self).initial_allocation
                    &&& final(self).used == old(self).used + amount
                    &&& total == final(self).used
                    &&& *final(self) == (TokenBudgetPool { used: final(self).used, ..*old(self) })
                },
                Err(msg) => {
                    &&& *final(self) == *old(self)
                    &&& if old(self).used + amount > u64::MAX {
                        msg@ == debit_overflow_text()
                    } else {
                        old(self).used + amount > old(self).initial_allocation && msg@
                            == debit_exceeds_text()
                    }
                },
            },
    {
        let new_used = match self.used.checked_add(amount) {
            Some(v) => v,
            None => return Err("token_budget_pool: usize overflow on debit"),
        };
        if new_used > self.initial_allocation {
            return Err("token_budget_pool: debit would exceed initial_allocation");
        }
        self.used = new_used;
        Ok(self.used)
    }
}

/// A debit succeeds exactly when the pool can absorb it; it keeps the
/// pool within budget and moves `amount` tokens from remaining to used.
pub proof fn law_debit_conserves_tokens(p: TokenBudgetPool, amount: u64)
    requires
        p.within_budget(),
    ensures
        p.spec_remaining() + p.used == p.initial_allocation,
        (p.used + amount <= p.initial_allocation) <==> (amount <= p.spec_remaining()),
        amount <= p.spec_remaining() ==> ({
            let q = TokenBudgetPool { used: (p.used + amount) as u64, ..p };
            &&& q.within_budget()
            &&& q.spec_remaining() == p.spec_remaining() - amount
        }),
{
}

} // verus!
