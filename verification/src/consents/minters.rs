//! Per-policy constructors of freshly requested [`Consent`] rows.
//!
//! - [`request_one_time`] — the `(subordinate, org, None)` axis: applies to
//!   every session in the org until terminal.
//! - [`request_per_session`] — the `(subordinate, org, Some(session))` axis:
//!   applies only to reads on the named session.
//!
//! Each minter stamps `requested_at` with the current instant and sets
//! `provenance = "engine:step_6@<RFC-3339 of requested_at>"`.

use vstd::prelude::*;
use vstd::string::StringExecFns;

use crate::model::ids::{is_v4, AgentId, ConsentId, OrgId, SessionId};
use crate::model::nodes::{Consent, ConsentScope, ConsentState, ConsentView};
use crate::time::{rfc3339_text, Timestamp};

verus! {

/// Provenance text of a consent minted at `at`.
pub open spec fn step6_provenance(at: Timestamp) -> Seq<char> {
    "engine:step_6@"@ + rfc3339_text(at.secs as int, at.nanos as int)
}

/// A freshly minted consent: `Requested`, revocable, not yet responded to
/// nor revoked, with empty template/action narrowing, the given session
/// axis and deadline, and provenance derived from its request instant.
pub open spec fn minted(
    c: ConsentView,
    subordinate: AgentId,
    org: OrgId,
    session_id: Option<SessionId>,
    deadline_at: Option<Timestamp>,
) -> bool {
    &&& is_v4(c.id.0)
    &&& c.agent_id == subordinate
    &&& c.scope.org == org
    &&& c.scope.templates == Seq::<crate::model::ids::TemplateId>::empty()
    &&& c.scope.actions == Seq::<crate::permissions::Action>::empty()
    &&& c.scope.session_id == session_id
    &&& c.state == ConsentState::Requested
    &&& c.requested_at.representable()
    &&& c.responded_at is None
    &&& c.revoked_at is None
    &&& c.revocable
    &&& c.provenance == step6_provenance(c.requested_at)
    &&& c.deadline_at == deadline_at
}

fn mint(
    subordinate: AgentId,
    org: OrgId,
    session_id: Option<SessionId>,
    deadline_at: Option<Timestamp>,
) -> (c: Consent)
    ensures
        minted(c@, subordinate, org, session_id, deadline_at),
{
    let now = Timestamp::now();
    let stamp = now.to_rfc3339();
    let provenance = String::from_str("engine:step_6@").concat(stamp.as_str());
    let c = Consent {
        id: ConsentId::new(),
        agent_id: subordinate,
        scope: ConsentScope {
            org,
            templates: Vec::new(),
            actions: Vec::new(),
            session_id,
        },
        state: ConsentState::Requested,
        requested_at: now,
        responded_at: None,
        revoked_at: None,
        revocable: true,
        provenance,
        deadline_at,
    };
    proof {
        assert(c@.scope.templates =~= Seq::<crate::model::ids::TemplateId>::empty());
        assert(c@.scope.actions =~= Seq::<crate::permissions::Action>::empty());
    }
    c
}

/// Mint a `Requested` one-time-policy consent: not session-scoped,
/// revocable, with the caller-computed timeout boundary (`None` = no
/// auto-timeout).
pub fn request_one_time(
    subordinate: AgentId,
    org: OrgId,
    deadline_at: Option<Timestamp>,
) -> (c: Consent)
    ensures
        minted(c@, subordinate, org, None, deadline_at),
{
    mint(subordinate, org, None, deadline_at)
}

/// Mint a `Requested` per-session-policy consent bound to `session_id`.
pub fn request_per_session(
    subordinate: AgentId,
    org: OrgId,
    session_id: SessionId,
    deadline_at: Option<Timestamp>,
) -> (c: Consent)
    ensures
        minted(c@, subordinate, org, Some(session_id), deadline_at),
{
    mint(subordinate, org, Some(session_id), deadline_at)
}

/// A minted consent enters the lifecycle at its entry state: it is not
/// terminal and can still be acknowledged, declined, timed out or expired.
pub proof fn law_minted_consents_start_the_lifecycle(
    c: ConsentView,
    subordinate: AgentId,
    org: OrgId,
    session_id: Option<SessionId>,
    deadline_at: Option<Timestamp>,
)
    requires
        minted(c, subordinate, org, session_id, deadline_at),
    ensures
        !crate::consents::state::spec_is_terminal(c.state),
        crate::consents::state::spec_legal_transition(c.state, ConsentState::Acknowledged),
        crate::consents::state::spec_legal_transition(c.state, ConsentState::Declined),
        crate::consents::state::spec_legal_transition(c.state, ConsentState::TimedOut),
        crate::consents::state::spec_legal_transition(c.state, ConsentState::Expired),
{
}

} // verus!
