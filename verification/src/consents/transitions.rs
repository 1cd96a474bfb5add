//! Transition operations on a [`Consent`].
//!
//! Every function takes the consent by shared reference and returns a new
//! row or an error: state never mutates in place. Every transition
//! consults the legal-transition table first.

use vstd::prelude::*;

use super::state::{legal_transition, spec_legal_transition};
use crate::model::ids::ConsentId;
use crate::model::nodes::{Consent, ConsentState, ConsentView};
use crate::time::Timestamp;

verus! {

/// Structured error for a rejected Consent transition.
#[derive(Clone, Copy, Debug, PartialEq, Eq, Structural)]
pub enum ConsentTransitionError {
    /// The transition is not in the legal-transition table (terminal
    /// stickiness, forward-only revocation and every other illegal pair).
    IllegalTransition { from: ConsentState, to: ConsentState },
    /// `Acknowledged → Revoked` on a consent whose `revocable` is false.
    NotRevocable { consent_id: ConsentId },
}

/// Model of a transition's outcome.
pub type TransitionOutcome = Result<ConsentView, ConsentTransitionError>;

/// The model of a transition's returned value.
pub open spec fn outcome_view(r: Result<Consent, ConsentTransitionError>) -> TransitionOutcome {
    match r {
        Ok(c) => Ok(c@),
        Err(e) => Err(e),
    }
}

/// The consent with only its state replaced.
pub open spec fn with_state(c: ConsentView, to: ConsentState) -> ConsentView {
    ConsentView { state: to, ..c }
}

/// Enter `to` if the table allows it, else report the illegal pair.
pub open spec fn spec_enter_state(c: ConsentView, to: ConsentState) -> TransitionOutcome {
    if spec_legal_transition(c.state, to) {
        Ok(with_state(c, to))
    } else {
        Err(ConsentTransitionError::IllegalTransition { from: c.state, to })
    }
}

/// `Requested → Acknowledged`, stamping `responded_at`.
pub open spec fn spec_acknowledge(c: ConsentView, at: Timestamp) -> TransitionOutcome {
    match spec_enter_state(c, ConsentState::Acknowledged) {
        Ok(n) => Ok(ConsentView { responded_at: Some(at), ..n }),
        Err(e) => Err(e),
    }
}

/// `Requested → Declined`, stamping `responded_at`.
pub open spec fn spec_decline(c: ConsentView, at: Timestamp) -> TransitionOutcome {
    match spec_enter_state(c, ConsentState::Declined) {
        Ok(n) => Ok(ConsentView { responded_at: Some(at), ..n }),
        Err(e) => Err(e),
    }
}

/// `Acknowledged → Revoked` when revocable, stamping `revoked_at`; the
/// table is consulted before the revocable gate.
pub open spec fn spec_revoke(c: ConsentView, at: Timestamp) -> TransitionOutcome {
    match spec_enter_state(c, ConsentState::Revoked) {
        Ok(n) => if c.revocable {
            Ok(ConsentView { revoked_at: Some(at), ..n })
        } else {
            Err(ConsentTransitionError::NotRevocable { consent_id: c.id })
        },
        Err(e) => Err(e),
    }
}

/// `Requested → TimedOut`; no timestamp is stamped.
pub open spec fn spec_mark_timed_out(c: ConsentView) -> TransitionOutcome {
    spec_enter_state(c, ConsentState::TimedOut)
}

/// `Requested | Acknowledged → Expired`; no timestamp is stamped.
pub open spec fn spec_mark_expired(c: ConsentView) -> TransitionOutcome {
    spec_enter_state(c, ConsentState::Expired)
}

/// The outcome of the transition function that targets `to` (there is
/// none into `Requested`, the entry state).
pub open spec fn spec_transition_to(c: ConsentView, to: ConsentState, at: Timestamp) -> Option<
    TransitionOutcome,
> {
    match to {
        ConsentState::Requested => None,
        ConsentState::Acknowledged => Some(spec_acknowledge(c, at)),
        ConsentState::Declined => Some(spec_decline(c, at)),
        ConsentState::Revoked => Some(spec_revoke(c, at)),
        ConsentState::TimedOut => Some(spec_mark_timed_out(c)),
        ConsentState::Expired => Some(spec_mark_expired(c)),
    }
}

fn enter_state(consent: &Consent, to: ConsentState) -> (r: Result<Consent, ConsentTransitionError>)
    ensures
        outcome_view(r) == spec_enter_state(consent@, to),
{
    if !legal_transition(consent.state, to) {
        return Err(ConsentTransitionError::IllegalTransition { from: consent.state, to });
    }
    let mut next = consent.duplicate();
    next.state = to;
    Ok(next)
}

/// Move a `Requested` consent to `Acknowledged`, stamping `responded_at`.
pub fn acknowledge(consent: &Consent, at: Timestamp) -> (r: Result<Consent, ConsentTransitionError>)
    ensures
        outcome_view(r) == spec_acknowledge(consent@, at),
{
    let mut next = enter_state(consent, ConsentState::Acknowledged)?;
    next.responded_at = Some(at);
    Ok(next)
}

/// Move a `Requested` consent to `Declined`, stamping `responded_at`.
pub fn decline(consent: &Consent, at: Timestamp) -> (r: Result<Consent, ConsentTransitionError>)
    ensures
        outcome_view(r) == spec_decline(consent@, at),
{
    let mut next = enter_state(consent, ConsentState::Declined)?;
    next.responded_at = Some(at);
    Ok(next)
}

/// Move an `Acknowledged` consent to `Revoked`, stamping `revoked_at`.
/// Illegal pairs are reported before the revocable gate, so an already
/// terminal or still-requested consent yields `IllegalTransition`.
pub fn revoke(consent: &Consent, at: Timestamp) -> (r: Result<Consent, ConsentTransitionError>)
    ensures
        outcome_view(r) == spec_revoke(consent@, at),
{
    let mut next = enter_state(consent, ConsentState::Revoked)?;
    if !consent.revocable {
        return Err(ConsentTransitionError::NotRevocable { consent_id: consent.id });
    }
    next.revoked_at = Some(at);
    Ok(next)
}

/// Move a `Requested` consent to `TimedOut`. No timestamp is stamped: the
/// subordinate did not respond, and `revoked_at` is for revocation only.
pub fn mark_timed_out(consent: &Consent, _at: Timestamp) -> (r: Result<
    Consent,
    ConsentTransitionError,
>)
    ensures
        outcome_view(r) == spec_mark_timed_out(consent@),
{
    enter_state(consent, ConsentState::TimedOut)
}

/// Move a `Requested` or `Acknowledged` consent to `Expired` (its natural
/// scope ended). No timestamp is stamped.
pub fn mark_expired(consent: &Consent, _at: Timestamp) -> (r: Result<
    Consent,
    ConsentTransitionError,
>)
    ensures
        outcome_view(r) == spec_mark_expired(consent@),
{
    enter_state(consent, ConsentState::Expired)
}

/// Every transition function agrees with the table: on a revocable
/// consent, the function targeting `to` succeeds exactly when
/// `from → to` is a legal arrow, and its result is then in state `to`.
pub proof fn law_transitions_match_table(c: ConsentView, to: ConsentState, at: Timestamp)
    requires
        c.revocable,
    ensures
        match spec_transition_to(c, to, at) {
            Some(Ok(n)) => spec_legal_transition(c.state, to) && n.state == to,
            Some(Err(_)) => !spec_legal_transition(c.state, to),
            None => to == ConsentState::Requested,
        },
{
}

/// A refused transition names the consent's own state and the target,
/// except a legal revocation of a non-revocable consent.
pub proof fn law_refusals_name_the_pair(c: ConsentView, to: ConsentState, at: Timestamp)
    ensures
        match spec_transition_to(c, to, at) {
            Some(Err(e)) => if spec_legal_transition(c.state, to) {
                to == ConsentState::Revoked && !c.revocable
                    && e == ConsentTransitionError::NotRevocable { consent_id: c.id }
            } else {
                e == ConsentTransitionError::IllegalTransition { from: c.state, to }
            },
            _ => true,
        },
{
}

/// Terminal stickiness and forward-only revocation at the function level:
/// every transition of a consent in a terminal state is refused as
/// illegal, revocable or not.
pub proof fn law_terminal_consents_are_frozen(c: ConsentView, to: ConsentState, at: Timestamp)
    requires
        crate::consents::state::spec_is_terminal(c.state),
    ensures
        match spec_transition_to(c, to, at) {
            Some(r) => r == Err::<ConsentView, ConsentTransitionError>(
                ConsentTransitionError::IllegalTransition { from: c.state, to },
            ),
            None => true,
        },
{
}

/// A successful transition changes the state and at most the one
/// timestamp it stamps; identity, scope, provenance, deadline and the
/// revocable flag carry over unchanged.
pub proof fn law_transitions_touch_only_state_and_stamp(
    c: ConsentView,
    to: ConsentState,
    at: Timestamp,
)
    ensures
        match spec_transition_to(c, to, at) {
            Some(Ok(n)) => {
                &&& n.id == c.id
                &&& n.agent_id == c.agent_id
                &&& n.scope == c.scope
                &&& n.requested_at == c.requested_at
                &&& n.revocable == c.revocable
                &&& n.provenance == c.provenance
                &&& n.deadline_at == c.deadline_at
                &&& n.responded_at == (if to == ConsentState::Acknowledged || to
                    == ConsentState::Declined {
                    Some(at)
                } else {
                    c.responded_at
                })
                &&& n.revoked_at == (if to == ConsentState::Revoked {
                    Some(at)
                } else {
                    c.revoked_at
                })
            },
            _ => true,
        },
{
}

} // verus!
