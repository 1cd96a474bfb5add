//! Pure predicates of the Consent state machine: which states are terminal
//! and which direct transitions are legal.
//!
//! ```text
//!   Requested ──ack──▶ Acknowledged ──revoke──▶ Revoked
//!       │                   │
//!       ├─decline──▶ Declined└──expire──▶ Expired
//!       ├─timeout──▶ TimedOut
//!       └─expire───▶ Expired
//! ```

use vstd::prelude::*;

use crate::model::nodes::ConsentState;

verus! {

/// `Declined`, `Revoked`, `TimedOut` and `Expired` are terminal;
/// `Requested` and `Acknowledged` are not.
pub open spec fn spec_is_terminal(state: ConsentState) -> bool {
    match state {
        ConsentState::Declined | ConsentState::Revoked | ConsentState::TimedOut
        | ConsentState::Expired => true,
        ConsentState::Requested | ConsentState::Acknowledged => false,
    }
}

/// The legal-transition table:
///
/// ```text
///   Requested    → { Acknowledged, Declined, TimedOut, Expired }
///   Acknowledged → { Revoked, Expired }
///   every other  → {}
/// ```
pub open spec fn spec_legal_transition(from: ConsentState, to: ConsentState) -> bool {
    match (from, to) {
        (ConsentState::Requested, ConsentState::Acknowledged)
        | (ConsentState::Requested, ConsentState::Declined)
        | (ConsentState::Requested, ConsentState::TimedOut)
        | (ConsentState::Requested, ConsentState::Expired)
        | (ConsentState::Acknowledged, ConsentState::Revoked)
        | (ConsentState::Acknowledged, ConsentState::Expired) => true,
        _ => false,
    }
}

/// True for every terminal state.
pub fn is_terminal(state: ConsentState) -> (r: bool)
    ensures
        r == spec_is_terminal(state),
{
    match state {
        ConsentState::Declined | ConsentState::Revoked | ConsentState::TimedOut
        | ConsentState::Expired => true,
        ConsentState::Requested | ConsentState::Acknowledged => false,
    }
}

/// Is the direct transition `from → to` legal? Self-transitions are not.
pub fn legal_transition(from: ConsentState, to: ConsentState) -> (r: bool)
    ensures
        r == spec_legal_transition(from, to),
{
    match (from, to) {
        (ConsentState::Requested, ConsentState::Acknowledged)
        | (ConsentState::Requested, ConsentState::Declined)
        | (ConsentState::Requested, ConsentState::TimedOut)
        | (ConsentState::Requested, ConsentState::Expired)
        | (ConsentState::Acknowledged, ConsentState::Revoked)
        | (ConsentState::Acknowledged, ConsentState::Expired) => true,
        _ => false,
    }
}

/// Terminal stickiness: a state is terminal exactly when no transition
/// leaves it.
pub proof fn law_terminal_iff_no_outbound(s: ConsentState)
    ensures
        spec_is_terminal(s) <==> (forall|t: ConsentState| !spec_legal_transition(s, t)),
{
    if !spec_is_terminal(s) {
        assert(spec_legal_transition(s, ConsentState::Expired));
    }
}

/// Forward-only revocation: nothing leaves `Revoked`; in particular it
/// never returns to `Acknowledged`.
pub proof fn law_forward_only_revocation(t: ConsentState)
    ensures
        !spec_legal_transition(ConsentState::Revoked, t),
{
}

/// Re-entering the same state is never a legal transition.
pub proof fn law_self_transitions_illegal(s: ConsentState)
    ensures
        !spec_legal_transition(s, s),
{
}

/// `Revoked` is reachable only from `Acknowledged`, and nothing moves into
/// `Requested` (it is the entry state).
pub proof fn law_entry_and_revocation_sources(from: ConsentState)
    ensures
        spec_legal_transition(from, ConsentState::Revoked) ==> from == ConsentState::Acknowledged,
        !spec_legal_transition(from, ConsentState::Requested),
{
}

/// The whole table has exactly six arrows: four out of `Requested` and
/// two out of `Acknowledged`.
pub proof fn law_table_has_six_arrows()
    ensures
        Set::new(|p: (ConsentState, ConsentState)| spec_legal_transition(p.0, p.1)).len() == 6,
        Set::new(|p: (ConsentState, ConsentState)| spec_legal_transition(p.0, p.1)).finite(),
{
    let arrows = Set::new(|p: (ConsentState, ConsentState)| spec_legal_transition(p.0, p.1));
    let listed = set![
        (ConsentState::Requested, ConsentState::Acknowledged),
        (ConsentState::Requested, ConsentState::Declined),
        (ConsentState::Requested, ConsentState::TimedOut),
        (ConsentState::Requested, ConsentState::Expired),
        (ConsentState::Acknowledged, ConsentState::Revoked),
        (ConsentState::Acknowledged, ConsentState::Expired),
    ];
    assert(arrows =~= listed);
}

} // verus!
