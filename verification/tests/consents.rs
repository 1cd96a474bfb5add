use phi_domain::consents::minters::{request_one_time, request_per_session};
use phi_domain::consents::state::{is_terminal, legal_transition};
use phi_domain::consents::transitions::{
    acknowledge, decline, mark_expired, mark_timed_out, revoke, ConsentTransitionError,
};
use phi_domain::model::ids::{AgentId, ConsentId, OrgId, SessionId};
use phi_domain::model::nodes::{Consent, ConsentScope, ConsentState};
use phi_domain::time::Timestamp;

fn fresh_consent(state: ConsentState, revocable: bool) -> Consent {
    let now = Timestamp::now();
    Consent {
        id: ConsentId::new(),
        agent_id: AgentId::new(),
        scope: ConsentScope {
            org: OrgId::new(),
            templates: vec![],
            actions: vec![],
            session_id: None,
        },
        state,
        requested_at: now,
        responded_at: None,
        revoked_at: None,
        revocable,
        provenance: "agent:test@unit".into(),
        deadline_at: None,
    }
}

// ---- state table ----------------------------------------------------------

#[test]
fn terminal_set_matches_concept_doc() {
    assert!(!is_terminal(ConsentState::Requested));
    assert!(!is_terminal(ConsentState::Acknowledged));
    assert!(is_terminal(ConsentState::Declined));
    assert!(is_terminal(ConsentState::Revoked));
    assert!(is_terminal(ConsentState::TimedOut));
    assert!(is_terminal(ConsentState::Expired));
}

#[test]
fn legal_transitions_match_concept_doc_verbatim() {
    assert!(legal_transition(ConsentState::Requested, ConsentState::Acknowledged));
    assert!(legal_transition(ConsentState::Requested, ConsentState::Declined));
    assert!(legal_transition(ConsentState::Requested, ConsentState::TimedOut));
    assert!(legal_transition(ConsentState::Requested, ConsentState::Expired));
    assert!(legal_transition(ConsentState::Acknowledged, ConsentState::Revoked));
    assert!(legal_transition(ConsentState::Acknowledged, ConsentState::Expired));
}

#[test]
fn terminal_states_have_zero_outbound_arrows() {
    for from in [
        ConsentState::Declined,
        ConsentState::Revoked,
        ConsentState::TimedOut,
        ConsentState::Expired,
    ] {
        for to in ConsentState::ALL {
            assert!(
                !legal_transition(from, to),
                "{from:?} -> {to:?} must be illegal (terminal stickiness / forward-only)"
            );
        }
    }
}

#[test]
fn self_transitions_are_illegal() {
    for s in ConsentState::ALL {
        assert!(!legal_transition(s, s), "{s:?} -> {s:?} must be illegal (self-transition)");
    }
}

#[test]
fn requested_cannot_revoke_directly() {
    assert!(!legal_transition(ConsentState::Requested, ConsentState::Revoked));
}

#[test]
fn acknowledged_cannot_decline_or_time_out() {
    assert!(!legal_transition(ConsentState::Acknowledged, ConsentState::Declined));
    assert!(!legal_transition(ConsentState::Acknowledged, ConsentState::TimedOut));
    assert!(!legal_transition(ConsentState::Acknowledged, ConsentState::Requested));
}

#[test]
fn full_legal_table_has_exactly_six_arrows() {
    let mut count = 0;
    for from in ConsentState::ALL {
        for to in ConsentState::ALL {
            if legal_transition(from, to) {
                count += 1;
            }
        }
    }
    assert_eq!(count, 6, "legal transition count must be exactly 6");
}

// ---- transitions ----------------------------------------------------------

#[test]
fn acknowledge_from_requested_sets_state_and_responded_at() {
    let c = fresh_consent(ConsentState::Requested, true);
    let at = Timestamp::now();
    let next = acknowledge(&c, at).expect("legal transition");
    assert_eq!(next.state, ConsentState::Acknowledged);
    assert_eq!(next.responded_at, Some(at));
    assert_eq!(next.revoked_at, None);
    assert_eq!(c.state, ConsentState::Requested);
    assert_eq!(c.responded_at, None);
}

#[test]
fn acknowledge_from_non_requested_is_illegal() {
    for from in [
        ConsentState::Acknowledged,
        ConsentState::Declined,
        ConsentState::Revoked,
        ConsentState::TimedOut,
        ConsentState::Expired,
    ] {
        let c = fresh_consent(from, true);
        let err = acknowledge(&c, Timestamp::now()).expect_err("must reject");
        match err {
            ConsentTransitionError::IllegalTransition { from: f, to } => {
                assert_eq!(f, from);
                assert_eq!(to, ConsentState::Acknowledged);
            }
            other => panic!("expected IllegalTransition, got {other:?}"),
        }
    }
}

#[test]
fn decline_from_requested_sets_state_and_responded_at() {
    let c = fresh_consent(ConsentState::Requested, true);
    let at = Timestamp::now();
    let next = decline(&c, at).expect("legal transition");
    assert_eq!(next.state, ConsentState::Declined);
    assert_eq!(next.responded_at, Some(at));
}

#[test]
fn decline_from_acknowledged_is_illegal() {
    let c = fresh_consent(ConsentState::Acknowledged, true);
    let err = decline(&c, Timestamp::now()).expect_err("must reject");
    assert!(matches!(err, ConsentTransitionError::IllegalTransition { .. }));
}

#[test]
fn revoke_from_acknowledged_revocable_sets_state_and_revoked_at() {
    let c = fresh_consent(ConsentState::Acknowledged, true);
    let at = Timestamp::now();
    let next = revoke(&c, at).expect("legal transition");
    assert_eq!(next.state, ConsentState::Revoked);
    assert_eq!(next.revoked_at, Some(at));
}

#[test]
fn revoke_from_acknowledged_non_revocable_returns_not_revocable() {
    let c = fresh_consent(ConsentState::Acknowledged, false);
    let err = revoke(&c, Timestamp::now()).expect_err("must reject");
    match err {
        ConsentTransitionError::NotRevocable { consent_id } => {
            assert_eq!(consent_id, c.id);
        }
        other => panic!("expected NotRevocable, got {other:?}"),
    }
}

#[test]
fn revoke_from_requested_is_illegal_not_not_revocable() {
    let c = fresh_consent(ConsentState::Requested, false);
    let err = revoke(&c, Timestamp::now()).expect_err("must reject");
    assert!(matches!(err, ConsentTransitionError::IllegalTransition { .. }));
}

#[test]
fn revoke_from_revoked_is_illegal_forward_only() {
    let c = fresh_consent(ConsentState::Revoked, true);
    let err = revoke(&c, Timestamp::now()).expect_err("must reject");
    assert!(matches!(err, ConsentTransitionError::IllegalTransition { .. }));
}

#[test]
fn mark_timed_out_from_requested_succeeds() {
    let c = fresh_consent(ConsentState::Requested, true);
    let next = mark_timed_out(&c, Timestamp::now()).expect("legal transition");
    assert_eq!(next.state, ConsentState::TimedOut);
    assert_eq!(next.responded_at, None);
    assert_eq!(next.revoked_at, None);
}

#[test]
fn mark_timed_out_from_acknowledged_is_illegal() {
    let c = fresh_consent(ConsentState::Acknowledged, true);
    let err = mark_timed_out(&c, Timestamp::now()).expect_err("must reject");
    assert!(matches!(err, ConsentTransitionError::IllegalTransition { .. }));
}

#[test]
fn mark_expired_from_requested_succeeds() {
    let c = fresh_consent(ConsentState::Requested, true);
    let next = mark_expired(&c, Timestamp::now()).expect("legal transition");
    assert_eq!(next.state, ConsentState::Expired);
}

#[test]
fn mark_expired_from_acknowledged_succeeds() {
    let c = fresh_consent(ConsentState::Acknowledged, true);
    let next = mark_expired(&c, Timestamp::now()).expect("legal transition");
    assert_eq!(next.state, ConsentState::Expired);
}

#[test]
fn mark_expired_from_terminal_is_illegal() {
    for from in [
        ConsentState::Declined,
        ConsentState::Revoked,
        ConsentState::TimedOut,
        ConsentState::Expired,
    ] {
        let c = fresh_consent(from, true);
        let err = mark_expired(&c, Timestamp::now()).expect_err("must reject");
        assert!(matches!(err, ConsentTransitionError::IllegalTransition { .. }));
    }
}

#[test]
fn exhaustive_36_cell_matrix_matches_legal_transition_table() {
    for from in ConsentState::ALL {
        for to in ConsentState::ALL {
            let c = fresh_consent(from, true);
            let pure_fn_result = match to {
                ConsentState::Acknowledged => acknowledge(&c, Timestamp::now()).is_ok(),
                ConsentState::Declined => decline(&c, Timestamp::now()).is_ok(),
                ConsentState::Revoked => revoke(&c, Timestamp::now()).is_ok(),
                ConsentState::TimedOut => mark_timed_out(&c, Timestamp::now()).is_ok(),
                ConsentState::Expired => mark_expired(&c, Timestamp::now()).is_ok(),
                ConsentState::Requested => false,
            };
            let table_says = legal_transition(from, to) && to != ConsentState::Requested;
            assert_eq!(
                pure_fn_result, table_says,
                "{from:?} -> {to:?}: pure_fn={pure_fn_result}, table={table_says}"
            );
        }
    }
}

#[test]
fn transitions_keep_every_other_field() {
    let c = fresh_consent(ConsentState::Requested, true);
    let at = Timestamp { secs: 1_700_000_000, nanos: 5 };
    let next = acknowledge(&c, at).expect("legal transition");
    assert_eq!(next.id, c.id);
    assert_eq!(next.agent_id, c.agent_id);
    assert_eq!(next.scope.org, c.scope.org);
    assert_eq!(next.requested_at, c.requested_at);
    assert_eq!(next.provenance, c.provenance);
    assert_eq!(next.revocable, c.revocable);
    assert_eq!(next.deadline_at, c.deadline_at);
}

#[test]
fn illegal_transition_names_the_refused_pair() {
    let c = fresh_consent(ConsentState::TimedOut, true);
    assert_eq!(
        mark_timed_out(&c, Timestamp::now()).expect_err("must reject"),
        ConsentTransitionError::IllegalTransition {
            from: ConsentState::TimedOut,
            to: ConsentState::TimedOut
        }
    );
    let c = fresh_consent(ConsentState::Acknowledged, true);
    assert_eq!(
        decline(&c, Timestamp::now()).expect_err("must reject"),
        ConsentTransitionError::IllegalTransition {
            from: ConsentState::Acknowledged,
            to: ConsentState::Declined
        }
    );
}

// ---- minters ----------------------------------------------------------------

#[test]
fn request_one_time_carries_requested_state_and_no_session_axis() {
    let sub = AgentId::new();
    let org = OrgId::new();
    let consent = request_one_time(sub, org, None);
    assert_eq!(consent.state, ConsentState::Requested);
    assert_eq!(consent.agent_id, sub);
    assert_eq!(consent.scope.org, org);
    assert_eq!(consent.scope.session_id, None);
    assert!(consent.revocable);
    assert!(consent.responded_at.is_none());
    assert!(consent.revoked_at.is_none());
    assert!(consent.deadline_at.is_none());
    assert!(consent.provenance.starts_with("engine:step_6@"));
}

#[test]
fn request_per_session_carries_session_axis_in_scope() {
    let sub = AgentId::new();
    let org = OrgId::new();
    let session = SessionId::new();
    let consent = request_per_session(sub, org, session, None);
    assert_eq!(consent.state, ConsentState::Requested);
    assert_eq!(consent.scope.org, org);
    assert_eq!(consent.scope.session_id, Some(session));
    assert_eq!(consent.agent_id, sub);
    assert!(consent.provenance.starts_with("engine:step_6@"));
}

#[test]
fn minters_propagate_caller_supplied_deadline_at() {
    let sub = AgentId::new();
    let org = OrgId::new();
    let session = SessionId::new();
    let deadline = Timestamp::now().plus_seconds(24 * 3600).expect("in range");
    let one_time = request_one_time(sub, org, Some(deadline));
    let per_session = request_per_session(sub, org, session, Some(deadline));
    assert_eq!(one_time.deadline_at, Some(deadline));
    assert_eq!(per_session.deadline_at, Some(deadline));
}

#[test]
fn minters_emit_unique_consent_ids_per_call() {
    let sub = AgentId::new();
    let org = OrgId::new();
    let a = request_one_time(sub, org, None);
    let b = request_one_time(sub, org, None);
    assert_ne!(a.id, b.id, "consent ids must be unique per mint");
}

#[test]
fn minted_provenance_stamps_the_request_instant() {
    let consent = request_one_time(AgentId::new(), OrgId::new(), None);
    let expected = format!("engine:step_6@{}", consent.requested_at.to_rfc3339());
    assert_eq!(consent.provenance, expected);
    assert!(consent.scope.templates.is_empty());
    assert!(consent.scope.actions.is_empty());
}

#[test]
fn rfc3339_renders_the_epoch_and_a_fractional_instant() {
    assert_eq!(Timestamp { secs: 0, nanos: 0 }.to_rfc3339(), "1970-01-01T00:00:00+00:00");
    assert_eq!(
        Timestamp { secs: 1_776_902_400, nanos: 500_000_000 }.to_rfc3339(),
        "2026-04-23T00:00:00.500+00:00"
    );
}

#[test]
fn plus_seconds_moves_forward_and_refuses_overflow() {
    let t = Timestamp { secs: 100, nanos: 7 };
    assert_eq!(t.plus_seconds(86_400), Some(Timestamp { secs: 86_500, nanos: 7 }));
    assert_eq!(Timestamp { secs: i64::MAX, nanos: 0 }.plus_seconds(1), None);
}
