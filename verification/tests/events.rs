use phi_domain::audit::ExtractionScope;
use phi_domain::events::bus::{drain_step, DrainError, DrainStep};
use phi_domain::audit::AuditClass;
use phi_domain::events::listeners::{
    agent_id_and_timestamp_for, build_memory_tags, decide_scope, effective_parallelize, fire_class, fire_step,
    record_extraction, resolve_composed_audit_class, runtime_status_for_fire, start_fire,
    AgentCatalogListener, CatalogAction, CatalogAuditMode, ExtractionAction, FireAction,
    MemoryExtractionListener, TemplateAFireListener, TemplateCFireListener, TemplateDFireListener,
    AGENT_CATALOG_SYSTEM_AGENT_DISPLAY_NAME, MEMORY_EXTRACTION_SYSTEM_AGENT_DISPLAY_NAME,
};
use phi_domain::permissions::{compose_audit_class_with_source, AuditClassSource};
use phi_domain::events::{DomainEvent, IdentityUpdateTrigger};
use phi_domain::model::composites_m5::{AgentCatalogEntry, RecentSessionEntry};
use phi_domain::model::ids::{
    AgentCatalogEntryId, AgentId, AuditEventId, AuthRequestId, BlueprintId, MemoryId, NodeId,
    OrgId, ProjectId, SessionId,
};
use phi_domain::model::nodes::{
    Agent, AgentKind, AgentRole, Session, SessionGovernanceState, WitnessedExperience,
};
use phi_domain::time::Timestamp;

fn at(secs: i64) -> Timestamp {
    Timestamp { secs, nanos: 0 }
}

fn phi_session() -> phi_core::session::model::Session {
    let now = chrono::Utc::now();
    phi_core::session::model::Session {
        session_id: "s-1".to_string(),
        agent_id: "a-1".to_string(),
        created_at: now,
        last_active_at: now,
        formation: phi_core::session::model::SessionFormation::Explicit { timestamp: now },
        parent_spawn_ref: None,
        scope: phi_core::session::model::SessionScope::Ephemeral,
        loops: vec![],
    }
}

fn session(tags: Vec<String>) -> Session {
    Session {
        id: SessionId::from_u128(0x1111_1111_1111_4111_8111_1111_1111_1111),
        inner: phi_session(),
        owning_org: OrgId::from_u128(0x4444_4444_4444_4444_8444_4444_4444_4444),
        owning_project: ProjectId::from_u128(0x3333_3333_3333_4333_8333_3333_3333_3333),
        started_by: AgentId::from_u128(0x2222_2222_2222_4222_8222_2222_2222_2222),
        governance_state: SessionGovernanceState::Completed,
        started_at: at(1_000),
        ended_at: Some(at(2_000)),
        tokens_spent: 4_096,
        tags,
    }
}

fn agent(kind: AgentKind, name: &str, active: bool, archived: bool) -> Agent {
    Agent {
        id: AgentId::new(),
        kind,
        display_name: name.to_string(),
        owning_org: Some(OrgId::new()),
        role: None,
        created_at: at(10),
        active,
        archived_at: if archived { Some(at(20)) } else { None },
    }
}

fn every_variant(event_id: AuditEventId) -> Vec<DomainEvent> {
    vec![
        DomainEvent::HasLeadEdgeCreated {
            project: ProjectId::new(),
            lead: AgentId::new(),
            at: Timestamp::now(),
            event_id,
        },
        DomainEvent::SessionStarted {
            session_id: SessionId::new(),
            agent_id: AgentId::new(),
            project_id: ProjectId::new(),
            started_at: Timestamp::now(),
            event_id,
        },
        DomainEvent::SessionEnded {
            session_id: SessionId::new(),
            agent_id: AgentId::new(),
            project_id: ProjectId::new(),
            ended_at: Timestamp::now(),
            duration_ms: 0,
            turn_count: 0,
            tokens_spent: 0,
            event_id,
        },
        DomainEvent::SessionAborted {
            session_id: SessionId::new(),
            reason: String::new(),
            terminated_by: AgentId::new(),
            at: Timestamp::now(),
            event_id,
        },
        DomainEvent::ManagesEdgeCreated {
            org_id: OrgId::new(),
            manager: AgentId::new(),
            subordinate: AgentId::new(),
            at: Timestamp::now(),
            event_id,
        },
        DomainEvent::HasAgentSupervisorEdgeCreated {
            project_id: ProjectId::new(),
            supervisor: AgentId::new(),
            supervisee: AgentId::new(),
            at: Timestamp::now(),
            event_id,
        },
        DomainEvent::AgentCreated {
            agent_id: AgentId::new(),
            owning_org: OrgId::new(),
            agent_kind: AgentKind::Human,
            role: None,
            at: Timestamp::now(),
            event_id,
        },
        DomainEvent::AgentArchived { agent_id: AgentId::new(), at: Timestamp::now(), event_id },
        DomainEvent::UsesProfileEdgeChanged {
            agent_id: AgentId::new(),
            old_profile_id: None,
            new_profile_id: NodeId::new(),
            at: Timestamp::now(),
            event_id,
        },
        DomainEvent::IdentityUpdated {
            agent_id: AgentId::new(),
            trigger: IdentityUpdateTrigger::SessionEnded,
            at: Timestamp::now(),
            event_id,
        },
        DomainEvent::MemoryExtracted {
            memory_id: MemoryId::new(),
            session_id: SessionId::new(),
            owning_agent: AgentId::new(),
            org_scope: Some(OrgId::new()),
            tags: vec![],
            extracted_at: Timestamp::now(),
            event_id,
        },
        DomainEvent::BlueprintUpserted {
            blueprint_id: BlueprintId::new(),
            agent_id: None,
            at: Timestamp::now(),
            event_id,
        },
    ]
}

// ---- domain events ----------------------------------------------------------

#[test]
fn domain_event_kind_is_stable() {
    let evt = DomainEvent::HasLeadEdgeCreated {
        project: ProjectId::new(),
        lead: AgentId::new(),
        at: Timestamp::now(),
        event_id: AuditEventId::new(),
    };
    assert_eq!(evt.kind(), "has_lead_edge_created");
}

#[test]
fn every_variant_kind_is_stable() {
    let kinds: Vec<&str> = every_variant(AuditEventId::new()).iter().map(|e| e.kind()).collect();
    assert_eq!(
        kinds,
        vec![
            "has_lead_edge_created",
            "session_started",
            "session_ended",
            "session_aborted",
            "manages_edge_created",
            "has_agent_supervisor_edge_created",
            "agent_created",
            "agent_archived",
            "uses_profile_edge_changed",
            "identity_updated",
            "memory_extracted",
            "blueprint_upserted",
        ]
    );
}

#[test]
fn event_id_accessor_matches_emitted_value_for_every_variant() {
    let fresh = AuditEventId::new();
    for evt in &every_variant(fresh) {
        assert_eq!(evt.event_id(), fresh, "event_id accessor mismatch for variant {}", evt.kind());
    }
}

#[test]
fn identity_updated_kind_is_stable() {
    let evt = DomainEvent::IdentityUpdated {
        agent_id: AgentId::new(),
        trigger: IdentityUpdateTrigger::MemoryExtracted,
        at: Timestamp::now(),
        event_id: AuditEventId::new(),
    };
    assert_eq!(evt.kind(), "identity_updated");
}

#[test]
fn blueprint_upserted_event_kind_is_stable() {
    let evt = DomainEvent::BlueprintUpserted {
        blueprint_id: BlueprintId::new(),
        agent_id: None,
        at: Timestamp::now(),
        event_id: AuditEventId::new(),
    };
    assert_eq!(evt.kind(), "blueprint_upserted");
}

// ---- bus draining -------------------------------------------------------------

#[test]
fn drain_returns_immediately_when_nothing_is_in_flight() {
    assert_eq!(drain_step(0, false), DrainStep::Drained);
    assert_eq!(drain_step(0, true), DrainStep::Drained);
}

#[test]
fn drain_waits_then_times_out_with_the_remaining_count() {
    assert_eq!(drain_step(2, false), DrainStep::Wait);
    assert_eq!(drain_step(2, true), DrainStep::TimedOut(DrainError { remaining: 2 }));
}

// ---- template listeners -------------------------------------------------------

#[test]
fn template_listeners_react_to_their_edge_only() {
    let a = TemplateAFireListener::new((), (), (), ());
    let c = TemplateCFireListener::new((), (), (), ());
    let d = TemplateDFireListener::new((), (), (), ());
    let id = AuditEventId::new();
    let events = every_variant(id);
    let a_hits: Vec<usize> = (0..events.len()).filter(|&i| a.trigger(&events[i]).is_some()).collect();
    let c_hits: Vec<usize> = (0..events.len()).filter(|&i| c.trigger(&events[i]).is_some()).collect();
    let d_hits: Vec<usize> = (0..events.len()).filter(|&i| d.trigger(&events[i]).is_some()).collect();
    assert_eq!(a_hits, vec![0]);
    assert_eq!(c_hits, vec![4]);
    assert_eq!(d_hits, vec![5]);

    let project = ProjectId::new();
    let lead = AgentId::new();
    let lead_event = DomainEvent::HasLeadEdgeCreated { project, lead, at: at(5), event_id: id };
    assert_eq!(a.trigger(&lead_event), Some((project, lead, id)));
}

// ---- memory extraction ----------------------------------------------------------

#[test]
fn memory_tags_append_scope_tags_after_session_tags() {
    let s = session(vec!["#kind:session".to_string(), "topic:billing".to_string()]);
    let tags = build_memory_tags(&s);
    assert_eq!(
        tags,
        vec![
            "#kind:session".to_string(),
            "topic:billing".to_string(),
            "agent:22222222-2222-4222-8222-222222222222".to_string(),
            "session:11111111-1111-4111-8111-111111111111".to_string(),
            "project:33333333-3333-4333-8333-333333333333".to_string(),
            "org:44444444-4444-4444-8444-444444444444".to_string(),
        ]
    );
}

#[test]
fn memory_tags_do_not_repeat_a_scope_tag_the_session_carries() {
    let s = session(vec!["session:11111111-1111-4111-8111-111111111111".to_string()]);
    let tags = build_memory_tags(&s);
    assert_eq!(tags.len(), 4);
    assert_eq!(tags[0], "session:11111111-1111-4111-8111-111111111111");
    assert_eq!(tags.iter().filter(|t| t.starts_with("session:")).count(), 1);
}

#[test]
fn memory_tags_collapse_a_tag_the_session_repeats() {
    let s = session(vec!["x".to_string(), "y".to_string(), "x".to_string()]);
    let tags = build_memory_tags(&s);
    assert_eq!(tags.len(), 6);
    assert_eq!(tags[0], "x");
    assert_eq!(tags[1], "y");
    assert_eq!(tags.iter().filter(|t| t.as_str() == "x").count(), 1);
    assert_eq!(tags[2], "agent:22222222-2222-4222-8222-222222222222");
}

#[test]
fn public_tag_routes_to_the_public_bucket() {
    let mut tags = build_memory_tags(&session(vec!["#public".to_string()]));
    assert_eq!(decide_scope(&tags), ExtractionScope::Public);
    tags.remove(0);
    assert_eq!(decide_scope(&tags), ExtractionScope::Private);
    assert_eq!(decide_scope(&["#publicity".to_string()]), ExtractionScope::Private);
    assert_eq!(decide_scope(&[]), ExtractionScope::Private);
}

#[test]
fn extraction_bumps_total_and_matching_bucket() {
    let mut w = WitnessedExperience::default();
    record_extraction(&mut w, ExtractionScope::Public);
    record_extraction(&mut w, ExtractionScope::Private);
    record_extraction(&mut w, ExtractionScope::Private);
    assert_eq!(w.memories_extracted, 3);
    assert_eq!(w.extraction_scope_distribution.private, 2);
    assert_eq!(w.extraction_scope_distribution.public, 1);

    w.memories_extracted = u64::MAX;
    record_extraction(&mut w, ExtractionScope::Public);
    assert_eq!(w.memories_extracted, u64::MAX);
    assert_eq!(w.extraction_scope_distribution.public, 2);
}

#[test]
fn memory_extraction_reacts_to_natural_session_end_only() {
    let l = MemoryExtractionListener::new((), ());
    let id = AuditEventId::new();
    let events = every_variant(id);
    let hits: Vec<usize> = (0..events.len()).filter(|&i| l.trigger(&events[i]).is_some()).collect();
    assert_eq!(hits, vec![2]);
}

#[test]
fn memory_extraction_skips_human_aborted_and_disabled_cases() {
    let l = MemoryExtractionListener::new((), ());
    let human = agent(AgentKind::Human, "alex", true, false);
    assert_eq!(l.extraction_org(&human), None);
    let llm = agent(AgentKind::Llm, "worker", true, false);
    assert_eq!(l.extraction_org(&llm), llm.owning_org);
    let mut orphan = llm.clone();
    orphan.owning_org = None;
    assert_eq!(l.extraction_org(&orphan), None);

    assert!(!l.extracts_from(SessionGovernanceState::Aborted));
    assert!(l.extracts_from(SessionGovernanceState::Completed));

    let extractor = agent(AgentKind::Llm, MEMORY_EXTRACTION_SYSTEM_AGENT_DISPLAY_NAME, true, false);
    assert!(l.is_extractor(&extractor));
    assert!(!l.is_extractor(&llm));
    assert!(l.extractor_enabled(&extractor));
    assert!(!l.extractor_enabled(&agent(AgentKind::Llm, "x", false, false)));
    assert!(!l.extractor_enabled(&agent(AgentKind::Llm, "x", true, true)));
}

#[test]
fn minted_memory_carries_session_tags_and_end_instant() {
    let l = MemoryExtractionListener::new((), ());
    let s = session(vec![]);
    let worker = AgentId::new();
    let m = l.mint_memory(worker, &s, at(2_000));
    assert_eq!(m.owning_agent, worker);
    assert_eq!(m.created_at, at(2_000));
    assert_eq!(m.tags, build_memory_tags(&s));
    assert_eq!(m.tags.len(), 4);
}

#[test]
fn recent_session_entry_copies_ids_and_state_name() {
    let s = session(vec![]);
    let e = RecentSessionEntry::from_session(&s);
    assert_eq!(e.id, s.id);
    assert_eq!(e.project_id, s.owning_project);
    assert_eq!(e.agent_id, s.started_by);
    assert_eq!(e.started_at, at(1_000));
    assert_eq!(e.ended_at, Some(at(2_000)));
    assert_eq!(e.status, "completed");
}

// ---- runtime tiles ----------------------------------------------------------------

#[test]
fn runtime_tile_is_idle_fired_now_and_tagged() {
    let org = OrgId::new();
    let sys = AgentId::new();
    let t = runtime_status_for_fire(org, sys, 3, None, at(77));
    assert_eq!(t.agent_id, sys);
    assert_eq!(t.owning_org, org);
    assert_eq!(t.queue_depth, 0);
    assert_eq!(t.last_fired_at, Some(at(77)));
    assert_eq!(t.updated_at, at(77));
    assert_eq!(t.effective_parallelize, 3);
    assert_eq!(t.last_error, None);
    assert_eq!(
        t.tags,
        vec![
            "#kind:system_agent_runtime_status".to_string(),
            format!("system_agent_runtime_status:{}", t.id.to_string()),
        ]
    );
    assert_eq!(effective_parallelize(None), 1);
}

// ---- agent catalog ----------------------------------------------------------------

#[test]
fn catalog_subject_covers_the_eight_subscribed_variants() {
    let events = every_variant(AuditEventId::new());
    let hits: Vec<usize> =
        (0..events.len()).filter(|&i| agent_id_and_timestamp_for(&events[i]).is_some()).collect();
    assert_eq!(hits, vec![0, 1, 2, 4, 5, 6, 7, 8]);
    let manager = AgentId::new();
    let e = DomainEvent::ManagesEdgeCreated {
        org_id: OrgId::new(),
        manager,
        subordinate: AgentId::new(),
        at: at(9),
        event_id: AuditEventId::new(),
    };
    assert_eq!(agent_id_and_timestamp_for(&e), Some((manager, at(9))));
}

#[test]
fn catalog_audit_mode_defaults_to_silent() {
    assert_eq!(CatalogAuditMode::default(), CatalogAuditMode::Silent);
    assert!(!AgentCatalogListener::new((), (), CatalogAuditMode::Silent).emits_audit());
    assert!(AgentCatalogListener::new((), (), CatalogAuditMode::Debug).emits_audit());
}

#[test]
fn catalog_new_row_gets_fresh_id_tags_and_event_instant() {
    let l = AgentCatalogListener::new((), (), CatalogAuditMode::Silent);
    let mut a = agent(AgentKind::Llm, "scribe", true, false);
    a.role = Some(AgentRole::Intern);
    let org = a.owning_org.unwrap();
    let ev = DomainEvent::AgentCreated {
        agent_id: a.id,
        owning_org: org,
        agent_kind: AgentKind::Llm,
        role: Some(AgentRole::Intern),
        at: at(100),
        event_id: AuditEventId::new(),
    };
    let e = l.plan_entry(&ev, &a, org, None, None, at(100));
    assert_eq!(e.agent_id, a.id);
    assert_eq!(e.owning_org, org);
    assert_eq!(e.display_name, "scribe");
    assert_eq!(e.kind, AgentKind::Llm);
    assert_eq!(e.role.as_deref(), Some("intern"));
    assert!(e.active);
    assert!(e.profile_snapshot.is_none());
    assert_eq!(e.last_seen_at, at(100));
    assert_eq!(e.updated_at, at(100));
    assert_eq!(
        e.tags,
        vec![
            "#kind:agent_catalog_entry".to_string(),
            format!("agent_catalog_entry:{}", e.id.to_string()),
        ]
    );
}

#[test]
fn catalog_archive_wins_when_active_true_but_archived_at_some() {
    let l = AgentCatalogListener::new((), (), CatalogAuditMode::Silent);
    let a = agent(AgentKind::Llm, "scribe", true, true);
    let org = a.owning_org.unwrap();
    let ev = DomainEvent::AgentArchived { agent_id: a.id, at: at(50), event_id: AuditEventId::new() };
    assert!(!l.plan_entry(&ev, &a, org, None, None, at(50)).active);
    let disabled = agent(AgentKind::Llm, "scribe", false, false);
    assert!(!l.plan_entry(&ev, &disabled, org, None, None, at(50)).active);
}

fn existing_row(agent_id: AgentId, org: OrgId) -> AgentCatalogEntry {
    AgentCatalogEntry {
        id: AgentCatalogEntryId::new(),
        agent_id,
        owning_org: org,
        display_name: "old".to_string(),
        kind: AgentKind::Llm,
        role: None,
        active: true,
        profile_snapshot: Some(serde_json::Value::Bool(true)),
        last_seen_at: at(10),
        updated_at: at(10),
        tags: vec!["custom".to_string()],
    }
}

#[test]
fn catalog_refresh_keeps_id_tags_snapshot_and_last_seen_outside_sessions() {
    let l = AgentCatalogListener::new((), (), CatalogAuditMode::Silent);
    let a = agent(AgentKind::Llm, "renamed", true, false);
    let org = a.owning_org.unwrap();
    let old = existing_row(a.id, org);
    let ev = DomainEvent::HasLeadEdgeCreated {
        project: ProjectId::new(),
        lead: a.id,
        at: at(300),
        event_id: AuditEventId::new(),
    };
    let e = l.plan_entry(&ev, &a, org, Some(&old), Some(None), at(300));
    assert_eq!(e.id, old.id);
    assert_eq!(e.tags, vec!["custom".to_string()]);
    assert_eq!(e.profile_snapshot, Some(serde_json::Value::Bool(true)));
    assert_eq!(e.last_seen_at, at(10));
    assert_eq!(e.updated_at, at(300));
    assert_eq!(e.display_name, "renamed");
}

#[test]
fn catalog_touches_last_seen_at_on_session_started() {
    let l = AgentCatalogListener::new((), (), CatalogAuditMode::Silent);
    let a = agent(AgentKind::Llm, "w", true, false);
    let org = a.owning_org.unwrap();
    let old = existing_row(a.id, org);
    let ev = DomainEvent::SessionStarted {
        session_id: SessionId::new(),
        agent_id: a.id,
        project_id: ProjectId::new(),
        started_at: at(400),
        event_id: AuditEventId::new(),
    };
    assert_eq!(l.plan_entry(&ev, &a, org, Some(&old), None, at(400)).last_seen_at, at(400));
}

#[test]
fn catalog_refreshes_profile_snapshot_on_profile_edge_change() {
    let l = AgentCatalogListener::new((), (), CatalogAuditMode::Silent);
    let a = agent(AgentKind::Llm, "w", true, false);
    let org = a.owning_org.unwrap();
    let mut old = existing_row(a.id, org);
    old.tags = vec![];
    let ev = DomainEvent::UsesProfileEdgeChanged {
        agent_id: a.id,
        old_profile_id: None,
        new_profile_id: NodeId::new(),
        at: at(500),
        event_id: AuditEventId::new(),
    };
    let fresh = serde_json::Value::String("blueprint".to_string());
    let e = l.plan_entry(&ev, &a, org, Some(&old), Some(Some(fresh.clone())), at(500));
    assert_eq!(e.profile_snapshot, Some(fresh));
    assert_eq!(e.id, old.id);
    assert_eq!(e.tags.len(), 2);
    let kept = l.plan_entry(&ev, &a, org, Some(&old), None, at(500));
    assert_eq!(kept.profile_snapshot, Some(serde_json::Value::Bool(true)));
}

#[test]
fn catalog_system_agent_is_found_by_display_name() {
    let l = AgentCatalogListener::new((), (), CatalogAuditMode::Silent);
    assert!(l.is_catalog_agent(&agent(AgentKind::Llm, AGENT_CATALOG_SYSTEM_AGENT_DISPLAY_NAME, true, false)));
    assert!(!l.is_catalog_agent(&agent(AgentKind::Llm, "agent-catalog-2", true, false)));
}

#[test]
fn override_tier_blueprint_upsert_refreshes_its_agent() {
    let l = AgentCatalogListener::new((), (), CatalogAuditMode::Silent);
    let owner = AgentId::new();
    let ev = DomainEvent::BlueprintUpserted {
        blueprint_id: BlueprintId::new(),
        agent_id: Some(owner),
        at: at(600),
        event_id: AuditEventId::new(),
    };
    assert_eq!(agent_id_and_timestamp_for(&ev), Some((owner, at(600))));
    assert_eq!(l.refresh_targets(&ev, &[AgentId::new()]), vec![(owner, at(600))]);
    let mut a = agent(AgentKind::Llm, "w", true, false);
    a.id = owner;
    let org = a.owning_org.unwrap();
    let old = existing_row(owner, org);
    let fresh = serde_json::Value::String("new blueprint".to_string());
    let e = l.plan_entry(&ev, &a, org, Some(&old), Some(Some(fresh.clone())), at(600));
    assert_eq!(e.profile_snapshot, Some(fresh));
    assert_eq!(e.agent_id, owner);
}

#[test]
fn template_tier_blueprint_upsert_refreshes_every_user() {
    let l = AgentCatalogListener::new((), (), CatalogAuditMode::Silent);
    let users = [AgentId::new(), AgentId::new()];
    let ev = DomainEvent::BlueprintUpserted {
        blueprint_id: BlueprintId::new(),
        agent_id: None,
        at: at(700),
        event_id: AuditEventId::new(),
    };
    assert_eq!(agent_id_and_timestamp_for(&ev), None);
    assert_eq!(l.refresh_targets(&ev, &users), vec![(users[0], at(700)), (users[1], at(700))]);
    let aborted = DomainEvent::SessionAborted {
        session_id: SessionId::new(),
        reason: String::new(),
        terminated_by: AgentId::new(),
        at: at(1),
        event_id: AuditEventId::new(),
    };
    assert!(l.refresh_targets(&aborted, &users).is_empty());
}

#[test]
fn catalog_row_belongs_to_the_event_subject() {
    let l = AgentCatalogListener::new((), (), CatalogAuditMode::Silent);
    let a = agent(AgentKind::Llm, "w", true, false);
    let org = a.owning_org.unwrap();
    let subject = AgentId::new();
    let ev = DomainEvent::AgentArchived { agent_id: subject, at: at(5), event_id: AuditEventId::new() };
    assert_eq!(l.plan_entry(&ev, &a, org, None, None, at(5)).agent_id, subject);
}

#[test]
fn audit_class_strictest_wins_and_ties_go_to_the_adoption_request() {
    assert_eq!(
        compose_audit_class_with_source(AuditClass::Alerted, AuditClass::Logged),
        (AuditClass::Alerted, AuditClassSource::OrgDefault)
    );
    assert_eq!(
        compose_audit_class_with_source(AuditClass::Logged, AuditClass::Alerted),
        (AuditClass::Alerted, AuditClassSource::TemplateAr)
    );
    assert_eq!(
        compose_audit_class_with_source(AuditClass::Alerted, AuditClass::Alerted),
        (AuditClass::Alerted, AuditClassSource::TemplateAr)
    );
    assert_eq!(AuditClassSource::OrgDefault.as_str(), "org_default");
    assert_eq!(AuditClassSource::TemplateAr.as_str(), "template_ar");
}

#[test]
fn audit_class_falls_back_on_missing_rows() {
    assert_eq!(
        resolve_composed_audit_class(None, Some(AuditClass::Alerted)),
        (AuditClass::Silent, AuditClassSource::OrgDefault)
    );
    assert_eq!(
        resolve_composed_audit_class(Some(AuditClass::Logged), None),
        (AuditClass::Logged, AuditClassSource::OrgDefault)
    );
}

#[test]
fn template_a_fire_writes_and_audits_both_grants_then_stops_on_failure() {
    let org = OrgId::new();
    let ar = AuthRequestId::new();
    let mut p = start_fire();
    assert_eq!(fire_step(&p, 2), FireAction::ResolveAdoption);
    p.adoption = Some(Some((org, ar)));
    assert_eq!(fire_step(&p, 2), FireAction::ResolveActor(org));
    p.actor = Some(Some(AgentId::new()));
    assert_eq!(fire_step(&p, 2), FireAction::ReadOrgClass(org));
    p.org_class = Some(Some(AuditClass::Logged));
    assert_eq!(fire_step(&p, 2), FireAction::ReadRequestClass(ar));
    assert_eq!(fire_class(&p), None);
    p.request_class = Some(Some(AuditClass::Alerted));
    assert_eq!(fire_class(&p), Some((AuditClass::Alerted, AuditClassSource::TemplateAr)));
    assert_eq!(fire_step(&p, 2), FireAction::WriteGrant(0));
    p.written = 1;
    assert_eq!(fire_step(&p, 2), FireAction::EmitGrantAudit(0));
    p.audited = 1;
    assert_eq!(fire_step(&p, 2), FireAction::WriteGrant(1));
    let mut failed = p;
    failed.failed = true;
    assert_eq!(fire_step(&failed, 2), FireAction::Finish);
    p.written = 2;
    assert_eq!(fire_step(&p, 2), FireAction::EmitGrantAudit(1));
    p.audited = 2;
    assert_eq!(fire_step(&p, 2), FireAction::Finish);
    let mut none = start_fire();
    none.adoption = Some(None);
    assert_eq!(fire_step(&none, 2), FireAction::Finish);
}

#[test]
fn memory_extraction_steps_follow_the_fail_safe_order() {
    let l = MemoryExtractionListener::new((), ());
    let org = OrgId::new();
    let sys = AgentId::new();
    let mut p = l.start_extraction();
    assert_eq!(l.next_step(&p), ExtractionAction::ReadWorkingAgent);
    p.org = Some(Some(org));
    assert_eq!(l.next_step(&p), ExtractionAction::ReadSession);
    p.session_extractable = Some(true);
    assert_eq!(l.next_step(&p), ExtractionAction::ResolveExtractor(org));
    p.extractor = Some(Some((sys, true)));
    assert_eq!(l.next_step(&p), ExtractionAction::WriteMemory);
    let mut failed = p;
    failed.memory_written = Some(false);
    assert_eq!(l.next_step(&failed), ExtractionAction::Finish);
    p.memory_written = Some(true);
    assert_eq!(l.next_step(&p), ExtractionAction::UpdateIdentity);
    p.identity_updated = Some(false);
    assert_eq!(l.next_step(&p), ExtractionAction::EmitMemoryAudit);
    p.memory_audited = true;
    assert_eq!(l.next_step(&p), ExtractionAction::WriteTile(org, sys));
    p.tile_written = true;
    assert_eq!(l.next_step(&p), ExtractionAction::Finish);
    let mut disabled = l.start_extraction();
    disabled.org = Some(Some(org));
    disabled.session_extractable = Some(true);
    disabled.extractor = Some(Some((sys, false)));
    assert_eq!(l.next_step(&disabled), ExtractionAction::Finish);
}

#[test]
fn catalog_steps_skip_tile_after_a_failed_write_and_audit_only_in_debug() {
    let silent = AgentCatalogListener::new((), (), CatalogAuditMode::Silent);
    let debug = AgentCatalogListener::new((), (), CatalogAuditMode::Debug);
    let org = OrgId::new();
    let sys = AgentId::new();
    let ev = DomainEvent::UsesProfileEdgeChanged {
        agent_id: AgentId::new(),
        old_profile_id: None,
        new_profile_id: NodeId::new(),
        at: at(1),
        event_id: AuditEventId::new(),
    };
    let mut p = silent.start_refresh();
    assert_eq!(silent.next_step(&ev, &p), CatalogAction::ReadAgent);
    p.org = Some(Some(org));
    assert_eq!(silent.next_step(&ev, &p), CatalogAction::ReadExistingEntry);
    p.existing_read = true;
    assert_eq!(silent.next_step(&ev, &p), CatalogAction::ReadProfile);
    p.profile_read = true;
    assert_eq!(silent.next_step(&ev, &p), CatalogAction::WriteEntry(org));
    let mut failed = p;
    failed.entry_written = Some(false);
    assert_eq!(silent.next_step(&ev, &failed), CatalogAction::Finish);
    p.entry_written = Some(true);
    assert_eq!(silent.next_step(&ev, &p), CatalogAction::ResolveCatalogAgent(org));
    p.catalog_agent = Some(Some(sys));
    assert_eq!(silent.next_step(&ev, &p), CatalogAction::WriteTile(org, sys));
    p.tile_written = true;
    assert_eq!(silent.next_step(&ev, &p), CatalogAction::Finish);
    assert_eq!(debug.next_step(&ev, &p), CatalogAction::EmitAudit(org, sys));
}

#[test]
fn fire_without_org_row_never_reads_the_adoption_request() {
    let org = OrgId::new();
    let ar = AuthRequestId::new();
    let mut p = start_fire();
    p.adoption = Some(Some((org, ar)));
    p.actor = Some(Some(AgentId::new()));
    p.org_class = Some(None);
    assert_eq!(fire_class(&p), Some((AuditClass::Silent, AuditClassSource::OrgDefault)));
    assert_eq!(fire_step(&p, 1), FireAction::WriteGrant(0));
    let mut q = p;
    q.org_class = Some(Some(AuditClass::Logged));
    q.request_class = Some(None);
    assert_eq!(fire_class(&q), Some((AuditClass::Logged, AuditClassSource::OrgDefault)));
}
