use std::collections::HashSet;

use phi_domain::model::composites::{auto_tags_for, Composite};
use phi_domain::model::composites_m2::{SecretRef, TenantSet};
use phi_domain::model::composites_m3::{ConsentPolicy, TokenBudgetPool};
use phi_domain::model::composites_m4::{KeyResultStatus, MeasurementType, ObjectiveStatus, ResourceBoundaries};
use phi_domain::model::composites_m5::default_active_true;
use phi_domain::model::edges::{Edge, EDGE_KIND_NAMES};
use phi_domain::model::fundamentals::Fundamental;
use phi_domain::model::ids::{
    AgentId, BlueprintId, EdgeId, MemoryId, NodeId, OrgId, OwnedResourceId, ProjectId, UserId,
};
use phi_domain::model::nodes::{
    AgentKind, AgentRole, ApprovalMode, AuthRequestState, ConsentState, NodeKind, PrincipalRef,
    ProjectShape, ProjectStatus, SessionGovernanceState, TemplateKind, TimeoutResponse,
    WitnessedExperience,
};
use phi_domain::model::principal_resource::{Principal, Resource};

// ---- fundamentals -----------------------------------------------------------

#[test]
fn all_contains_exactly_nine() {
    assert_eq!(Fundamental::ALL.len(), 9);
}

#[test]
fn fundamentals_all_variants_are_distinct() {
    let set: HashSet<_> = Fundamental::ALL.iter().collect();
    assert_eq!(set.len(), 9);
}

#[test]
fn fundamentals_as_str_is_distinct_per_variant() {
    let strs: HashSet<_> = Fundamental::ALL.iter().map(Fundamental::as_str).collect();
    assert_eq!(strs.len(), 9);
}

#[test]
fn fundamental_as_str_spells_the_snake_case_name() {
    assert_eq!(Fundamental::Tag.as_str(), "tag");
    assert_eq!(Fundamental::NetworkEndpoint.as_str(), "network_endpoint");
}

// ---- composites -------------------------------------------------------------

#[test]
fn all_contains_exactly_eight() {
    assert_eq!(Composite::ALL.len(), 8);
}

#[test]
fn composites_all_variants_are_distinct() {
    let set: HashSet<_> = Composite::ALL.iter().collect();
    assert_eq!(set.len(), 8);
}

#[test]
fn every_composite_includes_tag_fundamental() {
    for c in Composite::ALL {
        assert!(
            c.constituents().contains(&Fundamental::Tag),
            "{:?} must implicitly include Tag for its #kind:* identity tag",
            c
        );
    }
}

#[test]
fn kind_tags_are_distinct() {
    let tags: HashSet<_> = Composite::ALL.iter().map(Composite::kind_tag).collect();
    assert_eq!(tags.len(), 8);
}

#[test]
fn kind_name_strips_hashkind_prefix() {
    for c in Composite::ALL {
        let tag = c.kind_tag();
        assert_eq!(format!("#kind:{}", c.kind_name()), tag);
    }
}

#[test]
fn auto_tags_emits_both_reserved_namespaces() {
    let c = Composite::MemoryObject;
    let tags = c.auto_tags("m-4581");
    assert_eq!(tags[0], "#kind:memory");
    assert_eq!(tags[1], "memory:m-4581");
}

#[test]
fn auto_tags_work_for_every_composite() {
    for c in Composite::ALL {
        let tags = c.auto_tags("inst-1");
        assert_eq!(tags[0], format!("#kind:{}", c.kind_name()));
        assert_eq!(tags[1], format!("{}:inst-1", c.kind_name()));
    }
}

#[test]
fn composites_as_str_is_distinct_per_variant() {
    let strs: HashSet<_> = Composite::ALL.iter().map(Composite::as_str).collect();
    assert_eq!(strs.len(), 8);
}

#[test]
fn auto_tags_for_builds_type_then_instance_tag() {
    let tags = auto_tags_for("agent_catalog_entry", "abc");
    assert_eq!(tags[0], "#kind:agent_catalog_entry");
    assert_eq!(tags[1], "agent_catalog_entry:abc");
}

#[test]
fn external_service_composite_lists_its_fundamentals() {
    let c = Composite::ExternalServiceObject;
    assert_eq!(c.kind_tag(), "#kind:external_service");
    assert!(c.constituents().contains(&Fundamental::NetworkEndpoint));
    assert!(c.constituents().contains(&Fundamental::SecretCredential));
}

// ---- tenant sets, secrets, consent policy, token budgets ----------------------

#[test]
fn tenant_set_contains_all_matches_every_org() {
    let ts = TenantSet::All;
    assert!(ts.contains(OrgId::new()));
}

#[test]
fn tenant_set_only_matches_enumerated_orgs() {
    let org_a = OrgId::new();
    let org_b = OrgId::new();
    let ts = TenantSet::Only(vec![org_a]);
    assert!(ts.contains(org_a));
    assert!(!ts.contains(org_b));
}

#[test]
fn tenant_set_explicit_orgs_lists_only_enumerated() {
    let org_a = OrgId::new();
    assert!(TenantSet::All.explicit_orgs().is_empty());
    assert_eq!(TenantSet::Only(vec![org_a]).explicit_orgs(), &[org_a]);
    assert!(!TenantSet::Only(vec![]).contains(org_a));
}

#[test]
fn secret_ref_keeps_its_slug() {
    let s = SecretRef::new("anthropic-api-key".to_string());
    assert_eq!(s.as_str(), "anthropic-api-key");
    assert_eq!(SecretRef::from_str("k").as_str(), "k");
    let owned: SecretRef = String::from("openai-key").into();
    assert_eq!(owned.as_str(), "openai-key");
}

#[test]
fn consent_policy_all_has_three_variants() {
    assert_eq!(ConsentPolicy::ALL.len(), 3);
}

#[test]
fn consent_policy_wire_names() {
    assert_eq!(ConsentPolicy::Implicit.as_wire(), "implicit");
    assert_eq!(ConsentPolicy::OneTime.as_wire(), "one_time");
    assert_eq!(ConsentPolicy::PerSession.as_wire(), "per_session");
}

#[test]
fn token_budget_pool_new_starts_at_zero_used() {
    let p = TokenBudgetPool::new(OrgId::new(), 1_000_000, phi_domain::time::Timestamp::now());
    assert_eq!(p.used, 0);
    assert_eq!(p.remaining(), 1_000_000);
}

#[test]
fn token_budget_pool_debit_updates_used_and_remaining() {
    let mut p = TokenBudgetPool::new(OrgId::new(), 1_000, phi_domain::time::Timestamp::now());
    let after = p.debit(300).expect("debit within budget");
    assert_eq!(after, 300);
    assert_eq!(p.remaining(), 700);
    p.debit(500).expect("second debit within budget");
    assert_eq!(p.used, 800);
}

#[test]
fn token_budget_pool_debit_rejects_overflow_budget() {
    let mut p = TokenBudgetPool::new(OrgId::new(), 100, phi_domain::time::Timestamp::now());
    assert!(p.debit(101).is_err(), "debit must reject exceeding allocation");
    assert_eq!(p.used, 0);
}

#[test]
fn token_budget_pool_debit_errors_name_their_cause() {
    let mut p = TokenBudgetPool::new(OrgId::new(), 100, phi_domain::time::Timestamp::now());
    assert_eq!(
        p.debit(101),
        Err("token_budget_pool: debit would exceed initial_allocation")
    );
    p.debit(100).expect("exact allocation is accepted");
    assert_eq!(p.remaining(), 0);
    assert_eq!(p.debit(u64::MAX), Err("token_budget_pool: usize overflow on debit"));
    assert_eq!(p.used, 100);
}

// ---- project records ----------------------------------------------------------

#[test]
fn resource_boundaries_default_is_empty() {
    let rb = ResourceBoundaries::default();
    assert!(rb.allowed_model_providers.is_empty());
    assert!(rb.allowed_mcp_servers.is_empty());
    assert!(rb.allowed_skills.is_empty());
    assert!(rb.token_budget.is_none());
}

#[test]
fn okr_status_vocabularies_have_their_variants() {
    assert_eq!(ObjectiveStatus::ALL.len(), 5);
    assert_eq!(KeyResultStatus::ALL.len(), 5);
    assert_eq!(MeasurementType::ALL.len(), 4);
    let set: HashSet<_> = ObjectiveStatus::ALL.iter().collect();
    assert_eq!(set.len(), 5);
}

#[test]
fn catalog_rows_default_to_active() {
    assert!(default_active_true());
}

// ---- edges ------------------------------------------------------------------

#[test]
fn edge_kind_names_cardinality_is_74_pinned_at_compile_time() {
    assert_eq!(EDGE_KIND_NAMES.len(), 74);
}

#[test]
fn edge_kind_names_are_distinct() {
    let set: HashSet<_> = EDGE_KIND_NAMES.iter().collect();
    assert_eq!(set.len(), 74);
}

#[test]
fn manages_and_has_agent_supervisor_variants_have_correct_names() {
    let manages = Edge::Manages {
        id: EdgeId::new(),
        from: AgentId::new(),
        to: AgentId::new(),
        org: OrgId::new(),
    };
    let supervisor = Edge::HasAgentSupervisor {
        id: EdgeId::new(),
        from: AgentId::new(),
        to: AgentId::new(),
        project: ProjectId::new(),
    };
    assert_eq!(manages.name(), "MANAGES");
    assert_eq!(supervisor.name(), "HAS_AGENT_SUPERVISOR");
    assert!(EDGE_KIND_NAMES.contains(&"MANAGES"));
    assert!(EDGE_KIND_NAMES.contains(&"HAS_AGENT_SUPERVISOR"));
}

#[test]
fn typed_owned_by_constructs_valid_edge() {
    let mem = MemoryId::new();
    let user = UserId::new();
    let edge = Edge::new_owned_by(&mem, &user);
    match edge {
        Edge::OwnedBy { from, to, .. } => {
            assert_eq!(from.as_u128(), mem.as_u128());
            assert_eq!(to.as_u128(), user.as_u128());
        }
        other => panic!("expected OwnedBy variant, got {:?}", other),
    }
}

#[test]
fn typed_created_carries_principal_then_resource() {
    let agent = AgentId::new();
    let mem = MemoryId::new();
    let edge = Edge::new_created(&agent, &mem);
    match edge {
        Edge::Created { from, to, .. } => {
            assert_eq!(from.as_u128(), agent.as_u128());
            assert_eq!(to.as_u128(), mem.as_u128());
        }
        other => panic!("expected Created variant, got {:?}", other),
    }
}

#[test]
fn typed_allocated_to_accepts_two_principals() {
    let org = OrgId::new();
    let agent = AgentId::new();
    let edge = Edge::new_allocated_to(&org, &agent);
    match edge {
        Edge::AllocatedTo { from, to, .. } => {
            assert_eq!(from.as_u128(), org.as_u128());
            assert_eq!(to.as_u128(), agent.as_u128());
        }
        other => panic!("expected AllocatedTo variant, got {:?}", other),
    }
}

#[test]
fn agent_works_as_both_principal_and_resource() {
    let owner = AgentId::new();
    let owned = AgentId::new();
    let edge = Edge::new_owned_by(&owned, &owner);
    assert!(matches!(edge, Edge::OwnedBy { .. }));
}

#[test]
fn owns_variant_has_correct_name() {
    let agent = AgentId::new();
    let org = OrgId::new();
    let edge = Edge::Owns {
        id: EdgeId::new(),
        from: agent,
        to: OwnedResourceId::Org(org),
    };
    assert_eq!(edge.name(), "OWNS");
    assert!(EDGE_KIND_NAMES.contains(&"OWNS"));
}

#[test]
fn typed_new_owns_org_constructs_valid_edge() {
    let agent = AgentId::new();
    let org = OrgId::new();
    let edge = Edge::new_owns(&agent, OwnedResourceId::Org(org));
    match edge {
        Edge::Owns { from, to, .. } => {
            assert_eq!(from.as_u128(), agent.as_u128());
            match to {
                OwnedResourceId::Org(o) => assert_eq!(o.as_u128(), org.as_u128()),
                other => panic!("expected Org variant, got {:?}", other),
            }
        }
        other => panic!("expected Owns variant, got {:?}", other),
    }
}

#[test]
fn typed_new_owns_project_constructs_valid_edge() {
    let agent = AgentId::new();
    let project = ProjectId::new();
    let edge = Edge::new_owns(&agent, OwnedResourceId::Project(project));
    match edge {
        Edge::Owns { from, to, .. } => {
            assert_eq!(from.as_u128(), agent.as_u128());
            match to {
                OwnedResourceId::Project(p) => assert_eq!(p.as_u128(), project.as_u128()),
                other => panic!("expected Project variant, got {:?}", other),
            }
        }
        other => panic!("expected Owns variant, got {:?}", other),
    }
}

#[test]
fn agent_profile_uses_blueprint_edge_name_is_canonical() {
    let edge = Edge::AgentProfileUsesBlueprint {
        id: EdgeId::new(),
        from: NodeId::new(),
        to: BlueprintId::new(),
    };
    assert_eq!(edge.name(), "AGENT_PROFILE_USES_BLUEPRINT");
    assert!(EDGE_KIND_NAMES.contains(&"AGENT_PROFILE_USES_BLUEPRINT"));
}

#[test]
fn agent_uses_blueprint_override_edge_name_is_canonical() {
    let edge = Edge::AgentUsesBlueprintOverride {
        id: EdgeId::new(),
        from: AgentId::new(),
        to: BlueprintId::new(),
    };
    assert_eq!(edge.name(), "AGENT_USES_BLUEPRINT_OVERRIDE");
    assert!(EDGE_KIND_NAMES.contains(&"AGENT_USES_BLUEPRINT_OVERRIDE"));
}

// ---- ids and principal / resource roles -------------------------------------

#[test]
fn ids_are_unique_by_default() {
    let a = AgentId::new();
    let b = AgentId::new();
    assert_ne!(a, b, "freshly generated IDs must differ");
}

#[test]
fn fresh_ids_are_version_4_uuids() {
    let text = AgentId::new().to_string();
    assert_eq!(text.len(), 36);
    assert_eq!(&text[14..15], "4");
    assert!(matches!(&text[19..20], "8" | "9" | "a" | "b"));
}

#[test]
fn id_text_is_the_hyphenated_lowercase_uuid() {
    let id = OrgId::from_u128(0x0123_4567_89AB_CDEF_FEDC_BA98_7654_3210);
    assert_eq!(id.to_string(), "01234567-89ab-cdef-fedc-ba9876543210");
    assert_eq!(id.as_u128(), 0x0123_4567_89AB_CDEF_FEDC_BA98_7654_3210);
}

#[test]
fn owned_resource_id_org_round_trips_node_id() {
    let org = OrgId::new();
    let owned = OwnedResourceId::Org(org);
    let node = owned.node_id();
    assert_eq!(node.as_u128(), org.as_u128());
    assert_eq!(owned.kind_name(), "org");
}

#[test]
fn owned_resource_id_project_round_trips_node_id() {
    let project = ProjectId::new();
    let owned = OwnedResourceId::Project(project);
    let node = owned.node_id();
    assert_eq!(node.as_u128(), project.as_u128());
    assert_eq!(owned.kind_name(), "project");
}

#[test]
fn principal_node_id_round_trips_uuid() {
    let agent = AgentId::new();
    let node = <AgentId as Principal>::node_id(&agent);
    assert_eq!(agent.as_u128(), node.as_u128());
}

#[test]
fn resource_node_id_round_trips_uuid() {
    let mem = MemoryId::new();
    let node = <MemoryId as Resource>::node_id(&mem);
    assert_eq!(mem.as_u128(), node.as_u128());
}

#[test]
fn agent_is_both_principal_and_resource() {
    fn assert_both<T: Principal + Resource>() {}
    assert_both::<AgentId>();
}

#[test]
fn node_id_is_resource_only() {
    fn assert_resource<T: Resource>() {}
    assert_resource::<NodeId>();
}

#[test]
fn org_user_project_are_principal_only() {
    fn assert_principal<T: Principal>() {}
    assert_principal::<OrgId>();
    assert_principal::<UserId>();
    assert_principal::<ProjectId>();
}

// ---- ontology cardinalities ---------------------------------------------------

#[test]
fn ontology_has_nine_fundamentals() {
    assert_eq!(Fundamental::ALL.len(), 9);
}

#[test]
fn ontology_has_eight_composites() {
    assert_eq!(Composite::ALL.len(), 8);
}

#[test]
fn ontology_has_thirty_seven_node_kinds() {
    assert_eq!(NodeKind::ALL.len(), 37);
}

// ---- nodes --------------------------------------------------------------------

#[test]
fn node_kind_all_is_exactly_37() {
    assert_eq!(NodeKind::ALL.len(), 37);
}

#[test]
fn node_kind_variants_are_distinct() {
    let set: HashSet<_> = NodeKind::ALL.iter().collect();
    assert_eq!(set.len(), 37);
}

#[test]
fn node_kind_as_str_is_distinct_per_variant() {
    let strs: HashSet<_> = NodeKind::ALL.iter().map(NodeKind::as_str).collect();
    assert_eq!(strs.len(), 37);
}

#[test]
fn auth_request_state_all_is_exactly_nine() {
    assert_eq!(AuthRequestState::ALL.len(), 9);
}

#[test]
fn agent_role_all_has_six_variants() {
    assert_eq!(AgentRole::ALL.len(), 6);
}

#[test]
fn agent_role_human_variants_reject_llm_kind() {
    for r in [AgentRole::Executive, AgentRole::Admin, AgentRole::Member] {
        assert!(r.is_valid_for(AgentKind::Human), "{:?} Human", r);
        assert!(!r.is_valid_for(AgentKind::Llm), "{:?} Llm", r);
    }
}

#[test]
fn agent_role_llm_variants_reject_human_kind() {
    for r in [AgentRole::Intern, AgentRole::Contract, AgentRole::System] {
        assert!(r.is_valid_for(AgentKind::Llm), "{:?} Llm", r);
        assert!(!r.is_valid_for(AgentKind::Human), "{:?} Human", r);
    }
}

#[test]
fn wire_names_of_roles_statuses_shapes_and_templates() {
    assert_eq!(AgentRole::Executive.as_str(), "executive");
    assert_eq!(AgentRole::System.as_str(), "system");
    assert_eq!(ProjectStatus::InProgress.as_str(), "in_progress");
    assert_eq!(ProjectShape::A.as_str(), "shape_a");
    assert_eq!(TemplateKind::default(), TemplateKind::SystemBootstrap);
    assert_eq!(SessionGovernanceState::FailedLaunch.as_str(), "failed_launch");
    assert_eq!(NodeKind::Agent.as_str(), "agent");
}

#[test]
fn session_governance_state_is_terminal_matches_running_guard() {
    assert!(!SessionGovernanceState::Running.is_terminal());
    assert!(SessionGovernanceState::Completed.is_terminal());
    assert!(SessionGovernanceState::Aborted.is_terminal());
    assert!(SessionGovernanceState::FailedLaunch.is_terminal());
}

#[test]
fn witnessed_experience_default_is_zeroed() {
    let w = WitnessedExperience::default();
    assert_eq!(w.memories_extracted, 0);
    assert!(w.subordinates_observed.is_empty());
    assert_eq!(w.extraction_scope_distribution.private, 0);
    assert_eq!(w.extraction_scope_distribution.public, 0);
}

#[test]
fn consent_state_all_has_six_variants() {
    assert_eq!(ConsentState::ALL.len(), 6);
    let set: HashSet<_> = ConsentState::ALL.iter().collect();
    assert_eq!(set.len(), 6);
}

#[test]
fn consent_state_default_is_acknowledged() {
    assert_eq!(ConsentState::default(), ConsentState::Acknowledged);
}

#[test]
fn approval_mode_default_is_implicit() {
    assert_eq!(ApprovalMode::default(), ApprovalMode::Implicit);
}

#[test]
fn timeout_response_default_is_deny() {
    assert_eq!(TimeoutResponse::default(), TimeoutResponse::Deny);
}

#[test]
fn principal_ref_partial_eq_round_trips() {
    let agent_id = AgentId::new();
    assert_eq!(PrincipalRef::Agent(agent_id), PrincipalRef::Agent(agent_id),);

    let user_id = UserId::new();
    assert_eq!(PrincipalRef::User(user_id), PrincipalRef::User(user_id));

    let org_id = OrgId::new();
    assert_eq!(PrincipalRef::Organization(org_id), PrincipalRef::Organization(org_id),);

    let project_id = ProjectId::new();
    assert_eq!(PrincipalRef::Project(project_id), PrincipalRef::Project(project_id),);

    assert_eq!(
        PrincipalRef::System("system:genesis".into()),
        PrincipalRef::System("system:genesis".into()),
    );

    let other_agent = AgentId::new();
    assert_ne!(PrincipalRef::Agent(agent_id), PrincipalRef::Agent(other_agent),);
}
