//! The decisions of the domain-event listeners.
//!
//! A listener reacts to an event after the write that produced it has
//! committed. Its work alternates reads and writes against the repository
//! with decisions; the decisions live here, as functions of the event and
//! of what the reads returned, and the caller performs the reads and
//! writes between them. A failed read or write is logged and dropped by
//! the caller, never propagated.
//!
//! Each listener's sequence of reads, writes and audit emissions is a step
//! function from what it has learned and done so far to the next action
//! ([`fire_step`], [`MemoryExtractionListener::next_step`],
//! [`AgentCatalogListener::next_step`]); it fixes which failure skips
//! which later write.
//!
//! - Template A, C and D fire listeners mint a grant when a lead, manager
//!   or supervisor edge is reported, under the strictest of the org's and
//!   the adoption request's audit classes.
//! - The memory-extraction listener mints one memory per naturally ended
//!   session of an LLM agent and bumps that agent's extraction counters.
//! - The agent-catalog listener refreshes the org's catalog row of the
//!   agent an event concerns, or of every agent using an upserted
//!   template-tier blueprint.

use vstd::prelude::*;
use vstd::string::StringExecFns;

use super::DomainEvent;
use crate::audit::{AuditClass, ExtractionScope};
use crate::permissions::{compose_audit_class_with_source, composed_audit_class, AuditClassSource};
use crate::model::composites::{auto_tags_for, reserved_tags};
use crate::model::composites_m5::{AgentCatalogEntry, SystemAgentRuntimeStatus};
use crate::model::ids::{
    is_v4, uuid_text, AgentCatalogEntryId, AgentId, AuditEventId, AuthRequestId, MemoryId, OrgId, ProjectId,
    SessionId, SystemAgentRuntimeStatusId,
};
use crate::model::nodes::{
    Agent, AgentKind, AgentProfile, Memory, Session, SessionGovernanceState, WitnessedExperience,
};
use crate::time::Timestamp;

verus! {

/// Display name of the per-org agent-catalog system agent, by which the
/// catalog listener finds it among the org's system agents.
pub const AGENT_CATALOG_SYSTEM_AGENT_DISPLAY_NAME: &'static str = "agent-catalog";

/// Display name of the per-org memory-extraction system agent, by which
/// the memory-extraction listener finds it among the org's system agents.
pub const MEMORY_EXTRACTION_SYSTEM_AGENT_DISPLAY_NAME: &'static str = "memory-extraction-agent";

/// Whether the agent-catalog listener audits its refreshes: `Silent` (the
/// default) emits nothing, `Debug` emits one audit event per refresh.
#[derive(Clone, Copy, Debug, PartialEq, Eq, Structural)]
pub enum CatalogAuditMode {
    Silent,
    Debug,
}

impl Default for CatalogAuditMode {
    fn default() -> (m: CatalogAuditMode)
        ensures
            m == CatalogAuditMode::Silent,
    {
        CatalogAuditMode::Silent
    }
}

// ---------------------------------------------------------------------------
// Tag sets
// ---------------------------------------------------------------------------

/// The texts of a list of tags.
pub open spec fn tag_texts(tags: Seq<String>) -> Seq<Seq<char>> {
    tags.map_values(|t: String| t@)
}

/// `tags` with `t` appended unless it is already there.
pub open spec fn with_tag(tags: Seq<Seq<char>>, t: Seq<char>) -> Seq<Seq<char>> {
    if tags.contains(t) {
        tags
    } else {
        tags.push(t)
    }
}

/// The governance scope tags of a session, in their fixed order:
/// `agent:<starter>`, `session:<id>`, `project:<project>`, `org:<org>`.
pub open spec fn scope_tags(session: Session) -> Seq<Seq<char>> {
    seq![
        "agent:"@ + uuid_text(session.started_by.0),
        "session:"@ + uuid_text(session.id.0),
        "project:"@ + uuid_text(session.owning_project.0),
        "org:"@ + uuid_text(session.owning_org.0),
    ]
}

/// The de-duplicated union of a list of tags: each distinct tag once, in
/// the order of its first occurrence.
pub open spec fn union_of(tags: Seq<Seq<char>>) -> Seq<Seq<char>>
    decreases tags.len(),
{
    if tags.len() == 0 {
        Seq::empty()
    } else {
        with_tag(union_of(tags.drop_last()), tags.last())
    }
}

/// Tags of a memory extracted from `session`: the de-duplicated union of
/// the session's own tags followed by its four scope tags.
pub open spec fn memory_tags(session: Session) -> Seq<Seq<char>> {
    union_of(tag_texts(session.tags@) + scope_tags(session))
}

/// The scope bucket a tag set falls into: `Public` when it carries
/// `#public`, `Private` otherwise.
pub open spec fn scope_of(tags: Seq<Seq<char>>) -> ExtractionScope {
    if tags.contains("#public"@) {
        ExtractionScope::Public
    } else {
        ExtractionScope::Private
    }
}

proof fn lemma_with_tag(tags: Seq<Seq<char>>, t: Seq<char>)
    ensures
        with_tag(tags, t).take(tags.len() as int) == tags,
        with_tag(tags, t).contains(t),
        forall|u: Seq<char>| tags.contains(u) ==> with_tag(tags, t).contains(u),
        forall|u: Seq<char>| with_tag(tags, t).contains(u) ==> tags.contains(u) || u == t,
        with_tag(tags, t).len() <= tags.len() + 1,
        tags.no_duplicates() ==> with_tag(tags, t).no_duplicates(),
{
    let r = with_tag(tags, t);
    if tags.contains(t) {
        assert(r.take(tags.len() as int) =~= tags);
    } else {
        assert(r.take(tags.len() as int) =~= tags);
        assert(r[tags.len() as int] == t);
        assert forall|u: Seq<char>| tags.contains(u) implies r.contains(u) by {
            let k = choose|k: int| 0 <= k < tags.len() && tags[k] == u;
            assert(r[k] == u);
        }
        assert forall|u: Seq<char>| r.contains(u) implies tags.contains(u) || u == t by {
            let k = choose|k: int| 0 <= k < r.len() && r[k] == u;
            if k < tags.len() {
                assert(tags[k] == u);
            }
        }
    }
}

/// The union repeats no tag, holds exactly the tags of the list, and is no
/// longer than the list.
proof fn lemma_union_of(tags: Seq<Seq<char>>)
    ensures
        union_of(tags).no_duplicates(),
        forall|u: Seq<char>| union_of(tags).contains(u) <==> tags.contains(u),
        union_of(tags).len() <= tags.len(),
    decreases tags.len(),
{
    if tags.len() > 0 {
        let init = tags.drop_last();
        lemma_union_of(init);
        lemma_with_tag(union_of(init), tags.last());
        assert forall|u: Seq<char>| union_of(tags).contains(u) <==> tags.contains(u) by {
            if tags.contains(u) && u != tags.last() {
                let k = choose|k: int| 0 <= k < tags.len() && tags[k] == u;
                assert(init[k] == u);
            }
            if init.contains(u) {
                let k = choose|k: int| 0 <= k < init.len() && init[k] == u;
                assert(tags[k] == u);
            }
            assert(tags[tags.len() - 1] == tags.last());
        }
    }
}

/// The union of a list with one tag appended is the union of the list with
/// that tag added if missing.
proof fn lemma_union_push(tags: Seq<Seq<char>>, t: Seq<char>)
    ensures
        union_of(tags.push(t)) == with_tag(union_of(tags), t),
{
    assert(tags.push(t).drop_last() =~= tags);
}

/// A memory's tags are the de-duplicated union of the session's tags and
/// its four scope tags: no tag repeats, a tag is there exactly when the
/// session carries it or it is a scope tag, the session's distinct tags
/// come first in their order, and there are at most four more tags than
/// the session's distinct ones.
pub proof fn law_memory_tags_extend_session_tags(session: Session)
    ensures
        memory_tags(session).no_duplicates(),
        forall|u: Seq<char>| #[trigger] memory_tags(session).contains(u) <==> (tag_texts(
            session.tags@,
        ).contains(u) || scope_tags(session).contains(u)),
        memory_tags(session).take(union_of(tag_texts(session.tags@)).len() as int) == union_of(
            tag_texts(session.tags@),
        ),
        memory_tags(session).len() <= union_of(tag_texts(session.tags@)).len() + 4,
{
    let s = scope_tags(session);
    let b = tag_texts(session.tags@);
    let all = b + s;
    lemma_union_of(all);
    assert forall|u: Seq<char>| all.contains(u) <==> (b.contains(u) || s.contains(u)) by {
        if all.contains(u) {
            let k = choose|k: int| 0 <= k < all.len() && all[k] == u;
            if k < b.len() {
                assert(b[k] == u);
            } else {
                assert(s[k - b.len()] == u);
            }
        }
        if b.contains(u) {
            let k = choose|k: int| 0 <= k < b.len() && b[k] == u;
            assert(all[k] == u);
        }
        if s.contains(u) {
            let k = choose|k: int| 0 <= k < s.len() && s[k] == u;
            assert(all[b.len() + k] == u);
        }
    }
    let t0 = union_of(b);
    let t1 = with_tag(t0, s[0]);
    let t2 = with_tag(t1, s[1]);
    let t3 = with_tag(t2, s[2]);
    let t4 = with_tag(t3, s[3]);
    lemma_union_push(b, s[0]);
    lemma_union_push(b.push(s[0]), s[1]);
    lemma_union_push(b.push(s[0]).push(s[1]), s[2]);
    lemma_union_push(b.push(s[0]).push(s[1]).push(s[2]), s[3]);
    assert(b.push(s[0]).push(s[1]).push(s[2]).push(s[3]) =~= all);
    assert(union_of(all) == t4);
    lemma_with_tag(t0, s[0]);
    lemma_with_tag(t1, s[1]);
    lemma_with_tag(t2, s[2]);
    lemma_with_tag(t3, s[3]);
    assert(t4.take(t0.len() as int) =~= t0) by {
        assert forall|i: int| 0 <= i < t0.len() implies t4[i] == t0[i] by {
            assert(t4.take(t3.len() as int)[i] == t3[i]);
            assert(t3.take(t2.len() as int)[i] == t2[i]);
            assert(t2.take(t1.len() as int)[i] == t1[i]);
            assert(t1.take(t0.len() as int)[i] == t0[i]);
        }
    }
}

/// A copy of a list of tags.
fn copy_tags(tags: &Vec<String>) -> (r: Vec<String>)
    ensures
        r@ == tags@,
{
    let mut r: Vec<String> = Vec::new();
    let mut i: usize = 0;
    while i < tags.len()
        invariant
            i <= tags.len(),
            r@ == tags@.take(i as int),
        decreases tags.len() - i,
    {
        let c = tags[i].clone();
        r.push(c);
        proof {
            assert(r@ =~= tags@.take(i + 1));
        }
        i = i + 1;
    }
    proof {
        assert(tags@.take(i as int) =~= tags@);
    }
    r
}

/// Whether some tag of `tags` has the text of `t`.
fn has_text(tags: &[String], t: &String) -> (b: bool)
    ensures
        b == tag_texts(tags@).contains(t@),
{
    let mut i: usize = 0;
    while i < tags.len()
        invariant
            i <= tags.len(),
            forall|j: int| 0 <= j < i ==> tags@[j]@ != t@,
        decreases tags.len() - i,
    {
        if tags[i] == *t {
            proof {
                assert(tag_texts(tags@)[i as int] == t@);
            }
            return true;
        }
        i = i + 1;
    }
    proof {
        if tag_texts(tags@).contains(t@) {
            let k = choose|k: int| 0 <= k < tag_texts(tags@).len() && tag_texts(tags@)[k] == t@;
            assert(tags@[k]@ == t@);
        }
    }
    false
}

/// Appends `t` to `tags` unless a tag with its text is already there.
fn push_if_missing(tags: &mut Vec<String>, t: String)
    ensures
        tag_texts(final(tags)@) == with_tag(tag_texts(old(tags)@), t@),
{
    if !has_text(tags.as_slice(), &t) {
        tags.push(t);
        proof {
            assert(tag_texts(tags@) =~= tag_texts(old(tags)@).push(t@));
        }
    }
}

/// `prefix` followed by the identifier text.
fn prefixed_id(prefix: &str, id_text: String) -> (s: String)
    ensures
        s@ == prefix@ + id_text@,
{
    String::from_str(prefix).concat(id_text.as_str())
}

/// Tags of a memory extracted from `session`: the session's tags, then
/// `agent:<starter>`, `session:<id>`, `project:<project>` and
/// `org:<org>`, de-duplicated with each tag kept at its first occurrence.
pub fn build_memory_tags(session: &Session) -> (tags: Vec<String>)
    ensures
        tag_texts(tags@) == memory_tags(*session),
{
    let mut tags: Vec<String> = Vec::new();
    let mut i: usize = 0;
    while i < session.tags.len()
        invariant
            i <= session.tags.len(),
            tag_texts(tags@) == union_of(tag_texts(session.tags@).take(i as int)),
        decreases session.tags.len() - i,
    {
        let t = session.tags[i].clone();
        push_if_missing(&mut tags, t);
        proof {
            let b = tag_texts(session.tags@);
            assert(b.take(i + 1) =~= b.take(i as int).push(t@));
            lemma_union_push(b.take(i as int), t@);
        }
        i = i + 1;
    }
    let g0 = prefixed_id("agent:", session.started_by.to_string());
    let g1 = prefixed_id("session:", session.id.to_string());
    let g2 = prefixed_id("project:", session.owning_project.to_string());
    let g3 = prefixed_id("org:", session.owning_org.to_string());
    proof {
        reveal_strlit("agent:");
        reveal_strlit("session:");
        reveal_strlit("project:");
        reveal_strlit("org:");
        let b = tag_texts(session.tags@);
        let s = scope_tags(*session);
        assert(b.take(i as int) =~= b);
        assert(g0@ == s[0] && g1@ == s[1] && g2@ == s[2] && g3@ == s[3]);
        lemma_union_push(b, s[0]);
        lemma_union_push(b.push(s[0]), s[1]);
        lemma_union_push(b.push(s[0]).push(s[1]), s[2]);
        lemma_union_push(b.push(s[0]).push(s[1]).push(s[2]), s[3]);
        assert(b.push(s[0]).push(s[1]).push(s[2]).push(s[3]) =~= b + s);
    }
    push_if_missing(&mut tags, g0);
    push_if_missing(&mut tags, g1);
    push_if_missing(&mut tags, g2);
    push_if_missing(&mut tags, g3);
    tags
}

/// The scope bucket of an extraction: `Public` exactly when a tag reads
/// `#public`.
pub fn decide_scope(tags: &[String]) -> (scope: ExtractionScope)
    ensures
        scope == scope_of(tag_texts(tags@)),
{
    let public = String::from_str("#public");
    if has_text(tags, &public) {
        ExtractionScope::Public
    } else {
        ExtractionScope::Private
    }
}

/// Bumps an LLM agent's extraction counters for one extracted memory:
/// the total and the bucket of `scope`, each saturating at `u64::MAX`;
/// nothing else changes.
pub fn record_extraction(w: &mut WitnessedExperience, scope: ExtractionScope)
    ensures
        final(w).memories_extracted == saturating_inc(old(w).memories_extracted),
        final(w).extraction_scope_distribution.private == (if scope == ExtractionScope::Private {
            saturating_inc(old(w).extraction_scope_distribution.private)
        } else {
            old(w).extraction_scope_distribution.private
        }),
        final(w).extraction_scope_distribution.public == (if scope == ExtractionScope::Public {
            saturating_inc(old(w).extraction_scope_distribution.public)
        } else {
            old(w).extraction_scope_distribution.public
        }),
        final(w).subordinates_observed@ == old(w).subordinates_observed@,
{
    w.memories_extracted = w.memories_extracted.saturating_add(1);
    match scope {
        ExtractionScope::Private => {
            w.extraction_scope_distribution.private =
                w.extraction_scope_distribution.private.saturating_add(1);
        },
        ExtractionScope::Public => {
            w.extraction_scope_distribution.public =
                w.extraction_scope_distribution.public.saturating_add(1);
        },
    }
}

/// Each extraction lands in exactly one bucket: while no counter
/// saturates, a total that equals the sum of the two buckets still does
/// after [`record_extraction`].
pub proof fn law_extraction_counts_stay_balanced(total: u64, private: u64, public: u64, scope: ExtractionScope)
    requires
        total == private + public,
        total < u64::MAX,
    ensures
        saturating_inc(total) == (if scope == ExtractionScope::Private {
            saturating_inc(private)
        } else {
            private
        }) + (if scope == ExtractionScope::Public {
            saturating_inc(public)
        } else {
            public
        }),
{
}

/// `n + 1`, or `u64::MAX` when that overflows.
pub open spec fn saturating_inc(n: u64) -> u64 {
    if n == u64::MAX {
        u64::MAX
    } else {
        (n + 1) as u64
    }
}

// ---------------------------------------------------------------------------
// System-agent runtime tiles
// ---------------------------------------------------------------------------

/// The concurrency a system agent runs at: its profile's `parallelize`,
/// or 1 when it has no profile.
pub fn effective_parallelize(profile: Option<&AgentProfile>) -> (p: u32)
    ensures
        p == (match profile {
            Some(pr) => pr.parallelize,
            None => 1,
        }),
{
    match profile {
        Some(pr) => pr.parallelize,
        None => 1,
    }
}

/// The runtime tile a system agent's fire writes: a fresh identifier with
/// its two reserved tags, an idle queue, fired and updated at `now`.
pub fn runtime_status_for_fire(
    org: OrgId,
    agent: AgentId,
    effective_parallelize: u32,
    last_error: Option<String>,
    now: Timestamp,
) -> (s: SystemAgentRuntimeStatus)
    ensures
        is_v4(s.id.0),
        s.agent_id == agent,
        s.owning_org == org,
        s.queue_depth == 0,
        s.last_fired_at == Some(now),
        s.effective_parallelize == effective_parallelize,
        s.last_error == last_error,
        s.updated_at == now,
        tag_texts(s.tags@) == reserved_tags("system_agent_runtime_status"@, uuid_text(s.id.0)),
{
    let id = SystemAgentRuntimeStatusId::new();
    let tags = reserved_tag_vec("system_agent_runtime_status", id.to_string());
    SystemAgentRuntimeStatus {
        id,
        agent_id: agent,
        owning_org: org,
        queue_depth: 0,
        last_fired_at: Some(now),
        effective_parallelize,
        last_error,
        updated_at: now,
        tags,
    }
}

/// The two reserved tags of an instance, as a list.
fn reserved_tag_vec(kind: &str, id_text: String) -> (tags: Vec<String>)
    ensures
        tag_texts(tags@) == reserved_tags(kind@, id_text@),
{
    let pair = auto_tags_for(kind, id_text.as_str());
    let mut tags: Vec<String> = Vec::new();
    tags.push(pair[0].clone());
    tags.push(pair[1].clone());
    proof {
        assert(pair@.map_values(|t: String| t@)[0] == pair@[0]@);
        assert(pair@.map_values(|t: String| t@)[1] == pair@[1]@);
        assert(tag_texts(tags@) =~= reserved_tags(kind@, id_text@));
    }
    tags
}

/// Whether the agent carries the given display name.
fn has_display_name(agent: &Agent, name: &str) -> (b: bool)
    ensures
        b == (agent.display_name@ == name@),
{
    let wanted = String::from_str(name);
    agent.display_name == wanted
}

// ---------------------------------------------------------------------------
// Template A, C and D fire listeners
// ---------------------------------------------------------------------------

/// The audit class a fired grant carries, given the org's default class
/// and the adoption request's class as read (`None` when a row is missing
/// or its read failed): without the org row, `Silent` attributed to the
/// org default; otherwise the strictest of the org default and the
/// request's class, a missing request counting as `Silent`.
pub open spec fn resolved_audit_class(org_default: Option<AuditClass>, template_ar: Option<AuditClass>) -> (
    AuditClass,
    AuditClassSource,
) {
    match org_default {
        None => (AuditClass::Silent, AuditClassSource::OrgDefault),
        Some(o) => composed_audit_class(
            o,
            match template_ar {
                Some(a) => a,
                None => AuditClass::Silent,
            },
        ),
    }
}

/// The audit class a fired grant carries (see [`resolved_audit_class`]).
pub fn resolve_composed_audit_class(org_default: Option<AuditClass>, template_ar: Option<AuditClass>) -> (r: (
    AuditClass,
    AuditClassSource,
))
    ensures
        r == resolved_audit_class(org_default, template_ar),
{
    match org_default {
        None => (AuditClass::Silent, AuditClassSource::OrgDefault),
        Some(o) => {
            let ar = match template_ar {
                Some(a) => a,
                None => AuditClass::Silent,
            };
            compose_audit_class_with_source(o, ar)
        },
    }
}

/// What a template grant fire has learned and done so far, as the caller
/// records it between steps.
#[derive(Clone, Copy, Debug)]
pub struct FireProgress {
    /// The org and its adoption request (`Some(None)` when the org has
    /// not adopted the template).
    pub adoption: Option<Option<(OrgId, AuthRequestId)>>,
    /// The agent on whose behalf grants are issued (`Some(None)` when none
    /// resolves).
    pub actor: Option<Option<AgentId>>,
    /// The org's default audit class (`Some(None)` when the org row is
    /// missing or its read failed).
    pub org_class: Option<Option<AuditClass>>,
    /// The adoption request's audit class (`Some(None)` when the request
    /// row is missing or its read failed).
    pub request_class: Option<Option<AuditClass>>,
    /// How many grants have been written.
    pub written: usize,
    /// How many of the written grants have had their audit event emitted
    /// (successfully or not).
    pub audited: usize,
    /// A grant write failed.
    pub failed: bool,
}

/// The next thing a template grant fire does.
#[derive(Clone, Copy, Debug, PartialEq, Eq, Structural)]
pub enum FireAction {
    /// Resolve the adoption request (and the org) for the event.
    ResolveAdoption,
    /// Resolve the actor of the org.
    ResolveActor(OrgId),
    /// Read the org's default audit class.
    ReadOrgClass(OrgId),
    /// Read the adoption request's audit class.
    ReadRequestClass(AuthRequestId),
    /// Build grant number `i` (from 0) under [`fire_class`] and write it.
    WriteGrant(usize),
    /// Emit the audit event of grant number `i`.
    EmitGrantAudit(usize),
    /// Nothing more to do.
    Finish,
}

/// The audit class of the fire once the reads it needs are done: without
/// the org row, `Silent` from the org default and the adoption request is
/// not read; otherwise [`resolved_audit_class`] of the two reads. `None`
/// while a needed read is still outstanding.
pub open spec fn class_of_fire(p: FireProgress) -> Option<(AuditClass, AuditClassSource)> {
    match p.org_class {
        None => None,
        Some(None) => Some(resolved_audit_class(None, None)),
        Some(Some(o)) => match p.request_class {
            None => None,
            Some(r) => Some(resolved_audit_class(Some(o), r)),
        },
    }
}

/// The grant phase of a fire: each grant is written and audited in turn;
/// a failed write ends the fire.
pub open spec fn grant_phase_next(p: FireProgress, grant_count: usize) -> FireAction {
    if p.failed {
        FireAction::Finish
    } else if p.audited < p.written {
        FireAction::EmitGrantAudit(p.audited)
    } else if p.written < grant_count {
        FireAction::WriteGrant(p.written)
    } else {
        FireAction::Finish
    }
}

/// The next step of a fire that builds `grant_count` grants: a missing
/// adoption request or actor ends it; then the org's class is read, and
/// the request's class only when the org row was found; then each grant
/// is written and audited in turn. A failed grant write ends the fire, so
/// no later grant is written; a failed audit emission does not.
pub open spec fn fire_next(p: FireProgress, grant_count: usize) -> FireAction {
    match p.adoption {
        None => FireAction::ResolveAdoption,
        Some(None) => FireAction::Finish,
        Some(Some((org, ar))) => match p.actor {
            None => FireAction::ResolveActor(org),
            Some(None) => FireAction::Finish,
            Some(Some(_)) => match p.org_class {
                None => FireAction::ReadOrgClass(org),
                Some(None) => grant_phase_next(p, grant_count),
                Some(Some(_)) => match p.request_class {
                    None => FireAction::ReadRequestClass(ar),
                    Some(_) => grant_phase_next(p, grant_count),
                },
            },
        },
    }
}

fn grant_phase_step(p: &FireProgress, grant_count: usize) -> (a: FireAction)
    ensures
        a == grant_phase_next(*p, grant_count),
{
    if p.failed {
        FireAction::Finish
    } else if p.audited < p.written {
        FireAction::EmitGrantAudit(p.audited)
    } else if p.written < grant_count {
        FireAction::WriteGrant(p.written)
    } else {
        FireAction::Finish
    }
}

/// The next step of a fire that builds `grant_count` grants (see
/// [`fire_next`]).
pub fn fire_step(p: &FireProgress, grant_count: usize) -> (a: FireAction)
    ensures
        a == fire_next(*p, grant_count),
{
    match p.adoption {
        None => FireAction::ResolveAdoption,
        Some(None) => FireAction::Finish,
        Some(Some((org, ar))) => match p.actor {
            None => FireAction::ResolveActor(org),
            Some(None) => FireAction::Finish,
            Some(Some(_)) => match p.org_class {
                None => FireAction::ReadOrgClass(org),
                Some(None) => grant_phase_step(p, grant_count),
                Some(Some(_)) => match p.request_class {
                    None => FireAction::ReadRequestClass(ar),
                    Some(_) => grant_phase_step(p, grant_count),
                },
            },
        },
    }
}

/// The audit class the fire's grants carry (see [`class_of_fire`]).
pub fn fire_class(p: &FireProgress) -> (c: Option<(AuditClass, AuditClassSource)>)
    ensures
        c == class_of_fire(*p),
{
    match p.org_class {
        None => None,
        Some(None) => Some(resolve_composed_audit_class(None, None)),
        Some(Some(o)) => match p.request_class {
            None => None,
            Some(r) => Some(resolve_composed_audit_class(Some(o), r)),
        },
    }
}

/// A fire that has not started.
pub fn start_fire() -> (p: FireProgress)
    ensures
        p.adoption is None,
        p.actor is None,
        p.org_class is None,
        p.request_class is None,
        p.written == 0,
        p.audited == 0,
        !p.failed,
{
    FireProgress {
        adoption: None,
        actor: None,
        org_class: None,
        request_class: None,
        written: 0,
        audited: 0,
        failed: false,
    }
}

/// A failed grant write stops the fire: nothing is written after it.
pub proof fn law_failed_grant_write_stops_fire(p: FireProgress, grant_count: usize)
    requires
        p.failed,
    ensures
        !(fire_next(p, grant_count) is WriteGrant),
        !(fire_next(p, grant_count) is EmitGrantAudit),
{
}

/// Without the org row the adoption request is never read: the fire's
/// class is `Silent` from the org default, and no step reads the request.
pub proof fn law_missing_org_row_skips_request_read(p: FireProgress, grant_count: usize)
    requires
        p.org_class == Some(None::<AuditClass>),
    ensures
        class_of_fire(p) == Some((AuditClass::Silent, AuditClassSource::OrgDefault)),
        !(fire_next(p, grant_count) is ReadRequestClass),
{
}

/// With the org row read and the request row missing, the org default
/// decides alone.
pub proof fn law_missing_request_leaves_org_default(p: FireProgress, o: AuditClass)
    requires
        p.org_class == Some(Some(o)),
        p.request_class == Some(None::<AuditClass>),
    ensures
        class_of_fire(p) == Some(composed_audit_class(o, AuditClass::Silent)),
{
}

/// Fires the Template A lead grant each time a project gains a lead.
/// Holds the repository and audit handles and the two resolvers: the
/// adoption request authorising Template A for a project's org, and the
/// agent on whose behalf the org's grants are issued.
pub struct TemplateAFireListener<R, E, A, C> {
    pub repo: R,
    pub audit: E,
    pub adoption_ar_resolver: A,
    pub actor_resolver: C,
}

impl<R, E, A, C> TemplateAFireListener<R, E, A, C> {
    pub fn new(repo: R, audit: E, adoption_ar_resolver: A, actor_resolver: C) -> (l: Self)
        ensures
            l.repo == repo,
            l.audit == audit,
            l.adoption_ar_resolver == adoption_ar_resolver,
            l.actor_resolver == actor_resolver,
    {
        TemplateAFireListener { repo, audit, adoption_ar_resolver, actor_resolver }
    }

    /// The lead assignment the listener reacts to: project, lead and event
    /// identifier of a `HasLeadEdgeCreated` event; `None` for any other.
    pub fn trigger(&self, event: &DomainEvent) -> (t: Option<(ProjectId, AgentId, AuditEventId)>)
        ensures
            t == (match *event {
                DomainEvent::HasLeadEdgeCreated { project, lead, event_id, .. } => Some(
                    (project, lead, event_id),
                ),
                _ => None,
            }),
    {
        match event {
            DomainEvent::HasLeadEdgeCreated { project, lead, event_id, .. } => Some(
                (*project, *lead, *event_id),
            ),
            _ => None,
        }
    }
}

/// Fires the Template C manager grant each time an agent becomes another's
/// manager. Holds the repository and audit handles, the resolver of the
/// org's Template C adoption request and the actor resolver.
pub struct TemplateCFireListener<R, E, A, C> {
    pub repo: R,
    pub audit: E,
    pub adoption_ar_resolver: A,
    pub actor_resolver: C,
}

impl<R, E, A, C> TemplateCFireListener<R, E, A, C> {
    pub fn new(repo: R, audit: E, adoption_ar_resolver: A, actor_resolver: C) -> (l: Self)
        ensures
            l.repo == repo,
            l.audit == audit,
            l.adoption_ar_resolver == adoption_ar_resolver,
            l.actor_resolver == actor_resolver,
    {
        TemplateCFireListener { repo, audit, adoption_ar_resolver, actor_resolver }
    }

    /// The management edge the listener reacts to: org, manager,
    /// subordinate and event identifier of a `ManagesEdgeCreated` event;
    /// `None` for any other.
    pub fn trigger(&self, event: &DomainEvent) -> (t: Option<(OrgId, AgentId, AgentId, AuditEventId)>)
        ensures
            t == (match *event {
                DomainEvent::ManagesEdgeCreated { org_id, manager, subordinate, event_id, .. } => Some(
                    (org_id, manager, subordinate, event_id),
                ),
                _ => None,
            }),
    {
        match event {
            DomainEvent::ManagesEdgeCreated { org_id, manager, subordinate, event_id, .. } => Some(
                (*org_id, *manager, *subordinate, *event_id),
            ),
            _ => None,
        }
    }
}

/// Fires the Template D supervisor grant each time an agent becomes
/// another's supervisor within a project. Holds the repository and audit
/// handles, the resolver of the Template D adoption request of the
/// project's org and the actor resolver.
pub struct TemplateDFireListener<R, E, A, C> {
    pub repo: R,
    pub audit: E,
    pub adoption_ar_resolver: A,
    pub actor_resolver: C,
}

impl<R, E, A, C> TemplateDFireListener<R, E, A, C> {
    pub fn new(repo: R, audit: E, adoption_ar_resolver: A, actor_resolver: C) -> (l: Self)
        ensures
            l.repo == repo,
            l.audit == audit,
            l.adoption_ar_resolver == adoption_ar_resolver,
            l.actor_resolver == actor_resolver,
    {
        TemplateDFireListener { repo, audit, adoption_ar_resolver, actor_resolver }
    }

    /// The supervision edge the listener reacts to: project, supervisor,
    /// supervisee and event identifier of a `HasAgentSupervisorEdgeCreated`
    /// event; `None` for any other.
    pub fn trigger(&self, event: &DomainEvent) -> (t: Option<(ProjectId, AgentId, AgentId, AuditEventId)>)
        ensures
            t == (match *event {
                DomainEvent::HasAgentSupervisorEdgeCreated {
                    project_id,
                    supervisor,
                    supervisee,
                    event_id,
                    ..
                } => Some((project_id, supervisor, supervisee, event_id)),
                _ => None,
            }),
    {
        match event {
            DomainEvent::HasAgentSupervisorEdgeCreated {
                project_id,
                supervisor,
                supervisee,
                event_id,
                ..
            } => Some((*project_id, *supervisor, *supervisee, *event_id)),
            _ => None,
        }
    }
}

// ---------------------------------------------------------------------------
// Memory extraction
// ---------------------------------------------------------------------------

/// Mints one memory per naturally ended session of an LLM agent, bumps
/// that agent's extraction counters and advances the org's
/// memory-extraction system agent's runtime tile.
pub struct MemoryExtractionListener<R, E> {
    pub repo: R,
    pub audit: E,
}

impl<R, E> MemoryExtractionListener<R, E> {
    pub fn new(repo: R, audit: E) -> (l: Self)
        ensures
            l.repo == repo,
            l.audit == audit,
    {
        MemoryExtractionListener { repo, audit }
    }

    /// The session end the listener reacts to: session, working agent,
    /// end instant and event identifier of a `SessionEnded` event; `None`
    /// for any other (an aborted session reports `SessionAborted`).
    pub fn trigger(&self, event: &DomainEvent) -> (t: Option<(SessionId, AgentId, Timestamp, AuditEventId)>)
        ensures
            t == (match *event {
                DomainEvent::SessionEnded { session_id, agent_id, ended_at, event_id, .. } => Some(
                    (session_id, agent_id, ended_at, event_id),
                ),
                _ => None,
            }),
    {
        match event {
            DomainEvent::SessionEnded { session_id, agent_id, ended_at, event_id, .. } => Some(
                (*session_id, *agent_id, *ended_at, *event_id),
            ),
            _ => None,
        }
    }

    /// The org an extraction for the working agent is scoped to: its
    /// owning org when it is an LLM agent that has one; `None` (skip) for a
    /// human agent or an agent without an org.
    pub fn extraction_org(&self, working: &Agent) -> (org: Option<OrgId>)
        ensures
            org == (if working.kind == AgentKind::Llm { working.owning_org } else { None }),
    {
        match working.kind {
            AgentKind::Llm => working.owning_org,
            AgentKind::Human => None,
        }
    }

    /// A session in this state yields a memory: every state but `Aborted`.
    pub fn extracts_from(&self, state: SessionGovernanceState) -> (b: bool)
        ensures
            b == (state != SessionGovernanceState::Aborted),
    {
        !matches!(state, SessionGovernanceState::Aborted)
    }

    /// The agent is the org's memory-extraction system agent.
    pub fn is_extractor(&self, agent: &Agent) -> (b: bool)
        ensures
            b == (agent.display_name@ == MEMORY_EXTRACTION_SYSTEM_AGENT_DISPLAY_NAME@),
    {
        has_display_name(agent, MEMORY_EXTRACTION_SYSTEM_AGENT_DISPLAY_NAME)
    }

    /// The extractor may run: it is active and not archived. A disabled or
    /// archived extractor skips both the memory and its runtime tile.
    pub fn extractor_enabled(&self, extractor: &Agent) -> (b: bool)
        ensures
            b == (extractor.active && extractor.archived_at is None),
    {
        extractor.active && extractor.archived_at.is_none()
    }

    /// The memory extracted from `session` for its working agent: a fresh
    /// identifier, the tags [`memory_tags`] describes, created when the
    /// session ended.
    pub fn mint_memory(&self, working_agent: AgentId, session: &Session, ended_at: Timestamp) -> (m: Memory)
        ensures
            is_v4(m.id.0),
            m.owning_agent == working_agent,
            tag_texts(m.tags@) == memory_tags(*session),
            m.created_at == ended_at,
    {
        Memory {
            id: MemoryId::new(),
            owning_agent: working_agent,
            tags: build_memory_tags(session),
            created_at: ended_at,
        }
    }
}

/// What a memory extraction has learned and done so far, as the caller
/// records it between steps. `None` = not read or not attempted yet.
#[derive(Clone, Copy, Debug)]
pub struct ExtractionProgress {
    /// The org of the extraction: `Some(Some(org))` for an LLM working
    /// agent with an org; `Some(None)` when the agent row is missing, the
    /// read failed, or the agent is human or has no org.
    pub org: Option<Option<OrgId>>,
    /// Whether the session was read and yields a memory (`Some(false)`
    /// when it is missing, the read failed, or it was aborted).
    pub session_extractable: Option<bool>,
    /// The extraction system agent and whether it is enabled
    /// (`Some(None)` when none was found).
    pub extractor: Option<Option<(AgentId, bool)>>,
    /// Whether the memory write succeeded.
    pub memory_written: Option<bool>,
    /// Whether the working agent's identity row was found and rewritten.
    pub identity_updated: Option<bool>,
    pub memory_audited: bool,
    pub identity_audited: bool,
    pub tile_written: bool,
}

/// The next thing a memory extraction does.
#[derive(Clone, Copy, Debug, PartialEq, Eq, Structural)]
pub enum ExtractionAction {
    /// Read the working agent and record [`extraction_org`](MemoryExtractionListener::extraction_org) of it.
    ReadWorkingAgent,
    /// Read the session and record whether it is present and not aborted.
    ReadSession,
    /// Look up the org's memory-extraction system agent.
    ResolveExtractor(OrgId),
    /// Mint the memory ([`mint_memory`](MemoryExtractionListener::mint_memory)) and write it.
    WriteMemory,
    /// Read the working agent's identity; if found, apply
    /// [`record_extraction`] with the scope of the memory's tags, stamp
    /// `updated_at` with the session's end, and write it back.
    UpdateIdentity,
    /// Emit the memory-extracted audit event.
    EmitMemoryAudit,
    /// Emit the identity-updated audit event.
    EmitIdentityAudit,
    /// Write the extraction system agent's runtime tile.
    WriteTile(OrgId, AgentId),
    /// Nothing more to do.
    Finish,
}

/// The next step of a memory extraction, given its progress. Each failure
/// or miss before the memory is written ends the extraction; a failed
/// memory write ends it too. After a written memory, a missing or failed
/// identity update skips only the identity audit; the memory audit and
/// the runtime tile still follow.
pub open spec fn extraction_next(p: ExtractionProgress) -> ExtractionAction {
    match p.org {
        None => ExtractionAction::ReadWorkingAgent,
        Some(None) => ExtractionAction::Finish,
        Some(Some(org)) => match p.session_extractable {
            None => ExtractionAction::ReadSession,
            Some(false) => ExtractionAction::Finish,
            Some(true) => match p.extractor {
                None => ExtractionAction::ResolveExtractor(org),
                Some(None) => ExtractionAction::Finish,
                Some(Some((extractor, enabled))) => if !enabled {
                    ExtractionAction::Finish
                } else {
                    match p.memory_written {
                        None => ExtractionAction::WriteMemory,
                        Some(false) => ExtractionAction::Finish,
                        Some(true) => match p.identity_updated {
                            None => ExtractionAction::UpdateIdentity,
                            Some(updated) => if !p.memory_audited {
                                ExtractionAction::EmitMemoryAudit
                            } else if updated && !p.identity_audited {
                                ExtractionAction::EmitIdentityAudit
                            } else if !p.tile_written {
                                ExtractionAction::WriteTile(org, extractor)
                            } else {
                                ExtractionAction::Finish
                            },
                        },
                    }
                },
            },
        },
    }
}

/// A failed memory write ends the extraction: no identity update, audit or
/// runtime tile follows it.
pub proof fn law_failed_memory_write_stops_extraction(p: ExtractionProgress, org: OrgId, extractor: AgentId)
    requires
        p.org == Some(Some(org)),
        p.session_extractable == Some(true),
        p.extractor == Some(Some((extractor, true))),
        p.memory_written == Some(false),
    ensures
        extraction_next(p) == ExtractionAction::Finish,
{
}

/// A missing identity row skips only the identity audit: the memory audit
/// and the runtime tile are still owed.
pub proof fn law_missing_identity_skips_only_its_audit(p: ExtractionProgress, org: OrgId, extractor: AgentId)
    requires
        p.org == Some(Some(org)),
        p.session_extractable == Some(true),
        p.extractor == Some(Some((extractor, true))),
        p.memory_written == Some(true),
        p.identity_updated == Some(false),
    ensures
        !p.memory_audited ==> extraction_next(p) == ExtractionAction::EmitMemoryAudit,
        p.memory_audited && !p.tile_written ==> extraction_next(p) == ExtractionAction::WriteTile(org, extractor),
        extraction_next(p) != ExtractionAction::EmitIdentityAudit,
{
}

impl<R, E> MemoryExtractionListener<R, E> {
    /// The progress of an extraction that has not started.
    pub fn start_extraction(&self) -> (p: ExtractionProgress)
        ensures
            p == (ExtractionProgress {
                org: None,
                session_extractable: None,
                extractor: None,
                memory_written: None,
                identity_updated: None,
                memory_audited: false,
                identity_audited: false,
                tile_written: false,
            }),
    {
        ExtractionProgress {
            org: None,
            session_extractable: None,
            extractor: None,
            memory_written: None,
            identity_updated: None,
            memory_audited: false,
            identity_audited: false,
            tile_written: false,
        }
    }

    /// The next step of the extraction (see [`extraction_next`]).
    pub fn next_step(&self, p: &ExtractionProgress) -> (a: ExtractionAction)
        ensures
            a == extraction_next(*p),
    {
        match p.org {
            None => ExtractionAction::ReadWorkingAgent,
            Some(None) => ExtractionAction::Finish,
            Some(Some(org)) => match p.session_extractable {
                None => ExtractionAction::ReadSession,
                Some(false) => ExtractionAction::Finish,
                Some(true) => match p.extractor {
                    None => ExtractionAction::ResolveExtractor(org),
                    Some(None) => ExtractionAction::Finish,
                    Some(Some((extractor, enabled))) => if !enabled {
                        ExtractionAction::Finish
                    } else {
                        match p.memory_written {
                            None => ExtractionAction::WriteMemory,
                            Some(false) => ExtractionAction::Finish,
                            Some(true) => match p.identity_updated {
                                None => ExtractionAction::UpdateIdentity,
                                Some(updated) => if !p.memory_audited {
                                    ExtractionAction::EmitMemoryAudit
                                } else if updated && !p.identity_audited {
                                    ExtractionAction::EmitIdentityAudit
                                } else if !p.tile_written {
                                    ExtractionAction::WriteTile(org, extractor)
                                } else {
                                    ExtractionAction::Finish
                                },
                            },
                        }
                    },
                },
            },
        }
    }
}

// ---------------------------------------------------------------------------
// Agent catalog
// ---------------------------------------------------------------------------

/// The agent and instant an event gives the catalog listener: the agent a
/// lifecycle, edge or session event concerns (the lead, manager or
/// supervisor for edges), or the agent an override-tier blueprint belongs
/// to, and when it happened. `None` for the events that name no single
/// agent: aborted sessions, identity updates, memory extractions and
/// template-tier blueprint upserts.
pub open spec fn catalog_subject(event: DomainEvent) -> Option<(AgentId, Timestamp)> {
    match event {
        DomainEvent::AgentCreated { agent_id, at, .. } => Some((agent_id, at)),
        DomainEvent::AgentArchived { agent_id, at, .. } => Some((agent_id, at)),
        DomainEvent::UsesProfileEdgeChanged { agent_id, at, .. } => Some((agent_id, at)),
        DomainEvent::HasLeadEdgeCreated { lead, at, .. } => Some((lead, at)),
        DomainEvent::ManagesEdgeCreated { manager, at, .. } => Some((manager, at)),
        DomainEvent::HasAgentSupervisorEdgeCreated { supervisor, at, .. } => Some((supervisor, at)),
        DomainEvent::SessionStarted { agent_id, started_at, .. } => Some((agent_id, started_at)),
        DomainEvent::SessionEnded { agent_id, ended_at, .. } => Some((agent_id, ended_at)),
        DomainEvent::BlueprintUpserted { agent_id: Some(a), at, .. } => Some((a, at)),
        _ => None,
    }
}

/// The agents whose catalog rows an event refreshes, each with the
/// event's instant: the event's single subject when it names one; for a
/// template-tier blueprint upsert, every agent whose profile uses the
/// blueprint (`blueprint_users`, as read); none otherwise.
pub open spec fn catalog_targets(event: DomainEvent, blueprint_users: Seq<AgentId>) -> Seq<
    (AgentId, Timestamp),
> {
    match catalog_subject(event) {
        Some(subject) => seq![subject],
        None => match event {
            DomainEvent::BlueprintUpserted { at, .. } => blueprint_users.map_values(
                |a: AgentId| (a, at),
            ),
            _ => Seq::empty(),
        },
    }
}

/// The event refreshes the cached blueprint snapshot: a profile-edge
/// change or a blueprint upsert.
pub open spec fn refreshes_snapshot(event: DomainEvent) -> bool {
    event is UsesProfileEdgeChanged || event is BlueprintUpserted
}

/// The agent and instant an event gives the catalog listener (see
/// [`catalog_subject`]).
pub fn agent_id_and_timestamp_for(event: &DomainEvent) -> (r: Option<(AgentId, Timestamp)>)
    ensures
        r == catalog_subject(*event),
{
    match event {
        DomainEvent::AgentCreated { agent_id, at, .. } => Some((*agent_id, *at)),
        DomainEvent::AgentArchived { agent_id, at, .. } => Some((*agent_id, *at)),
        DomainEvent::UsesProfileEdgeChanged { agent_id, at, .. } => Some((*agent_id, *at)),
        DomainEvent::HasLeadEdgeCreated { lead, at, .. } => Some((*lead, *at)),
        DomainEvent::ManagesEdgeCreated { manager, at, .. } => Some((*manager, *at)),
        DomainEvent::HasAgentSupervisorEdgeCreated { supervisor, at, .. } => Some(
            (*supervisor, *at),
        ),
        DomainEvent::SessionStarted { agent_id, started_at, .. } => Some((*agent_id, *started_at)),
        DomainEvent::SessionEnded { agent_id, ended_at, .. } => Some((*agent_id, *ended_at)),
        DomainEvent::SessionAborted { .. } => None,
        DomainEvent::IdentityUpdated { .. } => None,
        DomainEvent::MemoryExtracted { .. } => None,
        DomainEvent::BlueprintUpserted { agent_id, at, .. } => match agent_id {
            Some(a) => Some((*a, *at)),
            None => None,
        },
    }
}

/// The event moves an agent's last-seen instant: a session start or end.
pub open spec fn touches_last_seen(event: DomainEvent) -> bool {
    event is SessionStarted || event is SessionEnded
}

/// The catalog row an event leaves for `agent` in `org`, given the row
/// already there (if any) and, for a profile-edge change or a blueprint
/// upsert, the blueprint snapshot just read. The row belongs to the
/// event's subject when it names one, else to `agent`.
pub open spec fn catalog_entry_is(
    e: AgentCatalogEntry,
    event: DomainEvent,
    agent: Agent,
    org: OrgId,
    existing: Option<AgentCatalogEntry>,
    fresh_snapshot: Option<Option<serde_json::Value>>,
    event_at: Timestamp,
) -> bool {
    &&& e.agent_id == (match catalog_subject(event) {
        Some(subject) => subject.0,
        None => agent.id,
    })
    &&& e.owning_org == org
    &&& e.display_name@ == agent.display_name@
    &&& e.kind == agent.kind
    &&& (match agent.role {
        Some(r) => e.role is Some && e.role->0@ == r.wire(),
        None => e.role is None,
    })
    &&& e.active == (agent.active && agent.archived_at is None)
    &&& e.profile_snapshot == (if refreshes_snapshot(event) && fresh_snapshot is Some {
        fresh_snapshot->0
    } else {
        match existing {
            Some(x) => x.profile_snapshot,
            None => None,
        }
    })
    &&& e.last_seen_at == (if touches_last_seen(event) {
        event_at
    } else {
        match existing {
            Some(x) => x.last_seen_at,
            None => event_at,
        }
    })
    &&& e.updated_at == event_at
    &&& (match existing {
        Some(x) => e.id == x.id,
        None => is_v4(e.id.0),
    })
    &&& tag_texts(e.tags@) == (match existing {
        Some(x) => if x.tags@.len() > 0 {
            tag_texts(x.tags@)
        } else {
            reserved_tags("agent_catalog_entry"@, uuid_text(e.id.0))
        },
        None => reserved_tags("agent_catalog_entry"@, uuid_text(e.id.0)),
    })
}

/// A catalog row keeps its identity: refreshing a row, whatever the event
/// and whatever the agent now looks like, keeps the identifier and the
/// tags the row was created with.
pub proof fn law_catalog_refresh_keeps_identity(
    first: AgentCatalogEntry,
    first_event: DomainEvent,
    first_agent: Agent,
    first_snapshot: Option<Option<serde_json::Value>>,
    first_at: Timestamp,
    next: AgentCatalogEntry,
    next_event: DomainEvent,
    next_agent: Agent,
    next_snapshot: Option<Option<serde_json::Value>>,
    next_at: Timestamp,
    org: OrgId,
)
    requires
        catalog_entry_is(first, first_event, first_agent, org, None, first_snapshot, first_at),
        catalog_entry_is(next, next_event, next_agent, org, Some(first), next_snapshot, next_at),
    ensures
        next.id == first.id,
        tag_texts(next.tags@) == tag_texts(first.tags@),
        tag_texts(first.tags@) == reserved_tags("agent_catalog_entry"@, uuid_text(first.id.0)),
{
    assert(tag_texts(first.tags@).len() == 2);
    assert(first.tags@.len() == 2);
}

/// Archiving wins over the active flag: the catalog lists an agent as
/// active exactly when it is active and not archived, on every event.
pub proof fn law_catalog_archive_wins(
    e: AgentCatalogEntry,
    event: DomainEvent,
    agent: Agent,
    org: OrgId,
    existing: Option<AgentCatalogEntry>,
    fresh_snapshot: Option<Option<serde_json::Value>>,
    event_at: Timestamp,
)
    requires
        catalog_entry_is(e, event, agent, org, existing, fresh_snapshot, event_at),
    ensures
        agent.archived_at is Some ==> !e.active,
        !agent.active ==> !e.active,
        e.active ==> agent.active && agent.archived_at is None,
{
}

/// The JSON snapshot of a profile's blueprint that the catalog caches.
///
/// What `serde_json::to_value` gives for a phi-core `AgentProfile` (serde's
/// derived `Serialize`), with a failure as `None`.
pub uninterp spec fn blueprint_json_of(blueprint: phi_core::agents::profile::AgentProfile) -> Option<
    serde_json::Value,
>;

/// `serde_json::to_value(&profile.blueprint).ok()`. The serialisation
/// depends on the blueprint alone; the claim is that the result is the one
/// [`blueprint_json_of`] names for it.
#[verifier::external_body]
fn blueprint_json(profile: &AgentProfile) -> (r: Option<serde_json::Value>)
    ensures
        r == blueprint_json_of(profile.blueprint),
{
    serde_json::to_value(&profile.blueprint).ok()
}

/// What one catalog refresh (of one target agent) has learned and done so
/// far, as the caller records it between steps.
#[derive(Clone, Copy, Debug)]
pub struct CatalogProgress {
    /// The target agent's org (`Some(None)` when the agent row is missing,
    /// its read failed, or it has no org).
    pub org: Option<Option<OrgId>>,
    /// The existing catalog row has been read.
    pub existing_read: bool,
    /// The agent's profile has been read (only for snapshot-refreshing
    /// events).
    pub profile_read: bool,
    /// Whether the row write succeeded.
    pub entry_written: Option<bool>,
    /// The org's catalog system agent (`Some(None)` when none resolves).
    pub catalog_agent: Option<Option<AgentId>>,
    pub tile_written: bool,
    pub audited: bool,
}

/// The next thing a catalog refresh does.
#[derive(Clone, Copy, Debug, PartialEq, Eq, Structural)]
pub enum CatalogAction {
    /// Read the target agent and record its org.
    ReadAgent,
    /// Read the target's existing catalog row.
    ReadExistingEntry,
    /// Read the target's profile for a fresh blueprint snapshot.
    ReadProfile,
    /// Build the row ([`refresh_entry`](AgentCatalogListener::refresh_entry)) and write it.
    WriteEntry(OrgId),
    /// Look up the org's catalog system agent.
    ResolveCatalogAgent(OrgId),
    /// Write the catalog system agent's runtime tile.
    WriteTile(OrgId, AgentId),
    /// Emit the catalog-refreshed audit event.
    EmitAudit(OrgId, AgentId),
    /// Nothing more to do.
    Finish,
}

/// The next step of a refresh: a missing agent or org ends it; the
/// existing row (and, on a snapshot-refreshing event, the profile) is read
/// before the row is written; a failed row write ends it, skipping the
/// tile and the audit; an unresolved catalog agent skips both too; the
/// audit follows the tile only in `Debug` mode.
pub open spec fn catalog_next(p: CatalogProgress, refreshes: bool, debug: bool) -> CatalogAction {
    match p.org {
        None => CatalogAction::ReadAgent,
        Some(None) => CatalogAction::Finish,
        Some(Some(org)) => if !p.existing_read {
            CatalogAction::ReadExistingEntry
        } else if refreshes && !p.profile_read {
            CatalogAction::ReadProfile
        } else {
            match p.entry_written {
                None => CatalogAction::WriteEntry(org),
                Some(false) => CatalogAction::Finish,
                Some(true) => match p.catalog_agent {
                    None => CatalogAction::ResolveCatalogAgent(org),
                    Some(None) => CatalogAction::Finish,
                    Some(Some(sys)) => if !p.tile_written {
                        CatalogAction::WriteTile(org, sys)
                    } else if debug && !p.audited {
                        CatalogAction::EmitAudit(org, sys)
                    } else {
                        CatalogAction::Finish
                    },
                },
            }
        },
    }
}

/// A failed catalog write skips the runtime tile and the audit.
pub proof fn law_failed_catalog_write_skips_tile_and_audit(
    p: CatalogProgress,
    refreshes: bool,
    debug: bool,
    org: OrgId,
)
    requires
        p.org == Some(Some(org)),
        p.existing_read,
        !refreshes || p.profile_read,
        p.entry_written == Some(false),
    ensures
        catalog_next(p, refreshes, debug) == CatalogAction::Finish,
{
}

/// Refreshes an org's catalog of agents on lifecycle, edge and session
/// events, and advances the catalog system agent's runtime tile; in
/// `Debug` audit mode it also audits each refresh. It never changes an
/// agent's lifecycle.
pub struct AgentCatalogListener<R, E> {
    pub repo: R,
    pub audit: E,
    pub audit_mode: CatalogAuditMode,
}

impl<R, E> AgentCatalogListener<R, E> {
    pub fn new(repo: R, audit: E, audit_mode: CatalogAuditMode) -> (l: Self)
        ensures
            l.repo == repo,
            l.audit == audit,
            l.audit_mode == audit_mode,
    {
        AgentCatalogListener { repo, audit, audit_mode }
    }

    /// The agent is the org's agent-catalog system agent.
    pub fn is_catalog_agent(&self, agent: &Agent) -> (b: bool)
        ensures
            b == (agent.display_name@ == AGENT_CATALOG_SYSTEM_AGENT_DISPLAY_NAME@),
    {
        has_display_name(agent, AGENT_CATALOG_SYSTEM_AGENT_DISPLAY_NAME)
    }

    /// The listener audits its refreshes.
    pub fn emits_audit(&self) -> (b: bool)
        ensures
            b == (self.audit_mode == CatalogAuditMode::Debug),
    {
        matches!(self.audit_mode, CatalogAuditMode::Debug)
    }

    /// The progress of a refresh that has not started.
    pub fn start_refresh(&self) -> (p: CatalogProgress)
        ensures
            p.org is None,
            !p.existing_read,
            !p.profile_read,
            p.entry_written is None,
            p.catalog_agent is None,
            !p.tile_written,
            !p.audited,
    {
        CatalogProgress {
            org: None,
            existing_read: false,
            profile_read: false,
            entry_written: None,
            catalog_agent: None,
            tile_written: false,
            audited: false,
        }
    }

    /// The next step of a refresh on `event` (see [`catalog_next`]).
    pub fn next_step(&self, event: &DomainEvent, p: &CatalogProgress) -> (a: CatalogAction)
        ensures
            a == catalog_next(*p, refreshes_snapshot(*event), self.audit_mode == CatalogAuditMode::Debug),
    {
        let refreshes = matches!(event, DomainEvent::UsesProfileEdgeChanged { .. })
            || matches!(event, DomainEvent::BlueprintUpserted { .. });
        let debug = matches!(self.audit_mode, CatalogAuditMode::Debug);
        match p.org {
            None => CatalogAction::ReadAgent,
            Some(None) => CatalogAction::Finish,
            Some(Some(org)) => if !p.existing_read {
                CatalogAction::ReadExistingEntry
            } else if refreshes && !p.profile_read {
                CatalogAction::ReadProfile
            } else {
                match p.entry_written {
                    None => CatalogAction::WriteEntry(org),
                    Some(false) => CatalogAction::Finish,
                    Some(true) => match p.catalog_agent {
                        None => CatalogAction::ResolveCatalogAgent(org),
                        Some(None) => CatalogAction::Finish,
                        Some(Some(sys)) => if !p.tile_written {
                            CatalogAction::WriteTile(org, sys)
                        } else if debug && !p.audited {
                            CatalogAction::EmitAudit(org, sys)
                        } else {
                            CatalogAction::Finish
                        },
                    },
                }
            },
        }
    }

    /// The agents whose rows `event` refreshes (see [`catalog_targets`]);
    /// `blueprint_users` are the agents whose profile uses the blueprint of
    /// a template-tier upsert, as read.
    pub fn refresh_targets(&self, event: &DomainEvent, blueprint_users: &[AgentId]) -> (t: Vec<
        (AgentId, Timestamp),
    >)
        ensures
            t@ == catalog_targets(*event, blueprint_users@),
    {
        let mut t: Vec<(AgentId, Timestamp)> = Vec::new();
        match agent_id_and_timestamp_for(event) {
            Some(subject) => {
                t.push(subject);
                proof {
                    assert(t@ =~= seq![subject]);
                }
            },
            None => match event {
                DomainEvent::BlueprintUpserted { at, .. } => {
                    let at = *at;
                    let mut i: usize = 0;
                    while i < blueprint_users.len()
                        invariant
                            i <= blueprint_users.len(),
                            t@ == blueprint_users@.take(i as int).map_values(
                                |a: AgentId| (a, at),
                            ),
                        decreases blueprint_users.len() - i,
                    {
                        t.push((blueprint_users[i], at));
                        i = i + 1;
                        proof {
                            assert(t@ =~= blueprint_users@.take(i as int).map_values(
                                |a: AgentId| (a, at),
                            ));
                        }
                    }
                    proof {
                        assert(blueprint_users@.take(i as int) =~= blueprint_users@);
                    }
                },
                _ => {
                    proof {
                        assert(t@ =~= Seq::<(AgentId, Timestamp)>::empty());
                    }
                },
            },
        }
        t
    }

    /// The catalog row to upsert for `agent` (owned by `org`) on `event`:
    /// the row belongs to the event's subject when it names one, else to
    /// `agent`; it takes the agent's name, kind and role; active only while the agent is
    /// active and not archived (an archive wins over the flag); the
    /// blueprint snapshot refreshed on a profile-edge change or a blueprint
    /// upsert when one was read, kept otherwise; the last-seen instant moved by session
    /// starts and ends, kept otherwise (or `event_at` for a new row); the
    /// existing row's identifier and non-empty tags, or a fresh identifier
    /// and its two reserved tags.
    pub fn plan_entry(
        &self,
        event: &DomainEvent,
        agent: &Agent,
        org: OrgId,
        existing: Option<&AgentCatalogEntry>,
        fresh_snapshot: Option<Option<serde_json::Value>>,
        event_at: Timestamp,
    ) -> (e: AgentCatalogEntry)
        ensures
            catalog_entry_is(
                e,
                *event,
                *agent,
                org,
                match existing {
                    Some(x) => Some(*x),
                    None => None,
                },
                fresh_snapshot,
                event_at,
            ),
    {
        let active = agent.active && agent.archived_at.is_none();
        let refresh = (matches!(event, DomainEvent::UsesProfileEdgeChanged { .. })
            || matches!(event, DomainEvent::BlueprintUpserted { .. })) && fresh_snapshot.is_some();
        let profile_snapshot = if refresh {
            match fresh_snapshot {
                Some(s) => s,
                None => None,
            }
        } else {
            match existing {
                Some(x) => match &x.profile_snapshot {
                    Some(v) => Some(v.clone()),
                    None => None,
                },
                None => None,
            }
        };
        let touches = matches!(event, DomainEvent::SessionStarted { .. })
            || matches!(event, DomainEvent::SessionEnded { .. });
        let last_seen_at = if touches {
            event_at
        } else {
            match existing {
                Some(x) => x.last_seen_at,
                None => event_at,
            }
        };
        let id = match existing {
            Some(x) => x.id,
            None => AgentCatalogEntryId::new(),
        };
        let tags = match existing {
            Some(x) => if x.tags.len() > 0 {
                copy_tags(&x.tags)
            } else {
                reserved_tag_vec("agent_catalog_entry", id.to_string())
            },
            None => reserved_tag_vec("agent_catalog_entry", id.to_string()),
        };
        let role = match agent.role {
            Some(r) => Some(String::from_str(r.as_str())),
            None => None,
        };
        let agent_id = match agent_id_and_timestamp_for(event) {
            Some(subject) => subject.0,
            None => agent.id,
        };
        AgentCatalogEntry {
            id,
            agent_id,
            owning_org: org,
            display_name: agent.display_name.clone(),
            kind: agent.kind,
            role,
            active,
            profile_snapshot,
            last_seen_at,
            updated_at: event_at,
            tags,
        }
    }

    /// [`plan_entry`](Self::plan_entry) with the blueprint snapshot taken
    /// from `fresh_profile`, the profile read for a profile-edge change or
    /// a blueprint upsert (`None` when none was read): the JSON of its
    /// blueprint.
    pub fn refresh_entry(
        &self,
        event: &DomainEvent,
        agent: &Agent,
        org: OrgId,
        existing: Option<&AgentCatalogEntry>,
        fresh_profile: Option<&AgentProfile>,
        event_at: Timestamp,
    ) -> (e: AgentCatalogEntry)
        ensures
            catalog_entry_is(
                e,
                *event,
                *agent,
                org,
                match existing {
                    Some(x) => Some(*x),
                    None => None,
                },
                match fresh_profile {
                    Some(p) => Some(blueprint_json_of(p.blueprint)),
                    None => None,
                },
                event_at,
            ),
    {
        let fresh_snapshot = match fresh_profile {
            Some(p) => Some(blueprint_json(p)),
            None => None,
        };
        self.plan_entry(event, agent, org, existing, fresh_snapshot, event_at)
    }
}

/// A session that yields no memory (missing, unreadable or aborted) ends
/// the extraction: once the working agent's org is known, the next step is
/// `Finish`, and in no progress does an extractor lookup, memory write,
/// identity update, audit or runtime tile follow it.
pub proof fn law_unextractable_session_ends_extraction(p: ExtractionProgress)
    requires
        p.session_extractable == Some(false),
    ensures
        p.org is Some ==> extraction_next(p) == ExtractionAction::Finish,
        extraction_next(p) == ExtractionAction::Finish || extraction_next(p)
            == ExtractionAction::ReadWorkingAgent,
        !(extraction_next(p) is ResolveExtractor),
        !(extraction_next(p) is WriteMemory),
        !(extraction_next(p) is UpdateIdentity),
        !(extraction_next(p) is EmitMemoryAudit),
        !(extraction_next(p) is EmitIdentityAudit),
        !(extraction_next(p) is WriteTile),
{
}

/// A memory is written only for a session read as extractable, by an
/// enabled extractor, in the working agent's org.
pub proof fn law_memory_written_only_for_extractable_sessions(p: ExtractionProgress)
    requires
        extraction_next(p) == ExtractionAction::WriteMemory,
    ensures
        p.org matches Some(Some(_)),
        p.session_extractable == Some(true),
        p.extractor matches Some(Some((_, enabled))) && enabled,
{
}

/// Both session lifecycle events move the catalog's last-seen instant to
/// the event's instant, whatever the existing row held; every other event
/// keeps the existing row's last-seen instant.
pub proof fn law_session_events_touch_last_seen(
    e: AgentCatalogEntry,
    event: DomainEvent,
    agent: Agent,
    org: OrgId,
    existing: Option<AgentCatalogEntry>,
    fresh_snapshot: Option<Option<serde_json::Value>>,
    event_at: Timestamp,
)
    requires
        catalog_entry_is(e, event, agent, org, existing, fresh_snapshot, event_at),
    ensures
        event is SessionStarted ==> e.last_seen_at == event_at,
        event is SessionEnded ==> e.last_seen_at == event_at,
        !(event is SessionStarted) && !(event is SessionEnded) && existing is Some
            ==> e.last_seen_at == existing->0.last_seen_at,
{
}

/// No silent downgrade: with both the org row and the request row read,
/// the resolved class is at least as strict as each of the two classes, is
/// one of them, and names the candidate it came from. Without the request
/// row the org default is kept; without the org row the class is `Silent`,
/// attributed to the org default.
pub proof fn law_resolved_class_never_downgrades(o: AuditClass, a: AuditClass, r: Option<AuditClass>)
    ensures
        resolved_audit_class(Some(o), Some(a)).0.rank() >= o.rank(),
        resolved_audit_class(Some(o), Some(a)).0.rank() >= a.rank(),
        resolved_audit_class(Some(o), Some(a)).0 == o || resolved_audit_class(Some(o), Some(a)).0
            == a,
        resolved_audit_class(Some(o), Some(a)).1 == AuditClassSource::TemplateAr
            ==> resolved_audit_class(Some(o), Some(a)).0 == a,
        resolved_audit_class(Some(o), Some(a)).1 == AuditClassSource::OrgDefault
            ==> resolved_audit_class(Some(o), Some(a)).0 == o,
        resolved_audit_class(Some(o), None).0 == o,
        resolved_audit_class(None, r) == (AuditClass::Silent, AuditClassSource::OrgDefault),
{
}

/// The class a fire's grants carry never falls below either class it read.
pub proof fn law_fire_class_never_downgrades(p: FireProgress, o: AuditClass, a: AuditClass)
    requires
        p.org_class == Some(Some(o)),
        p.request_class == Some(Some(a)),
    ensures
        class_of_fire(p) matches Some((c, _)) && c.rank() >= o.rank() && c.rank() >= a.rank(),
{
}

/// The scope is `Public` exactly when a tag at some position reads
/// `#public`; where that tag stands, and what other tags there are, does
/// not matter.
pub proof fn law_public_anywhere_makes_scope_public(tags: Seq<Seq<char>>, i: int, extra: Seq<char>)
    ensures
        0 <= i < tags.len() && tags[i] == "#public"@ ==> scope_of(tags) == ExtractionScope::Public,
        scope_of(tags) == ExtractionScope::Public ==> exists|k: int|
            0 <= k < tags.len() && tags[k] == "#public"@,
        scope_of(tags.push("#public"@)) == ExtractionScope::Public,
        scope_of(seq!["#public"@].add(tags)) == ExtractionScope::Public,
        extra != "#public"@ ==> scope_of(tags.push(extra)) == scope_of(tags),
        extra != "#public"@ ==> scope_of(seq![extra].add(tags)) == scope_of(tags),
{
    let p = tags.push("#public"@);
    assert(p[tags.len() as int] == "#public"@);
    let q = seq!["#public"@].add(tags);
    assert(q[0] == "#public"@);
    if 0 <= i < tags.len() && tags[i] == "#public"@ {
        assert(tags.contains("#public"@));
    }
    if extra != "#public"@ {
        let r = tags.push(extra);
        if tags.contains("#public"@) {
            let k = choose|k: int| 0 <= k < tags.len() && tags[k] == "#public"@;
            assert(r[k] == "#public"@);
        }
        if r.contains("#public"@) {
            let k = choose|k: int| 0 <= k < r.len() && r[k] == "#public"@;
            assert(tags[k] == "#public"@);
        }
        let u = seq![extra].add(tags);
        if tags.contains("#public"@) {
            let k = choose|k: int| 0 <= k < tags.len() && tags[k] == "#public"@;
            assert(u[k + 1] == "#public"@);
        }
        if u.contains("#public"@) {
            let k = choose|k: int| 0 <= k < u.len() && u[k] == "#public"@;
            assert(tags[k - 1] == "#public"@);
        }
    }
}

} // verus!
