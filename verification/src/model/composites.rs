//! The eight **Composite Classes** of the resource ontology.
//!
//! A composite is a named bundle of fundamentals. Every composite
//! implicitly pulls in the `tag` fundamental so that its
//! `#kind:{kind}` identity tag is queryable at Permission Check time.
//!
//! Tag conventions: every composite instance carries a type-identity tag
//! `#kind:{kind}` and a self-identity tag `{kind}:{instance_id}`, both
//! added by the runtime at creation time.

use vstd::prelude::*;
use vstd::string::StringExecFns;

use super::fundamentals::Fundamental;

verus! {

/// Every named bundle of fundamentals the v0 ontology defines.
#[derive(Clone, Copy, Debug, PartialEq, Eq, Hash, Structural)]
pub enum Composite {
    /// MCP servers, webhooks, email APIs, Slack, etc.
    ExternalServiceObject,
    /// LLM endpoints that also consume token budget.
    ModelRuntimeObject,
    /// Managing the policy store (the catalogue, templates, etc.).
    ControlPlaneObject,
    /// An Agent's persistent knowledge store.
    MemoryObject,
    /// One logical task or conversation (a Session).
    SessionObject,
    /// First-class workflow node that mediates Grant creation.
    AuthRequestObject,
    /// An Agent's received-messages queue.
    InboxObject,
    /// An Agent's sent-messages log.
    OutboxObject,
}

/// The type-identity tag of an instance of kind `kind`.
pub open spec fn type_tag(kind: Seq<char>) -> Seq<char> {
    "#kind:"@ + kind
}

/// The self-identity tag of instance `instance_id` of kind `kind`.
pub open spec fn instance_tag(kind: Seq<char>, instance_id: Seq<char>) -> Seq<char> {
    kind + ":"@ + instance_id
}

/// The two runtime-added tags of an instance, type tag first.
pub open spec fn reserved_tags(kind: Seq<char>, instance_id: Seq<char>) -> Seq<Seq<char>> {
    seq![type_tag(kind), instance_tag(kind, instance_id)]
}

/// Build the pair of runtime-added tags for instance `instance_id` of
/// kind `kind`: `[ "#kind:{kind}", "{kind}:{instance_id}" ]`.
pub fn auto_tags_for(kind: &str, instance_id: &str) -> (tags: [String; 2])
    ensures
        tags@.map_values(|t: String| t@) == reserved_tags(kind@, instance_id@),
{
    let type_tag = String::from_str("#kind:").concat(kind);
    let instance_tag = String::from_str(kind).concat(":").concat(instance_id);
    let tags = [type_tag, instance_tag];
    proof {
        assert(tags@.map_values(|t: String| t@) =~= reserved_tags(kind@, instance_id@));
    }
    tags
}

impl Composite {
    /// Every variant in a stable order.
    pub const ALL: [Composite; 8] = [
        Composite::ExternalServiceObject,
        Composite::ModelRuntimeObject,
        Composite::ControlPlaneObject,
        Composite::MemoryObject,
        Composite::SessionObject,
        Composite::AuthRequestObject,
        Composite::InboxObject,
        Composite::OutboxObject,
    ];

    /// Canonical class name (with the `_object` suffix).
    pub open spec fn wire(self) -> Seq<char> {
        match self {
            Composite::ExternalServiceObject => "external_service_object"@,
            Composite::ModelRuntimeObject => "model_runtime_object"@,
            Composite::ControlPlaneObject => "control_plane_object"@,
            Composite::MemoryObject => "memory_object"@,
            Composite::SessionObject => "session_object"@,
            Composite::AuthRequestObject => "auth_request_object"@,
            Composite::InboxObject => "inbox_object"@,
            Composite::OutboxObject => "outbox_object"@,
        }
    }

    /// Short kind name used in tags.
    pub open spec fn short_name(self) -> Seq<char> {
        match self {
            Composite::ExternalServiceObject => "external_service"@,
            Composite::ModelRuntimeObject => "model_runtime"@,
            Composite::ControlPlaneObject => "control_plane"@,
            Composite::MemoryObject => "memory"@,
            Composite::SessionObject => "session"@,
            Composite::AuthRequestObject => "auth_request"@,
            Composite::InboxObject => "inbox"@,
            Composite::OutboxObject => "outbox"@,
        }
    }

    /// The `#kind:` tag as it is written out.
    pub open spec fn kind_tag_text(self) -> Seq<char> {
        match self {
            Composite::ExternalServiceObject => "#kind:external_service"@,
            Composite::ModelRuntimeObject => "#kind:model_runtime"@,
            Composite::ControlPlaneObject => "#kind:control_plane"@,
            Composite::MemoryObject => "#kind:memory"@,
            Composite::SessionObject => "#kind:session"@,
            Composite::AuthRequestObject => "#kind:auth_request"@,
            Composite::InboxObject => "#kind:inbox"@,
            Composite::OutboxObject => "#kind:outbox"@,
        }
    }

    /// The fundamentals this composite expands to at Permission Check time.
    pub open spec fn expansion(self) -> Seq<Fundamental> {
        match self {
            Composite::ExternalServiceObject => seq![
                Fundamental::NetworkEndpoint,
                Fundamental::SecretCredential,
                Fundamental::Tag,
            ],
            Composite::ModelRuntimeObject => seq![
                Fundamental::NetworkEndpoint,
                Fundamental::SecretCredential,
                Fundamental::EconomicResource,
                Fundamental::Tag,
            ],
            Composite::ControlPlaneObject => seq![
                Fundamental::DataObject,
                Fundamental::IdentityPrincipal,
                Fundamental::Tag,
            ],
            _ => seq![Fundamental::DataObject, Fundamental::Tag],
        }
    }

    /// The canonical class name (e.g. `memory_object`).
    pub fn as_str(&self) -> (s: &'static str)
        ensures
            s@ == self.wire(),
    {
        match self {
            Composite::ExternalServiceObject => "external_service_object",
            Composite::ModelRuntimeObject => "model_runtime_object",
            Composite::ControlPlaneObject => "control_plane_object",
            Composite::MemoryObject => "memory_object",
            Composite::SessionObject => "session_object",
            Composite::AuthRequestObject => "auth_request_object",
            Composite::InboxObject => "inbox_object",
            Composite::OutboxObject => "outbox_object",
        }
    }

    /// The `#kind:` tag every instance of this composite implicitly carries.
    pub fn kind_tag(&self) -> (s: &'static str)
        ensures
            s@ == self.kind_tag_text(),
            s@ == type_tag(self.short_name()),
    {
        proof {
            lemma_kind_tag_is_type_tag(*self);
        }
        match self {
            Composite::ExternalServiceObject => "#kind:external_service",
            Composite::ModelRuntimeObject => "#kind:model_runtime",
            Composite::ControlPlaneObject => "#kind:control_plane",
            Composite::MemoryObject => "#kind:memory",
            Composite::SessionObject => "#kind:session",
            Composite::AuthRequestObject => "#kind:auth_request",
            Composite::InboxObject => "#kind:inbox",
            Composite::OutboxObject => "#kind:outbox",
        }
    }

    /// Short kind name — the `{kind}` of `#kind:{kind}` and of
    /// `{kind}:{instance_id}` (e.g. `MemoryObject → "memory"`).
    pub fn kind_name(&self) -> (s: &'static str)
        ensures
            s@ == self.short_name(),
            self.kind_tag_text() == type_tag(s@),
    {
        proof {
            lemma_kind_tag_is_type_tag(*self);
        }
        match self {
            Composite::ExternalServiceObject => "external_service",
            Composite::ModelRuntimeObject => "model_runtime",
            Composite::ControlPlaneObject => "control_plane",
            Composite::MemoryObject => "memory",
            Composite::SessionObject => "session",
            Composite::AuthRequestObject => "auth_request",
            Composite::InboxObject => "inbox",
            Composite::OutboxObject => "outbox",
        }
    }

    /// The pair of runtime-added tags for a new instance of this
    /// composite: `[ "#kind:{kind}", "{kind}:{instance_id}" ]`.
    pub fn auto_tags(&self, instance_id: &str) -> (tags: [String; 2])
        ensures
            tags@.map_values(|t: String| t@) == reserved_tags(self.short_name(), instance_id@),
    {
        auto_tags_for(self.kind_name(), instance_id)
    }

    /// Which fundamentals this composite expands to. `Tag` is in every
    /// list.
    pub fn constituents(&self) -> (fs: &'static [Fundamental])
        ensures
            fs@ == self.expansion(),
    {
        match self {
            Composite::ExternalServiceObject => {
                let fs: &'static [Fundamental] = &[
                    Fundamental::NetworkEndpoint,
                    Fundamental::SecretCredential,
                    Fundamental::Tag,
                ];
                proof { assert(fs@ =~= self.expansion()); }
                fs
            },
            Composite::ModelRuntimeObject => {
                let fs: &'static [Fundamental] = &[
                    Fundamental::NetworkEndpoint,
                    Fundamental::SecretCredential,
                    Fundamental::EconomicResource,
                    Fundamental::Tag,
                ];
                proof { assert(fs@ =~= self.expansion()); }
                fs
            },
            Composite::ControlPlaneObject => {
                let fs: &'static [Fundamental] = &[
                    Fundamental::DataObject,
                    Fundamental::IdentityPrincipal,
                    Fundamental::Tag,
                ];
                proof { assert(fs@ =~= self.expansion()); }
                fs
            },
            _ => {
                let fs: &'static [Fundamental] = &[Fundamental::DataObject, Fundamental::Tag];
                proof { assert(fs@ =~= self.expansion()); }
                fs
            },
        }
    }
}

proof fn lemma_kind_tag_is_type_tag(c: Composite)
    ensures
        c.kind_tag_text() == type_tag(c.short_name()),
{
    reveal_strlit("#kind:");
    reveal_strlit("#kind:external_service");
    reveal_strlit("external_service");
    reveal_strlit("#kind:model_runtime");
    reveal_strlit("model_runtime");
    reveal_strlit("#kind:control_plane");
    reveal_strlit("control_plane");
    reveal_strlit("#kind:memory");
    reveal_strlit("memory");
    reveal_strlit("#kind:session");
    reveal_strlit("session");
    reveal_strlit("#kind:auth_request");
    reveal_strlit("auth_request");
    reveal_strlit("#kind:inbox");
    reveal_strlit("inbox");
    reveal_strlit("#kind:outbox");
    reveal_strlit("outbox");
    assert(c.kind_tag_text() =~= type_tag(c.short_name()));
}

/// The `#kind:` tag of a composite is `#kind:` followed by its short kind
/// name.
pub proof fn law_kind_tag_is_prefixed_kind_name(c: Composite)
    ensures
        c.kind_tag_text() == type_tag(c.short_name()),
{
    lemma_kind_tag_is_type_tag(c);
}

/// Every composite expands to a list that includes the `Tag` fundamental
/// (it carries the `#kind:` identity tag).
pub proof fn law_every_composite_includes_tag(c: Composite)
    ensures
        c.expansion().contains(Fundamental::Tag),
{
    assert(c.expansion()[c.expansion().len() - 1] == Fundamental::Tag);
}

/// Distinct composites have distinct class names, distinct short names
/// and therefore distinct `#kind:` tags.
pub proof fn law_composite_names_injective(a: Composite, b: Composite)
    ensures
        a != b ==> a.wire() != b.wire(),
        a != b ==> a.short_name() != b.short_name(),
        a != b ==> a.kind_tag_text() != b.kind_tag_text(),
{
    reveal_strlit("external_service_object");
    reveal_strlit("model_runtime_object");
    reveal_strlit("control_plane_object");
    reveal_strlit("memory_object");
    reveal_strlit("session_object");
    reveal_strlit("auth_request_object");
    reveal_strlit("inbox_object");
    reveal_strlit("outbox_object");
    reveal_strlit("external_service");
    reveal_strlit("model_runtime");
    reveal_strlit("control_plane");
    reveal_strlit("memory");
    reveal_strlit("session");
    reveal_strlit("auth_request");
    reveal_strlit("inbox");
    reveal_strlit("outbox");
    reveal_strlit("#kind:");
    lemma_kind_tag_is_type_tag(a);
    lemma_kind_tag_is_type_tag(b);
    if a != b {
        if a.wire() == b.wire() {
            assert(a.wire()[0] == b.wire()[0]);
            assert(a.wire()[1] == b.wire()[1]);
        }
        if a.short_name() == b.short_name() {
            assert(a.short_name()[0] == b.short_name()[0]);
            assert(a.short_name()[1] == b.short_name()[1]);
        }
        if a.kind_tag_text() == b.kind_tag_text() {
            assert(a.short_name() =~= a.kind_tag_text().skip(6));
            assert(b.short_name() =~= b.kind_tag_text().skip(6));
        }
    }
}

} // verus!
