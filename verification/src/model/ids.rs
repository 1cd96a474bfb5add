//! Strongly-typed identifiers for every entity in the graph model.
//!
//! Each identifier is a UUID held as its 128-bit big-endian value, so two
//! identifiers are equal exactly when their UUIDs are. Fresh identifiers
//! are random version-4 UUIDs; an identifier renders as the lowercase
//! hyphenated UUID text (`xxxxxxxx-xxxx-xxxx-xxxx-xxxxxxxxxxxx`).

use vstd::prelude::*;
use vstd::arithmetic::power2::pow2;

verus! {

/// Mask of the version nibble and the two variant bits of a UUID.
pub const UUID_V4_MASK: u128 = 0xF000_C000_0000_0000_0000u128;

/// Values of the masked bits in a random (version 4, RFC 4122 variant)
/// UUID.
pub const UUID_V4_BITS: u128 = 0x4000_8000_0000_0000_0000u128;

/// The UUID is a version-4, RFC 4122-variant UUID.
pub open spec fn is_v4(bits: u128) -> bool {
    bits & UUID_V4_MASK == UUID_V4_BITS
}

/// Lowercase hexadecimal digit of a nibble.
pub open spec fn hex_char(n: int) -> char {
    if n < 10 {
        (n + 48) as char
    } else {
        (n + 87) as char
    }
}

/// The `i`-th hexadecimal digit (from the most significant) of the
/// 128-bit value.
pub open spec fn nibble(bits: u128, i: int) -> int {
    (bits as int / pow2((4 * (31 - i)) as nat) as int) % 16
}

/// The digits `from..to` of the 32-digit hexadecimal rendering.
pub open spec fn hex_run(bits: u128, from: int, to: int) -> Seq<char> {
    Seq::new((to - from) as nat, |k: int| hex_char(nibble(bits, from + k)))
}

/// Lowercase hyphenated rendering of a UUID: groups of 8, 4, 4, 4 and 12
/// hexadecimal digits separated by `-`.
pub open spec fn uuid_text(bits: u128) -> Seq<char> {
    hex_run(bits, 0, 8) + seq!['-'] + hex_run(bits, 8, 12) + seq!['-'] + hex_run(bits, 12, 16)
        + seq!['-'] + hex_run(bits, 16, 20) + seq!['-'] + hex_run(bits, 20, 32)
}

/// `uuid::Uuid::new_v4`, as its 128-bit value.
///
/// The crate draws 128 random bits, then clears and sets the version
/// nibble to 4 and the variant bits to `10`; that is all this claims.
#[verifier::external_body]
fn fresh_v4_bits() -> (bits: u128)
    ensures
        is_v4(bits),
{
    uuid::Uuid::new_v4().as_u128()
}

/// `uuid::Uuid::from_u128(bits).to_string()`: the crate's `Display` goes
/// through `LowerHex` to the hyphenated form, which is the text that
/// [`uuid_text`] spells out.
#[verifier::external_body]
fn render_uuid(bits: u128) -> (s: String)
    ensures
        s@ == uuid_text(bits),
{
    uuid::Uuid::from_u128(bits).to_string()
}

/// Opaque identifier for any node in the graph.
#[derive(Clone, Copy, Debug, PartialEq, Eq, PartialOrd, Ord, Hash, Structural)]
pub struct NodeId(pub u128);

impl Default for NodeId {
    /// A fresh random identifier, as [`NodeId::new`] gives.
    fn default() -> (id: Self)
        ensures
            is_v4(id.0),
    {
        NodeId::new()
    }
}

impl NodeId {
    /// A fresh random identifier.
    pub fn new() -> (id: Self)
        ensures
            is_v4(id.0),
    {
        NodeId(fresh_v4_bits())
    }

    /// The identifier whose UUID has this 128-bit value.
    pub fn from_u128(bits: u128) -> (id: Self)
        ensures
            id.0 == bits,
    {
        NodeId(bits)
    }

    /// The 128-bit value of the identifier's UUID.
    pub fn as_u128(&self) -> (bits: u128)
        ensures
            bits == self.0,
    {
        self.0
    }

    /// The lowercase hyphenated UUID text.
    pub fn to_string(&self) -> (s: String)
        ensures
            s@ == uuid_text(self.0),
    {
        render_uuid(self.0)
    }
}

/// Opaque identifier for any edge in the graph.
#[derive(Clone, Copy, Debug, PartialEq, Eq, PartialOrd, Ord, Hash, Structural)]
pub struct EdgeId(pub u128);

impl Default for EdgeId {
    /// A fresh random identifier, as [`EdgeId::new`] gives.
    fn default() -> (id: Self)
        ensures
            is_v4(id.0),
    {
        EdgeId::new()
    }
}

impl EdgeId {
    /// A fresh random identifier.
    pub fn new() -> (id: Self)
        ensures
            is_v4(id.0),
    {
        EdgeId(fresh_v4_bits())
    }

    /// The identifier whose UUID has this 128-bit value.
    pub fn from_u128(bits: u128) -> (id: Self)
        ensures
            id.0 == bits,
    {
        EdgeId(bits)
    }

    /// The 128-bit value of the identifier's UUID.
    pub fn as_u128(&self) -> (bits: u128)
        ensures
            bits == self.0,
    {
        self.0
    }

    /// The lowercase hyphenated UUID text.
    pub fn to_string(&self) -> (s: String)
        ensures
            s@ == uuid_text(self.0),
    {
        render_uuid(self.0)
    }
}

/// Identifier of an `Organization` node.
#[derive(Clone, Copy, Debug, PartialEq, Eq, PartialOrd, Ord, Hash, Structural)]
pub struct OrgId(pub u128);

impl Default for OrgId {
    /// A fresh random identifier, as [`OrgId::new`] gives.
    fn default() -> (id: Self)
        ensures
            is_v4(id.0),
    {
        OrgId::new()
    }
}

impl OrgId {
    /// A fresh random identifier.
    pub fn new() -> (id: Self)
        ensures
            is_v4(id.0),
    {
        OrgId(fresh_v4_bits())
    }

    /// The identifier whose UUID has this 128-bit value.
    pub fn from_u128(bits: u128) -> (id: Self)
        ensures
            id.0 == bits,
    {
        OrgId(bits)
    }

    /// The 128-bit value of the identifier's UUID.
    pub fn as_u128(&self) -> (bits: u128)
        ensures
            bits == self.0,
    {
        self.0
    }

    /// The lowercase hyphenated UUID text.
    pub fn to_string(&self) -> (s: String)
        ensures
            s@ == uuid_text(self.0),
    {
        render_uuid(self.0)
    }
}

/// Identifier of an `Agent` node (human or LLM).
#[derive(Clone, Copy, Debug, PartialEq, Eq, PartialOrd, Ord, Hash, Structural)]
pub struct AgentId(pub u128);

impl Default for AgentId {
    /// A fresh random identifier, as [`AgentId::new`] gives.
    fn default() -> (id: Self)
        ensures
            is_v4(id.0),
    {
        AgentId::new()
    }
}

impl AgentId {
    /// A fresh random identifier.
    pub fn new() -> (id: Self)
        ensures
            is_v4(id.0),
    {
        AgentId(fresh_v4_bits())
    }

    /// The identifier whose UUID has this 128-bit value.
    pub fn from_u128(bits: u128) -> (id: Self)
        ensures
            id.0 == bits,
    {
        AgentId(bits)
    }

    /// The 128-bit value of the identifier's UUID.
    pub fn as_u128(&self) -> (bits: u128)
        ensures
            bits == self.0,
    {
        self.0
    }

    /// The lowercase hyphenated UUID text.
    pub fn to_string(&self) -> (s: String)
        ensures
            s@ == uuid_text(self.0),
    {
        render_uuid(self.0)
    }
}

/// Identifier of a `User` node.
#[derive(Clone, Copy, Debug, PartialEq, Eq, PartialOrd, Ord, Hash, Structural)]
pub struct UserId(pub u128);

impl Default for UserId {
    /// A fresh random identifier, as [`UserId::new`] gives.
    fn default() -> (id: Self)
        ensures
            is_v4(id.0),
    {
        UserId::new()
    }
}

impl UserId {
    /// A fresh random identifier.
    pub fn new() -> (id: Self)
        ensures
            is_v4(id.0),
    {
        UserId(fresh_v4_bits())
    }

    /// The identifier whose UUID has this 128-bit value.
    pub fn from_u128(bits: u128) -> (id: Self)
        ensures
            id.0 == bits,
    {
        UserId(bits)
    }

    /// The 128-bit value of the identifier's UUID.
    pub fn as_u128(&self) -> (bits: u128)
        ensures
            bits == self.0,
    {
        self.0
    }

    /// The lowercase hyphenated UUID text.
    pub fn to_string(&self) -> (s: String)
        ensures
            s@ == uuid_text(self.0),
    {
        render_uuid(self.0)
    }
}

/// Identifier of a `Project` node.
#[derive(Clone, Copy, Debug, PartialEq, Eq, PartialOrd, Ord, Hash, Structural)]
pub struct ProjectId(pub u128);

impl Default for ProjectId {
    /// A fresh random identifier, as [`ProjectId::new`] gives.
    fn default() -> (id: Self)
        ensures
            is_v4(id.0),
    {
        ProjectId::new()
    }
}

impl ProjectId {
    /// A fresh random identifier.
    pub fn new() -> (id: Self)
        ensures
            is_v4(id.0),
    {
        ProjectId(fresh_v4_bits())
    }

    /// The identifier whose UUID has this 128-bit value.
    pub fn from_u128(bits: u128) -> (id: Self)
        ensures
            id.0 == bits,
    {
        ProjectId(bits)
    }

    /// The 128-bit value of the identifier's UUID.
    pub fn as_u128(&self) -> (bits: u128)
        ensures
            bits == self.0,
    {
        self.0
    }

    /// The lowercase hyphenated UUID text.
    pub fn to_string(&self) -> (s: String)
        ensures
            s@ == uuid_text(self.0),
    {
        render_uuid(self.0)
    }
}

/// Identifier of a `Grant` node.
#[derive(Clone, Copy, Debug, PartialEq, Eq, PartialOrd, Ord, Hash, Structural)]
pub struct GrantId(pub u128);

impl Default for GrantId {
    /// A fresh random identifier, as [`GrantId::new`] gives.
    fn default() -> (id: Self)
        ensures
            is_v4(id.0),
    {
        GrantId::new()
    }
}

impl GrantId {
    /// A fresh random identifier.
    pub fn new() -> (id: Self)
        ensures
            is_v4(id.0),
    {
        GrantId(fresh_v4_bits())
    }

    /// The identifier whose UUID has this 128-bit value.
    pub fn from_u128(bits: u128) -> (id: Self)
        ensures
            id.0 == bits,
    {
        GrantId(bits)
    }

    /// The 128-bit value of the identifier's UUID.
    pub fn as_u128(&self) -> (bits: u128)
        ensures
            bits == self.0,
    {
        self.0
    }

    /// The lowercase hyphenated UUID text.
    pub fn to_string(&self) -> (s: String)
        ensures
            s@ == uuid_text(self.0),
    {
        render_uuid(self.0)
    }
}

/// Identifier of an `AuthRequest` node.
#[derive(Clone, Copy, Debug, PartialEq, Eq, PartialOrd, Ord, Hash, Structural)]
pub struct AuthRequestId(pub u128);

impl Default for AuthRequestId {
    /// A fresh random identifier, as [`AuthRequestId::new`] gives.
    fn default() -> (id: Self)
        ensures
            is_v4(id.0),
    {
        AuthRequestId::new()
    }
}

impl AuthRequestId {
    /// A fresh random identifier.
    pub fn new() -> (id: Self)
        ensures
            is_v4(id.0),
    {
        AuthRequestId(fresh_v4_bits())
    }

    /// The identifier whose UUID has this 128-bit value.
    pub fn from_u128(bits: u128) -> (id: Self)
        ensures
            id.0 == bits,
    {
        AuthRequestId(bits)
    }

    /// The 128-bit value of the identifier's UUID.
    pub fn as_u128(&self) -> (bits: u128)
        ensures
            bits == self.0,
    {
        self.0
    }

    /// The lowercase hyphenated UUID text.
    pub fn to_string(&self) -> (s: String)
        ensures
            s@ == uuid_text(self.0),
    {
        render_uuid(self.0)
    }
}

/// Identifier of a `Template` node.
#[derive(Clone, Copy, Debug, PartialEq, Eq, PartialOrd, Ord, Hash, Structural)]
pub struct TemplateId(pub u128);

impl Default for TemplateId {
    /// A fresh random identifier, as [`TemplateId::new`] gives.
    fn default() -> (id: Self)
        ensures
            is_v4(id.0),
    {
        TemplateId::new()
    }
}

impl TemplateId {
    /// A fresh random identifier.
    pub fn new() -> (id: Self)
        ensures
            is_v4(id.0),
    {
        TemplateId(fresh_v4_bits())
    }

    /// The identifier whose UUID has this 128-bit value.
    pub fn from_u128(bits: u128) -> (id: Self)
        ensures
            id.0 == bits,
    {
        TemplateId(bits)
    }

    /// The 128-bit value of the identifier's UUID.
    pub fn as_u128(&self) -> (bits: u128)
        ensures
            bits == self.0,
    {
        self.0
    }

    /// The lowercase hyphenated UUID text.
    pub fn to_string(&self) -> (s: String)
        ensures
            s@ == uuid_text(self.0),
    {
        render_uuid(self.0)
    }
}

/// Identifier of a `Consent` node.
#[derive(Clone, Copy, Debug, PartialEq, Eq, PartialOrd, Ord, Hash, Structural)]
pub struct ConsentId(pub u128);

impl Default for ConsentId {
    /// A fresh random identifier, as [`ConsentId::new`] gives.
    fn default() -> (id: Self)
        ensures
            is_v4(id.0),
    {
        ConsentId::new()
    }
}

impl ConsentId {
    /// A fresh random identifier.
    pub fn new() -> (id: Self)
        ensures
            is_v4(id.0),
    {
        ConsentId(fresh_v4_bits())
    }

    /// The identifier whose UUID has this 128-bit value.
    pub fn from_u128(bits: u128) -> (id: Self)
        ensures
            id.0 == bits,
    {
        ConsentId(bits)
    }

    /// The 128-bit value of the identifier's UUID.
    pub fn as_u128(&self) -> (bits: u128)
        ensures
            bits == self.0,
    {
        self.0
    }

    /// The lowercase hyphenated UUID text.
    pub fn to_string(&self) -> (s: String)
        ensures
            s@ == uuid_text(self.0),
    {
        render_uuid(self.0)
    }
}

/// Identifier of a `Session` node.
#[derive(Clone, Copy, Debug, PartialEq, Eq, PartialOrd, Ord, Hash, Structural)]
pub struct SessionId(pub u128);

impl Default for SessionId {
    /// A fresh random identifier, as [`SessionId::new`] gives.
    fn default() -> (id: Self)
        ensures
            is_v4(id.0),
    {
        SessionId::new()
    }
}

impl SessionId {
    /// A fresh random identifier.
    pub fn new() -> (id: Self)
        ensures
            is_v4(id.0),
    {
        SessionId(fresh_v4_bits())
    }

    /// The identifier whose UUID has this 128-bit value.
    pub fn from_u128(bits: u128) -> (id: Self)
        ensures
            id.0 == bits,
    {
        SessionId(bits)
    }

    /// The 128-bit value of the identifier's UUID.
    pub fn as_u128(&self) -> (bits: u128)
        ensures
            bits == self.0,
    {
        self.0
    }

    /// The lowercase hyphenated UUID text.
    pub fn to_string(&self) -> (s: String)
        ensures
            s@ == uuid_text(self.0),
    {
        render_uuid(self.0)
    }
}

/// Identifier of a `Memory` node.
#[derive(Clone, Copy, Debug, PartialEq, Eq, PartialOrd, Ord, Hash, Structural)]
pub struct MemoryId(pub u128);

impl Default for MemoryId {
    /// A fresh random identifier, as [`MemoryId::new`] gives.
    fn default() -> (id: Self)
        ensures
            is_v4(id.0),
    {
        MemoryId::new()
    }
}

impl MemoryId {
    /// A fresh random identifier.
    pub fn new() -> (id: Self)
        ensures
            is_v4(id.0),
    {
        MemoryId(fresh_v4_bits())
    }

    /// The identifier whose UUID has this 128-bit value.
    pub fn from_u128(bits: u128) -> (id: Self)
        ensures
            id.0 == bits,
    {
        MemoryId(bits)
    }

    /// The 128-bit value of the identifier's UUID.
    pub fn as_u128(&self) -> (bits: u128)
        ensures
            bits == self.0,
    {
        self.0
    }

    /// The lowercase hyphenated UUID text.
    pub fn to_string(&self) -> (s: String)
        ensures
            s@ == uuid_text(self.0),
    {
        render_uuid(self.0)
    }
}

/// Identifier of an `AuditEvent`.
#[derive(Clone, Copy, Debug, PartialEq, Eq, PartialOrd, Ord, Hash, Structural)]
pub struct AuditEventId(pub u128);

impl Default for AuditEventId {
    /// A fresh random identifier, as [`AuditEventId::new`] gives.
    fn default() -> (id: Self)
        ensures
            is_v4(id.0),
    {
        AuditEventId::new()
    }
}

impl AuditEventId {
    /// A fresh random identifier.
    pub fn new() -> (id: Self)
        ensures
            is_v4(id.0),
    {
        AuditEventId(fresh_v4_bits())
    }

    /// The identifier whose UUID has this 128-bit value.
    pub fn from_u128(bits: u128) -> (id: Self)
        ensures
            id.0 == bits,
    {
        AuditEventId(bits)
    }

    /// The 128-bit value of the identifier's UUID.
    pub fn as_u128(&self) -> (bits: u128)
        ensures
            bits == self.0,
    {
        self.0
    }

    /// The lowercase hyphenated UUID text.
    pub fn to_string(&self) -> (s: String)
        ensures
            s@ == uuid_text(self.0),
    {
        render_uuid(self.0)
    }
}

/// Identifier of a secret entry in the credentials vault (distinct from the
/// human-readable `SecretRef` slug).
#[derive(Clone, Copy, Debug, PartialEq, Eq, PartialOrd, Ord, Hash, Structural)]
pub struct SecretId(pub u128);

impl Default for SecretId {
    /// A fresh random identifier, as [`SecretId::new`] gives.
    fn default() -> (id: Self)
        ensures
            is_v4(id.0),
    {
        SecretId::new()
    }
}

impl SecretId {
    /// A fresh random identifier.
    pub fn new() -> (id: Self)
        ensures
            is_v4(id.0),
    {
        SecretId(fresh_v4_bits())
    }

    /// The identifier whose UUID has this 128-bit value.
    pub fn from_u128(bits: u128) -> (id: Self)
        ensures
            id.0 == bits,
    {
        SecretId(bits)
    }

    /// The 128-bit value of the identifier's UUID.
    pub fn as_u128(&self) -> (bits: u128)
        ensures
            bits == self.0,
    {
        self.0
    }

    /// The lowercase hyphenated UUID text.
    pub fn to_string(&self) -> (s: String)
        ensures
            s@ == uuid_text(self.0),
    {
        render_uuid(self.0)
    }
}

/// Identifier of a `ModelRuntime` composite instance.
#[derive(Clone, Copy, Debug, PartialEq, Eq, PartialOrd, Ord, Hash, Structural)]
pub struct ModelProviderId(pub u128);

impl Default for ModelProviderId {
    /// A fresh random identifier, as [`ModelProviderId::new`] gives.
    fn default() -> (id: Self)
        ensures
            is_v4(id.0),
    {
        ModelProviderId::new()
    }
}

impl ModelProviderId {
    /// A fresh random identifier.
    pub fn new() -> (id: Self)
        ensures
            is_v4(id.0),
    {
        ModelProviderId(fresh_v4_bits())
    }

    /// The identifier whose UUID has this 128-bit value.
    pub fn from_u128(bits: u128) -> (id: Self)
        ensures
            id.0 == bits,
    {
        ModelProviderId(bits)
    }

    /// The 128-bit value of the identifier's UUID.
    pub fn as_u128(&self) -> (bits: u128)
        ensures
            bits == self.0,
    {
        self.0
    }

    /// The lowercase hyphenated UUID text.
    pub fn to_string(&self) -> (s: String)
        ensures
            s@ == uuid_text(self.0),
    {
        render_uuid(self.0)
    }
}

/// Identifier of an `ExternalService` composite instance.
#[derive(Clone, Copy, Debug, PartialEq, Eq, PartialOrd, Ord, Hash, Structural)]
pub struct McpServerId(pub u128);

impl Default for McpServerId {
    /// A fresh random identifier, as [`McpServerId::new`] gives.
    fn default() -> (id: Self)
        ensures
            is_v4(id.0),
    {
        McpServerId::new()
    }
}

impl McpServerId {
    /// A fresh random identifier.
    pub fn new() -> (id: Self)
        ensures
            is_v4(id.0),
    {
        McpServerId(fresh_v4_bits())
    }

    /// The identifier whose UUID has this 128-bit value.
    pub fn from_u128(bits: u128) -> (id: Self)
        ensures
            id.0 == bits,
    {
        McpServerId(bits)
    }

    /// The 128-bit value of the identifier's UUID.
    pub fn as_u128(&self) -> (bits: u128)
        ensures
            bits == self.0,
    {
        self.0
    }

    /// The lowercase hyphenated UUID text.
    pub fn to_string(&self) -> (s: String)
        ensures
            s@ == uuid_text(self.0),
    {
        render_uuid(self.0)
    }
}

/// Identifier of a `LoopRecord` governance node.
#[derive(Clone, Copy, Debug, PartialEq, Eq, PartialOrd, Ord, Hash, Structural)]
pub struct LoopId(pub u128);

impl Default for LoopId {
    /// A fresh random identifier, as [`LoopId::new`] gives.
    fn default() -> (id: Self)
        ensures
            is_v4(id.0),
    {
        LoopId::new()
    }
}

impl LoopId {
    /// A fresh random identifier.
    pub fn new() -> (id: Self)
        ensures
            is_v4(id.0),
    {
        LoopId(fresh_v4_bits())
    }

    /// The identifier whose UUID has this 128-bit value.
    pub fn from_u128(bits: u128) -> (id: Self)
        ensures
            id.0 == bits,
    {
        LoopId(bits)
    }

    /// The 128-bit value of the identifier's UUID.
    pub fn as_u128(&self) -> (bits: u128)
        ensures
            bits == self.0,
    {
        self.0
    }

    /// The lowercase hyphenated UUID text.
    pub fn to_string(&self) -> (s: String)
        ensures
            s@ == uuid_text(self.0),
    {
        render_uuid(self.0)
    }
}

/// Identifier of a `Turn` governance node.
#[derive(Clone, Copy, Debug, PartialEq, Eq, PartialOrd, Ord, Hash, Structural)]
pub struct TurnNodeId(pub u128);

impl Default for TurnNodeId {
    /// A fresh random identifier, as [`TurnNodeId::new`] gives.
    fn default() -> (id: Self)
        ensures
            is_v4(id.0),
    {
        TurnNodeId::new()
    }
}

impl TurnNodeId {
    /// A fresh random identifier.
    pub fn new() -> (id: Self)
        ensures
            is_v4(id.0),
    {
        TurnNodeId(fresh_v4_bits())
    }

    /// The identifier whose UUID has this 128-bit value.
    pub fn from_u128(bits: u128) -> (id: Self)
        ensures
            id.0 == bits,
    {
        TurnNodeId(bits)
    }

    /// The 128-bit value of the identifier's UUID.
    pub fn as_u128(&self) -> (bits: u128)
        ensures
            bits == self.0,
    {
        self.0
    }

    /// The lowercase hyphenated UUID text.
    pub fn to_string(&self) -> (s: String)
        ensures
            s@ == uuid_text(self.0),
    {
        render_uuid(self.0)
    }
}

/// Identifier of an `AgentCatalogEntry` composite instance.
#[derive(Clone, Copy, Debug, PartialEq, Eq, PartialOrd, Ord, Hash, Structural)]
pub struct AgentCatalogEntryId(pub u128);

impl Default for AgentCatalogEntryId {
    /// A fresh random identifier, as [`AgentCatalogEntryId::new`] gives.
    fn default() -> (id: Self)
        ensures
            is_v4(id.0),
    {
        AgentCatalogEntryId::new()
    }
}

impl AgentCatalogEntryId {
    /// A fresh random identifier.
    pub fn new() -> (id: Self)
        ensures
            is_v4(id.0),
    {
        AgentCatalogEntryId(fresh_v4_bits())
    }

    /// The identifier whose UUID has this 128-bit value.
    pub fn from_u128(bits: u128) -> (id: Self)
        ensures
            id.0 == bits,
    {
        AgentCatalogEntryId(bits)
    }

    /// The 128-bit value of the identifier's UUID.
    pub fn as_u128(&self) -> (bits: u128)
        ensures
            bits == self.0,
    {
        self.0
    }

    /// The lowercase hyphenated UUID text.
    pub fn to_string(&self) -> (s: String)
        ensures
            s@ == uuid_text(self.0),
    {
        render_uuid(self.0)
    }
}

/// Identifier of a `SystemAgentRuntimeStatus` composite instance.
#[derive(Clone, Copy, Debug, PartialEq, Eq, PartialOrd, Ord, Hash, Structural)]
pub struct SystemAgentRuntimeStatusId(pub u128);

impl Default for SystemAgentRuntimeStatusId {
    /// A fresh random identifier, as [`SystemAgentRuntimeStatusId::new`] gives.
    fn default() -> (id: Self)
        ensures
            is_v4(id.0),
    {
        SystemAgentRuntimeStatusId::new()
    }
}

impl SystemAgentRuntimeStatusId {
    /// A fresh random identifier.
    pub fn new() -> (id: Self)
        ensures
            is_v4(id.0),
    {
        SystemAgentRuntimeStatusId(fresh_v4_bits())
    }

    /// The identifier whose UUID has this 128-bit value.
    pub fn from_u128(bits: u128) -> (id: Self)
        ensures
            id.0 == bits,
    {
        SystemAgentRuntimeStatusId(bits)
    }

    /// The 128-bit value of the identifier's UUID.
    pub fn as_u128(&self) -> (bits: u128)
        ensures
            bits == self.0,
    {
        self.0
    }

    /// The lowercase hyphenated UUID text.
    pub fn to_string(&self) -> (s: String)
        ensures
            s@ == uuid_text(self.0),
    {
        render_uuid(self.0)
    }
}

/// Identifier of a `Blueprint` row (template-tier or per-agent override).
#[derive(Clone, Copy, Debug, PartialEq, Eq, PartialOrd, Ord, Hash, Structural)]
pub struct BlueprintId(pub u128);

impl Default for BlueprintId {
    /// A fresh random identifier, as [`BlueprintId::new`] gives.
    fn default() -> (id: Self)
        ensures
            is_v4(id.0),
    {
        BlueprintId::new()
    }
}

impl BlueprintId {
    /// A fresh random identifier.
    pub fn new() -> (id: Self)
        ensures
            is_v4(id.0),
    {
        BlueprintId(fresh_v4_bits())
    }

    /// The identifier whose UUID has this 128-bit value.
    pub fn from_u128(bits: u128) -> (id: Self)
        ensures
            id.0 == bits,
    {
        BlueprintId(bits)
    }

    /// The 128-bit value of the identifier's UUID.
    pub fn as_u128(&self) -> (bits: u128)
        ensures
            bits == self.0,
    {
        self.0
    }

    /// The lowercase hyphenated UUID text.
    pub fn to_string(&self) -> (s: String)
        ensures
            s@ == uuid_text(self.0),
    {
        render_uuid(self.0)
    }
}

/// Typed resource end of an `Owns` edge: the organization or project an
/// agent owns.
#[derive(Clone, Copy, Debug, PartialEq, Eq, Hash, Structural)]
pub enum OwnedResourceId {
    Org(OrgId),
    Project(ProjectId),
}

impl OwnedResourceId {
    /// The UUID of the owned node, whichever kind it is.
    pub open spec fn bits(self) -> u128 {
        match self {
            OwnedResourceId::Org(id) => id.0,
            OwnedResourceId::Project(id) => id.0,
        }
    }

    /// Canonical name of the owned kind.
    pub open spec fn kind_name_spec(self) -> Seq<char> {
        match self {
            OwnedResourceId::Org(_) => "org"@,
            OwnedResourceId::Project(_) => "project"@,
        }
    }

    /// The generic node id of the owned node; the UUID is kept.
    pub fn node_id(&self) -> (n: NodeId)
        ensures
            n.0 == self.bits(),
    {
        match self {
            OwnedResourceId::Org(id) => NodeId::from_u128(id.0),
            OwnedResourceId::Project(id) => NodeId::from_u128(id.0),
        }
    }

    /// `"org"` or `"project"`.
    pub fn kind_name(&self) -> (s: &'static str)
        ensures
            s@ == self.kind_name_spec(),
    {
        match self {
            OwnedResourceId::Org(_) => "org",
            OwnedResourceId::Project(_) => "project",
        }
    }
}

} // verus!
