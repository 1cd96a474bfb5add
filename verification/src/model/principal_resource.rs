//! Sealed marker traits for the **Principal** and **Resource** type unions.
//!
//! - **Principal** — anything that can hold authority: Agent, User,
//!   Organization, Project.
//! - **Resource** — anything that can be owned: every ownable id newtype
//!   plus the generic [`NodeId`]. Agents are both.
//!
//! Both traits extend a crate-private `Sealed` supertrait, so no other
//! crate can add members to either union; a `NodeId` is a Resource but
//! not a Principal, and Organization/User/Project ids are Principals
//! only.

use vstd::prelude::*;

use super::ids::{
    AgentId, AuthRequestId, ConsentId, GrantId, MemoryId, NodeId, OrgId, ProjectId, SessionId,
    TemplateId, UserId,
};

pub(crate) mod sealed;

verus! {

/// Types that can hold authority.
pub trait Principal: sealed::Sealed {
    /// The UUID of the principal.
    spec fn principal_bits(&self) -> u128;

    /// The generic node id of the principal, keeping its UUID.
    fn node_id(&self) -> (n: NodeId)
        ensures
            n.0 == self.principal_bits(),
    ;
}

/// Types that can be owned.
pub trait Resource: sealed::Sealed {
    /// The UUID of the resource.
    spec fn resource_bits(&self) -> u128;

    /// The generic node id of the resource, keeping its UUID.
    fn node_id(&self) -> (n: NodeId)
        ensures
            n.0 == self.resource_bits(),
    ;
}

impl sealed::Sealed for NodeId {}
impl sealed::Sealed for AgentId {}
impl sealed::Sealed for UserId {}
impl sealed::Sealed for OrgId {}
impl sealed::Sealed for ProjectId {}
impl sealed::Sealed for SessionId {}
impl sealed::Sealed for MemoryId {}
impl sealed::Sealed for AuthRequestId {}
impl sealed::Sealed for GrantId {}
impl sealed::Sealed for TemplateId {}
impl sealed::Sealed for ConsentId {}

impl Principal for AgentId {
    open spec fn principal_bits(&self) -> u128 { self.0 }
    fn node_id(&self) -> (n: NodeId) { NodeId::from_u128(self.0) }
}

impl Principal for UserId {
    open spec fn principal_bits(&self) -> u128 { self.0 }
    fn node_id(&self) -> (n: NodeId) { NodeId::from_u128(self.0) }
}

impl Principal for OrgId {
    open spec fn principal_bits(&self) -> u128 { self.0 }
    fn node_id(&self) -> (n: NodeId) { NodeId::from_u128(self.0) }
}

impl Principal for ProjectId {
    open spec fn principal_bits(&self) -> u128 { self.0 }
    fn node_id(&self) -> (n: NodeId) { NodeId::from_u128(self.0) }
}

impl Resource for NodeId {
    open spec fn resource_bits(&self) -> u128 { self.0 }
    fn node_id(&self) -> (n: NodeId) { *self }
}

impl Resource for AgentId {
    open spec fn resource_bits(&self) -> u128 { self.0 }
    fn node_id(&self) -> (n: NodeId) { NodeId::from_u128(self.0) }
}

impl Resource for SessionId {
    open spec fn resource_bits(&self) -> u128 { self.0 }
    fn node_id(&self) -> (n: NodeId) { NodeId::from_u128(self.0) }
}

impl Resource for MemoryId {
    open spec fn resource_bits(&self) -> u128 { self.0 }
    fn node_id(&self) -> (n: NodeId) { NodeId::from_u128(self.0) }
}

impl Resource for AuthRequestId {
    open spec fn resource_bits(&self) -> u128 { self.0 }
    fn node_id(&self) -> (n: NodeId) { NodeId::from_u128(self.0) }
}

impl Resource for GrantId {
    open spec fn resource_bits(&self) -> u128 { self.0 }
    fn node_id(&self) -> (n: NodeId) { NodeId::from_u128(self.0) }
}

impl Resource for TemplateId {
    open spec fn resource_bits(&self) -> u128 { self.0 }
    fn node_id(&self) -> (n: NodeId) { NodeId::from_u128(self.0) }
}

impl Resource for ConsentId {
    open spec fn resource_bits(&self) -> u128 { self.0 }
    fn node_id(&self) -> (n: NodeId) { NodeId::from_u128(self.0) }
}

} // verus!
