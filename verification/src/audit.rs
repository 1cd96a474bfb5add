//! Audit tiers and the memory-extraction scope buckets recorded in audit
//! payloads.

use vstd::prelude::*;

verus! {

/// How loudly an event is audited, from loosest to strictest.
#[derive(Clone, Copy, Debug, PartialEq, Eq, Hash, Structural)]
pub enum AuditClass {
    Silent,
    Logged,
    Alerted,
}

impl AuditClass {
    /// Strictness of the class: `Silent` < `Logged` < `Alerted`.
    pub open spec fn rank(self) -> nat {
        match self {
            AuditClass::Silent => 0,
            AuditClass::Logged => 1,
            AuditClass::Alerted => 2,
        }
    }
}

/// The binary `{private, public}` bucket a memory extraction falls into.
#[derive(Clone, Copy, Debug, PartialEq, Eq, Hash, Structural)]
pub enum ExtractionScope {
    Private,
    Public,
}

} // verus!
