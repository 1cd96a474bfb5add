//! Permission-check vocabulary: the verdict of a check and the actions a
//! grant or consent names.

use vstd::prelude::*;

use crate::audit::AuditClass;

verus! {

/// Outcome of a Permission Check.
#[derive(Clone, Debug, PartialEq, Eq)]
pub enum Decision {
    Allowed,
    Denied { failed_step: u8, reason: String },
}

/// An action a grant authorises or a consent covers.
#[derive(Clone, Copy, Debug, PartialEq, Eq, Hash, Structural)]
pub enum Action {
    Read,
    Inspect,
    List,
}

/// Which candidate supplied a composed audit class.
#[derive(Clone, Copy, Debug, PartialEq, Eq, Hash, Structural)]
pub enum AuditClassSource {
    /// The org's default audit class.
    OrgDefault,
    /// The audit class of the adoption request behind the grant.
    TemplateAr,
}

impl AuditClassSource {
    /// Wire name of the source.
    pub open spec fn wire(self) -> Seq<char> {
        match self {
            AuditClassSource::OrgDefault => "org_default"@,
            AuditClassSource::TemplateAr => "template_ar"@,
        }
    }

    /// Wire name of the source.
    pub fn as_str(&self) -> (s: &'static str)
        ensures
            s@ == self.wire(),
    {
        match self {
            AuditClassSource::OrgDefault => "org_default",
            AuditClassSource::TemplateAr => "template_ar",
        }
    }
}

/// Strictest wins: the stricter of the org default and the adoption
/// request's class, attributed to its source; on a tie the more specific
/// source, the adoption request, is named.
pub open spec fn composed_audit_class(org_default: AuditClass, template_ar: AuditClass) -> (
    AuditClass,
    AuditClassSource,
) {
    if template_ar.rank() >= org_default.rank() {
        (template_ar, AuditClassSource::TemplateAr)
    } else {
        (org_default, AuditClassSource::OrgDefault)
    }
}

/// Compose the audit class of a grant from the org default and the
/// adoption request's class (see [`composed_audit_class`]).
pub fn compose_audit_class_with_source(org_default: AuditClass, template_ar: AuditClass) -> (r: (
    AuditClass,
    AuditClassSource,
))
    ensures
        r == composed_audit_class(org_default, template_ar),
{
    let org_rank: u8 = match org_default {
        AuditClass::Silent => 0,
        AuditClass::Logged => 1,
        AuditClass::Alerted => 2,
    };
    let ar_rank: u8 = match template_ar {
        AuditClass::Silent => 0,
        AuditClass::Logged => 1,
        AuditClass::Alerted => 2,
    };
    if ar_rank >= org_rank {
        (template_ar, AuditClassSource::TemplateAr)
    } else {
        (org_default, AuditClassSource::OrgDefault)
    }
}

/// No silent downgrade: the composed class is at least as strict as both
/// candidates and is one of them, and its source names the candidate it
/// came from.
pub proof fn law_strictest_audit_class_wins(org_default: AuditClass, template_ar: AuditClass)
    ensures
        composed_audit_class(org_default, template_ar).0.rank() >= org_default.rank(),
        composed_audit_class(org_default, template_ar).0.rank() >= template_ar.rank(),
        composed_audit_class(org_default, template_ar).1 == AuditClassSource::TemplateAr
            ==> composed_audit_class(org_default, template_ar).0 == template_ar,
        composed_audit_class(org_default, template_ar).1 == AuditClassSource::OrgDefault
            ==> composed_audit_class(org_default, template_ar).0 == org_default,
{
}

} // verus!
