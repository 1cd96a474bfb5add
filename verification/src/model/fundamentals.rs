//! The nine **Fundamental Classes** of the resource ontology: atomic
//! capabilities every composite normalizes to before grants are resolved.

use vstd::prelude::*;

verus! {

/// Every atomic resource class the system exposes.
#[derive(Clone, Copy, Debug, PartialEq, Eq, Hash, Structural)]
pub enum Fundamental {
    /// Files, directories, paths on disk.
    FilesystemObject,
    /// Spawning processes, running binaries/scripts.
    ProcessExecObject,
    /// Outbound network traffic to hosts/ports.
    NetworkEndpoint,
    /// API keys, tokens, env vars holding secrets.
    SecretCredential,
    /// Token budgets, spend, quotas.
    EconomicResource,
    /// CPU, memory, wall clock, concurrency.
    TimeComputeResource,
    /// Generic structured data access (graph nodes, tables, vectors).
    DataObject,
    /// Tag-predicate access grammar plus the substrate that carries every
    /// composite's `#kind:` identity tag.
    Tag,
    /// Agents, users, roles — the "who" axis.
    IdentityPrincipal,
}

impl Fundamental {
    /// Every variant in a stable order.
    pub const ALL: [Fundamental; 9] = [
        Fundamental::FilesystemObject,
        Fundamental::ProcessExecObject,
        Fundamental::NetworkEndpoint,
        Fundamental::SecretCredential,
        Fundamental::EconomicResource,
        Fundamental::TimeComputeResource,
        Fundamental::DataObject,
        Fundamental::Tag,
        Fundamental::IdentityPrincipal,
    ];

    /// Canonical string form used in grants, tags and wire protocols.
    pub open spec fn wire(self) -> Seq<char> {
        match self {
            Fundamental::FilesystemObject => "filesystem_object"@,
            Fundamental::ProcessExecObject => "process_exec_object"@,
            Fundamental::NetworkEndpoint => "network_endpoint"@,
            Fundamental::SecretCredential => "secret_credential"@,
            Fundamental::EconomicResource => "economic_resource"@,
            Fundamental::TimeComputeResource => "time_compute_resource"@,
            Fundamental::DataObject => "data_object"@,
            Fundamental::Tag => "tag"@,
            Fundamental::IdentityPrincipal => "identity_principal"@,
        }
    }

    /// The canonical string form.
    pub fn as_str(&self) -> (s: &'static str)
        ensures
            s@ == self.wire(),
    {
        match self {
            Fundamental::FilesystemObject => "filesystem_object",
            Fundamental::ProcessExecObject => "process_exec_object",
            Fundamental::NetworkEndpoint => "network_endpoint",
            Fundamental::SecretCredential => "secret_credential",
            Fundamental::EconomicResource => "economic_resource",
            Fundamental::TimeComputeResource => "time_compute_resource",
            Fundamental::DataObject => "data_object",
            Fundamental::Tag => "tag",
            Fundamental::IdentityPrincipal => "identity_principal",
        }
    }
}

/// Distinct fundamentals have distinct canonical strings, so the string
/// form identifies the class.
pub proof fn law_fundamental_wire_injective(a: Fundamental, b: Fundamental)
    ensures
        a != b ==> a.wire() != b.wire(),
{
    reveal_strlit("filesystem_object");
    reveal_strlit("process_exec_object");
    reveal_strlit("network_endpoint");
    reveal_strlit("secret_credential");
    reveal_strlit("economic_resource");
    reveal_strlit("time_compute_resource");
    reveal_strlit("data_object");
    reveal_strlit("tag");
    reveal_strlit("identity_principal");
    if a != b && a.wire() == b.wire() {
        assert(a.wire().len() == b.wire().len());
        assert(a.wire()[0] == b.wire()[0]);
        assert(a.wire()[1] == b.wire()[1]);
        assert(a.wire()[2] == b.wire()[2]);
    }
}

} // verus!
