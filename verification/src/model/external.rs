//! Declarations of the `phi_core` and `serde_json` types the model embeds.
//!
//! The governance records wrap phi-core's agent-loop types verbatim
//! (blueprints, limits, configs, the session tree) and carry some JSON
//! payloads untouched. The library never looks inside these values; it
//! only stores and moves them.

use vstd::prelude::*;

use phi_core::agents::profile::AgentProfile as PhiAgentProfile;
use phi_core::context::execution::ExecutionLimits as PhiExecutionLimits;
use phi_core::provider::model::ModelConfig as PhiModelConfig;
use phi_core::context::config::ContextConfig as PhiContextConfig;
use phi_core::provider::retry::RetryConfig as PhiRetryConfig;
use phi_core::session::model::LoopRecord as PhiLoopRecord;
use phi_core::session::model::Session as PhiSession;
use phi_core::session::model::Turn as PhiTurn;

verus! {

#[verifier::external_type_specification]
#[verifier::external_body]
pub struct ExPhiAgentProfile(PhiAgentProfile);

#[verifier::external_type_specification]
#[verifier::external_body]
pub struct ExPhiExecutionLimits(PhiExecutionLimits);

#[verifier::external_type_specification]
#[verifier::external_body]
pub struct ExPhiContextConfig(PhiContextConfig);

#[verifier::external_type_specification]
#[verifier::external_body]
pub struct ExPhiRetryConfig(PhiRetryConfig);

#[verifier::external_type_specification]
#[verifier::external_body]
pub struct ExPhiModelConfig(PhiModelConfig);

#[verifier::external_type_specification]
#[verifier::external_body]
pub struct ExPhiApiProtocol(phi_core::provider::model::ApiProtocol);

#[verifier::external_type_specification]
#[verifier::external_body]
pub struct ExPhiSession(PhiSession);

#[verifier::external_type_specification]
#[verifier::external_body]
pub struct ExPhiLoopRecord(PhiLoopRecord);

#[verifier::external_type_specification]
#[verifier::external_body]
pub struct ExPhiTurn(PhiTurn);

#[verifier::external_type_specification]
#[verifier::external_body]
pub struct ExJsonValue(serde_json::Value);

/// phi-core's derived `Clone` of `AgentProfile` (clones each field); claimed to return a
/// value equal to its argument.
pub assume_specification[<PhiAgentProfile as Clone>::clone](x: &PhiAgentProfile) -> (r: PhiAgentProfile)
    ensures
        r == *x,
;

/// phi-core's derived `Clone` of `ExecutionLimits` (copies each field); claimed to return a
/// value equal to its argument.
pub assume_specification[<PhiExecutionLimits as Clone>::clone](x: &PhiExecutionLimits) -> (r: PhiExecutionLimits)
    ensures
        r == *x,
;

/// phi-core's derived `Clone` of `ContextConfig` (clones each field; the optional token-counter `Arc` is shared, not deep-copied); claimed to return a
/// value equal to its argument.
pub assume_specification[<PhiContextConfig as Clone>::clone](x: &PhiContextConfig) -> (r: PhiContextConfig)
    ensures
        r == *x,
;

/// phi-core's derived `Clone` of `RetryConfig` (copies each field); claimed to return a
/// value equal to its argument.
pub assume_specification[<PhiRetryConfig as Clone>::clone](x: &PhiRetryConfig) -> (r: PhiRetryConfig)
    ensures
        r == *x,
;

/// phi-core's derived `Clone` of `ModelConfig` (clones each field); claimed to return a
/// value equal to its argument.
pub assume_specification[<PhiModelConfig as Clone>::clone](x: &PhiModelConfig) -> (r: PhiModelConfig)
    ensures
        r == *x,
;

/// phi-core's derived `Clone` of `Session` (clones the whole session tree); claimed to return a
/// value equal to its argument.
pub assume_specification[<PhiSession as Clone>::clone](x: &PhiSession) -> (r: PhiSession)
    ensures
        r == *x,
;

/// phi-core's derived `Clone` of `LoopRecord` (clones each field); claimed to return a
/// value equal to its argument.
pub assume_specification[<PhiLoopRecord as Clone>::clone](x: &PhiLoopRecord) -> (r: PhiLoopRecord)
    ensures
        r == *x,
;

/// phi-core's derived `Clone` of `Turn` (clones each field); claimed to return a
/// value equal to its argument.
pub assume_specification[<PhiTurn as Clone>::clone](x: &PhiTurn) -> (r: PhiTurn)
    ensures
        r == *x,
;

/// serde_json's derived `Clone` of `Value` (clones the tree node by node); claimed to
/// return a value equal to its argument.
pub assume_specification[<serde_json::Value as Clone>::clone](x: &serde_json::Value) -> (r: serde_json::Value)
    ensures
        r == *x,
;

} // verus!
