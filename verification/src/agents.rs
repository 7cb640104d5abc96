//! Handles that pair an agent (whatever makes the canister calls) with the neuron or canister
//! its requests are about.
use vstd::prelude::*;
use crate::ids::{NnsNeuronId, PrincipalId, SnsNeuronId};

verus! {

/// The SNS ledger canister.
pub struct LedgerCanister {
    pub canister_id: PrincipalId,
}

impl LedgerCanister {
    pub fn new(canister_id: PrincipalId) -> (ledger: Self)
        ensures
            ledger.canister_id@ == canister_id@,
    {
        LedgerCanister { canister_id }
    }
}

/// An SNS governance canister.
pub struct GovernanceCanister {
    pub canister_id: PrincipalId,
}

/// An agent that makes NNS governance requests on behalf of a neuron.
pub struct NnsNeuronAgent<'a, C> {
    pub agent: &'a C,
    pub neuron_id: NnsNeuronId,
}

impl<'a, C> NnsNeuronAgent<'a, C> {
    pub fn new(agent: &'a C, neuron_id: NnsNeuronId) -> (r: Self)
        ensures
            r.agent == agent,
            r.neuron_id == neuron_id,
    {
        NnsNeuronAgent { agent, neuron_id }
    }
}

/// An agent that makes SNS governance requests on behalf of a neuron.
pub struct SnsNeuronAgent<'a, C> {
    pub agent: &'a C,
    pub neuron_id: SnsNeuronId,
    pub sns_governance_canister: GovernanceCanister,
}

impl<'a, C> SnsNeuronAgent<'a, C> {
    /// The agent for neuron `neuron_id` of the SNS whose governance canister is
    /// `sns_governance_canister_id`.
    pub fn new(agent: &'a C, neuron_id: SnsNeuronId, sns_governance_canister_id: PrincipalId) -> (r: Self)
        ensures
            r.agent == agent,
            r.neuron_id@ == neuron_id@,
            r.sns_governance_canister.canister_id@ == sns_governance_canister_id@,
    {
        SnsNeuronAgent {
            agent,
            neuron_id,
            sns_governance_canister: GovernanceCanister { canister_id: sns_governance_canister_id },
        }
    }
}

} // verus!
