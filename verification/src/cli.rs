//! The arguments of the command-line tool, as plain values, and the decisions its commands
//! make between calls.
use vstd::prelude::*;
use crate::ids::{PrincipalId, SnsNeuronId};

verus! {

/// The command line: one subcommand.
pub struct SnsTestingArgs {
    pub subcommand: SnsTestingSubCommand,
}

pub enum SnsTestingSubCommand {
    /// Run an action on an IC network.
    Run { subcommand: RunSubCommand },
    /// Start a new PocketIC-based network with the NNS canisters, exposed on
    /// `http://127.0.0.1:8080`.
    NnsInit(NnsInitArgs),
}

pub enum RunSubCommand {
    /// Check that the network has an initialized NNS.
    ValidateNetwork(ValidateNetworkArgs),
    /// Create a new SNS and upgrade the canister it controls.
    BasicScenario(BasicScenarioArgs),
    /// Complete an SNS swap with enough direct participations.
    SwapComplete(SwapCompleteArgs),
}

/// Arguments of the network validation: the network is either a dfx-compatible named network
/// or the URL of an IC HTTP endpoint.
pub struct ValidateNetworkArgs {
    pub network: String,
}

/// Arguments of the basic scenario: the network, the dfx identity that submits the NNS
/// proposal and becomes the SNS's initial neuron, and the canister the new SNS controls.
pub struct BasicScenarioArgs {
    pub network: String,
    pub dev_identity: Option<String>,
    pub test_canister_id: PrincipalId,
}

/// Arguments of the swap completion: the network, the name of the SNS, and at most one of a
/// neuron, or a principal whose neurons, the swap participants follow.
pub struct SwapCompleteArgs {
    pub network: String,
    pub sns_name: String,
    pub follow_neuron: Option<SnsNeuronId>,
    pub follow_principal_neurons: Option<PrincipalId>,
}

/// Arguments of the NNS initialization: the PocketIC server URL, its state directory, and the
/// dfx identity whose principal becomes a hotkey of the NNS neuron with the majority of the
/// voting power.
pub struct NnsInitArgs {
    pub server_url: String,
    pub state_dir: String,
    pub dev_identity: String,
}

/// The neurons the swap participants follow when completing a swap from the command line: the
/// neuron given, then the neurons of the principal given; when those neurons could not be
/// read, none of them.
pub fn followees_for_swap(follow_neuron: Option<SnsNeuronId>, principal_neurons: Option<Result<Vec<SnsNeuronId>, String>>) -> (followees: Vec<SnsNeuronId>)
    ensures
        followees@.map_values(|n: SnsNeuronId| n@) == (match follow_neuron {
            Some(n) => seq![n@],
            None => Seq::<Seq<u8>>::empty(),
        }) + (match principal_neurons {
            Some(Ok(neurons)) => neurons@.map_values(|n: SnsNeuronId| n@),
            _ => Seq::<Seq<u8>>::empty(),
        }),
{
    let mut followees: Vec<SnsNeuronId> = Vec::new();
    let ghost first = match &follow_neuron {
        Some(n) => seq![n@],
        None => Seq::<Seq<u8>>::empty(),
    };
    match follow_neuron {
        Some(n) => followees.push(n),
        None => {},
    }
    assert(followees@.map_values(|n: SnsNeuronId| n@) =~= first);
    match principal_neurons {
        Some(Ok(mut neurons)) => {
            let ghost added = neurons@.map_values(|n: SnsNeuronId| n@);
            followees.append(&mut neurons);
            assert(followees@.map_values(|n: SnsNeuronId| n@) =~= first + added);
        },
        _ => {
            assert(first + Seq::<Seq<u8>>::empty() =~= first);
        },
    }
    followees
}

/// Whether `caller` is among the hotkeys of a neuron.
pub fn is_hotkey(hotkeys: &Vec<PrincipalId>, caller: &PrincipalId) -> (found: bool)
    ensures
        found == exists|i: int| 0 <= i < hotkeys@.len() && #[trigger] hotkeys@[i]@ == caller@,
{
    let n = hotkeys.len();
    for i in 0..n
        invariant
            n == hotkeys.len(),
            forall|k: int| 0 <= k < i ==> #[trigger] hotkeys@[k]@ != caller@,
    {
        if hotkeys[i].same_as(caller) {
            return true;
        }
    }
    false
}

} // verus!
