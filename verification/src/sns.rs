//! Locating SNSes by name and building what the SNS scenarios submit.
use vstd::prelude::*;
use vstd::string::*;
use crate::ids::{PrincipalId, SnsNeuronId};

verus! {

/// The number of swap participant identities the scenarios create by default.
pub const DEFAULT_SWAP_PARTICIPANTS_NUMBER: usize = 20;

/// Initialization (and upgrade) argument of the SNS-controlled test canister.
pub struct TestCanisterInitArgs {
    pub greeting: Option<String>,
}

/// The name an SNS reported (`Ok(None)` when its metadata holds none, `Err` when asking
/// failed) is `target`.
pub open spec fn is_named(name: Result<Option<String>, String>, target: Seq<char>) -> bool {
    name matches Ok(Some(n)) && n@ == target
}

/// The positions, in order, of the names that are `target`.
pub open spec fn named_positions(names: Seq<Result<Option<String>, String>>, target: Seq<char>) -> Seq<usize>
    decreases names.len(),
{
    if names.len() == 0 {
        Seq::empty()
    } else {
        let earlier = named_positions(names.drop_last(), target);
        if is_named(names.last(), target) {
            earlier.push((names.len() - 1) as usize)
        } else {
            earlier
        }
    }
}

/// Of the deployed SNSes, whose names are `names` in the order they were listed, the positions
/// of those named `sns_name`.
pub fn find_sns_by_name(names: &Vec<Result<Option<String>, String>>, sns_name: &String) -> (positions: Vec<usize>)
    ensures
        positions@ == named_positions(names@, sns_name@),
        forall|k: int| 0 <= k < names@.len() ==> (#[trigger] positions@.contains(k as usize) <==> (names@[k] is Ok
            && names@[k]->Ok_0 is Some && names@[k]->Ok_0->Some_0@ == sns_name@)),
        forall|a: int, b: int| 0 <= a < b < positions@.len() ==> #[trigger] positions@[a] < #[trigger] positions@[b],
        forall|a: int| 0 <= a < positions@.len() ==> #[trigger] positions@[a] < names@.len(),
{
    let mut positions: Vec<usize> = Vec::new();
    let n = names.len();
    for i in 0..n
        invariant
            n == names.len(),
            positions@ == named_positions(names@.take(i as int), sns_name@),
    {
        assert(names@.take(i + 1).drop_last() =~= names@.take(i as int));
        let matched = match &names[i] {
            Ok(Some(name)) => *name == *sns_name,
            _ => false,
        };
        if matched {
            positions.push(i);
        }
    }
    assert(names@.take(n as int) =~= names@);
    proof {
        lemma_found_snses_are_exactly_the_named_ones(names@, sns_name@);
    }
    positions
}

/// The SNSes found by name are exactly the ones whose reported name is the one asked for,
/// each once and in the order they were listed.
pub proof fn lemma_found_snses_are_exactly_the_named_ones(names: Seq<Result<Option<String>, String>>, target: Seq<char>)
    requires
        names.len() <= usize::MAX,
    ensures
        forall|k: int| 0 <= k < names.len() ==> (#[trigger] named_positions(names, target).contains(k as usize)
            <==> (names[k] is Ok && names[k]->Ok_0 is Some && names[k]->Ok_0->Some_0@ == target)),
        forall|a: int, b: int|
            0 <= a < b < named_positions(names, target).len() ==> #[trigger] named_positions(names, target)[a]
                < #[trigger] named_positions(names, target)[b],
        forall|a: int| 0 <= a < named_positions(names, target).len() ==> #[trigger] named_positions(names, target)[a] < names.len(),
    decreases names.len(),
{
    if names.len() > 0 {
        let earlier_names = names.drop_last();
        lemma_found_snses_are_exactly_the_named_ones(earlier_names, target);
        let earlier = named_positions(earlier_names, target);
        let all = named_positions(names, target);
        let last = (names.len() - 1) as usize;
        assert forall|k: int| 0 <= k < names.len() implies (#[trigger] all.contains(k as usize) <==> is_named(names[k], target)) by {
            if k < names.len() - 1 {
                assert(earlier_names[k] == names[k]);
                if all.contains(k as usize) {
                    let j = choose|j: int| 0 <= j < all.len() && all[j] == k as usize;
                    if j < earlier.len() {
                        assert(earlier[j] == k as usize);
                    }
                }
                if earlier.contains(k as usize) {
                    let j = choose|j: int| 0 <= j < earlier.len() && earlier[j] == k as usize;
                    assert(all[j] == k as usize);
                }
            } else {
                if is_named(names.last(), target) {
                    assert(all[all.len() - 1] == last);
                } else {
                    if all.contains(k as usize) {
                        let j = choose|j: int| 0 <= j < all.len() && all[j] == k as usize;
                        assert(earlier[j] < earlier_names.len());
                    }
                }
            }
        }
    }
}

/// A duration as the nervous-system protobufs hold it.
#[derive(Clone, Copy, PartialEq, Eq, Structural)]
pub struct ProtoDuration {
    pub seconds: Option<u64>,
}

/// The governance parameters of an SNS being created, as far as its developer neuron depends
/// on them.
#[derive(Clone, Copy, PartialEq, Eq, Structural)]
pub struct GovernanceParameters {
    pub neuron_minimum_dissolve_delay_to_vote: Option<ProtoDuration>,
}

/// The developer neuron an SNS is created with.
pub struct DeveloperNeuron {
    pub controller: PrincipalId,
    pub dissolve_delay: Option<ProtoDuration>,
    pub memo: Option<u64>,
    pub stake_e8s: Option<u64>,
    pub vesting_period: Option<ProtoDuration>,
}

/// The single developer neuron of a new SNS: controlled by the developer, with the minimum
/// dissolve delay that lets it vote (when the governance parameters set one), memo and stake
/// of 400000 (e8s), and no vesting period.
pub fn developer_neuron(controller: PrincipalId, governance_parameters: Option<GovernanceParameters>) -> (neuron: DeveloperNeuron)
    ensures
        neuron.controller@ == controller@,
        neuron.dissolve_delay == (match governance_parameters {
            Some(p) => p.neuron_minimum_dissolve_delay_to_vote,
            None => None,
        }),
        neuron.memo == Some(400000u64),
        neuron.stake_e8s == Some(400000u64),
        neuron.vesting_period == Some(ProtoDuration { seconds: Some(0) }),
{
    let dissolve_delay = match governance_parameters {
        Some(p) => p.neuron_minimum_dissolve_delay_to_vote,
        None => None,
    };
    DeveloperNeuron {
        controller,
        dissolve_delay,
        memo: Some(400000),
        stake_e8s: Some(400000),
        vesting_period: Some(ProtoDuration { seconds: Some(0) }),
    }
}

/// The neurons the swap participants of a new SNS follow: the developer's neuron when
/// `follow_dev_neuron`, else none.
pub fn followees_after_creation(follow_dev_neuron: bool, dev_neuron: SnsNeuronId) -> (followees: Vec<SnsNeuronId>)
    ensures
        followees@.map_values(|n: SnsNeuronId| n@) == (if follow_dev_neuron {
            seq![dev_neuron@]
        } else {
            Seq::<Seq<u8>>::empty()
        }),
{
    let mut followees = Vec::new();
    if follow_dev_neuron {
        followees.push(dev_neuron);
    }
    proof {
        let expected = if follow_dev_neuron {
            seq![dev_neuron@]
        } else {
            Seq::<Seq<u8>>::empty()
        };
        assert(followees@.map_values(|n: SnsNeuronId| n@) =~= expected);
    }
    followees
}

/// How a canister's code is installed.
#[derive(Clone, Copy, PartialEq, Eq, Structural)]
pub enum CanisterInstallMode {
    Install,
    Reinstall,
    Upgrade,
}

/// An SNS proposal to upgrade an SNS-controlled canister.
pub struct UpgradeProposal {
    pub title: String,
    pub summary: String,
    pub url: String,
    pub canister_id: PrincipalId,
    pub new_canister_wasm: Vec<u8>,
    pub canister_upgrade_arg: Vec<u8>,
    pub mode: CanisterInstallMode,
}

/// The proposal that upgrades the SNS-controlled test canister `canister_id` to
/// `new_canister_wasm`, passing it `canister_upgrade_arg`.
pub fn test_canister_upgrade_proposal(canister_id: PrincipalId, new_canister_wasm: Vec<u8>, canister_upgrade_arg: Vec<u8>) -> (proposal: UpgradeProposal)
    ensures
        proposal.title@ == "Upgrade SNS controlled canister."@,
        proposal.summary@ == Seq::<char>::empty(),
        proposal.url@ == Seq::<char>::empty(),
        proposal.canister_id@ == canister_id@,
        proposal.new_canister_wasm@ == new_canister_wasm@,
        proposal.canister_upgrade_arg@ == canister_upgrade_arg@,
        proposal.mode == CanisterInstallMode::Upgrade,
{
    UpgradeProposal {
        title: String::from_str("Upgrade SNS controlled canister."),
        summary: String::new(),
        url: String::new(),
        canister_id,
        new_canister_wasm,
        canister_upgrade_arg,
        mode: CanisterInstallMode::Upgrade,
    }
}

} // verus!
