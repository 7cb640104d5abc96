use sns_testing::agents::{LedgerCanister, NnsNeuronAgent, SnsNeuronAgent};
use sns_testing::cli::{followees_for_swap, is_hotkey};
use sns_testing::ids::{NnsNeuronId, PrincipalId, SnsNeuronId};
use sns_testing::sns::{
    developer_neuron, find_sns_by_name, followees_after_creation, test_canister_upgrade_proposal,
    CanisterInstallMode, GovernanceParameters, ProtoDuration, TestCanisterInitArgs,
};

fn principal(bytes: &[u8]) -> PrincipalId {
    PrincipalId { bytes: bytes.to_vec() }
}

#[test]
fn snses_are_found_by_name_in_order() {
    let names = vec![
        Ok(Some("Dragginz".to_string())),
        Ok(None),
        Err("metadata unavailable".to_string()),
        Ok(Some("Other".to_string())),
        Ok(Some("Dragginz".to_string())),
    ];
    assert_eq!(find_sns_by_name(&names, &"Dragginz".to_string()), vec![0, 4]);
    assert_eq!(find_sns_by_name(&names, &"Nope".to_string()), Vec::<usize>::new());
    assert_eq!(find_sns_by_name(&vec![], &"Dragginz".to_string()), Vec::<usize>::new());
}

#[test]
fn developer_neuron_takes_the_voting_dissolve_delay() {
    let n = developer_neuron(
        principal(&[1, 2, 3]),
        Some(GovernanceParameters {
            neuron_minimum_dissolve_delay_to_vote: Some(ProtoDuration { seconds: Some(86_400) }),
        }),
    );
    assert_eq!(n.controller.bytes, vec![1, 2, 3]);
    assert!(n.dissolve_delay == Some(ProtoDuration { seconds: Some(86_400) }));
    assert_eq!(n.memo, Some(400_000));
    assert_eq!(n.stake_e8s, Some(400_000));
    assert!(n.vesting_period == Some(ProtoDuration { seconds: Some(0) }));
    let n = developer_neuron(principal(&[1]), None);
    assert!(n.dissolve_delay.is_none());
}

#[test]
fn participants_follow_the_developer_only_when_asked() {
    let f = followees_after_creation(true, SnsNeuronId { id: vec![4] });
    assert_eq!(f.len(), 1);
    assert_eq!(f[0].id, vec![4]);
    assert!(followees_after_creation(false, SnsNeuronId { id: vec![4] }).is_empty());
}

#[test]
fn upgrade_proposal_contents() {
    let p = test_canister_upgrade_proposal(principal(&[9]), vec![0, 97, 115, 109], vec![68, 73, 68, 76]);
    assert_eq!(p.title, "Upgrade SNS controlled canister.");
    assert_eq!(p.summary, "");
    assert_eq!(p.url, "");
    assert_eq!(p.canister_id.bytes, vec![9]);
    assert_eq!(p.new_canister_wasm, vec![0, 97, 115, 109]);
    assert_eq!(p.canister_upgrade_arg, vec![68, 73, 68, 76]);
    assert!(p.mode == CanisterInstallMode::Upgrade);
    let args = TestCanisterInitArgs { greeting: Some("Hi".to_string()) };
    assert_eq!(args.greeting.as_deref(), Some("Hi"));
}

#[test]
fn swap_followees_from_the_command_line() {
    let f = followees_for_swap(
        Some(SnsNeuronId { id: vec![1] }),
        Some(Ok(vec![SnsNeuronId { id: vec![2] }, SnsNeuronId { id: vec![3] }])),
    );
    assert_eq!(f.iter().map(|n| n.id.clone()).collect::<Vec<_>>(), vec![vec![1], vec![2], vec![3]]);
    let f = followees_for_swap(Some(SnsNeuronId { id: vec![1] }), Some(Err("failed".to_string())));
    assert_eq!(f.len(), 1);
    assert!(followees_for_swap(None, None).is_empty());
}

#[test]
fn hotkey_membership() {
    let hotkeys = vec![principal(&[1, 2]), principal(&[3])];
    assert!(is_hotkey(&hotkeys, &principal(&[3])));
    assert!(!is_hotkey(&hotkeys, &principal(&[1])));
    assert!(!is_hotkey(&vec![], &principal(&[1])));
    assert!(principal(&[1, 2]).same_as(&principal(&[1, 2])));
    assert!(!principal(&[1, 2]).same_as(&principal(&[1, 3])));
}

#[test]
fn agents_hold_their_neuron() {
    let agent = 5u32;
    let nns = NnsNeuronAgent::new(&agent, NnsNeuronId { id: 449479075714955186 });
    assert_eq!(nns.neuron_id.id, 449479075714955186);
    assert_eq!(*nns.agent, 5);
    let sns = SnsNeuronAgent::new(&agent, SnsNeuronId { id: vec![8] }, principal(&[7]));
    assert_eq!(sns.neuron_id.id, vec![8]);
    assert_eq!(sns.sns_governance_canister.canister_id.bytes, vec![7]);
    let ledger = LedgerCanister::new(principal(&[6]));
    assert_eq!(ledger.canister_id.bytes, vec![6]);
}
