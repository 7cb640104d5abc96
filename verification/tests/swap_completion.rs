use sns_testing::ids::SnsNeuronId;
use sns_testing::swap::{
    current_participation, participant_funding, remaining_participation_amount,
    remaining_participation_count, NeuronHandle, SwapAction, SwapCompletion, SwapDerivedState,
    SwapEvent, SwapInit, SwapLifecycle,
};

fn neuron(bytes: &[u8]) -> SnsNeuronId {
    SnsNeuronId { id: bytes.to_vec() }
}

fn open_machine(followees: Vec<SnsNeuronId>) -> SwapCompletion {
    let (mut m, a) = SwapCompletion::new(true, 10_000, followees);
    assert!(matches!(a, SwapAction::AwaitLifecycle(SwapLifecycle::Open)));
    let a = m.step(SwapEvent::LifecycleReached(Ok(())));
    assert!(matches!(a, SwapAction::GetInit));
    let a = m.step(SwapEvent::Init(Some(SwapInit {
        min_participants: Some(3),
        max_direct_participation_icp_e8s: Some(1_000),
        confirmation_text: Some("I agree".to_string()),
    })));
    assert!(matches!(a, SwapAction::GetDerivedState));
    m
}

fn finished_error(a: SwapAction) -> String {
    match a {
        SwapAction::Finished(Err(m)) => m,
        _ => panic!("expected the procedure to end with an error"),
    }
}

#[test]
fn remaining_count_is_the_missing_participants() {
    assert_eq!(remaining_participation_count(5, 2), 3);
    assert_eq!(remaining_participation_count(5, 0), 5);
}

#[test]
fn remaining_count_is_one_once_the_minimum_is_reached() {
    assert_eq!(remaining_participation_count(5, 5), 1);
    assert_eq!(remaining_participation_count(5, 9), 1);
    assert_eq!(remaining_participation_count(0, 0), 1);
}

#[test]
fn remaining_amount_is_what_is_left_below_the_maximum() {
    assert_eq!(remaining_participation_amount(1_000, 400), Some(600));
    assert_eq!(remaining_participation_amount(1_000, 0), Some(1_000));
    assert_eq!(remaining_participation_amount(1_000, 1_000), None);
    assert_eq!(remaining_participation_amount(1_000, 1_500), None);
}

#[test]
fn funding_adds_the_fee_and_saturates() {
    assert_eq!(participant_funding(300, 10_000), 10_300);
    assert_eq!(participant_funding(u64::MAX - 5, 10_000), u64::MAX);
}

#[test]
fn current_participation_reads_the_buyer_icp() {
    assert_eq!(current_participation(Ok(Some(Some(42)))), 42);
    assert_eq!(current_participation(Ok(Some(None))), 0);
    assert_eq!(current_participation(Ok(None)), 0);
    assert_eq!(current_participation(Err("unreachable".to_string())), 0);
}

#[test]
fn full_swap_completion_scenario() {
    let mut m = open_machine(vec![neuron(&[9, 9])]);
    let a = m.step(SwapEvent::DerivedState(Ok(SwapDerivedState {
        direct_participant_count: Some(1),
        direct_participation_icp_e8s: Some(400),
    })));
    match a {
        SwapAction::SplitParticipation { participation_count, total_e8s, participant_count } => {
            assert_eq!((participation_count, total_e8s, participant_count), (2, 600, 3));
        }
        _ => panic!("expected the participation to be split"),
    }
    let a = m.step(SwapEvent::Participations(vec![300, 300]));
    assert!(matches!(a, SwapAction::CheckParticipation { participant: 0 }));
    // Participant 0 already participated: it is skipped.
    let a = m.step(SwapEvent::CurrentParticipation(5));
    assert!(matches!(a, SwapAction::CheckParticipation { participant: 1 }));
    let a = m.step(SwapEvent::CurrentParticipation(0));
    assert!(matches!(
        a,
        SwapAction::Transfer { participant: 1, amount_e8s: 10_300, fee_e8s: 10_000, from_treasury: true }
    ));
    let a = m.step(SwapEvent::Transferred(Ok(Ok(7))));
    match a {
        SwapAction::Participate { participant, amount_e8s, confirmation_text } => {
            assert_eq!((participant, amount_e8s), (1, 300));
            assert_eq!(confirmation_text, Some("I agree".to_string()));
        }
        _ => panic!("expected a participation"),
    }
    let a = m.step(SwapEvent::Participated(Ok(())));
    assert!(matches!(a, SwapAction::CheckParticipation { participant: 2 }));
    let a = m.step(SwapEvent::CurrentParticipation(0));
    assert!(matches!(a, SwapAction::Transfer { participant: 2, amount_e8s: 10_300, .. }));
    let a = m.step(SwapEvent::Transferred(Ok(Ok(8))));
    assert!(matches!(a, SwapAction::Participate { participant: 2, amount_e8s: 300, .. }));
    let a = m.step(SwapEvent::Participated(Ok(())));
    assert!(matches!(a, SwapAction::AwaitLifecycle(SwapLifecycle::Committed)));
    let a = m.step(SwapEvent::LifecycleReached(Ok(())));
    assert!(matches!(a, SwapAction::AwaitAutoFinalization));
    let a = m.step(SwapEvent::AutoFinalized(Ok(())));
    assert!(matches!(a, SwapAction::GetNervousSystemParameters));
    // The dissolve delay is cut to 32 bits.
    let a = m.step(SwapEvent::NervousSystemParameters(Ok(Some((1u64 << 32) + 5))));
    assert!(matches!(a, SwapAction::AnnounceDissolveDelay { seconds: 5 }));
    let a = m.step(SwapEvent::Continue);
    assert!(matches!(a, SwapAction::GetCallerNeuron { participant: 0 }));
    let a = m.step(SwapEvent::CallerNeuron { caller: "p0".to_string(), neuron: Ok(None) });
    assert!(matches!(a, SwapAction::GetCallerNeuron { participant: 1 }));
    let a = m.step(SwapEvent::CallerNeuron {
        caller: "p1".to_string(),
        neuron: Ok(Some(NeuronHandle { id: neuron(&[1, 2]), label: "N1".to_string() })),
    });
    match a {
        SwapAction::Follow { participant, neuron: n, followee, function_id } => {
            assert_eq!(participant, 1);
            assert_eq!(n.id, vec![1, 2]);
            assert_eq!(followee.id, vec![9, 9]);
            assert_eq!(function_id, 3);
        }
        _ => panic!("expected a follow"),
    }
    let a = m.step(SwapEvent::Followed(Ok(())));
    match a {
        SwapAction::IncreaseDissolveDelay { participant, neuron: n, seconds } => {
            assert_eq!((participant, seconds), (1, 5));
            assert_eq!(n.id, vec![1, 2]);
        }
        _ => panic!("expected a dissolve delay increase"),
    }
    let a = m.step(SwapEvent::DissolveDelayIncreased(Ok(())));
    assert!(matches!(a, SwapAction::GetCallerNeuron { participant: 2 }));
    let a = m.step(SwapEvent::CallerNeuron { caller: "p2".to_string(), neuron: Ok(None) });
    assert!(matches!(a, SwapAction::Finished(Ok(()))));
}

#[test]
fn maximum_participation_reached_ends_without_transfers() {
    let mut m = open_machine(vec![]);
    let a = m.step(SwapEvent::DerivedState(Ok(SwapDerivedState {
        direct_participant_count: Some(0),
        direct_participation_icp_e8s: Some(1_000),
    })));
    assert!(matches!(a, SwapAction::MaximumParticipationReached));
    let a = m.step(SwapEvent::CurrentParticipation(0));
    assert!(matches!(a, SwapAction::Abort(_)));
}

#[test]
fn missing_init_fields_are_errors() {
    let (mut m, _) = SwapCompletion::new(false, 10_000, vec![]);
    m.step(SwapEvent::LifecycleReached(Ok(())));
    let a = m.step(SwapEvent::Init(None));
    assert_eq!(finished_error(a), "Expecting the swap init to be set");

    let (mut m, _) = SwapCompletion::new(false, 10_000, vec![]);
    m.step(SwapEvent::LifecycleReached(Ok(())));
    let a = m.step(SwapEvent::Init(Some(SwapInit {
        min_participants: None,
        max_direct_participation_icp_e8s: Some(5),
        confirmation_text: None,
    })));
    assert_eq!(finished_error(a), "Expecting the minimum number of participants to be set");

    let (mut m, _) = SwapCompletion::new(false, 10_000, vec![]);
    m.step(SwapEvent::LifecycleReached(Ok(())));
    let a = m.step(SwapEvent::Init(Some(SwapInit {
        min_participants: Some(1),
        max_direct_participation_icp_e8s: None,
        confirmation_text: None,
    })));
    assert_eq!(finished_error(a), "Expecting the maximum direct participation to be set");
}

#[test]
fn lifecycle_error_is_passed_on() {
    let (mut m, _) = SwapCompletion::new(false, 10_000, vec![]);
    let a = m.step(SwapEvent::LifecycleReached(Err("swap never opened".to_string())));
    assert_eq!(finished_error(a), "swap never opened");
}

#[test]
fn derived_state_error_is_described() {
    let mut m = open_machine(vec![]);
    let a = m.step(SwapEvent::DerivedState(Err("boom".to_string())));
    assert_eq!(finished_error(a), "Failed to get swap derived state: boom");
}

fn at_first_transfer() -> SwapCompletion {
    let mut m = open_machine(vec![]);
    m.step(SwapEvent::DerivedState(Ok(SwapDerivedState {
        direct_participant_count: None,
        direct_participation_icp_e8s: None,
    })));
    m.step(SwapEvent::Participations(vec![1_000]));
    let a = m.step(SwapEvent::CurrentParticipation(0));
    assert!(matches!(a, SwapAction::Transfer { participant: 0, from_treasury: true, .. }));
    m
}

#[test]
fn transfer_errors_are_described() {
    let mut m = at_first_transfer();
    let a = m.step(SwapEvent::Transferred(Err("no route".to_string())));
    assert_eq!(finished_error(a), "Failed to transfer ICP to swap participant: no route");
    let mut m = at_first_transfer();
    let a = m.step(SwapEvent::Transferred(Ok(Err("insufficient funds".to_string()))));
    assert_eq!(finished_error(a), "ICP transfer returned an error: insufficient funds");
}

#[test]
fn participation_error_is_passed_on() {
    let mut m = at_first_transfer();
    m.step(SwapEvent::Transferred(Ok(Ok(1))));
    let a = m.step(SwapEvent::Participated(Err("refused".to_string())));
    assert_eq!(finished_error(a), "refused");
}

#[test]
fn running_out_of_participants_aborts() {
    let mut m = open_machine(vec![]);
    m.step(SwapEvent::DerivedState(Ok(SwapDerivedState {
        direct_participant_count: Some(0),
        direct_participation_icp_e8s: Some(0),
    })));
    m.step(SwapEvent::Participations(vec![1, 1, 1]));
    assert!(matches!(m.step(SwapEvent::CurrentParticipation(1)), SwapAction::CheckParticipation { participant: 1 }));
    assert!(matches!(m.step(SwapEvent::CurrentParticipation(1)), SwapAction::CheckParticipation { participant: 2 }));
    assert!(matches!(m.step(SwapEvent::CurrentParticipation(1)), SwapAction::Abort(_)));
}

fn at_parameters() -> SwapCompletion {
    let mut m = open_machine(vec![neuron(&[7])]);
    m.step(SwapEvent::DerivedState(Ok(SwapDerivedState {
        direct_participant_count: Some(0),
        direct_participation_icp_e8s: Some(0),
    })));
    m.step(SwapEvent::Participations(vec![]));
    m.step(SwapEvent::LifecycleReached(Ok(())));
    m.step(SwapEvent::AutoFinalized(Ok(())));
    m
}

#[test]
fn parameter_errors_are_described() {
    let mut m = at_parameters();
    let a = m.step(SwapEvent::NervousSystemParameters(Err("down".to_string())));
    assert_eq!(finished_error(a), "Failed to get nervous system parameters: down");
    let mut m = at_parameters();
    let a = m.step(SwapEvent::NervousSystemParameters(Ok(None)));
    assert_eq!(finished_error(a), "Expecting the neuron minimum dissolve delay to be set");
}

#[test]
fn auto_finalization_error_is_passed_on() {
    let mut m = open_machine(vec![]);
    m.step(SwapEvent::DerivedState(Ok(SwapDerivedState {
        direct_participant_count: Some(0),
        direct_participation_icp_e8s: Some(0),
    })));
    m.step(SwapEvent::Participations(vec![]));
    m.step(SwapEvent::LifecycleReached(Ok(())));
    let a = m.step(SwapEvent::AutoFinalized(Err("timed out".to_string())));
    assert_eq!(finished_error(a), "timed out");
}

fn at_follow() -> SwapCompletion {
    let mut m = at_parameters();
    m.step(SwapEvent::NervousSystemParameters(Ok(Some(100))));
    m.step(SwapEvent::Continue);
    let a = m.step(SwapEvent::CallerNeuron {
        caller: "p0".to_string(),
        neuron: Ok(Some(NeuronHandle { id: neuron(&[3]), label: "NeuronId { id: [3] }".to_string() })),
    });
    assert!(matches!(a, SwapAction::Follow { participant: 0, .. }));
    m
}

#[test]
fn neuron_errors_are_described() {
    let mut m = at_parameters();
    m.step(SwapEvent::NervousSystemParameters(Ok(Some(100))));
    m.step(SwapEvent::Continue);
    let a = m.step(SwapEvent::CallerNeuron { caller: "abc-def".to_string(), neuron: Err("gone".to_string()) });
    assert_eq!(finished_error(a), "Failed to get the caller neuron for abc-def: gone");

    let mut m = at_follow();
    let a = m.step(SwapEvent::Followed(Err("denied".to_string())));
    assert_eq!(finished_error(a), "Neuron NeuronId { id: [3] } failed to follow the neuron: denied");

    let mut m = at_follow();
    m.step(SwapEvent::Followed(Ok(())));
    let a = m.step(SwapEvent::DissolveDelayIncreased(Err("locked".to_string())));
    assert_eq!(finished_error(a), "Failed to increase dissolve delay for neuron NeuronId { id: [3] }: locked");
}

#[test]
fn outcome_that_was_not_asked_for_aborts() {
    let (mut m, _) = SwapCompletion::new(false, 10_000, vec![]);
    let a = m.step(SwapEvent::Continue);
    assert!(matches!(a, SwapAction::Abort(_)));
}
