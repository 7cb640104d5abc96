use sns_testing::ids::SnsNeuronId;
use sns_testing::upvote::{ProposalUpvote, UpvoteAction, UpvoteEvent};

fn error_of(a: UpvoteAction) -> String {
    match a {
        UpvoteAction::Finished(Err(m)) => m,
        _ => panic!("expected the upvote to end with an error"),
    }
}

fn undecided() -> UpvoteEvent {
    UpvoteEvent::Proposal(Ok(Some(Ok(0))))
}

#[test]
fn upvote_scenario_with_waiting() {
    let (u, a) = ProposalUpvote::start(42, true);
    assert!(matches!(a, UpvoteAction::GetProposal));
    let (u, a) = u.step(undecided());
    assert!(matches!(a, UpvoteAction::GetDerivedState));
    let (u, a) = u.step(UpvoteEvent::DerivedState(Ok(Some(2))));
    assert!(matches!(a, UpvoteAction::CreateVoters { count: 2 }));
    let (u, a) = u.step(UpvoteEvent::Continue);
    assert!(matches!(a, UpvoteAction::GetNeurons { voter: 0 }));
    let (u, a) = u.step(UpvoteEvent::Neurons(Ok(vec![])));
    assert!(matches!(a, UpvoteAction::GetNeurons { voter: 1 }));
    let (u, a) = u.step(UpvoteEvent::Neurons(Ok(vec![
        SnsNeuronId { id: vec![5] },
        SnsNeuronId { id: vec![6] },
    ])));
    match a {
        UpvoteAction::Vote { voter, neuron, proposal_id, vote } => {
            assert_eq!((voter, proposal_id, vote), (1, 42, 1));
            assert_eq!(neuron.id, vec![5]);
        }
        _ => panic!("expected a vote"),
    }
    let (u, a) = u.step(UpvoteEvent::Voted(Ok(())));
    assert!(matches!(a, UpvoteAction::WaitForExecution));
    let (_, a) = u.step(UpvoteEvent::Executed(Ok(())));
    assert!(matches!(a, UpvoteAction::Finished(Ok(()))));
}

#[test]
fn upvote_without_waiting_and_without_voters() {
    let (u, _) = ProposalUpvote::start(1, false);
    let (u, _) = u.step(undecided());
    let (u, a) = u.step(UpvoteEvent::DerivedState(Ok(None)));
    assert!(matches!(a, UpvoteAction::CreateVoters { count: 0 }));
    let (_, a) = u.step(UpvoteEvent::Continue);
    assert!(matches!(a, UpvoteAction::Finished(Ok(()))));
}

#[test]
fn decided_proposal_is_refused() {
    let (u, _) = ProposalUpvote::start(1, false);
    let (_, a) = u.step(UpvoteEvent::Proposal(Ok(Some(Ok(1_700_000_000)))));
    assert_eq!(error_of(a), "The proposal was already decided");
}

#[test]
fn proposal_errors_are_described() {
    let (u, _) = ProposalUpvote::start(1, false);
    assert_eq!(
        error_of(u.step(UpvoteEvent::Proposal(Err("offline".to_string()))).1),
        "Failed to get the proposal: offline"
    );
    assert_eq!(error_of(u.step(UpvoteEvent::Proposal(Ok(None))).1), "Expecting the proposal result to be set");
    assert_eq!(
        error_of(u.step(UpvoteEvent::Proposal(Ok(Some(Err("no such proposal".to_string()))))).1),
        "Getting proposal returned a governance error: no such proposal"
    );
}

#[test]
fn later_errors_are_described() {
    let (u, _) = ProposalUpvote::start(1, true);
    let (u, _) = u.step(undecided());
    assert_eq!(
        error_of(u.step(UpvoteEvent::DerivedState(Err("x".to_string()))).1),
        "Failed to get swap derived state: x"
    );
    let (u, _) = u.step(UpvoteEvent::DerivedState(Ok(Some(1))));
    let (u, _) = u.step(UpvoteEvent::Continue);
    assert_eq!(
        error_of(u.step(UpvoteEvent::Neurons(Err("y".to_string()))).1),
        "Failed to get principal neurons: y"
    );
    let (u, _) = u.step(UpvoteEvent::Neurons(Ok(vec![SnsNeuronId { id: vec![1] }])));
    assert_eq!(error_of(u.step(UpvoteEvent::Voted(Err("z".to_string()))).1), "Failed to upvote the proposal: z");
    let (u, _) = u.step(UpvoteEvent::Voted(Ok(())));
    assert_eq!(
        error_of(u.step(UpvoteEvent::Executed(Err("w".to_string()))).1),
        "Failed to wait for proposal execution: w"
    );
}

#[test]
fn unasked_outcome_aborts() {
    let (u, _) = ProposalUpvote::start(1, true);
    assert!(matches!(u.step(UpvoteEvent::Continue).1, UpvoteAction::Abort(_)));
}
