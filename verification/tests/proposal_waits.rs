use sns_testing::proposals::{
    deploy_proposal_title, submitted_proposal, MakeProposalReply, NnsProposalPoll, NnsProposalWait,
    NnsWaitAction, ProposalSubmission, SnsProposalPoll, SnsProposalWait, SnsWaitAbort, SnsWaitAction,
    NNS_PROPOSAL_ATTEMPTS, SNS_PROPOSAL_ATTEMPTS,
};

const PENDING_NNS: NnsProposalPoll = NnsProposalPoll::Info { executed_timestamp_seconds: 0, failed: false };

#[test]
fn nns_wait_reports_execution() {
    let (w, a) = NnsProposalWait::start();
    assert!(a == NnsWaitAction::ProgressAndQuery);
    let (w, a) = w.step(PENDING_NNS);
    assert!(a == NnsWaitAction::ProgressAndQuery);
    assert_eq!(w.attempts, 2);
    let (_, a) = w.step(NnsProposalPoll::Info { executed_timestamp_seconds: 17, failed: true });
    assert!(a == NnsWaitAction::Executed);
}

#[test]
fn nns_wait_stops_on_failure_and_query_error() {
    let (w, _) = NnsProposalWait::start();
    let (_, a) = w.step(NnsProposalPoll::Info { executed_timestamp_seconds: 0, failed: true });
    assert!(a == NnsWaitAction::ExecutionFailed);
    let (_, a) = w.step(NnsProposalPoll::QueryFailed { canister_stopped: false });
    assert!(a == NnsWaitAction::QueryError);
}

#[test]
fn nns_wait_gives_up_after_the_last_attempt() {
    let (mut w, _) = NnsProposalWait::start();
    let mut queries = 1;
    loop {
        let (next, a) = w.step(NnsProposalPoll::QueryFailed { canister_stopped: true });
        w = next;
        match a {
            NnsWaitAction::ProgressAndQuery => queries += 1,
            NnsWaitAction::NeverExecuted { last_info_seen } => {
                assert!(!last_info_seen);
                break;
            }
            _ => panic!("unexpected action"),
        }
    }
    assert_eq!(queries, NNS_PROPOSAL_ATTEMPTS);
    assert_eq!(queries, 100);
}

#[test]
fn nns_wait_remembers_that_info_was_seen() {
    let mut w = NnsProposalWait { attempts: NNS_PROPOSAL_ATTEMPTS - 1, last_info_seen: false };
    let (next, a) = w.step(PENDING_NNS);
    assert!(a == NnsWaitAction::ProgressAndQuery);
    w = next;
    let (_, a) = w.step(NnsProposalPoll::QueryFailed { canister_stopped: true });
    assert!(a == NnsWaitAction::NeverExecuted { last_info_seen: true });
}

#[test]
fn sns_wait_outcomes() {
    let (w, a) = SnsProposalWait::start();
    assert!(a == SnsWaitAction::ProgressAndQuery);
    let (_, a) = w.step(SnsProposalPoll::Proposal { executed_timestamp_seconds: 3, failed: true });
    assert!(a == SnsWaitAction::Executed);
    let (_, a) = w.step(SnsProposalPoll::Proposal { executed_timestamp_seconds: 0, failed: true });
    assert!(a == SnsWaitAction::Failed);
    let (_, a) = w.step(SnsProposalPoll::ResultMissing);
    assert!(a == SnsWaitAction::Abort(SnsWaitAbort::ResultMissing));
    let (_, a) = w.step(SnsProposalPoll::GovernanceError);
    assert!(a == SnsWaitAction::Abort(SnsWaitAbort::ProposalNotFound));
    let (_, a) = w.step(SnsProposalPoll::QueryFailed { canister_stopped: false });
    assert!(a == SnsWaitAction::Abort(SnsWaitAbort::QueryError));
    let (w2, a) = w.step(SnsProposalPoll::QueryFailed { canister_stopped: true });
    assert!(a == SnsWaitAction::ProgressAndQuery);
    assert_eq!(w2.attempts, 2);
}

#[test]
fn sns_wait_gives_up_after_the_last_attempt() {
    let (mut w, _) = SnsProposalWait::start();
    let mut queries = 1;
    loop {
        let (next, a) = w.step(SnsProposalPoll::Proposal { executed_timestamp_seconds: 0, failed: false });
        w = next;
        match a {
            SnsWaitAction::ProgressAndQuery => queries += 1,
            SnsWaitAction::Abort(SnsWaitAbort::NeverDecided) => break,
            _ => panic!("unexpected action"),
        }
    }
    assert_eq!(queries, SNS_PROPOSAL_ATTEMPTS);
    assert_eq!(queries, 50);
}

#[test]
fn proposal_submission_reply() {
    assert!(
        submitted_proposal(MakeProposalReply::MadeProposal { proposal_id: Some(12) })
            == ProposalSubmission::Wait { proposal_id: 12 }
    );
    assert!(
        submitted_proposal(MakeProposalReply::MadeProposal { proposal_id: None })
            == ProposalSubmission::MissingProposalId
    );
    assert!(submitted_proposal(MakeProposalReply::Other) == ProposalSubmission::ProposalFailed);
}

#[test]
fn deploy_title_names_the_instance() {
    assert_eq!(deploy_proposal_title("7"), "Create SNS #7");
    assert_eq!(deploy_proposal_title(""), "Create SNS #");
}
