//! Waiting for proposals to be executed, and reading what a proposal submission returned.
use vstd::prelude::*;
use vstd::string::*;

verus! {

/// How many times the NNS proposal is queried before giving up.
pub const NNS_PROPOSAL_ATTEMPTS: u32 = 100;

/// How many times the SNS proposal is queried before giving up.
pub const SNS_PROPOSAL_ATTEMPTS: u32 = 50;

/// What a query for the NNS proposal's info gave.
#[derive(Clone, Copy, PartialEq, Eq, Structural)]
pub enum NnsProposalPoll {
    /// The query failed; `canister_stopped` when it failed because NNS governance is stopped
    /// (as it is while being upgraded).
    QueryFailed { canister_stopped: bool },
    /// The proposal info: when it was executed (0 if not yet) and whether it records a failure.
    Info { executed_timestamp_seconds: u64, failed: bool },
}

/// The next thing to do while waiting for an NNS proposal.
#[derive(Clone, Copy, PartialEq, Eq, Structural)]
pub enum NnsWaitAction {
    /// Let the network progress by one second, then query the proposal info.
    ProgressAndQuery,
    /// Done: return the proposal info just received.
    Executed,
    /// Done: return an error describing the query error just received.
    QueryError,
    /// The proposal info just received records an execution failure (the caller stops with it).
    ExecutionFailed,
    /// Done: every attempt was made; return an error naming the last proposal info received,
    /// if any was.
    NeverExecuted { last_info_seen: bool },
}

/// Waiting for an NNS proposal to be executed: `attempts` queries have been asked for so far.
#[derive(Clone, Copy, PartialEq, Eq, Structural)]
pub struct NnsProposalWait {
    pub attempts: u32,
    pub last_info_seen: bool,
}

impl NnsProposalWait {
    pub open spec fn wf(self) -> bool {
        1 <= self.attempts <= NNS_PROPOSAL_ATTEMPTS
    }

    /// Query again, or give up when every attempt is made.
    pub open spec fn retry(self, last_info_seen: bool) -> (NnsProposalWait, NnsWaitAction) {
        if self.attempts < NNS_PROPOSAL_ATTEMPTS {
            (NnsProposalWait { attempts: (self.attempts + 1) as u32, last_info_seen }, NnsWaitAction::ProgressAndQuery)
        } else {
            (NnsProposalWait { attempts: self.attempts, last_info_seen }, NnsWaitAction::NeverExecuted { last_info_seen })
        }
    }

    pub open spec fn next(self, poll: NnsProposalPoll) -> (NnsProposalWait, NnsWaitAction) {
        match poll {
            NnsProposalPoll::QueryFailed { canister_stopped } => if canister_stopped {
                self.retry(self.last_info_seen)
            } else {
                (self, NnsWaitAction::QueryError)
            },
            NnsProposalPoll::Info { executed_timestamp_seconds, failed } => if executed_timestamp_seconds > 0 {
                (self, NnsWaitAction::Executed)
            } else if failed {
                (self, NnsWaitAction::ExecutionFailed)
            } else {
                self.retry(true)
            },
        }
    }

    /// Starts waiting: the first query is asked for.
    pub fn start() -> (r: (NnsProposalWait, NnsWaitAction))
        ensures
            r.0 == (NnsProposalWait { attempts: 1, last_info_seen: false }),
            r.1 == NnsWaitAction::ProgressAndQuery,
    {
        (NnsProposalWait { attempts: 1, last_info_seen: false }, NnsWaitAction::ProgressAndQuery)
    }

    /// Takes what the last query gave and says what to do next.
    pub fn step(self, poll: NnsProposalPoll) -> (r: (NnsProposalWait, NnsWaitAction))
        requires
            self.wf(),
        ensures
            r == self.next(poll),
            r.0.wf(),
    {
        match poll {
            NnsProposalPoll::QueryFailed { canister_stopped } => {
                if canister_stopped {
                    self.query_again(self.last_info_seen)
                } else {
                    (self, NnsWaitAction::QueryError)
                }
            },
            NnsProposalPoll::Info { executed_timestamp_seconds, failed } => {
                if executed_timestamp_seconds > 0 {
                    (self, NnsWaitAction::Executed)
                } else if failed {
                    (self, NnsWaitAction::ExecutionFailed)
                } else {
                    self.query_again(true)
                }
            },
        }
    }

    fn query_again(self, last_info_seen: bool) -> (r: (NnsProposalWait, NnsWaitAction))
        requires
            self.wf(),
        ensures
            r == self.retry(last_info_seen),
            r.0.wf(),
    {
        if self.attempts < NNS_PROPOSAL_ATTEMPTS {
            (NnsProposalWait { attempts: self.attempts + 1, last_info_seen }, NnsWaitAction::ProgressAndQuery)
        } else {
            (NnsProposalWait { attempts: self.attempts, last_info_seen }, NnsWaitAction::NeverExecuted { last_info_seen })
        }
    }
}

/// Waiting for an NNS proposal never queries more than [`NNS_PROPOSAL_ATTEMPTS`] times: each
/// new query raises the attempt count by one, and the count never passes the limit.
pub proof fn lemma_nns_wait_is_bounded(w: NnsProposalWait, poll: NnsProposalPoll)
    requires
        w.wf(),
    ensures
        w.next(poll).0.wf(),
        w.next(poll).1 == NnsWaitAction::ProgressAndQuery ==> w.next(poll).0.attempts == w.attempts + 1,
        w.next(poll).1 != NnsWaitAction::ProgressAndQuery ==> w.next(poll).0.attempts == w.attempts,
{
}

/// An executed proposal is reported as executed at once, whatever else its info says.
pub proof fn lemma_nns_execution_is_reported(w: NnsProposalWait, executed_timestamp_seconds: u64, failed: bool)
    requires
        executed_timestamp_seconds > 0,
    ensures
        w.next(NnsProposalPoll::Info { executed_timestamp_seconds, failed }).1 == NnsWaitAction::Executed,
{
}

/// What a query for the SNS proposal gave.
#[derive(Clone, Copy, PartialEq, Eq, Structural)]
pub enum SnsProposalPoll {
    /// The query failed; `canister_stopped` when SNS governance is stopped.
    QueryFailed { canister_stopped: bool },
    /// The response holds no result.
    ResultMissing,
    /// The response holds a governance error.
    GovernanceError,
    /// The proposal data: when it was executed (0 if not yet) and whether it records a failure
    /// reason.
    Proposal { executed_timestamp_seconds: u64, failed: bool },
}

/// Why waiting for an SNS proposal cannot go on (the caller stops).
#[derive(Clone, Copy, PartialEq, Eq, Structural)]
pub enum SnsWaitAbort {
    /// A query failed for another reason than a stopped canister.
    QueryError,
    /// The response held no result.
    ResultMissing,
    /// The response held a governance error instead of the proposal.
    ProposalNotFound,
    /// Every attempt was made and the proposal is still not executed.
    NeverDecided,
}

/// The next thing to do while waiting for an SNS proposal.
#[derive(Clone, Copy, PartialEq, Eq, Structural)]
pub enum SnsWaitAction {
    ProgressAndQuery,
    /// Done: return the proposal data just received.
    Executed,
    /// Done: return the failure reason of the proposal data just received as the error.
    Failed,
    Abort(SnsWaitAbort),
}

/// Waiting for an SNS proposal to be executed: `attempts` queries have been asked for so far.
#[derive(Clone, Copy, PartialEq, Eq, Structural)]
pub struct SnsProposalWait {
    pub attempts: u32,
}

impl SnsProposalWait {
    pub open spec fn wf(self) -> bool {
        1 <= self.attempts <= SNS_PROPOSAL_ATTEMPTS
    }

    pub open spec fn retry(self) -> (SnsProposalWait, SnsWaitAction) {
        if self.attempts < SNS_PROPOSAL_ATTEMPTS {
            (SnsProposalWait { attempts: (self.attempts + 1) as u32 }, SnsWaitAction::ProgressAndQuery)
        } else {
            (self, SnsWaitAction::Abort(SnsWaitAbort::NeverDecided))
        }
    }

    pub open spec fn next(self, poll: SnsProposalPoll) -> (SnsProposalWait, SnsWaitAction) {
        match poll {
            SnsProposalPoll::QueryFailed { canister_stopped } => if canister_stopped {
                self.retry()
            } else {
                (self, SnsWaitAction::Abort(SnsWaitAbort::QueryError))
            },
            SnsProposalPoll::ResultMissing => (self, SnsWaitAction::Abort(SnsWaitAbort::ResultMissing)),
            SnsProposalPoll::GovernanceError => (self, SnsWaitAction::Abort(SnsWaitAbort::ProposalNotFound)),
            SnsProposalPoll::Proposal { executed_timestamp_seconds, failed } => if executed_timestamp_seconds > 0 {
                (self, SnsWaitAction::Executed)
            } else if failed {
                (self, SnsWaitAction::Failed)
            } else {
                self.retry()
            },
        }
    }

    /// Starts waiting: the first query is asked for.
    pub fn start() -> (r: (SnsProposalWait, SnsWaitAction))
        ensures
            r.0 == (SnsProposalWait { attempts: 1 }),
            r.1 == SnsWaitAction::ProgressAndQuery,
    {
        (SnsProposalWait { attempts: 1 }, SnsWaitAction::ProgressAndQuery)
    }

    /// Takes what the last query gave and says what to do next.
    pub fn step(self, poll: SnsProposalPoll) -> (r: (SnsProposalWait, SnsWaitAction))
        requires
            self.wf(),
        ensures
            r == self.next(poll),
            r.0.wf(),
    {
        match poll {
            SnsProposalPoll::QueryFailed { canister_stopped } => {
                if canister_stopped {
                    self.query_again()
                } else {
                    (self, SnsWaitAction::Abort(SnsWaitAbort::QueryError))
                }
            },
            SnsProposalPoll::ResultMissing => (self, SnsWaitAction::Abort(SnsWaitAbort::ResultMissing)),
            SnsProposalPoll::GovernanceError => (self, SnsWaitAction::Abort(SnsWaitAbort::ProposalNotFound)),
            SnsProposalPoll::Proposal { executed_timestamp_seconds, failed } => {
                if executed_timestamp_seconds > 0 {
                    (self, SnsWaitAction::Executed)
                } else if failed {
                    (self, SnsWaitAction::Failed)
                } else {
                    self.query_again()
                }
            },
        }
    }

    fn query_again(self) -> (r: (SnsProposalWait, SnsWaitAction))
        requires
            self.wf(),
        ensures
            r == self.retry(),
            r.0.wf(),
    {
        if self.attempts < SNS_PROPOSAL_ATTEMPTS {
            (SnsProposalWait { attempts: self.attempts + 1 }, SnsWaitAction::ProgressAndQuery)
        } else {
            (self, SnsWaitAction::Abort(SnsWaitAbort::NeverDecided))
        }
    }
}

/// Waiting for an SNS proposal never queries more than [`SNS_PROPOSAL_ATTEMPTS`] times.
pub proof fn lemma_sns_wait_is_bounded(w: SnsProposalWait, poll: SnsProposalPoll)
    requires
        w.wf(),
    ensures
        w.next(poll).0.wf(),
        w.next(poll).1 == SnsWaitAction::ProgressAndQuery ==> w.next(poll).0.attempts == w.attempts + 1,
        w.next(poll).1 != SnsWaitAction::ProgressAndQuery ==> w.next(poll).0.attempts == w.attempts,
{
}

/// An executed SNS proposal is reported as executed at once, even if it records a failure.
pub proof fn lemma_sns_execution_is_reported(w: SnsProposalWait, executed_timestamp_seconds: u64, failed: bool)
    requires
        executed_timestamp_seconds > 0,
    ensures
        w.next(SnsProposalPoll::Proposal { executed_timestamp_seconds, failed }).1 == SnsWaitAction::Executed,
{
}

/// The NNS wait queries up to 100 times: while fewer than 100 queries were made, an
/// unexecuted, unfailed proposal or a stopped governance canister leads to one more query; at
/// the 100th it gives up. A failed query for another reason and a recorded failure end it.
pub proof fn lemma_nns_wait_retries_up_to_the_limit(w: NnsProposalWait, poll: NnsProposalPoll)
    requires
        w.wf(),
    ensures
        ({
            let pending = poll == NnsProposalPoll::QueryFailed { canister_stopped: true } || poll == (NnsProposalPoll::Info {
                executed_timestamp_seconds: 0,
                failed: false,
            });
            &&& pending && w.attempts < 100 ==> w.next(poll).1 == NnsWaitAction::ProgressAndQuery && w.next(poll).0.attempts
                == w.attempts + 1
            &&& pending && w.attempts == 100 ==> w.next(poll).1 is NeverExecuted
            &&& poll == (NnsProposalPoll::QueryFailed { canister_stopped: false }) ==> w.next(poll).1
                == NnsWaitAction::QueryError
            &&& poll == (NnsProposalPoll::Info { executed_timestamp_seconds: 0, failed: true }) ==> w.next(poll).1
                == NnsWaitAction::ExecutionFailed
            &&& 1 <= w.next(poll).0.attempts <= 100
            &&& poll == (NnsProposalPoll::Info { executed_timestamp_seconds: 0, failed: false }) ==> w.next(poll).0.last_info_seen
            &&& poll == (NnsProposalPoll::QueryFailed { canister_stopped: true }) ==> w.next(poll).0.last_info_seen
                == w.last_info_seen
            &&& poll == (NnsProposalPoll::Info { executed_timestamp_seconds: 0, failed: false }) && w.attempts == 100
                ==> w.next(poll).1 == (NnsWaitAction::NeverExecuted { last_info_seen: true })
        }),
{
}

/// The SNS wait queries up to 50 times: while fewer than 50 queries were made, an unexecuted,
/// unfailed proposal or a stopped governance canister leads to one more query; at the 50th it
/// gives up. A recorded failure reason becomes the error.
pub proof fn lemma_sns_wait_retries_up_to_the_limit(w: SnsProposalWait, poll: SnsProposalPoll)
    requires
        w.wf(),
    ensures
        ({
            let pending = poll == SnsProposalPoll::QueryFailed { canister_stopped: true } || poll == (SnsProposalPoll::Proposal {
                executed_timestamp_seconds: 0,
                failed: false,
            });
            &&& pending && w.attempts < 50 ==> w.next(poll).1 == SnsWaitAction::ProgressAndQuery && w.next(poll).0.attempts
                == w.attempts + 1
            &&& pending && w.attempts == 50 ==> w.next(poll).1 == SnsWaitAction::Abort(SnsWaitAbort::NeverDecided)
            &&& poll == (SnsProposalPoll::Proposal { executed_timestamp_seconds: 0, failed: true }) ==> w.next(poll).1
                == SnsWaitAction::Failed
            &&& 1 <= w.next(poll).0.attempts <= 50
        }),
{
}

/// What NNS governance answered to a neuron's make-proposal command.
#[derive(Clone, Copy, PartialEq, Eq, Structural)]
pub enum MakeProposalReply {
    /// The command was a proposal, answered with the new proposal's id if any.
    MadeProposal { proposal_id: Option<u64> },
    /// Any other answer (an error, or no command).
    Other,
}

/// What to do after submitting an NNS proposal.
#[derive(Clone, Copy, PartialEq, Eq, Structural)]
pub enum ProposalSubmission {
    /// Wait for the proposal with this id.
    Wait { proposal_id: u64 },
    /// The proposal was not made (the caller stops with the reply).
    ProposalFailed,
    /// The reply names no proposal id (the caller stops with the reply).
    MissingProposalId,
}

/// Reads the reply to a make-proposal command: the proposal to wait for, or why there is none.
pub fn submitted_proposal(reply: MakeProposalReply) -> (r: ProposalSubmission)
    ensures
        r == (match reply {
            MakeProposalReply::MadeProposal { proposal_id: Some(id) } => ProposalSubmission::Wait { proposal_id: id },
            MakeProposalReply::MadeProposal { proposal_id: None } => ProposalSubmission::MissingProposalId,
            MakeProposalReply::Other => ProposalSubmission::ProposalFailed,
        }),
{
    match reply {
        MakeProposalReply::MadeProposal { proposal_id: Some(id) } => ProposalSubmission::Wait { proposal_id: id },
        MakeProposalReply::MadeProposal { proposal_id: None } => ProposalSubmission::MissingProposalId,
        MakeProposalReply::Other => ProposalSubmission::ProposalFailed,
    }
}

/// The title of the NNS proposal that creates an SNS: `Create SNS #` and the instance label.
pub fn deploy_proposal_title(sns_instance_label: &str) -> (title: String)
    ensures
        title@ == "Create SNS #"@ + sns_instance_label@,
{
    String::from_str("Create SNS #").concat(sns_instance_label)
}

} // verus!
