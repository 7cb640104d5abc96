//! Upvoting an SNS proposal with the neurons of the swap participants.
use vstd::prelude::*;
use vstd::string::*;
use crate::ids::SnsNeuronId;
use crate::swap::unit_result_view;

verus! {

/// The vote the participants cast: yes.
pub open spec fn yes_vote() -> i32 {
    1
}

/// The outcome of the call the upvote asked for.
pub enum UpvoteEvent {
    /// The proposal: the query failed, or the response held no result, or the result is the
    /// proposal (with the time it was decided, 0 if not yet) or a governance error.
    Proposal(Result<Option<Result<u64, String>>, String>),
    /// The swap's number of direct participants.
    DerivedState(Result<Option<u64>, String>),
    /// The voter agents were created.
    Continue,
    /// The neurons of the voter that was asked about.
    Neurons(Result<Vec<SnsNeuronId>, String>),
    Voted(Result<(), String>),
    Executed(Result<(), String>),
}

/// The next thing to do. Voters are numbered in the order of the agents created for
/// [`UpvoteAction::CreateVoters`].
pub enum UpvoteAction {
    GetProposal,
    GetDerivedState,
    /// Create `count` voter agents, the identities that participated in the swap.
    CreateVoters { count: u64 },
    GetNeurons { voter: u64 },
    Vote { voter: u64, neuron: SnsNeuronId, proposal_id: u64, vote: i32 },
    WaitForExecution,
    Finished(Result<(), String>),
    /// An outcome arrived that answers no call the upvote made (the caller stops).
    Abort(String),
}

pub enum UpvoteEventModel {
    Proposal(Result<Option<Result<u64, Seq<char>>>, Seq<char>>),
    DerivedState(Result<Option<u64>, Seq<char>>),
    Continue,
    Neurons(Result<Seq<Seq<u8>>, Seq<char>>),
    Voted(Result<(), Seq<char>>),
    Executed(Result<(), Seq<char>>),
}

pub enum UpvoteActionModel {
    GetProposal,
    GetDerivedState,
    CreateVoters { count: u64 },
    GetNeurons { voter: u64 },
    Vote { voter: u64, neuron: Seq<u8>, proposal_id: u64, vote: i32 },
    WaitForExecution,
    Finished(Result<(), Seq<char>>),
    Abort(Seq<char>),
}

impl View for UpvoteEvent {
    type V = UpvoteEventModel;

    open spec fn view(&self) -> UpvoteEventModel {
        match self {
            UpvoteEvent::Proposal(r) => UpvoteEventModel::Proposal(
                match r {
                    Ok(Some(Ok(t))) => Ok(Some(Ok(*t))),
                    Ok(Some(Err(g))) => Ok(Some(Err(g@))),
                    Ok(None) => Ok(None),
                    Err(m) => Err(m@),
                },
            ),
            UpvoteEvent::DerivedState(r) => UpvoteEventModel::DerivedState(
                match r {
                    Ok(c) => Ok(*c),
                    Err(m) => Err(m@),
                },
            ),
            UpvoteEvent::Continue => UpvoteEventModel::Continue,
            UpvoteEvent::Neurons(r) => UpvoteEventModel::Neurons(
                match r {
                    Ok(v) => Ok(v@.map_values(|n: SnsNeuronId| n@)),
                    Err(m) => Err(m@),
                },
            ),
            UpvoteEvent::Voted(r) => UpvoteEventModel::Voted(unit_result_view(*r)),
            UpvoteEvent::Executed(r) => UpvoteEventModel::Executed(unit_result_view(*r)),
        }
    }
}

impl View for UpvoteAction {
    type V = UpvoteActionModel;

    open spec fn view(&self) -> UpvoteActionModel {
        match self {
            UpvoteAction::GetProposal => UpvoteActionModel::GetProposal,
            UpvoteAction::GetDerivedState => UpvoteActionModel::GetDerivedState,
            UpvoteAction::CreateVoters { count } => UpvoteActionModel::CreateVoters { count: *count },
            UpvoteAction::GetNeurons { voter } => UpvoteActionModel::GetNeurons { voter: *voter },
            UpvoteAction::Vote { voter, neuron, proposal_id, vote } => UpvoteActionModel::Vote {
                voter: *voter,
                neuron: neuron@,
                proposal_id: *proposal_id,
                vote: *vote,
            },
            UpvoteAction::WaitForExecution => UpvoteActionModel::WaitForExecution,
            UpvoteAction::Finished(r) => UpvoteActionModel::Finished(unit_result_view(*r)),
            UpvoteAction::Abort(m) => UpvoteActionModel::Abort(m@),
        }
    }
}

/// Where the upvote stands.
#[derive(Clone, Copy, PartialEq, Eq, Structural)]
pub enum UpvotePhase {
    AwaitingProposal,
    AwaitingDerivedState,
    CreatingVoters,
    LookingUpNeurons { voter: u64 },
    Voting { voter: u64 },
    AwaitingExecution,
    Finished,
}

/// Upvoting SNS proposal `proposal_id` with the neurons of every identity that participated in
/// the swap (the first neuron of each), then, when `wait`, waiting for its execution.
#[derive(Clone, Copy, PartialEq, Eq, Structural)]
pub struct ProposalUpvote {
    pub phase: UpvotePhase,
    pub proposal_id: u64,
    pub wait: bool,
    pub voter_count: u64,
}

impl ProposalUpvote {
    pub open spec fn wf(self) -> bool {
        match self.phase {
            UpvotePhase::LookingUpNeurons { voter } | UpvotePhase::Voting { voter } => voter < self.voter_count,
            _ => true,
        }
    }

    pub open spec fn in_phase(self, phase: UpvotePhase) -> Self {
        ProposalUpvote { phase, ..self }
    }

    pub open spec fn failing(self, message: Seq<char>) -> (Self, UpvoteActionModel) {
        (self.in_phase(UpvotePhase::Finished), UpvoteActionModel::Finished(Err(message)))
    }

    pub open spec fn refusing(self) -> (Self, UpvoteActionModel) {
        (self.in_phase(UpvotePhase::Finished), UpvoteActionModel::Abort(unexpected_outcome()))
    }

    /// Ask for the neurons of voter `voter`, or, after the last voter, wait for the execution
    /// when asked to, or finish.
    pub open spec fn asking_voter(self, voter: int) -> (Self, UpvoteActionModel) {
        if voter < self.voter_count {
            (
                self.in_phase(UpvotePhase::LookingUpNeurons { voter: voter as u64 }),
                UpvoteActionModel::GetNeurons { voter: voter as u64 },
            )
        } else if self.wait {
            (self.in_phase(UpvotePhase::AwaitingExecution), UpvoteActionModel::WaitForExecution)
        } else {
            (self.in_phase(UpvotePhase::Finished), UpvoteActionModel::Finished(Ok(())))
        }
    }

    pub open spec fn next(self, event: UpvoteEventModel) -> (Self, UpvoteActionModel) {
        match self.phase {
            UpvotePhase::AwaitingProposal => match event {
                UpvoteEventModel::Proposal(Err(m)) => self.failing("Failed to get the proposal: "@ + m),
                UpvoteEventModel::Proposal(Ok(None)) => self.failing("Expecting the proposal result to be set"@),
                UpvoteEventModel::Proposal(Ok(Some(Err(g)))) => self.failing(
                    "Getting proposal returned a governance error: "@ + g,
                ),
                UpvoteEventModel::Proposal(Ok(Some(Ok(decided)))) => if decided > 0 {
                    self.failing("The proposal was already decided"@)
                } else {
                    (self.in_phase(UpvotePhase::AwaitingDerivedState), UpvoteActionModel::GetDerivedState)
                },
                _ => self.refusing(),
            },
            UpvotePhase::AwaitingDerivedState => match event {
                UpvoteEventModel::DerivedState(Err(m)) => self.failing("Failed to get swap derived state: "@ + m),
                UpvoteEventModel::DerivedState(Ok(c)) => {
                    let count = match c {
                        Some(n) => n,
                        None => 0,
                    };
                    (
                        ProposalUpvote { phase: UpvotePhase::CreatingVoters, voter_count: count, ..self },
                        UpvoteActionModel::CreateVoters { count },
                    )
                },
                _ => self.refusing(),
            },
            UpvotePhase::CreatingVoters => match event {
                UpvoteEventModel::Continue => self.asking_voter(0),
                _ => self.refusing(),
            },
            UpvotePhase::LookingUpNeurons { voter } => match event {
                UpvoteEventModel::Neurons(Err(m)) => self.failing("Failed to get principal neurons: "@ + m),
                UpvoteEventModel::Neurons(Ok(neurons)) => if neurons.len() > 0 {
                    (
                        self.in_phase(UpvotePhase::Voting { voter }),
                        UpvoteActionModel::Vote {
                            voter,
                            neuron: neurons[0],
                            proposal_id: self.proposal_id,
                            vote: yes_vote(),
                        },
                    )
                } else {
                    self.asking_voter(voter + 1)
                },
                _ => self.refusing(),
            },
            UpvotePhase::Voting { voter } => match event {
                UpvoteEventModel::Voted(Err(m)) => self.failing("Failed to upvote the proposal: "@ + m),
                UpvoteEventModel::Voted(Ok(())) => self.asking_voter(voter + 1),
                _ => self.refusing(),
            },
            UpvotePhase::AwaitingExecution => match event {
                UpvoteEventModel::Executed(Err(m)) => self.failing("Failed to wait for proposal execution: "@ + m),
                UpvoteEventModel::Executed(Ok(())) => (
                    self.in_phase(UpvotePhase::Finished),
                    UpvoteActionModel::Finished(Ok(())),
                ),
                _ => self.refusing(),
            },
            UpvotePhase::Finished => self.refusing(),
        }
    }

    /// Starts upvoting: the first call is to get the proposal.
    pub fn start(proposal_id: u64, wait: bool) -> (r: (ProposalUpvote, UpvoteAction))
        ensures
            r.0 == (ProposalUpvote { phase: UpvotePhase::AwaitingProposal, proposal_id, wait, voter_count: 0 }),
            r.1@ == UpvoteActionModel::GetProposal,
    {
        (ProposalUpvote { phase: UpvotePhase::AwaitingProposal, proposal_id, wait, voter_count: 0 }, UpvoteAction::GetProposal)
    }

    /// Takes the outcome of the last call and gives the next call to make.
    pub fn step(self, event: UpvoteEvent) -> (r: (ProposalUpvote, UpvoteAction))
        requires
            self.wf(),
        ensures
            r.0.wf(),
            (r.0, r.1@) == self.next(event@),
    {
        match self.phase {
            UpvotePhase::AwaitingProposal => match event {
                UpvoteEvent::Proposal(Err(m)) => self.fail(
                    String::from_str("Failed to get the proposal: ").concat(m.as_str()),
                ),
                UpvoteEvent::Proposal(Ok(None)) => self.fail(String::from_str("Expecting the proposal result to be set")),
                UpvoteEvent::Proposal(Ok(Some(Err(g)))) => self.fail(
                    String::from_str("Getting proposal returned a governance error: ").concat(g.as_str()),
                ),
                UpvoteEvent::Proposal(Ok(Some(Ok(decided)))) => {
                    if decided > 0 {
                        self.fail(String::from_str("The proposal was already decided"))
                    } else {
                        (ProposalUpvote { phase: UpvotePhase::AwaitingDerivedState, ..self }, UpvoteAction::GetDerivedState)
                    }
                },
                _ => self.unexpected(),
            },
            UpvotePhase::AwaitingDerivedState => match event {
                UpvoteEvent::DerivedState(Err(m)) => self.fail(
                    String::from_str("Failed to get swap derived state: ").concat(m.as_str()),
                ),
                UpvoteEvent::DerivedState(Ok(c)) => {
                    let count = match c {
                        Some(n) => n,
                        None => 0,
                    };
                    (
                        ProposalUpvote { phase: UpvotePhase::CreatingVoters, voter_count: count, ..self },
                        UpvoteAction::CreateVoters { count },
                    )
                },
                _ => self.unexpected(),
            },
            UpvotePhase::CreatingVoters => match event {
                UpvoteEvent::Continue => self.ask_voter(0),
                _ => self.unexpected(),
            },
            UpvotePhase::LookingUpNeurons { voter } => match event {
                UpvoteEvent::Neurons(Err(m)) => self.fail(
                    String::from_str("Failed to get principal neurons: ").concat(m.as_str()),
                ),
                UpvoteEvent::Neurons(Ok(neurons)) => {
                    if neurons.len() > 0 {
                        let neuron = neurons[0].clone();
                        (
                            ProposalUpvote { phase: UpvotePhase::Voting { voter }, ..self },
                            UpvoteAction::Vote { voter, neuron, proposal_id: self.proposal_id, vote: 1 },
                        )
                    } else {
                        self.ask_voter(voter + 1)
                    }
                },
                _ => self.unexpected(),
            },
            UpvotePhase::Voting { voter } => match event {
                UpvoteEvent::Voted(Err(m)) => self.fail(
                    String::from_str("Failed to upvote the proposal: ").concat(m.as_str()),
                ),
                UpvoteEvent::Voted(Ok(())) => self.ask_voter(voter + 1),
                _ => self.unexpected(),
            },
            UpvotePhase::AwaitingExecution => match event {
                UpvoteEvent::Executed(Err(m)) => self.fail(
                    String::from_str("Failed to wait for proposal execution: ").concat(m.as_str()),
                ),
                UpvoteEvent::Executed(Ok(())) => (
                    ProposalUpvote { phase: UpvotePhase::Finished, ..self },
                    UpvoteAction::Finished(Ok(())),
                ),
                _ => self.unexpected(),
            },
            UpvotePhase::Finished => self.unexpected(),
        }
    }

    fn fail(self, message: String) -> (r: (ProposalUpvote, UpvoteAction))
        ensures
            (r.0, r.1@) == self.failing(message@),
    {
        (ProposalUpvote { phase: UpvotePhase::Finished, ..self }, UpvoteAction::Finished(Err(message)))
    }

    fn unexpected(self) -> (r: (ProposalUpvote, UpvoteAction))
        ensures
            (r.0, r.1@) == self.refusing(),
    {
        (
            ProposalUpvote { phase: UpvotePhase::Finished, ..self },
            UpvoteAction::Abort(String::from_str("the upvote received an outcome it did not ask for")),
        )
    }

    fn ask_voter(self, voter: u64) -> (r: (ProposalUpvote, UpvoteAction))
        ensures
            r.0.wf(),
            (r.0, r.1@) == self.asking_voter(voter as int),
    {
        if voter < self.voter_count {
            (
                ProposalUpvote { phase: UpvotePhase::LookingUpNeurons { voter }, ..self },
                UpvoteAction::GetNeurons { voter },
            )
        } else if self.wait {
            (ProposalUpvote { phase: UpvotePhase::AwaitingExecution, ..self }, UpvoteAction::WaitForExecution)
        } else {
            (ProposalUpvote { phase: UpvotePhase::Finished, ..self }, UpvoteAction::Finished(Ok(())))
        }
    }
}

pub open spec fn unexpected_outcome() -> Seq<char> {
    "the upvote received an outcome it did not ask for"@
}

/// A proposal that was already decided is never voted on: the upvote ends with an error
/// right after reading it.
pub proof fn lemma_decided_proposal_is_not_voted(u: ProposalUpvote, decided: u64)
    requires
        u.phase == UpvotePhase::AwaitingProposal,
        decided > 0,
    ensures
        u.next(UpvoteEventModel::Proposal(Ok(Some(Ok(decided))))).0.phase == UpvotePhase::Finished,
        u.next(UpvoteEventModel::Proposal(Ok(Some(Ok(decided))))).1
            == UpvoteActionModel::Finished(Err("The proposal was already decided"@)),
{
}

/// Every vote cast is a yes vote on the proposal being upvoted, by the voter being asked, with
/// its first neuron; voters are taken in order and each votes at most once.
pub proof fn lemma_votes_are_upvotes(u: ProposalUpvote, e: UpvoteEventModel)
    requires
        u.wf(),
    ensures
        u.next(e).0.proposal_id == u.proposal_id,
        (u.next(e).1 matches UpvoteActionModel::Vote { voter, neuron, proposal_id, vote } ==> {
            &&& proposal_id == u.proposal_id
            &&& vote == yes_vote()
            &&& u.phase == (UpvotePhase::LookingUpNeurons { voter })
            &&& e matches UpvoteEventModel::Neurons(Ok(neurons)) && neurons.len() > 0 && neuron == neurons[0]
        }),
        (u.phase matches UpvotePhase::Voting { voter } ==> (u.next(e).0.phase matches UpvotePhase::LookingUpNeurons {
            voter: next,
        } ==> next == voter + 1)),
{
}

/// The upvote stops asking voters: it waits for the execution or finishes successfully.
pub open spec fn stops_voting(a: UpvoteActionModel) -> bool {
    a == UpvoteActionModel::WaitForExecution || a == UpvoteActionModel::Finished(Ok(()))
}

/// After voter `voter` has voted, the next voter, if any, is asked for its neurons.
pub proof fn lemma_next_voter_is_asked_after_a_vote(u: ProposalUpvote, voter: u64)
    requires
        u.wf(),
        u.phase == (UpvotePhase::Voting { voter }),
        voter + 1 < u.voter_count,
    ensures
        u.next(UpvoteEventModel::Voted(Ok(()))).0.phase == (UpvotePhase::LookingUpNeurons { voter: (voter + 1) as u64 }),
        u.next(UpvoteEventModel::Voted(Ok(()))).1 == (UpvoteActionModel::GetNeurons { voter: (voter + 1) as u64 }),
{
}

/// A voter without neurons is passed over for the next voter, if any.
pub proof fn lemma_voter_without_neurons_is_passed_over(u: ProposalUpvote, voter: u64, neurons: Seq<Seq<u8>>)
    requires
        u.wf(),
        u.phase == (UpvotePhase::LookingUpNeurons { voter }),
        neurons.len() == 0,
        voter + 1 < u.voter_count,
    ensures
        u.next(UpvoteEventModel::Neurons(Ok(neurons))).1 == (UpvoteActionModel::GetNeurons { voter: (voter + 1) as u64 }),
{
}

/// The first voter is asked as soon as the voters exist.
pub proof fn lemma_first_voter_is_asked(u: ProposalUpvote)
    requires
        u.phase == UpvotePhase::CreatingVoters,
        u.voter_count > 0,
    ensures
        u.next(UpvoteEventModel::Continue).1 == (UpvoteActionModel::GetNeurons { voter: 0 }),
{
}

/// Every voter is dealt with before the upvote waits or finishes: from voter `voter` it stops
/// only when that voter is the last one, and it never stops before the first voter unless
/// there are no voters.
pub proof fn lemma_no_voter_is_skipped(u: ProposalUpvote, e: UpvoteEventModel)
    requires
        u.wf(),
    ensures
        u.phase is Voting && stops_voting(u.next(e).1) ==> u.phase->Voting_voter + 1 >= u.voter_count,
        u.phase is LookingUpNeurons && stops_voting(u.next(e).1) ==> u.phase->LookingUpNeurons_voter + 1 >= u.voter_count,
        u.phase == UpvotePhase::CreatingVoters && stops_voting(u.next(e).1) ==> u.voter_count == 0,
{
}

/// An undecided proposal goes on to count the swap's direct participants, and there are as
/// many voters as direct participants (none when the swap does not say).
pub proof fn lemma_voters_are_the_direct_participants(u: ProposalUpvote, count: Option<u64>)
    ensures
        u.phase == UpvotePhase::AwaitingProposal ==> u.next(UpvoteEventModel::Proposal(Ok(Some(Ok(0))))).1
            == UpvoteActionModel::GetDerivedState,
        u.phase == UpvotePhase::AwaitingDerivedState && count is Some ==> u.next(UpvoteEventModel::DerivedState(Ok(count))).0.voter_count
            == count.unwrap() && u.next(UpvoteEventModel::DerivedState(Ok(count))).1 == (UpvoteActionModel::CreateVoters {
            count: count.unwrap(),
        }),
        u.phase == UpvotePhase::AwaitingDerivedState && count is None ==> u.next(UpvoteEventModel::DerivedState(Ok(count))).0.voter_count
            == 0,
{
}

/// A voter with neurons casts a yes vote (1) on the upvoted proposal with its first neuron.
pub proof fn lemma_voter_casts_a_yes_vote(u: ProposalUpvote, voter: u64, neurons: Seq<Seq<u8>>)
    requires
        u.wf(),
        u.phase == (UpvotePhase::LookingUpNeurons { voter }),
        neurons.len() > 0,
    ensures
        u.next(UpvoteEventModel::Neurons(Ok(neurons))).1 == (UpvoteActionModel::Vote {
            voter,
            neuron: neurons[0],
            proposal_id: u.proposal_id,
            vote: 1,
        }),
{
}

/// After the last voter the upvote waits for the execution when asked to, and otherwise
/// finishes successfully.
pub proof fn lemma_last_voter_ends_the_votes(u: ProposalUpvote, voter: u64)
    requires
        u.wf(),
        u.phase == (UpvotePhase::Voting { voter }),
        voter + 1 == u.voter_count,
    ensures
        u.wait ==> u.next(UpvoteEventModel::Voted(Ok(()))).1 == UpvoteActionModel::WaitForExecution,
        !u.wait ==> u.next(UpvoteEventModel::Voted(Ok(()))).1 == UpvoteActionModel::Finished(Ok(())),
{
}

} // verus!

