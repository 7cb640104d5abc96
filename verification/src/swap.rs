//! Completing an SNS decentralization swap: how many direct participations are still needed
//! and for how much, and the whole procedure that funds the participants, participates, waits
//! for the swap to commit, and prepares the participants' neurons to vote.
use vstd::prelude::*;
use vstd::string::*;
use crate::ids::SnsNeuronId;

verus! {

/// `a + b`, or the largest `u64` when the sum does not fit.
pub open spec fn saturating_sum(a: u64, b: u64) -> u64 {
    if a + b > u64::MAX {
        u64::MAX
    } else {
        (a + b) as u64
    }
}

/// Number of direct participations still to make: the participants missing to reach
/// `min_participants`, or exactly one (to close the swap) when that minimum is already reached.
pub open spec fn spec_remaining_participation_count(min_participants: u64, direct_participant_count: u64) -> u64 {
    if direct_participant_count >= min_participants {
        1
    } else {
        (min_participants - direct_participant_count) as u64
    }
}

/// Amount (in e8s) still open to direct participation; `None` when the maximum is reached.
pub open spec fn spec_remaining_participation_amount(max_direct_e8s: u64, direct_participation_e8s: u64) -> Option<u64> {
    if direct_participation_e8s >= max_direct_e8s {
        None
    } else {
        Some((max_direct_e8s - direct_participation_e8s) as u64)
    }
}

/// See [`spec_remaining_participation_count`].
pub fn remaining_participation_count(min_participants: u64, direct_participant_count: u64) -> (count: u64)
    ensures
        count == spec_remaining_participation_count(min_participants, direct_participant_count),
        direct_participant_count < min_participants ==> count == min_participants - direct_participant_count,
        direct_participant_count >= min_participants ==> count == 1,
        count + direct_participant_count >= min_participants,
{
    if direct_participant_count >= min_participants {
        1
    } else {
        min_participants.saturating_sub(direct_participant_count)
    }
}

/// See [`spec_remaining_participation_amount`].
pub fn remaining_participation_amount(max_direct_e8s: u64, direct_participation_e8s: u64) -> (amount: Option<u64>)
    ensures
        amount == spec_remaining_participation_amount(max_direct_e8s, direct_participation_e8s),
        direct_participation_e8s < max_direct_e8s ==> amount == Some((max_direct_e8s - direct_participation_e8s) as u64),
        direct_participation_e8s >= max_direct_e8s ==> amount is None,
{
    if direct_participation_e8s >= max_direct_e8s {
        None
    } else {
        Some(max_direct_e8s.saturating_sub(direct_participation_e8s))
    }
}

/// How much ICP a participant receives before participating with `participation_e8s`:
/// the participation plus the transfer fee, saturating.
pub fn participant_funding(participation_e8s: u64, fee_e8s: u64) -> (amount: u64)
    ensures
        amount == saturating_sum(participation_e8s, fee_e8s),
        participation_e8s + fee_e8s <= u64::MAX ==> amount == participation_e8s + fee_e8s,
        participation_e8s + fee_e8s > u64::MAX ==> amount == u64::MAX,
{
    participation_e8s.saturating_add(fee_e8s)
}

/// The ICP a swap participant has committed so far, from the swap's answer about its buyer
/// state: the amount of its ICP participation, and 0 when the query failed, the buyer is
/// unknown to the swap or holds no ICP participation.
pub fn current_participation(buyer_state: Result<Option<Option<u64>>, String>) -> (amount_e8s: u64)
    ensures
        amount_e8s == (match buyer_state {
            Ok(Some(Some(amount))) => amount,
            _ => 0,
        }),
{
    match buyer_state {
        Ok(Some(Some(amount))) => amount,
        _ => 0,
    }
}

/// The swap parameters that completing the swap reads.
pub struct SwapInit {
    pub min_participants: Option<u32>,
    pub max_direct_participation_icp_e8s: Option<u64>,
    pub confirmation_text: Option<String>,
}

/// The swap's derived state, as far as completing the swap reads it.
#[derive(Clone, Copy, PartialEq, Eq, Structural)]
pub struct SwapDerivedState {
    pub direct_participant_count: Option<u64>,
    pub direct_participation_icp_e8s: Option<u64>,
}

/// A neuron as reported to the procedure: its id and how it is written in messages.
pub struct NeuronHandle {
    pub id: SnsNeuronId,
    pub label: String,
}

/// Swap lifecycle stages that the procedure waits for.
#[derive(Clone, Copy, PartialEq, Eq, Structural)]
pub enum SwapLifecycle {
    Open,
    Committed,
}

/// The outcome of the call the procedure asked for.
pub enum SwapEvent {
    /// The awaited lifecycle was reached, or waiting failed.
    LifecycleReached(Result<(), String>),
    /// The swap's init (absent when the swap holds none).
    Init(Option<SwapInit>),
    DerivedState(Result<SwapDerivedState, String>),
    /// The amounts (e8s) of the individual direct participations the remaining amount splits into.
    Participations(Vec<u64>),
    /// The current participation (e8s) of the participant that was checked.
    CurrentParticipation(u64),
    /// The ledger transfer: the call failed, or the ledger refused, or it returned a block index.
    Transferred(Result<Result<u64, String>, String>),
    Participated(Result<(), String>),
    AutoFinalized(Result<(), String>),
    /// The SNS's minimum dissolve delay (seconds) for a neuron to vote.
    NervousSystemParameters(Result<Option<u64>, String>),
    /// The announcement was made.
    Continue,
    /// The neuron of the participant that was looked up; `caller` is the participant's principal
    /// as written in messages.
    CallerNeuron { caller: String, neuron: Result<Option<NeuronHandle>, String> },
    Followed(Result<(), String>),
    DissolveDelayIncreased(Result<(), String>),
}

/// The next thing to do. Participants are numbered in the order of the agents created for
/// [`SwapAction::SplitParticipation`].
pub enum SwapAction {
    AwaitLifecycle(SwapLifecycle),
    GetInit,
    GetDerivedState,
    /// Split `total_e8s` into `participation_count` participations and create
    /// `participant_count` participant agents.
    SplitParticipation { participation_count: u64, total_e8s: u64, participant_count: u32 },
    CheckParticipation { participant: usize },
    /// Transfer `amount_e8s` (paying `fee_e8s`) to the participant, from the ephemeral treasury
    /// identity when `from_treasury`, else from the calling identity.
    Transfer { participant: usize, amount_e8s: u64, fee_e8s: u64, from_treasury: bool },
    Participate { participant: usize, amount_e8s: u64, confirmation_text: Option<String> },
    AwaitAutoFinalization,
    GetNervousSystemParameters,
    AnnounceDissolveDelay { seconds: u32 },
    GetCallerNeuron { participant: usize },
    /// Make the participant's neuron follow `followee` on the given function.
    Follow { participant: usize, neuron: SnsNeuronId, followee: SnsNeuronId, function_id: u64 },
    IncreaseDissolveDelay { participant: usize, neuron: SnsNeuronId, seconds: u32 },
    /// Done: the direct participation is already at its maximum.
    MaximumParticipationReached,
    Finished(Result<(), String>),
    /// The procedure cannot go on (the caller stops with this message).
    Abort(String),
}

/// Where the procedure stands.
#[derive(Clone, Copy, PartialEq, Eq, Structural)]
pub enum SwapPhase {
    AwaitingOpen,
    AwaitingInit,
    AwaitingDerivedState,
    AwaitingParticipations,
    Checking { index: usize, participant: usize },
    Transferring { index: usize, participant: usize },
    Participating { index: usize, participant: usize },
    AwaitingCommitted,
    AwaitingAutoFinalization,
    AwaitingParameters,
    AnnouncingDissolveDelay,
    LookingUpNeuron { participant: usize },
    Following { participant: usize, followee: usize },
    IncreasingDissolveDelay { participant: usize },
    Finished,
}

pub enum SwapEventModel {
    LifecycleReached(Result<(), Seq<char>>),
    Init(Option<SwapInitModel>),
    DerivedState(Result<SwapDerivedState, Seq<char>>),
    Participations(Seq<u64>),
    CurrentParticipation(u64),
    Transferred(Result<Result<u64, Seq<char>>, Seq<char>>),
    Participated(Result<(), Seq<char>>),
    AutoFinalized(Result<(), Seq<char>>),
    NervousSystemParameters(Result<Option<u64>, Seq<char>>),
    Continue,
    CallerNeuron { caller: Seq<char>, neuron: Result<Option<(Seq<u8>, Seq<char>)>, Seq<char>> },
    Followed(Result<(), Seq<char>>),
    DissolveDelayIncreased(Result<(), Seq<char>>),
}

pub struct SwapInitModel {
    pub min_participants: Option<u32>,
    pub max_direct_participation_icp_e8s: Option<u64>,
    pub confirmation_text: Option<Seq<char>>,
}

pub enum SwapActionModel {
    AwaitLifecycle(SwapLifecycle),
    GetInit,
    GetDerivedState,
    SplitParticipation { participation_count: u64, total_e8s: u64, participant_count: u32 },
    CheckParticipation { participant: usize },
    Transfer { participant: usize, amount_e8s: u64, fee_e8s: u64, from_treasury: bool },
    Participate { participant: usize, amount_e8s: u64, confirmation_text: Option<Seq<char>> },
    AwaitAutoFinalization,
    GetNervousSystemParameters,
    AnnounceDissolveDelay { seconds: u32 },
    GetCallerNeuron { participant: usize },
    Follow { participant: usize, neuron: Seq<u8>, followee: Seq<u8>, function_id: u64 },
    IncreaseDissolveDelay { participant: usize, neuron: Seq<u8>, seconds: u32 },
    MaximumParticipationReached,
    Finished(Result<(), Seq<char>>),
    Abort(Seq<char>),
}

pub open spec fn unit_result_view(r: Result<(), String>) -> Result<(), Seq<char>> {
    match r {
        Ok(()) => Ok(()),
        Err(m) => Err(m@),
    }
}

pub open spec fn text_view(t: Option<String>) -> Option<Seq<char>> {
    match t {
        Some(s) => Some(s@),
        None => None,
    }
}

impl View for SwapEvent {
    type V = SwapEventModel;

    open spec fn view(&self) -> SwapEventModel {
        match self {
            SwapEvent::LifecycleReached(r) => SwapEventModel::LifecycleReached(unit_result_view(*r)),
            SwapEvent::Init(i) => SwapEventModel::Init(
                match i {
                    Some(init) => Some(
                        SwapInitModel {
                            min_participants: init.min_participants,
                            max_direct_participation_icp_e8s: init.max_direct_participation_icp_e8s,
                            confirmation_text: text_view(init.confirmation_text),
                        },
                    ),
                    None => None,
                },
            ),
            SwapEvent::DerivedState(r) => SwapEventModel::DerivedState(
                match r {
                    Ok(d) => Ok(*d),
                    Err(m) => Err(m@),
                },
            ),
            SwapEvent::Participations(p) => SwapEventModel::Participations(p@),
            SwapEvent::CurrentParticipation(v) => SwapEventModel::CurrentParticipation(*v),
            SwapEvent::Transferred(r) => SwapEventModel::Transferred(
                match r {
                    Ok(Ok(b)) => Ok(Ok(*b)),
                    Ok(Err(m)) => Ok(Err(m@)),
                    Err(m) => Err(m@),
                },
            ),
            SwapEvent::Participated(r) => SwapEventModel::Participated(unit_result_view(*r)),
            SwapEvent::AutoFinalized(r) => SwapEventModel::AutoFinalized(unit_result_view(*r)),
            SwapEvent::NervousSystemParameters(r) => SwapEventModel::NervousSystemParameters(
                match r {
                    Ok(d) => Ok(*d),
                    Err(m) => Err(m@),
                },
            ),
            SwapEvent::Continue => SwapEventModel::Continue,
            SwapEvent::CallerNeuron { caller, neuron } => SwapEventModel::CallerNeuron {
                caller: caller@,
                neuron: match neuron {
                    Ok(Some(h)) => Ok(Some((h.id@, h.label@))),
                    Ok(None) => Ok(None),
                    Err(m) => Err(m@),
                },
            },
            SwapEvent::Followed(r) => SwapEventModel::Followed(unit_result_view(*r)),
            SwapEvent::DissolveDelayIncreased(r) => SwapEventModel::DissolveDelayIncreased(unit_result_view(*r)),
        }
    }
}

impl View for SwapAction {
    type V = SwapActionModel;

    open spec fn view(&self) -> SwapActionModel {
        match self {
            SwapAction::AwaitLifecycle(l) => SwapActionModel::AwaitLifecycle(*l),
            SwapAction::GetInit => SwapActionModel::GetInit,
            SwapAction::GetDerivedState => SwapActionModel::GetDerivedState,
            SwapAction::SplitParticipation { participation_count, total_e8s, participant_count } =>
                SwapActionModel::SplitParticipation {
                participation_count: *participation_count,
                total_e8s: *total_e8s,
                participant_count: *participant_count,
            },
            SwapAction::CheckParticipation { participant } => SwapActionModel::CheckParticipation {
                participant: *participant,
            },
            SwapAction::Transfer { participant, amount_e8s, fee_e8s, from_treasury } => SwapActionModel::Transfer {
                participant: *participant,
                amount_e8s: *amount_e8s,
                fee_e8s: *fee_e8s,
                from_treasury: *from_treasury,
            },
            SwapAction::Participate { participant, amount_e8s, confirmation_text } => SwapActionModel::Participate {
                participant: *participant,
                amount_e8s: *amount_e8s,
                confirmation_text: text_view(*confirmation_text),
            },
            SwapAction::AwaitAutoFinalization => SwapActionModel::AwaitAutoFinalization,
            SwapAction::GetNervousSystemParameters => SwapActionModel::GetNervousSystemParameters,
            SwapAction::AnnounceDissolveDelay { seconds } => SwapActionModel::AnnounceDissolveDelay {
                seconds: *seconds,
            },
            SwapAction::GetCallerNeuron { participant } => SwapActionModel::GetCallerNeuron {
                participant: *participant,
            },
            SwapAction::Follow { participant, neuron, followee, function_id } => SwapActionModel::Follow {
                participant: *participant,
                neuron: neuron@,
                followee: followee@,
                function_id: *function_id,
            },
            SwapAction::IncreaseDissolveDelay { participant, neuron, seconds } =>
                SwapActionModel::IncreaseDissolveDelay {
                participant: *participant,
                neuron: neuron@,
                seconds: *seconds,
            },
            SwapAction::MaximumParticipationReached => SwapActionModel::MaximumParticipationReached,
            SwapAction::Finished(r) => SwapActionModel::Finished(unit_result_view(*r)),
            SwapAction::Abort(m) => SwapActionModel::Abort(m@),
        }
    }
}

/// The procedure that completes a swap, driven one call at a time: [`SwapCompletion::new`]
/// gives the first call to make, and [`SwapCompletion::step`] takes the outcome of the last
/// call and gives the next.
pub struct SwapCompletion {
    phase: SwapPhase,
    from_treasury: bool,
    transfer_fee_e8s: u64,
    neurons_to_follow: Vec<SnsNeuronId>,
    participant_count: u32,
    max_direct_participation_e8s: u64,
    confirmation_text: Option<String>,
    participations: Vec<u64>,
    dissolve_delay_seconds: u32,
    neuron: Option<NeuronHandle>,
}

/// The state of the procedure.
pub struct SwapCompletionModel {
    pub phase: SwapPhase,
    pub from_treasury: bool,
    pub transfer_fee_e8s: u64,
    pub neurons_to_follow: Seq<Seq<u8>>,
    pub participant_count: u32,
    pub max_direct_participation_e8s: u64,
    pub confirmation_text: Option<Seq<char>>,
    pub participations: Seq<u64>,
    pub dissolve_delay_seconds: u32,
    pub neuron: Option<(Seq<u8>, Seq<char>)>,
}

impl View for SwapCompletion {
    type V = SwapCompletionModel;

    closed spec fn view(&self) -> SwapCompletionModel {
        SwapCompletionModel {
            phase: self.phase,
            from_treasury: self.from_treasury,
            transfer_fee_e8s: self.transfer_fee_e8s,
            neurons_to_follow: self.neurons_to_follow@.map_values(|n: SnsNeuronId| n@),
            participant_count: self.participant_count,
            max_direct_participation_e8s: self.max_direct_participation_e8s,
            confirmation_text: text_view(self.confirmation_text),
            participations: self.participations@,
            dissolve_delay_seconds: self.dissolve_delay_seconds,
            neuron: match self.neuron {
                Some(h) => Some((h.id@, h.label@)),
                None => None,
            },
        }
    }
}

/// The function id of `UpgradeSnsControlledCanister` proposals, the function on which the
/// participants follow the given neurons.
pub open spec fn upgrade_function_id() -> u64 {
    3
}

impl SwapCompletionModel {
    /// The indices in the phase are in range.
    pub open spec fn wf(self) -> bool {
        &&& self.participations.len() <= usize::MAX
        &&& self.neurons_to_follow.len() <= usize::MAX
        &&& match self.phase {
            SwapPhase::Checking { index, participant }
            | SwapPhase::Transferring { index, participant }
            | SwapPhase::Participating { index, participant } => index < self.participations.len()
                && participant < self.participant_count,
            SwapPhase::LookingUpNeuron { participant } => participant < self.participant_count,
            SwapPhase::Following { participant, followee } => participant < self.participant_count
                && followee < self.neurons_to_follow.len() && self.neuron is Some,
            SwapPhase::IncreasingDissolveDelay { participant } => participant < self.participant_count
                && self.neuron is Some,
            _ => true,
        }
    }

    pub open spec fn in_phase(self, phase: SwapPhase) -> Self {
        SwapCompletionModel { phase, ..self }
    }

    /// Stop with the error `message`.
    pub open spec fn fail(self, message: Seq<char>) -> (Self, SwapActionModel) {
        (self.in_phase(SwapPhase::Finished), SwapActionModel::Finished(Err(message)))
    }

    /// Check participant `participant` for the participation at `index`, or move on to wait
    /// for the swap to commit when all participations are made.
    pub open spec fn check(self, index: int, participant: int) -> (Self, SwapActionModel) {
        if index >= self.participations.len() {
            (self.in_phase(SwapPhase::AwaitingCommitted), SwapActionModel::AwaitLifecycle(SwapLifecycle::Committed))
        } else if participant >= self.participant_count {
            (self.in_phase(SwapPhase::Finished), SwapActionModel::Abort(out_of_participants()))
        } else {
            (
                self.in_phase(SwapPhase::Checking { index: index as usize, participant: participant as usize }),
                SwapActionModel::CheckParticipation { participant: participant as usize },
            )
        }
    }

    /// Look up the neuron of participant `participant`, or finish when every participant is done.
    pub open spec fn look_up(self, participant: int) -> (Self, SwapActionModel) {
        if participant >= self.participant_count {
            (self.in_phase(SwapPhase::Finished), SwapActionModel::Finished(Ok(())))
        } else {
            (
                self.in_phase(SwapPhase::LookingUpNeuron { participant: participant as usize }),
                SwapActionModel::GetCallerNeuron { participant: participant as usize },
            )
        }
    }

    /// Have the participant's neuron follow neuron `followee`, or, when it follows them all,
    /// increase its dissolve delay.
    pub open spec fn follow_next(self, participant: int, followee: int) -> (Self, SwapActionModel) {
        let neuron = self.neuron.unwrap().0;
        if followee < self.neurons_to_follow.len() {
            (
                self.in_phase(SwapPhase::Following { participant: participant as usize, followee: followee as usize }),
                SwapActionModel::Follow {
                    participant: participant as usize,
                    neuron,
                    followee: self.neurons_to_follow[followee],
                    function_id: upgrade_function_id(),
                },
            )
        } else {
            (
                self.in_phase(SwapPhase::IncreasingDissolveDelay { participant: participant as usize }),
                SwapActionModel::IncreaseDissolveDelay {
                    participant: participant as usize,
                    neuron,
                    seconds: self.dissolve_delay_seconds,
                },
            )
        }
    }

    /// The step of the procedure: the next state and the next call, from the outcome of the
    /// last call.
    pub open spec fn next(self, event: SwapEventModel) -> (Self, SwapActionModel) {
        match self.phase {
            SwapPhase::AwaitingOpen => match event {
                SwapEventModel::LifecycleReached(Ok(())) => (
                    self.in_phase(SwapPhase::AwaitingInit),
                    SwapActionModel::GetInit,
                ),
                SwapEventModel::LifecycleReached(Err(m)) => self.fail(m),
                _ => self.unexpected(),
            },
            SwapPhase::AwaitingInit => match event {
                SwapEventModel::Init(None) => self.fail("Expecting the swap init to be set"@),
                SwapEventModel::Init(Some(init)) => match init.min_participants {
                    None => self.fail("Expecting the minimum number of participants to be set"@),
                    Some(min) => match init.max_direct_participation_icp_e8s {
                        None => self.fail("Expecting the maximum direct participation to be set"@),
                        Some(max) => (
                            SwapCompletionModel {
                                phase: SwapPhase::AwaitingDerivedState,
                                participant_count: min,
                                max_direct_participation_e8s: max,
                                confirmation_text: init.confirmation_text,
                                ..self
                            },
                            SwapActionModel::GetDerivedState,
                        ),
                    },
                },
                _ => self.unexpected(),
            },
            SwapPhase::AwaitingDerivedState => match event {
                SwapEventModel::DerivedState(Err(m)) => self.fail("Failed to get swap derived state: "@ + m),
                SwapEventModel::DerivedState(Ok(d)) => {
                    let count = match d.direct_participant_count { Some(c) => c, None => 0 };
                    let current = match d.direct_participation_icp_e8s { Some(c) => c, None => 0 };
                    match spec_remaining_participation_amount(self.max_direct_participation_e8s, current) {
                        None => (self.in_phase(SwapPhase::Finished), SwapActionModel::MaximumParticipationReached),
                        Some(total) => (
                            self.in_phase(SwapPhase::AwaitingParticipations),
                            SwapActionModel::SplitParticipation {
                                participation_count: spec_remaining_participation_count(
                                    self.participant_count as u64,
                                    count,
                                ),
                                total_e8s: total,
                                participant_count: self.participant_count,
                            },
                        ),
                    }
                },
                _ => self.unexpected(),
            },
            SwapPhase::AwaitingParticipations => match event {
                SwapEventModel::Participations(p) => SwapCompletionModel { participations: p, ..self }.check(0, 0),
                _ => self.unexpected(),
            },
            SwapPhase::Checking { index, participant } => match event {
                SwapEventModel::CurrentParticipation(v) => if v != 0 {
                    self.check(index as int, participant + 1)
                } else {
                    (
                        self.in_phase(SwapPhase::Transferring { index, participant }),
                        SwapActionModel::Transfer {
                            participant,
                            amount_e8s: saturating_sum(self.participations[index as int], self.transfer_fee_e8s),
                            fee_e8s: self.transfer_fee_e8s,
                            from_treasury: self.from_treasury,
                        },
                    )
                },
                _ => self.unexpected(),
            },
            SwapPhase::Transferring { index, participant } => match event {
                SwapEventModel::Transferred(Err(m)) => self.fail(
                    "Failed to transfer ICP to swap participant: "@ + m,
                ),
                SwapEventModel::Transferred(Ok(Err(m))) => self.fail("ICP transfer returned an error: "@ + m),
                SwapEventModel::Transferred(Ok(Ok(_))) => (
                    self.in_phase(SwapPhase::Participating { index, participant }),
                    SwapActionModel::Participate {
                        participant,
                        amount_e8s: self.participations[index as int],
                        confirmation_text: self.confirmation_text,
                    },
                ),
                _ => self.unexpected(),
            },
            SwapPhase::Participating { index, participant } => match event {
                SwapEventModel::Participated(Err(m)) => self.fail(m),
                SwapEventModel::Participated(Ok(())) => self.check(index + 1, participant + 1),
                _ => self.unexpected(),
            },
            SwapPhase::AwaitingCommitted => match event {
                SwapEventModel::LifecycleReached(Ok(())) => (
                    self.in_phase(SwapPhase::AwaitingAutoFinalization),
                    SwapActionModel::AwaitAutoFinalization,
                ),
                SwapEventModel::LifecycleReached(Err(m)) => self.fail(m),
                _ => self.unexpected(),
            },
            SwapPhase::AwaitingAutoFinalization => match event {
                SwapEventModel::AutoFinalized(Ok(())) => (
                    self.in_phase(SwapPhase::AwaitingParameters),
                    SwapActionModel::GetNervousSystemParameters,
                ),
                SwapEventModel::AutoFinalized(Err(m)) => self.fail(m),
                _ => self.unexpected(),
            },
            SwapPhase::AwaitingParameters => match event {
                SwapEventModel::NervousSystemParameters(Err(m)) => self.fail(
                    "Failed to get nervous system parameters: "@ + m,
                ),
                SwapEventModel::NervousSystemParameters(Ok(None)) => self.fail(
                    "Expecting the neuron minimum dissolve delay to be set"@,
                ),
                SwapEventModel::NervousSystemParameters(Ok(Some(d))) => (
                    SwapCompletionModel {
                        phase: SwapPhase::AnnouncingDissolveDelay,
                        dissolve_delay_seconds: d as u32,
                        ..self
                    },
                    SwapActionModel::AnnounceDissolveDelay { seconds: d as u32 },
                ),
                _ => self.unexpected(),
            },
            SwapPhase::AnnouncingDissolveDelay => match event {
                SwapEventModel::Continue => self.look_up(0),
                _ => self.unexpected(),
            },
            SwapPhase::LookingUpNeuron { participant } => match event {
                SwapEventModel::CallerNeuron { caller, neuron: Err(m) } => self.fail(
                    "Failed to get the caller neuron for "@ + caller + ": "@ + m,
                ),
                SwapEventModel::CallerNeuron { caller, neuron: Ok(None) } => self.look_up(participant + 1),
                SwapEventModel::CallerNeuron { caller, neuron: Ok(Some(h)) } => SwapCompletionModel {
                    neuron: Some(h),
                    ..self
                }.follow_next(participant as int, 0),
                _ => self.unexpected(),
            },
            SwapPhase::Following { participant, followee } => match event {
                SwapEventModel::Followed(Err(m)) => self.fail(
                    "Neuron "@ + self.neuron.unwrap().1 + " failed to follow the neuron: "@ + m,
                ),
                SwapEventModel::Followed(Ok(())) => self.follow_next(participant as int, followee + 1),
                _ => self.unexpected(),
            },
            SwapPhase::IncreasingDissolveDelay { participant } => match event {
                SwapEventModel::DissolveDelayIncreased(Err(m)) => self.fail(
                    "Failed to increase dissolve delay for neuron "@ + self.neuron.unwrap().1 + ": "@ + m,
                ),
                SwapEventModel::DissolveDelayIncreased(Ok(())) => self.look_up(participant + 1),
                _ => self.unexpected(),
            },
            SwapPhase::Finished => self.unexpected(),
        }
    }

    /// An outcome arrived that answers no call the procedure made.
    pub open spec fn unexpected(self) -> (Self, SwapActionModel) {
        (self.in_phase(SwapPhase::Finished), SwapActionModel::Abort(unexpected_event()))
    }
}

pub open spec fn out_of_participants() -> Seq<char> {
    "no swap participant is left to participate"@
}

pub open spec fn unexpected_event() -> Seq<char> {
    "the swap completion received an outcome it did not ask for"@
}

/// The participant a phase is working with, if any.
pub open spec fn participant_in(phase: SwapPhase) -> Option<int> {
    match phase {
        SwapPhase::Checking { participant, .. }
        | SwapPhase::Transferring { participant, .. }
        | SwapPhase::Participating { participant, .. } => Some(participant as int),
        _ => None,
    }
}

/// How far the procedure still is from its end: a stage, then two counters within it.
pub open spec fn remaining_work(m: SwapCompletionModel) -> (nat, nat, nat) {
    let n = m.participant_count as int;
    let len = m.participations.len() as int;
    let f = m.neurons_to_follow.len() as int;
    match m.phase {
        SwapPhase::AwaitingOpen => (12, 0, 0),
        SwapPhase::AwaitingInit => (11, 0, 0),
        SwapPhase::AwaitingDerivedState => (10, 0, 0),
        SwapPhase::AwaitingParticipations => (9, 0, 0),
        SwapPhase::Checking { index, participant } => (8, (len - index) as nat, (2 * (n - participant) + 2) as nat),
        SwapPhase::Transferring { index, participant } => (8, (len - index) as nat, 1),
        SwapPhase::Participating { index, participant } => (8, (len - index) as nat, 0),
        SwapPhase::AwaitingCommitted => (7, 0, 0),
        SwapPhase::AwaitingAutoFinalization => (6, 0, 0),
        SwapPhase::AwaitingParameters => (5, 0, 0),
        SwapPhase::AnnouncingDissolveDelay => (4, 0, 0),
        SwapPhase::LookingUpNeuron { participant } => (3, (n - participant) as nat, (f + 2) as nat),
        SwapPhase::Following { participant, followee } => (3, (n - participant) as nat, (f - followee + 1) as nat),
        SwapPhase::IncreasingDissolveDelay { participant } => (3, (n - participant) as nat, 0),
        SwapPhase::Finished => (0, 0, 0),
    }
}

pub open spec fn lex_below(a: (nat, nat, nat), b: (nat, nat, nat)) -> bool {
    a.0 < b.0 || (a.0 == b.0 && (a.1 < b.1 || (a.1 == b.1 && a.2 < b.2)))
}

/// Completing a swap always ends: every step that does not start from the end moves the
/// procedure strictly closer to it, whatever the outcome it receives.
pub proof fn lemma_swap_completion_ends(m: SwapCompletionModel, e: SwapEventModel)
    requires
        m.wf(),
        m.phase != SwapPhase::Finished,
    ensures
        lex_below(remaining_work(m.next(e).0), remaining_work(m)),
{
    match m.phase {
        SwapPhase::AwaitingParticipations => {
            if let SwapEventModel::Participations(p) = e {
                assert(SwapCompletionModel { participations: p, ..m }.check(0, 0) == m.next(e));
            }
        },
        SwapPhase::LookingUpNeuron { participant } => {
            if let SwapEventModel::CallerNeuron { caller, neuron: Ok(Some(h)) } = e {
                assert(SwapCompletionModel { neuron: Some(h), ..m }.follow_next(participant as int, 0) == m.next(e));
            }
        },
        _ => {},
    }
}

/// Participants are used in order and none is used twice: a step never moves back to an
/// earlier participant, and once a participant has participated the procedure only goes on
/// with later ones.
pub proof fn lemma_participants_advance(m: SwapCompletionModel, e: SwapEventModel)
    requires
        m.wf(),
    ensures
        participant_in(m.phase) is Some && participant_in(m.next(e).0.phase) is Some
            ==> participant_in(m.next(e).0.phase).unwrap() >= participant_in(m.phase).unwrap(),
        m.phase is Participating && participant_in(m.next(e).0.phase) is Some
            ==> participant_in(m.next(e).0.phase).unwrap() == participant_in(m.phase).unwrap() + 1,
{
}

/// ICP is only sent to a participant that was found not to have participated yet, and always
/// the amount of the pending participation plus the transfer fee; a successful transfer is
/// followed by that participant participating with exactly the pending amount.
pub proof fn lemma_transfers_fund_fresh_participants(m: SwapCompletionModel, e: SwapEventModel)
    requires
        m.wf(),
    ensures
        (m.next(e).1 matches SwapActionModel::Transfer { participant, amount_e8s, .. } ==> {
            &&& m.phase matches SwapPhase::Checking { index, participant: p }
            &&& p == participant
            &&& e == SwapEventModel::CurrentParticipation(0)
            &&& amount_e8s == saturating_sum(m.participations[index as int], m.transfer_fee_e8s)
        }),
        (m.next(e).1 matches SwapActionModel::Participate { participant, amount_e8s, .. } ==> {
            &&& m.phase matches SwapPhase::Transferring { index, participant: p }
            &&& p == participant
            &&& e matches SwapEventModel::Transferred(Ok(Ok(_)))
            &&& amount_e8s == m.participations[index as int]
        }),
        m.next(e).1 is Participate ==> m.next(e).1->Participate_confirmation_text == m.confirmation_text,
{
}

/// The planned participation fills the swap exactly: the amount split among the remaining
/// participations, added to the direct participation already committed, is the maximum direct
/// participation; and when the maximum is already reached the procedure ends with no transfer.
pub proof fn lemma_plan_fills_the_swap(m: SwapCompletionModel, d: SwapDerivedState)
    requires
        m.phase == SwapPhase::AwaitingDerivedState,
    ensures
        ({
            let current = match d.direct_participation_icp_e8s {
                Some(c) => c,
                None => 0,
            };
            let (next, action) = m.next(SwapEventModel::DerivedState(Ok(d)));
            &&& current >= m.max_direct_participation_e8s ==> next.phase == SwapPhase::Finished
                && action == SwapActionModel::MaximumParticipationReached
            &&& current < m.max_direct_participation_e8s ==> (action matches SwapActionModel::SplitParticipation {
                total_e8s,
                participation_count,
                participant_count,
            } && total_e8s + current == m.max_direct_participation_e8s && participation_count >= 1
                && participant_count == m.participant_count)
        }),
{
}

/// A participant's neuron follows every given neuron, in order, before its dissolve delay is
/// increased: a dissolve delay increase comes right after the follow of the last neuron, or
/// right after the lookup when there is no neuron to follow.
pub proof fn lemma_follows_precede_dissolve_delay(m: SwapCompletionModel, e: SwapEventModel)
    requires
        m.wf(),
    ensures
        m.next(e).1 is IncreaseDissolveDelay ==> {
            let participant = m.next(e).1->IncreaseDissolveDelay_participant;
            ||| m.phase == (SwapPhase::Following { participant, followee: (m.neurons_to_follow.len() - 1) as usize })
                && e is Followed && e->Followed_0 is Ok
            ||| m.phase == (SwapPhase::LookingUpNeuron { participant }) && m.neurons_to_follow.len() == 0
        },
        m.next(e).1 is Follow ==> {
            let participant = m.next(e).1->Follow_participant;
            let followee = m.next(e).1->Follow_followee;
            ||| (m.phase matches SwapPhase::Following { participant: p, followee: f } && p == participant
                && followee == m.neurons_to_follow[f + 1] && e is Followed && e->Followed_0 is Ok)
            ||| (m.phase == (SwapPhase::LookingUpNeuron { participant }) && followee == m.neurons_to_follow[0])
        },
{
    match m.phase {
        SwapPhase::LookingUpNeuron { participant } => {
            if let SwapEventModel::CallerNeuron { caller, neuron: Ok(Some(h)) } = e {
                let m2 = SwapCompletionModel { neuron: Some(h), ..m };
                assert(m2.follow_next(participant as int, 0) == m.next(e));
                assert(m2.neurons_to_follow == m.neurons_to_follow);
                if m.neurons_to_follow.len() > 0 {
                    assert(m.next(e).1 is Follow);
                    assert(m.next(e).1->Follow_participant == participant);
                    assert(m.next(e).1->Follow_followee == m.neurons_to_follow[0]);
                } else {
                    assert(m.next(e).1 is IncreaseDissolveDelay);
                    assert(m.next(e).1->IncreaseDissolveDelay_participant == participant);
                }
            } else {
                assert(!(m.next(e).1 is Follow));
                assert(!(m.next(e).1 is IncreaseDissolveDelay));
            }
        },
        SwapPhase::Following { participant, followee } => {
            if e is Followed && e->Followed_0 is Ok {
                assert(m.follow_next(participant as int, followee + 1) == m.next(e));
                if followee + 1 >= m.neurons_to_follow.len() {
                    assert(followee == (m.neurons_to_follow.len() - 1) as usize);
                }
            } else {
                assert(!(m.next(e).1 is Follow));
                assert(!(m.next(e).1 is IncreaseDissolveDelay));
            }
        },
        SwapPhase::IncreasingDissolveDelay { participant } => {
            assert(!(m.next(e).1 is Follow));
            assert(!(m.next(e).1 is IncreaseDissolveDelay));
        },
        _ => {
            assert(!(m.next(e).1 is Follow));
            assert(!(m.next(e).1 is IncreaseDissolveDelay));
        },
    }
}

/// The remaining participations bring the swap to its minimum number of participants: when
/// the minimum is not reached, as many participations as participants are missing, and
/// exactly one otherwise.
pub proof fn lemma_remaining_participations_reach_the_minimum(min_participants: u64, direct_participant_count: u64)
    ensures
        spec_remaining_participation_count(min_participants, direct_participant_count) + direct_participant_count
            >= min_participants,
        direct_participant_count < min_participants ==> spec_remaining_participation_count(
            min_participants,
            direct_participant_count,
        ) == min_participants - direct_participant_count,
        direct_participant_count >= min_participants ==> spec_remaining_participation_count(
            min_participants,
            direct_participant_count,
        ) == 1,
{
}

/// Each participant acts on its own neuron: right after a participant's lookup finds a neuron,
/// the next follow or dissolve delay increase is for that participant and names that neuron,
/// whatever neuron an earlier participant had.
pub proof fn lemma_participant_acts_on_its_own_neuron(
    m: SwapCompletionModel,
    participant: usize,
    caller: Seq<char>,
    neuron: Seq<u8>,
    label: Seq<char>,
)
    requires
        m.wf(),
        m.phase == (SwapPhase::LookingUpNeuron { participant }),
    ensures
        ({
            let (next, action) = m.next(SwapEventModel::CallerNeuron { caller, neuron: Ok(Some((neuron, label))) });
            &&& next.neuron == Some((neuron, label))
            &&& m.neurons_to_follow.len() > 0 ==> action == SwapActionModel::Follow {
                participant,
                neuron,
                followee: m.neurons_to_follow[0],
                function_id: 3,
            }
            &&& m.neurons_to_follow.len() == 0 ==> action == SwapActionModel::IncreaseDissolveDelay {
                participant,
                neuron,
                seconds: m.dissolve_delay_seconds,
            }
        }),
{
}

/// While a participant's neuron follows the given neurons and has its dissolve delay raised,
/// the procedure keeps that neuron: every follow and every dissolve delay increase names the
/// neuron the participant's lookup found, and the neuron is only replaced by a new lookup.
pub proof fn lemma_neuron_is_kept_for_its_participant(m: SwapCompletionModel, e: SwapEventModel)
    requires
        m.wf(),
        m.phase is Following || m.phase is IncreasingDissolveDelay,
    ensures
        m.next(e).0.neuron == m.neuron,
        m.next(e).1 is Follow ==> m.next(e).1->Follow_neuron == m.neuron.unwrap().0
            && m.next(e).1->Follow_participant == m.phase->Following_participant && m.next(e).1->Follow_function_id == 3,
        m.next(e).1 is IncreaseDissolveDelay ==> m.next(e).1->IncreaseDissolveDelay_neuron == m.neuron.unwrap().0
            && m.next(e).1->IncreaseDissolveDelay_participant == m.phase->Following_participant,
{
}

/// A participant that already participated is passed over for the next one (the procedure
/// stops when none is left); a participant that has not is funded with the pending
/// participation plus the fee (saturating at the largest `u64`), from the treasury when asked.
pub proof fn lemma_checked_participant_is_funded_only_when_fresh(m: SwapCompletionModel, index: usize, participant: usize, v: u64)
    requires
        m.wf(),
        m.phase == (SwapPhase::Checking { index, participant }),
    ensures
        ({
            let (next, action) = m.next(SwapEventModel::CurrentParticipation(v));
            let amount = m.participations[index as int];
            &&& v != 0 && participant + 1 < m.participant_count ==> next.phase == (SwapPhase::Checking {
                index,
                participant: (participant + 1) as usize,
            }) && action == (SwapActionModel::CheckParticipation { participant: (participant + 1) as usize })
            &&& v != 0 && participant + 1 >= m.participant_count ==> action is Abort
            &&& v == 0 && amount + m.transfer_fee_e8s <= u64::MAX ==> action == (SwapActionModel::Transfer {
                participant,
                amount_e8s: (amount + m.transfer_fee_e8s) as u64,
                fee_e8s: m.transfer_fee_e8s,
                from_treasury: m.from_treasury,
            })
            &&& v == 0 && amount + m.transfer_fee_e8s > u64::MAX ==> action == (SwapActionModel::Transfer {
                participant,
                amount_e8s: u64::MAX,
                fee_e8s: m.transfer_fee_e8s,
                from_treasury: m.from_treasury,
            })
        }),
{
}

/// Every planned participation is made, in order, each by the next participant: after the
/// participation at `index`, the next one is checked with the next participant, and once the
/// last one is made the procedure waits for the swap to commit.
pub proof fn lemma_every_participation_is_made(m: SwapCompletionModel, index: usize, participant: usize)
    requires
        m.wf(),
        m.phase == (SwapPhase::Participating { index, participant }),
    ensures
        ({
            let (next, action) = m.next(SwapEventModel::Participated(Ok(())));
            &&& index + 1 < m.participations.len() && participant + 1 < m.participant_count ==> action == (
            SwapActionModel::CheckParticipation { participant: (participant + 1) as usize })
                && next.phase == (SwapPhase::Checking {
                index: (index + 1) as usize,
                participant: (participant + 1) as usize,
            })
            &&& index + 1 == m.participations.len() ==> action == SwapActionModel::AwaitLifecycle(
                SwapLifecycle::Committed,
            )
        }),
{
}

/// The participation starts with the first amount and the first participant, and a successful
/// transfer is followed by the participation with the swap's confirmation text.
pub proof fn lemma_participation_starts_at_the_first(m: SwapCompletionModel, amounts: Seq<u64>)
    requires
        m.wf(),
        m.phase == SwapPhase::AwaitingParticipations,
        amounts.len() > 0,
        m.participant_count > 0,
    ensures
        m.next(SwapEventModel::Participations(amounts)).1 == (SwapActionModel::CheckParticipation { participant: 0 }),
        m.next(SwapEventModel::Participations(amounts)).0.participations == amounts,
{
}

/// The swap's init sets the number of participants, the maximum direct participation and the
/// confirmation text that every participation then carries.
pub proof fn lemma_init_is_recorded(m: SwapCompletionModel, min: u32, max: u64, text: Option<Seq<char>>)
    requires
        m.phase == SwapPhase::AwaitingInit,
    ensures
        ({
            let init = SwapInitModel {
                min_participants: Some(min),
                max_direct_participation_icp_e8s: Some(max),
                confirmation_text: text,
            };
            let (next, action) = m.next(SwapEventModel::Init(Some(init)));
            &&& next.participant_count == min
            &&& next.max_direct_participation_e8s == max
            &&& next.confirmation_text == text
            &&& action == SwapActionModel::GetDerivedState
        }),
{
}

/// Every participant's neuron is looked up, in order: after a participant without a neuron,
/// or after a participant's dissolve delay was raised, the next participant is looked up, and
/// the procedure finishes successfully once the last one is done.
pub proof fn lemma_every_participant_is_looked_up(m: SwapCompletionModel, participant: usize, e: SwapEventModel)
    requires
        m.wf(),
        (m.phase == (SwapPhase::LookingUpNeuron { participant }) && (e matches SwapEventModel::CallerNeuron {
            neuron: Ok(None),
            ..
        })) || (m.phase == (SwapPhase::IncreasingDissolveDelay { participant }) && e is DissolveDelayIncreased
            && e->DissolveDelayIncreased_0 is Ok),
    ensures
        participant + 1 < m.participant_count ==> m.next(e).1 == (SwapActionModel::GetCallerNeuron {
            participant: (participant + 1) as usize,
        }),
        participant + 1 >= m.participant_count ==> m.next(e).1 == SwapActionModel::Finished(Ok(())),
{
}

/// The dissolve delay the neurons get is the SNS's minimum dissolve delay to vote, cut to 32
/// bits, and it is the one every later dissolve delay increase uses.
pub proof fn lemma_dissolve_delay_is_the_voting_minimum(m: SwapCompletionModel, d: u64, e: SwapEventModel)
    requires
        m.wf(),
    ensures
        m.phase == SwapPhase::AwaitingParameters ==> m.next(SwapEventModel::NervousSystemParameters(Ok(Some(d)))).1
            == (SwapActionModel::AnnounceDissolveDelay { seconds: (d % 0x1_0000_0000) as u32 })
            && m.next(SwapEventModel::NervousSystemParameters(Ok(Some(d)))).0.dissolve_delay_seconds == (d
            % 0x1_0000_0000) as u32,
        m.phase != SwapPhase::AwaitingParameters ==> m.next(e).0.dissolve_delay_seconds == m.dissolve_delay_seconds,
        m.next(e).1 is IncreaseDissolveDelay ==> m.next(e).1->IncreaseDissolveDelay_seconds == m.dissolve_delay_seconds,
{
    if m.phase == SwapPhase::AwaitingParameters {
        assert((d as u32) == (d % 0x1_0000_0000) as u32) by (bit_vector);
    }
    match m.phase {
        SwapPhase::LookingUpNeuron { participant } => {
            if let SwapEventModel::CallerNeuron { caller, neuron: Ok(Some(h)) } = e {
                assert(SwapCompletionModel { neuron: Some(h), ..m }.follow_next(participant as int, 0) == m.next(e));
            }
        },
        _ => {},
    }
}

/// Once the procedure has ended it asks for nothing more.
pub proof fn lemma_finished_is_final(m: SwapCompletionModel, e: SwapEventModel)
    requires
        m.phase == SwapPhase::Finished,
    ensures
        m.next(e).0.phase == SwapPhase::Finished,
        m.next(e).1 is Abort,
{
}

impl SwapCompletion {
    /// Starts completing a swap: the participants follow `neurons_to_follow`, and they are
    /// funded from the ephemeral treasury identity when `use_ephemeral_icp_treasury`, paying a
    /// ledger fee of `transfer_fee_e8s`. The first call is to wait for the swap to open.
    pub fn new(use_ephemeral_icp_treasury: bool, transfer_fee_e8s: u64, neurons_to_follow: Vec<SnsNeuronId>) -> (r: (
        SwapCompletion,
        SwapAction,
    ))
        ensures
            r.0@ == (SwapCompletionModel {
                phase: SwapPhase::AwaitingOpen,
                from_treasury: use_ephemeral_icp_treasury,
                transfer_fee_e8s,
                neurons_to_follow: neurons_to_follow@.map_values(|n: SnsNeuronId| n@),
                participant_count: 0,
                max_direct_participation_e8s: 0,
                confirmation_text: None,
                participations: Seq::empty(),
                dissolve_delay_seconds: 0,
                neuron: None,
            }),
            r.0@.wf(),
            r.1@ == SwapActionModel::AwaitLifecycle(SwapLifecycle::Open),
    {
        let machine = SwapCompletion {
            phase: SwapPhase::AwaitingOpen,
            from_treasury: use_ephemeral_icp_treasury,
            transfer_fee_e8s,
            neurons_to_follow,
            participant_count: 0,
            max_direct_participation_e8s: 0,
            confirmation_text: None,
            participations: Vec::new(),
            dissolve_delay_seconds: 0,
            neuron: None,
        };
        proof {
            assert(machine@.participations =~= Seq::<u64>::empty());
            machine.lemma_view_bounds();
        }
        (machine, SwapAction::AwaitLifecycle(SwapLifecycle::Open))
    }
    /// Takes the outcome of the last call and gives the next call to make.
    pub fn step(&mut self, event: SwapEvent) -> (action: SwapAction)
        requires
            old(self)@.wf(),
        ensures
            final(self)@.wf(),
            (final(self)@, action@) == old(self)@.next(event@),
    {
        match self.phase {
            SwapPhase::AwaitingOpen => match event {
                SwapEvent::LifecycleReached(Ok(())) => {
                    self.phase = SwapPhase::AwaitingInit;
                    SwapAction::GetInit
                },
                SwapEvent::LifecycleReached(Err(m)) => self.fail(m),
                _ => self.unexpected(),
            },
            SwapPhase::AwaitingInit => match event {
                SwapEvent::Init(None) => self.fail(String::from_str("Expecting the swap init to be set")),
                SwapEvent::Init(Some(init)) => match init.min_participants {
                    None => self.fail(String::from_str("Expecting the minimum number of participants to be set")),
                    Some(min) => match init.max_direct_participation_icp_e8s {
                        None => self.fail(String::from_str("Expecting the maximum direct participation to be set")),
                        Some(max) => {
                            self.phase = SwapPhase::AwaitingDerivedState;
                            self.participant_count = min;
                            self.max_direct_participation_e8s = max;
                            self.confirmation_text = init.confirmation_text;
                            SwapAction::GetDerivedState
                        },
                    },
                },
                _ => self.unexpected(),
            },
            SwapPhase::AwaitingDerivedState => match event {
                SwapEvent::DerivedState(Err(m)) => self.fail(
                    String::from_str("Failed to get swap derived state: ").concat(m.as_str()),
                ),
                SwapEvent::DerivedState(Ok(d)) => {
                    let count = match d.direct_participant_count {
                        Some(c) => c,
                        None => 0,
                    };
                    let current = match d.direct_participation_icp_e8s {
                        Some(c) => c,
                        None => 0,
                    };
                    match remaining_participation_amount(self.max_direct_participation_e8s, current) {
                        None => {
                            self.phase = SwapPhase::Finished;
                            SwapAction::MaximumParticipationReached
                        },
                        Some(total) => {
                            self.phase = SwapPhase::AwaitingParticipations;
                            SwapAction::SplitParticipation {
                                participation_count: remaining_participation_count(
                                    self.participant_count as u64,
                                    count,
                                ),
                                total_e8s: total,
                                participant_count: self.participant_count,
                            }
                        },
                    }
                },
                _ => self.unexpected(),
            },
            SwapPhase::AwaitingParticipations => match event {
                SwapEvent::Participations(p) => {
                    self.participations = p;
                    self.check(0, 0)
                },
                _ => self.unexpected(),
            },
            SwapPhase::Checking { index, participant } => match event {
                SwapEvent::CurrentParticipation(v) => {
                    if v != 0 {
                        self.check(index, participant + 1)
                    } else {
                        self.phase = SwapPhase::Transferring { index, participant };
                        SwapAction::Transfer {
                            participant,
                            amount_e8s: participant_funding(self.participations[index], self.transfer_fee_e8s),
                            fee_e8s: self.transfer_fee_e8s,
                            from_treasury: self.from_treasury,
                        }
                    }
                },
                _ => self.unexpected(),
            },
            SwapPhase::Transferring { index, participant } => match event {
                SwapEvent::Transferred(Err(m)) => self.fail(
                    String::from_str("Failed to transfer ICP to swap participant: ").concat(m.as_str()),
                ),
                SwapEvent::Transferred(Ok(Err(m))) => self.fail(
                    String::from_str("ICP transfer returned an error: ").concat(m.as_str()),
                ),
                SwapEvent::Transferred(Ok(Ok(_))) => {
                    self.phase = SwapPhase::Participating { index, participant };
                    let confirmation_text = match &self.confirmation_text {
                        Some(t) => Some(t.clone()),
                        None => None,
                    };
                    SwapAction::Participate { participant, amount_e8s: self.participations[index], confirmation_text }
                },
                _ => self.unexpected(),
            },
            SwapPhase::Participating { index, participant } => match event {
                SwapEvent::Participated(Err(m)) => self.fail(m),
                SwapEvent::Participated(Ok(())) => {
                    assert(index < self.participations.len());
                    self.check(index + 1, participant + 1)
                },
                _ => self.unexpected(),
            },
            SwapPhase::AwaitingCommitted => match event {
                SwapEvent::LifecycleReached(Ok(())) => {
                    self.phase = SwapPhase::AwaitingAutoFinalization;
                    SwapAction::AwaitAutoFinalization
                },
                SwapEvent::LifecycleReached(Err(m)) => self.fail(m),
                _ => self.unexpected(),
            },
            SwapPhase::AwaitingAutoFinalization => match event {
                SwapEvent::AutoFinalized(Ok(())) => {
                    self.phase = SwapPhase::AwaitingParameters;
                    SwapAction::GetNervousSystemParameters
                },
                SwapEvent::AutoFinalized(Err(m)) => self.fail(m),
                _ => self.unexpected(),
            },
            SwapPhase::AwaitingParameters => match event {
                SwapEvent::NervousSystemParameters(Err(m)) => self.fail(
                    String::from_str("Failed to get nervous system parameters: ").concat(m.as_str()),
                ),
                SwapEvent::NervousSystemParameters(Ok(None)) => self.fail(
                    String::from_str("Expecting the neuron minimum dissolve delay to be set"),
                ),
                SwapEvent::NervousSystemParameters(Ok(Some(d))) => {
                    let seconds = #[verifier::truncate] (d as u32);
                    self.phase = SwapPhase::AnnouncingDissolveDelay;
                    self.dissolve_delay_seconds = seconds;
                    SwapAction::AnnounceDissolveDelay { seconds }
                },
                _ => self.unexpected(),
            },
            SwapPhase::AnnouncingDissolveDelay => match event {
                SwapEvent::Continue => self.look_up(0),
                _ => self.unexpected(),
            },
            SwapPhase::LookingUpNeuron { participant } => match event {
                SwapEvent::CallerNeuron { caller, neuron: Err(m) } => self.fail(
                    String::from_str("Failed to get the caller neuron for ").concat(caller.as_str()).concat(
                        ": ",
                    ).concat(m.as_str()),
                ),
                SwapEvent::CallerNeuron { caller: _, neuron: Ok(None) } => self.look_up(participant + 1),
                SwapEvent::CallerNeuron { caller: _, neuron: Ok(Some(h)) } => {
                    self.neuron = Some(h);
                    self.follow_next(participant, 0)
                },
                _ => self.unexpected(),
            },
            SwapPhase::Following { participant, followee } => match event {
                SwapEvent::Followed(Err(m)) => {
                    let label = self.neuron_label();
                    self.fail(
                        String::from_str("Neuron ").concat(label.as_str()).concat(
                            " failed to follow the neuron: ",
                        ).concat(m.as_str()),
                    )
                },
                SwapEvent::Followed(Ok(())) => {
                    assert(followee < self.neurons_to_follow.len());
                    self.follow_next(participant, followee + 1)
                },
                _ => self.unexpected(),
            },
            SwapPhase::IncreasingDissolveDelay { participant } => match event {
                SwapEvent::DissolveDelayIncreased(Err(m)) => {
                    let label = self.neuron_label();
                    self.fail(
                        String::from_str("Failed to increase dissolve delay for neuron ").concat(
                            label.as_str(),
                        ).concat(": ").concat(m.as_str()),
                    )
                },
                SwapEvent::DissolveDelayIncreased(Ok(())) => self.look_up(participant + 1),
                _ => self.unexpected(),
            },
            SwapPhase::Finished => self.unexpected(),
        }
    }

    proof fn lemma_view_bounds(&self)
        ensures
            self@.participations.len() <= usize::MAX,
            self@.neurons_to_follow.len() <= usize::MAX,
            self@.neurons_to_follow.len() == self.neurons_to_follow.len(),
    {
        assert(self.participations.len() == self.participations@.len());
        assert(self.neurons_to_follow.len() == self.neurons_to_follow@.len());
    }

    fn fail(&mut self, message: String) -> (action: SwapAction)
        ensures
            (final(self)@, action@) == old(self)@.fail(message@),
    {
        self.phase = SwapPhase::Finished;
        SwapAction::Finished(Err(message))
    }

    fn unexpected(&mut self) -> (action: SwapAction)
        ensures
            (final(self)@, action@) == old(self)@.unexpected(),
    {
        self.phase = SwapPhase::Finished;
        SwapAction::Abort(String::from_str("the swap completion received an outcome it did not ask for"))
    }

    fn check(&mut self, index: usize, participant: usize) -> (action: SwapAction)
        ensures
            final(self)@.wf(),
            (final(self)@, action@) == old(self)@.check(index as int, participant as int),
    {
        proof {
            self.lemma_view_bounds();
        }
        if index >= self.participations.len() {
            self.phase = SwapPhase::AwaitingCommitted;
            SwapAction::AwaitLifecycle(SwapLifecycle::Committed)
        } else if participant >= self.participant_count as usize {
            self.phase = SwapPhase::Finished;
            SwapAction::Abort(String::from_str("no swap participant is left to participate"))
        } else {
            self.phase = SwapPhase::Checking { index, participant };
            SwapAction::CheckParticipation { participant }
        }
    }

    fn look_up(&mut self, participant: usize) -> (action: SwapAction)
        ensures
            final(self)@.wf(),
            (final(self)@, action@) == old(self)@.look_up(participant as int),
    {
        proof {
            self.lemma_view_bounds();
        }
        if participant >= self.participant_count as usize {
            self.phase = SwapPhase::Finished;
            SwapAction::Finished(Ok(()))
        } else {
            self.phase = SwapPhase::LookingUpNeuron { participant };
            SwapAction::GetCallerNeuron { participant }
        }
    }

    fn follow_next(&mut self, participant: usize, followee: usize) -> (action: SwapAction)
        requires
            old(self).neuron is Some,
            participant < old(self).participant_count,
        ensures
            final(self)@.wf(),
            (final(self)@, action@) == old(self)@.follow_next(participant as int, followee as int),
    {
        proof {
            self.lemma_view_bounds();
        }
        let neuron = match &self.neuron {
            Some(h) => h.id.clone(),
            None => {
                proof {
                    assert(false);
                }
                SnsNeuronId { id: Vec::new() }
            },
        };
        if followee < self.neurons_to_follow.len() {
            self.phase = SwapPhase::Following { participant, followee };
            SwapAction::Follow {
                participant,
                neuron,
                followee: self.neurons_to_follow[followee].clone(),
                function_id: 3,
            }
        } else {
            self.phase = SwapPhase::IncreasingDissolveDelay { participant };
            SwapAction::IncreaseDissolveDelay { participant, neuron, seconds: self.dissolve_delay_seconds }
        }
    }

    fn neuron_label(&self) -> (label: String)
        requires
            self.neuron is Some,
        ensures
            label@ == self@.neuron.unwrap().1,
    {
        match &self.neuron {
            Some(h) => h.label.clone(),
            None => {
                proof {
                    assert(false);
                }
                String::new()
            },
        }
    }
}

} // verus!
