//! Floor control of group calls (EN 300 392-2 clause 14.5.2.2.1): requests
//! for the floor (U-TX DEMAND), the end of a transmission (U-TX CEASED) and
//! the departure of the current speaker. Each handler updates the call
//! record and says which signalling the surroundings are to send.

use std::collections::HashSet;
use vstd::prelude::*;
use vstd::std_specs::iter::IteratorSpec;

use crate::address::TetraAddress;
use crate::call::{
    ActiveCall, CallOrigin, GroupCallState, IndividualCall, IndividualCallState, TxDemandQueueResult,
    MAX_GROUP_FLOOR_WAITERS, queue_holds_ssi,
};
use crate::cc_bs::CcBsSubentity;
use crate::fsm::{GroupEvent, GroupTransitionError, TransmissionGrant};
use crate::tdma::TdmaTime;
use crate::timers::{CallFilter, collect_keys};
use crate::subscribers::listener_count;

verus! {

broadcast use vstd::std_specs::hash::group_hash_axioms;

/// What a floor decision needs from outside the call records.
#[derive(Clone, Copy, Debug)]
pub struct GroupFloorContext {
    /// A release of the call is already under way.
    pub release_pending: bool,
    /// The call's D-SETUP is cached, so its destination address is known.
    pub setup_cached: bool,
    /// The requester's previous transmission on the call's timeslot is still
    /// draining after its U-TX CEASED.
    pub requester_tail_draining: bool,
    /// Cell option: a maintained local call is released rather than handed
    /// back to the same speaker from hangtime.
    pub legacy_gssi_group_call: bool,
    /// Cell option: a pre-emptive request may interrupt the current speaker.
    pub transmission_interruption_enabled: bool,
}

/// Signalling owed after a request for the floor of a group call.
#[derive(Clone, Copy, Debug, PartialEq, Eq, Structural)]
pub enum GroupTxDemandOutcome {
    /// The call is being released; nothing is sent.
    Ignored,
    /// The requester is not affiliated to the group: D-TX GRANTED (not
    /// granted) to it.
    RejectedUnaffiliated,
    /// The maintained call is to be released before a same-speaker retake.
    ReleaseCall,
    /// Retake during the requester's tail drain: D-TX GRANTED with `grant`
    /// (never a positive grant) to it.
    TailRetakeAnswered { grant: TransmissionGrant },
    /// The current speaker is interrupted and the floor granted to the
    /// requester.
    Preempted { previous_speaker: u32 },
    /// The floor is granted to the requester out of hangtime.
    Granted,
    /// The requester already holds the floor; the grant is confirmed.
    Reasserted,
    /// The requester is answered with `grant` and the speaker keeps the floor.
    Answered { grant: TransmissionGrant },
}

/// Signalling owed after U-TX CEASED in a group call.
#[derive(Clone, Copy, Debug, PartialEq, Eq, Structural)]
pub enum GroupTxCeasedOutcome {
    /// The call is being released; nothing is sent.
    Ignored,
    /// A waiting station withdrew its request; nothing is sent.
    Withdrawn,
    /// The floor passes directly to the waiting station `to`.
    HandedOver { to: TetraAddress },
    /// Nobody eligible waits: the transmission ends after the tail drain.
    TailDrainStarted,
}

/// Signalling owed after U-TX DEMAND in an individual simplex call.
#[derive(Clone, Copy, Debug, PartialEq, Eq, Structural)]
pub enum IndividualTxDemandOutcome {
    /// Ignored: the call is clearing, not yet active, or full duplex.
    Ignored,
    /// The requester is no party of the call: D-TX GRANTED (not granted) on
    /// its own link, without a channel allocation.
    RejectedNonParticipant,
    /// The other party `holder` holds the floor: the requester is answered
    /// with `grant`.
    Answered { grant: TransmissionGrant, holder: u32 },
    /// The floor goes to the requester; `peer` is told it is granted to the
    /// other user.
    Granted { peer: TetraAddress },
}

/// Signalling owed after U-TX CEASED in an individual simplex call.
#[derive(Clone, Copy, Debug, PartialEq, Eq, Structural)]
pub enum IndividualTxCeasedOutcome {
    /// Ignored: the call is clearing, not active, full duplex, or the sender
    /// neither holds the floor nor waits for it.
    Ignored,
    /// The sender withdrew its waiting request.
    Withdrawn,
    /// The floor passes to the waiting party `to`; `listener` is told it is
    /// granted to the other user.
    HandedOver { to: TetraAddress, listener: TetraAddress },
    /// Nobody waits: D-TX CEASED to the sender and `peer` after the tail drain.
    TailDrainStarted { peer: TetraAddress },
}

/// Outcome of U-TX DEMAND for a call of either kind.
#[derive(Clone, Copy, Debug)]
pub enum UTxDemandOutcome {
    Individual(IndividualTxDemandOutcome),
    /// The individual call is being released; the demand is ignored.
    IndividualReleasePending,
    Group(Result<GroupTxDemandOutcome, GroupTransitionError>),
}

/// Outcome of U-TX CEASED for a call of either kind.
#[derive(Clone, Copy, Debug)]
pub enum UTxCeasedOutcome {
    Individual(IndividualTxCeasedOutcome),
    Group(Result<GroupTxCeasedOutcome, GroupTransitionError>),
}

/// The other party of individual call `c` as seen from party `ssi`.
pub open spec fn peer_addr_of(c: IndividualCall, ssi: u32) -> TetraAddress {
    if ssi == c.calling_addr.ssi {
        c.called_addr
    } else {
        c.calling_addr
    }
}

/// `ssi` is the calling or the called party of `c`.
pub open spec fn is_party(c: IndividualCall, ssi: u32) -> bool {
    ssi == c.calling_addr.ssi || ssi == c.called_addr.ssi
}

/// `m2` is `m` with at most the record of individual call `call_id` changed.
pub open spec fn only_individual_changed(m: Map<u16, IndividualCall>, m2: Map<u16, IndividualCall>, call_id: u16) -> bool {
    &&& m2.dom() == m.dom()
    &&& forall|id: u16| #[trigger] m2.contains_key(id) && id != call_id ==> m2[id] == m[id]
}

/// Action owed after uplink inactivity on a timeslot.
#[derive(Clone, Copy, Debug)]
pub enum UlInactivityOutcome {
    /// No transmitting call uses the timeslot; nothing is sent.
    Nothing,
    /// The echo session `call_id` owns the timeslot: its floor indication is
    /// refreshed.
    EchoRefresh { call_id: u16 },
    /// The silent holder of individual call `call_id` lost the floor to the
    /// waiting party `to`; `listener` is told it is granted to the other user.
    IndividualHandedOver { call_id: u16, to: TetraAddress, listener: TetraAddress },
    /// The silent holder of individual call `call_id` lost the floor:
    /// D-TX CEASED to `holder` and `peer`.
    IndividualFloorReleased { call_id: u16, holder: TetraAddress, peer: TetraAddress },
    /// The group call `call_id` on the timeslot is being released; nothing is sent.
    GroupReleasing { call_id: u16 },
    /// The group call `call_id` lost its silent speaker and entered hangtime:
    /// D-TX CEASED to the group and floor-released indications.
    GroupFloorReleased { call_id: u16 },
}

/// Timeslot of party `ssi` of individual call `c`.
pub open spec fn party_ts(c: IndividualCall, ssi: u32) -> u8 {
    if ssi == c.calling_addr.ssi {
        c.calling_ts
    } else {
        c.called_ts
    }
}

/// Individual call `c` is an active simplex call whose floor holder
/// transmits on timeslot `ts`.
pub open spec fn holder_transmits_on(c: IndividualCall, ts: u8) -> bool {
    &&& c.state == IndividualCallState::Active
    &&& !c.simplex_duplex
    &&& c.floor_holder is Some
    &&& party_ts(c, c.floor_holder->0) == ts
}

/// The address of party `ssi` of individual call `c`.
pub open spec fn party_addr(c: IndividualCall, ssi: u32) -> TetraAddress {
    if ssi == c.calling_addr.ssi {
        c.calling_addr
    } else {
        c.called_addr
    }
}

/// Signalling owed when a speaker behind the network bridge takes the floor.
#[derive(Clone, Copy, Debug, PartialEq, Eq, Structural)]
pub enum NetworkCallStartOutcome {
    /// The call is being released; nothing is sent.
    Ignored,
    /// The floor went to the network speaker; a local speaker that held it
    /// (`preempted_local_speaker`) is sent D-TX INTERRUPT.
    Started { preempted_local_speaker: Option<u32> },
}

/// Signalling owed when the network bridge ends its part of a group call.
#[derive(Clone, Copy, Debug, PartialEq, Eq, Structural)]
pub enum NetworkCallEndOutcome {
    /// The call is being released; nothing is sent.
    Ignored,
    /// The network speaker stopped: the call entered hangtime; D-TX CEASED
    /// to the group and a floor-released indication.
    FloorReleased,
    /// The call was already in hangtime: it is to be released.
    ReleaseCall,
}

/// What is owed when the tail drain after a group U-TX CEASED completes.
#[derive(Clone, Copy, Debug, PartialEq, Eq, Structural)]
pub enum GroupTailDrainOutcome {
    /// The floor changed meanwhile; nothing is sent.
    Skipped,
    /// The floor passes to the waiting station `to`.
    HandedOver { to: TetraAddress },
    /// The call entered hangtime: D-TX CEASED to the group and
    /// floor-released indications. `legacy_release`: the call is then to be
    /// released (legacy profile); `same_speaker_retake`: a retake by the
    /// previous speaker was suppressed for it.
    FloorReleased { legacy_release: bool, same_speaker_retake: bool },
}

/// What is owed when the tail drain after an individual U-TX CEASED completes.
#[derive(Clone, Copy, Debug, PartialEq, Eq, Structural)]
pub enum IndividualTailDrainOutcome {
    /// The call or its floor changed meanwhile; nothing is sent.
    Skipped,
    /// The floor passes to the waiting party `to`; `listener` is told it is
    /// granted to the other user.
    HandedOver { to: TetraAddress, listener: TetraAddress },
    /// Nobody waits: D-TX CEASED to both parties and floor-released indications.
    FloorReleased,
}

/// `k` is the position in `q` of the first affiliated station other than
/// `sender`.
pub open spec fn first_affiliated_other_at(
    groups: Map<u32, HashSet<u32>>,
    registry: Set<u32>,
    q: Seq<TetraAddress>,
    gssi: u32,
    sender: u32,
    k: int,
) -> bool {
    &&& 0 <= k < q.len()
    &&& affiliated(groups, registry, q[k].ssi, gssi) && q[k].ssi != sender
    &&& forall|j: int| 0 <= j < k ==> !(affiliated(groups, registry, (#[trigger] q[j]).ssi, gssi) && q[j].ssi != sender)
}

/// `b` is `a` with the floor given to `speaker` (hangtime ends).
pub open spec fn with_floor(a: ActiveCall, speaker: u32) -> ActiveCall {
    ActiveCall { source_issi: speaker, tx_active: true, hangtime_start: None, ..a }
}

/// `a` with the floor given to `speaker` and the call timeout restarted at `now`.
pub open spec fn granted_to(a: ActiveCall, speaker: u32, now: TdmaTime) -> ActiveCall {
    ActiveCall { created_at: now, ..with_floor(a, speaker) }
}

/// `b` is `a` with only its floor waiting list changed.
pub open spec fn same_but_queue(a: ActiveCall, b: ActiveCall) -> bool {
    b == (ActiveCall {
        queued_floor_demands: b.queued_floor_demands,
        queued_floor_demand_ssis: b.queued_floor_demand_ssis,
        ..a
    })
}

/// `m2` is `m` with at most the record of call `call_id` changed.
pub open spec fn only_call_changed(m: Map<u16, ActiveCall>, m2: Map<u16, ActiveCall>, call_id: u16) -> bool {
    &&& m2.dom() == m.dom()
    &&& forall|id: u16| #[trigger] m2.contains_key(id) && id != call_id ==> m2[id] == m[id]
}

/// The grant answering a retake queued during a tail drain.
pub open spec fn tail_retake_grant(q: TxDemandQueueResult) -> TransmissionGrant {
    match q {
        TxDemandQueueResult::QueueBusy => TransmissionGrant::NotGranted,
        _ => TransmissionGrant::RequestQueued,
    }
}

/// Result of queueing `requester` during a tail drain of call `c`.
pub open spec fn tail_queue_result(c: ActiveCall, requester: TetraAddress) -> TxDemandQueueResult {
    if queue_holds_ssi(c.floor_queue(), requester.ssi) {
        TxDemandQueueResult::AlreadyQueuedBySameUser
    } else if c.floor_queue().len() >= MAX_GROUP_FLOOR_WAITERS {
        TxDemandQueueResult::QueueBusy
    } else {
        TxDemandQueueResult::Queued
    }
}

/// Result of queueing `requester` for the floor of call `c`.
pub open spec fn queue_result(c: ActiveCall, requester: TetraAddress) -> TxDemandQueueResult {
    if c.tx_active && c.source_issi == requester.ssi {
        TxDemandQueueResult::FromCurrentSpeaker
    } else {
        tail_queue_result(c, requester)
    }
}

/// The floor waiting list of `c2` is that of `c` after queueing with result `q`.
pub open spec fn queued_as(c: ActiveCall, c2: ActiveCall, requester: TetraAddress, q: TxDemandQueueResult) -> bool {
    &&& same_but_queue(c, c2)
    &&& c2.floor_queue_wf()
    &&& c2.floor_queue() == if q == TxDemandQueueResult::Queued {
        c.floor_queue().push(requester)
    } else {
        c.floor_queue()
    }
}

/// Station `issi` counts as affiliated to group `gssi`: the shared subscriber
/// registry lists it as a member (`registry`), or it has affiliated locally.
pub open spec fn affiliated(groups: Map<u32, HashSet<u32>>, registry: Set<u32>, issi: u32, gssi: u32) -> bool {
    registry.contains(issi) || (groups.contains_key(issi) && groups[issi]@.contains(gssi))
}

/// `k` is the position of the first affiliated station in waiting list `q`.
pub open spec fn first_affiliated_at(
    groups: Map<u32, HashSet<u32>>,
    registry: Set<u32>,
    q: Seq<TetraAddress>,
    gssi: u32,
    k: int,
) -> bool {
    &&& 0 <= k < q.len()
    &&& affiliated(groups, registry, q[k].ssi, gssi)
    &&& forall|j: int| 0 <= j < k ==> !affiliated(groups, registry, (#[trigger] q[j]).ssi, gssi)
}

/// Floor state of call `c`, as [`ActiveCall::state`] reports it.
pub open spec fn floor_state(c: ActiveCall) -> GroupCallState {
    if c.tx_active {
        GroupCallState::Transmitting
    } else {
        GroupCallState::NoActiveSpeaker {
            since: match c.hangtime_start {
                Some(t) => t,
                None => TdmaTime { h: 0, m: 1, f: 1, t: 1 },
            },
        }
    }
}

/// Group calls of one group.
pub struct GroupCallsOf {
    pub gssi: u32,
}

impl CallFilter<ActiveCall> for GroupCallsOf {
    open spec fn holds(&self, k: u16, v: ActiveCall) -> bool {
        v.dest_gssi == self.gssi
    }

    fn check(&self, k: u16, v: &ActiveCall) -> (b: bool) {
        v.dest_gssi == self.gssi
    }
}

/// The record of group call `c` after station `issi` left the call's group:
/// when it was the speaker and the group still has listeners
/// (`has_listener`), the call enters hangtime at `now` with nobody waiting
/// (unless the call is being released, `releasing`); otherwise the station's
/// floor request is withdrawn.
pub open spec fn after_departure(
    c: ActiveCall,
    c2: ActiveCall,
    issi: u32,
    has_listener: bool,
    releasing: bool,
    now: TdmaTime,
) -> bool {
    if c.tx_active && c.source_issi == issi && has_listener {
        if releasing {
            c2 == c
        } else {
            &&& same_but_queue(ActiveCall { tx_active: false, hangtime_start: Some(now), ..c }, c2)
            &&& c2.floor_queue().len() == 0
        }
    } else {
        &&& same_but_queue(c, c2)
        &&& c2.floor_queue() == crate::call::queue_without_ssi(c.floor_queue(), issi)
    }
}

/// The call table `after` and answer `r` of a group U-TX DEMAND from
/// `requesting_party` (priority `tx_demand_priority`) in call `call_id`,
/// starting from `before`.
pub open spec fn group_tx_demand_done(
    before: CcBsSubentity,
    after: CcBsSubentity,
    call_id: u16,
    requesting_party: TetraAddress,
    tx_demand_priority: u8,
    ctx: GroupFloorContext,
    registry_members: Set<u32>,
    r: Result<GroupTxDemandOutcome, GroupTransitionError>,
) -> bool {
    let m = before.active_calls@;
    let m2 = after.active_calls@;
    let c = m[call_id];
    let req = requesting_party.ssi;
    let now = before.dltime;
    if ctx.release_pending {
        r == Ok::<GroupTxDemandOutcome, GroupTransitionError>(GroupTxDemandOutcome::Ignored) && m2 == m
    } else if !m.contains_key(call_id) {
        r == Err::<GroupTxDemandOutcome, GroupTransitionError>(GroupTransitionError::UnknownCall(call_id))
            && m2 == m
    } else if !affiliated(before.subscriber_groups@, registry_members, req, c.dest_gssi) {
        r == Ok::<GroupTxDemandOutcome, GroupTransitionError>(GroupTxDemandOutcome::RejectedUnaffiliated)
            && m2 == m
    } else if ctx.legacy_gssi_group_call && c.origin is Local && !c.tx_active && c.source_issi == req {
        r == Ok::<GroupTxDemandOutcome, GroupTransitionError>(GroupTxDemandOutcome::ReleaseCall) && m2
            == m
    } else if c.source_issi == req && ctx.requester_tail_draining {
        let q = tail_queue_result(c, requesting_party);
        &&& r == Ok::<GroupTxDemandOutcome, GroupTransitionError>(
            GroupTxDemandOutcome::TailRetakeAnswered { grant: tail_retake_grant(q) },
        )
        &&& queued_as(c, m2[call_id], requesting_party, q)
    } else if c.tx_active && c.source_issi != req && ctx.transmission_interruption_enabled && (
    tx_demand_priority == 2 || tx_demand_priority == 3) {
        if !ctx.setup_cached {
            r == Err::<GroupTxDemandOutcome, GroupTransitionError>(
                GroupTransitionError::MissingCachedSetup(call_id),
            ) && m2 == m
        } else {
            &&& r == Ok::<GroupTxDemandOutcome, GroupTransitionError>(
                GroupTxDemandOutcome::Preempted { previous_speaker: c.source_issi },
            )
            &&& m2[call_id] == granted_to(c, req, now)
        }
    } else if !c.tx_active {
        if !ctx.setup_cached {
            r == Err::<GroupTxDemandOutcome, GroupTransitionError>(
                GroupTransitionError::MissingCachedSetup(call_id),
            ) && m2[call_id] == with_floor(c, req)
        } else {
            r == Ok::<GroupTxDemandOutcome, GroupTransitionError>(GroupTxDemandOutcome::Granted)
                && m2[call_id] == granted_to(c, req, now)
        }
    } else {
        let q = queue_result(c, requesting_party);
        if q == TxDemandQueueResult::FromCurrentSpeaker {
            if !ctx.setup_cached {
                r == Err::<GroupTxDemandOutcome, GroupTransitionError>(
                    GroupTransitionError::MissingCachedSetup(call_id),
                ) && queued_as(c, m2[call_id], requesting_party, q)
            } else {
                &&& r == Ok::<GroupTxDemandOutcome, GroupTransitionError>(
                    GroupTxDemandOutcome::Reasserted,
                )
                &&& same_but_queue(ActiveCall { created_at: now, ..c }, m2[call_id])
                &&& m2[call_id].floor_queue() == c.floor_queue()
            }
        } else {
            &&& queued_as(c, m2[call_id], requesting_party, q)
            &&& r == if !ctx.setup_cached {
                Err::<GroupTxDemandOutcome, GroupTransitionError>(
                    GroupTransitionError::MissingCachedSetup(call_id),
                )
            } else if q == TxDemandQueueResult::QueueBusy {
                Ok(GroupTxDemandOutcome::Answered { grant: TransmissionGrant::NotGranted })
            } else {
                Ok(GroupTxDemandOutcome::Answered { grant: TransmissionGrant::RequestQueued })
            }
        }
    }
}

/// The call table `after` and answer `r` of a group U-TX CEASED from
/// `sender` in call `call_id`, starting from `before`.
pub open spec fn group_tx_ceased_done(
    before: CcBsSubentity,
    after: CcBsSubentity,
    call_id: u16,
    sender: TetraAddress,
    ctx: GroupFloorContext,
    registry_members: Set<u32>,
    r: Result<GroupTxCeasedOutcome, GroupTransitionError>,
) -> bool {
    let m = before.active_calls@;
    let m2 = after.active_calls@;
    let c = m[call_id];
    let q = c.floor_queue();
    let now = before.dltime;
    if ctx.release_pending {
        r == Ok::<GroupTxCeasedOutcome, GroupTransitionError>(GroupTxCeasedOutcome::Ignored) && m2 == m
    } else if !m.contains_key(call_id) {
        r == Err::<GroupTxCeasedOutcome, GroupTransitionError>(GroupTransitionError::UnknownCall(call_id))
            && m2 == m
    } else if !c.tx_active {
        r == Err::<GroupTxCeasedOutcome, GroupTransitionError>(
            GroupTransitionError::InvalidTransition {
                call_id,
                state: floor_state(c),
                event: GroupEvent::TxCeased,
            },
        ) && m2 == m
    } else if c.source_issi != sender.ssi {
        if queue_holds_ssi(q, sender.ssi) {
            &&& r == Ok::<GroupTxCeasedOutcome, GroupTransitionError>(GroupTxCeasedOutcome::Withdrawn)
            &&& same_but_queue(c, m2[call_id])
            &&& m2[call_id].floor_queue() == crate::call::queue_without_ssi(q, sender.ssi)
        } else {
            r == Err::<GroupTxCeasedOutcome, GroupTransitionError>(
                GroupTransitionError::NotCurrentSpeaker {
                    call_id,
                    sender_issi: sender.ssi,
                    current_speaker_issi: c.source_issi,
                },
            ) && m2 == m
        }
    } else if exists|k: int|
        #![trigger first_affiliated_at(before.subscriber_groups@, registry_members, q, c.dest_gssi, k)]
        first_affiliated_at(before.subscriber_groups@, registry_members, q, c.dest_gssi, k) {
        exists|k: int|
            #![trigger first_affiliated_at(before.subscriber_groups@, registry_members, q, c.dest_gssi, k)]
            {
                &&& first_affiliated_at(before.subscriber_groups@, registry_members, q, c.dest_gssi, k)
                &&& m2[call_id].floor_queue() == q.subrange(k + 1, q.len() as int)
                &&& if ctx.setup_cached {
                    &&& r == Ok::<GroupTxCeasedOutcome, GroupTransitionError>(
                        GroupTxCeasedOutcome::HandedOver { to: q[k] },
                    )
                    &&& same_but_queue(granted_to(c, q[k].ssi, now), m2[call_id])
                } else {
                    &&& r == Err::<GroupTxCeasedOutcome, GroupTransitionError>(
                        GroupTransitionError::MissingCachedSetup(call_id),
                    )
                    &&& same_but_queue(with_floor(c, q[k].ssi), m2[call_id])
                }
            }
    } else {
        &&& same_but_queue(c, m2[call_id])
        &&& m2[call_id].floor_queue().len() == 0
        &&& r == if ctx.setup_cached {
            Ok::<GroupTxCeasedOutcome, GroupTransitionError>(GroupTxCeasedOutcome::TailDrainStarted)
        } else {
            Err(GroupTransitionError::MissingCachedSetup(call_id))
        }
    }
}

/// The record `after` and answer `r` of a U-TX DEMAND from
/// `requesting_party` in individual call `call_id`, starting from `before`.
pub open spec fn individual_tx_demand_done(
    before: CcBsSubentity,
    after: CcBsSubentity,
    call_id: u16,
    requesting_party: TetraAddress,
    disconnect_clearing: bool,
    r: IndividualTxDemandOutcome,
) -> bool {
    let c = before.individual_calls@[call_id];
    let c2 = after.individual_calls@[call_id];
    let req = requesting_party.ssi;
    if disconnect_clearing || c.state != IndividualCallState::Active {
        r == IndividualTxDemandOutcome::Ignored && c2 == c
    } else if !is_party(c, req) {
        r == IndividualTxDemandOutcome::RejectedNonParticipant && c2 == c
    } else if c.simplex_duplex {
        r == IndividualTxDemandOutcome::Ignored && c2 == c
    } else if c.floor_holder is Some && c.floor_holder != Some(req) {
        let holder = c.floor_holder->0;
        match c.queued_tx_demand {
            None => {
                &&& r == IndividualTxDemandOutcome::Answered {
                    grant: TransmissionGrant::RequestQueued,
                    holder,
                }
                &&& c2 == (IndividualCall { queued_tx_demand: Some(requesting_party), ..c })
            },
            Some(waiting) => {
                &&& r == IndividualTxDemandOutcome::Answered {
                    grant: if waiting.ssi == req {
                        TransmissionGrant::RequestQueued
                    } else {
                        TransmissionGrant::NotGranted
                    },
                    holder,
                }
                &&& c2 == c
            },
        }
    } else {
        &&& r == IndividualTxDemandOutcome::Granted { peer: peer_addr_of(c, req) }
        &&& c2 == (IndividualCall { floor_holder: Some(req), ..c })
    }
}

/// The record `after` and answer `r` of a U-TX CEASED from `sender` in
/// individual call `call_id`, starting from `before`.
pub open spec fn individual_tx_ceased_done(
    before: CcBsSubentity,
    after: CcBsSubentity,
    call_id: u16,
    sender: TetraAddress,
    disconnect_clearing: bool,
    r: IndividualTxCeasedOutcome,
) -> bool {
    let c = before.individual_calls@[call_id];
    let c2 = after.individual_calls@[call_id];
    let s = sender.ssi;
    if disconnect_clearing || c.state != IndividualCallState::Active || !is_party(c, s)
        || c.simplex_duplex {
        r == IndividualTxCeasedOutcome::Ignored && c2 == c
    } else if c.floor_holder != Some(s) {
        if c.queued_tx_demand is Some && c.queued_tx_demand->0.ssi == s {
            r == IndividualTxCeasedOutcome::Withdrawn && c2 == (IndividualCall {
                queued_tx_demand: None,
                ..c
            })
        } else {
            r == IndividualTxCeasedOutcome::Ignored && c2 == c
        }
    } else {
        match c.queued_tx_demand {
            Some(waiting) => {
                let peer = peer_addr_of(c, s);
                let to = if waiting.ssi == peer.ssi {
                    peer
                } else {
                    sender
                };
                let listener = if waiting.ssi == peer.ssi {
                    sender
                } else {
                    peer
                };
                &&& r == IndividualTxCeasedOutcome::HandedOver { to, listener }
                &&& c2 == (IndividualCall { floor_holder: Some(to.ssi), queued_tx_demand: None, ..c })
            },
            None => r == IndividualTxCeasedOutcome::TailDrainStarted { peer: peer_addr_of(c, s) }
                && c2 == c,
        }
    }
}

impl CcBsSubentity {
    /// Every group call keeps a well-formed floor waiting list.
    pub open spec fn calls_wf(&self) -> bool {
        forall|id: u16| #[trigger] self.active_calls@.contains_key(id) ==> self.active_calls@[id].floor_queue_wf()
    }

    /// Station `issi` counts as affiliated to group `gssi`; `registry_members`
    /// are the members of the group in the shared subscriber registry.
    pub fn subscriber_affiliated_to_group(&self, issi: u32, gssi: u32, registry_members: &HashSet<u32>) -> (r:
        bool)
        ensures
            r == affiliated(self.subscriber_groups@, registry_members@, issi, gssi),
    {
        if registry_members.contains(&issi) {
            return true;
        }
        match self.subscriber_groups.get(&issi) {
            Some(groups) => groups.contains(&gssi),
            None => false,
        }
    }

    /// The first station waiting for the floor of `call` that is still
    /// affiliated to the call's group.
    pub fn first_affiliated_group_floor_requester(&self, call: &ActiveCall, registry_members: &HashSet<u32>) -> (r:
        Option<TetraAddress>)
        ensures
            match r {
                None => forall|i: int|
                    0 <= i < call.floor_queue().len() ==> !affiliated(
                        self.subscriber_groups@,
                        registry_members@,
                        (#[trigger] call.floor_queue()[i]).ssi,
                        call.dest_gssi,
                    ),
                Some(a) => exists|k: int|
                    #![trigger first_affiliated_at(self.subscriber_groups@, registry_members@, call.floor_queue(), call.dest_gssi, k)]
                    first_affiliated_at(self.subscriber_groups@, registry_members@, call.floor_queue(), call.dest_gssi, k)
                        && call.floor_queue()[k] == a,
            },
    {
        let waiting = call.queued_tx_demands();
        let mut i: usize = 0;
        while i < waiting.len()
            invariant
                0 <= i <= waiting@.len(),
                waiting@ == call.floor_queue(),
                forall|j: int|
                    0 <= j < i ==> !affiliated(self.subscriber_groups@, registry_members@, (#[trigger] waiting@[j]).ssi, call.dest_gssi),
            decreases waiting@.len() - i,
        {
            let a = waiting[i];
            if self.subscriber_affiliated_to_group(a.ssi, call.dest_gssi, registry_members) {
                proof {
                    assert(first_affiliated_at(self.subscriber_groups@, registry_members@, call.floor_queue(), call.dest_gssi, i as int));
                }
                return Some(a);
            }
            i = i + 1;
        }
        None
    }

    /// Confirms the floor of group call `call_id` to its current speaker
    /// `speaker` (a repeated request or setup from the station that holds it).
    pub fn fsm_group_reassert_current_speaker_floor(
        &mut self,
        call_id: u16,
        speaker: TetraAddress,
        ctx: GroupFloorContext,
        registry_members: &HashSet<u32>,
    ) -> (r: Result<GroupTxDemandOutcome, GroupTransitionError>)
        requires
            old(self).calls_wf(),
        ensures
            old(self).individual_calls_wf() ==> final(self).individual_calls_wf(),
            final(self).calls_wf(),
            *final(self) == (CcBsSubentity { active_calls: final(self).active_calls, ..*old(self) }),
            only_call_changed(old(self).active_calls@, final(self).active_calls@, call_id),
            ({
                let m = old(self).active_calls@;
                let m2 = final(self).active_calls@;
                let c = m[call_id];
                if ctx.release_pending {
                    r == Ok::<GroupTxDemandOutcome, GroupTransitionError>(GroupTxDemandOutcome::Ignored) && m2 == m
                } else if !m.contains_key(call_id) {
                    r == Err::<GroupTxDemandOutcome, GroupTransitionError>(GroupTransitionError::UnknownCall(call_id))
                        && m2 == m
                } else if !(c.tx_active && c.source_issi == speaker.ssi) {
                    r == Err::<GroupTxDemandOutcome, GroupTransitionError>(
                        GroupTransitionError::NotCurrentSpeaker {
                            call_id,
                            sender_issi: speaker.ssi,
                            current_speaker_issi: c.source_issi,
                        },
                    ) && m2 == m
                } else if !affiliated(old(self).subscriber_groups@, registry_members@, speaker.ssi, c.dest_gssi) {
                    r == Ok::<GroupTxDemandOutcome, GroupTransitionError>(GroupTxDemandOutcome::RejectedUnaffiliated)
                        && m2 == m
                } else if ctx.requester_tail_draining {
                    let q = tail_queue_result(c, speaker);
                    &&& r == Ok::<GroupTxDemandOutcome, GroupTransitionError>(
                        GroupTxDemandOutcome::TailRetakeAnswered { grant: tail_retake_grant(q) },
                    )
                    &&& queued_as(c, m2[call_id], speaker, q)
                } else if !ctx.setup_cached {
                    r == Err::<GroupTxDemandOutcome, GroupTransitionError>(
                        GroupTransitionError::MissingCachedSetup(call_id),
                    ) && m2 == m
                } else {
                    &&& r == Ok::<GroupTxDemandOutcome, GroupTransitionError>(GroupTxDemandOutcome::Reasserted)
                    &&& m2[call_id] == (ActiveCall { created_at: old(self).dltime, ..c })
                }
            }),
    {
        if ctx.release_pending {
            return Ok(GroupTxDemandOutcome::Ignored);
        }
        let (state, is_speaker, current_speaker, dest) = match self.active_calls.get(&call_id) {
            Some(call) => (call.state(), call.is_current_speaker(speaker.ssi), call.source_issi, call.dest_gssi),
            None => {
                return Err(GroupTransitionError::UnknownCall(call_id));
            },
        };
        match Self::validate_group_transition(call_id, state, GroupEvent::TxDemand) {
            Ok(()) => {},
            Err(e) => {
                return Err(e);
            },
        }
        if !is_speaker {
            return Err(
                GroupTransitionError::NotCurrentSpeaker {
                    call_id,
                    sender_issi: speaker.ssi,
                    current_speaker_issi: current_speaker,
                },
            );
        }
        if !self.subscriber_affiliated_to_group(speaker.ssi, dest, registry_members) {
            return Ok(GroupTxDemandOutcome::RejectedUnaffiliated);
        }
        let ghost m = self.active_calls@;
        if ctx.requester_tail_draining {
            return Ok(self.queue_retake_after_cease_tail(call_id, speaker));
        }
        if !ctx.setup_cached {
            return Err(GroupTransitionError::MissingCachedSetup(call_id));
        }
        let now = self.dltime;
        match self.active_calls.remove(&call_id) {
            Some(mut call) => {
                call.reset_timeout(now);
                self.active_calls.insert(call_id, call);
            },
            None => {},
        }
        proof {
            assert(self.active_calls@.dom() =~= m.dom());
        }
        Ok(GroupTxDemandOutcome::Reasserted)
    }

    /// Handles U-TX DEMAND from `requesting_party` with priority
    /// `tx_demand_priority` in group call `call_id`: reject, release, grant,
    /// pre-empt, reassert or queue, as clause 14.5.2.2.1 and the cell options
    /// in `ctx` decide.
    pub fn fsm_group_on_tx_demand(
        &mut self,
        call_id: u16,
        requesting_party: TetraAddress,
        tx_demand_priority: u8,
        ctx: GroupFloorContext,
        registry_members: &HashSet<u32>,
    ) -> (r: Result<GroupTxDemandOutcome, GroupTransitionError>)
        requires
            old(self).calls_wf(),
        ensures
            old(self).individual_calls_wf() ==> final(self).individual_calls_wf(),
            final(self).calls_wf(),
            *final(self) == (CcBsSubentity { active_calls: final(self).active_calls, ..*old(self) }),
            only_call_changed(old(self).active_calls@, final(self).active_calls@, call_id),
            group_tx_demand_done(*old(self), *final(self), call_id, requesting_party, tx_demand_priority, ctx, registry_members@, r),
    {
        if ctx.release_pending {
            return Ok(GroupTxDemandOutcome::Ignored);
        }
        let (state, dest, current_speaker, local_origin) = match self.active_calls.get(&call_id) {
            Some(call) => (
                call.state(),
                call.dest_gssi,
                call.source_issi,
                match call.origin {
                    CallOrigin::Local { .. } => true,
                    _ => false,
                },
            ),
            None => {
                return Err(GroupTransitionError::UnknownCall(call_id));
            },
        };
        match Self::validate_group_transition(call_id, state, GroupEvent::TxDemand) {
            Ok(()) => {},
            Err(e) => {
                return Err(e);
            },
        }
        let req = requesting_party.ssi;
        if !self.subscriber_affiliated_to_group(req, dest, registry_members) {
            return Ok(GroupTxDemandOutcome::RejectedUnaffiliated);
        }
        let hangtime = match state {
            GroupCallState::NoActiveSpeaker { .. } => true,
            GroupCallState::Transmitting => false,
        };
        if ctx.legacy_gssi_group_call && local_origin && hangtime && current_speaker == req {
            return Ok(GroupTxDemandOutcome::ReleaseCall);
        }
        if current_speaker == req && ctx.requester_tail_draining {
            return Ok(self.queue_retake_after_cease_tail(call_id, requesting_party));
        }
        let may_preempt = !hangtime && current_speaker != req && ctx.transmission_interruption_enabled
            && Self::is_preemptive_tx_demand_priority(tx_demand_priority);
        let ghost m = self.active_calls@;
        let now = self.dltime;
        if may_preempt {
            if !ctx.setup_cached {
                return Err(GroupTransitionError::MissingCachedSetup(call_id));
            }
            match self.active_calls.remove(&call_id) {
                Some(mut call) => {
                    call.grant_floor(req, Some(requesting_party));
                    call.reset_timeout(now);
                    self.active_calls.insert(call_id, call);
                },
                None => {},
            }
            proof {
                assert(self.active_calls@.dom() =~= m.dom());
            }
            return Ok(GroupTxDemandOutcome::Preempted { previous_speaker: current_speaker });
        }
        let mut call = match self.active_calls.remove(&call_id) {
            Some(c) => c,
            None => {
                return Err(GroupTransitionError::UnknownCall(call_id));
            },
        };
        if hangtime {
            call.grant_floor(req, Some(requesting_party));
            if !ctx.setup_cached {
                self.active_calls.insert(call_id, call);
                proof {
                    assert(self.active_calls@.dom() =~= m.dom());
                }
                return Err(GroupTransitionError::MissingCachedSetup(call_id));
            }
            call.reset_timeout(now);
            self.active_calls.insert(call_id, call);
            proof {
                assert(self.active_calls@.dom() =~= m.dom());
            }
            return Ok(GroupTxDemandOutcome::Granted);
        }
        let q = call.queue_tx_demand(requesting_party);
        self.active_calls.insert(call_id, call);
        proof {
            assert(self.active_calls@.dom() =~= m.dom());
        }
        if !ctx.setup_cached {
            return Err(GroupTransitionError::MissingCachedSetup(call_id));
        }
        match q {
            TxDemandQueueResult::FromCurrentSpeaker => self.fsm_group_reassert_current_speaker_floor(
                call_id,
                requesting_party,
                ctx,
                registry_members,
            ),
            TxDemandQueueResult::QueueBusy => Ok(
                GroupTxDemandOutcome::Answered { grant: TransmissionGrant::NotGranted },
            ),
            _ => Ok(GroupTxDemandOutcome::Answered { grant: TransmissionGrant::RequestQueued }),
        }
    }

    /// Handles U-TX CEASED from `sender` in group call `call_id`: a waiting
    /// station withdraws its request, or the speaker ends its transmission
    /// and the floor passes to the first waiting station still affiliated
    /// (those before it are dropped), or the transmission drains out.
    pub fn fsm_group_on_tx_ceased(
        &mut self,
        call_id: u16,
        sender: TetraAddress,
        ctx: GroupFloorContext,
        registry_members: &HashSet<u32>,
    ) -> (r: Result<GroupTxCeasedOutcome, GroupTransitionError>)
        requires
            old(self).calls_wf(),
        ensures
            old(self).individual_calls_wf() ==> final(self).individual_calls_wf(),
            final(self).calls_wf(),
            *final(self) == (CcBsSubentity { active_calls: final(self).active_calls, ..*old(self) }),
            only_call_changed(old(self).active_calls@, final(self).active_calls@, call_id),
            group_tx_ceased_done(*old(self), *final(self), call_id, sender, ctx, registry_members@, r),
    {
        if ctx.release_pending {
            return Ok(GroupTxCeasedOutcome::Ignored);
        }
        let ghost m = self.active_calls@;
        let (state, is_speaker, current_speaker, waiting) = match self.active_calls.get(&call_id) {
            Some(call) => (
                call.state(),
                call.is_current_speaker(sender.ssi),
                call.source_issi,
                call.queued_floor_demand_ssis.contains(&sender.ssi),
            ),
            None => {
                return Err(GroupTransitionError::UnknownCall(call_id));
            },
        };
        match Self::validate_group_transition(call_id, state, GroupEvent::TxCeased) {
            Ok(()) => {},
            Err(e) => {
                return Err(e);
            },
        }
        let mut call = match self.active_calls.remove(&call_id) {
            Some(c) => c,
            None => {
                return Err(GroupTransitionError::UnknownCall(call_id));
            },
        };
        if !is_speaker {
            if waiting {
                let _withdrawn = call.clear_queued_tx_demand_from(sender.ssi);
                self.active_calls.insert(call_id, call);
                proof {
                    assert(self.active_calls@.dom() =~= m.dom());
                }
                return Ok(GroupTxCeasedOutcome::Withdrawn);
            }
            self.active_calls.insert(call_id, call);
            proof {
                assert(self.active_calls@ =~= m);
            }
            return Err(
                GroupTransitionError::NotCurrentSpeaker {
                    call_id,
                    sender_issi: sender.ssi,
                    current_speaker_issi: current_speaker,
                },
            );
        }
        let next = self.first_affiliated_group_floor_requester(&call, registry_members);
        let ghost q = call.floor_queue();
        let target = match next {
            Some(a) => Some(a.ssi),
            None => None,
        };
        let taken = call.take_queued_tx_demand_through(target);
        proof {
            if let Some(a) = next {
                let k = choose|k: int|
                    #![trigger first_affiliated_at(old(self).subscriber_groups@, registry_members@, q, call.dest_gssi, k)]
                    first_affiliated_at(old(self).subscriber_groups@, registry_members@, q, call.dest_gssi, k) && q[k] == a;
                assert(m.contains_key(call_id) && m[call_id].floor_queue_wf());
                assert forall|j: int| 0 <= j < k implies (#[trigger] q[j]).ssi != a.ssi by {
                    assert(q[j].ssi != q[k].ssi);
                }
                assert(crate::call::first_index_of_ssi(q, a.ssi, k));
                assert(queue_holds_ssi(q, a.ssi));
                let k2 = choose|k2: int|
                    #![trigger crate::call::first_index_of_ssi(q, a.ssi, k2)]
                    crate::call::first_index_of_ssi(q, a.ssi, k2) && taken == Some(q[k2]) && call.floor_queue()
                        == q.subrange(k2 + 1, q.len() as int);
                assert(k2 == k) by {
                    if k2 < k {
                        assert(q[k2].ssi == a.ssi);
                    } else if k < k2 {
                        assert(q[k].ssi == a.ssi);
                    }
                }
            } else {
                assert forall|k: int| !first_affiliated_at(old(self).subscriber_groups@, registry_members@, q, call.dest_gssi, k) by {
                    if 0 <= k < q.len() {
                        assert(!affiliated(old(self).subscriber_groups@, registry_members@, q[k].ssi, call.dest_gssi));
                    }
                }
            }
        }
        let now = self.dltime;
        match taken {
            Some(requester) => {
                call.grant_floor(requester.ssi, Some(requester));
                if !ctx.setup_cached {
                    self.active_calls.insert(call_id, call);
                    proof {
                        assert(self.active_calls@.dom() =~= m.dom());
                    }
                    return Err(GroupTransitionError::MissingCachedSetup(call_id));
                }
                call.reset_timeout(now);
                self.active_calls.insert(call_id, call);
                proof {
                    assert(self.active_calls@.dom() =~= m.dom());
                }
                Ok(GroupTxCeasedOutcome::HandedOver { to: requester })
            },
            None => {
                self.active_calls.insert(call_id, call);
                proof {
                    assert(self.active_calls@.dom() =~= m.dom());
                }
                if !ctx.setup_cached {
                    return Err(GroupTransitionError::MissingCachedSetup(call_id));
                }
                Ok(GroupTxCeasedOutcome::TailDrainStarted)
            },
        }
    }

    /// The speaker `speaker_issi` of group call `call_id` left the group:
    /// the waiting list is emptied and the call enters hangtime. `Ok(true)`
    /// when the floor was taken away (D-TX CEASED and floor-released
    /// indications are then owed), `Ok(false)` when nothing changed.
    pub fn fsm_group_on_current_speaker_departed(
        &mut self,
        call_id: u16,
        speaker_issi: u32,
        ctx: GroupFloorContext,
    ) -> (r: Result<bool, GroupTransitionError>)
        requires
            old(self).calls_wf(),
        ensures
            old(self).individual_calls_wf() ==> final(self).individual_calls_wf(),
            final(self).calls_wf(),
            *final(self) == (CcBsSubentity { active_calls: final(self).active_calls, ..*old(self) }),
            only_call_changed(old(self).active_calls@, final(self).active_calls@, call_id),
            ({
                let m = old(self).active_calls@;
                let m2 = final(self).active_calls@;
                let c = m[call_id];
                if ctx.release_pending {
                    r == Ok::<bool, GroupTransitionError>(false) && m2 == m
                } else if !m.contains_key(call_id) {
                    r == Err::<bool, GroupTransitionError>(GroupTransitionError::UnknownCall(call_id)) && m2 == m
                } else if !c.tx_active {
                    r == Err::<bool, GroupTransitionError>(
                        GroupTransitionError::InvalidTransition {
                            call_id,
                            state: floor_state(c),
                            event: GroupEvent::TxCeased,
                        },
                    ) && m2 == m
                } else if c.source_issi != speaker_issi {
                    r == Ok::<bool, GroupTransitionError>(false) && m2 == m
                } else {
                    &&& same_but_queue(
                        ActiveCall { tx_active: false, hangtime_start: Some(old(self).dltime), ..c },
                        m2[call_id],
                    )
                    &&& m2[call_id].floor_queue().len() == 0
                    &&& r == if ctx.setup_cached {
                        Ok::<bool, GroupTransitionError>(true)
                    } else {
                        Err(GroupTransitionError::MissingCachedSetup(call_id))
                    }
                }
            }),
    {
        if ctx.release_pending {
            return Ok(false);
        }
        let ghost m = self.active_calls@;
        let (state, is_speaker) = match self.active_calls.get(&call_id) {
            Some(call) => (call.state(), call.is_current_speaker(speaker_issi)),
            None => {
                return Err(GroupTransitionError::UnknownCall(call_id));
            },
        };
        match Self::validate_group_transition(call_id, state, GroupEvent::TxCeased) {
            Ok(()) => {},
            Err(e) => {
                return Err(e);
            },
        }
        if !is_speaker {
            return Ok(false);
        }
        let now = self.dltime;
        match self.active_calls.remove(&call_id) {
            Some(mut call) => {
                call.clear_all_queued_tx_demands();
                call.enter_hangtime(now);
                self.active_calls.insert(call_id, call);
            },
            None => {},
        }
        proof {
            assert(self.active_calls@.dom() =~= m.dom());
        }
        if !ctx.setup_cached {
            return Err(GroupTransitionError::MissingCachedSetup(call_id));
        }
        Ok(true)
    }

    /// Handles U-TX DEMAND from `requesting_party` in individual simplex
    /// call `call_id` (EN 300 392-2 clause 14.5.1.2.1): the floor is granted
    /// unless the other party holds it, in which case the request waits (one
    /// at most). `disconnect_clearing`: a disconnect of the call is being
    /// cleared.
    pub fn fsm_individual_on_tx_demand(
        &mut self,
        call_id: u16,
        requesting_party: TetraAddress,
        disconnect_clearing: bool,
    ) -> (r: IndividualTxDemandOutcome)
        requires
            old(self).individual_calls@.contains_key(call_id),
        ensures
            old(self).individual_calls_wf() ==> final(self).individual_calls_wf(),
            final(self).same_except_individual_calls(old(self)),
            only_individual_changed(old(self).individual_calls@, final(self).individual_calls@, call_id),
            individual_tx_demand_done(*old(self), *final(self), call_id, requesting_party, disconnect_clearing, r),
    {
        let ghost m = self.individual_calls@;
        let mut call = match self.individual_calls.remove(&call_id) {
            Some(c) => c,
            None => {
                return IndividualTxDemandOutcome::Ignored;
            },
        };
        let req = requesting_party.ssi;
        let outcome = if disconnect_clearing || !call.is_active() {
            IndividualTxDemandOutcome::Ignored
        } else if call.peer_issi_for(req).is_none() {
            IndividualTxDemandOutcome::RejectedNonParticipant
        } else if call.simplex_duplex {
            IndividualTxDemandOutcome::Ignored
        } else {
            let peer = if req == call.calling_addr.ssi {
                call.called_addr
            } else {
                call.calling_addr
            };
            match call.floor_holder {
                Some(holder) if holder != req => {
                    let grant = match call.queue_tx_demand(requesting_party) {
                        TxDemandQueueResult::QueueBusy => TransmissionGrant::NotGranted,
                        TxDemandQueueResult::FromCurrentSpeaker => TransmissionGrant::Granted,
                        _ => TransmissionGrant::RequestQueued,
                    };
                    IndividualTxDemandOutcome::Answered { grant, holder }
                },
                _ => {
                    call.floor_holder = Some(req);
                    IndividualTxDemandOutcome::Granted { peer }
                },
            }
        };
        self.individual_calls.insert(call_id, call);
        proof {
            assert(self.individual_calls@.dom() =~= m.dom());
        }
        outcome
    }

    /// Handles U-TX CEASED from `sender` in individual simplex call
    /// `call_id`: a waiting request is withdrawn, or the floor passes to the
    /// waiting party, or the transmission ends after the tail drain.
    /// `disconnect_clearing`: a disconnect of the call is being cleared.
    pub fn fsm_individual_on_tx_ceased(&mut self, call_id: u16, sender: TetraAddress, disconnect_clearing: bool) -> (r:
        IndividualTxCeasedOutcome)
        requires
            old(self).individual_calls@.contains_key(call_id),
        ensures
            old(self).individual_calls_wf() ==> final(self).individual_calls_wf(),
            final(self).same_except_individual_calls(old(self)),
            only_individual_changed(old(self).individual_calls@, final(self).individual_calls@, call_id),
            individual_tx_ceased_done(*old(self), *final(self), call_id, sender, disconnect_clearing, r),
    {
        let ghost m = self.individual_calls@;
        let mut call = match self.individual_calls.remove(&call_id) {
            Some(c) => c,
            None => {
                return IndividualTxCeasedOutcome::Ignored;
            },
        };
        let s = sender.ssi;
        let outcome = if disconnect_clearing || !call.is_active() || call.peer_issi_for(s).is_none()
            || call.simplex_duplex {
            IndividualTxCeasedOutcome::Ignored
        } else {
            let peer = if s == call.calling_addr.ssi {
                call.called_addr
            } else {
                call.calling_addr
            };
            if call.floor_holder != Some(s) {
                let withdrawn = match call.queued_tx_demand {
                    Some(waiting) => waiting.ssi == s,
                    None => false,
                };
                if withdrawn {
                    call.queued_tx_demand = None;
                    IndividualTxCeasedOutcome::Withdrawn
                } else {
                    IndividualTxCeasedOutcome::Ignored
                }
            } else {
                match call.queued_tx_demand {
                    Some(_) => {
                        call.floor_holder = None;
                        match call.take_queued_tx_demand() {
                            Some(waiting) => {
                                let (to, listener) = if waiting.ssi == peer.ssi {
                                    (peer, sender)
                                } else {
                                    (sender, peer)
                                };
                                call.floor_holder = Some(to.ssi);
                                IndividualTxCeasedOutcome::HandedOver { to, listener }
                            },
                            None => IndividualTxCeasedOutcome::Ignored,
                        }
                    },
                    None => IndividualTxCeasedOutcome::TailDrainStarted { peer },
                }
            }
        };
        self.individual_calls.insert(call_id, call);
        proof {
            assert(self.individual_calls@.dom() =~= m.dom());
        }
        outcome
    }

    /// Handles U-TX DEMAND for call `call_id`, individual or group.
    /// `disconnect_clearing` and `individual_release_pending` describe the
    /// individual call, `ctx` the group call.
    pub fn fsm_on_u_tx_demand(
        &mut self,
        call_id: u16,
        requesting_party: TetraAddress,
        tx_demand_priority: u8,
        disconnect_clearing: bool,
        individual_release_pending: bool,
        ctx: GroupFloorContext,
        registry_members: &HashSet<u32>,
    ) -> (r: UTxDemandOutcome)
        requires
            old(self).calls_wf(),
        ensures
            old(self).individual_calls_wf() ==> final(self).individual_calls_wf(),
            final(self).calls_wf(),
            old(self).individual_calls@.contains_key(call_id) ==> {
                &&& r matches UTxDemandOutcome::Individual(o)
                &&& final(self).same_except_individual_calls(old(self))
                &&& only_individual_changed(old(self).individual_calls@, final(self).individual_calls@, call_id)
                &&& individual_tx_demand_done(
                    *old(self),
                    *final(self),
                    call_id,
                    requesting_party,
                    disconnect_clearing,
                    o,
                )
            },
            !old(self).individual_calls@.contains_key(call_id) && individual_release_pending ==> r
                == UTxDemandOutcome::IndividualReleasePending && *final(self) == *old(self),
            !old(self).individual_calls@.contains_key(call_id) && !individual_release_pending ==> {
                &&& r matches UTxDemandOutcome::Group(o)
                &&& *final(self) == (CcBsSubentity { active_calls: final(self).active_calls, ..*old(self) })
                &&& only_call_changed(old(self).active_calls@, final(self).active_calls@, call_id)
                &&& group_tx_demand_done(
                    *old(self),
                    *final(self),
                    call_id,
                    requesting_party,
                    tx_demand_priority,
                    ctx,
                    registry_members@,
                    o,
                )
            },
    {
        if self.individual_calls.contains_key(&call_id) {
            return UTxDemandOutcome::Individual(
                self.fsm_individual_on_tx_demand(call_id, requesting_party, disconnect_clearing),
            );
        }
        if individual_release_pending {
            return UTxDemandOutcome::IndividualReleasePending;
        }
        UTxDemandOutcome::Group(
            self.fsm_group_on_tx_demand(call_id, requesting_party, tx_demand_priority, ctx, registry_members),
        )
    }

    /// Handles U-TX CEASED for call `call_id`, individual or group.
    pub fn fsm_on_u_tx_ceased(
        &mut self,
        call_id: u16,
        sender: TetraAddress,
        disconnect_clearing: bool,
        ctx: GroupFloorContext,
        registry_members: &HashSet<u32>,
    ) -> (r: UTxCeasedOutcome)
        requires
            old(self).calls_wf(),
        ensures
            old(self).individual_calls_wf() ==> final(self).individual_calls_wf(),
            final(self).calls_wf(),
            old(self).individual_calls@.contains_key(call_id) ==> {
                &&& r matches UTxCeasedOutcome::Individual(o)
                &&& final(self).same_except_individual_calls(old(self))
                &&& only_individual_changed(old(self).individual_calls@, final(self).individual_calls@, call_id)
                &&& individual_tx_ceased_done(*old(self), *final(self), call_id, sender, disconnect_clearing, o)
            },
            !old(self).individual_calls@.contains_key(call_id) ==> {
                &&& r matches UTxCeasedOutcome::Group(o)
                &&& *final(self) == (CcBsSubentity { active_calls: final(self).active_calls, ..*old(self) })
                &&& only_call_changed(old(self).active_calls@, final(self).active_calls@, call_id)
                &&& group_tx_ceased_done(*old(self), *final(self), call_id, sender, ctx, registry_members@, o)
            },
    {
        if self.individual_calls.contains_key(&call_id) {
            return UTxCeasedOutcome::Individual(self.fsm_individual_on_tx_ceased(call_id, sender, disconnect_clearing));
        }
        UTxCeasedOutcome::Group(self.fsm_group_on_tx_ceased(call_id, sender, ctx, registry_members))
    }

    /// An individual call whose floor holder transmits on timeslot `ts`.
    pub fn find_individual_call_transmitting_on(&self, ts: u8) -> (r: Option<u16>)
        ensures
            match r {
                Some(id) => self.individual_calls@.contains_key(id) && holder_transmits_on(
                    self.individual_calls@[id],
                    ts,
                ),
                None => forall|id: u16|
                    #[trigger] self.individual_calls@.contains_key(id) ==> !holder_transmits_on(
                        self.individual_calls@[id],
                        ts,
                    ),
            },
    {
        let ghost ks = vstd::std_specs::hash::spec_keys_iter(&self.individual_calls).remaining().unref();
        for k in it: self.individual_calls.keys()
            invariant
                it.seq().unref() == ks,
                ks.to_set() == self.individual_calls@.dom(),
                forall|j: int|
                    0 <= j < it.index() ==> !holder_transmits_on(self.individual_calls@[#[trigger] ks[j]], ts),
        {
            let ghost j = it.index() as int;
            proof {
                assert(ks[j] == *k);
                assert(ks.to_set().contains(*k));
            }
            match self.individual_calls.get(k) {
                Some(call) => {
                    let found = call.is_active() && !call.simplex_duplex && match call.floor_holder {
                        Some(holder) => {
                            let holder_ts = if holder == call.calling_addr.ssi {
                                call.calling_ts
                            } else {
                                call.called_ts
                            };
                            holder_ts == ts
                        },
                        None => false,
                    };
                    if found {
                        return Some(*k);
                    }
                },
                None => {},
            }
        }
        proof {
            assert forall|id: u16| #[trigger] self.individual_calls@.contains_key(id) implies !holder_transmits_on(
                self.individual_calls@[id],
                ts,
            ) by {
                assert(ks.to_set().contains(id));
                let j = choose|j: int| 0 <= j < ks.len() && ks[j] == id;
                assert(!holder_transmits_on(self.individual_calls@[ks[j]], ts));
            }
        }
        None
    }

    /// A group call transmitting on timeslot `ts`.
    pub fn find_group_call_transmitting_on(&self, ts: u8) -> (r: Option<u16>)
        ensures
            match r {
                Some(id) => self.active_calls@.contains_key(id) && self.active_calls@[id].ts == ts
                    && self.active_calls@[id].tx_active,
                None => forall|id: u16|
                    #[trigger] self.active_calls@.contains_key(id) ==> !(self.active_calls@[id].ts == ts
                        && self.active_calls@[id].tx_active),
            },
    {
        let ghost ks = vstd::std_specs::hash::spec_keys_iter(&self.active_calls).remaining().unref();
        for k in it: self.active_calls.keys()
            invariant
                it.seq().unref() == ks,
                ks.to_set() == self.active_calls@.dom(),
                forall|j: int|
                    0 <= j < it.index() ==> !(self.active_calls@[#[trigger] ks[j]].ts == ts
                        && self.active_calls@[ks[j]].tx_active),
        {
            let ghost j = it.index() as int;
            proof {
                assert(ks[j] == *k);
                assert(ks.to_set().contains(*k));
            }
            match self.active_calls.get(k) {
                Some(call) => {
                    if call.ts == ts && call.tx_active {
                        return Some(*k);
                    }
                },
                None => {},
            }
        }
        proof {
            assert forall|id: u16| #[trigger] self.active_calls@.contains_key(id) implies !(self.active_calls@[id].ts
                == ts && self.active_calls@[id].tx_active) by {
                assert(ks.to_set().contains(id));
                let j = choose|j: int| 0 <= j < ks.len() && ks[j] == id;
                assert(!(self.active_calls@[ks[j]].ts == ts && self.active_calls@[ks[j]].tx_active));
            }
        }
        None
    }

    /// Uplink inactivity on timeslot `ts`: a silent floor holder of an
    /// individual simplex call loses the floor (to the waiting party, if
    /// any); otherwise a transmitting group call on the timeslot enters
    /// hangtime unless it is being released (`releasing`); otherwise an echo
    /// session `(call_id, ts)` on the timeslot is kept alive.
    pub fn handle_ul_inactivity_timeout(
        &mut self,
        ts: u8,
        releasing: &HashSet<u16>,
        echo_session: Option<(u16, u8)>,
    ) -> (r: UlInactivityOutcome)
        ensures
            old(self).individual_calls_wf() ==> final(self).individual_calls_wf(),
            ({
                let ind = old(self).individual_calls@;
                let grp = old(self).active_calls@;
                if exists|id: u16| #[trigger] ind.contains_key(id) && holder_transmits_on(ind[id], ts) {
                    &&& *final(self) == (CcBsSubentity { individual_calls: final(self).individual_calls, ..*old(self) })
                    &&& match r {
                        UlInactivityOutcome::IndividualHandedOver { call_id, to, listener } => {
                            let c = ind[call_id];
                            let holder = c.floor_holder->0;
                            let peer = peer_addr_of(c, holder);
                            &&& ind.contains_key(call_id) && holder_transmits_on(c, ts)
                            &&& c.queued_tx_demand is Some
                            &&& to == if c.queued_tx_demand->0.ssi == peer.ssi {
                                peer
                            } else {
                                party_addr(c, holder)
                            }
                            &&& listener == if c.queued_tx_demand->0.ssi == peer.ssi {
                                party_addr(c, holder)
                            } else {
                                peer
                            }
                            &&& final(self).individual_calls@ == ind.insert(
                                call_id,
                                IndividualCall { floor_holder: Some(to.ssi), queued_tx_demand: None, ..c },
                            )
                        },
                        UlInactivityOutcome::IndividualFloorReleased { call_id, holder, peer } => {
                            let c = ind[call_id];
                            &&& ind.contains_key(call_id) && holder_transmits_on(c, ts)
                            &&& c.queued_tx_demand is None
                            &&& holder == party_addr(c, c.floor_holder->0)
                            &&& peer == peer_addr_of(c, c.floor_holder->0)
                            &&& final(self).individual_calls@ == ind.insert(
                                call_id,
                                IndividualCall { floor_holder: None, ..c },
                            )
                        },
                        _ => false,
                    }
                } else if exists|id: u16| #[trigger] grp.contains_key(id) && grp[id].ts == ts && grp[id].tx_active {
                    match r {
                        UlInactivityOutcome::GroupReleasing { call_id } => {
                            &&& grp.contains_key(call_id) && grp[call_id].ts == ts && grp[call_id].tx_active
                            &&& releasing@.contains(call_id)
                            &&& *final(self) == *old(self)
                        },
                        UlInactivityOutcome::GroupFloorReleased { call_id } => {
                            &&& grp.contains_key(call_id) && grp[call_id].ts == ts && grp[call_id].tx_active
                            &&& !releasing@.contains(call_id)
                            &&& *final(self) == (CcBsSubentity { active_calls: final(self).active_calls, ..*old(self) })
                            &&& final(self).active_calls@ == grp.insert(
                                call_id,
                                ActiveCall { tx_active: false, hangtime_start: Some(old(self).dltime), ..grp[call_id] },
                            )
                        },
                        _ => false,
                    }
                } else {
                    &&& *final(self) == *old(self)
                    &&& r == match echo_session {
                        Some((call_id, echo_ts)) => if echo_ts == ts {
                            UlInactivityOutcome::EchoRefresh { call_id }
                        } else {
                            UlInactivityOutcome::Nothing
                        },
                        None => UlInactivityOutcome::Nothing,
                    }
                }
            }),
            old(self).calls_wf() ==> final(self).calls_wf(),
    {
        let ghost ind = self.individual_calls@;
        let ghost grp = self.active_calls@;
        match self.find_individual_call_transmitting_on(ts) {
            Some(call_id) => {
                let mut call = match self.individual_calls.remove(&call_id) {
                    Some(c) => c,
                    None => {
                        return UlInactivityOutcome::Nothing;
                    },
                };
                let ghost c0 = call;
                let holder_ssi = match call.floor_holder {
                    Some(h) => h,
                    None => {
                        self.individual_calls.insert(call_id, call);
                        return UlInactivityOutcome::Nothing;
                    },
                };
                let (holder, peer) = if holder_ssi == call.calling_addr.ssi {
                    (call.calling_addr, call.called_addr)
                } else {
                    (call.called_addr, call.calling_addr)
                };
                call.floor_holder = None;
                let outcome = match call.take_queued_tx_demand() {
                    Some(requester) => {
                        let (to, listener) = if requester.ssi == peer.ssi {
                            (peer, holder)
                        } else {
                            (holder, peer)
                        };
                        call.floor_holder = Some(to.ssi);
                        UlInactivityOutcome::IndividualHandedOver { call_id, to, listener }
                    },
                    None => UlInactivityOutcome::IndividualFloorReleased { call_id, holder, peer },
                };
                self.individual_calls.insert(call_id, call);
                proof {
                    assert(holder_transmits_on(ind[call_id], ts));
                }
                return outcome;
            },
            None => {},
        }
        match self.find_group_call_transmitting_on(ts) {
            Some(call_id) => {
                if releasing.contains(&call_id) {
                    return UlInactivityOutcome::GroupReleasing { call_id };
                }
                let now = self.dltime;
                match self.active_calls.remove(&call_id) {
                    Some(mut call) => {
                        call.enter_hangtime(now);
                        self.active_calls.insert(call_id, call);
                    },
                    None => {},
                }
                proof {
                    assert(grp.contains_key(call_id) && grp[call_id].ts == ts && grp[call_id].tx_active);
                }
                UlInactivityOutcome::GroupFloorReleased { call_id }
            },
            None => {
                match echo_session {
                    Some((call_id, echo_ts)) => {
                        if echo_ts == ts {
                            return UlInactivityOutcome::EchoRefresh { call_id };
                        }
                        UlInactivityOutcome::Nothing
                    },
                    None => UlInactivityOutcome::Nothing,
                }
            },
        }
    }

    /// The network speaker `source_issi` takes the floor of group call
    /// `call_id` for bridge call `brew_uuid` with `priority`; a local speaker
    /// still affiliated to the group that held the floor is interrupted.
    pub fn fsm_group_on_network_call_start(
        &mut self,
        call_id: u16,
        brew_uuid: u128,
        source_issi: u32,
        priority: u8,
        release_pending: bool,
        registry_members: &HashSet<u32>,
    ) -> (r: Result<NetworkCallStartOutcome, GroupTransitionError>)
        requires
            old(self).calls_wf(),
        ensures
            old(self).individual_calls_wf() ==> final(self).individual_calls_wf(),
            final(self).calls_wf(),
            *final(self) == (CcBsSubentity { active_calls: final(self).active_calls, ..*old(self) }),
            ({
                let m = old(self).active_calls@;
                let c = m[call_id];
                if release_pending {
                    r == Ok::<NetworkCallStartOutcome, GroupTransitionError>(NetworkCallStartOutcome::Ignored)
                        && final(self).active_calls@ == m
                } else if !m.contains_key(call_id) {
                    r == Err::<NetworkCallStartOutcome, GroupTransitionError>(
                        GroupTransitionError::UnknownCall(call_id),
                    ) && final(self).active_calls@ == m
                } else {
                    let local_speaker = c.tx_active && affiliated(
                        old(self).subscriber_groups@,
                        registry_members@,
                        c.source_issi,
                        c.dest_gssi,
                    );
                    &&& r == Ok::<NetworkCallStartOutcome, GroupTransitionError>(
                        NetworkCallStartOutcome::Started {
                            preempted_local_speaker: if local_speaker && c.source_issi != source_issi {
                                Some(c.source_issi)
                            } else {
                                None
                            },
                        },
                    )
                    &&& final(self).active_calls@ == m.insert(
                        call_id,
                        ActiveCall {
                            priority,
                            brew_uuid: Some(brew_uuid),
                            origin: CallOrigin::Network { brew_uuid },
                            ..granted_to(c, source_issi, old(self).dltime)
                        },
                    )
                }
            }),
    {
        if release_pending {
            return Ok(NetworkCallStartOutcome::Ignored);
        }
        let ghost m = self.active_calls@;
        let (local_speaker, speaker) = match self.active_calls.get(&call_id) {
            Some(call) => (
                call.tx_active && self.subscriber_affiliated_to_group(call.source_issi, call.dest_gssi, registry_members),
                call.source_issi,
            ),
            None => {
                return Err(GroupTransitionError::UnknownCall(call_id));
            },
        };
        let mut call = match self.active_calls.remove(&call_id) {
            Some(c) => c,
            None => {
                return Err(GroupTransitionError::UnknownCall(call_id));
            },
        };
        match Self::validate_group_transition(call_id, call.state(), GroupEvent::NetworkCallStart) {
            Ok(()) => {},
            Err(e) => {
                self.active_calls.insert(call_id, call);
                proof {
                    assert(self.active_calls@ =~= m);
                }
                return Err(e);
            },
        }
        let preempted_local_speaker = if local_speaker && speaker != source_issi {
            Some(speaker)
        } else {
            None
        };
        call.grant_floor(source_issi, None);
        call.priority = priority;
        call.brew_uuid = Some(brew_uuid);
        call.origin = CallOrigin::Network { brew_uuid };
        call.reset_timeout(self.dltime);
        self.active_calls.insert(call_id, call);
        Ok(NetworkCallStartOutcome::Started { preempted_local_speaker })
    }

    /// The network bridge ends its transmission in group call `call_id`.
    pub fn fsm_group_on_network_call_end(&mut self, call_id: u16, release_pending: bool) -> (r: Result<
        NetworkCallEndOutcome,
        GroupTransitionError,
    >)
        requires
            old(self).calls_wf(),
        ensures
            old(self).individual_calls_wf() ==> final(self).individual_calls_wf(),
            final(self).calls_wf(),
            *final(self) == (CcBsSubentity { active_calls: final(self).active_calls, ..*old(self) }),
            ({
                let m = old(self).active_calls@;
                let c = m[call_id];
                if release_pending {
                    r == Ok::<NetworkCallEndOutcome, GroupTransitionError>(NetworkCallEndOutcome::Ignored)
                        && final(self).active_calls@ == m
                } else if !m.contains_key(call_id) {
                    r == Err::<NetworkCallEndOutcome, GroupTransitionError>(GroupTransitionError::UnknownCall(call_id))
                        && final(self).active_calls@ == m
                } else if c.tx_active {
                    &&& r == Ok::<NetworkCallEndOutcome, GroupTransitionError>(NetworkCallEndOutcome::FloorReleased)
                    &&& final(self).active_calls@ == m.insert(
                        call_id,
                        ActiveCall { tx_active: false, hangtime_start: Some(old(self).dltime), brew_uuid: None, ..c },
                    )
                } else {
                    r == Ok::<NetworkCallEndOutcome, GroupTransitionError>(NetworkCallEndOutcome::ReleaseCall)
                        && final(self).active_calls@ == m
                }
            }),
    {
        if release_pending {
            return Ok(NetworkCallEndOutcome::Ignored);
        }
        let state = match self.active_calls.get(&call_id) {
            Some(call) => call.state(),
            None => {
                return Err(GroupTransitionError::UnknownCall(call_id));
            },
        };
        match Self::validate_group_transition(call_id, state, GroupEvent::NetworkCallEnd) {
            Ok(()) => {},
            Err(e) => {
                return Err(e);
            },
        }
        match state {
            GroupCallState::Transmitting => {
                let now = self.dltime;
                match self.active_calls.remove(&call_id) {
                    Some(mut call) => {
                        call.enter_hangtime(now);
                        call.brew_uuid = None;
                        self.active_calls.insert(call_id, call);
                    },
                    None => {},
                }
                Ok(NetworkCallEndOutcome::FloorReleased)
            },
            GroupCallState::NoActiveSpeaker { .. } => Ok(NetworkCallEndOutcome::ReleaseCall),
        }
    }

    /// The waiting station the floor goes to after a tail drain in the
    /// legacy profile: the first affiliated one other than `sender`, else
    /// the first affiliated one.
    fn legacy_tail_drain_target(&self, call: &ActiveCall, sender: u32, registry_members: &HashSet<u32>) -> (r:
        Option<TetraAddress>)
        ensures
            ({
                let q = call.floor_queue();
                let g = self.subscriber_groups@;
                let reg = registry_members@;
                if exists|k: int|
                    #![trigger first_affiliated_other_at(g, reg, q, call.dest_gssi, sender, k)]
                    first_affiliated_other_at(g, reg, q, call.dest_gssi, sender, k) {
                    exists|k: int|
                        #![trigger first_affiliated_other_at(g, reg, q, call.dest_gssi, sender, k)]
                        first_affiliated_other_at(g, reg, q, call.dest_gssi, sender, k) && r == Some(q[k])
                } else if exists|k: int|
                    #![trigger first_affiliated_at(g, reg, q, call.dest_gssi, k)]
                    first_affiliated_at(g, reg, q, call.dest_gssi, k) {
                    exists|k: int|
                        #![trigger first_affiliated_at(g, reg, q, call.dest_gssi, k)]
                        first_affiliated_at(g, reg, q, call.dest_gssi, k) && r == Some(q[k])
                } else {
                    r is None
                }
            }),
    {
        let waiting = call.queued_tx_demands();
        let ghost q = call.floor_queue();
        let ghost g = self.subscriber_groups@;
        let ghost reg = registry_members@;
        let mut first: Option<TetraAddress> = None;
        let ghost mut first_k: int = -1;
        let mut i: usize = 0;
        while i < waiting.len()
            invariant
                0 <= i <= waiting@.len(),
                waiting@ == q,
                q == call.floor_queue(),
                g == self.subscriber_groups@,
                reg == registry_members@,
                forall|j: int|
                    0 <= j < i ==> !(affiliated(g, reg, (#[trigger] q[j]).ssi, call.dest_gssi) && q[j].ssi != sender),
                match first {
                    None => forall|j: int| 0 <= j < i ==> !affiliated(g, reg, (#[trigger] q[j]).ssi, call.dest_gssi),
                    Some(a) => first_affiliated_at(g, reg, q, call.dest_gssi, first_k) && q[first_k] == a,
                },
            decreases waiting@.len() - i,
        {
            let a = waiting[i];
            if self.subscriber_affiliated_to_group(a.ssi, call.dest_gssi, registry_members) {
                if first.is_none() {
                    first = Some(a);
                    proof {
                        first_k = i as int;
                    }
                }
                if a.ssi != sender {
                    proof {
                        assert(first_affiliated_other_at(g, reg, q, call.dest_gssi, sender, i as int));
                    }
                    return Some(a);
                }
            }
            i = i + 1;
        }
        proof {
            assert forall|k: int| !first_affiliated_other_at(g, reg, q, call.dest_gssi, sender, k) by {
                if 0 <= k < q.len() {
                    assert(!(affiliated(g, reg, q[k].ssi, call.dest_gssi) && q[k].ssi != sender));
                }
            }
            if first is None {
                assert forall|k: int| !first_affiliated_at(g, reg, q, call.dest_gssi, k) by {
                    if 0 <= k < q.len() {
                        assert(!affiliated(g, reg, q[k].ssi, call.dest_gssi));
                    }
                }
            }
        }
        first
    }

    /// Completes the tail drain after U-TX CEASED from `sender_ssi` in group
    /// call `call_id` on timeslot `ts`: unless the floor changed meanwhile,
    /// the floor passes to the first waiting station still affiliated (in the
    /// legacy profile preferring one other than the sender, whose own retake
    /// is suppressed) or the call enters hangtime.
    pub fn complete_group_tx_ceased_tail_drain(
        &mut self,
        call_id: u16,
        sender_ssi: u32,
        ts: u8,
        legacy_gssi_group_call: bool,
        registry_members: &HashSet<u32>,
    ) -> (r: GroupTailDrainOutcome)
        requires
            old(self).calls_wf(),
        ensures
            old(self).individual_calls_wf() ==> final(self).individual_calls_wf(),
            final(self).calls_wf(),
            *final(self) == (CcBsSubentity { active_calls: final(self).active_calls, ..*old(self) }),
            only_call_changed(old(self).active_calls@, final(self).active_calls@, call_id),
            ({
                let m = old(self).active_calls@;
                let m2 = final(self).active_calls@;
                let c = m[call_id];
                let legacy = legacy_gssi_group_call && c.origin is Local;
                if !m.contains_key(call_id) || !(c.tx_active && c.source_issi == sender_ssi) || c.ts != ts {
                    r == GroupTailDrainOutcome::Skipped && m2 == m
                } else {
                    match r {
                        GroupTailDrainOutcome::HandedOver { to } => {
                            &&& to.ssi != sender_ssi || !legacy
                            &&& same_but_queue(granted_to(c, to.ssi, old(self).dltime), m2[call_id])
                            &&& exists|k: int|
                                0 <= k < c.floor_queue().len() && c.floor_queue()[k] == to
                                    && m2[call_id].floor_queue() == c.floor_queue().subrange(
                                    k + 1,
                                    c.floor_queue().len() as int,
                                ) && affiliated(
                                    old(self).subscriber_groups@,
                                    registry_members@,
                                    to.ssi,
                                    c.dest_gssi,
                                )
                        },
                        GroupTailDrainOutcome::FloorReleased { legacy_release, same_speaker_retake } => {
                            &&& legacy_release == legacy
                            &&& (same_speaker_retake ==> legacy)
                            &&& same_but_queue(
                                ActiveCall { tx_active: false, hangtime_start: Some(old(self).dltime), ..c },
                                m2[call_id],
                            )
                        },
                        GroupTailDrainOutcome::Skipped => false,
                    }
                }
            }),
            ({
                let m = old(self).active_calls@;
                let c = m[call_id];
                let q = c.floor_queue();
                let g = old(self).subscriber_groups@;
                let reg = registry_members@;
                m.contains_key(call_id) && c.tx_active && c.source_issi == sender_ssi && c.ts == ts && !(
                legacy_gssi_group_call && c.origin is Local) ==> (match r {
                    GroupTailDrainOutcome::HandedOver { to } => exists|k: int|
                        #![trigger first_affiliated_at(g, reg, q, c.dest_gssi, k)]
                        first_affiliated_at(g, reg, q, c.dest_gssi, k) && to == q[k],
                    _ => forall|k: int| !#[trigger] first_affiliated_at(g, reg, q, c.dest_gssi, k),
                })
            }),
    {
        let ghost m = self.active_calls@;
        let (eligible, legacy) = match self.active_calls.get(&call_id) {
            Some(call) => (
                call.is_current_speaker(sender_ssi) && call.ts == ts,
                legacy_gssi_group_call && match call.origin {
                    CallOrigin::Local { .. } => true,
                    _ => false,
                },
            ),
            None => {
                return GroupTailDrainOutcome::Skipped;
            },
        };
        if !eligible {
            return GroupTailDrainOutcome::Skipped;
        }
        let mut call = match self.active_calls.remove(&call_id) {
            Some(c) => c,
            None => {
                return GroupTailDrainOutcome::Skipped;
            },
        };
        let ghost c0 = call;
        let ghost q = call.floor_queue();
        proof {
            assert(m.contains_key(call_id) && m[call_id].floor_queue_wf());
        }
        let target = if legacy {
            self.legacy_tail_drain_target(&call, sender_ssi, registry_members)
        } else {
            self.first_affiliated_group_floor_requester(&call, registry_members)
        };
        let target_ssi = match target {
            Some(a) => Some(a.ssi),
            None => None,
        };
        let taken = call.take_queued_tx_demand_through(target_ssi);
        proof {
            if let Some(a) = target {
                assert(exists|k: int| 0 <= k < q.len() && q[k] == a);
                let k = choose|k: int| 0 <= k < q.len() && q[k] == a;
                assert forall|j: int| 0 <= j < k implies (#[trigger] q[j]).ssi != a.ssi by {
                    assert(q[j].ssi != q[k].ssi);
                }
                assert(crate::call::first_index_of_ssi(q, a.ssi, k));
                assert(queue_holds_ssi(q, a.ssi));
                let k2 = choose|k2: int|
                    #![trigger crate::call::first_index_of_ssi(q, a.ssi, k2)]
                    crate::call::first_index_of_ssi(q, a.ssi, k2) && taken == Some(q[k2]) && call.floor_queue()
                        == q.subrange(k2 + 1, q.len() as int);
                assert(k2 == k) by {
                    if k2 < k {
                        assert(q[k2].ssi == a.ssi);
                    } else if k < k2 {
                        assert(q[k].ssi == a.ssi);
                    }
                }
            }
        }
        let now = self.dltime;
        let same_speaker_retake = legacy && match taken {
            Some(requester) => requester.ssi == sender_ssi,
            None => false,
        };
        match taken {
            Some(requester) if !same_speaker_retake => {
                call.grant_floor(requester.ssi, Some(requester));
                call.reset_timeout(now);
                self.active_calls.insert(call_id, call);
                proof {
                    assert(self.active_calls@.dom() =~= m.dom());
                    if let Some(a) = target {
                        let k = choose|k: int| 0 <= k < q.len() && q[k] == a;
                        assert(affiliated(self.subscriber_groups@, registry_members@, q[k].ssi, c0.dest_gssi));
                    }
                }
                GroupTailDrainOutcome::HandedOver { to: requester }
            },
            _ => {
                call.enter_hangtime(now);
                self.active_calls.insert(call_id, call);
                proof {
                    assert(self.active_calls@.dom() =~= m.dom());
                }
                GroupTailDrainOutcome::FloorReleased { legacy_release: legacy, same_speaker_retake }
            },
        }
    }

    /// Completes the tail drain after U-TX CEASED from `sender` in
    /// individual simplex call `call_id` with peer `peer`: unless the call
    /// or its floor changed meanwhile, the floor passes to the waiting party
    /// or is released.
    pub fn complete_individual_tx_ceased_tail_drain(&mut self, call_id: u16, sender: TetraAddress, peer: TetraAddress) -> (r:
        IndividualTailDrainOutcome)
        ensures
            old(self).individual_calls_wf() ==> final(self).individual_calls_wf(),
            final(self).same_except_individual_calls(old(self)),
            only_individual_changed(old(self).individual_calls@, final(self).individual_calls@, call_id),
            ({
                let m = old(self).individual_calls@;
                let c = m[call_id];
                let c2 = final(self).individual_calls@[call_id];
                if !m.contains_key(call_id) || c.state != IndividualCallState::Active || c.simplex_duplex
                    || c.floor_holder != Some(sender.ssi) {
                    r == IndividualTailDrainOutcome::Skipped && final(self).individual_calls@ == m
                } else {
                    match c.queued_tx_demand {
                        Some(waiting) => {
                            let to = if waiting.ssi == peer.ssi {
                                peer
                            } else {
                                sender
                            };
                            let listener = if waiting.ssi == peer.ssi {
                                sender
                            } else {
                                peer
                            };
                            &&& r == IndividualTailDrainOutcome::HandedOver { to, listener }
                            &&& c2 == (IndividualCall {
                                floor_holder: Some(to.ssi),
                                last_floor_holder: Some(to.ssi),
                                queued_tx_demand: None,
                                ..c
                            })
                        },
                        None => {
                            &&& r == IndividualTailDrainOutcome::FloorReleased
                            &&& c2 == (IndividualCall {
                                floor_holder: None,
                                last_floor_holder: Some(sender.ssi),
                                queued_tx_demand: None,
                                ..c
                            })
                        },
                    }
                }
            }),
    {
        let ghost m = self.individual_calls@;
        let eligible = match self.individual_calls.get(&call_id) {
            Some(call) => call.is_active() && !call.simplex_duplex && call.floor_holder == Some(sender.ssi),
            None => false,
        };
        if !eligible {
            return IndividualTailDrainOutcome::Skipped;
        }
        let mut call = match self.individual_calls.remove(&call_id) {
            Some(c) => c,
            None => {
                return IndividualTailDrainOutcome::Skipped;
            },
        };
        call.clear_floor_holder();
        let outcome = match call.take_queued_tx_demand() {
            Some(requester) => {
                let (to, listener) = if requester.ssi == peer.ssi {
                    (peer, sender)
                } else {
                    (sender, peer)
                };
                call.set_floor_holder(to.ssi);
                IndividualTailDrainOutcome::HandedOver { to, listener }
            },
            None => IndividualTailDrainOutcome::FloorReleased,
        };
        self.individual_calls.insert(call_id, call);
        proof {
            assert(self.individual_calls@.dom() =~= m.dom());
        }
        outcome
    }

    /// The group calls of group `gssi` to release because it has no
    /// listeners left (`registry_has_members`: the shared registry lists
    /// members), each once.
    pub fn drop_group_calls_if_unlistened(&self, gssi: u32, registry_has_members: bool) -> (r: Vec<u16>)
        ensures
            registry_has_members || listener_count(self.group_listeners@, gssi) > 0 || listener_count(
                self.external_group_listeners@,
                gssi,
            ) > 0 ==> r@.len() == 0,
            !(registry_has_members || listener_count(self.group_listeners@, gssi) > 0 || listener_count(
                self.external_group_listeners@,
                gssi,
            ) > 0) ==> forall|id: u16|
                #[trigger] r@.contains(id) <==> self.active_calls@.contains_key(id) && self.active_calls@[id].dest_gssi
                    == gssi,
            r@.no_duplicates(),
    {
        if self.has_listener(gssi, registry_has_members) {
            return Vec::new();
        }
        collect_keys(&self.active_calls, &GroupCallsOf { gssi })
    }

    /// Station `issi` left group `gssi`: in each call of the group, a
    /// departed speaker loses the floor (while the group still has
    /// listeners) and a waiting request of the station is withdrawn. Returns,
    /// for each call whose speaker departed, the outcome of taking the floor
    /// away. `releasing` and `cached_setups` describe the pending releases
    /// and cached D-SETUPs; `registry_has_members` the shared registry.
    pub fn clear_group_floor_state_for_departure(
        &mut self,
        issi: u32,
        gssi: u32,
        registry_has_members: bool,
        releasing: &HashSet<u16>,
        cached_setups: &HashSet<u16>,
    ) -> (r: Vec<(u16, Result<bool, GroupTransitionError>)>)
        requires
            old(self).calls_wf(),
        ensures
            old(self).individual_calls_wf() ==> final(self).individual_calls_wf(),
            final(self).calls_wf(),
            *final(self) == (CcBsSubentity { active_calls: final(self).active_calls, ..*old(self) }),
            ({
                let m = old(self).active_calls@;
                let m2 = final(self).active_calls@;
                let has_listener = registry_has_members || listener_count(old(self).group_listeners@, gssi) > 0
                    || listener_count(old(self).external_group_listeners@, gssi) > 0;
                &&& m2.dom() == m.dom()
                &&& forall|id: u16|
                    #[trigger] m2.contains_key(id) ==> if m[id].dest_gssi == gssi {
                        after_departure(m[id], m2[id], issi, has_listener, releasing@.contains(id), old(self).dltime)
                    } else {
                        m2[id] == m[id]
                    }
            }),
    {
        let ghost m = self.active_calls@;
        let has_listener = self.has_listener(gssi, registry_has_members);
        let ids = collect_keys(&self.active_calls, &GroupCallsOf { gssi });
        let now = self.dltime;
        let mut out: Vec<(u16, Result<bool, GroupTransitionError>)> = Vec::new();
        let mut i: usize = 0;
        while i < ids.len()
            invariant
                0 <= i <= ids@.len(),
                ids@.no_duplicates(),
                forall|id: u16| #[trigger] ids@.contains(id) <==> m.contains_key(id) && m[id].dest_gssi == gssi,
                self.calls_wf(),
                *self == (CcBsSubentity { active_calls: self.active_calls, ..*old(self) }),
                now == self.dltime,
                m == old(self).active_calls@,
                self.active_calls@.dom() == m.dom(),
                has_listener == (registry_has_members || listener_count(old(self).group_listeners@, gssi) > 0
                    || listener_count(old(self).external_group_listeners@, gssi) > 0),
                forall|id: u16|
                    #[trigger] self.active_calls@.contains_key(id) ==> if ids@.take(i as int).contains(id) {
                        after_departure(m[id], self.active_calls@[id], issi, has_listener, releasing@.contains(id), now)
                    } else {
                        self.active_calls@[id] == m[id]
                    },
            decreases ids@.len() - i,
        {
            let id = ids[i];
            let ghost before = self.active_calls@;
            proof {
                assert(ids@.contains(id));
                assert(!ids@.take(i as int).contains(id)) by {
                    if ids@.take(i as int).contains(id) {
                        let j = choose|j: int| 0 <= j < i && ids@.take(i as int)[j] == id;
                        assert(ids@[j] == ids@[i as int]);
                    }
                }
                assert forall|x: u16| ids@.take(i as int + 1).contains(x) <==> ids@.take(i as int).contains(x) || x == id by {
                    let t0 = ids@.take(i as int);
                    let t1 = ids@.take(i as int + 1);
                    if t1.contains(x) {
                        let j = choose|j: int| 0 <= j < t1.len() && t1[j] == x;
                        if j < i {
                            assert(t0[j] == x);
                        }
                    }
                    if t0.contains(x) {
                        let j = choose|j: int| 0 <= j < t0.len() && t0[j] == x;
                        assert(t1[j] == x);
                    }
                    if x == id {
                        assert(t1[i as int] == x);
                    }
                }
            }
            let speaker_departed = match self.active_calls.get(&id) {
                Some(call) => call.is_current_speaker(issi),
                None => false,
            };
            if speaker_departed && has_listener {
                let ctx = GroupFloorContext {
                    release_pending: releasing.contains(&id),
                    setup_cached: cached_setups.contains(&id),
                    requester_tail_draining: false,
                    legacy_gssi_group_call: false,
                    transmission_interruption_enabled: false,
                };
                let res = self.fsm_group_on_current_speaker_departed(id, issi, ctx);
                out.push((id, res));
            } else {
                match self.active_calls.remove(&id) {
                    Some(mut call) => {
                        let _withdrawn = call.clear_queued_tx_demand_from(issi);
                        self.active_calls.insert(id, call);
                    },
                    None => {},
                }
            }
            proof {
                assert(self.active_calls@.dom() =~= m.dom());
            }
            i = i + 1;
        }
        proof {
            assert(ids@.take(ids@.len() as int) =~= ids@);
        }
        out
    }

    /// Queues `requester` for the floor of call `call_id` while its previous
    /// transmission drains, and says how to answer it.
    fn queue_retake_after_cease_tail(&mut self, call_id: u16, requester: TetraAddress) -> (r: GroupTxDemandOutcome)
        requires
            old(self).calls_wf(),
            old(self).active_calls@.contains_key(call_id),
        ensures
            final(self).calls_wf(),
            *final(self) == (CcBsSubentity { active_calls: final(self).active_calls, ..*old(self) }),
            only_call_changed(old(self).active_calls@, final(self).active_calls@, call_id),
            ({
                let c = old(self).active_calls@[call_id];
                let q = tail_queue_result(c, requester);
                &&& r == GroupTxDemandOutcome::TailRetakeAnswered { grant: tail_retake_grant(q) }
                &&& queued_as(c, final(self).active_calls@[call_id], requester, q)
            }),
    {
        let ghost m = self.active_calls@;
        let mut call = match self.active_calls.remove(&call_id) {
            Some(c) => c,
            None => {
                return GroupTxDemandOutcome::Ignored;
            },
        };
        let q = call.queue_tx_demand_after_cease_tail(requester);
        self.active_calls.insert(call_id, call);
        proof {
            assert(self.active_calls@.dom() =~= m.dom());
        }
        let grant = match q {
            TxDemandQueueResult::QueueBusy => TransmissionGrant::NotGranted,
            _ => TransmissionGrant::RequestQueued,
        };
        GroupTxDemandOutcome::TailRetakeAnswered { grant }
    }
}

} // verus!
