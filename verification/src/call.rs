//! Call records of the base-station call control: timeouts, group calls with
//! their bounded first-come-first-served queue of floor requests, and
//! individual (point-to-point) calls with their setup/active/disconnect state.

use std::collections::{HashSet, VecDeque};
use vstd::prelude::*;

use crate::address::TetraAddress;
use crate::tdma::TdmaTime;

verus! {

broadcast use vstd::std_specs::hash::group_hash_axioms;

/// At most this many stations wait for the floor of one group call.
pub const MAX_GROUP_FLOOR_WAITERS: usize = 4096;

/// Call timeout for the setup phase (EN 300 392-2 table 14.51).
#[derive(Clone, Copy, Debug, PartialEq, Eq, Structural)]
pub enum CallTimeoutSetupPhase {
    Predefined,
    T1s,
    T2s,
    T5s,
    T10s,
    T20s,
    T30s,
    T60s,
}

/// Call timeout of an established call (EN 300 392-2 table 14.50).
#[derive(Clone, Copy, Debug, PartialEq, Eq, Structural)]
pub enum CallTimeout {
    Infinite,
    T30s,
    T45s,
    T60s,
    T2m,
    T3m,
    T4m,
    T5m,
    T6m,
    T8m,
    T10m,
    T12m,
    T15m,
    T20m,
    T30m,
    Reserved,
}

/// Reason for disconnecting a call (EN 300 392-2 table 14.53).
#[derive(Clone, Copy, Debug, PartialEq, Eq, Structural)]
pub enum DisconnectCause {
    CauseNotDefined,
    UserRequestedDisconnection,
    CalledPartyBusy,
    CalledPartyNotReachable,
    CalledPartyDoesNotSupportEncryption,
    CongestionInInfrastructure,
    NotAllowedTrafficCase,
    IncompatibleTrafficCase,
    RequestedServiceNotAvailable,
    PreEmptiveUseOfResource,
    InvalidCallIdentifier,
    CallRejectedByTheCalledParty,
    NoIdleCcEntity,
    ExpiryOfTimer,
    SwmiRequestedDisconnection,
    AcknowledgedServiceNotComplete,
}

/// The 4-bit code of a disconnect cause: its position in the table.
pub open spec fn disconnect_cause_raw(c: DisconnectCause) -> u8 {
    match c {
        DisconnectCause::CauseNotDefined => 0,
        DisconnectCause::UserRequestedDisconnection => 1,
        DisconnectCause::CalledPartyBusy => 2,
        DisconnectCause::CalledPartyNotReachable => 3,
        DisconnectCause::CalledPartyDoesNotSupportEncryption => 4,
        DisconnectCause::CongestionInInfrastructure => 5,
        DisconnectCause::NotAllowedTrafficCase => 6,
        DisconnectCause::IncompatibleTrafficCase => 7,
        DisconnectCause::RequestedServiceNotAvailable => 8,
        DisconnectCause::PreEmptiveUseOfResource => 9,
        DisconnectCause::InvalidCallIdentifier => 10,
        DisconnectCause::CallRejectedByTheCalledParty => 11,
        DisconnectCause::NoIdleCcEntity => 12,
        DisconnectCause::ExpiryOfTimer => 13,
        DisconnectCause::SwmiRequestedDisconnection => 14,
        DisconnectCause::AcknowledgedServiceNotComplete => 15,
    }
}

impl DisconnectCause {
    /// The 4-bit code of the cause.
    pub fn into_raw(self) -> (r: u8)
        ensures
            r == disconnect_cause_raw(self),
    {
        match self {
            DisconnectCause::CauseNotDefined => 0,
            DisconnectCause::UserRequestedDisconnection => 1,
            DisconnectCause::CalledPartyBusy => 2,
            DisconnectCause::CalledPartyNotReachable => 3,
            DisconnectCause::CalledPartyDoesNotSupportEncryption => 4,
            DisconnectCause::CongestionInInfrastructure => 5,
            DisconnectCause::NotAllowedTrafficCase => 6,
            DisconnectCause::IncompatibleTrafficCase => 7,
            DisconnectCause::RequestedServiceNotAvailable => 8,
            DisconnectCause::PreEmptiveUseOfResource => 9,
            DisconnectCause::InvalidCallIdentifier => 10,
            DisconnectCause::CallRejectedByTheCalledParty => 11,
            DisconnectCause::NoIdleCcEntity => 12,
            DisconnectCause::ExpiryOfTimer => 13,
            DisconnectCause::SwmiRequestedDisconnection => 14,
            DisconnectCause::AcknowledgedServiceNotComplete => 15,
        }
    }
}

/// Timeslots (of 170/12 ms each) in `seconds` seconds, rounded down.
pub open spec fn timeslots_in_seconds(seconds: int) -> int {
    seconds * 1200 / 17
}

/// Seconds of a setup-phase timeout; the predefined value is ten seconds.
pub open spec fn setup_timeout_seconds(timeout: CallTimeoutSetupPhase) -> int {
    match timeout {
        CallTimeoutSetupPhase::Predefined => 10,
        CallTimeoutSetupPhase::T1s => 1,
        CallTimeoutSetupPhase::T2s => 2,
        CallTimeoutSetupPhase::T5s => 5,
        CallTimeoutSetupPhase::T10s => 10,
        CallTimeoutSetupPhase::T20s => 20,
        CallTimeoutSetupPhase::T30s => 30,
        CallTimeoutSetupPhase::T60s => 60,
    }
}

/// Seconds of a call timeout; none for infinite and the reserved value.
pub open spec fn call_timeout_seconds(timeout: CallTimeout) -> Option<int> {
    match timeout {
        CallTimeout::Infinite => None,
        CallTimeout::Reserved => None,
        CallTimeout::T30s => Some(30),
        CallTimeout::T45s => Some(45),
        CallTimeout::T60s => Some(60),
        CallTimeout::T2m => Some(120),
        CallTimeout::T3m => Some(180),
        CallTimeout::T4m => Some(240),
        CallTimeout::T5m => Some(300),
        CallTimeout::T6m => Some(360),
        CallTimeout::T8m => Some(480),
        CallTimeout::T10m => Some(600),
        CallTimeout::T12m => Some(720),
        CallTimeout::T15m => Some(900),
        CallTimeout::T20m => Some(1200),
        CallTimeout::T30m => Some(1800),
    }
}

/// The call timeout with 4-bit code `raw`, if it names one.
pub open spec fn call_timeout_from_raw(raw: u64) -> Option<CallTimeout> {
    if raw == 0 {
        Some(CallTimeout::Infinite)
    } else if raw == 1 {
        Some(CallTimeout::T30s)
    } else if raw == 2 {
        Some(CallTimeout::T45s)
    } else if raw == 3 {
        Some(CallTimeout::T60s)
    } else if raw == 4 {
        Some(CallTimeout::T2m)
    } else if raw == 5 {
        Some(CallTimeout::T3m)
    } else if raw == 6 {
        Some(CallTimeout::T4m)
    } else if raw == 7 {
        Some(CallTimeout::T5m)
    } else if raw == 8 {
        Some(CallTimeout::T6m)
    } else if raw == 9 {
        Some(CallTimeout::T8m)
    } else if raw == 10 {
        Some(CallTimeout::T10m)
    } else if raw == 11 {
        Some(CallTimeout::T12m)
    } else if raw == 12 {
        Some(CallTimeout::T15m)
    } else if raw == 13 {
        Some(CallTimeout::T20m)
    } else if raw == 14 {
        Some(CallTimeout::T30m)
    } else if raw == 15 {
        Some(CallTimeout::Reserved)
    } else {
        None
    }
}

impl CallTimeout {
    /// Decodes the 4-bit call timeout field.
    pub fn try_from_raw(raw: u64) -> (r: Option<CallTimeout>)
        ensures
            r == call_timeout_from_raw(raw),
    {
        match raw {
            0 => Some(CallTimeout::Infinite),
            1 => Some(CallTimeout::T30s),
            2 => Some(CallTimeout::T45s),
            3 => Some(CallTimeout::T60s),
            4 => Some(CallTimeout::T2m),
            5 => Some(CallTimeout::T3m),
            6 => Some(CallTimeout::T4m),
            7 => Some(CallTimeout::T5m),
            8 => Some(CallTimeout::T6m),
            9 => Some(CallTimeout::T8m),
            10 => Some(CallTimeout::T10m),
            11 => Some(CallTimeout::T12m),
            12 => Some(CallTimeout::T15m),
            13 => Some(CallTimeout::T20m),
            14 => Some(CallTimeout::T30m),
            15 => Some(CallTimeout::Reserved),
            _ => None,
        }
    }
}

/// Timeslots in `seconds` seconds at 170/12 ms per timeslot, rounded down
/// and limited to `i32::MAX`.
pub fn seconds_to_timeslots(seconds: i32) -> (r: i32)
    requires
        seconds >= 0,
    ensures
        timeslots_in_seconds(seconds as int) <= i32::MAX ==> r == timeslots_in_seconds(seconds as int),
        timeslots_in_seconds(seconds as int) > i32::MAX ==> r == i32::MAX,
{
    let v = (seconds as i64) * 1200 / 17;
    if v > i32::MAX as i64 {
        i32::MAX
    } else {
        v as i32
    }
}

/// Length in timeslots of a setup-phase timeout.
pub fn setup_timeout_to_timeslots(timeout: CallTimeoutSetupPhase) -> (r: Option<i32>)
    ensures
        r == Some(timeslots_in_seconds(setup_timeout_seconds(timeout)) as i32),
{
    let seconds: i32 = match timeout {
        CallTimeoutSetupPhase::Predefined => 10,
        CallTimeoutSetupPhase::T1s => 1,
        CallTimeoutSetupPhase::T2s => 2,
        CallTimeoutSetupPhase::T5s => 5,
        CallTimeoutSetupPhase::T10s => 10,
        CallTimeoutSetupPhase::T20s => 20,
        CallTimeoutSetupPhase::T30s => 30,
        CallTimeoutSetupPhase::T60s => 60,
    };
    Some(seconds_to_timeslots(seconds))
}

/// Length in timeslots of a call timeout; `None` when the call never
/// times out (infinite or reserved value).
pub fn call_timeout_to_timeslots(timeout: CallTimeout) -> (r: Option<i32>)
    ensures
        r == match call_timeout_seconds(timeout) {
            Some(s) => Some(timeslots_in_seconds(s) as i32),
            None => None::<i32>,
        },
{
    let seconds: i32 = match timeout {
        CallTimeout::Infinite | CallTimeout::Reserved => {
            return None;
        },
        CallTimeout::T30s => 30,
        CallTimeout::T45s => 45,
        CallTimeout::T60s => 60,
        CallTimeout::T2m => 120,
        CallTimeout::T3m => 180,
        CallTimeout::T4m => 240,
        CallTimeout::T5m => 300,
        CallTimeout::T6m => 360,
        CallTimeout::T8m => 480,
        CallTimeout::T10m => 600,
        CallTimeout::T12m => 720,
        CallTimeout::T15m => 900,
        CallTimeout::T20m => 1200,
        CallTimeout::T30m => 1800,
    };
    Some(seconds_to_timeslots(seconds))
}

/// Origin of a group call.
#[derive(Clone, Copy, Debug, PartialEq, Eq, Structural)]
pub enum CallOrigin {
    /// Started by a local mobile station.
    Local { caller_addr: TetraAddress },
    /// Started by the network bridge; the bridge's 128-bit call UUID.
    Network { brew_uuid: u128 },
}

/// Floor state of a group call.
#[derive(Clone, Copy, Debug, PartialEq, Eq, Structural)]
pub enum GroupCallState {
    /// A speaker is transmitting.
    Transmitting,
    /// No speaker; the call stays up during hangtime.
    NoActiveSpeaker { since: TdmaTime },
}

/// Outcome of a request for the floor.
#[derive(Clone, Copy, Debug, PartialEq, Eq, Structural)]
pub enum TxDemandQueueResult {
    Queued,
    AlreadyQueuedBySameUser,
    QueueBusy,
    FromCurrentSpeaker,
}

/// `q` holds each SSI at most once.
pub open spec fn queue_ssis_distinct(q: Seq<TetraAddress>) -> bool {
    forall|i: int, j: int| 0 <= i < j < q.len() ==> (#[trigger] q[i]).ssi != (#[trigger] q[j]).ssi
}

/// Some waiter in `q` has SSI `ssi`.
pub open spec fn queue_holds_ssi(q: Seq<TetraAddress>, ssi: u32) -> bool {
    exists|i: int| 0 <= i < q.len() && (#[trigger] q[i]).ssi == ssi
}

/// The waiter's SSI differs from `ssi`.
pub open spec fn ssi_differs(ssi: u32) -> spec_fn(TetraAddress) -> bool {
    |a: TetraAddress| a.ssi != ssi
}

/// The waiters of `q` with SSIs other than `ssi`, in order.
pub open spec fn queue_without_ssi(q: Seq<TetraAddress>, ssi: u32) -> Seq<TetraAddress> {
    q.filter(ssi_differs(ssi))
}

/// Index of the first waiter of `q` with SSI `ssi`.
pub open spec fn first_index_of_ssi(q: Seq<TetraAddress>, ssi: u32, k: int) -> bool {
    &&& 0 <= k < q.len()
    &&& q[k].ssi == ssi
    &&& forall|j: int| 0 <= j < k ==> (#[trigger] q[j]).ssi != ssi
}

/// Appending one waiter adds exactly its SSI.
pub proof fn lemma_queue_holds_push(q: Seq<TetraAddress>, a: TetraAddress, ssi: u32)
    ensures
        queue_holds_ssi(q.push(a), ssi) <==> (queue_holds_ssi(q, ssi) || a.ssi == ssi),
{
    if queue_holds_ssi(q, ssi) {
        let i = choose|i: int| 0 <= i < q.len() && (#[trigger] q[i]).ssi == ssi;
        assert(q.push(a)[i] == q[i]);
    }
    if a.ssi == ssi {
        assert(q.push(a)[q.len() as int] == a);
    }
    if queue_holds_ssi(q.push(a), ssi) {
        let i = choose|i: int| 0 <= i < q.push(a).len() && (#[trigger] q.push(a)[i]).ssi == ssi;
        if i < q.len() {
            assert(q[i] == q.push(a)[i]);
        }
    }
}

/// Dropping the oldest waiter of a duplicate-free list removes exactly its SSI.
pub proof fn lemma_queue_holds_drop_first(q: Seq<TetraAddress>, ssi: u32)
    requires
        q.len() > 0,
        queue_ssis_distinct(q),
    ensures
        queue_holds_ssi(q.subrange(1, q.len() as int), ssi) <==> (queue_holds_ssi(q, ssi) && q[0].ssi != ssi),
        queue_ssis_distinct(q.subrange(1, q.len() as int)),
{
    let t = q.subrange(1, q.len() as int);
    if queue_holds_ssi(t, ssi) {
        let i = choose|i: int| 0 <= i < t.len() && (#[trigger] t[i]).ssi == ssi;
        assert(t[i] == q[i + 1]);
        assert(q[0].ssi != q[i + 1].ssi);
    }
    if queue_holds_ssi(q, ssi) && q[0].ssi != ssi {
        let i = choose|i: int| 0 <= i < q.len() && (#[trigger] q[i]).ssi == ssi;
        assert(i != 0);
        assert(t[i - 1] == q[i]);
    }
    assert forall|i: int, j: int| 0 <= i < j < t.len() implies (#[trigger] t[i]).ssi != (#[trigger] t[j]).ssi by {
        assert(t[i] == q[i + 1] && t[j] == q[j + 1]);
    }
}

/// Filtering out an SSI that no waiter has keeps the list as it is.
pub proof fn lemma_filter_keeps_all(q: Seq<TetraAddress>, ssi: u32)
    requires
        !queue_holds_ssi(q, ssi),
    ensures
        q.filter(ssi_differs(ssi)) == q,
    decreases q.len(),
{
    reveal(Seq::filter);
    if q.len() > 0 {
        assert(!queue_holds_ssi(q.drop_last(), ssi)) by {
            if queue_holds_ssi(q.drop_last(), ssi) {
                let i = choose|i: int| 0 <= i < q.drop_last().len() && (#[trigger] q.drop_last()[i]).ssi == ssi;
                assert(q[i] == q.drop_last()[i]);
            }
        }
        lemma_filter_keeps_all(q.drop_last(), ssi);
        assert(q.last() == q[q.len() - 1]);
        assert(q.drop_last().push(q.last()) =~= q);
    }
}

/// An active group call (local or from the network bridge).
pub struct ActiveCall {
    pub origin: CallOrigin,
    pub dest_gssi: u32,
    pub source_issi: u32,
    pub created_at: TdmaTime,
    pub call_timeout: CallTimeout,
    pub priority: u8,
    pub ts: u8,
    pub usage: u8,
    pub tx_active: bool,
    pub hangtime_start: Option<TdmaTime>,
    /// Stations waiting for the floor, oldest first.
    pub queued_floor_demands: VecDeque<TetraAddress>,
    /// The SSIs of the waiting stations.
    pub queued_floor_demand_ssis: HashSet<u32>,
    pub brew_uuid: Option<u128>,
}

impl ActiveCall {
    /// The stations waiting for the floor, oldest first.
    pub open spec fn floor_queue(&self) -> Seq<TetraAddress> {
        self.queued_floor_demands@
    }

    /// The waiting list holds each SSI at most once, mirrors its SSIs in the
    /// lookup set, and is bounded.
    pub open spec fn floor_queue_wf(&self) -> bool {
        &&& self.queued_floor_demands@.len() <= MAX_GROUP_FLOOR_WAITERS
        &&& forall|i: int, j: int|
            0 <= i < j < self.queued_floor_demands@.len() ==> (#[trigger] self.queued_floor_demands@[i]).ssi
                != (#[trigger] self.queued_floor_demands@[j]).ssi
        &&& forall|ssi: u32|
            #![trigger self.queued_floor_demand_ssis@.contains(ssi)]
            self.queued_floor_demand_ssis@.contains(ssi) <==> queue_holds_ssi(self.queued_floor_demands@, ssi)
    }

    /// The waiting list is bounded and holds each SSI at most once.
    pub proof fn lemma_floor_queue_wf(&self)
        requires
            self.floor_queue_wf(),
        ensures
            self.floor_queue().len() <= MAX_GROUP_FLOOR_WAITERS,
            forall|i: int, j: int|
                0 <= i < j < self.floor_queue().len() ==> (#[trigger] self.floor_queue()[i]).ssi
                    != (#[trigger] self.floor_queue()[j]).ssi,
    {
    }

    /// A group call started by local station `caller_addr`, transmitting,
    /// with nobody waiting.
    pub fn new_local(
        caller_addr: TetraAddress,
        dest_gssi: u32,
        source_issi: u32,
        ts: u8,
        usage: u8,
        created_at: TdmaTime,
        call_timeout: CallTimeout,
        priority: u8,
    ) -> (r: ActiveCall)
        ensures
            r.floor_queue_wf(),
            r.floor_queue().len() == 0,
            r.origin == (CallOrigin::Local { caller_addr }),
            r.dest_gssi == dest_gssi,
            r.source_issi == source_issi,
            r.created_at == created_at,
            r.call_timeout == call_timeout,
            r.priority == priority,
            r.ts == ts,
            r.usage == usage,
            r.tx_active,
            r.hangtime_start is None,
            r.brew_uuid is None,
    {
        ActiveCall {
            origin: CallOrigin::Local { caller_addr },
            dest_gssi,
            source_issi,
            created_at,
            call_timeout,
            priority,
            ts,
            usage,
            tx_active: true,
            hangtime_start: None,
            queued_floor_demands: VecDeque::new(),
            queued_floor_demand_ssis: HashSet::new(),
            brew_uuid: None,
        }
    }

    /// A group call started by the network bridge under call UUID
    /// `brew_uuid`, transmitting, with nobody waiting.
    pub fn new_network(
        brew_uuid: u128,
        dest_gssi: u32,
        source_issi: u32,
        ts: u8,
        usage: u8,
        created_at: TdmaTime,
        call_timeout: CallTimeout,
        priority: u8,
    ) -> (r: ActiveCall)
        ensures
            r.floor_queue_wf(),
            r.floor_queue().len() == 0,
            r.origin == (CallOrigin::Network { brew_uuid }),
            r.dest_gssi == dest_gssi,
            r.source_issi == source_issi,
            r.created_at == created_at,
            r.call_timeout == call_timeout,
            r.priority == priority,
            r.ts == ts,
            r.usage == usage,
            r.tx_active,
            r.hangtime_start is None,
            r.brew_uuid == Some(brew_uuid),
    {
        ActiveCall {
            origin: CallOrigin::Network { brew_uuid },
            dest_gssi,
            source_issi,
            created_at,
            call_timeout,
            priority,
            ts,
            usage,
            tx_active: true,
            hangtime_start: None,
            queued_floor_demands: VecDeque::new(),
            queued_floor_demand_ssis: HashSet::new(),
            brew_uuid: Some(brew_uuid),
        }
    }

    /// Floor state: transmitting, or in hangtime since it began (the start
    /// of the cycle when that was not recorded).
    pub fn state(&self) -> (r: GroupCallState)
        ensures
            r == if self.tx_active {
                GroupCallState::Transmitting
            } else {
                GroupCallState::NoActiveSpeaker {
                    since: match self.hangtime_start {
                        Some(t) => t,
                        None => TdmaTime { h: 0, m: 1, f: 1, t: 1 },
                    },
                }
            },
    {
        if self.tx_active {
            GroupCallState::Transmitting
        } else {
            GroupCallState::NoActiveSpeaker {
                since: match self.hangtime_start {
                    Some(t) => t,
                    None => TdmaTime::default(),
                },
            }
        }
    }

    /// A speaker is transmitting.
    pub fn is_tx_active(&self) -> (r: bool)
        ensures
            r == self.tx_active,
    {
        match self.state() {
            GroupCallState::Transmitting => true,
            _ => false,
        }
    }

    /// `issi` is the transmitting speaker.
    pub fn is_current_speaker(&self, issi: u32) -> (r: bool)
        ensures
            r == (self.tx_active && self.source_issi == issi),
    {
        self.tx_active && self.source_issi == issi
    }

    /// The call has been up longer than its call timeout at time `now`.
    pub fn call_timeout_expired(&self, now: TdmaTime) -> (r: bool)
        ensures
            r == match call_timeout_seconds(self.call_timeout) {
                Some(s) => self.created_at.age_spec(now) > timeslots_in_seconds(s),
                None => false,
            },
    {
        match call_timeout_to_timeslots(self.call_timeout) {
            Some(timeout) => self.created_at.age(now) > timeout,
            None => false,
        }
    }

    /// The speaker stopped; hangtime starts at `now`.
    pub fn enter_hangtime(&mut self, now: TdmaTime)
        ensures
            *final(self) == (ActiveCall { tx_active: false, hangtime_start: Some(now), ..*old(self) }),
    {
        self.tx_active = false;
        self.hangtime_start = Some(now);
    }

    /// Restarts the call timeout at `now` (a new speaker took the floor).
    pub fn reset_timeout(&mut self, now: TdmaTime)
        ensures
            *final(self) == (ActiveCall { created_at: now, ..*old(self) }),
    {
        self.created_at = now;
    }

    /// Gives the floor to `source_issi` and ends hangtime.
    pub fn grant_floor(&mut self, source_issi: u32, speaker_addr: Option<TetraAddress>)
        ensures
            *final(self) == (ActiveCall {
                source_issi,
                tx_active: true,
                hangtime_start: None,
                ..*old(self)
            }),
    {
        self.source_issi = source_issi;
        self.tx_active = true;
        self.hangtime_start = None;
    }

    /// Appends `requester` to the floor waiting list, unless it is the
    /// current speaker, already waiting, or the list is full.
    pub fn queue_tx_demand(&mut self, requester: TetraAddress) -> (r: TxDemandQueueResult)
        requires
            old(self).floor_queue_wf(),
        ensures
            final(self).floor_queue_wf(),
            r == if old(self).tx_active && old(self).source_issi == requester.ssi {
                TxDemandQueueResult::FromCurrentSpeaker
            } else if queue_holds_ssi(old(self).floor_queue(), requester.ssi) {
                TxDemandQueueResult::AlreadyQueuedBySameUser
            } else if old(self).floor_queue().len() >= MAX_GROUP_FLOOR_WAITERS {
                TxDemandQueueResult::QueueBusy
            } else {
                TxDemandQueueResult::Queued
            },
            r == TxDemandQueueResult::Queued ==> final(self).floor_queue() == old(self).floor_queue().push(requester),
            r != TxDemandQueueResult::Queued ==> final(self).floor_queue() == old(self).floor_queue(),
            *final(self) == (ActiveCall {
                queued_floor_demands: final(self).queued_floor_demands,
                queued_floor_demand_ssis: final(self).queued_floor_demand_ssis,
                ..*old(self)
            }),
    {
        if self.is_current_speaker(requester.ssi) {
            return TxDemandQueueResult::FromCurrentSpeaker;
        }
        if self.queued_floor_demand_ssis.contains(&requester.ssi) {
            return TxDemandQueueResult::AlreadyQueuedBySameUser;
        }
        if self.queued_floor_demands.len() >= MAX_GROUP_FLOOR_WAITERS {
            return TxDemandQueueResult::QueueBusy;
        }
        let ghost q0 = self.queued_floor_demands@;
        self.queued_floor_demands.push_back(requester);
        self.queued_floor_demand_ssis.insert(requester.ssi);
        proof {
            assert forall|ssi: u32|
                #![trigger self.queued_floor_demand_ssis@.contains(ssi)]
                self.queued_floor_demand_ssis@.contains(ssi) <==> queue_holds_ssi(
                    self.queued_floor_demands@,
                    ssi,
                ) by {
                lemma_queue_holds_push(q0, requester, ssi);
            }
            assert forall|i: int, j: int|
                0 <= i < j < self.queued_floor_demands@.len() implies (#[trigger] self.queued_floor_demands@[i]).ssi
                != (#[trigger] self.queued_floor_demands@[j]).ssi by {
                if j == q0.len() {
                    assert(q0[i] == self.queued_floor_demands@[i]);
                    assert(!queue_holds_ssi(q0, requester.ssi));
                    assert(q0[i].ssi != requester.ssi);
                }
            }
        }
        TxDemandQueueResult::Queued
    }

    /// Appends `requester` to the floor waiting list while its previous
    /// transmission on the call is still draining: unlike
    /// [`Self::queue_tx_demand`], a requester that is still the recorded
    /// speaker is queued too, unless already waiting or the list is full.
    pub fn queue_tx_demand_after_cease_tail(&mut self, requester: TetraAddress) -> (r: TxDemandQueueResult)
        requires
            old(self).floor_queue_wf(),
        ensures
            final(self).floor_queue_wf(),
            r == if queue_holds_ssi(old(self).floor_queue(), requester.ssi) {
                TxDemandQueueResult::AlreadyQueuedBySameUser
            } else if old(self).floor_queue().len() >= MAX_GROUP_FLOOR_WAITERS {
                TxDemandQueueResult::QueueBusy
            } else {
                TxDemandQueueResult::Queued
            },
            r == TxDemandQueueResult::Queued ==> final(self).floor_queue() == old(self).floor_queue().push(requester),
            r != TxDemandQueueResult::Queued ==> final(self).floor_queue() == old(self).floor_queue(),
            *final(self) == (ActiveCall {
                queued_floor_demands: final(self).queued_floor_demands,
                queued_floor_demand_ssis: final(self).queued_floor_demand_ssis,
                ..*old(self)
            }),
    {
        if self.queued_floor_demand_ssis.contains(&requester.ssi) {
            return TxDemandQueueResult::AlreadyQueuedBySameUser;
        }
        if self.queued_floor_demands.len() >= MAX_GROUP_FLOOR_WAITERS {
            return TxDemandQueueResult::QueueBusy;
        }
        let ghost q0 = self.queued_floor_demands@;
        self.queued_floor_demands.push_back(requester);
        self.queued_floor_demand_ssis.insert(requester.ssi);
        proof {
            assert forall|ssi: u32|
                #![trigger self.queued_floor_demand_ssis@.contains(ssi)]
                self.queued_floor_demand_ssis@.contains(ssi) <==> queue_holds_ssi(
                    self.queued_floor_demands@,
                    ssi,
                ) by {
                lemma_queue_holds_push(q0, requester, ssi);
            }
            assert forall|i: int, j: int|
                0 <= i < j < self.queued_floor_demands@.len() implies (#[trigger] self.queued_floor_demands@[i]).ssi
                != (#[trigger] self.queued_floor_demands@[j]).ssi by {
                if j == q0.len() {
                    assert(q0[i] == self.queued_floor_demands@[i]);
                    assert(!queue_holds_ssi(q0, requester.ssi));
                    assert(q0[i].ssi != requester.ssi);
                }
            }
        }
        TxDemandQueueResult::Queued
    }

    /// Removes and returns the oldest waiter, if any.
    pub fn take_queued_tx_demand(&mut self) -> (r: Option<TetraAddress>)
        requires
            old(self).floor_queue_wf(),
        ensures
            final(self).floor_queue_wf(),
            old(self).floor_queue().len() == 0 ==> r is None && final(self).floor_queue() == old(self).floor_queue(),
            old(self).floor_queue().len() > 0 ==> r == Some(old(self).floor_queue()[0]) && final(self).floor_queue()
                == old(self).floor_queue().subrange(1, old(self).floor_queue().len() as int),
            *final(self) == (ActiveCall {
                queued_floor_demands: final(self).queued_floor_demands,
                queued_floor_demand_ssis: final(self).queued_floor_demand_ssis,
                ..*old(self)
            }),
    {
        let ghost q0 = self.queued_floor_demands@;
        let requester = match self.queued_floor_demands.pop_front() {
            Some(r) => r,
            None => {
                return None;
            },
        };
        self.queued_floor_demand_ssis.remove(&requester.ssi);
        proof {
            lemma_queue_holds_drop_first(q0, 0);
            assert forall|ssi: u32|
                #![trigger self.queued_floor_demand_ssis@.contains(ssi)]
                self.queued_floor_demand_ssis@.contains(ssi) <==> queue_holds_ssi(
                    self.queued_floor_demands@,
                    ssi,
                ) by {
                lemma_queue_holds_drop_first(q0, ssi);
            }
        }
        Some(requester)
    }

    /// The waiting stations, oldest first.
    pub fn queued_tx_demands(&self) -> (r: Vec<TetraAddress>)
        ensures
            r@ == self.floor_queue(),
    {
        let mut out: Vec<TetraAddress> = Vec::new();
        let n = self.queued_floor_demands.len();
        let mut i: usize = 0;
        while i < n
            invariant
                0 <= i <= n,
                n == self.queued_floor_demands@.len(),
                out@ == self.queued_floor_demands@.take(i as int),
            decreases n - i,
        {
            out.push(self.queued_floor_demands[i]);
            proof {
                assert(self.queued_floor_demands@.take(i as int + 1) =~= self.queued_floor_demands@.take(
                    i as int,
                ).push(self.queued_floor_demands@[i as int]));
            }
            i = i + 1;
        }
        proof {
            assert(self.queued_floor_demands@.take(n as int) =~= self.queued_floor_demands@);
        }
        out
    }

    /// Drops waiters, oldest first, up to and including the first one with
    /// SSI `target_issi`, and returns that one; when there is none, empties
    /// the list and returns `None`.
    pub fn take_queued_tx_demand_through(&mut self, target_issi: Option<u32>) -> (r: Option<TetraAddress>)
        requires
            old(self).floor_queue_wf(),
        ensures
            final(self).floor_queue_wf(),
            ({
                let q = old(self).floor_queue();
                match target_issi {
                    Some(t) => if queue_holds_ssi(q, t) {
                        exists|k: int|
                            #![trigger first_index_of_ssi(q, t, k)]
                            first_index_of_ssi(q, t, k) && r == Some(q[k]) && final(self).floor_queue()
                                == q.subrange(k + 1, q.len() as int)
                    } else {
                        r is None && final(self).floor_queue().len() == 0
                    },
                    None => r is None && final(self).floor_queue().len() == 0,
                }
            }),
            *final(self) == (ActiveCall {
                queued_floor_demands: final(self).queued_floor_demands,
                queued_floor_demand_ssis: final(self).queued_floor_demand_ssis,
                ..*old(self)
            }),
    {
        let ghost q0 = self.queued_floor_demands@;
        let ghost mut k: int = 0;
        loop
            invariant
                self.floor_queue_wf(),
                0 <= k <= q0.len(),
                q0 == old(self).floor_queue(),
                self.queued_floor_demands@ == q0.subrange(k, q0.len() as int),
                forall|j: int| 0 <= j < k ==> Some((#[trigger] q0[j]).ssi) != target_issi,
                *self == (ActiveCall {
                    queued_floor_demands: self.queued_floor_demands,
                    queued_floor_demand_ssis: self.queued_floor_demand_ssis,
                    ..*old(self)
                }),
            decreases q0.len() - k,
        {
            let ghost cur = self.queued_floor_demands@;
            let requester = match self.queued_floor_demands.pop_front() {
                Some(r) => r,
                None => {
                    proof {
                        if let Some(t) = target_issi {
                            if queue_holds_ssi(q0, t) {
                                let i = choose|i: int| 0 <= i < q0.len() && (#[trigger] q0[i]).ssi == t;
                                assert(Some(q0[i].ssi) != target_issi);
                            }
                        }
                    }
                    return None;
                },
            };
            self.queued_floor_demand_ssis.remove(&requester.ssi);
            proof {
                assert(requester == q0[k]);
                lemma_queue_holds_drop_first(cur, 0);
                assert forall|ssi: u32|
                    #![trigger self.queued_floor_demand_ssis@.contains(ssi)]
                    self.queued_floor_demand_ssis@.contains(ssi) <==> queue_holds_ssi(
                        self.queued_floor_demands@,
                        ssi,
                    ) by {
                    lemma_queue_holds_drop_first(cur, ssi);
                }
                assert(self.queued_floor_demands@ =~= q0.subrange(k + 1, q0.len() as int));
            }
            if Some(requester.ssi) == target_issi {
                proof {
                    let t = requester.ssi;
                    assert(first_index_of_ssi(q0, t, k));
                    assert(queue_holds_ssi(q0, t));
                }
                return Some(requester);
            }
            proof {
                k = k + 1;
            }
        }
    }

    /// Removes station `issi` from the waiting list; `false` when it was not
    /// waiting.
    pub fn clear_queued_tx_demand_from(&mut self, issi: u32) -> (r: bool)
        requires
            old(self).floor_queue_wf(),
        ensures
            final(self).floor_queue_wf(),
            r == queue_holds_ssi(old(self).floor_queue(), issi),
            final(self).floor_queue() == queue_without_ssi(old(self).floor_queue(), issi),
            *final(self) == (ActiveCall {
                queued_floor_demands: final(self).queued_floor_demands,
                queued_floor_demand_ssis: final(self).queued_floor_demand_ssis,
                ..*old(self)
            }),
    {
        let ghost q0 = self.queued_floor_demands@;
        let removed = self.queued_floor_demand_ssis.remove(&issi);
        if !removed {
            proof {
                assert(q0.filter(ssi_differs(issi)) =~= q0) by {
                    lemma_filter_keeps_all(q0, issi);
                }
            }
            return false;
        }
        let mut kept: VecDeque<TetraAddress> = VecDeque::new();
        let n = self.queued_floor_demands.len();
        let mut i: usize = 0;
        while i < n
            invariant
                0 <= i <= n,
                n == q0.len(),
                self.queued_floor_demands@ == q0,
                q0 == old(self).floor_queue(),
                queue_ssis_distinct(q0),
                kept@ == q0.take(i as int).filter(ssi_differs(issi)),
                queue_ssis_distinct(kept@),
                forall|s: u32|
                    queue_holds_ssi(kept@, s) <==> (queue_holds_ssi(q0.take(i as int), s) && s != issi),
            decreases n - i,
        {
            let a = self.queued_floor_demands[i];
            let ghost before = kept@;
            proof {
                assert(q0.take(i as int + 1) =~= q0.take(i as int).push(a));
                q0.take(i as int).lemma_filter_push(a, ssi_differs(issi));
            }
            if a.ssi != issi {
                kept.push_back(a);
                proof {
                    assert forall|x: int, y: int|
                        0 <= x < y < kept@.len() implies (#[trigger] kept@[x]).ssi != (#[trigger] kept@[y]).ssi by {
                        if y == before.len() {
                            assert(kept@[x] == before[x]);
                            if before[x].ssi == a.ssi {
                                assert(queue_holds_ssi(before, a.ssi));
                                assert(queue_holds_ssi(q0.take(i as int), a.ssi));
                                let m = choose|m: int|
                                    0 <= m < q0.take(i as int).len() && (#[trigger] q0.take(i as int)[m]).ssi
                                        == a.ssi;
                                assert(q0[m].ssi == q0[i as int].ssi);
                            }
                        }
                    }
                }
            }
            proof {
                assert forall|s: u32|
                    queue_holds_ssi(kept@, s) <==> (queue_holds_ssi(q0.take(i as int + 1), s) && s != issi) by {
                    lemma_queue_holds_push(q0.take(i as int), a, s);
                    lemma_queue_holds_push(before, a, s);
                }
            }
            i = i + 1;
        }
        proof {
            assert(q0.take(n as int) =~= q0);
        }
        self.queued_floor_demands = kept;
        proof {
            assert(queue_holds_ssi(q0, issi));
        }
        true
    }

    /// Empties the waiting list.
    pub fn clear_all_queued_tx_demands(&mut self)
        requires
            old(self).floor_queue_wf(),
        ensures
            final(self).floor_queue_wf(),
            final(self).floor_queue().len() == 0,
            *final(self) == (ActiveCall {
                queued_floor_demands: final(self).queued_floor_demands,
                queued_floor_demand_ssis: final(self).queued_floor_demand_ssis,
                ..*old(self)
            }),
    {
        self.queued_floor_demands.clear();
        self.queued_floor_demand_ssis.clear();
    }
}


/// State of an individual call.
#[derive(Clone, Copy, Debug, PartialEq, Eq, Structural)]
pub enum IndividualCallState {
    /// Setup of a locally initiated call.
    CallSetupPending,
    /// Incoming leg awaiting the local user's response.
    IncomingSetupPending,
    /// The called side has been alerted.
    IncomingAlerting,
    /// Setup waits for confirmation from the network bridge.
    IncomingSetupWaitNetworkAck,
    /// The called party's D-CONNECT ACKNOWLEDGE awaits its layer-2
    /// acknowledgement.
    CalledConnectAckPending,
    /// The caller's D-CONNECT awaits its layer-2 acknowledgement.
    CallerConnectAckPending,
    /// The call is established.
    Active,
    /// D-DISCONNECT went to one party, which is expected to answer with U-RELEASE.
    DisconnectPending {
        awaiting_release_from: u32,
        release_to_issi: u32,
        started_at: TdmaTime,
        cause: DisconnectCause,
    },
}

/// Call data exchanged with the network bridge for a bridged call.
#[derive(Clone, Debug)]
pub struct NetworkCircuitCall {
    pub source_issi: u32,
    pub destination: u32,
    pub number: String,
    pub priority: u8,
    pub service: u8,
    pub mode: u8,
    pub duplex: u8,
    pub method: u8,
    pub communication: u8,
    pub grant: u8,
    pub permission: u8,
    pub timeout: u8,
    pub ownership: u8,
    pub queued: u8,
}

/// An individual (point-to-point) call.
#[derive(Clone)]
pub struct IndividualCall {
    pub calling_addr: TetraAddress,
    pub called_addr: TetraAddress,
    pub calling_handle: u32,
    pub calling_link_id: u32,
    pub calling_endpoint_id: u32,
    pub called_handle: Option<u32>,
    pub called_link_id: Option<u32>,
    pub called_endpoint_id: Option<u32>,
    pub calling_ts: u8,
    pub called_ts: u8,
    pub calling_usage: u8,
    pub called_usage: u8,
    /// Full duplex when set, simplex otherwise.
    pub simplex_duplex: bool,
    /// The caller's request-to-transmit bit from U-SETUP.
    pub request_to_transmit_send_data: bool,
    pub state: IndividualCallState,
    /// Start of the setup timer.
    pub setup_timer_started: Option<TdmaTime>,
    /// Setup timeout while the call is not active.
    pub setup_timeout: Option<CallTimeoutSetupPhase>,
    /// Start of the active-call timer.
    pub active_timer_started: Option<TdmaTime>,
    /// Timeout of the active call.
    pub call_timeout: CallTimeout,
    /// The called party is behind the network bridge.
    pub called_over_brew: bool,
    /// The calling party is behind the network bridge.
    pub calling_over_brew: bool,
    /// The bridge's 128-bit call UUID for a bridged call.
    pub brew_uuid: Option<u128>,
    /// Bridge call data for bridged legs.
    pub network_call: Option<NetworkCircuitCall>,
    /// CONNECT_REQUEST has been sent for a bridge-originated setup.
    pub connect_request_sent: bool,
    /// SSI holding the floor of a simplex call.
    pub floor_holder: Option<u32>,
    /// The most recent floor holder, kept after it released the floor.
    pub last_floor_holder: Option<u32>,
    /// A transmit request waiting while the peer holds the floor.
    pub queued_tx_demand: Option<TetraAddress>,
}

/// Two bridge call descriptions with equal fields and number strings of the
/// same text.
pub open spec fn same_network_call(a: NetworkCircuitCall, b: NetworkCircuitCall) -> bool {
    a.number@ == b.number@ && a == (NetworkCircuitCall { number: a.number, ..b })
}

/// Two optional bridge call descriptions that are both absent or the same.
pub open spec fn same_optional_network_call(a: Option<NetworkCircuitCall>, b: Option<NetworkCircuitCall>) -> bool {
    match (a, b) {
        (Some(x), Some(y)) => same_network_call(x, y),
        (None, None) => true,
        _ => false,
    }
}

/// Two call records with equal fields, bridge data compared by content.
pub open spec fn same_individual_call(a: IndividualCall, b: IndividualCall) -> bool {
    same_optional_network_call(a.network_call, b.network_call) && a == (IndividualCall {
        network_call: a.network_call,
        ..b
    })
}

/// The state counts as alerted: alerting, waiting for the bridge, or active.
pub open spec fn state_is_alerted(state: IndividualCallState) -> bool {
    state == IndividualCallState::IncomingAlerting || state == IndividualCallState::IncomingSetupWaitNetworkAck
        || state == IndividualCallState::Active
}

impl IndividualCall {
    /// A field-by-field copy.
    pub fn duplicate(&self) -> (r: IndividualCall)
        ensures
            same_individual_call(r, *self),
    {
        let network_call = match &self.network_call {
            Some(n) => Some(n.duplicate()),
            None => None,
        };
        IndividualCall {
            calling_addr: self.calling_addr,
            called_addr: self.called_addr,
            calling_handle: self.calling_handle,
            calling_link_id: self.calling_link_id,
            calling_endpoint_id: self.calling_endpoint_id,
            called_handle: self.called_handle,
            called_link_id: self.called_link_id,
            called_endpoint_id: self.called_endpoint_id,
            calling_ts: self.calling_ts,
            called_ts: self.called_ts,
            calling_usage: self.calling_usage,
            called_usage: self.called_usage,
            simplex_duplex: self.simplex_duplex,
            request_to_transmit_send_data: self.request_to_transmit_send_data,
            state: self.state,
            setup_timer_started: self.setup_timer_started,
            setup_timeout: self.setup_timeout,
            active_timer_started: self.active_timer_started,
            call_timeout: self.call_timeout,
            called_over_brew: self.called_over_brew,
            calling_over_brew: self.calling_over_brew,
            brew_uuid: self.brew_uuid,
            network_call,
            connect_request_sent: self.connect_request_sent,
            floor_holder: self.floor_holder,
            last_floor_holder: self.last_floor_holder,
            queued_tx_demand: self.queued_tx_demand,
        }
    }

    /// The called side has been alerted (or the call is further along).
    pub fn is_alerted(&self) -> (r: bool)
        ensures
            r == state_is_alerted(self.state),
    {
        match self.state {
            IndividualCallState::IncomingAlerting | IndividualCallState::IncomingSetupWaitNetworkAck
            | IndividualCallState::Active => true,
            _ => false,
        }
    }

    /// Marks the call alerted (from a setup-pending state) and restarts the
    /// setup timer at `now` with `setup_timeout`.
    pub fn mark_alerted(&mut self, now: TdmaTime, setup_timeout: CallTimeoutSetupPhase)
        ensures
            final(self).state == if old(self).state == IndividualCallState::CallSetupPending || old(self).state
                == IndividualCallState::IncomingSetupPending {
                IndividualCallState::IncomingAlerting
            } else {
                old(self).state
            },
            *final(self) == (IndividualCall {
                state: final(self).state,
                setup_timer_started: Some(now),
                setup_timeout: Some(setup_timeout),
                ..*old(self)
            }),
    {
        match self.state {
            IndividualCallState::CallSetupPending | IndividualCallState::IncomingSetupPending => {
                self.state = IndividualCallState::IncomingAlerting;
            },
            _ => {},
        }
        self.setup_timer_started = Some(now);
        self.setup_timeout = Some(setup_timeout);
    }

    /// The call is established.
    pub fn is_active(&self) -> (r: bool)
        ensures
            r == (self.state == IndividualCallState::Active),
    {
        match self.state {
            IndividualCallState::Active => true,
            _ => false,
        }
    }

    /// The call has reached the established phase (active or disconnecting).
    pub fn has_established_circuit(&self) -> (r: bool)
        ensures
            r == (self.state == IndividualCallState::Active || self.state is DisconnectPending),
    {
        match self.state {
            IndividualCallState::Active | IndividualCallState::DisconnectPending { .. } => true,
            _ => false,
        }
    }

    /// Marks the call waiting for the called party's acknowledgement of
    /// D-CONNECT ACKNOWLEDGE.
    pub fn mark_called_connect_ack_pending(&mut self)
        ensures
            *final(self) == (IndividualCall { state: IndividualCallState::CalledConnectAckPending, ..*old(self) }),
    {
        self.state = IndividualCallState::CalledConnectAckPending;
    }

    /// One of the two connect acknowledgements is awaited.
    pub fn is_connect_ack_pending(&self) -> (r: bool)
        ensures
            r == (self.state == IndividualCallState::CalledConnectAckPending || self.state
                == IndividualCallState::CallerConnectAckPending),
    {
        match self.state {
            IndividualCallState::CalledConnectAckPending | IndividualCallState::CallerConnectAckPending => true,
            _ => false,
        }
    }

    /// The parties have been sent to their traffic channels: the connect is
    /// being acknowledged, or the call is established.
    pub fn has_assigned_circuit(&self) -> (r: bool)
        ensures
            r == (self.state == IndividualCallState::CalledConnectAckPending || self.state
                == IndividualCallState::CallerConnectAckPending || self.state == IndividualCallState::Active
                || self.state is DisconnectPending),
    {
        match self.state {
            IndividualCallState::CalledConnectAckPending | IndividualCallState::CallerConnectAckPending
            | IndividualCallState::Active | IndividualCallState::DisconnectPending { .. } => true,
            _ => false,
        }
    }

    /// Marks the call waiting for the caller's D-CONNECT acknowledgement.
    pub fn mark_caller_connect_ack_pending(&mut self)
        ensures
            *final(self) == (IndividualCall { state: IndividualCallState::CallerConnectAckPending, ..*old(self) }),
    {
        self.state = IndividualCallState::CallerConnectAckPending;
    }

    /// Makes the call active at `now`: the setup timer stops and the active
    /// timer starts.
    pub fn activate(&mut self, now: TdmaTime)
        ensures
            *final(self) == (IndividualCall {
                state: IndividualCallState::Active,
                setup_timer_started: None,
                setup_timeout: None,
                active_timer_started: Some(now),
                connect_request_sent: false,
                ..*old(self)
            }),
    {
        self.state = IndividualCallState::Active;
        self.setup_timer_started = None;
        self.setup_timeout = None;
        self.active_timer_started = Some(now);
        self.connect_request_sent = false;
    }

    /// The other party of the call as seen from `sender_issi`; `None` when
    /// `sender_issi` is not a party.
    pub fn peer_issi_for(&self, sender_issi: u32) -> (r: Option<u32>)
        ensures
            r == if sender_issi == self.calling_addr.ssi {
                Some(self.called_addr.ssi)
            } else if sender_issi == self.called_addr.ssi {
                Some(self.calling_addr.ssi)
            } else {
                None::<u32>
            },
    {
        if sender_issi == self.calling_addr.ssi {
            Some(self.called_addr.ssi)
        } else if sender_issi == self.called_addr.ssi {
            Some(self.calling_addr.ssi)
        } else {
            None
        }
    }

    /// Enters the disconnecting state; the floor is released (remembered as
    /// last holder) and any waiting transmit request is dropped.
    pub fn begin_disconnect_pending(
        &mut self,
        awaiting_release_from: u32,
        release_to_issi: u32,
        started_at: TdmaTime,
        cause: DisconnectCause,
    )
        ensures
            *final(self) == (IndividualCall {
                state: IndividualCallState::DisconnectPending {
                    awaiting_release_from,
                    release_to_issi,
                    started_at,
                    cause,
                },
                floor_holder: None,
                last_floor_holder: match old(self).floor_holder {
                    Some(h) => Some(h),
                    None => old(self).last_floor_holder,
                },
                queued_tx_demand: None,
                ..*old(self)
            }),
    {
        self.state = IndividualCallState::DisconnectPending { awaiting_release_from, release_to_issi, started_at, cause };
        self.clear_floor_holder();
        self.queued_tx_demand = None;
    }

    /// Gives the floor to `holder_issi`.
    pub fn set_floor_holder(&mut self, holder_issi: u32)
        ensures
            *final(self) == (IndividualCall {
                floor_holder: Some(holder_issi),
                last_floor_holder: Some(holder_issi),
                ..*old(self)
            }),
    {
        self.floor_holder = Some(holder_issi);
        self.last_floor_holder = Some(holder_issi);
    }

    /// Releases the floor, remembering who held it.
    pub fn clear_floor_holder(&mut self)
        ensures
            *final(self) == (IndividualCall {
                floor_holder: None,
                last_floor_holder: match old(self).floor_holder {
                    Some(h) => Some(h),
                    None => old(self).last_floor_holder,
                },
                ..*old(self)
            }),
    {
        if let Some(holder_issi) = self.floor_holder {
            self.last_floor_holder = Some(holder_issi);
        }
        self.floor_holder = None;
    }

    /// `peer_issi` holds the floor, or held it last while nobody holds it now.
    pub fn peer_is_current_or_last_floor_holder(&self, peer_issi: u32) -> (r: bool)
        ensures
            r == (self.floor_holder == Some(peer_issi) || (self.floor_holder is None && self.last_floor_holder
                == Some(peer_issi))),
    {
        self.floor_holder == Some(peer_issi) || (self.floor_holder.is_none() && self.last_floor_holder == Some(
            peer_issi,
        ))
    }

    /// Registers a transmit request: refused from the floor holder, a repeat
    /// from the waiting station, busy when another station waits.
    pub fn queue_tx_demand(&mut self, requester: TetraAddress) -> (r: TxDemandQueueResult)
        ensures
            r == if old(self).floor_holder == Some(requester.ssi) {
                TxDemandQueueResult::FromCurrentSpeaker
            } else {
                match old(self).queued_tx_demand {
                    Some(existing) => if existing.ssi == requester.ssi {
                        TxDemandQueueResult::AlreadyQueuedBySameUser
                    } else {
                        TxDemandQueueResult::QueueBusy
                    },
                    None => TxDemandQueueResult::Queued,
                }
            },
            *final(self) == if r == TxDemandQueueResult::Queued {
                IndividualCall { queued_tx_demand: Some(requester), ..*old(self) }
            } else {
                *old(self)
            },
    {
        if self.floor_holder == Some(requester.ssi) {
            return TxDemandQueueResult::FromCurrentSpeaker;
        }
        match self.queued_tx_demand {
            Some(existing) => {
                if existing.ssi == requester.ssi {
                    TxDemandQueueResult::AlreadyQueuedBySameUser
                } else {
                    TxDemandQueueResult::QueueBusy
                }
            },
            None => {
                self.queued_tx_demand = Some(requester);
                TxDemandQueueResult::Queued
            },
        }
    }

    /// Takes the waiting transmit request, if any.
    pub fn take_queued_tx_demand(&mut self) -> (r: Option<TetraAddress>)
        ensures
            r == old(self).queued_tx_demand,
            *final(self) == (IndividualCall { queued_tx_demand: None, ..*old(self) }),
    {
        self.queued_tx_demand.take()
    }

    /// While disconnecting and waiting for `sender_issi`'s U-RELEASE: the
    /// disconnect cause and the party to release.
    pub fn pending_disconnect_release_if_awaited_by(&self, sender_issi: u32) -> (r: Option<(DisconnectCause, u32)>)
        ensures
            r == match self.state {
                IndividualCallState::DisconnectPending { awaiting_release_from, release_to_issi, cause, .. } =>
                    if awaiting_release_from == sender_issi {
                    Some((cause, release_to_issi))
                } else {
                    None::<(DisconnectCause, u32)>
                },
                _ => None::<(DisconnectCause, u32)>,
            },
    {
        match self.state {
            IndividualCallState::DisconnectPending { awaiting_release_from, release_to_issi, cause, .. } => {
                if awaiting_release_from == sender_issi {
                    Some((cause, release_to_issi))
                } else {
                    None
                }
            },
            _ => None,
        }
    }

    /// While disconnecting for longer than `limit_timeslots` at `now`: the
    /// disconnect cause.
    pub fn pending_disconnect_timeout_expired(&self, now: TdmaTime, limit_timeslots: i32) -> (r: Option<
        DisconnectCause,
    >)
        ensures
            r == match self.state {
                IndividualCallState::DisconnectPending { started_at, cause, .. } => if started_at.age_spec(now)
                    > limit_timeslots {
                    Some(cause)
                } else {
                    None::<DisconnectCause>
                },
                _ => None::<DisconnectCause>,
            },
    {
        match self.state {
            IndividualCallState::DisconnectPending { started_at, cause, .. } => {
                if started_at.age(now) > limit_timeslots {
                    Some(cause)
                } else {
                    None
                }
            },
            _ => None,
        }
    }

    /// Setup has run longer than its setup timeout (never once active).
    pub fn setup_timeout_expired(&self, now: TdmaTime) -> (r: bool)
        ensures
            r == (self.state != IndividualCallState::Active && match (self.setup_timer_started, self.setup_timeout) {
                (Some(started), Some(timeout)) => started.age_spec(now) > timeslots_in_seconds(
                    setup_timeout_seconds(timeout),
                ),
                _ => false,
            }),
    {
        if self.is_active() {
            return false;
        }
        let started = match self.setup_timer_started {
            Some(s) => s,
            None => {
                return false;
            },
        };
        let timeout = match self.setup_timeout {
            Some(t) => t,
            None => {
                return false;
            },
        };
        let limit = match setup_timeout_to_timeslots(timeout) {
            Some(l) => l,
            None => {
                return false;
            },
        };
        started.age(now) > limit
    }

    /// An active simplex call has run longer than its call timeout; full
    /// duplex calls never time out.
    pub fn active_timeout_expired(&self, now: TdmaTime) -> (r: bool)
        ensures
            r == (self.state == IndividualCallState::Active && !self.simplex_duplex && match (
                self.active_timer_started,
                call_timeout_seconds(self.call_timeout),
            ) {
                (Some(started), Some(s)) => started.age_spec(now) > timeslots_in_seconds(s),
                _ => false,
            }),
    {
        if !self.is_active() {
            return false;
        }
        if self.simplex_duplex {
            return false;
        }
        let started = match self.active_timer_started {
            Some(s) => s,
            None => {
                return false;
            },
        };
        let limit = match call_timeout_to_timeslots(self.call_timeout) {
            Some(l) => l,
            None => {
                return false;
            },
        };
        started.age(now) > limit
    }
}

} // verus!
