//! Individual calls with one party behind the network bridge: the bridge's
//! connect request and confirm for the local leg, and the bridge's floor
//! grants and idle indications on an active simplex call.

use vstd::prelude::*;
use vstd::std_specs::iter::IteratorSpec;

use crate::address::TetraAddress;
use crate::call::{
    CallTimeout, DisconnectCause, IndividualCall, IndividualCallState, NetworkCircuitCall, call_timeout_from_raw,
    same_individual_call,
};
use crate::cc_bs::CcBsSubentity;
use crate::circuit_mgr::{CircuitModeType, CmceCircuit, CommunicationType};
use crate::connect::BasicServiceInformation;
use crate::fsm::{
    IndividualEvent, IndividualTransitionError, PendingNetworkIndividualConnectKind, TransmissionGrant,
    individual_transition_allowed, transmission_grant_from_raw, transmission_grant_raw,
};
use crate::parrot::FloorGranted;
use crate::individual_setup::UplinkContext;
use crate::tdma::TdmaTime;
use crate::timeslots::Direction;

verus! {

/// The grant that the bridge's raw grant code stands for (its two low bits).
pub open spec fn network_grant(raw: u8) -> TransmissionGrant {
    transmission_grant_from_raw((raw & 0x03) as u64)->0
}

/// Call `id` of `calls` is the bridged call `brew_uuid`.
pub open spec fn bridged_call_of(calls: Map<u16, IndividualCall>, brew_uuid: u128, id: u16) -> bool {
    calls.contains_key(id) && calls[id].brew_uuid == Some(brew_uuid)
}

/// The local leg of a private call with exactly one party behind the
/// bridge: the local party with its timeslot and usage marker, and the
/// bridged party.
#[derive(Clone, Copy, Debug, PartialEq, Eq, Structural)]
pub struct BridgedLeg {
    pub call_id: u16,
    pub local_addr: TetraAddress,
    pub local_ts: u8,
    pub local_usage: u8,
    pub peer_addr: TetraAddress,
}

/// The local leg of call `c` (identifier `call_id`), if exactly one of its
/// parties is behind the bridge.
pub open spec fn bridged_leg(c: IndividualCall, call_id: u16) -> Option<BridgedLeg> {
    if c.called_over_brew && !c.calling_over_brew {
        Some(
            BridgedLeg {
                call_id,
                local_addr: c.calling_addr,
                local_ts: c.calling_ts,
                local_usage: c.calling_usage,
                peer_addr: c.called_addr,
            },
        )
    } else if c.calling_over_brew && !c.called_over_brew {
        Some(
            BridgedLeg {
                call_id,
                local_addr: c.called_addr,
                local_ts: c.called_ts,
                local_usage: c.called_usage,
                peer_addr: c.calling_addr,
            },
        )
    } else {
        None
    }
}

/// A move of the floor of a private call, announced with FloorGranted.
#[derive(Clone, Copy, Debug, PartialEq, Eq, Structural)]
pub struct FloorMove {
    pub source_issi: u32,
    pub dest_issi: u32,
}

/// The answer to the bridge's floor grant on a bridged private call.
#[derive(Clone, Copy, Debug, PartialEq, Eq, Structural)]
pub enum SimplexGrantedOutcome {
    /// No call has this UUID.
    UnknownCall,
    /// The call is duplex; ignored.
    Duplex,
    /// The call is not active; ignored.
    NotActive,
    /// The call has no bridged leg.
    NoBridgedLeg,
    /// D-TX GRANTED with `grant` naming `speaker` goes to the local party on
    /// `leg` (uplink and downlink when `uplink`, else downlink only); when
    /// the floor moved, FloorGranted from `floor_source` to `floor_dest`.
    Signalled {
        leg: BridgedLeg,
        grant: TransmissionGrant,
        speaker: u32,
        uplink: bool,
        floor: Option<FloorMove>,
    },
}

/// The answer to the bridge's idle indication on a bridged private call.
#[derive(Clone, Copy, Debug, PartialEq, Eq, Structural)]
pub enum SimplexIdleOutcome {
    /// No call has this UUID.
    UnknownCall,
    /// The call is duplex or not active; ignored.
    Ignored,
    /// The call has no bridged leg.
    NoBridgedLeg,
    /// A station other than the bridged party holds the floor; ignored.
    HeldByOther,
    /// The waiting local `requester` gets the floor: D-TX GRANTED to the
    /// local party, FloorGranted, and SimplexGranted (granted to the other
    /// user) to the bridge.
    QueuedGranted { leg: BridgedLeg, requester: TetraAddress },
    /// The floor is free: D-TX CEASED to the local party and FloorReleased.
    Released { leg: BridgedLeg },
}

/// Call `c` after the bridge's floor grant `grant` on its leg `leg`.
pub open spec fn after_simplex_grant(c: IndividualCall, leg: BridgedLeg, grant: TransmissionGrant) -> IndividualCall {
    match grant {
        TransmissionGrant::Granted => IndividualCall {
            floor_holder: Some(leg.local_addr.ssi),
            last_floor_holder: Some(leg.local_addr.ssi),
            ..c
        },
        TransmissionGrant::GrantedToOtherUser => IndividualCall {
            floor_holder: Some(leg.peer_addr.ssi),
            last_floor_holder: Some(leg.peer_addr.ssi),
            ..c
        },
        _ => c,
    }
}

/// The signalling owed for the bridge's floor grant `grant` on leg `leg` of
/// call `c`.
pub open spec fn simplex_grant_signal(c: IndividualCall, leg: BridgedLeg, grant: TransmissionGrant) -> SimplexGrantedOutcome {
    match grant {
        TransmissionGrant::Granted => SimplexGrantedOutcome::Signalled {
            leg,
            grant,
            speaker: leg.local_addr.ssi,
            uplink: true,
            floor: Some(FloorMove { source_issi: leg.local_addr.ssi, dest_issi: leg.peer_addr.ssi }),
        },
        TransmissionGrant::GrantedToOtherUser => SimplexGrantedOutcome::Signalled {
            leg,
            grant,
            speaker: leg.peer_addr.ssi,
            uplink: true,
            floor: Some(FloorMove { source_issi: leg.peer_addr.ssi, dest_issi: leg.local_addr.ssi }),
        },
        _ => SimplexGrantedOutcome::Signalled {
            leg,
            grant,
            speaker: match c.floor_holder {
                Some(h) => h,
                None => leg.peer_addr.ssi,
            },
            uplink: false,
            floor: None,
        },
    }
}

/// A bridged connect that waits for its local radio leg; the delivery
/// report of the local connect PDU completes it.
#[derive(Clone, Copy, Debug, PartialEq, Eq, Structural)]
pub struct PendingNetworkIndividualConnect {
    pub brew_uuid: u128,
    pub call_id: u16,
    pub ts: u8,
    pub local_addr: TetraAddress,
    pub peer_addr: TetraAddress,
    pub simplex_duplex: bool,
    pub grant: TransmissionGrant,
    pub permission: u8,
    pub started_at: TdmaTime,
    pub kind: PendingNetworkIndividualConnectKind,
}

/// D-CONNECT for the local caller of a call to a bridged party.
#[derive(Clone, Copy, Debug, PartialEq, Eq, Structural)]
pub struct BridgedDConnect {
    pub call_time_out: CallTimeout,
    pub hook_method_selection: bool,
    pub simplex_duplex_selection: bool,
    pub transmission_grant: TransmissionGrant,
    pub transmission_request_permission: bool,
}

/// D-CONNECT ACKNOWLEDGE for the local called party of a bridged call.
#[derive(Clone, Copy, Debug, PartialEq, Eq, Structural)]
pub struct BridgedDConnectAck {
    pub call_time_out: CallTimeout,
    pub transmission_grant: TransmissionGrant,
    pub transmission_request_permission: bool,
}

/// The answer to the bridge's CONNECT_CONFIRM for a bridge-originated call.
#[derive(Clone, Copy, Debug, PartialEq, Eq, Structural)]
pub enum NetworkConfirmOutcome {
    /// No call has this UUID.
    UnknownCall,
    /// The call was started locally; ignored.
    LocalOrigin,
    /// The call is already active; ignored.
    AlreadyActive,
    /// The called party's link is not known yet (no U-CONNECT); ignored.
    MissingCalledContext,
    /// D-CONNECT ACKNOWLEDGE goes to the called party on `called`, its
    /// bearer `circuit` is opened, and `pending` waits for the delivery.
    ConnectAck {
        d_connect_ack: BridgedDConnectAck,
        called: UplinkContext,
        circuit: CmceCircuit,
        pending: PendingNetworkIndividualConnect,
    },
}

/// The answer to the bridge's CONNECT_REQUEST.
#[derive(Clone, Copy, Debug)]
pub enum NetworkConnectRequestOutcome {
    /// No call has this UUID.
    UnknownCall,
    /// The call is bridge-originated: the request is taken as a confirm.
    Confirmed { outcome: NetworkConfirmOutcome },
    /// The call is already active; ignored.
    AlreadyActive,
    /// D-CONNECT goes to the local caller on `calling`, its bearer `circuit`
    /// is opened, and `pending` waits for the delivery; `recorded` is how the
    /// state machine took the bridge's call data.
    Connect {
        d_connect: BridgedDConnect,
        calling: UplinkContext,
        circuit: CmceCircuit,
        pending: PendingNetworkIndividualConnect,
        recorded: Result<(), IndividualTransitionError>,
    },
}

/// The grant in D-CONNECT ACKNOWLEDGE of bridge-originated call `c` for the
/// bridge's raw `grant`: in simplex, the opposite of the originator's grant
/// (from the stored call data, else `grant`).
pub open spec fn confirm_grant(c: IndividualCall, grant: u8) -> TransmissionGrant {
    if !c.simplex_duplex {
        let origin = match c.network_call {
            Some(n) => network_grant(n.grant),
            None => network_grant(grant),
        };
        match origin {
            TransmissionGrant::Granted => TransmissionGrant::GrantedToOtherUser,
            TransmissionGrant::GrantedToOtherUser => TransmissionGrant::Granted,
            other => other,
        }
    } else {
        network_grant(grant)
    }
}

/// A confirm for call `c` reaches the called party's bearer.
pub open spec fn confirm_reaches_bearer(c: IndividualCall) -> bool {
    c.calling_over_brew && c.state != IndividualCallState::Active && c.called_handle is Some && c.called_link_id
        is Some && c.called_endpoint_id is Some
}

/// The answer to a confirm (`grant`, `permission`) for call `id` of `calls`
/// at `now`, with the called party's D-SETUP service `cached`.
pub open spec fn confirm_outcome(
    calls: Map<u16, IndividualCall>,
    id: u16,
    brew_uuid: u128,
    grant: u8,
    permission: u8,
    cached: Option<BasicServiceInformation>,
    now: TdmaTime,
) -> NetworkConfirmOutcome {
    let c = calls[id];
    if !c.calling_over_brew {
        NetworkConfirmOutcome::LocalOrigin
    } else if c.state == IndividualCallState::Active {
        NetworkConfirmOutcome::AlreadyActive
    } else if !(c.called_handle is Some && c.called_link_id is Some && c.called_endpoint_id is Some) {
        NetworkConfirmOutcome::MissingCalledContext
    } else {
        let g = confirm_grant(c, grant);
        NetworkConfirmOutcome::ConnectAck {
            d_connect_ack: BridgedDConnectAck {
                call_time_out: c.call_timeout,
                transmission_grant: g,
                transmission_request_permission: permission != 0,
            },
            called: UplinkContext {
                handle: c.called_handle->0,
                link_id: c.called_link_id->0,
                endpoint_id: c.called_endpoint_id->0,
            },
            circuit: CmceCircuit {
                ts_created: now,
                direction: Direction::Both,
                ts: c.called_ts,
                call_id: id,
                usage: c.called_usage,
                circuit_mode: match cached {
                    Some(b) => b.circuit_mode_type,
                    None => CircuitModeType::TchS,
                },
                comm_type: match cached {
                    Some(b) => b.communication_type,
                    None => CommunicationType::P2p,
                },
                simplex_duplex: c.simplex_duplex,
                speech_service: match cached {
                    Some(b) => b.speech_service,
                    None => Some(0),
                },
                etee_encrypted: match cached {
                    Some(b) => b.encryption_flag,
                    None => false,
                },
            },
            pending: PendingNetworkIndividualConnect {
                brew_uuid,
                call_id: id,
                ts: c.called_ts,
                local_addr: c.called_addr,
                peer_addr: c.calling_addr,
                simplex_duplex: c.simplex_duplex,
                grant: g,
                permission,
                started_at: now,
                kind: PendingNetworkIndividualConnectKind::LocalCalledDConnectAck,
            },
        }
    }
}

/// The connect call control sends to the local caller of call `c` (to a
/// bridged party) for the bridge's call data `info`, at `now`.
pub open spec fn request_connect(
    c: IndividualCall,
    id: u16,
    brew_uuid: u128,
    info: NetworkCircuitCall,
    recorded: Result<(), IndividualTransitionError>,
    now: TdmaTime,
) -> NetworkConnectRequestOutcome {
    let g = network_grant(info.grant);
    NetworkConnectRequestOutcome::Connect {
        d_connect: BridgedDConnect {
            call_time_out: match call_timeout_from_raw(info.timeout as u64) {
                Some(CallTimeout::Reserved) | None => c.call_timeout,
                Some(t) => t,
            },
            hook_method_selection: info.method != 0,
            simplex_duplex_selection: c.simplex_duplex,
            transmission_grant: g,
            transmission_request_permission: info.permission != 0,
        },
        calling: UplinkContext {
            handle: c.calling_handle,
            link_id: c.calling_link_id,
            endpoint_id: c.calling_endpoint_id,
        },
        circuit: CmceCircuit {
            ts_created: now,
            direction: Direction::Both,
            ts: c.calling_ts,
            call_id: id,
            usage: c.calling_usage,
            circuit_mode: CircuitModeType::TchS,
            comm_type: CommunicationType::P2p,
            simplex_duplex: c.simplex_duplex,
            speech_service: Some(0),
            etee_encrypted: false,
        },
        pending: PendingNetworkIndividualConnect {
            brew_uuid,
            call_id: id,
            ts: c.calling_ts,
            local_addr: c.calling_addr,
            peer_addr: c.called_addr,
            simplex_duplex: c.simplex_duplex,
            grant: g,
            permission: info.permission,
            started_at: now,
            kind: PendingNetworkIndividualConnectKind::LocalCallerDConnect,
        },
        recorded,
    }
}

impl CcBsSubentity {
    /// A call of bridge call `brew_uuid`, with a copy of its record; `None`
    /// when there is none.
    pub fn find_brew_individual_call(&self, brew_uuid: u128) -> (r: Option<(u16, IndividualCall)>)
        ensures
            match r {
                Some((id, c)) => bridged_call_of(self.individual_calls@, brew_uuid, id) && same_individual_call(
                    c,
                    self.individual_calls@[id],
                ),
                None => forall|id: u16| !#[trigger] bridged_call_of(self.individual_calls@, brew_uuid, id),
            },
    {
        let ghost ks = vstd::std_specs::hash::spec_keys_iter(&self.individual_calls).remaining().unref();
        for k in it: self.individual_calls.keys()
            invariant
                it.seq().unref() == ks,
                ks.to_set() == self.individual_calls@.dom(),
                forall|j: int| 0 <= j < it.index() ==> !bridged_call_of(self.individual_calls@, brew_uuid, #[trigger] ks[j]),
        {
            let ghost j = it.index() as int;
            proof {
                assert(ks[j] == *k);
                assert(ks.to_set().contains(*k));
            }
            match self.individual_calls.get(k) {
                Some(call) => {
                    let found = match call.brew_uuid {
                        Some(u) => u == brew_uuid,
                        None => false,
                    };
                    if found {
                        return Some((*k, call.duplicate()));
                    }
                },
                None => {},
            }
        }
        proof {
            assert forall|id: u16| !#[trigger] bridged_call_of(self.individual_calls@, brew_uuid, id) by {
                if self.individual_calls@.contains_key(id) {
                    assert(ks.to_set().contains(id));
                    let j = choose|j: int| 0 <= j < ks.len() && ks[j] == id;
                    assert(!bridged_call_of(self.individual_calls@, brew_uuid, ks[j]));
                }
            }
        }
        None
    }

    /// The local leg of call `call` (identifier `call_id`) with one party
    /// behind the bridge.
    fn bridged_leg_of(call: &IndividualCall, call_id: u16) -> (r: Option<BridgedLeg>)
        ensures
            r == bridged_leg(*call, call_id),
    {
        match Self::brew_private_local_and_peer_legs(call) {
            Some((local_addr, local_ts, local_usage, peer_addr)) => Some(
                BridgedLeg { call_id, local_addr, local_ts, local_usage, peer_addr },
            ),
            None => None,
        }
    }

    /// The bridge grants the floor (`grant`, raw) on the active simplex call
    /// `brew_uuid`: a grant to the local party or to the bridged party moves
    /// the floor there; any other grant is only passed on to the local
    /// party, naming the current speaker.
    pub fn fsm_on_network_circuit_simplex_granted(&mut self, brew_uuid: u128, grant: u8, permission: u8) -> (r:
        SimplexGrantedOutcome)
        ensures
            old(self).individual_calls_wf() ==> final(self).individual_calls_wf(),
            final(self).same_except_individual_calls(old(self)),
            ({
                let m = old(self).individual_calls@;
                match r {
                    SimplexGrantedOutcome::UnknownCall => (forall|id: u16| !#[trigger] bridged_call_of(m, brew_uuid, id))
                        && final(self).individual_calls@ == m,
                    SimplexGrantedOutcome::Duplex => (exists|id: u16|
                        #[trigger] bridged_call_of(m, brew_uuid, id) && m[id].simplex_duplex)
                        && final(self).individual_calls@ == m,
                    SimplexGrantedOutcome::NotActive => (exists|id: u16|
                        #[trigger] bridged_call_of(m, brew_uuid, id) && !m[id].simplex_duplex && m[id].state
                            != IndividualCallState::Active) && final(self).individual_calls@ == m,
                    SimplexGrantedOutcome::NoBridgedLeg => (exists|id: u16|
                        #[trigger] bridged_call_of(m, brew_uuid, id) && !m[id].simplex_duplex && m[id].state
                            == IndividualCallState::Active && bridged_leg(m[id], id) is None)
                        && final(self).individual_calls@ == m,
                    SimplexGrantedOutcome::Signalled { leg, .. } => {
                        let id = leg.call_id;
                        let c = m[id];
                        &&& bridged_call_of(m, brew_uuid, id)
                        &&& !c.simplex_duplex && c.state == IndividualCallState::Active
                        &&& bridged_leg(c, id) == Some(leg)
                        &&& r == simplex_grant_signal(c, leg, network_grant(grant))
                        &&& final(self).individual_calls@ == m.insert(
                            id,
                            after_simplex_grant(c, leg, network_grant(grant)),
                        )
                    },
                }
            }),
    {
        let ghost m = self.individual_calls@;
        let (call_id, call) = match self.find_brew_individual_call(brew_uuid) {
            Some(found) => found,
            None => {
                return SimplexGrantedOutcome::UnknownCall;
            },
        };
        if call.simplex_duplex {
            return SimplexGrantedOutcome::Duplex;
        }
        if !call.is_active() {
            return SimplexGrantedOutcome::NotActive;
        }
        let leg = match Self::bridged_leg_of(&call, call_id) {
            Some(leg) => leg,
            None => {
                return SimplexGrantedOutcome::NoBridgedLeg;
            },
        };
        let grant_enum = Self::network_circuit_grant(grant);
        match grant_enum {
            TransmissionGrant::Granted | TransmissionGrant::GrantedToOtherUser => {
                let (holder, other) = match grant_enum {
                    TransmissionGrant::Granted => (leg.local_addr.ssi, leg.peer_addr.ssi),
                    _ => (leg.peer_addr.ssi, leg.local_addr.ssi),
                };
                match self.individual_calls.remove(&call_id) {
                    Some(mut active) => {
                        active.set_floor_holder(holder);
                        self.individual_calls.insert(call_id, active);
                        proof {
                            assert(self.individual_calls@ =~= m.insert(
                                call_id,
                                after_simplex_grant(m[call_id], leg, grant_enum),
                            ));
                        }
                    },
                    None => {},
                }
                SimplexGrantedOutcome::Signalled {
                    leg,
                    grant: grant_enum,
                    speaker: holder,
                    uplink: true,
                    floor: Some(FloorMove { source_issi: holder, dest_issi: other }),
                }
            },
            _ => {
                let speaker = match call.floor_holder {
                    Some(h) => h,
                    None => leg.peer_addr.ssi,
                };
                proof {
                    assert(m.insert(call_id, m[call_id]) =~= m);
                }
                SimplexGrantedOutcome::Signalled { leg, grant: grant_enum, speaker, uplink: false, floor: None }
            },
        }
    }

    /// The bridge reports the floor idle on the active simplex call
    /// `brew_uuid`. Unless a local station holds the floor, a waiting local
    /// request is granted, or else the floor is released.
    pub fn fsm_on_network_circuit_simplex_idle(&mut self, brew_uuid: u128, grant: u8, permission: u8) -> (r:
        SimplexIdleOutcome)
        ensures
            old(self).individual_calls_wf() ==> final(self).individual_calls_wf(),
            final(self).same_except_individual_calls(old(self)),
            ({
                let m = old(self).individual_calls@;
                match r {
                    SimplexIdleOutcome::UnknownCall => (forall|id: u16| !#[trigger] bridged_call_of(m, brew_uuid, id))
                        && final(self).individual_calls@ == m,
                    SimplexIdleOutcome::Ignored => (exists|id: u16|
                        #[trigger] bridged_call_of(m, brew_uuid, id) && (m[id].simplex_duplex || m[id].state
                            != IndividualCallState::Active)) && final(self).individual_calls@ == m,
                    SimplexIdleOutcome::NoBridgedLeg => (exists|id: u16|
                        #[trigger] bridged_call_of(m, brew_uuid, id) && !m[id].simplex_duplex && m[id].state
                            == IndividualCallState::Active && bridged_leg(m[id], id) is None)
                        && final(self).individual_calls@ == m,
                    SimplexIdleOutcome::HeldByOther => (exists|id: u16|
                        #[trigger] bridged_call_of(m, brew_uuid, id) && !m[id].simplex_duplex && m[id].state
                            == IndividualCallState::Active && bridged_leg(m[id], id) is Some && m[id].floor_holder
                            is Some && m[id].floor_holder != Some(bridged_leg(m[id], id)->0.peer_addr.ssi))
                        && final(self).individual_calls@ == m,
                    SimplexIdleOutcome::QueuedGranted { leg, requester } => {
                        let id = leg.call_id;
                        let c = m[id];
                        &&& bridged_call_of(m, brew_uuid, id)
                        &&& !c.simplex_duplex && c.state == IndividualCallState::Active
                        &&& bridged_leg(c, id) == Some(leg)
                        &&& (c.floor_holder is None || c.floor_holder == Some(leg.peer_addr.ssi))
                        &&& c.queued_tx_demand == Some(requester)
                        &&& final(self).individual_calls@ == m.insert(
                            id,
                            IndividualCall {
                                floor_holder: Some(requester.ssi),
                                last_floor_holder: Some(requester.ssi),
                                queued_tx_demand: None,
                                ..c
                            },
                        )
                    },
                    SimplexIdleOutcome::Released { leg } => {
                        let id = leg.call_id;
                        let c = m[id];
                        &&& bridged_call_of(m, brew_uuid, id)
                        &&& !c.simplex_duplex && c.state == IndividualCallState::Active
                        &&& bridged_leg(c, id) == Some(leg)
                        &&& (c.floor_holder is None || c.floor_holder == Some(leg.peer_addr.ssi))
                        &&& c.queued_tx_demand is None
                        &&& final(self).individual_calls@ == m.insert(
                            id,
                            IndividualCall {
                                floor_holder: None,
                                last_floor_holder: match c.floor_holder {
                                    Some(h) => Some(h),
                                    None => c.last_floor_holder,
                                },
                                ..c
                            },
                        )
                    },
                }
            }),
    {
        let ghost m = self.individual_calls@;
        let (call_id, call) = match self.find_brew_individual_call(brew_uuid) {
            Some(found) => found,
            None => {
                return SimplexIdleOutcome::UnknownCall;
            },
        };
        if call.simplex_duplex || !call.is_active() {
            return SimplexIdleOutcome::Ignored;
        }
        let leg = match Self::bridged_leg_of(&call, call_id) {
            Some(leg) => leg,
            None => {
                return SimplexIdleOutcome::NoBridgedLeg;
            },
        };
        match call.floor_holder {
            Some(holder) => {
                if holder != leg.peer_addr.ssi {
                    return SimplexIdleOutcome::HeldByOther;
                }
            },
            None => {},
        }
        match call.queued_tx_demand {
            Some(requester) => {
                match self.individual_calls.remove(&call_id) {
                    Some(mut active) => {
                        active.set_floor_holder(requester.ssi);
                        active.queued_tx_demand = None;
                        self.individual_calls.insert(call_id, active);
                        proof {
                            assert(self.individual_calls@ =~= m.insert(
                                call_id,
                                IndividualCall {
                                    floor_holder: Some(requester.ssi),
                                    last_floor_holder: Some(requester.ssi),
                                    queued_tx_demand: None,
                                    ..m[call_id]
                                },
                            ));
                        }
                    },
                    None => {},
                }
                SimplexIdleOutcome::QueuedGranted { leg, requester }
            },
            None => {
                match self.individual_calls.remove(&call_id) {
                    Some(mut active) => {
                        active.clear_floor_holder();
                        self.individual_calls.insert(call_id, active);
                        proof {
                            let c = m[call_id];
                            assert(self.individual_calls@ =~= m.insert(
                                call_id,
                                IndividualCall {
                                    floor_holder: None,
                                    last_floor_holder: match c.floor_holder {
                                        Some(h) => Some(h),
                                        None => c.last_floor_holder,
                                    },
                                    ..c
                                },
                            ));
                        }
                    },
                    None => {},
                }
                SimplexIdleOutcome::Released { leg }
            },
        }
    }

    /// The answer to a confirm for the found call `call_id` (`call` is a copy
    /// of its record).
    fn confirm_found(
        &self,
        brew_uuid: u128,
        call_id: u16,
        call: &IndividualCall,
        grant: u8,
        permission: u8,
        cached: Option<BasicServiceInformation>,
    ) -> (r: NetworkConfirmOutcome)
        requires
            self.individual_calls@.contains_key(call_id),
            same_individual_call(*call, self.individual_calls@[call_id]),
        ensures
            r == confirm_outcome(self.individual_calls@, call_id, brew_uuid, grant, permission, cached, self.dltime),
    {
        if !call.calling_over_brew {
            NetworkConfirmOutcome::LocalOrigin
        } else if call.is_active() {
            NetworkConfirmOutcome::AlreadyActive
        } else {
            match (call.called_handle, call.called_link_id, call.called_endpoint_id) {
                (Some(handle), Some(link_id), Some(endpoint_id)) => {
                    let grant_enum = if !call.simplex_duplex {
                        let origin_grant = match &call.network_call {
                            Some(info) => Self::network_circuit_grant(info.grant),
                            None => Self::network_circuit_grant(grant),
                        };
                        Self::opposite_private_simplex_grant(origin_grant)
                    } else {
                        Self::network_circuit_grant(grant)
                    };
                    let (circuit_mode, comm_type, speech_service, etee_encrypted) = match cached {
                        Some(b) => (b.circuit_mode_type, b.communication_type, b.speech_service, b.encryption_flag),
                        None => (CircuitModeType::TchS, CommunicationType::P2p, Some(0), false),
                    };
                    NetworkConfirmOutcome::ConnectAck {
                        d_connect_ack: BridgedDConnectAck {
                            call_time_out: call.call_timeout,
                            transmission_grant: grant_enum,
                            transmission_request_permission: permission != 0,
                        },
                        called: UplinkContext { handle, link_id, endpoint_id },
                        circuit: CmceCircuit {
                            ts_created: self.dltime,
                            direction: Direction::Both,
                            ts: call.called_ts,
                            call_id,
                            usage: call.called_usage,
                            circuit_mode,
                            comm_type,
                            simplex_duplex: call.simplex_duplex,
                            speech_service,
                            etee_encrypted,
                        },
                        pending: PendingNetworkIndividualConnect {
                            brew_uuid,
                            call_id,
                            ts: call.called_ts,
                            local_addr: call.called_addr,
                            peer_addr: call.calling_addr,
                            simplex_duplex: call.simplex_duplex,
                            grant: grant_enum,
                            permission,
                            started_at: self.dltime,
                            kind: PendingNetworkIndividualConnectKind::LocalCalledDConnectAck,
                        },
                    }
                },
                _ => NetworkConfirmOutcome::MissingCalledContext,
            }
        }
    }

    /// The bridge confirms the connect (`grant`, `permission`, raw) of the
    /// bridge-originated call `brew_uuid`: once the called party's link is
    /// known, D-CONNECT ACKNOWLEDGE goes to it on its bearer (opened with the
    /// called party's D-SETUP service `cached`, or speech) and the connect
    /// waits for the delivery.
    pub fn fsm_on_network_circuit_connect_confirm(
        &self,
        brew_uuid: u128,
        grant: u8,
        permission: u8,
        cached: Option<BasicServiceInformation>,
    ) -> (r: NetworkConfirmOutcome)
        requires
            forall|id: u16|
                #![trigger bridged_call_of(self.individual_calls@, brew_uuid, id)]
                bridged_call_of(self.individual_calls@, brew_uuid, id) && confirm_reaches_bearer(
                    self.individual_calls@[id],
                ) ==> 1 <= self.individual_calls@[id].called_ts <= 4,
        ensures
            ({
                let m = self.individual_calls@;
                if r == NetworkConfirmOutcome::UnknownCall {
                    forall|id: u16| !#[trigger] bridged_call_of(m, brew_uuid, id)
                } else {
                    exists|id: u16|
                        #[trigger] bridged_call_of(m, brew_uuid, id) && r == confirm_outcome(
                            m,
                            id,
                            brew_uuid,
                            grant,
                            permission,
                            cached,
                            self.dltime,
                        )
                }
            }),
    {
        let (call_id, call) = match self.find_brew_individual_call(brew_uuid) {
            Some(found) => found,
            None => {
                return NetworkConfirmOutcome::UnknownCall;
            },
        };
        self.confirm_found(brew_uuid, call_id, &call, grant, permission, cached)
    }

    /// The bridge asks to connect the call `brew_uuid` (its call data
    /// `call_info`). For a bridge-originated call this is taken as a
    /// confirm; an active call ignores it. Otherwise the call data is
    /// recorded and D-CONNECT goes to the local caller on its bearer, with the
    /// bridge's grant, permission, hook method and call timeout (the call's
    /// own when the bridge's is reserved or unknown).
    pub fn fsm_on_network_circuit_connect_request(
        &mut self,
        brew_uuid: u128,
        call_info: NetworkCircuitCall,
        cached: Option<BasicServiceInformation>,
    ) -> (r: NetworkConnectRequestOutcome)
        requires
            forall|id: u16|
                #![trigger bridged_call_of(old(self).individual_calls@, brew_uuid, id)]
                bridged_call_of(old(self).individual_calls@, brew_uuid, id) ==> {
                    let c = old(self).individual_calls@[id];
                    &&& confirm_reaches_bearer(c) ==> 1 <= c.called_ts <= 4
                    &&& !c.calling_over_brew && c.state != IndividualCallState::Active ==> 1 <= c.calling_ts <= 4
                },
        ensures
            old(self).individual_calls_wf() ==> final(self).individual_calls_wf(),
            final(self).same_except_individual_calls(old(self)),
            ({
                let m = old(self).individual_calls@;
                match r {
                    NetworkConnectRequestOutcome::UnknownCall => (forall|id: u16|
                        !#[trigger] bridged_call_of(m, brew_uuid, id)) && final(self).individual_calls@ == m,
                    NetworkConnectRequestOutcome::Confirmed { outcome } => (exists|id: u16|
                        #[trigger] bridged_call_of(m, brew_uuid, id) && m[id].calling_over_brew && outcome
                            == confirm_outcome(
                            m,
                            id,
                            brew_uuid,
                            call_info.grant,
                            call_info.permission,
                            cached,
                            old(self).dltime,
                        )) && final(self).individual_calls@ == m,
                    NetworkConnectRequestOutcome::AlreadyActive => (exists|id: u16|
                        #[trigger] bridged_call_of(m, brew_uuid, id) && !m[id].calling_over_brew && m[id].state
                            == IndividualCallState::Active) && final(self).individual_calls@ == m,
                    NetworkConnectRequestOutcome::Connect { pending, recorded, .. } => {
                        let id = pending.call_id;
                        let c = m[id];
                        &&& bridged_call_of(m, brew_uuid, id)
                        &&& !c.calling_over_brew && c.state != IndividualCallState::Active
                        &&& r == request_connect(c, id, brew_uuid, call_info, recorded, old(self).dltime)
                        &&& if individual_transition_allowed(c.state, IndividualEvent::SetNetworkCall) {
                            &&& recorded is Ok
                            &&& final(self).individual_calls@.dom() == m.dom()
                            &&& final(self).individual_calls@ == m.insert(
                                id,
                                IndividualCall { network_call: final(self).individual_calls@[id].network_call, ..c },
                            )
                            &&& final(self).individual_calls@[id].network_call matches Some(n)
                            &&& n.number@ == call_info.number@
                            &&& n == (NetworkCircuitCall { number: n.number, ..call_info })
                        } else {
                            &&& recorded == Err::<(), IndividualTransitionError>(
                                IndividualTransitionError::InvalidTransition {
                                    call_id: id,
                                    state: c.state,
                                    event: IndividualEvent::SetNetworkCall,
                                },
                            )
                            &&& final(self).individual_calls@ == m
                        }
                    },
                }
            }),
    {
        let ghost m = self.individual_calls@;
        let (call_id, call) = match self.find_brew_individual_call(brew_uuid) {
            Some(found) => found,
            None => {
                return NetworkConnectRequestOutcome::UnknownCall;
            },
        };
        if call.calling_over_brew {
            let outcome = self.confirm_found(brew_uuid, call_id, &call, call_info.grant, call_info.permission, cached);
            proof {
                assert(bridged_call_of(m, brew_uuid, call_id));
            }
            return NetworkConnectRequestOutcome::Confirmed { outcome };
        }
        if call.is_active() {
            return NetworkConnectRequestOutcome::AlreadyActive;
        }
        let connect_timeout = Self::network_circuit_call_timeout(call_info.timeout, call.call_timeout);
        let hook_method_selection = Self::network_circuit_hook_method(call_info.method);
        let grant_enum = Self::network_circuit_grant(call_info.grant);
        let permission = call_info.permission;
        let recorded = self.fsm_individual_set_network_call(call_id, call_info.duplicate());
        NetworkConnectRequestOutcome::Connect {
            d_connect: BridgedDConnect {
                call_time_out: connect_timeout,
                hook_method_selection,
                simplex_duplex_selection: call.simplex_duplex,
                transmission_grant: grant_enum,
                transmission_request_permission: permission != 0,
            },
            calling: UplinkContext {
                handle: call.calling_handle,
                link_id: call.calling_link_id,
                endpoint_id: call.calling_endpoint_id,
            },
            circuit: CmceCircuit {
                ts_created: self.dltime,
                direction: Direction::Both,
                ts: call.calling_ts,
                call_id,
                usage: call.calling_usage,
                circuit_mode: CircuitModeType::TchS,
                comm_type: CommunicationType::P2p,
                simplex_duplex: call.simplex_duplex,
                speech_service: Some(0),
                etee_encrypted: false,
            },
            pending: PendingNetworkIndividualConnect {
                brew_uuid,
                call_id,
                ts: call.calling_ts,
                local_addr: call.calling_addr,
                peer_addr: call.called_addr,
                simplex_duplex: call.simplex_duplex,
                grant: grant_enum,
                permission,
                started_at: self.dltime,
                kind: PendingNetworkIndividualConnectKind::LocalCallerDConnect,
            },
            recorded,
        }
    }}

/// A bridged connect whose local leg has not completed within this many
/// timeslots is given up.
pub const NETWORK_INDIVIDUAL_CONNECT_PENDING_TIMEOUT_TIMESLOTS: i32 = 144;

/// What a completed bridged connect announces.
#[derive(Clone, Copy, Debug)]
pub struct NetworkConnectCompletion {
    /// The outcome of making the call active.
    pub activation: Result<(), IndividualTransitionError>,
    /// Floor grant for the lower MAC, when the local party talks first.
    pub floor_granted: Option<FloorGranted>,
    /// Connect confirm to the bridge after a local caller's D-CONNECT: the
    /// call UUID, the grant code and the permission.
    pub connect_confirm: Option<(u128, u8, u8)>,
    /// Media-ready notice to the bridge: the call UUID, call identifier and
    /// timeslot.
    pub media_ready: (u128, u16, u8),
}

/// The next step of a pending bridged connect.
#[derive(Clone, Copy, Debug)]
pub enum NetworkConnectStep {
    /// The local leg is not done yet; the guard stays.
    Waiting,
    /// The local leg is done: the guard is dropped, and the call completes
    /// unless it is gone (`None`).
    Completed { completion: Option<NetworkConnectCompletion> },
    /// The local leg failed or timed out: the guard is dropped and the call
    /// released with this cause.
    ReleaseCall { cause: DisconnectCause },
}

/// Record `c` made active at `now`, when its state admits the connect.
pub open spec fn activated_at(c: IndividualCall, now: TdmaTime) -> IndividualCall {
    if individual_transition_allowed(c.state, IndividualEvent::Connect) {
        IndividualCall {
            state: IndividualCallState::Active,
            setup_timer_started: None,
            setup_timeout: None,
            active_timer_started: Some(now),
            connect_request_sent: false,
            ..c
        }
    } else {
        c
    }
}

/// The floor holder that grant `grant` names in a call between `local`
/// and `peer`.
pub open spec fn initial_holder(grant: TransmissionGrant, local: u32, peer: u32) -> Option<u32> {
    match grant {
        TransmissionGrant::Granted => Some(local),
        TransmissionGrant::GrantedToOtherUser => Some(peer),
        _ => None,
    }
}

/// Record `c` with the initial floor of a simplex bridged call set.
pub open spec fn with_initial_floor(c: IndividualCall, p: PendingNetworkIndividualConnect) -> IndividualCall {
    if p.simplex_duplex {
        c
    } else {
        match initial_holder(p.grant, p.local_addr.ssi, p.peer_addr.ssi) {
            Some(h) => IndividualCall { floor_holder: Some(h), last_floor_holder: Some(h), ..c },
            None => IndividualCall {
                floor_holder: None,
                last_floor_holder: match c.floor_holder {
                    Some(x) => Some(x),
                    None => c.last_floor_holder,
                },
                ..c
            },
        }
    }
}

/// What completing bridged connect `p` of call record `c` announces.
pub open spec fn network_connect_completion(c: IndividualCall, p: PendingNetworkIndividualConnect) -> NetworkConnectCompletion {
    NetworkConnectCompletion {
        activation: if individual_transition_allowed(c.state, IndividualEvent::Connect) {
            Ok(())
        } else {
            Err(
                IndividualTransitionError::InvalidTransition {
                    call_id: p.call_id,
                    state: c.state,
                    event: IndividualEvent::Connect,
                },
            )
        },
        floor_granted: if !p.simplex_duplex && initial_holder(p.grant, p.local_addr.ssi, p.peer_addr.ssi) == Some(p.local_addr.ssi) {
            Some(FloorGranted { call_id: p.call_id, source_issi: p.local_addr.ssi, dest_gssi: p.peer_addr.ssi, ts: p.ts })
        } else {
            None
        },
        connect_confirm: if p.kind == PendingNetworkIndividualConnectKind::LocalCallerDConnect {
            Some((p.brew_uuid, transmission_grant_raw(p.grant), p.permission))
        } else {
            None
        },
        media_ready: (p.brew_uuid, p.call_id, p.ts),
    }
}

impl CcBsSubentity {
    /// Completes bridged connect `pending` once its local leg is done: the
    /// call becomes active (when its state admits it), a simplex call gets
    /// its initial floor, and the lower MAC and the bridge are told. Nothing
    /// happens when the call is gone.
    pub fn complete_pending_network_individual_connect(&mut self, pending: PendingNetworkIndividualConnect) -> (r: Option<
        NetworkConnectCompletion,
    >)
        ensures
            old(self).individual_calls_wf() ==> final(self).individual_calls_wf(),
            final(self).same_except_individual_calls(old(self)),
            ({
                let m = old(self).individual_calls@;
                if !m.contains_key(pending.call_id) {
                    r is None && final(self).individual_calls@ == m
                } else {
                    &&& r == Some(network_connect_completion(m[pending.call_id], pending))
                    &&& final(self).individual_calls@ == m.insert(
                        pending.call_id,
                        with_initial_floor(activated_at(m[pending.call_id], old(self).dltime), pending),
                    )
                }
            }),
    {
        if !self.individual_calls.contains_key(&pending.call_id) {
            return None;
        }
        let ghost m = self.individual_calls@;
        let activation: Result<(), IndividualTransitionError> = match self.fsm_individual_transition_to_active(
            pending.call_id,
        ) {
            Ok(()) => Ok(()),
            Err(e) => Err(e),
        };
        let ghost m1 = self.individual_calls@;
        proof {
            assert(m1 =~= m.insert(pending.call_id, activated_at(m[pending.call_id], self.dltime)));
        }
        let floor_granted = self.apply_brew_simplex_initial_floor(
            pending.call_id,
            pending.local_addr,
            pending.peer_addr,
            pending.ts,
            pending.simplex_duplex,
            pending.grant,
        );
        proof {
            if pending.simplex_duplex {
                assert(self.individual_calls@ =~= m.insert(
                    pending.call_id,
                    with_initial_floor(activated_at(m[pending.call_id], self.dltime), pending),
                ));
            } else {
                assert(self.individual_calls@ =~= m1.insert(
                    pending.call_id,
                    with_initial_floor(m1[pending.call_id], pending),
                ));
                assert(self.individual_calls@ =~= m.insert(
                    pending.call_id,
                    with_initial_floor(activated_at(m[pending.call_id], self.dltime), pending),
                ));
            }
        }
        let connect_confirm = if matches!(pending.kind, PendingNetworkIndividualConnectKind::LocalCallerDConnect) {
            Some((pending.brew_uuid, pending.grant.into_raw(), pending.permission))
        } else {
            None
        };
        Some(
            NetworkConnectCompletion {
                activation,
                floor_granted,
                connect_confirm,
                media_ready: (pending.brew_uuid, pending.call_id, pending.ts),
            },
        )
    }

    /// Advances bridged connect `pending` given the report of its local
    /// connect PDU: acknowledged at layer 2, or transmitted where the call
    /// may complete on transmission, it completes; a final report or its
    /// time out releases the call (acknowledged service not complete); else
    /// it waits.
    pub fn drain_pending_network_individual_connects(
        &mut self,
        pending: PendingNetworkIndividualConnect,
        acknowledged: bool,
        transmitted: bool,
        final_state: bool,
    ) -> (r: NetworkConnectStep)
        ensures
            old(self).individual_calls_wf() ==> final(self).individual_calls_wf(),
            final(self).same_except_individual_calls(old(self)),
            ({
                let m = old(self).individual_calls@;
                let on_tx = Self::spec_simplex_complete(pending.simplex_duplex, pending.kind, pending.grant) || (
                pending.simplex_duplex && pending.grant == TransmissionGrant::Granted);
                if acknowledged || (on_tx && transmitted) {
                    &&& r matches NetworkConnectStep::Completed { completion }
                    &&& if !m.contains_key(pending.call_id) {
                        completion is None && final(self).individual_calls@ == m
                    } else {
                        &&& completion == Some(network_connect_completion(m[pending.call_id], pending))
                        &&& final(self).individual_calls@ == m.insert(
                            pending.call_id,
                            with_initial_floor(activated_at(m[pending.call_id], old(self).dltime), pending),
                        )
                    }
                } else if final_state || pending.started_at.age_spec(old(self).dltime)
                    >= NETWORK_INDIVIDUAL_CONNECT_PENDING_TIMEOUT_TIMESLOTS {
                    r == NetworkConnectStep::ReleaseCall { cause: DisconnectCause::AcknowledgedServiceNotComplete }
                        && final(self).individual_calls@ == m
                } else {
                    r == NetworkConnectStep::Waiting && final(self).individual_calls@ == m
                }
            }),
    {
        let on_tx = Self::pending_network_individual_connect_can_complete_on_tx(
            pending.simplex_duplex,
            pending.kind,
            pending.grant,
        );
        if acknowledged || (on_tx && transmitted) {
            let completion = self.complete_pending_network_individual_connect(pending);
            return NetworkConnectStep::Completed { completion };
        }
        if final_state || pending.started_at.age(self.dltime) >= NETWORK_INDIVIDUAL_CONNECT_PENDING_TIMEOUT_TIMESLOTS {
            return NetworkConnectStep::ReleaseCall { cause: DisconnectCause::AcknowledgedServiceNotComplete };
        }
        NetworkConnectStep::Waiting
    }
}

} // verus!
