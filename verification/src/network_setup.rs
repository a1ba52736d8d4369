//! Individual calls that the network bridge sets up towards a local
//! station: the decision to accept or reject the bridge's setup request,
//! and the circuit, call record and D-SETUP that an accepted one gets.

use std::collections::HashSet;
use vstd::prelude::*;

use crate::address::{SsiType, TetraAddress};
use crate::call::{
    CallTimeout, CallTimeoutSetupPhase, DisconnectCause, IndividualCall, IndividualCallState, NetworkCircuitCall,
    call_timeout_from_raw,
};
use crate::cc_bs::CcBsSubentity;
use crate::circuit_mgr::{CircuitErr, CircuitMgr, CircuitModeType, CmceCircuit, CommunicationType};
use crate::connect::BasicServiceInformation;
use crate::ext_number::{
    EXT_SUBSCRIBER_NUM_ELEM_ID, Type3FieldGeneric, dialled_nibbles, first_digits, pack_nibbles,
};
use crate::fsm::TransmissionGrant;
use crate::group_setup::occupied_ids;
use crate::subscribers::calls_with_party;
use crate::timeslots::{Direction, TimeslotAllocator, TimeslotOwner};

verus! {

broadcast use vstd::std_specs::hash::group_hash_axioms;

/// The circuit mode type with raw code `raw`, if there is one.
pub open spec fn circuit_mode_from_raw(raw: u64) -> Option<CircuitModeType> {
    if raw == 0 {
        Some(CircuitModeType::TchS)
    } else if raw == 1 {
        Some(CircuitModeType::Tch72)
    } else if raw == 2 {
        Some(CircuitModeType::Tch48N1)
    } else if raw == 3 {
        Some(CircuitModeType::Tch48N4)
    } else if raw == 4 {
        Some(CircuitModeType::Tch48N8)
    } else if raw == 5 {
        Some(CircuitModeType::Tch24N1)
    } else if raw == 6 {
        Some(CircuitModeType::Tch24N4)
    } else if raw == 7 {
        Some(CircuitModeType::Tch24N8)
    } else {
        None
    }
}

/// The communication type with raw code `raw`, if there is one.
pub open spec fn communication_type_from_raw(raw: u64) -> Option<CommunicationType> {
    if raw == 0 {
        Some(CommunicationType::P2p)
    } else if raw == 1 {
        Some(CommunicationType::P2Mp)
    } else if raw == 2 {
        Some(CommunicationType::P2MpAck)
    } else if raw == 3 {
        Some(CommunicationType::Broadcast)
    } else {
        None
    }
}

impl CircuitModeType {
    /// Decodes a raw circuit mode type.
    pub fn try_from_raw(raw: u64) -> (r: Option<CircuitModeType>)
        ensures
            r == circuit_mode_from_raw(raw),
    {
        match raw {
            0 => Some(CircuitModeType::TchS),
            1 => Some(CircuitModeType::Tch72),
            2 => Some(CircuitModeType::Tch48N1),
            3 => Some(CircuitModeType::Tch48N4),
            4 => Some(CircuitModeType::Tch48N8),
            5 => Some(CircuitModeType::Tch24N1),
            6 => Some(CircuitModeType::Tch24N4),
            7 => Some(CircuitModeType::Tch24N8),
            _ => None,
        }
    }
}

impl CommunicationType {
    /// Decodes a raw communication type.
    pub fn try_from_raw(raw: u64) -> (r: Option<CommunicationType>)
        ensures
            r == communication_type_from_raw(raw),
    {
        match raw {
            0 => Some(CommunicationType::P2p),
            1 => Some(CommunicationType::P2Mp),
            2 => Some(CommunicationType::P2MpAck),
            3 => Some(CommunicationType::Broadcast),
            _ => None,
        }
    }
}

/// The D-SETUP sent to the called station of a bridge-originated call.
#[derive(Clone, Copy, Debug, PartialEq, Eq, Structural)]
pub struct IncomingDSetup {
    pub call_time_out: CallTimeout,
    pub hook_method_selection: bool,
    pub simplex_duplex_selection: bool,
    pub basic_service_information: BasicServiceInformation,
    pub transmission_grant: TransmissionGrant,
    pub call_priority: u8,
    pub calling_party_address_ssi: u32,
    pub external_subscriber_number: Option<Type3FieldGeneric>,
}

/// The decision on a setup request of the network bridge.
#[derive(Clone, Copy, Debug, PartialEq, Eq, Structural)]
pub enum NetworkSetupOutcome {
    /// NetworkCircuitSetupReject with `cause` goes back to the bridge.
    Rejected { cause: DisconnectCause },
    /// NetworkCircuitSetupAccept goes back to the bridge, and `d_setup` to
    /// the called station, for call `call_id` on `circuit`.
    Accepted { call_id: u16, circuit: CmceCircuit, d_setup: IncomingDSetup },
}

/// Why the bridge's setup request `call` is refused before any circuit is
/// taken, if it is: no called ISSI, a called ISSI not registered here, a
/// pre-emptive priority (private call interruption is not offered), or a
/// called party already in a call (`busy`).
pub open spec fn network_setup_refusal(call: NetworkCircuitCall, registered: bool, busy: bool) -> Option<
    DisconnectCause,
> {
    if call.destination == 0 {
        Some(DisconnectCause::CalledPartyNotReachable)
    } else if !registered {
        Some(DisconnectCause::CalledPartyNotReachable)
    } else if 12 <= call.priority <= 15 {
        Some(DisconnectCause::RequestedServiceNotAvailable)
    } else if busy {
        Some(DisconnectCause::CalledPartyBusy)
    } else {
        None
    }
}

/// The call timeout of a bridge call: its own code unless that is reserved
/// or unknown, then five minutes.
pub open spec fn network_call_timeout(raw: u8) -> CallTimeout {
    match call_timeout_from_raw(raw as u64) {
        Some(CallTimeout::Reserved) | None => CallTimeout::T5m,
        Some(t) => t,
    }
}

/// The communication type of a bridge call; point-to-point when unknown.
pub open spec fn network_communication(call: NetworkCircuitCall) -> CommunicationType {
    match communication_type_from_raw(call.communication as u64) {
        Some(c) => c,
        None => CommunicationType::P2p,
    }
}

/// A bridge call is duplex when its duplex code is not 0.
pub open spec fn network_duplex(call: NetworkCircuitCall) -> bool {
    call.duplex != 0
}

/// The D-SETUP for the called station of bridge call `call`, with the
/// encoded external number `number`.
pub open spec fn incoming_d_setup(call: NetworkCircuitCall, number: Option<Type3FieldGeneric>) -> IncomingDSetup {
    IncomingDSetup {
        call_time_out: network_call_timeout(call.timeout),
        hook_method_selection: call.method != 0,
        simplex_duplex_selection: call.duplex != 0,
        basic_service_information: BasicServiceInformation {
            circuit_mode_type: match circuit_mode_from_raw(call.mode as u64) {
                Some(m) => m,
                None => CircuitModeType::TchS,
            },
            encryption_flag: false,
            communication_type: network_communication(call),
            slots_per_frame: None,
            speech_service: Some(call.service),
        },
        transmission_grant: TransmissionGrant::NotGranted,
        call_priority: call.priority,
        calling_party_address_ssi: call.source_issi,
        external_subscriber_number: number,
    }
}

/// The encoding of the dialled digits of `number`, as an external
/// subscriber number element.
pub open spec fn external_number_element(number: Seq<char>) -> Option<Type3FieldGeneric> {
    let ns = first_digits(dialled_nibbles(number));
    if ns.len() == 0 {
        None
    } else {
        Some(
            Type3FieldGeneric {
                field_id: EXT_SUBSCRIBER_NUM_ELEM_ID,
                len: (ns.len() * 4) as usize,
                data: pack_nibbles(ns) as u128,
            },
        )
    }
}

/// `c` is the record of a new call from the bridge, described by `call`,
/// to local station `call.destination` on `circuit`, set up at `now`.
pub open spec fn new_inbound_bridged_call(
    c: IndividualCall,
    call: NetworkCircuitCall,
    circuit: CmceCircuit,
    now: crate::tdma::TdmaTime,
    brew_uuid: u128,
) -> bool {
    c == IndividualCall {
        calling_addr: TetraAddress { ssi: call.source_issi, ssi_type: SsiType::Issi },
        called_addr: TetraAddress { ssi: call.destination, ssi_type: SsiType::Issi },
        calling_handle: 0,
        calling_link_id: 0,
        calling_endpoint_id: 0,
        called_handle: None,
        called_link_id: None,
        called_endpoint_id: None,
        calling_ts: circuit.ts,
        called_ts: circuit.ts,
        calling_usage: circuit.usage,
        called_usage: circuit.usage,
        simplex_duplex: call.duplex != 0,
        request_to_transmit_send_data: false,
        state: IndividualCallState::IncomingSetupPending,
        setup_timer_started: Some(now),
        setup_timeout: Some(CallTimeoutSetupPhase::T60s),
        active_timer_started: None,
        call_timeout: network_call_timeout(call.timeout),
        called_over_brew: false,
        calling_over_brew: true,
        brew_uuid: Some(brew_uuid),
        network_call: Some(call),
        connect_request_sent: false,
        floor_holder: None,
        last_floor_holder: None,
        queued_tx_demand: None,
    }
}

impl CcBsSubentity {
    /// Handles the bridge's request `call` (UUID `brew_uuid`) to set up a
    /// call to a local station. It is rejected for no or an unregistered
    /// called ISSI, a pre-emptive priority, a called party busy in a call
    /// or in a release still in progress (`pending_release_parties`), or when
    /// no circuit can be had (congestion). Otherwise a circuit and a call
    /// identifier that avoids the live ones (and `other_occupied`) are
    /// taken, the call recorded as incoming, and the D-SETUP returned.
    pub fn fsm_on_network_circuit_setup_request(
        &mut self,
        brew_uuid: u128,
        call: NetworkCircuitCall,
        pending_release_parties: &HashSet<u32>,
        other_occupied: &HashSet<u16>,
        timeslot_alloc: &mut TimeslotAllocator,
    ) -> (r: NetworkSetupOutcome)
        requires
            old(self).circuits.wf(),
        ensures
            old(self).individual_calls_wf() ==> final(self).individual_calls_wf(),
            final(self).circuits.wf(),
            *final(self) == (CcBsSubentity {
                circuits: final(self).circuits,
                individual_calls: final(self).individual_calls,
                ..*old(self)
            }),
            ({
                let calls = old(self).individual_calls@;
                let registered = old(self).subscriber_groups@.contains_key(call.destination);
                let busy = !calls_with_party(calls, call.destination).is_empty()
                    || pending_release_parties@.contains(call.destination);
                let unchanged = *final(self) == *old(self) && *final(timeslot_alloc) == *old(timeslot_alloc);
                let refusal = network_setup_refusal(call, registered, busy);
                if refusal is Some {
                    r == (NetworkSetupOutcome::Rejected { cause: refusal->0 }) && unchanged
                } else {
                    let occupied = occupied_ids(*old(self), other_occupied@);
                    match r {
                        NetworkSetupOutcome::Accepted { call_id, circuit, d_setup } => {
                            &&& call_id == circuit.call_id
                            &&& d_setup == incoming_d_setup(call, external_number_element(call.number@))
                            &&& CircuitMgr::allocation_outcome(
                                old(self).circuits,
                                old(timeslot_alloc).owners@,
                                Direction::Both,
                                network_communication(call),
                                network_duplex(call),
                                TimeslotOwner::Cmce,
                                occupied,
                                Ok::<CmceCircuit, CircuitErr>(circuit),
                                final(self).circuits,
                                final(timeslot_alloc).owners@,
                            )
                            &&& final(self).individual_calls@ == calls.insert(
                                call_id,
                                final(self).individual_calls@[call_id],
                            )
                            &&& new_inbound_bridged_call(
                                final(self).individual_calls@[call_id],
                                call,
                                circuit,
                                old(self).dltime,
                                brew_uuid,
                            )
                        },
                        NetworkSetupOutcome::Rejected { cause } => {
                            &&& cause == DisconnectCause::CongestionInInfrastructure
                            &&& final(self).individual_calls == old(self).individual_calls
                            &&& exists|err: CircuitErr|
                                #[trigger] CircuitMgr::allocation_outcome(
                                    old(self).circuits,
                                    old(timeslot_alloc).owners@,
                                    Direction::Both,
                                    network_communication(call),
                                    network_duplex(call),
                                    TimeslotOwner::Cmce,
                                    occupied,
                                    Err::<CmceCircuit, CircuitErr>(err),
                                    final(self).circuits,
                                    final(timeslot_alloc).owners@,
                                )
                        },
                    }
                }
            }),
    {
        if call.destination == 0 {
            return NetworkSetupOutcome::Rejected { cause: DisconnectCause::CalledPartyNotReachable };
        }
        if !self.subscriber_groups.contains_key(&call.destination) {
            return NetworkSetupOutcome::Rejected { cause: DisconnectCause::CalledPartyNotReachable };
        }
        if Self::is_preemptive_call_priority(call.priority) {
            return NetworkSetupOutcome::Rejected { cause: DisconnectCause::RequestedServiceNotAvailable };
        }
        if self.individual_call_party_busy(call.destination, pending_release_parties) {
            return NetworkSetupOutcome::Rejected { cause: DisconnectCause::CalledPartyBusy };
        }
        let communication = match CommunicationType::try_from_raw(call.communication as u64) {
            Some(c) => c,
            None => CommunicationType::P2p,
        };
        let simplex_duplex = call.duplex != 0;
        let occupied = self.occupied_call_ids(other_occupied);
        let ghost calls = self.individual_calls@;
        let circuit = match self.circuits.allocate_circuit_with_allocator_duplex_avoiding(
            Direction::Both,
            communication,
            simplex_duplex,
            timeslot_alloc,
            TimeslotOwner::Cmce,
            &occupied,
        ) {
            Ok(c) => c,
            Err(e) => {
                proof {
                    assert(occupied@ == occupied_ids(*old(self), other_occupied@));
                    assert(communication == network_communication(call));
                    assert(simplex_duplex == network_duplex(call));
                    assert(CircuitMgr::allocation_outcome(
                        old(self).circuits,
                        old(timeslot_alloc).owners@,
                        Direction::Both,
                        communication,
                        simplex_duplex,
                        TimeslotOwner::Cmce,
                        occupied_ids(*old(self), other_occupied@),
                        Err::<CmceCircuit, CircuitErr>(e),
                        self.circuits,
                        timeslot_alloc.owners@,
                    ));
                }
                return NetworkSetupOutcome::Rejected { cause: DisconnectCause::CongestionInInfrastructure };
            },
        };
        let call_id = circuit.call_id;
        let call_timeout = Self::network_circuit_call_timeout(call.timeout, CallTimeout::T5m);
        let hook_method_selection = Self::network_circuit_hook_method(call.method);
        let circuit_mode = match CircuitModeType::try_from_raw(call.mode as u64) {
            Some(m) => m,
            None => CircuitModeType::TchS,
        };
        let external_subscriber_number = Self::encode_external_subscriber_number(call.number.as_str());
        let d_setup = IncomingDSetup {
            call_time_out: call_timeout,
            hook_method_selection,
            simplex_duplex_selection: simplex_duplex,
            basic_service_information: BasicServiceInformation {
                circuit_mode_type: circuit_mode,
                encryption_flag: false,
                communication_type: communication,
                slots_per_frame: None,
                speech_service: Some(call.service),
            },
            transmission_grant: TransmissionGrant::NotGranted,
            call_priority: call.priority,
            calling_party_address_ssi: call.source_issi,
            external_subscriber_number,
        };
        let record = IndividualCall {
            calling_addr: TetraAddress { ssi: call.source_issi, ssi_type: SsiType::Issi },
            called_addr: TetraAddress { ssi: call.destination, ssi_type: SsiType::Issi },
            calling_handle: 0,
            calling_link_id: 0,
            calling_endpoint_id: 0,
            called_handle: None,
            called_link_id: None,
            called_endpoint_id: None,
            calling_ts: circuit.ts,
            called_ts: circuit.ts,
            calling_usage: circuit.usage,
            called_usage: circuit.usage,
            simplex_duplex,
            request_to_transmit_send_data: false,
            state: IndividualCallState::IncomingSetupPending,
            setup_timer_started: Some(self.dltime),
            setup_timeout: Some(CallTimeoutSetupPhase::T60s),
            active_timer_started: None,
            call_timeout,
            called_over_brew: false,
            calling_over_brew: true,
            brew_uuid: Some(brew_uuid),
            network_call: Some(call),
            connect_request_sent: false,
            floor_holder: None,
            last_floor_holder: None,
            queued_tx_demand: None,
        };
        proof {
            crate::individual_setup::lemma_allocated_id_unoccupied(
                old(self).circuits,
                old(timeslot_alloc).owners@,
                communication,
                simplex_duplex,
                occupied@,
                circuit,
                self.circuits,
                timeslot_alloc.owners@,
            );
        }
        let _ = self.fsm_individual_create_setup_call(call_id, record);
        proof {
            assert(self.individual_calls@ =~= calls.insert(call_id, self.individual_calls@[call_id]));
        }
        NetworkSetupOutcome::Accepted { call_id, circuit, d_setup }
    }
}

} // verus!
