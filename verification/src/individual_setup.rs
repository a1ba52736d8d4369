//! Individual (point-to-point) call setup from a U-SETUP of a local station
//! (EN 300 392-2 clause 14.5.1.1): rejection before a call identity exists,
//! hand-over to the echo service or the network bridge, or a new call with
//! its circuits and its call record waiting for the called station.

use std::collections::HashSet;
use vstd::prelude::*;

use crate::address::{SsiType, TetraAddress};
use crate::call::{CallTimeout, CallTimeoutSetupPhase, DisconnectCause, IndividualCall, IndividualCallState};
use crate::cc_bs::CcBsSubentity;
use crate::connect::BasicServiceInformation;
use crate::circuit_mgr::{CircuitErr, CircuitMgr, CircuitModeType, CmceCircuit, CommunicationType};
use crate::fsm::TransmissionGrant;
use crate::group_setup::occupied_ids;
use crate::sds::PartyTypeIdentifier;
use crate::subscribers::calls_with_party;
use crate::timeslots::{Direction, TimeslotAllocator, TimeslotOwner};
use crate::teardown::owners_released;

verus! {

broadcast use vstd::std_specs::hash::group_hash_axioms;

/// The ISSI of the echo test service.
pub const ECHO_ISSI: u32 = 999;

/// The part of an individual U-SETUP that setup decides on.
#[derive(Clone, Copy, Debug)]
pub struct P2pSetupRequest {
    pub call_priority: u8,
    pub called_party_type_identifier: PartyTypeIdentifier,
    pub called_party_ssi: Option<u32>,
    /// The PDU carries a called party short number address.
    pub has_called_party_short_number: bool,
    /// The MCC and MNC of a called TSI.
    pub called_party_extension: Option<u32>,
    /// The PDU carries an external subscriber number.
    pub has_external_subscriber_number: bool,
    pub hook_method_selection: bool,
    /// Full duplex when set.
    pub simplex_duplex_selection: bool,
    pub request_to_transmit_send_data: bool,
    pub communication_type: CommunicationType,
    pub circuit_mode_type: CircuitModeType,
    pub encryption_flag: bool,
    pub slots_per_frame: Option<u8>,
    pub speech_service: Option<u8>,
}

/// D-SETUP offering a new individual call to the called station
/// `dest_addr` (EN 300 392-2 clause 14.7.1.12).
#[derive(Clone, Copy, Debug, PartialEq, Eq, Structural)]
pub struct IndividualDSetup {
    pub dest_addr: TetraAddress,
    pub call_identifier: u16,
    pub call_time_out: CallTimeout,
    pub hook_method_selection: bool,
    /// Full duplex when set.
    pub simplex_duplex_selection: bool,
    pub basic_service_information: BasicServiceInformation,
    pub transmission_grant: TransmissionGrant,
    pub transmission_request_permission: bool,
    pub call_priority: u8,
    pub calling_party_address_ssi: Option<u32>,
}

/// The link the U-SETUP arrived on.
#[derive(Clone, Copy, Debug, PartialEq, Eq, Structural)]
pub struct UplinkContext {
    pub handle: u32,
    pub link_id: u32,
    pub endpoint_id: u32,
}

/// Cell configuration that individual setup reads.
#[derive(Clone, Copy, Debug)]
pub struct P2pSetupEnv {
    /// The network bridge is active.
    pub brew_active: bool,
    /// The cell's mobile country code.
    pub mcc: u16,
    /// The cell's mobile network code.
    pub mnc: u16,
    /// The called ISSI lies in the cell's configured local ranges.
    pub called_is_configured_local: bool,
    /// Configured call timeout of new calls.
    pub call_timeout: CallTimeout,
}

/// Decision on an individual U-SETUP.
#[derive(Clone, Copy, Debug)]
pub enum P2pSetupOutcome {
    /// D-RELEASE with `cause` and the dummy call identity to the caller.
    Rejected { cause: DisconnectCause },
    /// The echo test service takes the call.
    Echo,
    /// The call goes to `called_addr` through the network bridge.
    OverBrew { called_addr: TetraAddress },
    /// A new call `call_id` waits for the called station: D-CALL PROCEEDING
    /// to the caller, `d_setup` (whose grant is `setup_grant`) to the called
    /// station; the circuits are `calling` and, for duplex, `called`.
    Started {
        call_id: u16,
        calling: CmceCircuit,
        called: Option<CmceCircuit>,
        setup_grant: TransmissionGrant,
        d_setup: IndividualDSetup,
    },
}

/// D-CONNECT of the echo service to its caller.
#[derive(Clone, Copy, Debug, PartialEq, Eq, Structural)]
pub struct EchoDConnect {
    pub call_time_out: CallTimeout,
    pub hook_method_selection: bool,
    pub simplex_duplex_selection: bool,
    pub transmission_grant: TransmissionGrant,
}

/// Decision on a call to the echo service.
#[derive(Clone, Copy, Debug)]
pub enum EchoSetupOutcome {
    /// D-RELEASE with `cause` and the dummy call identity to the caller.
    Rejected { cause: DisconnectCause },
    /// The echo service answers call `call_id` on `circuit` (looped back):
    /// D-CALL PROCEEDING (10 s setup timeout), then `d_connect`, then the
    /// caller's floor grant.
    Answered { call_id: u16, circuit: CmceCircuit, d_connect: EchoDConnect },
}

/// `c` is the record of the echo call of `caller` on `circuit`, active
/// from `now` with the caller holding the floor.
pub open spec fn new_echo_call(
    c: IndividualCall,
    request: P2pSetupRequest,
    caller: TetraAddress,
    link: UplinkContext,
    circuit: CmceCircuit,
    now: crate::tdma::TdmaTime,
    call_timeout: CallTimeout,
) -> bool {
    c == IndividualCall {
        calling_addr: caller,
        called_addr: TetraAddress { ssi: ECHO_ISSI, ssi_type: SsiType::Issi },
        calling_handle: link.handle,
        calling_link_id: link.link_id,
        calling_endpoint_id: link.endpoint_id,
        called_handle: None,
        called_link_id: None,
        called_endpoint_id: None,
        calling_ts: circuit.ts,
        called_ts: circuit.ts,
        calling_usage: circuit.usage,
        called_usage: circuit.usage,
        simplex_duplex: request.simplex_duplex_selection,
        request_to_transmit_send_data: request.request_to_transmit_send_data,
        state: IndividualCallState::Active,
        setup_timer_started: None,
        setup_timeout: None,
        active_timer_started: Some(now),
        call_timeout,
        called_over_brew: false,
        calling_over_brew: false,
        brew_uuid: None,
        network_call: None,
        connect_request_sent: false,
        floor_holder: Some(caller.ssi),
        last_floor_holder: Some(caller.ssi),
        queued_tx_demand: None,
    }
}

/// The called party is addressed by ISSI (SSI or TSI).
pub open spec fn addressed_by_issi(request: P2pSetupRequest) -> bool {
    request.called_party_type_identifier == PartyTypeIdentifier::Ssi || request.called_party_type_identifier
        == PartyTypeIdentifier::Tsi
}

/// The mobile country code of a TSI extension.
pub open spec fn extension_mcc(extension: u32) -> u32 {
    (extension >> 14u32) & 0x3ff
}

/// The mobile network code of a TSI extension.
pub open spec fn extension_mnc(extension: u32) -> u32 {
    extension & 0x3fff
}

/// The cause with which the request is refused before any call state is
/// looked at, if it is: pre-emptive priority, a non-ISSI address without the
/// bridge, malformed called party fields, a foreign or incomplete TSI, or
/// no called party at all.
pub open spec fn p2p_request_refusal(request: P2pSetupRequest, env: P2pSetupEnv) -> Option<DisconnectCause> {
    let issi = addressed_by_issi(request);
    let called = match request.called_party_ssi {
        Some(s) => s,
        None => 0,
    };
    if 12 <= request.call_priority <= 15 {
        Some(DisconnectCause::RequestedServiceNotAvailable)
    } else if !issi && !env.brew_active {
        Some(DisconnectCause::RequestedServiceNotAvailable)
    } else if issi && (request.has_called_party_short_number || (request.called_party_extension is Some
        && request.called_party_type_identifier != PartyTypeIdentifier::Tsi)) {
        Some(DisconnectCause::RequestedServiceNotAvailable)
    } else if request.called_party_type_identifier == PartyTypeIdentifier::Tsi && (request.called_party_extension
        is None || extension_mcc(request.called_party_extension->0) != env.mcc || extension_mnc(
        request.called_party_extension->0,
    ) != env.mnc) {
        Some(DisconnectCause::RequestedServiceNotAvailable)
    } else if called == 0 && !(request.has_external_subscriber_number || request.has_called_party_short_number) {
        Some(DisconnectCause::RequestedServiceNotAvailable)
    } else {
        None
    }
}

/// The grant announced in the D-SETUP to the called station.
pub open spec fn p2p_setup_grant(request: P2pSetupRequest) -> TransmissionGrant {
    if !request.simplex_duplex_selection && request.hook_method_selection && request.request_to_transmit_send_data {
        TransmissionGrant::Granted
    } else if !request.simplex_duplex_selection && request.hook_method_selection {
        TransmissionGrant::GrantedToOtherUser
    } else {
        TransmissionGrant::NotGranted
    }
}

/// The D-SETUP that offers call `call_id` of `caller` to `called`: a
/// duplex call has no call timeout, a simplex one the configured
/// `call_timeout`; the grant is `p2p_setup_grant`, and the caller is named
/// by its SSI.
pub open spec fn p2p_d_setup(
    request: P2pSetupRequest,
    caller: TetraAddress,
    called: TetraAddress,
    call_id: u16,
    call_timeout: CallTimeout,
) -> IndividualDSetup {
    IndividualDSetup {
        dest_addr: called,
        call_identifier: call_id,
        call_time_out: if request.simplex_duplex_selection {
            CallTimeout::Infinite
        } else {
            call_timeout
        },
        hook_method_selection: request.hook_method_selection,
        simplex_duplex_selection: request.simplex_duplex_selection,
        basic_service_information: BasicServiceInformation {
            circuit_mode_type: request.circuit_mode_type,
            encryption_flag: request.encryption_flag,
            communication_type: request.communication_type,
            slots_per_frame: request.slots_per_frame,
            speech_service: request.speech_service,
        },
        transmission_grant: p2p_setup_grant(request),
        transmission_request_permission: false,
        call_priority: request.call_priority,
        calling_party_address_ssi: Some(caller.ssi),
    }
}

/// Outcome of an individual U-SETUP (see [`CcBsSubentity::fsm_on_u_setup_p2p`]):
/// `before`/`after` are the sub-entity and `alloc_before`/`alloc_after` the
/// timeslot allocator before and after the setup that answered `r`.
pub open spec fn p2p_setup_done(
    before: CcBsSubentity,
    after: CcBsSubentity,
    alloc_before: TimeslotAllocator,
    alloc_after: TimeslotAllocator,
    request: P2pSetupRequest,
    calling_party: TetraAddress,
    link: UplinkContext,
    env: P2pSetupEnv,
    pending_release_parties: Set<u32>,
    other_occupied: Set<u16>,
    r: P2pSetupOutcome,
) -> bool {
    let called = match request.called_party_ssi {
        Some(s) => s,
        None => 0,
    };
    let called_addr = TetraAddress { ssi: called, ssi_type: SsiType::Issi };
    let calls = before.individual_calls@;
    let caller_busy = !calls_with_party(calls, calling_party.ssi).is_empty()
        || pending_release_parties.contains(calling_party.ssi);
    let called_busy = !calls_with_party(calls, called).is_empty() || pending_release_parties.contains(
        called,
    );
    let unchanged = after == before && alloc_after == alloc_before;
    if p2p_request_refusal(request, env) is Some {
        r == (P2pSetupOutcome::Rejected { cause: p2p_request_refusal(request, env)->0 }) && unchanged
    } else if caller_busy {
        r == (P2pSetupOutcome::Rejected { cause: DisconnectCause::NoIdleCcEntity }) && unchanged
    } else if called == ECHO_ISSI {
        r == P2pSetupOutcome::Echo && unchanged
    } else if called == 0 {
        r == (P2pSetupOutcome::OverBrew { called_addr }) && unchanged
    } else if !before.subscriber_groups@.contains_key(called) {
        unchanged && r == if env.called_is_configured_local {
            P2pSetupOutcome::Rejected { cause: DisconnectCause::CalledPartyNotReachable }
        } else {
            P2pSetupOutcome::OverBrew { called_addr }
        }
    } else if called_busy {
        r == (P2pSetupOutcome::Rejected { cause: DisconnectCause::CalledPartyBusy }) && unchanged
    } else {
        let occupied = occupied_ids(before, other_occupied);
        match r {
            P2pSetupOutcome::Started { call_id, calling, called: called_circuit, setup_grant, d_setup } => {
                &&& call_id == calling.call_id
                &&& setup_grant == p2p_setup_grant(request)
                &&& d_setup == p2p_d_setup(request, calling_party, called_addr, call_id, env.call_timeout)
                &&& (called_circuit is Some <==> request.simplex_duplex_selection)
                &&& exists|mid: CircuitMgr, mid_alloc: Seq<Option<TimeslotOwner>>|
                    #[trigger] CircuitMgr::allocation_outcome(
                        before.circuits,
                        alloc_before.owners@,
                        Direction::Both,
                        request.communication_type,
                        request.simplex_duplex_selection,
                        TimeslotOwner::Cmce,
                        occupied,
                        Ok::<CmceCircuit, CircuitErr>(calling),
                        mid,
                        mid_alloc,
                    ) && match called_circuit {
                        Some(second) => CircuitMgr::call_allocation_outcome(
                            mid,
                            mid_alloc,
                            call_id,
                            Direction::Both,
                            request.communication_type,
                            request.simplex_duplex_selection,
                            TimeslotOwner::Cmce,
                            Ok::<CmceCircuit, CircuitErr>(second),
                            after.circuits,
                            alloc_after.owners@,
                        ),
                        None => after.circuits == mid && alloc_after.owners@ == mid_alloc,
                    }
                &&& after.individual_calls@ == calls.insert(
                    call_id,
                    after.individual_calls@[call_id],
                )
                &&& new_local_individual_call(
                    after.individual_calls@[call_id],
                    request,
                    calling_party,
                    called_addr,
                    link,
                    calling,
                    called_circuit,
                    before.dltime,
                    env.call_timeout,
                )
            },
            P2pSetupOutcome::Rejected { cause } => {
                &&& cause == DisconnectCause::CongestionInInfrastructure
                &&& after.individual_calls == before.individual_calls
                &&& p2p_congestion_state(
                    before.circuits,
                    alloc_before.owners@,
                    request,
                    occupied,
                    after.circuits,
                    alloc_after.owners@,
                )
            },
            _ => false,
        }
    }
}

/// The D-SETUP offering a new individual call to the called station: in a
/// simplex call with on/off-hook signalling the called station is granted
/// the floor when the caller asked it to talk first and is told that the
/// other user has it otherwise; a duplex or direct-signalling call carries
/// no grant. The setup grant is the one the D-SETUP carries. A duplex call
/// has no call timeout, a simplex one the configured timeout; the D-SETUP
/// goes to the called station, names the call and the caller's SSI, and
/// grants no transmission request permission.
pub proof fn lemma_p2p_d_setup_offer(
    request: P2pSetupRequest,
    caller: TetraAddress,
    called: TetraAddress,
    call_id: u16,
    call_timeout: CallTimeout,
)
    ensures
        ({
            let d = p2p_d_setup(request, caller, called, call_id, call_timeout);
            let simplex_hook = !request.simplex_duplex_selection && request.hook_method_selection;
            &&& d.transmission_grant == p2p_setup_grant(request)
            &&& simplex_hook && request.request_to_transmit_send_data ==> d.transmission_grant
                == TransmissionGrant::Granted
            &&& simplex_hook && !request.request_to_transmit_send_data ==> d.transmission_grant
                == TransmissionGrant::GrantedToOtherUser
            &&& !simplex_hook ==> d.transmission_grant == TransmissionGrant::NotGranted
            &&& request.simplex_duplex_selection ==> d.call_time_out == CallTimeout::Infinite
            &&& !request.simplex_duplex_selection ==> d.call_time_out == call_timeout
            &&& d.dest_addr == called
            &&& d.call_identifier == call_id
            &&& d.calling_party_address_ssi == Some(caller.ssi)
            &&& !d.transmission_request_permission
            &&& d.hook_method_selection == request.hook_method_selection
            &&& d.simplex_duplex_selection == request.simplex_duplex_selection
            &&& d.call_priority == request.call_priority
            &&& d.basic_service_information.communication_type == request.communication_type
            &&& d.basic_service_information.circuit_mode_type == request.circuit_mode_type
            &&& d.basic_service_information.encryption_flag == request.encryption_flag
            &&& d.basic_service_information.slots_per_frame == request.slots_per_frame
            &&& d.basic_service_information.speech_service == request.speech_service
        }),
{
}

/// `c` is the record of a new local individual call from `caller` to
/// `called` on the given timeslots and usages, set up at `now`.
pub open spec fn new_local_individual_call(
    c: IndividualCall,
    request: P2pSetupRequest,
    caller: TetraAddress,
    called: TetraAddress,
    link: UplinkContext,
    calling: CmceCircuit,
    called_circuit: Option<CmceCircuit>,
    now: crate::tdma::TdmaTime,
    call_timeout: CallTimeout,
) -> bool {
    &&& c.calling_addr == caller
    &&& c.called_addr == called
    &&& c.calling_handle == link.handle
    &&& c.calling_link_id == link.link_id
    &&& c.calling_endpoint_id == link.endpoint_id
    &&& c.called_handle is None && c.called_link_id is None && c.called_endpoint_id is None
    &&& c.calling_ts == calling.ts
    &&& c.calling_usage == calling.usage
    &&& c.called_ts == match called_circuit {
        Some(cc) => cc.ts,
        None => calling.ts,
    }
    &&& c.called_usage == match called_circuit {
        Some(cc) => cc.usage,
        None => calling.usage,
    }
    &&& c.simplex_duplex == request.simplex_duplex_selection
    &&& c.request_to_transmit_send_data == request.request_to_transmit_send_data
    &&& c.state == IndividualCallState::CallSetupPending
    &&& c.setup_timer_started == Some(now)
    &&& c.setup_timeout == Some(CallTimeoutSetupPhase::T60s)
    &&& c.active_timer_started is None
    &&& c.call_timeout == call_timeout
    &&& !c.called_over_brew && !c.calling_over_brew
    &&& c.brew_uuid is None && c.network_call is None
    &&& !c.connect_request_sent
    &&& c.floor_holder is None && c.last_floor_holder is None && c.queued_tx_demand is None
}

/// Circuits `after` (timeslot owners `alloc_after`) after an individual
/// setup ran into congestion from `before` (`alloc_before`): either the
/// caller's circuit could not be allocated, or it was and the called
/// party's could not, and the caller's circuits (both directions) were
/// then closed and its timeslot given back (a timeslot taken for the failed second circuit
/// stays taken).
pub open spec fn p2p_congestion_state(
    before: CircuitMgr,
    alloc_before: Seq<Option<TimeslotOwner>>,
    request: P2pSetupRequest,
    occupied: Set<u16>,
    after: CircuitMgr,
    alloc_after: Seq<Option<TimeslotOwner>>,
) -> bool {
    ||| exists|e: CircuitErr|
        #[trigger] CircuitMgr::allocation_outcome(
            before,
            alloc_before,
            Direction::Both,
            request.communication_type,
            request.simplex_duplex_selection,
            TimeslotOwner::Cmce,
            occupied,
            Err::<CmceCircuit, CircuitErr>(e),
            after,
            alloc_after,
        )
    ||| exists|
        calling: CmceCircuit,
        mid: CircuitMgr,
        mid_alloc: Seq<Option<TimeslotOwner>>,
        e: CircuitErr,
        mid2: CircuitMgr,
        mid2_alloc: Seq<Option<TimeslotOwner>>,
    |
        #![trigger CircuitMgr::allocation_outcome(before, alloc_before, Direction::Both, request.communication_type, request.simplex_duplex_selection, TimeslotOwner::Cmce, occupied, Ok::<CmceCircuit, CircuitErr>(calling), mid, mid_alloc), CircuitMgr::call_allocation_outcome(mid, mid_alloc, calling.call_id, Direction::Both, request.communication_type, request.simplex_duplex_selection, TimeslotOwner::Cmce, Err::<CmceCircuit, CircuitErr>(e), mid2, mid2_alloc)]
        request.simplex_duplex_selection && CircuitMgr::allocation_outcome(
            before,
            alloc_before,
            Direction::Both,
            request.communication_type,
            request.simplex_duplex_selection,
            TimeslotOwner::Cmce,
            occupied,
            Ok::<CmceCircuit, CircuitErr>(calling),
            mid,
            mid_alloc,
        ) && CircuitMgr::call_allocation_outcome(
            mid,
            mid_alloc,
            calling.call_id,
            Direction::Both,
            request.communication_type,
            request.simplex_duplex_selection,
            TimeslotOwner::Cmce,
            Err::<CmceCircuit, CircuitErr>(e),
            mid2,
            mid2_alloc,
        ) && 1 <= calling.ts <= 4 && after.dl@ == mid2.dl@.update(calling.ts - 1, None) && after.ul_only@
            == mid2.ul_only@.update(calling.ts - 1, None) && after.dltime == mid2.dltime && after.next_call_identifier == mid2.next_call_identifier
            && after.next_usage_number == mid2.next_usage_number && alloc_after == owners_released(
            mid2_alloc,
            calling.ts,
        )
}

impl CcBsSubentity {
    /// Station `issi` takes part in an individual call or in one whose
    /// release is pending (`pending_release_parties`).
    pub fn individual_call_party_busy(&self, issi: u32, pending_release_parties: &HashSet<u32>) -> (r: bool)
        ensures
            r == (!calls_with_party(self.individual_calls@, issi).is_empty() || pending_release_parties@.contains(
                issi,
            )),
    {
        let ids = self.individual_call_ids_with_party(issi);
        proof {
            if ids@.len() > 0 {
                assert(ids@.to_set().contains(ids@[0]));
            } else {
                assert(ids@.to_set() =~= Set::<u16>::empty());
            }
        }
        ids.len() > 0 || pending_release_parties.contains(&issi)
    }

    /// The echo service answers a call of `calling_party` (link `link`):
    /// refused as busy while another echo call runs (`echo_busy`), or for
    /// congestion when no circuit can be had. Otherwise one circuit with a
    /// call identifier that avoids the live ones (and `other_occupied`) is
    /// taken and the call recorded as active with the caller talking; a
    /// simplex call gets `call_timeout`, a duplex call none.
    pub fn fsm_on_u_setup_echo(
        &mut self,
        request: P2pSetupRequest,
        calling_party: TetraAddress,
        link: UplinkContext,
        echo_busy: bool,
        call_timeout: CallTimeout,
        other_occupied: &HashSet<u16>,
        timeslot_alloc: &mut TimeslotAllocator,
    ) -> (r: EchoSetupOutcome)
        requires
            old(self).circuits.wf(),
        ensures
            old(self).individual_calls_wf() ==> final(self).individual_calls_wf(),
            final(self).circuits.wf(),
            *final(self) == (CcBsSubentity {
                circuits: final(self).circuits,
                individual_calls: final(self).individual_calls,
                ..*old(self)
            }),
            ({
                let calls = old(self).individual_calls@;
                let unchanged = *final(self) == *old(self) && *final(timeslot_alloc) == *old(timeslot_alloc);
                let occupied = occupied_ids(*old(self), other_occupied@);
                if echo_busy {
                    r == (EchoSetupOutcome::Rejected { cause: DisconnectCause::CalledPartyBusy }) && unchanged
                } else {
                    match r {
                        EchoSetupOutcome::Answered { call_id, circuit, d_connect } => {
                            &&& call_id == circuit.call_id
                            &&& d_connect == (EchoDConnect {
                                call_time_out: if request.simplex_duplex_selection {
                                    CallTimeout::Infinite
                                } else {
                                    call_timeout
                                },
                                hook_method_selection: request.hook_method_selection,
                                simplex_duplex_selection: request.simplex_duplex_selection,
                                transmission_grant: TransmissionGrant::Granted,
                            })
                            &&& CircuitMgr::allocation_outcome(
                                old(self).circuits,
                                old(timeslot_alloc).owners@,
                                Direction::Both,
                                request.communication_type,
                                false,
                                TimeslotOwner::Cmce,
                                occupied,
                                Ok::<CmceCircuit, CircuitErr>(circuit),
                                final(self).circuits,
                                final(timeslot_alloc).owners@,
                            )
                            &&& !calls.contains_key(call_id)
                            &&& final(self).individual_calls@ == calls.insert(
                                call_id,
                                final(self).individual_calls@[call_id],
                            )
                            &&& new_echo_call(
                                final(self).individual_calls@[call_id],
                                request,
                                calling_party,
                                link,
                                circuit,
                                old(self).dltime,
                                call_timeout,
                            )
                        },
                        EchoSetupOutcome::Rejected { cause } => {
                            &&& cause == DisconnectCause::CongestionInInfrastructure
                            &&& final(self).individual_calls == old(self).individual_calls
                            &&& exists|err: CircuitErr|
                                #[trigger] CircuitMgr::allocation_outcome(
                                    old(self).circuits,
                                    old(timeslot_alloc).owners@,
                                    Direction::Both,
                                    request.communication_type,
                                    false,
                                    TimeslotOwner::Cmce,
                                    occupied,
                                    Err::<CmceCircuit, CircuitErr>(err),
                                    final(self).circuits,
                                    final(timeslot_alloc).owners@,
                                )
                        },
                    }
                }
            }),
    {
        if echo_busy {
            return EchoSetupOutcome::Rejected { cause: DisconnectCause::CalledPartyBusy };
        }
        let occupied = self.occupied_call_ids(other_occupied);
        let ghost calls = self.individual_calls@;
        let circuit = match self.circuits.allocate_circuit_with_allocator_duplex_avoiding(
            Direction::Both,
            request.communication_type,
            false,
            timeslot_alloc,
            TimeslotOwner::Cmce,
            &occupied,
        ) {
            Ok(c) => c,
            Err(e) => {
                proof {
                    assert(occupied@ == occupied_ids(*old(self), other_occupied@));
                }
                return EchoSetupOutcome::Rejected { cause: DisconnectCause::CongestionInInfrastructure };
            },
        };
        let call_id = circuit.call_id;
        let d_connect = EchoDConnect {
            call_time_out: if request.simplex_duplex_selection {
                CallTimeout::Infinite
            } else {
                call_timeout
            },
            hook_method_selection: request.hook_method_selection,
            simplex_duplex_selection: request.simplex_duplex_selection,
            transmission_grant: TransmissionGrant::Granted,
        };
        let call = IndividualCall {
            calling_addr: calling_party,
            called_addr: TetraAddress { ssi: ECHO_ISSI, ssi_type: SsiType::Issi },
            calling_handle: link.handle,
            calling_link_id: link.link_id,
            calling_endpoint_id: link.endpoint_id,
            called_handle: None,
            called_link_id: None,
            called_endpoint_id: None,
            calling_ts: circuit.ts,
            called_ts: circuit.ts,
            calling_usage: circuit.usage,
            called_usage: circuit.usage,
            simplex_duplex: request.simplex_duplex_selection,
            request_to_transmit_send_data: request.request_to_transmit_send_data,
            state: IndividualCallState::Active,
            setup_timer_started: None,
            setup_timeout: None,
            active_timer_started: Some(self.dltime),
            call_timeout,
            called_over_brew: false,
            calling_over_brew: false,
            brew_uuid: None,
            network_call: None,
            connect_request_sent: false,
            floor_holder: Some(calling_party.ssi),
            last_floor_holder: Some(calling_party.ssi),
            queued_tx_demand: None,
        };
        proof {
            lemma_allocated_id_unoccupied(
                old(self).circuits,
                old(timeslot_alloc).owners@,
                request.communication_type,
                false,
                occupied@,
                circuit,
                self.circuits,
                timeslot_alloc.owners@,
            );
        }
        self.individual_calls.insert(call_id, call);
        proof {
            assert(self.individual_calls@ =~= calls.insert(call_id, self.individual_calls@[call_id]));
        }
        EchoSetupOutcome::Answered { call_id, circuit, d_connect }
    }

    /// Handles an individual U-SETUP from `calling_party` on `link`
    /// (EN 300 392-2 clause 14.5.1.1). `pending_release_parties` are the
    /// parties of calls whose release is pending, `other_occupied` the call
    /// identifiers held by other pending procedures.
    pub fn fsm_on_u_setup_p2p(
        &mut self,
        request: P2pSetupRequest,
        calling_party: TetraAddress,
        link: UplinkContext,
        env: P2pSetupEnv,
        pending_release_parties: &HashSet<u32>,
        other_occupied: &HashSet<u16>,
        timeslot_alloc: &mut TimeslotAllocator,
    ) -> (r: P2pSetupOutcome)
        requires
            old(self).circuits.wf(),
        ensures
            old(self).individual_calls_wf() ==> final(self).individual_calls_wf(),
            final(self).circuits.wf(),
            *final(self) == (CcBsSubentity {
                circuits: final(self).circuits,
                individual_calls: final(self).individual_calls,
                ..*old(self)
            }),
            p2p_setup_done(
                *old(self),
                *final(self),
                *old(timeslot_alloc),
                *final(timeslot_alloc),
                request,
                calling_party,
                link,
                env,
                pending_release_parties@,
                other_occupied@,
                r,
            ),
    {
        if Self::is_preemptive_call_priority(request.call_priority) {
            return P2pSetupOutcome::Rejected { cause: DisconnectCause::RequestedServiceNotAvailable };
        }
        let is_issi_address = match request.called_party_type_identifier {
            PartyTypeIdentifier::Ssi | PartyTypeIdentifier::Tsi => true,
            _ => false,
        };
        let is_tsi = match request.called_party_type_identifier {
            PartyTypeIdentifier::Tsi => true,
            _ => false,
        };
        if !is_issi_address && !env.brew_active {
            return P2pSetupOutcome::Rejected { cause: DisconnectCause::RequestedServiceNotAvailable };
        }
        if is_issi_address && (request.has_called_party_short_number || (request.called_party_extension.is_some()
            && !is_tsi)) {
            return P2pSetupOutcome::Rejected { cause: DisconnectCause::RequestedServiceNotAvailable };
        }
        if is_tsi {
            let extension = match request.called_party_extension {
                Some(e) => e,
                None => {
                    return P2pSetupOutcome::Rejected { cause: DisconnectCause::RequestedServiceNotAvailable };
                },
            };
            let called_mcc = (extension >> 14u32) & 0x3ff;
            let called_mnc = extension & 0x3fff;
            if called_mcc != env.mcc as u32 || called_mnc != env.mnc as u32 {
                return P2pSetupOutcome::Rejected { cause: DisconnectCause::RequestedServiceNotAvailable };
            }
        }
        let called_ssi = match request.called_party_ssi {
            Some(s) => s,
            None => 0,
        };
        let has_external_number = request.has_external_subscriber_number || request.has_called_party_short_number;
        if called_ssi == 0 && !has_external_number {
            return P2pSetupOutcome::Rejected { cause: DisconnectCause::RequestedServiceNotAvailable };
        }
        let called_addr = TetraAddress { ssi: called_ssi, ssi_type: SsiType::Issi };
        if self.individual_call_party_busy(calling_party.ssi, pending_release_parties) {
            return P2pSetupOutcome::Rejected { cause: DisconnectCause::NoIdleCcEntity };
        }
        if called_ssi == ECHO_ISSI {
            return P2pSetupOutcome::Echo;
        }
        if called_ssi == 0 {
            return P2pSetupOutcome::OverBrew { called_addr };
        }
        if !self.subscriber_groups.contains_key(&called_ssi) {
            if env.called_is_configured_local {
                return P2pSetupOutcome::Rejected { cause: DisconnectCause::CalledPartyNotReachable };
            }
            return P2pSetupOutcome::OverBrew { called_addr };
        }
        if self.individual_call_party_busy(called_ssi, pending_release_parties) {
            return P2pSetupOutcome::Rejected { cause: DisconnectCause::CalledPartyBusy };
        }
        let occupied = self.occupied_call_ids(other_occupied);
        let ghost calls = self.individual_calls@;
        let calling = match self.circuits.allocate_circuit_with_allocator_duplex_avoiding(
            Direction::Both,
            request.communication_type,
            request.simplex_duplex_selection,
            timeslot_alloc,
            TimeslotOwner::Cmce,
            &occupied,
        ) {
            Ok(c) => c,
            Err(_) => {
                return P2pSetupOutcome::Rejected { cause: DisconnectCause::CongestionInInfrastructure };
            },
        };
        let ghost mid = self.circuits;
        let ghost mid_alloc = timeslot_alloc.owners@;
        let call_id = calling.call_id;
        let called_circuit = if request.simplex_duplex_selection {
            match self.circuits.allocate_circuit_for_call_with_allocator(
                call_id,
                Direction::Both,
                request.communication_type,
                request.simplex_duplex_selection,
                timeslot_alloc,
                TimeslotOwner::Cmce,
            ) {
                Ok(c) => Some(c),
                Err(_) => {
                    proof {
                        assert(1 <= calling.ts <= 4) by {
                            lemma_allocated_ts_in_range(
                                old(self).circuits,
                                old(timeslot_alloc).owners@,
                                request.communication_type,
                                request.simplex_duplex_selection,
                                occupied@,
                                calling,
                                mid,
                                mid_alloc,
                            );
                        }
                    }
                    let _ = self.circuits.close_circuit(Direction::Both, calling.ts);
                    let _ = timeslot_alloc.release(TimeslotOwner::Cmce, calling.ts);
                    return P2pSetupOutcome::Rejected { cause: DisconnectCause::CongestionInInfrastructure };
                },
            }
        } else {
            None
        };
        let (called_ts, called_usage) = match called_circuit {
            Some(c) => (c.ts, c.usage),
            None => (calling.ts, calling.usage),
        };
        let setup_grant = if !request.simplex_duplex_selection && request.hook_method_selection
            && Self::private_simplex_called_ms_transmits_first(
            request.simplex_duplex_selection,
            request.hook_method_selection,
            request.request_to_transmit_send_data,
        ) {
            TransmissionGrant::Granted
        } else if !request.simplex_duplex_selection && request.hook_method_selection {
            TransmissionGrant::GrantedToOtherUser
        } else {
            TransmissionGrant::NotGranted
        };
        let call = IndividualCall {
            calling_addr: calling_party,
            called_addr,
            calling_handle: link.handle,
            calling_link_id: link.link_id,
            calling_endpoint_id: link.endpoint_id,
            called_handle: None,
            called_link_id: None,
            called_endpoint_id: None,
            calling_ts: calling.ts,
            called_ts,
            calling_usage: calling.usage,
            called_usage,
            simplex_duplex: request.simplex_duplex_selection,
            request_to_transmit_send_data: request.request_to_transmit_send_data,
            state: IndividualCallState::CallSetupPending,
            setup_timer_started: Some(self.dltime),
            setup_timeout: Some(CallTimeoutSetupPhase::T60s),
            active_timer_started: None,
            call_timeout: env.call_timeout,
            called_over_brew: false,
            calling_over_brew: false,
            brew_uuid: None,
            network_call: None,
            connect_request_sent: false,
            floor_holder: None,
            last_floor_holder: None,
            queued_tx_demand: None,
        };
        proof {
            lemma_allocated_id_unoccupied(
                old(self).circuits,
                old(timeslot_alloc).owners@,
                request.communication_type,
                request.simplex_duplex_selection,
                occupied@,
                calling,
                mid,
                mid_alloc,
            );
            assert(!calls.contains_key(call_id));
        }
        let _ = self.fsm_individual_create_setup_call(call_id, call);
        proof {
            assert(occupied@ == occupied_ids(*old(self), other_occupied@));
            assert(CircuitMgr::allocation_outcome(
                old(self).circuits,
                old(timeslot_alloc).owners@,
                Direction::Both,
                request.communication_type,
                request.simplex_duplex_selection,
                TimeslotOwner::Cmce,
                occupied_ids(*old(self), other_occupied@),
                Ok::<CmceCircuit, CircuitErr>(calling),
                mid,
                mid_alloc,
            ));
            assert(self.individual_calls@ =~= calls.insert(call_id, self.individual_calls@[call_id]));
        }
        let d_setup = Self::p2p_d_setup(request, calling_party, called_addr, call_id, env.call_timeout);
        P2pSetupOutcome::Started { call_id, calling, called: called_circuit, setup_grant, d_setup }
    }

    /// The D-SETUP offering call `call_id` of `caller` to `called`.
    pub fn p2p_d_setup(
        request: P2pSetupRequest,
        caller: TetraAddress,
        called: TetraAddress,
        call_id: u16,
        call_timeout: CallTimeout,
    ) -> (r: IndividualDSetup)
        ensures
            r == p2p_d_setup(request, caller, called, call_id, call_timeout),
    {
        let transmission_grant = if !request.simplex_duplex_selection && request.hook_method_selection
            && request.request_to_transmit_send_data {
            TransmissionGrant::Granted
        } else if !request.simplex_duplex_selection && request.hook_method_selection {
            TransmissionGrant::GrantedToOtherUser
        } else {
            TransmissionGrant::NotGranted
        };
        IndividualDSetup {
            dest_addr: called,
            call_identifier: call_id,
            call_time_out: if request.simplex_duplex_selection {
                CallTimeout::Infinite
            } else {
                call_timeout
            },
            hook_method_selection: request.hook_method_selection,
            simplex_duplex_selection: request.simplex_duplex_selection,
            basic_service_information: BasicServiceInformation {
                circuit_mode_type: request.circuit_mode_type,
                encryption_flag: request.encryption_flag,
                communication_type: request.communication_type,
                slots_per_frame: request.slots_per_frame,
                speech_service: request.speech_service,
            },
            transmission_grant,
            transmission_request_permission: false,
            call_priority: request.call_priority,
            calling_party_address_ssi: Some(caller.ssi),
        }
    }
}

/// A circuit that an allocation opens lies on a traffic timeslot.
proof fn lemma_allocated_ts_in_range(
    before: CircuitMgr,
    alloc_before: Seq<Option<TimeslotOwner>>,
    comm_type: CommunicationType,
    simplex_duplex: bool,
    occupied: Set<u16>,
    c: CmceCircuit,
    after: CircuitMgr,
    alloc_after: Seq<Option<TimeslotOwner>>,
)
    requires
        CircuitMgr::allocation_outcome(
            before,
            alloc_before,
            Direction::Both,
            comm_type,
            simplex_duplex,
            TimeslotOwner::Cmce,
            occupied,
            Ok::<CmceCircuit, CircuitErr>(c),
            after,
            alloc_after,
        ),
    ensures
        2 <= c.ts <= 4,
{
}

/// A circuit that an allocation opens carries an unoccupied call identifier.
pub(crate) proof fn lemma_allocated_id_unoccupied(
    before: CircuitMgr,
    alloc_before: Seq<Option<TimeslotOwner>>,
    comm_type: CommunicationType,
    simplex_duplex: bool,
    occupied: Set<u16>,
    c: CmceCircuit,
    after: CircuitMgr,
    alloc_after: Seq<Option<TimeslotOwner>>,
)
    requires
        CircuitMgr::allocation_outcome(
            before,
            alloc_before,
            Direction::Both,
            comm_type,
            simplex_duplex,
            TimeslotOwner::Cmce,
            occupied,
            Ok::<CmceCircuit, CircuitErr>(c),
            after,
            alloc_after,
        ),
    ensures
        !occupied.contains(c.call_id),
{
}

} // verus!
