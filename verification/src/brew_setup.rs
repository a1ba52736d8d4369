//! Individual calls set up through the network bridge: the bridge's call
//! description built from a U-SETUP, and the decision to forward the setup
//! with the local circuit and call record it needs.

use std::collections::HashSet;
use vstd::prelude::*;

use crate::address::TetraAddress;
use crate::call::{CallTimeout, CallTimeoutSetupPhase, DisconnectCause, IndividualCall, IndividualCallState, NetworkCircuitCall};
use crate::cc_bs::CcBsSubentity;
use crate::circuit_mgr::{CircuitErr, CircuitMgr, CircuitModeType, CmceCircuit, CommunicationType};
use crate::ext_number::{Type3FieldGeneric, decimal_string, decimal_string_of, digit_count, unpacked_digits};
use crate::group_setup::occupied_ids;
use crate::individual_setup::UplinkContext;
use crate::timeslots::{Direction, TimeslotAllocator, TimeslotOwner};

verus! {

broadcast use vstd::std_specs::hash::group_hash_axioms;

/// Called numbers below this are short service numbers of the bridge.
pub const SHORT_SERVICE_NUMBER_LIMIT: u32 = 1_000_000;

/// The part of a U-SETUP the network bridge needs.
#[derive(Clone, Copy, Debug)]
pub struct BrewSetupPdu {
    pub called_party_ssi: Option<u32>,
    pub external_subscriber_number: Option<Type3FieldGeneric>,
    pub has_called_party_short_number: bool,
    pub call_priority: u8,
    pub speech_service: Option<u8>,
    pub circuit_mode_type: CircuitModeType,
    /// Full duplex when set.
    pub simplex_duplex_selection: bool,
    pub hook_method_selection: bool,
    pub communication_type: CommunicationType,
    pub request_to_transmit_send_data: bool,
}

/// Bridge and routing facts that a bridged setup reads.
#[derive(Clone, Copy, Debug)]
pub struct BrewSetupEnv {
    /// The network bridge is active.
    pub brew_active: bool,
    /// The backhaul to the bridge is connected.
    pub network_connected: bool,
    /// The calling ISSI is routable through the bridge.
    pub source_routable: bool,
    /// The (normalized) destination ISSI is routable through the bridge.
    pub destination_routable: bool,
    /// Configured call timeout of new calls.
    pub call_timeout: CallTimeout,
}

/// Decision on a setup towards the network bridge.
#[derive(Clone, Debug)]
pub enum BrewSetupOutcome {
    /// D-RELEASE with `cause` and the dummy call identity to the caller.
    Rejected { cause: DisconnectCause },
    /// D-CALL PROCEEDING to the caller and the setup request `call` with
    /// `brew_uuid` to the bridge; the caller's circuit is `circuit`.
    Forwarded { call_id: u16, circuit: CmceCircuit, brew_uuid: u128, call: NetworkCircuitCall },
}

/// Raw code of a circuit mode type (EN 300 392-2 table 14.52).
pub open spec fn circuit_mode_raw(m: CircuitModeType) -> u8 {
    match m {
        CircuitModeType::TchS => 0,
        CircuitModeType::Tch72 => 1,
        CircuitModeType::Tch48N1 => 2,
        CircuitModeType::Tch48N4 => 3,
        CircuitModeType::Tch48N8 => 4,
        CircuitModeType::Tch24N1 => 5,
        CircuitModeType::Tch24N4 => 6,
        CircuitModeType::Tch24N8 => 7,
    }
}

/// Raw code of a communication type (EN 300 392-2 table 14.50).
pub open spec fn communication_type_raw(c: CommunicationType) -> u8 {
    match c {
        CommunicationType::P2p => 0,
        CommunicationType::P2Mp => 1,
        CommunicationType::P2MpAck => 2,
        CommunicationType::Broadcast => 3,
    }
}

/// The number the bridge dials for `pdu`: a short service number given as
/// called SSI together with an external number is dialled as that SSI;
/// otherwise the external subscriber number, or nothing.
pub open spec fn dialled_number(pdu: BrewSetupPdu) -> Seq<char> {
    let ext = match pdu.external_subscriber_number {
        Some(f) => unpacked_digits(f.data, digit_count(f.len), digit_count(f.len)),
        None => Seq::empty(),
    };
    match pdu.called_party_ssi {
        Some(s) => if 0 < s < SHORT_SERVICE_NUMBER_LIMIT && pdu.external_subscriber_number is Some {
            decimal_string(s as nat)
        } else {
            ext
        },
        None => ext,
    }
}

/// Every character of `s` is an ASCII digit.
pub open spec fn all_ascii_digits(s: Seq<char>) -> bool {
    forall|i: int| 0 <= i < s.len() ==> '0' <= #[trigger] s[i] <= '9'
}

/// The destination sent to the bridge: a destination that is neither 0 nor
/// routable is dropped for a call to an outside party unless the number to
/// dial is a service code (digits only).
pub open spec fn bridged_destination(call: NetworkCircuitCall, has_external: bool, destination_routable: bool) -> u32 {
    let routable = call.destination == 0 || destination_routable;
    if has_external && !routable && call.destination != 0 && !(call.number@.len() > 0 && all_ascii_digits(
        call.number@,
    )) {
        0
    } else {
        call.destination
    }
}

/// `c` is the record of a new call from local `caller` towards the bridge
/// on `circuit`, set up at `now`.
pub open spec fn new_bridged_call(
    c: IndividualCall,
    pdu: BrewSetupPdu,
    caller: TetraAddress,
    called: TetraAddress,
    link: UplinkContext,
    circuit: CmceCircuit,
    now: crate::tdma::TdmaTime,
    call_timeout: CallTimeout,
    brew_uuid: u128,
    network_call: NetworkCircuitCall,
) -> bool {
    &&& c.calling_addr == caller
    &&& c.called_addr == called
    &&& c.calling_handle == link.handle && c.calling_link_id == link.link_id && c.calling_endpoint_id
        == link.endpoint_id
    &&& c.called_handle is None && c.called_link_id is None && c.called_endpoint_id is None
    &&& c.calling_ts == circuit.ts && c.called_ts == circuit.ts
    &&& c.calling_usage == circuit.usage && c.called_usage == circuit.usage
    &&& c.simplex_duplex == pdu.simplex_duplex_selection
    &&& c.request_to_transmit_send_data == pdu.request_to_transmit_send_data
    &&& c.state == IndividualCallState::CallSetupPending
    &&& c.setup_timer_started == Some(now)
    &&& c.setup_timeout == Some(CallTimeoutSetupPhase::T60s)
    &&& c.active_timer_started is None
    &&& c.call_timeout == call_timeout
    &&& c.called_over_brew && !c.calling_over_brew
    &&& c.brew_uuid == Some(brew_uuid)
    &&& c.network_call == Some(network_call)
    &&& !c.connect_request_sent
    &&& c.floor_holder is None && c.last_floor_holder is None && c.queued_tx_demand is None
}

impl CircuitModeType {
    /// The raw code of the circuit mode type.
    pub fn into_raw(self) -> (r: u8)
        ensures
            r == circuit_mode_raw(self),
    {
        match self {
            CircuitModeType::TchS => 0,
            CircuitModeType::Tch72 => 1,
            CircuitModeType::Tch48N1 => 2,
            CircuitModeType::Tch48N4 => 3,
            CircuitModeType::Tch48N8 => 4,
            CircuitModeType::Tch24N1 => 5,
            CircuitModeType::Tch24N4 => 6,
            CircuitModeType::Tch24N8 => 7,
        }
    }
}

impl CommunicationType {
    /// The raw code of the communication type.
    pub fn into_raw(self) -> (r: u8)
        ensures
            r == communication_type_raw(self),
    {
        match self {
            CommunicationType::P2p => 0,
            CommunicationType::P2Mp => 1,
            CommunicationType::P2MpAck => 2,
            CommunicationType::Broadcast => 3,
        }
    }
}

impl NetworkCircuitCall {
    /// A field-by-field copy.
    pub fn duplicate(&self) -> (r: NetworkCircuitCall)
        ensures
            r.number@ == self.number@,
            r == (NetworkCircuitCall { number: r.number, ..*self }),
    {
        NetworkCircuitCall {
            source_issi: self.source_issi,
            destination: self.destination,
            number: self.number.clone(),
            priority: self.priority,
            service: self.service,
            mode: self.mode,
            duplex: self.duplex,
            method: self.method,
            communication: self.communication,
            grant: self.grant,
            permission: self.permission,
            timeout: self.timeout,
            ownership: self.ownership,
            queued: self.queued,
        }
    }

    /// A short service number given as destination ISSI (below one
    /// million, with no number string) is dialled as a number string with
    /// destination 0 and simplex.
    pub fn normalize_short_service_number(&mut self)
        ensures
            ({
                let short = 0 < old(self).destination < SHORT_SERVICE_NUMBER_LIMIT && old(self).number@.len() == 0;
                if short {
                    &&& final(self).number@ == decimal_string(old(self).destination as nat)
                    &&& *final(self) == (NetworkCircuitCall {
                        number: final(self).number,
                        destination: 0,
                        duplex: 0,
                        ..*old(self)
                    })
                } else {
                    *final(self) == *old(self)
                }
            }),
    {
        if self.destination > 0 && self.destination < SHORT_SERVICE_NUMBER_LIMIT && self.number.unicode_len() == 0 {
            self.number = decimal_string_of(self.destination);
            self.destination = 0;
            self.duplex = 0;
        }
    }
}

impl CcBsSubentity {
    /// The bridge's description of the call set up by `pdu` from
    /// `source_issi`.
    pub fn build_network_circuit_call_from_u_setup(pdu: &BrewSetupPdu, source_issi: u32) -> (r: NetworkCircuitCall)
        ensures
            r.number@ == dialled_number(*pdu),
            r.source_issi == source_issi,
            r.destination == match pdu.called_party_ssi {
                Some(s) => s,
                None => 0,
            },
            r.priority == pdu.call_priority,
            r.service == match pdu.speech_service {
                Some(s) => s,
                None => 0,
            },
            r.mode == circuit_mode_raw(pdu.circuit_mode_type),
            r.duplex == (if pdu.simplex_duplex_selection {
                1u8
            } else {
                0u8
            }),
            r.method == (if pdu.hook_method_selection {
                1u8
            } else {
                0u8
            }),
            r.communication == communication_type_raw(pdu.communication_type),
            r.grant == 0,
            r.permission == (if pdu.request_to_transmit_send_data {
                1u8
            } else {
                0u8
            }),
            r.timeout == 7,
            r.ownership == 1,
            r.queued == 0,
    {
        let external = match pdu.external_subscriber_number {
            Some(f) => Self::decode_external_subscriber_number(&f),
            None => String::new(),
        };
        let number = match pdu.called_party_ssi {
            Some(s) => {
                if s > 0 && s < SHORT_SERVICE_NUMBER_LIMIT && pdu.external_subscriber_number.is_some() {
                    decimal_string_of(s)
                } else {
                    external
                }
            },
            None => external,
        };
        NetworkCircuitCall {
            source_issi,
            destination: match pdu.called_party_ssi {
                Some(s) => s,
                None => 0,
            },
            number,
            priority: pdu.call_priority,
            service: match pdu.speech_service {
                Some(s) => s,
                None => 0,
            },
            mode: pdu.circuit_mode_type.into_raw(),
            duplex: if pdu.simplex_duplex_selection {
                1
            } else {
                0
            },
            method: if pdu.hook_method_selection {
                1
            } else {
                0
            },
            communication: pdu.communication_type.into_raw(),
            grant: 0,
            permission: if pdu.request_to_transmit_send_data {
                1
            } else {
                0
            },
            timeout: 7,
            ownership: 1,
            queued: 0,
        }
    }

    /// The setup names a party outside the cell: a number to dial, an
    /// external subscriber number or a short number address.
    pub fn has_external_called_party(pdu: &BrewSetupPdu, network_call: &NetworkCircuitCall) -> (r: bool)
        ensures
            r == (network_call.number@.len() > 0 || pdu.external_subscriber_number is Some
                || pdu.has_called_party_short_number),
    {
        network_call.number.unicode_len() > 0 || pdu.external_subscriber_number.is_some()
            || pdu.has_called_party_short_number
    }
}

/// `after` (timeslot owners `alloc_after`) and the answer `r` of an
/// individual setup from `calling_party` forwarded to the bridge under call
/// UUID `brew_uuid`, starting from `before` (`alloc_before`).
pub open spec fn brew_setup_done(
    before: CcBsSubentity,
    after: CcBsSubentity,
    alloc_before: Seq<Option<TimeslotOwner>>,
    alloc_after: Seq<Option<TimeslotOwner>>,
    pdu: BrewSetupPdu,
    network_call: NetworkCircuitCall,
    calling_party: TetraAddress,
    called_addr: TetraAddress,
    link: UplinkContext,
    env: BrewSetupEnv,
    brew_uuid: u128,
    other_occupied: Set<u16>,
    r: BrewSetupOutcome,
) -> bool {
    let has_external = network_call.number@.len() > 0 || pdu.external_subscriber_number is Some
        || pdu.has_called_party_short_number;
    let routable = network_call.destination == 0 || env.destination_routable;
    let unchanged = after == before && alloc_after == alloc_before;
    let sent = NetworkCircuitCall {
        destination: bridged_destination(network_call, has_external, env.destination_routable),
        ..network_call
    };
    if !env.brew_active || !env.network_connected {
        r == (BrewSetupOutcome::Rejected { cause: DisconnectCause::RequestedServiceNotAvailable })
            && unchanged
    } else if !env.source_routable || (!has_external && !routable) {
        r == (BrewSetupOutcome::Rejected { cause: DisconnectCause::CalledPartyNotReachable })
            && unchanged
    } else {
        let occupied = occupied_ids(before, other_occupied);
        match r {
            BrewSetupOutcome::Forwarded { call_id, circuit, brew_uuid: uuid, call } => {
                &&& call_id == circuit.call_id
                &&& uuid == brew_uuid
                &&& call.number@ == network_call.number@
                &&& call == (NetworkCircuitCall { number: call.number, ..sent })
                &&& CircuitMgr::allocation_outcome(
                    before.circuits,
                    alloc_before,
                    Direction::Both,
                    pdu.communication_type,
                    pdu.simplex_duplex_selection,
                    TimeslotOwner::Cmce,
                    occupied,
                    Ok::<CmceCircuit, CircuitErr>(circuit),
                    after.circuits,
                    alloc_after,
                )
                &&& after.individual_calls@ == before.individual_calls@.insert(
                    call_id,
                    after.individual_calls@[call_id],
                )
                &&& new_bridged_call(
                    after.individual_calls@[call_id],
                    pdu,
                    calling_party,
                    called_addr,
                    link,
                    circuit,
                    before.dltime,
                    env.call_timeout,
                    brew_uuid,
                    sent,
                )
            },
            BrewSetupOutcome::Rejected { cause } => {
                &&& cause == DisconnectCause::CongestionInInfrastructure
                &&& after.individual_calls == before.individual_calls
                &&& exists|err: CircuitErr|
                    #[trigger] CircuitMgr::allocation_outcome(
                        before.circuits,
                        alloc_before,
                        Direction::Both,
                        pdu.communication_type,
                        pdu.simplex_duplex_selection,
                        TimeslotOwner::Cmce,
                        occupied,
                        Err::<CmceCircuit, CircuitErr>(err),
                        after.circuits,
                        alloc_after,
                    )
            },
        }
    }
}

impl CcBsSubentity {
    /// The string holds only ASCII digits.
    fn all_ascii_digits_exec(s: &String) -> (r: bool)
        ensures
            r == all_ascii_digits(s@),
    {
        let st = s.as_str();
        let n = st.unicode_len();
        let mut i: usize = 0;
        while i < n
            invariant
                0 <= i <= n,
                n == s@.len(),
                st@ == s@,
                forall|j: int| 0 <= j < i ==> '0' <= #[trigger] s@[j] <= '9',
            decreases n - i,
        {
            let c = st.get_char(i);
            if !('0' <= c && c <= '9') {
                return false;
            }
            i = i + 1;
        }
        true
    }

    /// Forwards an individual setup from local `calling_party` to the
    /// network bridge: refused when the bridge is off or disconnected, the
    /// caller is not routable, or neither an outside party nor a routable
    /// destination is called; otherwise a circuit for the caller is
    /// allocated and the call recorded. `network_call` is the bridge's
    /// description of the call (built and normalized), `brew_uuid` the
    /// identifier drawn for it.
    pub fn forward_u_setup_over_brew(
        &mut self,
        pdu: &BrewSetupPdu,
        network_call: NetworkCircuitCall,
        calling_party: TetraAddress,
        called_addr: TetraAddress,
        link: UplinkContext,
        env: BrewSetupEnv,
        brew_uuid: u128,
        other_occupied: &HashSet<u16>,
        timeslot_alloc: &mut TimeslotAllocator,
    ) -> (r: BrewSetupOutcome)
        requires
            old(self).circuits.wf(),
        ensures
            old(self).individual_calls_wf() ==> final(self).individual_calls_wf(),
            final(self).circuits.wf(),
            *final(self) == (CcBsSubentity {
                circuits: final(self).circuits,
                individual_calls: final(self).individual_calls,
                ..*old(self)
            }),
            brew_setup_done(
                *old(self),
                *final(self),
                old(timeslot_alloc).owners@,
                final(timeslot_alloc).owners@,
                *pdu,
                network_call,
                calling_party,
                called_addr,
                link,
                env,
                brew_uuid,
                other_occupied@,
                r,
            ),
    {
        if !env.brew_active || !env.network_connected {
            return BrewSetupOutcome::Rejected { cause: DisconnectCause::RequestedServiceNotAvailable };
        }
        if !env.source_routable {
            return BrewSetupOutcome::Rejected { cause: DisconnectCause::CalledPartyNotReachable };
        }
        let has_external = Self::has_external_called_party(pdu, &network_call);
        let routable = network_call.destination == 0 || env.destination_routable;
        if !has_external && !routable {
            return BrewSetupOutcome::Rejected { cause: DisconnectCause::CalledPartyNotReachable };
        }
        let mut call = network_call;
        if has_external && !routable && call.destination != 0 {
            let service_code = call.number.unicode_len() > 0 && Self::all_ascii_digits_exec(&call.number);
            if !service_code {
                call.destination = 0;
            }
        }
        let occupied = self.occupied_call_ids(other_occupied);
        let ghost calls = self.individual_calls@;
        let circuit = match self.circuits.allocate_circuit_with_allocator_duplex_avoiding(
            Direction::Both,
            pdu.communication_type,
            pdu.simplex_duplex_selection,
            timeslot_alloc,
            TimeslotOwner::Cmce,
            &occupied,
        ) {
            Ok(c) => c,
            Err(e) => {
                proof {
                    assert(occupied@ == occupied_ids(*old(self), other_occupied@));
                    assert(CircuitMgr::allocation_outcome(
                        old(self).circuits,
                        old(timeslot_alloc).owners@,
                        Direction::Both,
                        pdu.communication_type,
                        pdu.simplex_duplex_selection,
                        TimeslotOwner::Cmce,
                        occupied_ids(*old(self), other_occupied@),
                        Err::<CmceCircuit, CircuitErr>(e),
                        self.circuits,
                        timeslot_alloc.owners@,
                    ));
                }
                return BrewSetupOutcome::Rejected { cause: DisconnectCause::CongestionInInfrastructure };
            },
        };
        let call_id = circuit.call_id;
        let sent = call.duplicate();
        let record = IndividualCall {
            calling_addr: calling_party,
            called_addr,
            calling_handle: link.handle,
            calling_link_id: link.link_id,
            calling_endpoint_id: link.endpoint_id,
            called_handle: None,
            called_link_id: None,
            called_endpoint_id: None,
            calling_ts: circuit.ts,
            called_ts: circuit.ts,
            calling_usage: circuit.usage,
            called_usage: circuit.usage,
            simplex_duplex: pdu.simplex_duplex_selection,
            request_to_transmit_send_data: pdu.request_to_transmit_send_data,
            state: IndividualCallState::CallSetupPending,
            setup_timer_started: Some(self.dltime),
            setup_timeout: Some(CallTimeoutSetupPhase::T60s),
            active_timer_started: None,
            call_timeout: env.call_timeout,
            called_over_brew: true,
            calling_over_brew: false,
            brew_uuid: Some(brew_uuid),
            network_call: Some(call),
            connect_request_sent: false,
            floor_holder: None,
            last_floor_holder: None,
            queued_tx_demand: None,
        };
        proof {
            crate::individual_setup::lemma_allocated_id_unoccupied(
                old(self).circuits,
                old(timeslot_alloc).owners@,
                pdu.communication_type,
                pdu.simplex_duplex_selection,
                occupied@,
                circuit,
                self.circuits,
                timeslot_alloc.owners@,
            );
        }
        let _ = self.fsm_individual_create_setup_call(call_id, record);
        proof {
            assert(self.individual_calls@ =~= calls.insert(call_id, self.individual_calls@[call_id]));
        }
        BrewSetupOutcome::Forwarded { call_id, circuit, brew_uuid, call: sent }
    }

    /// Forwards an individual setup from local `calling_party` to the
    /// network bridge as `forward_u_setup_over_brew` does, under a call UUID
    /// drawn at random for it.
    pub fn fsm_on_u_setup_p2p_over_brew(
        &mut self,
        pdu: &BrewSetupPdu,
        network_call: NetworkCircuitCall,
        calling_party: TetraAddress,
        called_addr: TetraAddress,
        link: UplinkContext,
        env: BrewSetupEnv,
        other_occupied: &HashSet<u16>,
        timeslot_alloc: &mut TimeslotAllocator,
    ) -> (r: BrewSetupOutcome)
        requires
            old(self).circuits.wf(),
        ensures
            old(self).individual_calls_wf() ==> final(self).individual_calls_wf(),
            final(self).circuits.wf(),
            *final(self) == (CcBsSubentity {
                circuits: final(self).circuits,
                individual_calls: final(self).individual_calls,
                ..*old(self)
            }),
            exists|brew_uuid: u128|
                #[trigger] brew_setup_done(
                    *old(self),
                    *final(self),
                    old(timeslot_alloc).owners@,
                    final(timeslot_alloc).owners@,
                    *pdu,
                    network_call,
                    calling_party,
                    called_addr,
                    link,
                    env,
                    brew_uuid,
                    other_occupied@,
                    r,
                ),
    {
        let brew_uuid = new_brew_uuid();
        self.forward_u_setup_over_brew(
            pdu,
            network_call,
            calling_party,
            called_addr,
            link,
            env,
            brew_uuid,
            other_occupied,
            timeslot_alloc,
        )
    }
}

/// A fresh random (version 4) UUID from `uuid::Uuid::new_v4`, as its
/// 128-bit value, for a call set up towards the bridge. Nothing is said of
/// the value: it is drawn at random.
#[verifier::external_body]
fn new_brew_uuid() -> (r: u128) {
    uuid::Uuid::new_v4().as_u128()
}

} // verus!
