//! The called party's answer to an individual call: U-ALERT and U-CONNECT,
//! a simplex offer made in reply to a duplex request, and the completion of
//! a local private connect once each D-CONNECT leg has been delivered.

use std::collections::HashSet;
use vstd::prelude::*;

use crate::address::TetraAddress;
use crate::call::{
    CallTimeout, CallTimeoutSetupPhase, IndividualCall, IndividualCallState, NetworkCircuitCall, same_individual_call,
};
use crate::cc_bs::CcBsSubentity;
use crate::circuit_mgr::{CircuitMgr, CircuitModeType, CommunicationType};
use crate::ext_number::{decimal_string, decimal_string_of};
use crate::fsm::{IndividualEvent, IndividualTransitionError, TransmissionGrant, individual_transition_allowed};
use crate::individual_setup::UplinkContext;
use crate::timeslots::{Direction, TimeslotAllocator, TimeslotOwner};

verus! {

broadcast use vstd::std_specs::hash::group_hash_axioms;

/// Element pointer of an unsupported basic service offer in U-CONNECT.
pub const CMCE_FNS_PTR_U_CONNECT_BASIC_SERVICE_INFORMATION: u8 = 17;

/// Element pointer of unsupported type-3 elements in U-CONNECT.
pub const CMCE_FNS_PTR_U_CONNECT_TYPE3: u8 = 18;

/// Element pointer of a cleared reserved bit in U-ALERT.
pub const CMCE_FNS_PTR_U_ALERT_RESERVED: u8 = 14;

/// Element pointer of an unsupported basic service offer in U-ALERT.
pub const CMCE_FNS_PTR_U_ALERT_BASIC_SERVICE_INFORMATION: u8 = 17;

/// Element pointer of unsupported type-3 elements in U-ALERT.
pub const CMCE_FNS_PTR_U_ALERT_TYPE3: u8 = 18;

/// Basic service information of a call (EN 300 392-2 clause 14.8.2).
#[derive(Clone, Copy, Debug, PartialEq, Eq, Structural)]
pub struct BasicServiceInformation {
    pub circuit_mode_type: CircuitModeType,
    pub encryption_flag: bool,
    pub communication_type: CommunicationType,
    pub slots_per_frame: Option<u8>,
    pub speech_service: Option<u8>,
}

/// What the call control keeps of the D-SETUP of a local private call.
#[derive(Clone, Copy, Debug, PartialEq, Eq, Structural)]
pub struct CachedPrivateSetup {
    pub hook_method_selection: bool,
    pub basic_service_information: BasicServiceInformation,
}

/// The elements of a received U-ALERT that call control reads.
#[derive(Clone, Copy, Debug, PartialEq, Eq, Structural)]
pub struct UAlertPdu {
    pub call_identifier: u16,
    /// Reserved bit; this edition sets it.
    pub reserved: bool,
    /// Duplex when set, simplex otherwise.
    pub simplex_duplex_selection: bool,
    pub basic_service_information: Option<BasicServiceInformation>,
    pub has_facility: bool,
    pub has_proprietary: bool,
}

/// The elements of a received U-CONNECT that call control reads.
#[derive(Clone, Copy, Debug, PartialEq, Eq, Structural)]
pub struct UConnectPdu {
    pub call_identifier: u16,
    pub hook_method_selection: bool,
    /// Duplex when set, simplex otherwise.
    pub simplex_duplex_selection: bool,
    pub basic_service_information: Option<BasicServiceInformation>,
    pub has_facility: bool,
    pub has_proprietary: bool,
}

/// An offered basic service is refused unless it equals the requested one.
pub open spec fn basic_service_offer_refused(
    offered: Option<BasicServiceInformation>,
    requested: Option<BasicServiceInformation>,
) -> bool {
    match offered {
        Some(o) => requested != Some(o),
        None => false,
    }
}

/// The element pointer with which an U-CONNECT is refused, if it is.
pub open spec fn u_connect_refusal(pdu: UConnectPdu, requested: Option<BasicServiceInformation>) -> Option<u8> {
    if basic_service_offer_refused(pdu.basic_service_information, requested) {
        Some(CMCE_FNS_PTR_U_CONNECT_BASIC_SERVICE_INFORMATION)
    } else if pdu.has_facility || pdu.has_proprietary {
        Some(CMCE_FNS_PTR_U_CONNECT_TYPE3)
    } else {
        None
    }
}

/// The element pointer with which an U-ALERT is refused, if it is.
pub open spec fn u_alert_refusal(pdu: UAlertPdu, requested: Option<BasicServiceInformation>) -> Option<u8> {
    if !pdu.reserved {
        Some(CMCE_FNS_PTR_U_ALERT_RESERVED)
    } else if basic_service_offer_refused(pdu.basic_service_information, requested) {
        Some(CMCE_FNS_PTR_U_ALERT_BASIC_SERVICE_INFORMATION)
    } else if pdu.has_facility || pdu.has_proprietary {
        Some(CMCE_FNS_PTR_U_ALERT_TYPE3)
    } else {
        None
    }
}

/// The call timeout announced for a configured limit of `secs` seconds:
/// none for 0, else the nearest code of table 14.50.
pub open spec fn configured_call_timeout(secs: u32) -> CallTimeout {
    if secs == 0 {
        CallTimeout::Infinite
    } else if secs <= 37 {
        CallTimeout::T30s
    } else if secs <= 52 {
        CallTimeout::T45s
    } else if secs <= 90 {
        CallTimeout::T60s
    } else if secs <= 150 {
        CallTimeout::T2m
    } else if secs <= 210 {
        CallTimeout::T3m
    } else if secs <= 270 {
        CallTimeout::T4m
    } else if secs <= 390 {
        CallTimeout::T5m
    } else if secs <= 540 {
        CallTimeout::T6m
    } else if secs <= 720 {
        CallTimeout::T8m
    } else if secs <= 900 {
        CallTimeout::T10m
    } else if secs <= 1080 {
        CallTimeout::T12m
    } else if secs <= 1350 {
        CallTimeout::T15m
    } else if secs <= 1800 {
        CallTimeout::T20m
    } else {
        CallTimeout::T30m
    }
}

/// The call once a simplex offer of the called party is accepted: a duplex
/// call becomes simplex on the caller's timeslot with the configured call
/// timeout; a simplex call stays as it is.
pub open spec fn simplex_offer_accepted(c: IndividualCall, call_timeout: CallTimeout) -> IndividualCall {
    if !c.simplex_duplex {
        c
    } else {
        IndividualCall {
            simplex_duplex: false,
            called_ts: c.calling_ts,
            called_usage: c.calling_usage,
            call_timeout,
            network_call: match c.network_call {
                Some(n) => Some(NetworkCircuitCall { duplex: 0, ..n }),
                None => None,
            },
            ..c
        }
    }
}

/// `new_c` and `new_a` are `old_c` and `old_a` after the circuit on
/// timeslot `ts` was closed and the timeslot given back by call control.
pub open spec fn bearer_given_back(
    old_c: CircuitMgr,
    old_a: Seq<Option<TimeslotOwner>>,
    new_c: CircuitMgr,
    new_a: Seq<Option<TimeslotOwner>>,
    ts: u8,
) -> bool {
    &&& new_c.dltime == old_c.dltime
    &&& new_c.next_call_identifier == old_c.next_call_identifier
    &&& new_c.next_usage_number == old_c.next_usage_number
    &&& new_c.dl@ == old_c.dl@.update(ts - 1, None)
    &&& new_c.ul_only@ == old_c.ul_only@.update(ts - 1, None)
    &&& new_c.tx_data@[ts - 1]@.len() == 0
    &&& forall|j: int| 0 <= j < 4 && j != ts - 1 ==> new_c.tx_data@[j] == old_c.tx_data@[j]
    &&& new_a == if 2 <= ts <= 4 && old_a[ts - 1] == Some(TimeslotOwner::Cmce) {
        old_a.update(ts - 1, None)
    } else {
        old_a
    }
}

/// The effect on circuits and timeslots of accepting a simplex offer for
/// call `c`: a duplex call on two timeslots gives the called side's back.
pub open spec fn simplex_offer_bearers(
    c: IndividualCall,
    old_c: CircuitMgr,
    old_a: Seq<Option<TimeslotOwner>>,
    new_c: CircuitMgr,
    new_a: Seq<Option<TimeslotOwner>>,
) -> bool {
    if c.simplex_duplex && c.called_ts != c.calling_ts {
        bearer_given_back(old_c, old_a, new_c, new_a, c.called_ts)
    } else {
        new_c == old_c && new_a == old_a
    }
}

/// What an accepted alert owes the calling side.
#[derive(Clone, Copy, Debug, PartialEq, Eq, Structural)]
pub enum AlertNotice {
    /// The caller is behind the bridge: NetworkCircuitAlert with this UUID
    /// goes to the bridge.
    NetworkAlert { brew_uuid: u128 },
    /// D-ALERT goes to the local caller on its signalling link.
    DAlert {
        simplex_duplex: bool,
        calling_addr: TetraAddress,
        calling: UplinkContext,
        setup_timeout: CallTimeoutSetupPhase,
    },
    /// The caller has already been told.
    AlreadyAlerted,
}

/// The answer to a received U-ALERT.
#[derive(Clone, Copy, Debug, PartialEq, Eq, Structural)]
pub enum UAlertOutcome {
    /// No call has this identifier: a late U-ALERT, which a release still
    /// in progress may answer.
    UnknownCall,
    /// The U-ALERT came from another ISSI than the called party's; ignored.
    UnexpectedSender,
    /// The alert was taken.
    Alerted { notice: AlertNotice },
    /// The state machine refused the alert.
    Refused { error: IndividualTransitionError },
}

/// The record once the called party's link context `ctx` is bound; a
/// context already recorded stays.
pub open spec fn with_called_context(c: IndividualCall, ctx: Option<(u32, u32, u32)>) -> IndividualCall {
    match ctx {
        Some((handle, link_id, endpoint_id)) => if c.called_handle is None {
            IndividualCall {
                called_handle: Some(handle),
                called_link_id: Some(link_id),
                called_endpoint_id: Some(endpoint_id),
                ..c
            }
        } else {
            c
        },
        None => c,
    }
}

/// The record once alerted at `now`: a call still in setup becomes
/// alerting, and the setup timer restarts with `setup_timeout`.
pub open spec fn alerted_call(c: IndividualCall, now: crate::tdma::TdmaTime, setup_timeout: CallTimeoutSetupPhase) -> IndividualCall {
    IndividualCall {
        state: if c.state == IndividualCallState::CallSetupPending || c.state == IndividualCallState::IncomingSetupPending {
            IndividualCallState::IncomingAlerting
        } else {
            c.state
        },
        setup_timer_started: Some(now),
        setup_timeout: Some(setup_timeout),
        ..c
    }
}

/// What the caller of `c` is owed when its call is alerted.
pub open spec fn alert_notice(c: IndividualCall, setup_timeout: CallTimeoutSetupPhase) -> AlertNotice {
    if c.calling_over_brew {
        AlertNotice::NetworkAlert { brew_uuid: c.brew_uuid->0 }
    } else if !crate::call::state_is_alerted(c.state) {
        AlertNotice::DAlert {
            simplex_duplex: c.simplex_duplex,
            calling_addr: c.calling_addr,
            calling: UplinkContext {
                handle: c.calling_handle,
                link_id: c.calling_link_id,
                endpoint_id: c.calling_endpoint_id,
            },
            setup_timeout,
        }
    } else {
        AlertNotice::AlreadyAlerted
    }
}

/// The result of alerting call `c` (identifier `call_id`).
pub open spec fn alert_result(c: IndividualCall, call_id: u16, setup_timeout: CallTimeoutSetupPhase) -> Result<
    AlertNotice,
    IndividualTransitionError,
> {
    if !individual_transition_allowed(c.state, IndividualEvent::Alert) {
        Err(IndividualTransitionError::InvalidTransition { call_id, state: c.state, event: IndividualEvent::Alert })
    } else if c.calling_over_brew && c.brew_uuid is None {
        Err(IndividualTransitionError::MissingBrewUuid(call_id))
    } else {
        Ok(alert_notice(c, setup_timeout))
    }
}

/// The record of call `c` after an alert with called context `ctx` at `now`.
pub open spec fn alert_record(
    c: IndividualCall,
    ctx: Option<(u32, u32, u32)>,
    setup_timeout: CallTimeoutSetupPhase,
    now: crate::tdma::TdmaTime,
) -> IndividualCall {
    if !individual_transition_allowed(c.state, IndividualEvent::Alert) {
        c
    } else if c.calling_over_brew && c.brew_uuid is None {
        with_called_context(c, ctx)
    } else {
        alerted_call(with_called_context(c, ctx), now, setup_timeout)
    }
}

/// The called party offers simplex for a call set up as duplex.
pub open spec fn simplex_offered(c: IndividualCall, offered_duplex: bool) -> bool {
    c.simplex_duplex && !offered_duplex
}

/// Call `c` once an answer offering `offered_duplex` was taken.
pub open spec fn after_offer(c: IndividualCall, offered_duplex: bool, call_timeout: CallTimeout) -> IndividualCall {
    if simplex_offered(c, offered_duplex) {
        simplex_offer_accepted(c, call_timeout)
    } else {
        c
    }
}

/// The effect on circuits and timeslots of taking an answer that offers
/// `offered_duplex` for call `c`.
pub open spec fn offer_bearers(
    c: IndividualCall,
    offered_duplex: bool,
    old_c: CircuitMgr,
    old_a: Seq<Option<TimeslotOwner>>,
    new_c: CircuitMgr,
    new_a: Seq<Option<TimeslotOwner>>,
) -> bool {
    if simplex_offered(c, offered_duplex) {
        simplex_offer_bearers(c, old_c, old_a, new_c, new_a)
    } else {
        new_c == old_c && new_a == old_a
    }
}

/// A traffic bearer that the upper MAC opens for a connected private call.
#[derive(Clone, Copy, Debug, PartialEq, Eq, Structural)]
pub struct BearerOpen {
    pub ts: u8,
    pub usage: u8,
    /// The timeslot this one's traffic is carried across to, when the two
    /// parties are on different timeslots.
    pub peer_ts: Option<u8>,
    /// The party the bearer is opened for.
    pub primary: TetraAddress,
    /// A second party active on the same bearer.
    pub secondary: Option<TetraAddress>,
}

/// The D-CONNECT ACKNOWLEDGE owed to the called party of a local private
/// call, on its link and towards its traffic timeslot.
#[derive(Clone, Copy, Debug, PartialEq, Eq, Structural)]
pub struct CalledDConnectAck {
    pub call_time_out: CallTimeout,
    pub transmission_grant: TransmissionGrant,
    pub called: UplinkContext,
    pub called_addr: TetraAddress,
    pub ts: u8,
    pub usage: u8,
}

/// The D-CONNECT ACKNOWLEDGE for the called party of call `c`: a duplex
/// call has no call timeout; in simplex the called party is granted the
/// floor when it talks first (`called_first`), else told the other user
/// has it.
pub open spec fn called_d_connect_ack(c: IndividualCall, called_first: bool, call_timeout: CallTimeout) -> CalledDConnectAck {
    CalledDConnectAck {
        call_time_out: if c.simplex_duplex {
            CallTimeout::Infinite
        } else {
            call_timeout
        },
        transmission_grant: if c.simplex_duplex || called_first {
            TransmissionGrant::Granted
        } else {
            TransmissionGrant::GrantedToOtherUser
        },
        called: UplinkContext {
            handle: match c.called_handle {
                Some(h) => h,
                None => 0,
            },
            link_id: match c.called_link_id {
                Some(l) => l,
                None => 0,
            },
            endpoint_id: match c.called_endpoint_id {
                Some(e) => e,
                None => 0,
            },
        },
        called_addr: c.called_addr,
        ts: c.called_ts,
        usage: c.called_usage,
    }
}

/// The answer to a received U-CONNECT.
#[derive(Clone, Debug)]
pub enum UConnectOutcome {
    /// No call has this identifier: a late U-CONNECT, which a release still
    /// in progress may answer.
    UnknownCall,
    /// The call is already active; ignored.
    AlreadyActive,
    /// A connect acknowledgement is already awaited; the duplicate is ignored.
    ConnectAckPending,
    /// The U-CONNECT came from another ISSI than the called party's; ignored.
    UnexpectedSender,
    /// CMCE FUNCTION NOT SUPPORTED answers the element at `pointer`.
    FunctionNotSupported { pointer: u8 },
    /// The state machine refused the called party's link context.
    BindRefused { error: IndividualTransitionError },
    /// A bridge-originated call lacks its UUID.
    MissingBrewUuid,
    /// The state machine refused to record the connect request.
    MarkRefused { error: IndividualTransitionError },
    /// CONNECT_REQUEST with `call` goes to the bridge for call `brew_uuid`.
    ForwardToNetwork { brew_uuid: u128, call: NetworkCircuitCall },
    /// The D-SETUP of the local call is no longer known.
    NoCachedSetup,
    /// A connect delivery is already being guarded; the duplicate is ignored.
    DeliveryGuardPending,
    /// The bearers are opened and D-CONNECT ACKNOWLEDGE goes to the called
    /// party; the call waits for its acknowledgement.
    ConnectCalled {
        called_ms_transmits_first: bool,
        calling_bearer: BearerOpen,
        called_bearer: Option<BearerOpen>,
        d_connect_ack: CalledDConnectAck,
    },
}

/// `call` is the CONNECT_REQUEST description of bridge-originated call `c`
/// answered with `pdu`: the stored description (or one built from the call
/// when none is stored) with the answer's duplex and hook method and no
/// grant or permission.
pub open spec fn connect_request_fields(call: NetworkCircuitCall, c: IndividualCall, pdu: UConnectPdu) -> bool {
    let duplex: u8 = if pdu.simplex_duplex_selection {
        1
    } else {
        0
    };
    let method: u8 = if pdu.hook_method_selection {
        1
    } else {
        0
    };
    match c.network_call {
        Some(n) => call.number@ == n.number@ && call == (NetworkCircuitCall {
            number: call.number,
            duplex,
            method,
            grant: 0,
            permission: 0,
            ..n
        }),
        None => call.number@ == decimal_string(c.called_addr.ssi as nat) && call == (NetworkCircuitCall {
            number: call.number,
            source_issi: c.calling_addr.ssi,
            destination: c.called_addr.ssi,
            priority: 0,
            service: 0,
            mode: crate::brew_setup::circuit_mode_raw(CircuitModeType::TchS),
            duplex,
            method,
            communication: crate::brew_setup::communication_type_raw(CommunicationType::P2p),
            grant: 0,
            permission: 0,
            timeout: 7,
            ownership: 0,
            queued: 0,
        }),
    }
}

/// The bearer opened on the caller's timeslot of call `c`. When both parties
/// share the timeslot it is opened for the called party with the caller as
/// second party; otherwise for the caller, carried across to the called
/// party's timeslot.
pub open spec fn calling_bearer(c: IndividualCall) -> BearerOpen {
    if c.calling_ts == c.called_ts {
        BearerOpen {
            ts: c.calling_ts,
            usage: c.calling_usage,
            peer_ts: None,
            primary: c.called_addr,
            secondary: Some(c.calling_addr),
        }
    } else {
        BearerOpen {
            ts: c.calling_ts,
            usage: c.calling_usage,
            peer_ts: Some(c.called_ts),
            primary: c.calling_addr,
            secondary: None,
        }
    }
}

/// The bearer opened on the called party's own timeslot of call `c`, if it
/// has one.
pub open spec fn called_bearer(c: IndividualCall) -> Option<BearerOpen> {
    if c.calling_ts == c.called_ts {
        None
    } else {
        Some(
            BearerOpen {
                ts: c.called_ts,
                usage: c.called_usage,
                peer_ts: Some(c.calling_ts),
                primary: c.called_addr,
                secondary: None,
            },
        )
    }
}

/// The D-CONNECT owed to the caller of a local private call once the
/// called party has acknowledged its connect.
#[derive(Clone, Copy, Debug, PartialEq, Eq, Structural)]
pub struct CallerDConnect {
    pub call_time_out: CallTimeout,
    pub hook_method_selection: bool,
    pub simplex_duplex_selection: bool,
    pub transmission_grant: TransmissionGrant,
    pub calling_addr: TetraAddress,
    pub calling: UplinkContext,
    /// Traffic timeslot and usage marker the caller is sent to.
    pub ts: u8,
    pub usage: u8,
}

/// What follows the delivery of the called party's D-CONNECT ACKNOWLEDGE.
#[derive(Clone, Copy, Debug, PartialEq, Eq, Structural)]
pub enum CalledDeliveryOutcome {
    /// The call is gone; nothing follows.
    CallGone,
    /// The call's D-SETUP is no longer known; the call is to be released.
    MissingCachedSetup,
    /// D-CONNECT goes to the caller; the call waits for its acknowledgement.
    CallerConnect { d_connect: CallerDConnect },
}

/// The floor that a simplex private call starts with.
#[derive(Clone, Copy, Debug, PartialEq, Eq, Structural)]
pub struct PrivateFloorGrant {
    pub source_issi: u32,
    pub dest_issi: u32,
    pub ts: u8,
}

/// What follows the delivery of the caller's D-CONNECT.
#[derive(Clone, Copy, Debug, PartialEq, Eq, Structural)]
pub enum CallerDeliveryOutcome {
    /// The call is gone; nothing follows.
    CallGone,
    /// The state machine refused to activate the call.
    ActivationRefused { error: IndividualTransitionError },
    /// The call is active; a simplex call announces its first floor.
    Activated { floor: Option<PrivateFloorGrant> },
}

/// The D-CONNECT for the caller of local private call `c` with D-SETUP
/// `cached`: a duplex call has no call timeout; the caller is granted the
/// floor unless the called party talks first.
pub open spec fn caller_d_connect(c: IndividualCall, cached: CachedPrivateSetup, call_timeout: CallTimeout) -> CallerDConnect {
    let called_first = !c.simplex_duplex && cached.hook_method_selection && c.request_to_transmit_send_data;
    CallerDConnect {
        call_time_out: if c.simplex_duplex {
            CallTimeout::Infinite
        } else {
            call_timeout
        },
        hook_method_selection: cached.hook_method_selection,
        simplex_duplex_selection: c.simplex_duplex,
        transmission_grant: if c.simplex_duplex {
            TransmissionGrant::Granted
        } else if called_first {
            TransmissionGrant::GrantedToOtherUser
        } else {
            TransmissionGrant::Granted
        },
        calling_addr: c.calling_addr,
        calling: UplinkContext {
            handle: c.calling_handle,
            link_id: c.calling_link_id,
            endpoint_id: c.calling_endpoint_id,
        },
        ts: c.calling_ts,
        usage: c.calling_usage,
    }
}

/// The first floor of simplex private call `c`: the called party's when it
/// talks first, else the caller's, on the talker's timeslot.
pub open spec fn first_private_floor(c: IndividualCall, cached: CachedPrivateSetup) -> PrivateFloorGrant {
    if cached.hook_method_selection && c.request_to_transmit_send_data {
        PrivateFloorGrant { source_issi: c.called_addr.ssi, dest_issi: c.calling_addr.ssi, ts: c.called_ts }
    } else {
        PrivateFloorGrant { source_issi: c.calling_addr.ssi, dest_issi: c.called_addr.ssi, ts: c.calling_ts }
    }
}

/// Call `c` made active at `now`.
pub open spec fn activated_call(c: IndividualCall, now: crate::tdma::TdmaTime) -> IndividualCall {
    IndividualCall {
        state: IndividualCallState::Active,
        setup_timer_started: None,
        setup_timeout: None,
        active_timer_started: Some(now),
        connect_request_sent: false,
        ..c
    }
}

fn option_u8_eq(a: Option<u8>, b: Option<u8>) -> (r: bool)
    ensures
        r == (a == b),
{
    match (a, b) {
        (Some(x), Some(y)) => x == y,
        (None, None) => true,
        _ => false,
    }
}

/// Outcome of a U-CONNECT (see [`CcBsSubentity::fsm_on_u_connect`]):
/// `before`/`after` are the sub-entity and `alloc_before`/`alloc_after` the
/// timeslot allocator before and after the handling that answered `r`.
pub open spec fn u_connect_done(
    before: CcBsSubentity,
    after: CcBsSubentity,
    alloc_before: TimeslotAllocator,
    alloc_after: TimeslotAllocator,
    received_tetra_address: TetraAddress,
    handle: u32,
    link_id: u32,
    endpoint_id: u32,
    pdu: UConnectPdu,
    cached: Option<CachedPrivateSetup>,
    pending_connect_acks: Set<u16>,
    call_timeout: CallTimeout,
    r: UConnectOutcome,
) -> bool {
    let call_id = pdu.call_identifier;
    let m = before.individual_calls@;
    let unchanged = after == before && alloc_after == alloc_before;
    let requested = match cached {
        Some(s) => Some(s.basic_service_information),
        None => None,
    };
    if !m.contains_key(call_id) {
        r is UnknownCall && unchanged
    } else if m[call_id].state == IndividualCallState::Active {
        r is AlreadyActive && unchanged
    } else if m[call_id].state == IndividualCallState::CalledConnectAckPending || m[call_id].state
        == IndividualCallState::CallerConnectAckPending {
        r is ConnectAckPending && unchanged
    } else if m[call_id].called_addr.ssi != received_tetra_address.ssi {
        r is UnexpectedSender && unchanged
    } else if u_connect_refusal(pdu, requested) is Some {
        (r matches UConnectOutcome::FunctionNotSupported { pointer } && pointer == u_connect_refusal(
            pdu,
            requested,
        )->0) && unchanged
    } else {
        let c = after_offer(m[call_id], pdu.simplex_duplex_selection, call_timeout);
        let bound = with_called_context(c, Some((handle, link_id, endpoint_id)));
        let calls = after.individual_calls@;
        &&& offer_bearers(
            m[call_id],
            pdu.simplex_duplex_selection,
            before.circuits,
            alloc_before.owners@,
            after.circuits,
            alloc_after.owners@,
        )
        &&& if !individual_transition_allowed(c.state, IndividualEvent::BindCalledContext) {
            &&& r matches UConnectOutcome::BindRefused { error }
            &&& error == IndividualTransitionError::InvalidTransition {
                call_id,
                state: c.state,
                event: IndividualEvent::BindCalledContext,
            }
            &&& calls == m.insert(call_id, c)
        } else if c.calling_over_brew {
            if c.brew_uuid is None {
                r is MissingBrewUuid && calls == m.insert(call_id, bound)
            } else if c.connect_request_sent {
                &&& r matches UConnectOutcome::MarkRefused { error }
                &&& error == IndividualTransitionError::ConnectRequestAlreadySent(call_id)
                &&& calls == m.insert(call_id, bound)
            } else {
                &&& r matches UConnectOutcome::ForwardToNetwork { brew_uuid, call }
                &&& brew_uuid == c.brew_uuid->0
                &&& connect_request_fields(call, c, pdu)
                &&& calls.contains_key(call_id)
                &&& calls[call_id].network_call matches Some(stored)
                &&& connect_request_fields(stored, c, pdu)
                &&& calls == m.insert(
                    call_id,
                    IndividualCall {
                        connect_request_sent: true,
                        network_call: calls[call_id].network_call,
                        state: IndividualCallState::IncomingSetupWaitNetworkAck,
                        ..bound
                    },
                )
            }
        } else if cached is None {
            r is NoCachedSetup && calls == m.insert(call_id, bound)
        } else if pending_connect_acks.contains(call_id) {
            r is DeliveryGuardPending && calls == m.insert(call_id, bound)
        } else {
            &&& r matches UConnectOutcome::ConnectCalled {
                called_ms_transmits_first,
                calling_bearer: calling,
                called_bearer: called,
                d_connect_ack,
            }
            &&& called_ms_transmits_first == (!c.simplex_duplex && cached->0.hook_method_selection
                && c.request_to_transmit_send_data)
            &&& d_connect_ack == called_d_connect_ack(bound, called_ms_transmits_first, call_timeout)
            &&& calling == calling_bearer(c)
            &&& called == called_bearer(c)
            &&& calls == m.insert(
                call_id,
                IndividualCall { state: IndividualCallState::CalledConnectAckPending, ..bound },
            )
        }
    }
}

impl CcBsSubentity {
    /// Two basic service descriptions name the same service.
    pub fn basic_service_information_matches(a: &BasicServiceInformation, b: &BasicServiceInformation) -> (r: bool)
        ensures
            r == (*a == *b),
    {
        a.circuit_mode_type == b.circuit_mode_type && a.encryption_flag == b.encryption_flag
            && a.communication_type == b.communication_type && option_u8_eq(a.slots_per_frame, b.slots_per_frame)
            && option_u8_eq(a.speech_service, b.speech_service)
    }

    /// Whether an offered basic service is refused against the requested one.
    fn offer_refused(offered: Option<BasicServiceInformation>, requested: Option<BasicServiceInformation>) -> (r:
        bool)
        ensures
            r == basic_service_offer_refused(offered, requested),
    {
        match offered {
            Some(o) => match requested {
                Some(q) => !Self::basic_service_information_matches(&o, &q),
                None => true,
            },
            None => false,
        }
    }

    /// The element of a U-CONNECT that call control does not support, with
    /// the reason: a basic service offer other than the requested one, a
    /// facility or a proprietary element.
    pub fn unsupported_u_connect_function(pdu: &UConnectPdu, requested_basic_service: Option<
        BasicServiceInformation,
    >) -> (r: Option<(u8, &'static str)>)
        ensures
            r is Some <==> u_connect_refusal(*pdu, requested_basic_service) is Some,
            r matches Some((p, _)) ==> p == u_connect_refusal(*pdu, requested_basic_service)->0,
    {
        if Self::offer_refused(pdu.basic_service_information, requested_basic_service) {
            return Some((CMCE_FNS_PTR_U_CONNECT_BASIC_SERVICE_INFORMATION, "basic_service_information offer not supported"));
        }
        if pdu.has_facility {
            return Some((CMCE_FNS_PTR_U_CONNECT_TYPE3, "facility not supported"));
        }
        if pdu.has_proprietary {
            return Some((CMCE_FNS_PTR_U_CONNECT_TYPE3, "proprietary not supported"));
        }
        None
    }

    /// The element of a U-ALERT that call control does not support, with the
    /// reason: a cleared reserved bit, a basic service offer other than the
    /// requested one, a facility or a proprietary element.
    pub fn unsupported_u_alert_function(pdu: &UAlertPdu, requested_basic_service: Option<BasicServiceInformation>) -> (r:
        Option<(u8, &'static str)>)
        ensures
            r is Some <==> u_alert_refusal(*pdu, requested_basic_service) is Some,
            r matches Some((p, _)) ==> p == u_alert_refusal(*pdu, requested_basic_service)->0,
    {
        if !pdu.reserved {
            return Some((CMCE_FNS_PTR_U_ALERT_RESERVED, "reserved bit clear"));
        }
        if Self::offer_refused(pdu.basic_service_information, requested_basic_service) {
            return Some((CMCE_FNS_PTR_U_ALERT_BASIC_SERVICE_INFORMATION, "basic_service_information offer not supported"));
        }
        if pdu.has_facility {
            return Some((CMCE_FNS_PTR_U_ALERT_TYPE3, "facility not supported"));
        }
        if pdu.has_proprietary {
            return Some((CMCE_FNS_PTR_U_ALERT_TYPE3, "proprietary not supported"));
        }
        None
    }

    /// Accepts the called party's offer of simplex for a requested duplex
    /// call `call_id` (EN 300 392-2 clauses 14.5.1.1.1 and 14.5.1.1.2): the
    /// call becomes simplex on the caller's timeslot, with `call_timeout`,
    /// and an unused called-side bearer is closed and its timeslot given
    /// back. A simplex call is left as it is. Returns the call as it now
    /// stands; `None` when there is no such call.
    pub fn accept_called_simplex_offer_for_requested_duplex(
        &mut self,
        call_id: u16,
        call_timeout: CallTimeout,
        timeslot_alloc: &mut TimeslotAllocator,
    ) -> (r: Option<IndividualCall>)
        requires
            old(self).circuits.wf(),
            old(self).individual_calls@.contains_key(call_id) ==> 1 <= old(self).individual_calls@[call_id].called_ts
                <= 4,
        ensures
            old(self).individual_calls_wf() ==> final(self).individual_calls_wf(),
            final(self).circuits.wf(),
            *final(self) == (CcBsSubentity {
                circuits: final(self).circuits,
                individual_calls: final(self).individual_calls,
                ..*old(self)
            }),
            !old(self).individual_calls@.contains_key(call_id) ==> r is None && *final(self) == *old(self)
                && *final(timeslot_alloc) == *old(timeslot_alloc),
            old(self).individual_calls@.contains_key(call_id) ==> ({
                let c = old(self).individual_calls@[call_id];
                let accepted = simplex_offer_accepted(c, call_timeout);
                &&& r is Some && same_individual_call(r->0, accepted)
                &&& final(self).individual_calls@ == old(self).individual_calls@.insert(call_id, accepted)
                &&& simplex_offer_bearers(
                    c,
                    old(self).circuits,
                    old(timeslot_alloc).owners@,
                    final(self).circuits,
                    final(timeslot_alloc).owners@,
                )
            }),
    {
        let (simplex_duplex, calling_ts, called_ts) = match self.individual_calls.get(&call_id) {
            Some(c) => (c.simplex_duplex, c.calling_ts, c.called_ts),
            None => {
                return None;
            },
        };
        let ghost m = self.individual_calls@;
        if !simplex_duplex {
            let snapshot = match self.individual_calls.get(&call_id) {
                Some(c) => c.duplicate(),
                None => {
                    return None;
                },
            };
            proof {
                assert(self.individual_calls@ =~= m.insert(call_id, m[call_id]));
            }
            return Some(snapshot);
        }
        if called_ts != calling_ts {
            let _ = self.circuits.close_circuit(Direction::Both, called_ts);
            let _ = timeslot_alloc.release(TimeslotOwner::Cmce, called_ts);
        }
        match self.individual_calls.remove(&call_id) {
            Some(mut call) => {
                call.simplex_duplex = false;
                call.called_ts = call.calling_ts;
                call.called_usage = call.calling_usage;
                call.call_timeout = call_timeout;
                let network_call = call.network_call;
                call.network_call = match network_call {
                    Some(mut n) => {
                        n.duplex = 0;
                        Some(n)
                    },
                    None => None,
                };
                let snapshot = call.duplicate();
                self.individual_calls.insert(call_id, call);
                proof {
                    assert(self.individual_calls@ =~= m.insert(call_id, simplex_offer_accepted(m[call_id], call_timeout)));
                }
                Some(snapshot)
            },
            None => None,
        }
    }

    /// Alerts call `call_id` (EN 300 392-2 clause 14.5.1.1.1): binds the
    /// called party's link context `called_handle_ctx` (handle, link,
    /// endpoint) if given, marks the call alerting and restarts its setup
    /// timer with `setup_timeout`. Returns what the caller is owed.
    pub fn fsm_individual_on_alert(
        &mut self,
        call_id: u16,
        called_handle_ctx: Option<(u32, u32, u32)>,
        setup_timeout: CallTimeoutSetupPhase,
    ) -> (r: Result<AlertNotice, IndividualTransitionError>)
        ensures
            old(self).individual_calls_wf() ==> final(self).individual_calls_wf(),
            final(self).same_except_individual_calls(old(self)),
            ({
                let m = old(self).individual_calls@;
                if !m.contains_key(call_id) {
                    r == Err::<AlertNotice, IndividualTransitionError>(IndividualTransitionError::UnknownCall(call_id))
                        && final(self).individual_calls@ == m
                } else {
                    &&& r == alert_result(m[call_id], call_id, setup_timeout)
                    &&& final(self).individual_calls@ == m.insert(
                        call_id,
                        alert_record(m[call_id], called_handle_ctx, setup_timeout, old(self).dltime),
                    )
                }
            }),
    {
        let ghost m = self.individual_calls@;
        let (state, calling_over_brew, brew_uuid, notice) = match self.individual_calls.get(&call_id) {
            Some(c) => {
                let notice = if c.calling_over_brew {
                    AlertNotice::NetworkAlert {
                        brew_uuid: match c.brew_uuid {
                            Some(u) => u,
                            None => 0,
                        },
                    }
                } else if !c.is_alerted() {
                    AlertNotice::DAlert {
                        simplex_duplex: c.simplex_duplex,
                        calling_addr: c.calling_addr,
                        calling: UplinkContext {
                            handle: c.calling_handle,
                            link_id: c.calling_link_id,
                            endpoint_id: c.calling_endpoint_id,
                        },
                        setup_timeout,
                    }
                } else {
                    AlertNotice::AlreadyAlerted
                };
                (c.state, c.calling_over_brew, c.brew_uuid, notice)
            },
            None => {
                return Err(IndividualTransitionError::UnknownCall(call_id));
            },
        };
        match Self::validate_individual_transition(call_id, state, IndividualEvent::Alert) {
            Ok(()) => {},
            Err(e) => {
                proof {
                    assert(self.individual_calls@ =~= m.insert(call_id, m[call_id]));
                }
                return Err(e);
            },
        }
        match called_handle_ctx {
            Some((handle, link_id, endpoint_id)) => {
                match self.fsm_individual_bind_called_context(call_id, handle, link_id, endpoint_id) {
                    Ok(()) => {},
                    Err(e) => {
                        return Err(e);
                    },
                }
            },
            None => {
                proof {
                    assert(self.individual_calls@ =~= m.insert(call_id, m[call_id]));
                }
            },
        }
        if calling_over_brew && brew_uuid.is_none() {
            return Err(IndividualTransitionError::MissingBrewUuid(call_id));
        }
        let now = self.dltime;
        match self.individual_calls.remove(&call_id) {
            Some(mut call) => {
                call.mark_alerted(now, setup_timeout);
                self.individual_calls.insert(call_id, call);
                proof {
                    assert(self.individual_calls@ =~= m.insert(
                        call_id,
                        alert_record(m[call_id], called_handle_ctx, setup_timeout, now),
                    ));
                }
            },
            None => {},
        }
        Ok(notice)
    }

    /// Handles a U-ALERT from `received_tetra_address` on link (`handle`,
    /// `link_id`, `endpoint_id`): it must come from the called party of the
    /// call; a simplex offer for a duplex call is accepted (with
    /// `call_timeout`), then the call is alerted with a 60 s setup timeout.
    pub fn fsm_on_u_alert(
        &mut self,
        received_tetra_address: TetraAddress,
        handle: u32,
        link_id: u32,
        endpoint_id: u32,
        pdu: UAlertPdu,
        call_timeout: CallTimeout,
        timeslot_alloc: &mut TimeslotAllocator,
    ) -> (r: UAlertOutcome)
        requires
            old(self).circuits.wf(),
            old(self).individual_calls_wf(),
        ensures
            final(self).individual_calls_wf(),
            final(self).circuits.wf(),
            *final(self) == (CcBsSubentity {
                circuits: final(self).circuits,
                individual_calls: final(self).individual_calls,
                ..*old(self)
            }),
            ({
                let call_id = pdu.call_identifier;
                let m = old(self).individual_calls@;
                let unchanged = *final(self) == *old(self) && *final(timeslot_alloc) == *old(timeslot_alloc);
                if !m.contains_key(call_id) {
                    r == UAlertOutcome::UnknownCall && unchanged
                } else if m[call_id].called_addr.ssi != received_tetra_address.ssi {
                    r == UAlertOutcome::UnexpectedSender && unchanged
                } else {
                    let c = after_offer(m[call_id], pdu.simplex_duplex_selection, call_timeout);
                    let ctx = Some((handle, link_id, endpoint_id));
                    &&& offer_bearers(
                        m[call_id],
                        pdu.simplex_duplex_selection,
                        old(self).circuits,
                        old(timeslot_alloc).owners@,
                        final(self).circuits,
                        final(timeslot_alloc).owners@,
                    )
                    &&& final(self).individual_calls@ == m.insert(
                        call_id,
                        alert_record(c, ctx, CallTimeoutSetupPhase::T60s, old(self).dltime),
                    )
                    &&& r == match alert_result(c, call_id, CallTimeoutSetupPhase::T60s) {
                        Ok(notice) => UAlertOutcome::Alerted { notice },
                        Err(error) => UAlertOutcome::Refused { error },
                    }
                }
            }),
    {
        let call_id = pdu.call_identifier;
        let (called_ssi, simplex_duplex) = match self.individual_calls.get(&call_id) {
            Some(c) => (c.called_addr.ssi, c.simplex_duplex),
            None => {
                return UAlertOutcome::UnknownCall;
            },
        };
        if called_ssi != received_tetra_address.ssi {
            return UAlertOutcome::UnexpectedSender;
        }
        let ghost m = self.individual_calls@;
        if simplex_duplex && !pdu.simplex_duplex_selection {
            let _ = self.accept_called_simplex_offer_for_requested_duplex(call_id, call_timeout, timeslot_alloc);
        }
        proof {
            assert(self.individual_calls@ =~= m.insert(
                call_id,
                after_offer(m[call_id], pdu.simplex_duplex_selection, call_timeout),
            ));
        }
        let ghost m1 = self.individual_calls@;
        let r = self.fsm_individual_on_alert(call_id, Some((handle, link_id, endpoint_id)), CallTimeoutSetupPhase::T60s);
        proof {
            assert(m1.insert(call_id, alert_record(m1[call_id], Some((handle, link_id, endpoint_id)), CallTimeoutSetupPhase::T60s, old(self).dltime)) =~= m.insert(call_id, alert_record(m1[call_id], Some((handle, link_id, endpoint_id)), CallTimeoutSetupPhase::T60s, old(self).dltime)));
        }
        match r {
            Ok(notice) => UAlertOutcome::Alerted { notice },
            Err(error) => UAlertOutcome::Refused { error },
        }
    }

    /// The CONNECT_REQUEST description for bridge-originated call `c`
    /// answered with `pdu`.
    fn connect_request_call(c: &IndividualCall, pdu: &UConnectPdu) -> (r: NetworkCircuitCall)
        ensures
            connect_request_fields(r, *c, *pdu),
    {
        let duplex: u8 = if pdu.simplex_duplex_selection {
            1
        } else {
            0
        };
        let method: u8 = if pdu.hook_method_selection {
            1
        } else {
            0
        };
        match &c.network_call {
            Some(n) => {
                let mut call = n.duplicate();
                call.duplex = duplex;
                call.method = method;
                call.grant = 0;
                call.permission = 0;
                call
            },
            None => NetworkCircuitCall {
                source_issi: c.calling_addr.ssi,
                destination: c.called_addr.ssi,
                number: decimal_string_of(c.called_addr.ssi),
                priority: 0,
                service: 0,
                mode: CircuitModeType::TchS.into_raw(),
                duplex,
                method,
                communication: CommunicationType::P2p.into_raw(),
                grant: 0,
                permission: 0,
                timeout: 7,
                ownership: 0,
                queued: 0,
            },
        }
    }

    /// The D-CONNECT for the caller of local private call `c` with D-SETUP
    /// `cached`.
    pub fn caller_d_connect_for(c: &IndividualCall, cached: &CachedPrivateSetup, call_timeout: CallTimeout) -> (r:
        CallerDConnect)
        ensures
            r == caller_d_connect(*c, *cached, call_timeout),
    {
        let called_ms_transmits_first = Self::private_simplex_called_ms_transmits_first(
            c.simplex_duplex,
            cached.hook_method_selection,
            c.request_to_transmit_send_data,
        );
        let (_, calling_grant) = Self::private_connect_grants(c.simplex_duplex, called_ms_transmits_first);
        CallerDConnect {
            call_time_out: if c.simplex_duplex {
                CallTimeout::Infinite
            } else {
                call_timeout
            },
            hook_method_selection: cached.hook_method_selection,
            simplex_duplex_selection: c.simplex_duplex,
            transmission_grant: calling_grant,
            calling_addr: c.calling_addr,
            calling: UplinkContext {
                handle: c.calling_handle,
                link_id: c.calling_link_id,
                endpoint_id: c.calling_endpoint_id,
            },
            ts: c.calling_ts,
            usage: c.calling_usage,
        }
    }

    /// The D-CONNECT ACKNOWLEDGE for the called party of call `c`.
    pub fn called_d_connect_ack_for(c: &IndividualCall, called_ms_transmits_first: bool, call_timeout: CallTimeout) -> (r:
        CalledDConnectAck)
        ensures
            r == called_d_connect_ack(*c, called_ms_transmits_first, call_timeout),
    {
        let (called_grant, _) = Self::private_connect_grants(c.simplex_duplex, called_ms_transmits_first);
        CalledDConnectAck {
            call_time_out: if c.simplex_duplex {
                CallTimeout::Infinite
            } else {
                call_timeout
            },
            transmission_grant: called_grant,
            called: UplinkContext {
                handle: match c.called_handle {
                    Some(h) => h,
                    None => 0,
                },
                link_id: match c.called_link_id {
                    Some(l) => l,
                    None => 0,
                },
                endpoint_id: match c.called_endpoint_id {
                    Some(e) => e,
                    None => 0,
                },
            },
            called_addr: c.called_addr,
            ts: c.called_ts,
            usage: c.called_usage,
        }
    }

    /// The bearers to open for the connected local private call `c`.
    fn private_connect_bearers(c: &IndividualCall) -> (r: (BearerOpen, Option<BearerOpen>))
        ensures
            r == (calling_bearer(*c), called_bearer(*c)),
    {
        if c.calling_ts == c.called_ts {
            (
                BearerOpen {
                    ts: c.calling_ts,
                    usage: c.calling_usage,
                    peer_ts: None,
                    primary: c.called_addr,
                    secondary: Some(c.calling_addr),
                },
                None,
            )
        } else {
            (
                BearerOpen {
                    ts: c.calling_ts,
                    usage: c.calling_usage,
                    peer_ts: Some(c.called_ts),
                    primary: c.calling_addr,
                    secondary: None,
                },
                Some(
                    BearerOpen {
                        ts: c.called_ts,
                        usage: c.called_usage,
                        peer_ts: Some(c.calling_ts),
                        primary: c.called_addr,
                        secondary: None,
                    },
                ),
            )
        }
    }

    /// Handles a U-CONNECT from `received_tetra_address` on link (`handle`,
    /// `link_id`, `endpoint_id`). It is ignored for an active call, while a
    /// connect acknowledgement is awaited, or from another ISSI than the
    /// called party's, and refused with CMCE FUNCTION NOT SUPPORTED for
    /// elements that call control does not support. Otherwise a simplex
    /// offer for a duplex call is accepted (with `call_timeout`) and the
    /// called party's link bound. A bridge-originated call then records and
    /// forwards the connect request to the bridge. A local call, whose
    /// D-SETUP is `cached` and none of whose connect deliveries is guarded
    /// (`pending_connect_acks`), opens its bearers and waits for the called
    /// party to acknowledge D-CONNECT ACKNOWLEDGE.
    pub fn fsm_on_u_connect(
        &mut self,
        received_tetra_address: TetraAddress,
        handle: u32,
        link_id: u32,
        endpoint_id: u32,
        pdu: UConnectPdu,
        cached: Option<CachedPrivateSetup>,
        pending_connect_acks: &HashSet<u16>,
        call_timeout: CallTimeout,
        timeslot_alloc: &mut TimeslotAllocator,
    ) -> (r: UConnectOutcome)
        requires
            old(self).circuits.wf(),
            old(self).individual_calls_wf(),
        ensures
            final(self).circuits.wf(),
            final(self).individual_calls_wf(),
            *final(self) == (CcBsSubentity {
                circuits: final(self).circuits,
                individual_calls: final(self).individual_calls,
                ..*old(self)
            }),
            ({
                let call_id = pdu.call_identifier;
                let m = old(self).individual_calls@;
                let unchanged = *final(self) == *old(self) && *final(timeslot_alloc) == *old(timeslot_alloc);
                let requested = match cached {
                    Some(s) => Some(s.basic_service_information),
                    None => None,
                };
                if !m.contains_key(call_id) {
                    r is UnknownCall && unchanged
                } else if m[call_id].state == IndividualCallState::Active {
                    r is AlreadyActive && unchanged
                } else if m[call_id].state == IndividualCallState::CalledConnectAckPending || m[call_id].state
                    == IndividualCallState::CallerConnectAckPending {
                    r is ConnectAckPending && unchanged
                } else if m[call_id].called_addr.ssi != received_tetra_address.ssi {
                    r is UnexpectedSender && unchanged
                } else if u_connect_refusal(pdu, requested) is Some {
                    (r matches UConnectOutcome::FunctionNotSupported { pointer } && pointer == u_connect_refusal(
                        pdu,
                        requested,
                    )->0) && unchanged
                } else {
                    let c = after_offer(m[call_id], pdu.simplex_duplex_selection, call_timeout);
                    let bound = with_called_context(c, Some((handle, link_id, endpoint_id)));
                    let calls = final(self).individual_calls@;
                    &&& offer_bearers(
                        m[call_id],
                        pdu.simplex_duplex_selection,
                        old(self).circuits,
                        old(timeslot_alloc).owners@,
                        final(self).circuits,
                        final(timeslot_alloc).owners@,
                    )
                    &&& if !individual_transition_allowed(c.state, IndividualEvent::BindCalledContext) {
                        &&& r matches UConnectOutcome::BindRefused { error }
                        &&& error == IndividualTransitionError::InvalidTransition {
                            call_id,
                            state: c.state,
                            event: IndividualEvent::BindCalledContext,
                        }
                        &&& calls == m.insert(call_id, c)
                    } else if c.calling_over_brew {
                        if c.brew_uuid is None {
                            r is MissingBrewUuid && calls == m.insert(call_id, bound)
                        } else if c.connect_request_sent {
                            &&& r matches UConnectOutcome::MarkRefused { error }
                            &&& error == IndividualTransitionError::ConnectRequestAlreadySent(call_id)
                            &&& calls == m.insert(call_id, bound)
                        } else {
                            &&& r matches UConnectOutcome::ForwardToNetwork { brew_uuid, call }
                            &&& brew_uuid == c.brew_uuid->0
                            &&& connect_request_fields(call, c, pdu)
                            &&& calls.contains_key(call_id)
                            &&& calls[call_id].network_call matches Some(stored)
                            &&& connect_request_fields(stored, c, pdu)
                            &&& calls == m.insert(
                                call_id,
                                IndividualCall {
                                    connect_request_sent: true,
                                    network_call: calls[call_id].network_call,
                                    state: IndividualCallState::IncomingSetupWaitNetworkAck,
                                    ..bound
                                },
                            )
                        }
                    } else if cached is None {
                        r is NoCachedSetup && calls == m.insert(call_id, bound)
                    } else if pending_connect_acks@.contains(call_id) {
                        r is DeliveryGuardPending && calls == m.insert(call_id, bound)
                    } else {
                        &&& r matches UConnectOutcome::ConnectCalled {
                            called_ms_transmits_first,
                            calling_bearer: calling,
                            called_bearer: called,
                            d_connect_ack,
                        }
                        &&& called_ms_transmits_first == (!c.simplex_duplex && cached->0.hook_method_selection
                            && c.request_to_transmit_send_data)
                        &&& d_connect_ack == called_d_connect_ack(bound, called_ms_transmits_first, call_timeout)
                        &&& calling == calling_bearer(c)
                        &&& called == called_bearer(c)
                        &&& calls == m.insert(
                            call_id,
                            IndividualCall { state: IndividualCallState::CalledConnectAckPending, ..bound },
                        )
                    }
                }
            }),
    {
        let call_id = pdu.call_identifier;
        let (active, ack_pending, called_ssi, simplex_duplex) = match self.individual_calls.get(&call_id) {
            Some(c) => (c.is_active(), c.is_connect_ack_pending(), c.called_addr.ssi, c.simplex_duplex),
            None => {
                return UConnectOutcome::UnknownCall;
            },
        };
        if active {
            return UConnectOutcome::AlreadyActive;
        }
        if ack_pending {
            return UConnectOutcome::ConnectAckPending;
        }
        if called_ssi != received_tetra_address.ssi {
            return UConnectOutcome::UnexpectedSender;
        }
        let requested = match cached {
            Some(s) => Some(s.basic_service_information),
            None => None,
        };
        match Self::unsupported_u_connect_function(&pdu, requested) {
            Some((pointer, _)) => {
                return UConnectOutcome::FunctionNotSupported { pointer };
            },
            None => {},
        }
        let ghost m = self.individual_calls@;
        if simplex_duplex && !pdu.simplex_duplex_selection {
            let _ = self.accept_called_simplex_offer_for_requested_duplex(call_id, call_timeout, timeslot_alloc);
        }
        proof {
            assert(self.individual_calls@ =~= m.insert(
                call_id,
                after_offer(m[call_id], pdu.simplex_duplex_selection, call_timeout),
            ));
        }
        let ghost c = after_offer(m[call_id], pdu.simplex_duplex_selection, call_timeout);
        let snapshot = match self.individual_calls.get(&call_id) {
            Some(s) => s.duplicate(),
            None => {
                return UConnectOutcome::UnknownCall;
            },
        };
        match self.fsm_individual_bind_called_context(call_id, handle, link_id, endpoint_id) {
            Ok(()) => {},
            Err(error) => {
                match error {
                    IndividualTransitionError::UnknownCall(_) | IndividualTransitionError::InvalidTransition {
                        ..
                    } => {
                        return UConnectOutcome::BindRefused { error };
                    },
                    _ => {},
                }
            },
        }
        proof {
            assert(self.individual_calls@ =~= m.insert(call_id, with_called_context(c, Some((handle, link_id, endpoint_id)))));
        }
        if snapshot.calling_over_brew {
            let brew_uuid = match snapshot.brew_uuid {
                Some(u) => u,
                None => {
                    return UConnectOutcome::MissingBrewUuid;
                },
            };
            let call_info = Self::connect_request_call(&snapshot, &pdu);
            let sent = call_info.duplicate();
            match self.fsm_individual_mark_connect_request_sent(call_id, sent) {
                Ok(()) => {},
                Err(error) => {
                    return UConnectOutcome::MarkRefused { error };
                },
            }
            return UConnectOutcome::ForwardToNetwork { brew_uuid, call: call_info };
        }
        let cached = match cached {
            Some(s) => s,
            None => {
                return UConnectOutcome::NoCachedSetup;
            },
        };
        let called_ms_transmits_first = Self::private_simplex_called_ms_transmits_first(
            snapshot.simplex_duplex,
            cached.hook_method_selection,
            snapshot.request_to_transmit_send_data,
        );
        if pending_connect_acks.contains(&call_id) {
            return UConnectOutcome::DeliveryGuardPending;
        }
        let (calling, called) = Self::private_connect_bearers(&snapshot);
        let ghost mb = self.individual_calls@;
        let mut d_connect_ack = CalledDConnectAck {
            call_time_out: call_timeout,
            transmission_grant: TransmissionGrant::Granted,
            called: UplinkContext { handle: 0, link_id: 0, endpoint_id: 0 },
            called_addr: snapshot.called_addr,
            ts: snapshot.called_ts,
            usage: snapshot.called_usage,
        };
        match self.individual_calls.remove(&call_id) {
            Some(mut call) => {
                d_connect_ack = Self::called_d_connect_ack_for(&call, called_ms_transmits_first, call_timeout);
                call.mark_called_connect_ack_pending();
                self.individual_calls.insert(call_id, call);
                proof {
                    assert(self.individual_calls@ =~= mb.insert(
                        call_id,
                        IndividualCall { state: IndividualCallState::CalledConnectAckPending, ..mb[call_id] },
                    ));
                }
            },
            None => {},
        }
        UConnectOutcome::ConnectCalled {
            called_ms_transmits_first,
            calling_bearer: calling,
            called_bearer: called,
            d_connect_ack,
        }
    }

    /// Once the called party has acknowledged D-CONNECT ACKNOWLEDGE of local
    /// private call `call_id` (D-SETUP `cached`), the caller is sent
    /// D-CONNECT (with `call_timeout` for a simplex call) and the call waits
    /// for the caller's acknowledgement.
    pub fn complete_private_connect_after_called_delivery(
        &mut self,
        call_id: u16,
        cached: Option<CachedPrivateSetup>,
        call_timeout: CallTimeout,
    ) -> (r: CalledDeliveryOutcome)
        ensures
            old(self).individual_calls_wf() ==> final(self).individual_calls_wf(),
            final(self).same_except_individual_calls(old(self)),
            ({
                let m = old(self).individual_calls@;
                if !m.contains_key(call_id) {
                    r == CalledDeliveryOutcome::CallGone && final(self).individual_calls@ == m
                } else if cached is None {
                    r == CalledDeliveryOutcome::MissingCachedSetup && final(self).individual_calls@ == m
                } else {
                    &&& r == (CalledDeliveryOutcome::CallerConnect {
                        d_connect: caller_d_connect(m[call_id], cached->0, call_timeout),
                    })
                    &&& final(self).individual_calls@ == m.insert(
                        call_id,
                        IndividualCall { state: IndividualCallState::CallerConnectAckPending, ..m[call_id] },
                    )
                }
            }),
    {
        let ghost m = self.individual_calls@;
        if !self.individual_calls.contains_key(&call_id) {
            return CalledDeliveryOutcome::CallGone;
        }
        let cached = match cached {
            Some(c) => c,
            None => {
                return CalledDeliveryOutcome::MissingCachedSetup;
            },
        };
        match self.individual_calls.remove(&call_id) {
            Some(mut call) => {
                let called_ms_transmits_first = Self::private_simplex_called_ms_transmits_first(
                    call.simplex_duplex,
                    cached.hook_method_selection,
                    call.request_to_transmit_send_data,
                );
                let (_, calling_grant) = Self::private_connect_grants(call.simplex_duplex, called_ms_transmits_first);
                let d_connect = CallerDConnect {
                    call_time_out: if call.simplex_duplex {
                        CallTimeout::Infinite
                    } else {
                        call_timeout
                    },
                    hook_method_selection: cached.hook_method_selection,
                    simplex_duplex_selection: call.simplex_duplex,
                    transmission_grant: calling_grant,
                    calling_addr: call.calling_addr,
                    calling: UplinkContext {
                        handle: call.calling_handle,
                        link_id: call.calling_link_id,
                        endpoint_id: call.calling_endpoint_id,
                    },
                    ts: call.calling_ts,
                    usage: call.calling_usage,
                };
                call.mark_caller_connect_ack_pending();
                self.individual_calls.insert(call_id, call);
                proof {
                    assert(self.individual_calls@ =~= m.insert(
                        call_id,
                        IndividualCall { state: IndividualCallState::CallerConnectAckPending, ..m[call_id] },
                    ));
                }
                CalledDeliveryOutcome::CallerConnect { d_connect }
            },
            None => CalledDeliveryOutcome::CallGone,
        }
    }

    /// Once the caller has acknowledged D-CONNECT of local private call
    /// `call_id` (D-SETUP `cached`), the call becomes active; a simplex call
    /// gives its first floor to the party that talks first.
    pub fn complete_private_connect_after_caller_connect_delivery(
        &mut self,
        call_id: u16,
        cached: Option<CachedPrivateSetup>,
    ) -> (r: CallerDeliveryOutcome)
        ensures
            old(self).individual_calls_wf() ==> final(self).individual_calls_wf(),
            final(self).same_except_individual_calls(old(self)),
            ({
                let m = old(self).individual_calls@;
                if !m.contains_key(call_id) {
                    r == CallerDeliveryOutcome::CallGone && final(self).individual_calls@ == m
                } else if !individual_transition_allowed(m[call_id].state, IndividualEvent::Connect) {
                    &&& r == (CallerDeliveryOutcome::ActivationRefused {
                        error: IndividualTransitionError::InvalidTransition {
                            call_id,
                            state: m[call_id].state,
                            event: IndividualEvent::Connect,
                        },
                    })
                    &&& final(self).individual_calls@ == m
                } else {
                    let active = activated_call(m[call_id], old(self).dltime);
                    if !m[call_id].simplex_duplex && cached is Some {
                        let floor = first_private_floor(m[call_id], cached->0);
                        &&& r == (CallerDeliveryOutcome::Activated { floor: Some(floor) })
                        &&& final(self).individual_calls@ == m.insert(
                            call_id,
                            IndividualCall {
                                floor_holder: Some(floor.source_issi),
                                last_floor_holder: Some(floor.source_issi),
                                ..active
                            },
                        )
                    } else {
                        r == (CallerDeliveryOutcome::Activated { floor: None }) && final(self).individual_calls@
                            == m.insert(call_id, active)
                    }
                }
            }),
    {
        let ghost m = self.individual_calls@;
        let (simplex_duplex, request_to_transmit, calling_ssi, called_ssi, calling_ts, called_ts) =
            match self.individual_calls.get(&call_id) {
            Some(c) => (
                c.simplex_duplex,
                c.request_to_transmit_send_data,
                c.calling_addr.ssi,
                c.called_addr.ssi,
                c.calling_ts,
                c.called_ts,
            ),
            None => {
                return CallerDeliveryOutcome::CallGone;
            },
        };
        match self.fsm_individual_transition_to_active(call_id) {
            Ok(()) => {},
            Err(error) => {
                return CallerDeliveryOutcome::ActivationRefused { error };
            },
        }
        if simplex_duplex {
            return CallerDeliveryOutcome::Activated { floor: None };
        }
        let cached = match cached {
            Some(c) => c,
            None => {
                return CallerDeliveryOutcome::Activated { floor: None };
            },
        };
        let called_ms_transmits_first = Self::private_simplex_called_ms_transmits_first(
            simplex_duplex,
            cached.hook_method_selection,
            request_to_transmit,
        );
        let floor = if called_ms_transmits_first {
            PrivateFloorGrant { source_issi: called_ssi, dest_issi: calling_ssi, ts: called_ts }
        } else {
            PrivateFloorGrant { source_issi: calling_ssi, dest_issi: called_ssi, ts: calling_ts }
        };
        let ghost ma = self.individual_calls@;
        match self.individual_calls.remove(&call_id) {
            Some(mut call) => {
                call.set_floor_holder(floor.source_issi);
                self.individual_calls.insert(call_id, call);
                proof {
                    assert(self.individual_calls@ =~= ma.insert(
                        call_id,
                        IndividualCall {
                            floor_holder: Some(floor.source_issi),
                            last_floor_holder: Some(floor.source_issi),
                            ..ma[call_id]
                        },
                    ));
                }
            },
            None => {},
        }
        CallerDeliveryOutcome::Activated { floor: Some(floor) }
    }

    /// The call timeout to announce for a configured limit of
    /// `call_timeout_secs` seconds (0 means no limit).
    pub fn config_call_timeout(call_timeout_secs: u32) -> (r: CallTimeout)
        ensures
            r == configured_call_timeout(call_timeout_secs),
    {
        let secs = call_timeout_secs;
        if secs == 0 {
            CallTimeout::Infinite
        } else if secs <= 37 {
            CallTimeout::T30s
        } else if secs <= 52 {
            CallTimeout::T45s
        } else if secs <= 90 {
            CallTimeout::T60s
        } else if secs <= 150 {
            CallTimeout::T2m
        } else if secs <= 210 {
            CallTimeout::T3m
        } else if secs <= 270 {
            CallTimeout::T4m
        } else if secs <= 390 {
            CallTimeout::T5m
        } else if secs <= 540 {
            CallTimeout::T6m
        } else if secs <= 720 {
            CallTimeout::T8m
        } else if secs <= 900 {
            CallTimeout::T10m
        } else if secs <= 1080 {
            CallTimeout::T12m
        } else if secs <= 1350 {
            CallTimeout::T15m
        } else if secs <= 1800 {
            CallTimeout::T20m
        } else {
            CallTimeout::T30m
        }
    }
}

/// In a simplex private call between two stations, the caller's D-CONNECT
/// grants the caller the floor exactly when the first floor announced at
/// activation is the caller's.
pub proof fn lemma_caller_grant_matches_first_floor(
    c: IndividualCall,
    cached: CachedPrivateSetup,
    call_timeout: CallTimeout,
)
    requires
        !c.simplex_duplex,
        c.calling_addr.ssi != c.called_addr.ssi,
    ensures
        (caller_d_connect(c, cached, call_timeout).transmission_grant == TransmissionGrant::Granted) <==> (
        first_private_floor(c, cached).source_issi == c.calling_addr.ssi),
{
}

/// The record that the called party's delivery leaves behind is one the
/// caller's delivery activates: the second completion never refuses what the
/// first prepared.
pub proof fn lemma_called_delivery_prepares_activation(c: IndividualCall)
    ensures
        individual_transition_allowed(
            (IndividualCall { state: IndividualCallState::CallerConnectAckPending, ..c }).state,
            IndividualEvent::Connect,
        ),
{
}

/// A U-CONNECT that puts a local call into waiting for the called party's
/// acknowledgement leaves it in a state that neither a repeated U-CONNECT
/// nor a U-ALERT can move: the repeat is ignored and the alert refused.
pub proof fn lemma_connect_ack_wait_is_stable(c: IndividualCall)
    requires
        c.state == IndividualCallState::CalledConnectAckPending || c.state
            == IndividualCallState::CallerConnectAckPending,
    ensures
        !individual_transition_allowed(c.state, IndividualEvent::Alert),
        !individual_transition_allowed(c.state, IndividualEvent::BindCalledContext),
{
}

} // verus!
