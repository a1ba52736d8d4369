//! Transition rules of the group and individual call state machines, the
//! floor-grant decisions of private simplex calls, and the bookkeeping of
//! individual calls that these rules guard.

use vstd::prelude::*;

use crate::address::TetraAddress;
use crate::call::{
    CallTimeout, GroupCallState, IndividualCall, IndividualCallState, NetworkCircuitCall, call_timeout_from_raw,
};
use crate::cc_bs::CcBsSubentity;
use crate::parrot::FloorGranted;

verus! {

broadcast use vstd::std_specs::hash::group_hash_axioms;

/// Retries of the called party's D-CONNECT ACKNOWLEDGE before giving up.
pub const INDIVIDUAL_CONNECT_ACK_MAX_ATTEMPTS: u8 = 5;

/// Retries of the caller's D-CONNECT before giving up.
pub const INDIVIDUAL_CALLER_CONNECT_MAX_ATTEMPTS: u8 = 3;

/// Transmission grant element (EN 300 392-2 table 14.80).
#[derive(Clone, Copy, Debug, PartialEq, Eq, Structural)]
pub enum TransmissionGrant {
    Granted,
    NotGranted,
    RequestQueued,
    GrantedToOtherUser,
}

/// The grant with 2-bit code `raw`.
pub open spec fn transmission_grant_from_raw(raw: u64) -> Option<TransmissionGrant> {
    if raw == 0 {
        Some(TransmissionGrant::Granted)
    } else if raw == 1 {
        Some(TransmissionGrant::NotGranted)
    } else if raw == 2 {
        Some(TransmissionGrant::RequestQueued)
    } else if raw == 3 {
        Some(TransmissionGrant::GrantedToOtherUser)
    } else {
        None
    }
}

/// The 2-bit code of a grant.
pub open spec fn transmission_grant_raw(g: TransmissionGrant) -> u8 {
    match g {
        TransmissionGrant::Granted => 0,
        TransmissionGrant::NotGranted => 1,
        TransmissionGrant::RequestQueued => 2,
        TransmissionGrant::GrantedToOtherUser => 3,
    }
}

impl TransmissionGrant {
    /// The 2-bit code of the grant.
    pub fn into_raw(self) -> (r: u8)
        ensures
            r == transmission_grant_raw(self),
            transmission_grant_from_raw(r as u64) == Some(self),
    {
        match self {
            TransmissionGrant::Granted => 0,
            TransmissionGrant::NotGranted => 1,
            TransmissionGrant::RequestQueued => 2,
            TransmissionGrant::GrantedToOtherUser => 3,
        }
    }

    /// Decodes the 2-bit transmission grant field.
    pub fn try_from_raw(raw: u64) -> (r: Option<TransmissionGrant>)
        ensures
            r == transmission_grant_from_raw(raw),
    {
        match raw {
            0 => Some(TransmissionGrant::Granted),
            1 => Some(TransmissionGrant::NotGranted),
            2 => Some(TransmissionGrant::RequestQueued),
            3 => Some(TransmissionGrant::GrantedToOtherUser),
            _ => None,
        }
    }
}

/// Layer 2 service for a downlink PDU.
#[derive(Clone, Copy, Debug, PartialEq, Eq, Structural)]
pub enum Layer2Service {
    Acknowledged,
    Unacknowledged,
}

/// Events of an individual call.
#[derive(Clone, Copy, Debug, PartialEq, Eq, Structural)]
pub enum IndividualEvent {
    CreateSetup,
    BindCalledContext,
    SetNetworkCall,
    MarkConnectRequestSent,
    Alert,
    Connect,
}

/// Why an individual call event was refused.
#[derive(Clone, Copy, Debug, PartialEq, Eq, Structural)]
pub enum IndividualTransitionError {
    UnknownCall(u16),
    DuplicateCall(u16),
    InvalidTransition { call_id: u16, state: IndividualCallState, event: IndividualEvent },
    MissingBrewUuid(u16),
    NotBrewOriginated(u16),
    ConnectRequestAlreadySent(u16),
}

/// Events of a group call.
#[derive(Clone, Copy, Debug, PartialEq, Eq, Structural)]
pub enum GroupEvent {
    TxDemand,
    TxCeased,
    NetworkCallStart,
    NetworkCallEnd,
}

/// Why a group call event was refused.
#[derive(Clone, Copy, Debug, PartialEq, Eq, Structural)]
pub enum GroupTransitionError {
    UnknownCall(u16),
    InvalidTransition { call_id: u16, state: GroupCallState, event: GroupEvent },
    NotCurrentSpeaker { call_id: u16, sender_issi: u32, current_speaker_issi: u32 },
    MissingCachedSetup(u16),
}

/// How the called party's D-CONNECT ACKNOWLEDGE is delivered.
#[derive(Clone, Copy, Debug, PartialEq, Eq, Structural)]
pub enum PrivateCalledConnectAckDelivery {
    CurrentChannel,
    AssignedChannelRecovery,
}

/// Kind of a bridged individual connect waiting for the local radio leg.
#[derive(Clone, Copy, Debug, PartialEq, Eq, Structural)]
pub enum PendingNetworkIndividualConnectKind {
    LocalCallerDConnect,
    LocalCalledDConnectAck,
}

/// Transmission state reported for a downlink PDU.
#[derive(Clone, Copy, Debug, PartialEq, Eq, Structural)]
pub enum TxState {
    Pending,
    Transmitted,
    Acknowledged,
    Lost,
    Discarded,
}

/// An individual call setup-phase state (before active or disconnecting).
pub open spec fn is_setup_state(state: IndividualCallState) -> bool {
    state == IndividualCallState::CallSetupPending || state == IndividualCallState::IncomingSetupPending
        || state == IndividualCallState::IncomingAlerting || state == IndividualCallState::IncomingSetupWaitNetworkAck
}

/// The individual call state machine admits `event` in `state`.
pub open spec fn individual_transition_allowed(state: IndividualCallState, event: IndividualEvent) -> bool {
    match event {
        IndividualEvent::BindCalledContext | IndividualEvent::SetNetworkCall
        | IndividualEvent::MarkConnectRequestSent => is_setup_state(state),
        IndividualEvent::Alert => state == IndividualCallState::CallSetupPending || state
            == IndividualCallState::IncomingSetupPending || state == IndividualCallState::IncomingAlerting,
        IndividualEvent::Connect => is_setup_state(state) || state == IndividualCallState::CallerConnectAckPending,
        IndividualEvent::CreateSetup => false,
    }
}

/// The group call state machine admits `event` in `state`.
pub open spec fn group_transition_allowed(state: GroupCallState, event: GroupEvent) -> bool {
    match event {
        GroupEvent::TxCeased => state == GroupCallState::Transmitting,
        _ => true,
    }
}

impl PrivateCalledConnectAckDelivery {
    /// Delivery for retry `attempt`: attempts 1, 2 and 4 use the current
    /// channel, the others the assigned-channel recovery.
    pub fn retry_for_attempt(attempt: u8) -> (r: PrivateCalledConnectAckDelivery)
        ensures
            r == if attempt == 1 || attempt == 2 || attempt == 4 {
                PrivateCalledConnectAckDelivery::CurrentChannel
            } else {
                PrivateCalledConnectAckDelivery::AssignedChannelRecovery
            },
    {
        match attempt {
            1 | 2 | 4 => PrivateCalledConnectAckDelivery::CurrentChannel,
            _ => PrivateCalledConnectAckDelivery::AssignedChannelRecovery,
        }
    }

    /// Delivery for retry `attempt` after the previous try never left the
    /// base station; same schedule as `retry_for_attempt`.
    pub fn retry_after_local_delivery_failure(attempt: u8) -> (r: PrivateCalledConnectAckDelivery)
        ensures
            r == if attempt == 1 || attempt == 2 || attempt == 4 {
                PrivateCalledConnectAckDelivery::CurrentChannel
            } else {
                PrivateCalledConnectAckDelivery::AssignedChannelRecovery
            },
    {
        match attempt {
            1 | 2 | 4 => PrivateCalledConnectAckDelivery::CurrentChannel,
            _ => PrivateCalledConnectAckDelivery::AssignedChannelRecovery,
        }
    }

    /// Only the recovery delivery may steal traffic capacity.
    pub fn stealing_permission(self) -> (r: bool)
        ensures
            r == (self == PrivateCalledConnectAckDelivery::AssignedChannelRecovery),
    {
        match self {
            PrivateCalledConnectAckDelivery::AssignedChannelRecovery => true,
            _ => false,
        }
    }

    /// Every delivery waits for a layer 2 acknowledgement.
    pub fn requires_l2_ack(self) -> (r: bool)
        ensures
            r,
    {
        true
    }

    /// Every delivery uses the acknowledged layer 2 service.
    pub fn layer2_service(self) -> (r: Layer2Service)
        ensures
            r == Layer2Service::Acknowledged,
    {
        Layer2Service::Acknowledged
    }

    /// No unacknowledged repetitions are requested.
    pub fn unacked_bl_repetitions(self) -> (r: Option<u8>)
        ensures
            r is None,
    {
        None
    }

    /// Short name for logs.
    pub fn label(self) -> (r: &'static str)
        ensures
            self == PrivateCalledConnectAckDelivery::CurrentChannel ==> r@ == "current-channel"@,
            self == PrivateCalledConnectAckDelivery::AssignedChannelRecovery ==> r@
                == "assigned-channel recovery"@,
    {
        match self {
            PrivateCalledConnectAckDelivery::CurrentChannel => "current-channel",
            PrivateCalledConnectAckDelivery::AssignedChannelRecovery => "assigned-channel recovery",
        }
    }

    /// Delivery for the next retry `attempt` given how the previous try
    /// ended: a try that reached the air or was answered follows the retry
    /// schedule, one that never left follows the local-failure schedule.
    pub fn for_retry(prior_state: TxState, attempt: u8) -> (r: PrivateCalledConnectAckDelivery)
        ensures
            r == if attempt == 1 || attempt == 2 || attempt == 4 {
                PrivateCalledConnectAckDelivery::CurrentChannel
            } else {
                PrivateCalledConnectAckDelivery::AssignedChannelRecovery
            },
    {
        match prior_state {
            TxState::Transmitted | TxState::Lost | TxState::Acknowledged => Self::retry_for_attempt(attempt),
            TxState::Pending | TxState::Discarded => Self::retry_after_local_delivery_failure(attempt),
        }
    }
}

impl CcBsSubentity {
    /// In a simplex private call with on/off-hook signalling, the caller's
    /// raw request bit set means the called station talks first.
    pub fn private_simplex_called_ms_transmits_first(
        simplex_duplex: bool,
        hook_method_selection: bool,
        request_to_transmit_send_data: bool,
    ) -> (r: bool)
        ensures
            r == (!simplex_duplex && hook_method_selection && request_to_transmit_send_data),
    {
        if simplex_duplex {
            return false;
        }
        hook_method_selection && request_to_transmit_send_data
    }

    /// Whether the individual call state machine admits `event` in `state`.
    pub fn validate_individual_transition(
        call_id: u16,
        state: IndividualCallState,
        event: IndividualEvent,
    ) -> (r: Result<(), IndividualTransitionError>)
        ensures
            individual_transition_allowed(state, event) ==> r is Ok,
            !individual_transition_allowed(state, event) ==> r == Err::<(), IndividualTransitionError>(
                IndividualTransitionError::InvalidTransition { call_id, state, event },
            ),
    {
        let setup = match state {
            IndividualCallState::CallSetupPending | IndividualCallState::IncomingSetupPending
            | IndividualCallState::IncomingAlerting | IndividualCallState::IncomingSetupWaitNetworkAck => true,
            _ => false,
        };
        let allowed = match event {
            IndividualEvent::BindCalledContext | IndividualEvent::SetNetworkCall
            | IndividualEvent::MarkConnectRequestSent => setup,
            IndividualEvent::Alert => match state {
                IndividualCallState::CallSetupPending | IndividualCallState::IncomingSetupPending
                | IndividualCallState::IncomingAlerting => true,
                _ => false,
            },
            IndividualEvent::Connect => setup || match state {
                IndividualCallState::CallerConnectAckPending => true,
                _ => false,
            },
            IndividualEvent::CreateSetup => false,
        };
        if allowed {
            Ok(())
        } else {
            Err(IndividualTransitionError::InvalidTransition { call_id, state, event })
        }
    }

    /// Whether the group call state machine admits `event` in `state`: all
    /// events except TX-CEASED during hangtime.
    pub fn validate_group_transition(call_id: u16, state: GroupCallState, event: GroupEvent) -> (r: Result<
        (),
        GroupTransitionError,
    >)
        ensures
            group_transition_allowed(state, event) ==> r is Ok,
            !group_transition_allowed(state, event) ==> r == Err::<(), GroupTransitionError>(
                GroupTransitionError::InvalidTransition { call_id, state, event },
            ),
    {
        let allowed = match (state, event) {
            (GroupCallState::NoActiveSpeaker { .. }, GroupEvent::TxCeased) => false,
            _ => true,
        };
        if allowed {
            Ok(())
        } else {
            Err(GroupTransitionError::InvalidTransition { call_id, state, event })
        }
    }

    /// Transmission grants (called, caller) in the connect PDUs of a private
    /// call: both granted in duplex; in simplex, the one who talks first.
    pub fn private_connect_grants(simplex_duplex: bool, called_ms_transmits_first: bool) -> (r: (
        TransmissionGrant,
        TransmissionGrant,
    ))
        ensures
            r == if simplex_duplex {
                (TransmissionGrant::Granted, TransmissionGrant::Granted)
            } else if called_ms_transmits_first {
                (TransmissionGrant::Granted, TransmissionGrant::GrantedToOtherUser)
            } else {
                (TransmissionGrant::GrantedToOtherUser, TransmissionGrant::Granted)
            },
    {
        if simplex_duplex {
            return (TransmissionGrant::Granted, TransmissionGrant::Granted);
        }
        if called_ms_transmits_first {
            (TransmissionGrant::Granted, TransmissionGrant::GrantedToOtherUser)
        } else {
            (TransmissionGrant::GrantedToOtherUser, TransmissionGrant::Granted)
        }
    }

    /// The grant as seen by the other party of a simplex private call.
    pub fn opposite_private_simplex_grant(grant: TransmissionGrant) -> (r: TransmissionGrant)
        ensures
            r == match grant {
                TransmissionGrant::Granted => TransmissionGrant::GrantedToOtherUser,
                TransmissionGrant::GrantedToOtherUser => TransmissionGrant::Granted,
                other => other,
            },
    {
        match grant {
            TransmissionGrant::Granted => TransmissionGrant::GrantedToOtherUser,
            TransmissionGrant::GrantedToOtherUser => TransmissionGrant::Granted,
            TransmissionGrant::RequestQueued => TransmissionGrant::RequestQueued,
            TransmissionGrant::NotGranted => TransmissionGrant::NotGranted,
        }
    }

    /// Call priorities 12..=15 are pre-emptive (EN 300 392-2 table 14.46).
    pub fn is_preemptive_call_priority(priority: u8) -> (r: bool)
        ensures
            r == (12 <= priority <= 15),
    {
        12 <= priority && priority <= 15
    }

    /// Transmission request priorities 2 and 3 are pre-emptive.
    pub fn is_preemptive_tx_demand_priority(priority: u8) -> (r: bool)
        ensures
            r == (priority == 2 || priority == 3),
    {
        priority == 2 || priority == 3
    }

    /// The call timeout carried by the network bridge, or `fallback` when the
    /// code is reserved or unknown.
    pub fn network_circuit_call_timeout(raw: u8, fallback: CallTimeout) -> (r: CallTimeout)
        ensures
            r == match call_timeout_from_raw(raw as u64) {
                Some(CallTimeout::Reserved) => fallback,
                None => fallback,
                Some(t) => t,
            },
    {
        match CallTimeout::try_from_raw(raw as u64) {
            Some(CallTimeout::Reserved) => fallback,
            None => fallback,
            Some(timeout) => timeout,
        }
    }

    /// The bridge's hook method flag.
    pub fn network_circuit_hook_method(raw: u8) -> (r: bool)
        ensures
            r == (raw != 0),
    {
        raw != 0
    }

    /// The bridge's grant: the two low bits of `raw`.
    pub fn network_circuit_grant(raw: u8) -> (r: TransmissionGrant)
        ensures
            r == transmission_grant_from_raw((raw & 0x03) as u64)->0,
    {
        let low = raw & 0x03;
        assert(low <= 3) by (bit_vector)
            requires
                low == raw & 0x03,
        ;
        match TransmissionGrant::try_from_raw(low as u64) {
            Some(g) => g,
            None => TransmissionGrant::Granted,
        }
    }

    /// A bridged simplex connect may complete once the local connect PDU
    /// went out and the first talker is unambiguous.
    pub fn pending_network_simplex_connect_can_complete_on_tx(
        simplex_duplex: bool,
        kind: PendingNetworkIndividualConnectKind,
        grant: TransmissionGrant,
    ) -> (r: bool)
        ensures
            r == (!simplex_duplex && ((kind == PendingNetworkIndividualConnectKind::LocalCalledDConnectAck && grant
                == TransmissionGrant::GrantedToOtherUser) || (kind
                == PendingNetworkIndividualConnectKind::LocalCallerDConnect && grant == TransmissionGrant::Granted))),
    {
        !simplex_duplex && match (kind, grant) {
            (PendingNetworkIndividualConnectKind::LocalCalledDConnectAck, TransmissionGrant::GrantedToOtherUser) => true,
            (PendingNetworkIndividualConnectKind::LocalCallerDConnect, TransmissionGrant::Granted) => true,
            _ => false,
        }
    }

    /// A bridged duplex connect may complete once the local connect PDU
    /// went out with a plain grant.
    pub fn pending_network_duplex_connect_can_complete_on_tx(
        simplex_duplex: bool,
        kind: PendingNetworkIndividualConnectKind,
        grant: TransmissionGrant,
    ) -> (r: bool)
        ensures
            r == (simplex_duplex && grant == TransmissionGrant::Granted),
    {
        simplex_duplex && match (kind, grant) {
            (PendingNetworkIndividualConnectKind::LocalCallerDConnect, TransmissionGrant::Granted) => true,
            (PendingNetworkIndividualConnectKind::LocalCalledDConnectAck, TransmissionGrant::Granted) => true,
            _ => false,
        }
    }

    /// A bridged connect may complete on transmission (simplex or duplex rule).
    pub fn pending_network_individual_connect_can_complete_on_tx(
        simplex_duplex: bool,
        kind: PendingNetworkIndividualConnectKind,
        grant: TransmissionGrant,
    ) -> (r: bool)
        ensures
            r == (Self::spec_simplex_complete(simplex_duplex, kind, grant) || (simplex_duplex && grant
                == TransmissionGrant::Granted)),
    {
        Self::pending_network_simplex_connect_can_complete_on_tx(simplex_duplex, kind, grant)
            || Self::pending_network_duplex_connect_can_complete_on_tx(simplex_duplex, kind, grant)
    }

    /// The simplex completion rule.
    pub open spec fn spec_simplex_complete(
        simplex_duplex: bool,
        kind: PendingNetworkIndividualConnectKind,
        grant: TransmissionGrant,
    ) -> bool {
        !simplex_duplex && ((kind == PendingNetworkIndividualConnectKind::LocalCalledDConnectAck && grant
            == TransmissionGrant::GrantedToOtherUser) || (kind == PendingNetworkIndividualConnectKind::LocalCallerDConnect
            && grant == TransmissionGrant::Granted))
    }

    /// Of a call with exactly one party behind the bridge: the local party,
    /// its timeslot and usage marker, and the bridged party.
    pub fn brew_private_local_and_peer_legs(call: &IndividualCall) -> (r: Option<(TetraAddress, u8, u8, TetraAddress)>)
        ensures
            r == if call.called_over_brew && !call.calling_over_brew {
                Some((call.calling_addr, call.calling_ts, call.calling_usage, call.called_addr))
            } else if call.calling_over_brew && !call.called_over_brew {
                Some((call.called_addr, call.called_ts, call.called_usage, call.calling_addr))
            } else {
                None::<(TetraAddress, u8, u8, TetraAddress)>
            },
    {
        if call.called_over_brew && !call.calling_over_brew {
            Some((call.calling_addr, call.calling_ts, call.calling_usage, call.called_addr))
        } else if call.calling_over_brew && !call.called_over_brew {
            Some((call.called_addr, call.called_ts, call.called_usage, call.calling_addr))
        } else {
            None
        }
    }
}


impl CcBsSubentity {
    /// `self` and `other` differ at most in their individual call table.
    pub open spec fn same_except_individual_calls(&self, other: &CcBsSubentity) -> bool {
        &&& self.dltime == other.dltime
        &&& self.circuits == other.circuits
        &&& self.active_calls == other.active_calls
        &&& self.subscriber_groups == other.subscriber_groups
        &&& self.group_listeners == other.group_listeners
        &&& self.external_subscriber_groups == other.external_subscriber_groups
        &&& self.external_group_listeners == other.external_group_listeners
        &&& self.parrot_session == other.parrot_session
    }

    /// Registers a new individual call in a setup state under `call_id`.
    pub fn fsm_individual_create_setup_call(&mut self, call_id: u16, call: IndividualCall) -> (r: Result<
        (),
        IndividualTransitionError,
    >)
        ensures
            old(self).individual_calls_wf() && 1 <= call.calling_ts <= 4 && 1 <= call.called_ts <= 4
                ==> final(self).individual_calls_wf(),
            final(self).same_except_individual_calls(old(self)),
            old(self).individual_calls@.contains_key(call_id) ==> r == Err::<(), IndividualTransitionError>(
                IndividualTransitionError::DuplicateCall(call_id),
            ) && final(self).individual_calls@ == old(self).individual_calls@,
            !old(self).individual_calls@.contains_key(call_id) && !(call.state == IndividualCallState::CallSetupPending
                || call.state == IndividualCallState::IncomingSetupPending) ==> r == Err::<
                (),
                IndividualTransitionError,
            >(
                IndividualTransitionError::InvalidTransition {
                    call_id,
                    state: call.state,
                    event: IndividualEvent::CreateSetup,
                },
            ) && final(self).individual_calls@ == old(self).individual_calls@,
            !old(self).individual_calls@.contains_key(call_id) && (call.state == IndividualCallState::CallSetupPending
                || call.state == IndividualCallState::IncomingSetupPending) ==> r is Ok
                && final(self).individual_calls@ == old(self).individual_calls@.insert(call_id, call),
    {
        if self.individual_calls.contains_key(&call_id) {
            return Err(IndividualTransitionError::DuplicateCall(call_id));
        }
        match call.state {
            IndividualCallState::CallSetupPending | IndividualCallState::IncomingSetupPending => {},
            _ => {
                return Err(
                    IndividualTransitionError::InvalidTransition {
                        call_id,
                        state: call.state,
                        event: IndividualEvent::CreateSetup,
                    },
                );
            },
        }
        self.individual_calls.insert(call_id, call);
        Ok(())
    }

    /// The state of call `call_id`, if it exists.
    pub fn individual_call_state(&self, call_id: u16) -> (r: Option<IndividualCallState>)
        ensures
            r == if self.individual_calls@.contains_key(call_id) {
                Some(self.individual_calls@[call_id].state)
            } else {
                None::<IndividualCallState>
            },
    {
        match self.individual_calls.get(&call_id) {
            Some(call) => Some(call.state),
            None => None,
        }
    }

    /// Records the called party's link context (handle, link, endpoint) of
    /// call `call_id` during setup, unless one is already recorded.
    pub fn fsm_individual_bind_called_context(
        &mut self,
        call_id: u16,
        handle: u32,
        link_id: u32,
        endpoint_id: u32,
    ) -> (r: Result<(), IndividualTransitionError>)
        ensures
            old(self).individual_calls_wf() ==> final(self).individual_calls_wf(),
            final(self).same_except_individual_calls(old(self)),
            ({
                let m = old(self).individual_calls@;
                if !m.contains_key(call_id) {
                    r == Err::<(), IndividualTransitionError>(IndividualTransitionError::UnknownCall(call_id))
                        && final(self).individual_calls@ == m
                } else if !individual_transition_allowed(m[call_id].state, IndividualEvent::BindCalledContext) {
                    r == Err::<(), IndividualTransitionError>(
                        IndividualTransitionError::InvalidTransition {
                            call_id,
                            state: m[call_id].state,
                            event: IndividualEvent::BindCalledContext,
                        },
                    ) && final(self).individual_calls@ == m
                } else if m[call_id].called_handle is Some {
                    r is Ok && final(self).individual_calls@ == m
                } else {
                    r is Ok && final(self).individual_calls@ == m.insert(
                        call_id,
                        IndividualCall {
                            called_handle: Some(handle),
                            called_link_id: Some(link_id),
                            called_endpoint_id: Some(endpoint_id),
                            ..m[call_id]
                        },
                    )
                }
            }),
    {
        let state = match self.individual_call_state(call_id) {
            Some(s) => s,
            None => {
                return Err(IndividualTransitionError::UnknownCall(call_id));
            },
        };
        match Self::validate_individual_transition(call_id, state, IndividualEvent::BindCalledContext) {
            Ok(()) => {},
            Err(e) => {
                return Err(e);
            },
        }
        let ghost m = self.individual_calls@;
        let already = match self.individual_calls.get(&call_id) {
            Some(call) => call.called_handle.is_some(),
            None => true,
        };
        if !already {
            match self.individual_calls.remove(&call_id) {
                Some(mut call) => {
                    call.called_handle = Some(handle);
                    call.called_link_id = Some(link_id);
                    call.called_endpoint_id = Some(endpoint_id);
                    self.individual_calls.insert(call_id, call);
                    proof {
                        assert(self.individual_calls@ =~= m.insert(
                            call_id,
                            IndividualCall {
                                called_handle: Some(handle),
                                called_link_id: Some(link_id),
                                called_endpoint_id: Some(endpoint_id),
                                ..m[call_id]
                            },
                        ));
                    }
                },
                None => {},
            }
        }
        Ok(())
    }

    /// Stores the bridge call data of call `call_id` during setup.
    pub fn fsm_individual_set_network_call(&mut self, call_id: u16, network_call: NetworkCircuitCall) -> (r: Result<
        (),
        IndividualTransitionError,
    >)
        ensures
            old(self).individual_calls_wf() ==> final(self).individual_calls_wf(),
            final(self).same_except_individual_calls(old(self)),
            ({
                let m = old(self).individual_calls@;
                if !m.contains_key(call_id) {
                    r == Err::<(), IndividualTransitionError>(IndividualTransitionError::UnknownCall(call_id))
                        && final(self).individual_calls@ == m
                } else if !individual_transition_allowed(m[call_id].state, IndividualEvent::SetNetworkCall) {
                    r == Err::<(), IndividualTransitionError>(
                        IndividualTransitionError::InvalidTransition {
                            call_id,
                            state: m[call_id].state,
                            event: IndividualEvent::SetNetworkCall,
                        },
                    ) && final(self).individual_calls@ == m
                } else {
                    r is Ok && final(self).individual_calls@ == m.insert(
                        call_id,
                        IndividualCall { network_call: Some(network_call), ..m[call_id] },
                    )
                }
            }),
    {
        let state = match self.individual_call_state(call_id) {
            Some(s) => s,
            None => {
                return Err(IndividualTransitionError::UnknownCall(call_id));
            },
        };
        match Self::validate_individual_transition(call_id, state, IndividualEvent::SetNetworkCall) {
            Ok(()) => {},
            Err(e) => {
                return Err(e);
            },
        }
        let ghost m = self.individual_calls@;
        match self.individual_calls.remove(&call_id) {
            Some(mut call) => {
                call.network_call = Some(network_call);
                self.individual_calls.insert(call_id, call);
                proof {
                    assert(self.individual_calls@ =~= m.insert(
                        call_id,
                        IndividualCall { network_call: Some(network_call), ..m[call_id] },
                    ));
                }
            },
            None => {},
        }
        Ok(())
    }

    /// Records that CONNECT_REQUEST went to the bridge for a bridge-originated
    /// call `call_id`: stores the bridge call data and waits for the
    /// bridge's acknowledgement. Refused for calls not from the bridge and
    /// when the request was already sent.
    pub fn fsm_individual_mark_connect_request_sent(
        &mut self,
        call_id: u16,
        network_call: NetworkCircuitCall,
    ) -> (r: Result<(), IndividualTransitionError>)
        ensures
            old(self).individual_calls_wf() ==> final(self).individual_calls_wf(),
            final(self).same_except_individual_calls(old(self)),
            ({
                let m = old(self).individual_calls@;
                if !m.contains_key(call_id) {
                    r == Err::<(), IndividualTransitionError>(IndividualTransitionError::UnknownCall(call_id))
                        && final(self).individual_calls@ == m
                } else if !individual_transition_allowed(m[call_id].state, IndividualEvent::MarkConnectRequestSent) {
                    r == Err::<(), IndividualTransitionError>(
                        IndividualTransitionError::InvalidTransition {
                            call_id,
                            state: m[call_id].state,
                            event: IndividualEvent::MarkConnectRequestSent,
                        },
                    ) && final(self).individual_calls@ == m
                } else if !m[call_id].calling_over_brew {
                    r == Err::<(), IndividualTransitionError>(IndividualTransitionError::NotBrewOriginated(call_id))
                        && final(self).individual_calls@ == m
                } else if m[call_id].connect_request_sent {
                    r == Err::<(), IndividualTransitionError>(
                        IndividualTransitionError::ConnectRequestAlreadySent(call_id),
                    ) && final(self).individual_calls@ == m
                } else {
                    r is Ok && final(self).individual_calls@ == m.insert(
                        call_id,
                        IndividualCall {
                            connect_request_sent: true,
                            network_call: Some(network_call),
                            state: IndividualCallState::IncomingSetupWaitNetworkAck,
                            ..m[call_id]
                        },
                    )
                }
            }),
    {
        let (state, calling_over_brew, connect_request_sent) = match self.individual_calls.get(&call_id) {
            Some(call) => (call.state, call.calling_over_brew, call.connect_request_sent),
            None => {
                return Err(IndividualTransitionError::UnknownCall(call_id));
            },
        };
        match Self::validate_individual_transition(call_id, state, IndividualEvent::MarkConnectRequestSent) {
            Ok(()) => {},
            Err(e) => {
                return Err(e);
            },
        }
        if !calling_over_brew {
            return Err(IndividualTransitionError::NotBrewOriginated(call_id));
        }
        if connect_request_sent {
            return Err(IndividualTransitionError::ConnectRequestAlreadySent(call_id));
        }
        let ghost m = self.individual_calls@;
        match self.individual_calls.remove(&call_id) {
            Some(mut call) => {
                call.connect_request_sent = true;
                call.network_call = Some(network_call);
                call.state = IndividualCallState::IncomingSetupWaitNetworkAck;
                self.individual_calls.insert(call_id, call);
                proof {
                    assert(self.individual_calls@ =~= m.insert(
                        call_id,
                        IndividualCall {
                            connect_request_sent: true,
                            network_call: Some(network_call),
                            state: IndividualCallState::IncomingSetupWaitNetworkAck,
                            ..m[call_id]
                        },
                    ));
                }
            },
            None => {},
        }
        Ok(())
    }

    /// Makes call `call_id` active at the current downlink time, if its
    /// state admits the connect event.
    pub fn fsm_individual_transition_to_active(&mut self, call_id: u16) -> (r: Result<(), IndividualTransitionError>)
        ensures
            old(self).individual_calls_wf() ==> final(self).individual_calls_wf(),
            final(self).same_except_individual_calls(old(self)),
            ({
                let m = old(self).individual_calls@;
                if !m.contains_key(call_id) {
                    r == Err::<(), IndividualTransitionError>(IndividualTransitionError::UnknownCall(call_id))
                        && final(self).individual_calls@ == m
                } else if !individual_transition_allowed(m[call_id].state, IndividualEvent::Connect) {
                    r == Err::<(), IndividualTransitionError>(
                        IndividualTransitionError::InvalidTransition {
                            call_id,
                            state: m[call_id].state,
                            event: IndividualEvent::Connect,
                        },
                    ) && final(self).individual_calls@ == m
                } else {
                    r is Ok && final(self).individual_calls@ == m.insert(
                        call_id,
                        IndividualCall {
                            state: IndividualCallState::Active,
                            setup_timer_started: None,
                            setup_timeout: None,
                            active_timer_started: Some(old(self).dltime),
                            connect_request_sent: false,
                            ..m[call_id]
                        },
                    )
                }
            }),
    {
        let state = match self.individual_call_state(call_id) {
            Some(s) => s,
            None => {
                return Err(IndividualTransitionError::UnknownCall(call_id));
            },
        };
        match Self::validate_individual_transition(call_id, state, IndividualEvent::Connect) {
            Ok(()) => {},
            Err(e) => {
                return Err(e);
            },
        }
        let ghost m = self.individual_calls@;
        let now = self.dltime;
        match self.individual_calls.remove(&call_id) {
            Some(mut call) => {
                call.activate(now);
                self.individual_calls.insert(call_id, call);
                proof {
                    assert(self.individual_calls@ =~= m.insert(
                        call_id,
                        IndividualCall {
                            state: IndividualCallState::Active,
                            setup_timer_started: None,
                            setup_timeout: None,
                            active_timer_started: Some(now),
                            connect_request_sent: false,
                            ..m[call_id]
                        },
                    ));
                }
            },
            None => {},
        }
        Ok(())
    }

    /// Initial floor of a bridged simplex private call from the connect
    /// grant: the local party holds it when granted, the bridged party when
    /// granted to the other user, nobody otherwise. Returns the floor grant to
    /// announce when the local party holds the floor. Duplex calls have no
    /// floor and are left alone.
    pub fn apply_brew_simplex_initial_floor(
        &mut self,
        call_id: u16,
        local_addr: TetraAddress,
        peer_addr: TetraAddress,
        ts: u8,
        simplex_duplex: bool,
        grant: TransmissionGrant,
    ) -> (r: Option<FloorGranted>)
        ensures
            old(self).individual_calls_wf() ==> final(self).individual_calls_wf(),
            final(self).same_except_individual_calls(old(self)),
            ({
                let m = old(self).individual_calls@;
                let holder = match grant {
                    TransmissionGrant::Granted => Some(local_addr.ssi),
                    TransmissionGrant::GrantedToOtherUser => Some(peer_addr.ssi),
                    _ => None::<u32>,
                };
                if simplex_duplex {
                    r is None && final(self).individual_calls@ == m
                } else {
                    &&& (m.contains_key(call_id) ==> final(self).individual_calls@ == m.insert(
                        call_id,
                        match holder {
                            Some(h) => IndividualCall {
                                floor_holder: Some(h),
                                last_floor_holder: Some(h),
                                ..m[call_id]
                            },
                            None => IndividualCall {
                                floor_holder: None,
                                last_floor_holder: match m[call_id].floor_holder {
                                    Some(x) => Some(x),
                                    None => m[call_id].last_floor_holder,
                                },
                                ..m[call_id]
                            },
                        },
                    ))
                    &&& (!m.contains_key(call_id) ==> final(self).individual_calls@ == m)
                    &&& r == if holder == Some(local_addr.ssi) {
                        Some(FloorGranted { call_id, source_issi: local_addr.ssi, dest_gssi: peer_addr.ssi, ts })
                    } else {
                        None::<FloorGranted>
                    }
                }
            }),
    {
        if simplex_duplex {
            return None;
        }
        let floor_holder: Option<u32> = match grant {
            TransmissionGrant::Granted => Some(local_addr.ssi),
            TransmissionGrant::GrantedToOtherUser => Some(peer_addr.ssi),
            TransmissionGrant::NotGranted | TransmissionGrant::RequestQueued => None,
        };
        let ghost m = self.individual_calls@;
        match self.individual_calls.remove(&call_id) {
            Some(mut call) => {
                match floor_holder {
                    Some(holder_issi) => call.set_floor_holder(holder_issi),
                    None => call.clear_floor_holder(),
                }
                self.individual_calls.insert(call_id, call);
                proof {
                    assert(self.individual_calls@ =~= m.insert(call_id, call));
                }
            },
            None => {},
        }
        let local_holds = match floor_holder {
            Some(h) => h == local_addr.ssi,
            None => false,
        };
        if local_holds {
            Some(FloorGranted { call_id, source_issi: local_addr.ssi, dest_gssi: peer_addr.ssi, ts })
        } else {
            None
        }
    }
}

} // verus!
