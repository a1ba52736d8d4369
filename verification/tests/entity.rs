use std::collections::HashSet;

use tetra_entities::address::TetraAddress;
use tetra_entities::call::{CallTimeout, DisconnectCause, IndividualCallState};
use tetra_entities::circuit_mgr::{CircuitModeType, CommunicationType};
use tetra_entities::connect::{CalledDeliveryOutcome, CallerDeliveryOutcome, UConnectOutcome, UConnectPdu};
use tetra_entities::connect_ack::{ConnectAckStage, ConnectAckStep, DeliveryReport};
use tetra_entities::fsm::TxState;
use tetra_entities::entity::{CallControlState, FloorOptions};
use tetra_entities::floor::{GroupTxCeasedOutcome, GroupTxDemandOutcome, UTxCeasedOutcome, UTxDemandOutcome};
use tetra_entities::group_setup::{GroupSetupEnv, GroupSetupOutcome, GroupSetupParams, GroupSetupRequest};
use tetra_entities::individual_setup::{P2pSetupEnv, P2pSetupOutcome, P2pSetupRequest, UplinkContext};
use tetra_entities::sds::PartyTypeIdentifier;
use tetra_entities::subscribers::{BrewSubscriberAction, MmSubscriberUpdate, TetraEntity};
use tetra_entities::teardown::{GroupReleaseStart, IndividualReleaseStart};
use tetra_entities::timeslots::TimeslotAllocator;

fn p2p_request() -> P2pSetupRequest {
    P2pSetupRequest {
        call_priority: 0,
        called_party_type_identifier: PartyTypeIdentifier::Ssi,
        called_party_ssi: Some(202),
        has_called_party_short_number: false,
        called_party_extension: None,
        has_external_subscriber_number: false,
        hook_method_selection: true,
        simplex_duplex_selection: false,
        request_to_transmit_send_data: true,
        communication_type: CommunicationType::P2p,
        circuit_mode_type: CircuitModeType::TchS,
        encryption_flag: false,
        slots_per_frame: None,
        speech_service: Some(0),
    }
}

fn p2p_env() -> P2pSetupEnv {
    P2pSetupEnv { brew_active: false, mcc: 204, mnc: 1337, called_is_configured_local: true, call_timeout: CallTimeout::T5m }
}

fn group_request() -> GroupSetupRequest {
    GroupSetupRequest {
        called_party_ssi: Some(500),
        call_priority: 0,
        params: GroupSetupParams {
            hook_method_selection: false,
            simplex_duplex_selection: false,
            circuit_mode_type: CircuitModeType::TchS,
            encryption_flag: false,
            communication_type: CommunicationType::P2Mp,
            slots_per_frame: None,
            speech_service: Some(0),
        },
    }
}

fn state() -> CallControlState {
    let mut s = CallControlState::new();
    for issi in [201, 202] {
        s.cc.handle_subscriber_update(
            MmSubscriberUpdate { issi, groups: vec![500], action: BrewSubscriberAction::Affiliate },
            TetraEntity::Mm,
        );
    }
    s
}

#[test]
fn new_state_has_empty_tables() {
    let s = CallControlState::new();
    assert!(s.cc.individual_calls.is_empty());
    assert!(s.private_setups.is_empty());
    assert!(s.group.cached_setups.is_empty());
    assert!(s.group.releasing.is_empty());
    assert!(s.group_setup_dests.is_empty());
}

#[test]
fn started_private_call_caches_its_d_setup_until_release() {
    let mut s = state();
    let mut alloc = TimeslotAllocator::new();
    let link = UplinkContext { handle: 1, link_id: 2, endpoint_id: 3 };
    let (call_id, d_setup) =
        match s.on_u_setup_p2p(p2p_request(), TetraAddress::issi(201), link, p2p_env(), &mut alloc) {
            P2pSetupOutcome::Started { call_id, d_setup, .. } => (call_id, d_setup),
            other => panic!("unexpected outcome {other:?}"),
        };
    assert_eq!(s.private_setups.get(&call_id), Some(&d_setup));
    assert_eq!(d_setup.call_identifier, call_id);

    // The called station answers; the cached D-SETUP supplies the service.
    let pdu = UConnectPdu {
        call_identifier: call_id,
        hook_method_selection: true,
        simplex_duplex_selection: false,
        basic_service_information: None,
        has_facility: false,
        has_proprietary: false,
    };
    let r = s.on_u_connect(TetraAddress::issi(202), 7, 8, 9, pdu, CallTimeout::T5m, &mut alloc);
    assert!(matches!(r, UConnectOutcome::ConnectCalled { called_ms_transmits_first: true, .. }));
    assert_eq!(s.cc.individual_calls[&call_id].state, IndividualCallState::CalledConnectAckPending);
    assert!(matches!(
        s.connect_acks[&call_id].stage,
        ConnectAckStage::CalledConnectAck { attempts: 1, requires_l2_ack: true }
    ));

    let call = s.cc.individual_calls[&call_id].duplicate();
    s.complete_individual_release(&mut alloc, call_id, &call, DisconnectCause::UserRequestedDisconnection, &vec![], false);
    assert!(s.cc.individual_calls.is_empty());
    assert!(s.private_setups.is_empty());
}

#[test]
fn connect_without_cached_setup_is_not_served() {
    let mut s = state();
    let mut alloc = TimeslotAllocator::new();
    let link = UplinkContext { handle: 1, link_id: 2, endpoint_id: 3 };
    let call_id =
        match s.on_u_setup_p2p(p2p_request(), TetraAddress::issi(201), link, p2p_env(), &mut alloc) {
            P2pSetupOutcome::Started { call_id, .. } => call_id,
            other => panic!("unexpected outcome {other:?}"),
        };
    s.private_setups.clear();
    let pdu = UConnectPdu {
        call_identifier: call_id,
        hook_method_selection: true,
        simplex_duplex_selection: false,
        basic_service_information: None,
        has_facility: false,
        has_proprietary: false,
    };
    let r = s.on_u_connect(TetraAddress::issi(202), 7, 8, 9, pdu, CallTimeout::T5m, &mut alloc);
    assert!(matches!(r, UConnectOutcome::NoCachedSetup));
}

#[test]
fn group_call_setup_and_release_keep_tables_in_line() {
    let mut s = state();
    let mut alloc = TimeslotAllocator::new();
    let env = GroupSetupEnv { transmission_interruption_enabled: false, registry_has_members: false, call_timeout: CallTimeout::T2m };
    let circuit = match s.on_u_setup_group(group_request(), TetraAddress::issi(201), env, &HashSet::new(), &mut alloc) {
        GroupSetupOutcome::Started { circuit } => circuit,
        other => panic!("unexpected outcome {other:?}"),
    };
    let call_id = circuit.call_id;
    assert!(s.group.cached_setups.contains_key(&call_id));
    assert_eq!(s.group_setup_dests.get(&call_id), Some(&TetraAddress::gssi(500)));

    let pending = match s.start_group_release(call_id, DisconnectCause::ExpiryOfTimer, None) {
        GroupReleaseStart::Started { dest_addr, ts, pending, .. } => {
            assert_eq!(dest_addr, TetraAddress::gssi(500));
            assert_eq!(ts, circuit.ts);
            pending
        },
        other => panic!("unexpected {:?}", other),
    };
    assert!(s.group.releasing.contains(&call_id));
    assert_eq!(s.start_group_release(call_id, DisconnectCause::ExpiryOfTimer, None), GroupReleaseStart::AlreadyPending);
    assert_eq!(s.start_group_release(77, DisconnectCause::ExpiryOfTimer, None), GroupReleaseStart::UnknownCall);

    let cleanup = s.complete_group_release(&mut alloc, pending, false);
    assert_eq!(cleanup.closed, Some(circuit));
    assert!(s.cc.active_calls.is_empty());
    assert!(s.group.cached_setups.is_empty());
    assert!(s.group.releasing.is_empty());
    assert!(s.group_setup_dests.is_empty());
}

fn options() -> FloorOptions {
    FloorOptions { requester_tail_draining: false, legacy_gssi_group_call: false, transmission_interruption_enabled: false }
}

#[test]
fn group_floor_requests_see_the_release_tables() {
    let mut s = state();
    let mut alloc = TimeslotAllocator::new();
    let env = GroupSetupEnv { transmission_interruption_enabled: false, registry_has_members: false, call_timeout: CallTimeout::T2m };
    let call_id = match s.on_u_setup_group(group_request(), TetraAddress::issi(201), env, &HashSet::new(), &mut alloc) {
        GroupSetupOutcome::Started { circuit } => circuit.call_id,
        other => panic!("unexpected outcome {other:?}"),
    };
    // The caller holds the floor: its demand is a reassertion.
    let r = s.on_u_tx_demand(call_id, TetraAddress::issi(201), 0, false, false, options(), &HashSet::new());
    assert!(matches!(r, UTxDemandOutcome::Group(Ok(GroupTxDemandOutcome::Reasserted))));

    assert!(matches!(
        s.start_group_release(call_id, DisconnectCause::ExpiryOfTimer, None),
        GroupReleaseStart::Started { .. }
    ));
    // Once the release is under way, floor signalling is ignored.
    let r = s.on_u_tx_demand(call_id, TetraAddress::issi(202), 0, false, false, options(), &HashSet::new());
    assert!(matches!(r, UTxDemandOutcome::Group(Ok(GroupTxDemandOutcome::Ignored))));
    let r = s.on_u_tx_ceased(call_id, TetraAddress::issi(201), false, options(), &HashSet::new());
    assert!(matches!(r, UTxCeasedOutcome::Group(Ok(GroupTxCeasedOutcome::Ignored))));
}

#[test]
fn individual_release_keeps_its_parties_busy_until_delivered() {
    let mut s = state();
    let mut alloc = TimeslotAllocator::new();
    let link = UplinkContext { handle: 1, link_id: 2, endpoint_id: 3 };
    let call_id = match s.on_u_setup_p2p(p2p_request(), TetraAddress::issi(201), link, p2p_env(), &mut alloc) {
        P2pSetupOutcome::Started { call_id, .. } => call_id,
        other => panic!("unexpected outcome {other:?}"),
    };
    s.cc.individual_calls.get_mut(&call_id).unwrap().state = IndividualCallState::Active;

    let pending = match s.start_individual_release(&mut alloc, call_id, DisconnectCause::UserRequestedDisconnection, vec![], false, None) {
        IndividualReleaseStart::AwaitingDelivery { pending, .. } => pending,
        _ => panic!("release should wait for its deliveries"),
    };
    assert!(s.cc.individual_calls.is_empty());
    assert_eq!(s.release_parties.get(&call_id), Some(&(201, 202)));
    assert!(s.group.other_occupied.contains(&call_id));
    assert!(s.private_setups.contains_key(&call_id));
    assert!(s.is_releasing_party(202));
    assert!(!s.is_releasing_party(203));
    assert!(matches!(
        s.start_individual_release(&mut alloc, call_id, DisconnectCause::UserRequestedDisconnection, vec![], false, None),
        IndividualReleaseStart::AlreadyPending
    ));

    // Both parties stay busy while the release waits.
    let r = s.on_u_setup_p2p(p2p_request(), TetraAddress::issi(201), link, p2p_env(), &mut alloc);
    assert!(matches!(r, P2pSetupOutcome::Rejected { cause: DisconnectCause::NoIdleCcEntity }));

    s.complete_pending_individual_release(&mut alloc, pending);
    assert!(s.release_parties.is_empty());
    assert!(!s.group.other_occupied.contains(&call_id));
    assert!(s.private_setups.is_empty());
    let r = s.on_u_setup_p2p(p2p_request(), TetraAddress::issi(201), link, p2p_env(), &mut alloc);
    assert!(matches!(r, P2pSetupOutcome::Started { .. }));
}

#[test]
fn call_in_setup_is_released_at_once_with_its_cached_setup() {
    let mut s = state();
    let mut alloc = TimeslotAllocator::new();
    let link = UplinkContext { handle: 1, link_id: 2, endpoint_id: 3 };
    let call_id = match s.on_u_setup_p2p(p2p_request(), TetraAddress::issi(201), link, p2p_env(), &mut alloc) {
        P2pSetupOutcome::Started { call_id, .. } => call_id,
        other => panic!("unexpected outcome {other:?}"),
    };
    let r = s.start_individual_release(&mut alloc, call_id, DisconnectCause::UserRequestedDisconnection, vec![], false, None);
    assert!(matches!(r, IndividualReleaseStart::Released { on_mcch: true, .. }));
    assert!(s.cc.individual_calls.is_empty());
    assert!(s.private_setups.is_empty());
    assert!(s.release_parties.is_empty());
}

fn acked() -> DeliveryReport {
    DeliveryReport { state: TxState::Acknowledged, acknowledged: true, transmitted: true, final_state: true }
}

#[test]
fn connect_guards_follow_the_deliveries_to_activation() {
    let mut s = state();
    let mut alloc = TimeslotAllocator::new();
    let link = UplinkContext { handle: 1, link_id: 2, endpoint_id: 3 };
    let call_id = match s.on_u_setup_p2p(p2p_request(), TetraAddress::issi(201), link, p2p_env(), &mut alloc) {
        P2pSetupOutcome::Started { call_id, .. } => call_id,
        other => panic!("unexpected outcome {other:?}"),
    };
    assert!(s.drain_connect_ack(call_id, acked(), CallTimeout::T5m).is_none());
    let pdu = UConnectPdu {
        call_identifier: call_id,
        hook_method_selection: true,
        simplex_duplex_selection: false,
        basic_service_information: None,
        has_facility: false,
        has_proprietary: false,
    };
    let r = s.on_u_connect(TetraAddress::issi(202), 7, 8, 9, pdu, CallTimeout::T5m, &mut alloc);
    assert!(matches!(r, UConnectOutcome::ConnectCalled { .. }));
    // A repeated U-CONNECT while the guard stands is not served again.
    let r = s.on_u_connect(TetraAddress::issi(202), 7, 8, 9, pdu, CallTimeout::T5m, &mut alloc);
    assert!(matches!(r, UConnectOutcome::ConnectAckPending));

    let step = s.drain_connect_ack(call_id, acked(), CallTimeout::T5m);
    assert!(matches!(
        step,
        Some(ConnectAckStep::CalledDelivered { outcome: CalledDeliveryOutcome::CallerConnect { .. } })
    ));
    assert!(matches!(s.connect_acks[&call_id].stage, ConnectAckStage::CallerDConnect { attempts: 1 }));

    let step = s.drain_connect_ack(call_id, acked(), CallTimeout::T5m);
    assert!(matches!(
        step,
        Some(ConnectAckStep::CallerDelivered { outcome: CallerDeliveryOutcome::Activated { .. } })
    ));
    assert!(s.connect_acks.is_empty());
    assert_eq!(s.cc.individual_calls[&call_id].state, IndividualCallState::Active);
}
