use tetra_entities::address::TetraAddress;
use tetra_entities::call::{CallTimeout, CallTimeoutSetupPhase, IndividualCall, IndividualCallState, NetworkCircuitCall};
use tetra_entities::cc_bs::CcBsSubentity;
use tetra_entities::circuit_mgr::{CircuitModeType, CommunicationType};
use tetra_entities::connect::BasicServiceInformation;
use tetra_entities::fsm::{PendingNetworkIndividualConnectKind, TransmissionGrant};
use tetra_entities::individual_setup::UplinkContext;
use tetra_entities::network_individual::{
    BridgedLeg, FloorMove, NetworkConfirmOutcome, NetworkConnectRequestOutcome, SimplexGrantedOutcome, SimplexIdleOutcome,
};
use tetra_entities::tdma::TdmaTime;

const UUID: u128 = 0x1234_5678;

fn info(grant: u8) -> NetworkCircuitCall {
    NetworkCircuitCall {
        source_issi: 201,
        destination: 2_345_678,
        number: "2345678".to_string(),
        priority: 0,
        service: 0,
        mode: 0,
        duplex: 0,
        method: 1,
        communication: 0,
        grant,
        permission: 1,
        timeout: 15,
        ownership: 0,
        queued: 0,
    }
}

/// Local 201 calls bridged 2345678 (or, with `incoming`, the reverse towards 202).
fn bridged(incoming: bool, state: IndividualCallState) -> IndividualCall {
    IndividualCall {
        calling_addr: TetraAddress::issi(if incoming { 2_345_678 } else { 201 }),
        called_addr: TetraAddress::issi(if incoming { 202 } else { 2_345_678 }),
        calling_handle: 11,
        calling_link_id: 12,
        calling_endpoint_id: 13,
        called_handle: if incoming { Some(21) } else { None },
        called_link_id: if incoming { Some(22) } else { None },
        called_endpoint_id: if incoming { Some(23) } else { None },
        calling_ts: 2,
        called_ts: 3,
        calling_usage: 4,
        called_usage: 5,
        simplex_duplex: false,
        request_to_transmit_send_data: false,
        state,
        setup_timer_started: Some(TdmaTime::default()),
        setup_timeout: Some(CallTimeoutSetupPhase::T60s),
        active_timer_started: None,
        call_timeout: CallTimeout::T4m,
        called_over_brew: !incoming,
        calling_over_brew: incoming,
        brew_uuid: Some(UUID),
        network_call: None,
        connect_request_sent: false,
        floor_holder: None,
        last_floor_holder: None,
        queued_tx_demand: None,
    }
}

fn cell_with(call: IndividualCall) -> CcBsSubentity {
    let mut cc = CcBsSubentity::new();
    cc.individual_calls.insert(9, call);
    cc
}

#[test]
fn connect_request_connects_local_caller() {
    let mut cc = cell_with(bridged(false, IndividualCallState::CallSetupPending));
    match cc.fsm_on_network_circuit_connect_request(UUID, info(0), None) {
        NetworkConnectRequestOutcome::Connect { d_connect, calling, circuit, pending, recorded } => {
            assert!(recorded.is_ok());
            // The reserved bridge timeout falls back to the call's own.
            assert_eq!(d_connect.call_time_out, CallTimeout::T4m);
            assert!(d_connect.hook_method_selection);
            assert_eq!(d_connect.transmission_grant, TransmissionGrant::Granted);
            assert!(d_connect.transmission_request_permission);
            assert_eq!(calling, UplinkContext { handle: 11, link_id: 12, endpoint_id: 13 });
            assert_eq!(circuit.ts, 2);
            assert_eq!(circuit.call_id, 9);
            assert_eq!(pending.kind, PendingNetworkIndividualConnectKind::LocalCallerDConnect);
            assert_eq!(pending.local_addr, TetraAddress::issi(201));
            assert_eq!(pending.peer_addr, TetraAddress::issi(2_345_678));
        },
        other => panic!("unexpected outcome {other:?}"),
    }
    let stored = cc.individual_calls[&9].network_call.as_ref().map(|n| n.number.clone());
    assert_eq!(stored, Some("2345678".to_string()));

    let mut cc = cell_with(bridged(false, IndividualCallState::Active));
    assert!(matches!(cc.fsm_on_network_circuit_connect_request(UUID, info(0), None), NetworkConnectRequestOutcome::AlreadyActive));
    assert!(matches!(cc.fsm_on_network_circuit_connect_request(UUID + 1, info(0), None), NetworkConnectRequestOutcome::UnknownCall));
}

#[test]
fn confirm_acknowledges_local_called_party_with_opposite_grant() {
    let cc = cell_with(bridged(true, IndividualCallState::IncomingSetupWaitNetworkAck));
    let service = BasicServiceInformation {
        circuit_mode_type: CircuitModeType::TchS,
        encryption_flag: true,
        communication_type: CommunicationType::P2p,
        slots_per_frame: None,
        speech_service: Some(1),
    };
    match cc.fsm_on_network_circuit_connect_confirm(UUID, 0, 0, Some(service)) {
        NetworkConfirmOutcome::ConnectAck { d_connect_ack, called, circuit, pending } => {
            // The bridged caller was granted, so the local called party is told the other user talks.
            assert_eq!(d_connect_ack.transmission_grant, TransmissionGrant::GrantedToOtherUser);
            assert_eq!(d_connect_ack.call_time_out, CallTimeout::T4m);
            assert!(!d_connect_ack.transmission_request_permission);
            assert_eq!(called, UplinkContext { handle: 21, link_id: 22, endpoint_id: 23 });
            assert_eq!(circuit.ts, 3);
            assert!(circuit.etee_encrypted);
            assert_eq!(circuit.speech_service, Some(1));
            assert_eq!(pending.kind, PendingNetworkIndividualConnectKind::LocalCalledDConnectAck);
            assert_eq!(pending.local_addr, TetraAddress::issi(202));
        },
        other => panic!("unexpected outcome {other:?}"),
    }
    // A CONNECT_REQUEST for a bridge-originated call is taken as a confirm.
    let mut cc = cell_with(bridged(true, IndividualCallState::IncomingSetupWaitNetworkAck));
    match cc.fsm_on_network_circuit_connect_request(UUID, info(3), None) {
        NetworkConnectRequestOutcome::Confirmed {
            outcome: NetworkConfirmOutcome::ConnectAck { d_connect_ack, .. },
        } => assert_eq!(d_connect_ack.transmission_grant, TransmissionGrant::Granted),
        other => panic!("unexpected outcome {other:?}"),
    }
    let mut no_context = bridged(true, IndividualCallState::IncomingSetupPending);
    no_context.called_handle = None;
    let cc = cell_with(no_context);
    assert_eq!(cc.fsm_on_network_circuit_connect_confirm(UUID, 0, 0, None), NetworkConfirmOutcome::MissingCalledContext);
    let cc = cell_with(bridged(false, IndividualCallState::CallSetupPending));
    assert_eq!(cc.fsm_on_network_circuit_connect_confirm(UUID, 0, 0, None), NetworkConfirmOutcome::LocalOrigin);
    let cc = cell_with(bridged(true, IndividualCallState::Active));
    assert_eq!(cc.fsm_on_network_circuit_connect_confirm(UUID, 0, 0, None), NetworkConfirmOutcome::AlreadyActive);
}

#[test]
fn bridge_floor_grants_move_the_private_floor() {
    let leg = BridgedLeg {
        call_id: 9,
        local_addr: TetraAddress::issi(201),
        local_ts: 2,
        local_usage: 4,
        peer_addr: TetraAddress::issi(2_345_678),
    };
    let mut cc = cell_with(bridged(false, IndividualCallState::Active));
    let r = cc.fsm_on_network_circuit_simplex_granted(UUID, 0, 0);
    assert_eq!(
        r,
        SimplexGrantedOutcome::Signalled {
            leg,
            grant: TransmissionGrant::Granted,
            speaker: 201,
            uplink: true,
            floor: Some(FloorMove { source_issi: 201, dest_issi: 2_345_678 }),
        }
    );
    assert_eq!(cc.individual_calls[&9].floor_holder, Some(201));
    let r = cc.fsm_on_network_circuit_simplex_granted(UUID, 3, 0);
    assert!(matches!(r, SimplexGrantedOutcome::Signalled { speaker: 2_345_678, uplink: true, .. }));
    assert_eq!(cc.individual_calls[&9].floor_holder, Some(2_345_678));
    // A queued grant only informs the local party; the floor stays.
    let r = cc.fsm_on_network_circuit_simplex_granted(UUID, 2, 0);
    assert!(matches!(
        r,
        SimplexGrantedOutcome::Signalled { grant: TransmissionGrant::RequestQueued, speaker: 2_345_678, uplink: false, floor: None, .. }
    ));
    assert_eq!(cc.individual_calls[&9].floor_holder, Some(2_345_678));

    let mut duplex = bridged(false, IndividualCallState::Active);
    duplex.simplex_duplex = true;
    let mut cc = cell_with(duplex);
    assert_eq!(cc.fsm_on_network_circuit_simplex_granted(UUID, 0, 0), SimplexGrantedOutcome::Duplex);
    let mut cc = cell_with(bridged(false, IndividualCallState::CallSetupPending));
    assert_eq!(cc.fsm_on_network_circuit_simplex_granted(UUID, 0, 0), SimplexGrantedOutcome::NotActive);
}

#[test]
fn bridge_idle_grants_waiting_local_station_or_frees_floor() {
    let mut call = bridged(false, IndividualCallState::Active);
    call.floor_holder = Some(2_345_678);
    call.queued_tx_demand = Some(TetraAddress::issi(201));
    let mut cc = cell_with(call);
    match cc.fsm_on_network_circuit_simplex_idle(UUID, 0, 0) {
        SimplexIdleOutcome::QueuedGranted { requester, leg } => {
            assert_eq!(requester, TetraAddress::issi(201));
            assert_eq!(leg.local_ts, 2);
        },
        other => panic!("unexpected outcome {other:?}"),
    }
    assert_eq!(cc.individual_calls[&9].floor_holder, Some(201));
    assert_eq!(cc.individual_calls[&9].queued_tx_demand, None);
    // Now a local station holds the floor: idle is ignored.
    assert_eq!(cc.fsm_on_network_circuit_simplex_idle(UUID, 0, 0), SimplexIdleOutcome::HeldByOther);

    let mut call = bridged(false, IndividualCallState::Active);
    call.floor_holder = Some(2_345_678);
    let mut cc = cell_with(call);
    assert!(matches!(cc.fsm_on_network_circuit_simplex_idle(UUID, 0, 0), SimplexIdleOutcome::Released { .. }));
    assert_eq!(cc.individual_calls[&9].floor_holder, None);
    assert_eq!(cc.individual_calls[&9].last_floor_holder, Some(2_345_678));
    assert_eq!(cc.fsm_on_network_circuit_simplex_idle(UUID + 1, 0, 0), SimplexIdleOutcome::UnknownCall);
}
