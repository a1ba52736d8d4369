use std::collections::{HashMap, HashSet};

use tetra_entities::address::{SsiType, TetraAddress};
use tetra_entities::call::{CallOrigin, CallTimeout, DisconnectCause, IndividualCallState, NetworkCircuitCall};
use tetra_entities::cc_bs::CcBsSubentity;
use tetra_entities::circuit_mgr::{CircuitModeType, CommunicationType};
use tetra_entities::fsm::TransmissionGrant;
use tetra_entities::group_setup::{GroupCallTables, GroupSetupEnv, GroupSetupOutcome, GroupSetupParams, GroupSetupRequest};
use tetra_entities::network_group::{NetworkGroupEnv, NetworkGroupStartOutcome};
use tetra_entities::network_setup::NetworkSetupOutcome;
use tetra_entities::subscribers::{BrewSubscriberAction, MmSubscriberUpdate, TetraEntity};
use tetra_entities::timeslots::{TimeslotAllocator, TimeslotOwner};

fn bridge_call(destination: u32, number: &str) -> NetworkCircuitCall {
    NetworkCircuitCall {
        source_issi: 2_345_678,
        destination,
        number: number.to_string(),
        priority: 2,
        service: 0,
        mode: 0,
        duplex: 0,
        method: 1,
        communication: 0,
        grant: 0,
        permission: 0,
        timeout: 5,
        ownership: 0,
        queued: 0,
    }
}

fn cell() -> CcBsSubentity {
    let mut cc = CcBsSubentity::new();
    for issi in [300, 301] {
        cc.handle_subscriber_update(
            MmSubscriberUpdate { issi, groups: vec![500], action: BrewSubscriberAction::Affiliate },
            TetraEntity::Mm,
        );
    }
    cc
}

fn group_env(interruption: bool) -> NetworkGroupEnv {
    NetworkGroupEnv { gssi_routable: true, transmission_interruption_enabled: interruption, call_timeout: CallTimeout::T2m }
}

#[test]
fn network_setup_request_records_incoming_call() {
    let mut cc = cell();
    let mut alloc = TimeslotAllocator::new();
    let r = cc.fsm_on_network_circuit_setup_request(0x77, bridge_call(300, "0612"), &HashSet::new(), &HashSet::new(), &mut alloc);
    let (call_id, circuit, d_setup) = match r {
        NetworkSetupOutcome::Accepted { call_id, circuit, d_setup } => (call_id, circuit, d_setup),
        other => panic!("unexpected outcome {other:?}"),
    };
    assert_eq!(alloc.owner_of(circuit.ts), Some(TimeslotOwner::Cmce));
    assert_eq!(d_setup.call_time_out, CallTimeout::T3m);
    assert!(d_setup.hook_method_selection);
    assert!(!d_setup.simplex_duplex_selection);
    assert_eq!(d_setup.transmission_grant, TransmissionGrant::NotGranted);
    assert_eq!(d_setup.calling_party_address_ssi, 2_345_678);
    assert_eq!(d_setup.basic_service_information.circuit_mode_type, CircuitModeType::TchS);
    assert_eq!(d_setup.basic_service_information.communication_type, CommunicationType::P2p);
    let number = d_setup.external_subscriber_number.expect("dialled digits are encoded");
    assert_eq!(number.len, 16);
    assert_eq!(number.data, 0x0612);
    let c = &cc.individual_calls[&call_id];
    assert_eq!(c.state, IndividualCallState::IncomingSetupPending);
    assert!(c.calling_over_brew);
    assert_eq!(c.brew_uuid, Some(0x77));
    assert_eq!(c.called_addr, TetraAddress { ssi: 300, ssi_type: SsiType::Issi });
    assert_eq!(c.call_timeout, CallTimeout::T3m);

    // The called station is now busy.
    let r = cc.fsm_on_network_circuit_setup_request(0x78, bridge_call(300, ""), &HashSet::new(), &HashSet::new(), &mut alloc);
    assert_eq!(r, NetworkSetupOutcome::Rejected { cause: DisconnectCause::CalledPartyBusy });
}

#[test]
fn network_setup_request_refusals() {
    let mut cc = cell();
    let mut alloc = TimeslotAllocator::new();
    let none: HashSet<u16> = HashSet::new();
    let r = cc.fsm_on_network_circuit_setup_request(1, bridge_call(0, ""), &HashSet::new(), &none, &mut alloc);
    assert_eq!(r, NetworkSetupOutcome::Rejected { cause: DisconnectCause::CalledPartyNotReachable });
    let r = cc.fsm_on_network_circuit_setup_request(1, bridge_call(999, ""), &HashSet::new(), &none, &mut alloc);
    assert_eq!(r, NetworkSetupOutcome::Rejected { cause: DisconnectCause::CalledPartyNotReachable });
    let mut urgent = bridge_call(300, "");
    urgent.priority = 15;
    let r = cc.fsm_on_network_circuit_setup_request(1, urgent, &HashSet::new(), &none, &mut alloc);
    assert_eq!(r, NetworkSetupOutcome::Rejected { cause: DisconnectCause::RequestedServiceNotAvailable });
    let releasing: HashSet<u32> = [300].into_iter().collect();
    let r = cc.fsm_on_network_circuit_setup_request(1, bridge_call(300, ""), &releasing, &none, &mut alloc);
    assert_eq!(r, NetworkSetupOutcome::Rejected { cause: DisconnectCause::CalledPartyBusy });
    for ts in 2..=4 {
        alloc.owners[ts - 1] = Some(TimeslotOwner::Brew);
    }
    let r = cc.fsm_on_network_circuit_setup_request(1, bridge_call(300, ""), &HashSet::new(), &none, &mut alloc);
    assert_eq!(r, NetworkSetupOutcome::Rejected { cause: DisconnectCause::CongestionInInfrastructure });
    assert!(cc.individual_calls.is_empty());
}

#[test]
fn network_setup_reserved_timeout_falls_back_and_modes_decode() {
    let mut cc = cell();
    let mut alloc = TimeslotAllocator::new();
    let mut call = bridge_call(300, "");
    call.timeout = 15;
    call.mode = 9;
    call.communication = 7;
    call.duplex = 1;
    match cc.fsm_on_network_circuit_setup_request(3, call, &HashSet::new(), &HashSet::new(), &mut alloc) {
        NetworkSetupOutcome::Accepted { d_setup, call_id, .. } => {
            assert_eq!(d_setup.call_time_out, CallTimeout::T5m);
            assert_eq!(d_setup.basic_service_information.circuit_mode_type, CircuitModeType::TchS);
            assert_eq!(d_setup.basic_service_information.communication_type, CommunicationType::P2p);
            assert!(d_setup.simplex_duplex_selection);
            assert_eq!(d_setup.external_subscriber_number, None);
            assert!(cc.individual_calls[&call_id].simplex_duplex);
        },
        other => panic!("unexpected outcome {other:?}"),
    }
    assert_eq!(CircuitModeType::try_from_raw(3), Some(CircuitModeType::Tch48N4));
    assert_eq!(CommunicationType::try_from_raw(1), Some(CommunicationType::P2Mp));
    assert_eq!(CommunicationType::try_from_raw(4), None);
}

#[test]
fn network_group_call_starts_new_call_then_changes_speaker() {
    let mut cc = cell();
    let mut alloc = TimeslotAllocator::new();
    let none16: HashSet<u16> = HashSet::new();
    let r = cc.fsm_on_network_call_start(0x99, 2_000_001, 500, 3, group_env(false), &HashSet::new(), &none16, &none16, &mut alloc);
    let call_id = match r {
        NetworkGroupStartOutcome::NewCall { call_id, circuit, d_setup } => {
            assert_eq!(circuit.call_id, call_id);
            assert_eq!(d_setup.transmission_grant, TransmissionGrant::GrantedToOtherUser);
            assert_eq!(d_setup.call_time_out, CallTimeout::T2m);
            assert_eq!(d_setup.call_priority, 3);
            assert_eq!(d_setup.basic_service_information.communication_type, CommunicationType::P2Mp);
            call_id
        },
        other => panic!("unexpected outcome {other:?}"),
    };
    let c = &cc.active_calls[&call_id];
    assert_eq!(c.origin, CallOrigin::Network { brew_uuid: 0x99 });
    assert_eq!(c.source_issi, 2_000_001);
    assert!(c.tx_active);

    // A second talker behind the bridge takes the same call.
    let r = cc.fsm_on_network_call_start(0x9a, 2_000_002, 500, 3, group_env(false), &HashSet::new(), &none16, &none16, &mut alloc);
    match r {
        NetworkGroupStartOutcome::SpeakerChange { call_id: id, preempted_local_speaker: None } => assert_eq!(id, call_id),
        other => panic!("unexpected outcome {other:?}"),
    }
    assert_eq!(cc.active_calls[&call_id].source_issi, 2_000_002);
    assert_eq!(cc.active_calls[&call_id].brew_uuid, Some(0x9a));
    assert_eq!(cc.active_calls.len(), 1);

    // While the call is being released, a new call is started instead.
    let releasing: HashSet<u16> = [call_id].into_iter().collect();
    let r = cc.fsm_on_network_call_start(0x9b, 2_000_003, 500, 3, group_env(false), &HashSet::new(), &releasing, &none16, &mut alloc);
    assert!(matches!(r, NetworkGroupStartOutcome::NewCall { .. }));
}

#[test]
fn local_speaker_keeps_floor_unless_preempted() {
    let mut cc = cell();
    let mut alloc = TimeslotAllocator::new();
    let tables = GroupCallTables { releasing: HashSet::new(), cached_setups: HashMap::new(), other_occupied: HashSet::new() };
    let params = GroupSetupParams {
        hook_method_selection: false,
        simplex_duplex_selection: false,
        circuit_mode_type: CircuitModeType::TchS,
        encryption_flag: false,
        communication_type: CommunicationType::P2Mp,
        slots_per_frame: None,
        speech_service: Some(0),
    };
    let env = GroupSetupEnv { transmission_interruption_enabled: false, registry_has_members: false, call_timeout: CallTimeout::T2m };
    let r = cc.fsm_on_u_setup_group(
        GroupSetupRequest { called_party_ssi: Some(500), call_priority: 5, params },
        TetraAddress::issi(300),
        env,
        &tables,
        &HashSet::new(),
        &mut alloc,
    );
    let call_id = match r {
        GroupSetupOutcome::Started { circuit } => circuit.call_id,
        other => panic!("unexpected outcome {other:?}"),
    };
    let none16: HashSet<u16> = HashSet::new();
    let r = cc.fsm_on_network_call_start(1, 2_000_001, 500, 3, group_env(false), &HashSet::new(), &none16, &none16, &mut alloc);
    assert!(matches!(r, NetworkGroupStartOutcome::LocalFloorHeld { call_id: id } if id == call_id));
    // Pre-emptive priority while interruption is off ends the bridge call.
    let r = cc.fsm_on_network_call_start(1, 2_000_001, 500, 14, group_env(false), &HashSet::new(), &none16, &none16, &mut alloc);
    assert!(matches!(r, NetworkGroupStartOutcome::InterruptionDisabled));
    // With interruption on, a higher pre-emptive priority takes the floor.
    let r = cc.fsm_on_network_call_start(1, 2_000_001, 500, 14, group_env(true), &HashSet::new(), &none16, &none16, &mut alloc);
    match r {
        NetworkGroupStartOutcome::SpeakerChange { call_id: id, preempted_local_speaker } => {
            assert_eq!(id, call_id);
            assert_eq!(preempted_local_speaker, Some(300));
        },
        other => panic!("unexpected outcome {other:?}"),
    }
    assert_eq!(cc.active_calls[&call_id].priority, 14);
}

#[test]
fn network_group_start_without_listeners_or_route_is_ended() {
    let mut cc = cell();
    let mut alloc = TimeslotAllocator::new();
    let none16: HashSet<u16> = HashSet::new();
    let mut env = group_env(false);
    env.gssi_routable = false;
    let r = cc.fsm_on_network_call_start(1, 2_000_001, 500, 3, env, &HashSet::new(), &none16, &none16, &mut alloc);
    assert!(matches!(r, NetworkGroupStartOutcome::NotRoutable));
    let r = cc.fsm_on_network_call_start(1, 2_000_001, 501, 3, group_env(false), &HashSet::new(), &none16, &none16, &mut alloc);
    match r {
        NetworkGroupStartOutcome::NoLocalListener { released } => assert!(released.is_empty()),
        other => panic!("unexpected outcome {other:?}"),
    }
    // Registry members count as local listeners.
    let members: HashSet<u32> = [400].into_iter().collect();
    let r = cc.fsm_on_network_call_start(1, 2_000_001, 501, 3, group_env(false), &members, &none16, &none16, &mut alloc);
    assert!(matches!(r, NetworkGroupStartOutcome::NewCall { .. }));
    for ts in 2..=4 {
        alloc.owners[ts - 1] = Some(TimeslotOwner::Umac);
    }
    let r = cc.fsm_on_network_call_start(1, 2_000_001, 500, 3, group_env(false), &HashSet::new(), &none16, &none16, &mut alloc);
    assert!(matches!(r, NetworkGroupStartOutcome::Congestion));
}
