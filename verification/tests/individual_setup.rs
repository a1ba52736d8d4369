use std::collections::HashSet;

use tetra_entities::address::TetraAddress;
use tetra_entities::call::{CallTimeout, DisconnectCause, IndividualCallState};
use tetra_entities::cc_bs::CcBsSubentity;
use tetra_entities::circuit_mgr::{CircuitModeType, CommunicationType};
use tetra_entities::fsm::TransmissionGrant;
use tetra_entities::individual_setup::{
    EchoSetupOutcome, P2pSetupEnv, P2pSetupOutcome, P2pSetupRequest, UplinkContext, ECHO_ISSI,
};
use tetra_entities::sds::PartyTypeIdentifier;
use tetra_entities::subscribers::{BrewSubscriberAction, MmSubscriberUpdate, TetraEntity};
use tetra_entities::timeslots::{TimeslotAllocator, TimeslotOwner};

fn request(called: Option<u32>) -> P2pSetupRequest {
    P2pSetupRequest {
        call_priority: 0,
        called_party_type_identifier: PartyTypeIdentifier::Ssi,
        called_party_ssi: called,
        has_called_party_short_number: false,
        called_party_extension: None,
        has_external_subscriber_number: false,
        hook_method_selection: true,
        simplex_duplex_selection: false,
        request_to_transmit_send_data: true,
        communication_type: CommunicationType::P2p,
        circuit_mode_type: CircuitModeType::TchS,
        encryption_flag: false,
        slots_per_frame: None,
        speech_service: Some(0),
    }
}

fn env() -> P2pSetupEnv {
    P2pSetupEnv { brew_active: false, mcc: 204, mnc: 1337, called_is_configured_local: true, call_timeout: CallTimeout::T5m }
}

fn link() -> UplinkContext {
    UplinkContext { handle: 1, link_id: 2, endpoint_id: 3 }
}

fn cell() -> CcBsSubentity {
    let mut cc = CcBsSubentity::new();
    for issi in [201, 202] {
        cc.handle_subscriber_update(
            MmSubscriberUpdate { issi, groups: vec![], action: BrewSubscriberAction::Register },
            TetraEntity::Mm,
        );
    }
    cc
}

fn setup(cc: &mut CcBsSubentity, req: P2pSetupRequest, env: P2pSetupEnv, alloc: &mut TimeslotAllocator) -> P2pSetupOutcome {
    cc.fsm_on_u_setup_p2p(req, TetraAddress::issi(201), link(), env, &HashSet::new(), &HashSet::new(), alloc)
}

#[test]
fn simplex_setup_records_call_waiting_for_called_station() {
    let mut cc = cell();
    let mut alloc = TimeslotAllocator::new();
    let r = setup(&mut cc, request(Some(202)), env(), &mut alloc);
    let (call_id, calling, d_setup) = match r {
        P2pSetupOutcome::Started { call_id, calling, called: None, setup_grant: TransmissionGrant::Granted, d_setup } => {
            (call_id, calling, d_setup)
        },
        other => panic!("unexpected outcome {other:?}"),
    };
    assert_eq!(alloc.owner_of(calling.ts), Some(TimeslotOwner::Cmce));
    let call = &cc.individual_calls[&call_id];
    assert_eq!(call.state, IndividualCallState::CallSetupPending);
    assert_eq!(call.called_addr, TetraAddress::issi(202));
    assert_eq!(call.called_ts, calling.ts);
    assert_eq!(call.calling_handle, 1);
    assert_eq!(d_setup.dest_addr, TetraAddress::issi(202));
    assert_eq!(d_setup.call_identifier, call_id);
    assert_eq!(d_setup.call_time_out, CallTimeout::T5m);
    assert_eq!(d_setup.transmission_grant, TransmissionGrant::Granted);
    assert!(!d_setup.transmission_request_permission);
    assert_eq!(d_setup.calling_party_address_ssi, Some(201));
    assert_eq!(d_setup.basic_service_information.communication_type, CommunicationType::P2p);
    assert_eq!(d_setup.basic_service_information.speech_service, Some(0));

    // Both parties are now busy.
    let r = setup(&mut cc, request(Some(202)), env(), &mut alloc);
    assert!(matches!(r, P2pSetupOutcome::Rejected { cause: DisconnectCause::NoIdleCcEntity }));
}

#[test]
fn duplex_setup_takes_two_circuits() {
    let mut cc = cell();
    let mut alloc = TimeslotAllocator::new();
    let mut req = request(Some(202));
    req.simplex_duplex_selection = true;
    let r = setup(&mut cc, req, env(), &mut alloc);
    match r {
        P2pSetupOutcome::Started { calling, called: Some(second), setup_grant: TransmissionGrant::NotGranted, d_setup, .. } => {
            assert_eq!(d_setup.call_time_out, CallTimeout::Infinite);
            assert!(d_setup.simplex_duplex_selection);
            assert_eq!(d_setup.transmission_grant, TransmissionGrant::NotGranted);
            assert_ne!(calling.ts, second.ts);
            assert_eq!(calling.call_id, second.call_id);
        },
        other => panic!("unexpected outcome {other:?}"),
    }
}

#[test]
fn setup_refusals_before_a_call_identity() {
    let mut cc = cell();
    let mut alloc = TimeslotAllocator::new();
    let mut pre = request(Some(202));
    pre.call_priority = 14;
    assert!(matches!(
        setup(&mut cc, pre, env(), &mut alloc),
        P2pSetupOutcome::Rejected { cause: DisconnectCause::RequestedServiceNotAvailable }
    ));
    assert!(matches!(
        setup(&mut cc, request(None), env(), &mut alloc),
        P2pSetupOutcome::Rejected { cause: DisconnectCause::RequestedServiceNotAvailable }
    ));
    assert!(matches!(
        setup(&mut cc, request(Some(303)), env(), &mut alloc),
        P2pSetupOutcome::Rejected { cause: DisconnectCause::CalledPartyNotReachable }
    ));
    let mut bridged = env();
    bridged.called_is_configured_local = false;
    assert!(matches!(
        setup(&mut cc, request(Some(303)), bridged, &mut alloc),
        P2pSetupOutcome::OverBrew { called_addr } if called_addr == TetraAddress::issi(303)
    ));
    assert!(matches!(setup(&mut cc, request(Some(999)), env(), &mut alloc), P2pSetupOutcome::Echo));
    assert!(cc.individual_calls.is_empty());
}

#[test]
fn tsi_must_belong_to_the_local_network() {
    let mut cc = cell();
    let mut alloc = TimeslotAllocator::new();
    let mut tsi = request(Some(202));
    tsi.called_party_type_identifier = PartyTypeIdentifier::Tsi;
    tsi.called_party_extension = Some((204 << 14) | 1337);
    assert!(matches!(setup(&mut cc, tsi, env(), &mut alloc), P2pSetupOutcome::Started { .. }));

    let mut cc = cell();
    tsi.called_party_extension = Some((205 << 14) | 1337);
    assert!(matches!(
        setup(&mut cc, tsi, env(), &mut alloc),
        P2pSetupOutcome::Rejected { cause: DisconnectCause::RequestedServiceNotAvailable }
    ));
}

#[test]
fn echo_service_answers_with_looped_back_active_call() {
    let mut cc = cell();
    let mut alloc = TimeslotAllocator::new();
    let r = cc.fsm_on_u_setup_echo(request(Some(ECHO_ISSI)), TetraAddress::issi(201), link(), false, CallTimeout::T3m, &HashSet::new(), &mut alloc);
    let (call_id, circuit, d_connect) = match r {
        EchoSetupOutcome::Answered { call_id, circuit, d_connect } => (call_id, circuit, d_connect),
        other => panic!("unexpected outcome {other:?}"),
    };
    assert_eq!(d_connect.call_time_out, CallTimeout::T3m);
    assert_eq!(d_connect.transmission_grant, TransmissionGrant::Granted);
    assert!(d_connect.hook_method_selection);
    assert_eq!(alloc.owner_of(circuit.ts), Some(TimeslotOwner::Cmce));
    let c = &cc.individual_calls[&call_id];
    assert_eq!(c.state, IndividualCallState::Active);
    assert_eq!(c.called_addr, TetraAddress::issi(ECHO_ISSI));
    assert_eq!(c.floor_holder, Some(201));
    assert_eq!(c.calling_ts, circuit.ts);

    let mut duplex = request(Some(ECHO_ISSI));
    duplex.simplex_duplex_selection = true;
    let r = cc.fsm_on_u_setup_echo(duplex, TetraAddress::issi(202), link(), false, CallTimeout::T3m, &HashSet::new(), &mut alloc);
    assert!(matches!(r, EchoSetupOutcome::Answered { d_connect, .. } if d_connect.call_time_out == CallTimeout::Infinite));
    let r = cc.fsm_on_u_setup_echo(request(Some(ECHO_ISSI)), TetraAddress::issi(201), link(), true, CallTimeout::T3m, &HashSet::new(), &mut alloc);
    assert!(matches!(r, EchoSetupOutcome::Rejected { cause: DisconnectCause::CalledPartyBusy }));
}
