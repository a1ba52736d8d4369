use std::collections::HashSet;

use tetra_entities::address::TetraAddress;
use tetra_entities::brew_setup::{BrewSetupEnv, BrewSetupOutcome, BrewSetupPdu};
use tetra_entities::call::{CallTimeout, DisconnectCause};
use tetra_entities::cc_bs::CcBsSubentity;
use tetra_entities::circuit_mgr::{CircuitModeType, CommunicationType};
use tetra_entities::ext_number::decimal_string_of;
use tetra_entities::individual_setup::UplinkContext;
use tetra_entities::timeslots::TimeslotAllocator;

fn pdu(called: Option<u32>, number: Option<&str>) -> BrewSetupPdu {
    BrewSetupPdu {
        called_party_ssi: called,
        external_subscriber_number: number.map(|n| CcBsSubentity::encode_external_subscriber_number(n).unwrap()),
        has_called_party_short_number: false,
        call_priority: 3,
        speech_service: Some(0),
        circuit_mode_type: CircuitModeType::TchS,
        simplex_duplex_selection: true,
        hook_method_selection: true,
        communication_type: CommunicationType::P2p,
        request_to_transmit_send_data: false,
    }
}

fn env() -> BrewSetupEnv {
    BrewSetupEnv {
        brew_active: true,
        network_connected: true,
        source_routable: true,
        destination_routable: false,
        call_timeout: CallTimeout::T5m,
    }
}

#[test]
fn decimal_numerals() {
    assert_eq!(decimal_string_of(0), "0");
    assert_eq!(decimal_string_of(600), "600");
    assert_eq!(decimal_string_of(u32::MAX), "4294967295");
}

#[test]
fn bridge_call_description_prefers_short_service_ssi() {
    let call = CcBsSubentity::build_network_circuit_call_from_u_setup(&pdu(Some(600), Some("000")), 201);
    assert_eq!(call.number, "600");
    assert_eq!(call.destination, 600);
    assert_eq!(call.duplex, 1);
    assert_eq!(call.timeout, 7);
    let call = CcBsSubentity::build_network_circuit_call_from_u_setup(&pdu(Some(2_000_000), Some("0612")), 201);
    assert_eq!(call.number, "0612");
    let mut call = CcBsSubentity::build_network_circuit_call_from_u_setup(&pdu(Some(600), None), 201);
    assert_eq!(call.number, "");
    call.normalize_short_service_number();
    assert_eq!(call.number, "600");
    assert_eq!(call.destination, 0);
    assert_eq!(call.duplex, 0);
}

#[test]
fn bridged_setup_is_forwarded_with_record() {
    let mut cc = CcBsSubentity::new();
    let mut alloc = TimeslotAllocator::new();
    let p = pdu(Some(2_345_678), Some("0612"));
    let call = CcBsSubentity::build_network_circuit_call_from_u_setup(&p, 201);
    let r = cc.forward_u_setup_over_brew(
        &p,
        call,
        TetraAddress::issi(201),
        TetraAddress::issi(2_345_678),
        UplinkContext { handle: 0, link_id: 0, endpoint_id: 0 },
        env(),
        0x1234,
        &HashSet::new(),
        &mut alloc,
    );
    match r {
        BrewSetupOutcome::Forwarded { call_id, brew_uuid, call, .. } => {
            assert_eq!(brew_uuid, 0x1234);
            // An all-digit number is a service code: the destination stays.
            assert_eq!(call.destination, 2_345_678);
            let record = &cc.individual_calls[&call_id];
            assert!(record.called_over_brew);
            assert_eq!(record.brew_uuid, Some(0x1234));
        },
        other => panic!("unexpected outcome {other:?}"),
    }
}

#[test]
fn bridged_setup_drops_unroutable_destination_for_dialled_number() {
    let mut cc = CcBsSubentity::new();
    let mut alloc = TimeslotAllocator::new();
    let p = pdu(Some(2_345_678), Some("06*12"));
    let call = CcBsSubentity::build_network_circuit_call_from_u_setup(&p, 201);
    assert_eq!(call.number, "06*12");
    let r = cc.forward_u_setup_over_brew(
        &p,
        call,
        TetraAddress::issi(201),
        TetraAddress::issi(2_345_678),
        UplinkContext { handle: 0, link_id: 0, endpoint_id: 0 },
        env(),
        7,
        &HashSet::new(),
        &mut alloc,
    );
    match r {
        BrewSetupOutcome::Forwarded { call, .. } => assert_eq!(call.destination, 0),
        other => panic!("unexpected outcome {other:?}"),
    }
}

#[test]
fn bridged_setup_refusals() {
    let mut cc = CcBsSubentity::new();
    let mut alloc = TimeslotAllocator::new();
    let p = pdu(Some(2_345_678), None);
    let call = CcBsSubentity::build_network_circuit_call_from_u_setup(&p, 201);
    let r = cc.forward_u_setup_over_brew(
        &p,
        call.duplicate(),
        TetraAddress::issi(201),
        TetraAddress::issi(2_345_678),
        UplinkContext { handle: 0, link_id: 0, endpoint_id: 0 },
        env(),
        1,
        &HashSet::new(),
        &mut alloc,
    );
    assert!(matches!(r, BrewSetupOutcome::Rejected { cause: DisconnectCause::CalledPartyNotReachable }));
    let mut off = env();
    off.network_connected = false;
    let r = cc.forward_u_setup_over_brew(
        &p,
        call,
        TetraAddress::issi(201),
        TetraAddress::issi(2_345_678),
        UplinkContext { handle: 0, link_id: 0, endpoint_id: 0 },
        off,
        1,
        &HashSet::new(),
        &mut alloc,
    );
    assert!(matches!(r, BrewSetupOutcome::Rejected { cause: DisconnectCause::RequestedServiceNotAvailable }));
    assert!(cc.individual_calls.is_empty());
}

#[test]
fn bridged_setup_draws_a_fresh_call_uuid() {
    let mut cc = CcBsSubentity::new();
    let mut alloc = TimeslotAllocator::new();
    let p = pdu(Some(2_345_678), Some("0612"));
    let call = CcBsSubentity::build_network_circuit_call_from_u_setup(&p, 201);
    let r = cc.fsm_on_u_setup_p2p_over_brew(
        &p,
        call,
        TetraAddress::issi(201),
        TetraAddress::issi(2_345_678),
        UplinkContext { handle: 0, link_id: 0, endpoint_id: 0 },
        env(),
        &HashSet::new(),
        &mut alloc,
    );
    match r {
        BrewSetupOutcome::Forwarded { call_id, brew_uuid, .. } => {
            // A version-4 UUID carries its version in bits 76..80.
            assert_eq!((brew_uuid >> 76) & 0xF, 4);
            assert_eq!(cc.individual_calls[&call_id].brew_uuid, Some(brew_uuid));
        },
        other => panic!("unexpected outcome {other:?}"),
    }
}
