use std::collections::HashSet;

use tetra_entities::address::TetraAddress;
use tetra_entities::call::{CallTimeout, IndividualCallState};
use tetra_entities::cc_bs::CcBsSubentity;
use tetra_entities::circuit_mgr::{CircuitModeType, CommunicationType};
use tetra_entities::connect::{
    BasicServiceInformation, CachedPrivateSetup, CalledDeliveryOutcome, CallerDeliveryOutcome, UConnectOutcome, UConnectPdu,
};
use tetra_entities::connect_ack::{ConnectAckStage, ConnectAckStep, DeliveryReport, PendingIndividualConnectAck};
use tetra_entities::fsm::{PrivateCalledConnectAckDelivery, TransmissionGrant, TxState};
use tetra_entities::individual_setup::{P2pSetupEnv, P2pSetupOutcome, P2pSetupRequest, UplinkContext};
use tetra_entities::sds::PartyTypeIdentifier;
use tetra_entities::subscribers::{BrewSubscriberAction, MmSubscriberUpdate, TetraEntity};
use tetra_entities::timeslots::TimeslotAllocator;

fn cached() -> Option<CachedPrivateSetup> {
    Some(CachedPrivateSetup {
        hook_method_selection: true,
        basic_service_information: BasicServiceInformation {
            circuit_mode_type: CircuitModeType::TchS,
            encryption_flag: false,
            communication_type: CommunicationType::P2p,
            slots_per_frame: None,
            speech_service: Some(0),
        },
    })
}

fn report(state: TxState) -> DeliveryReport {
    DeliveryReport {
        state,
        acknowledged: state == TxState::Acknowledged,
        transmitted: state == TxState::Transmitted || state == TxState::Acknowledged,
        final_state: state == TxState::Acknowledged || state == TxState::Lost || state == TxState::Discarded,
    }
}

/// A local simplex call from 201 to 202, answered by U-CONNECT.
fn connected(cc: &mut CcBsSubentity) -> u16 {
    for issi in [201, 202] {
        cc.handle_subscriber_update(MmSubscriberUpdate { issi, groups: vec![], action: BrewSubscriberAction::Register }, TetraEntity::Mm);
    }
    let mut alloc = TimeslotAllocator::new();
    let req = P2pSetupRequest {
        call_priority: 0,
        called_party_type_identifier: PartyTypeIdentifier::Ssi,
        called_party_ssi: Some(202),
        has_called_party_short_number: false,
        called_party_extension: None,
        has_external_subscriber_number: false,
        hook_method_selection: true,
        simplex_duplex_selection: false,
        request_to_transmit_send_data: false,
        communication_type: CommunicationType::P2p,
        circuit_mode_type: CircuitModeType::TchS,
        encryption_flag: false,
        slots_per_frame: None,
        speech_service: Some(0),
    };
    let env = P2pSetupEnv { brew_active: false, mcc: 1, mnc: 1, called_is_configured_local: true, call_timeout: CallTimeout::T5m };
    let link = UplinkContext { handle: 1, link_id: 2, endpoint_id: 3 };
    let call_id = match cc.fsm_on_u_setup_p2p(req, TetraAddress::issi(201), link, env, &HashSet::new(), &HashSet::new(), &mut alloc) {
        P2pSetupOutcome::Started { call_id, .. } => call_id,
        other => panic!("unexpected outcome {other:?}"),
    };
    let pdu = UConnectPdu {
        call_identifier: call_id,
        hook_method_selection: true,
        simplex_duplex_selection: false,
        basic_service_information: None,
        has_facility: false,
        has_proprietary: false,
    };
    let r = cc.fsm_on_u_connect(TetraAddress::issi(202), 7, 8, 9, pdu, cached(), &HashSet::new(), CallTimeout::T5m, &mut alloc);
    assert!(matches!(r, UConnectOutcome::ConnectCalled { .. }));
    call_id
}

fn guard(stage: ConnectAckStage, cc: &CcBsSubentity) -> PendingIndividualConnectAck {
    PendingIndividualConnectAck { stage, started_at: cc.dltime }
}

#[test]
fn acknowledged_deliveries_walk_the_connect_to_active() {
    let mut cc = CcBsSubentity::new();
    let call_id = connected(&mut cc);
    let called = guard(ConnectAckStage::CalledConnectAck { attempts: 1, requires_l2_ack: true }, &cc);
    // Only transmitted: the acknowledgement is still awaited.
    assert_eq!(cc.drain_pending_individual_connect_acks(call_id, called, report(TxState::Transmitted), cached(), CallTimeout::T5m), ConnectAckStep::Waiting);
    match cc.drain_pending_individual_connect_acks(call_id, called, report(TxState::Acknowledged), cached(), CallTimeout::T5m) {
        ConnectAckStep::CalledDelivered { outcome: CalledDeliveryOutcome::CallerConnect { d_connect } } => {
            assert_eq!(d_connect.transmission_grant, TransmissionGrant::Granted);
        },
        other => panic!("unexpected step {other:?}"),
    }
    assert_eq!(cc.individual_calls[&call_id].state, IndividualCallState::CallerConnectAckPending);
    let caller = guard(ConnectAckStage::CallerDConnect { attempts: 1 }, &cc);
    match cc.drain_pending_individual_connect_acks(call_id, caller, report(TxState::Acknowledged), cached(), CallTimeout::T5m) {
        ConnectAckStep::CallerDelivered { outcome: CallerDeliveryOutcome::Activated { floor: Some(floor) } } => {
            assert_eq!(floor.source_issi, 201);
        },
        other => panic!("unexpected step {other:?}"),
    }
    assert_eq!(cc.individual_calls[&call_id].state, IndividualCallState::Active);
}

#[test]
fn lost_deliveries_are_retried_then_released() {
    let mut cc = CcBsSubentity::new();
    let call_id = connected(&mut cc);
    let called = guard(ConnectAckStage::CalledConnectAck { attempts: 2, requires_l2_ack: true }, &cc);
    match cc.drain_pending_individual_connect_acks(call_id, called, report(TxState::Lost), cached(), CallTimeout::T5m) {
        ConnectAckStep::RetryCalled { delivery, d_connect_ack, next } => {
            assert_eq!(delivery, PrivateCalledConnectAckDelivery::AssignedChannelRecovery);
            assert_eq!(d_connect_ack.called, UplinkContext { handle: 7, link_id: 8, endpoint_id: 9 });
            assert_eq!(next.stage, ConnectAckStage::CalledConnectAck { attempts: 3, requires_l2_ack: true });
        },
        other => panic!("unexpected step {other:?}"),
    }
    let called = guard(ConnectAckStage::CalledConnectAck { attempts: 3, requires_l2_ack: true }, &cc);
    match cc.drain_pending_individual_connect_acks(call_id, called, report(TxState::Discarded), cached(), CallTimeout::T5m) {
        ConnectAckStep::RetryCalled { delivery, .. } => assert_eq!(delivery, PrivateCalledConnectAckDelivery::CurrentChannel),
        other => panic!("unexpected step {other:?}"),
    }
    let called = guard(ConnectAckStage::CalledConnectAck { attempts: 5, requires_l2_ack: true }, &cc);
    assert_eq!(cc.drain_pending_individual_connect_acks(call_id, called, report(TxState::Lost), cached(), CallTimeout::T5m), ConnectAckStep::ReleaseCall);
    let called = guard(ConnectAckStage::CalledConnectAck { attempts: 1, requires_l2_ack: true }, &cc);
    assert_eq!(cc.drain_pending_individual_connect_acks(call_id, called, report(TxState::Lost), None, CallTimeout::T5m), ConnectAckStep::Forget);

    let caller = guard(ConnectAckStage::CallerDConnect { attempts: 1 }, &cc);
    match cc.drain_pending_individual_connect_acks(call_id, caller, report(TxState::Lost), cached(), CallTimeout::T5m) {
        ConnectAckStep::RetryCaller { next, .. } => assert_eq!(next.stage, ConnectAckStage::CallerDConnect { attempts: 2 }),
        other => panic!("unexpected step {other:?}"),
    }
    assert_eq!(cc.drain_pending_individual_connect_acks(call_id, caller, report(TxState::Lost), None, CallTimeout::T5m), ConnectAckStep::ReleaseCall);
    let caller = guard(ConnectAckStage::CallerDConnect { attempts: 3 }, &cc);
    assert_eq!(cc.drain_pending_individual_connect_acks(call_id, caller, report(TxState::Lost), cached(), CallTimeout::T5m), ConnectAckStep::ReleaseCall);
    let caller = guard(ConnectAckStage::CallerDConnect { attempts: 1 }, &cc);
    assert_eq!(cc.drain_pending_individual_connect_acks(999, caller, report(TxState::Lost), cached(), CallTimeout::T5m), ConnectAckStep::Forget);
}
