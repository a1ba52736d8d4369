use std::collections::HashSet;

use tetra_entities::address::TetraAddress;
use tetra_entities::call::{CallTimeout, CallTimeoutSetupPhase, IndividualCall, IndividualCallState};
use tetra_entities::cc_bs::CcBsSubentity;
use tetra_entities::circuit_mgr::{CircuitModeType, CommunicationType};
use tetra_entities::connect::{
    AlertNotice, BasicServiceInformation, BearerOpen, CachedPrivateSetup, CalledDeliveryOutcome, CallerDeliveryOutcome,
    PrivateFloorGrant, UAlertOutcome, UAlertPdu, UConnectOutcome, UConnectPdu,
};
use tetra_entities::fsm::{IndividualTransitionError, TransmissionGrant};
use tetra_entities::individual_setup::{P2pSetupEnv, P2pSetupOutcome, P2pSetupRequest, UplinkContext};
use tetra_entities::sds::PartyTypeIdentifier;
use tetra_entities::subscribers::{BrewSubscriberAction, MmSubscriberUpdate, TetraEntity};
use tetra_entities::tdma::TdmaTime;
use tetra_entities::timeslots::{TimeslotAllocator, TimeslotOwner};

fn speech() -> BasicServiceInformation {
    BasicServiceInformation {
        circuit_mode_type: CircuitModeType::TchS,
        encryption_flag: false,
        communication_type: CommunicationType::P2p,
        slots_per_frame: None,
        speech_service: Some(0),
    }
}

fn cached(hook: bool) -> Option<CachedPrivateSetup> {
    Some(CachedPrivateSetup { hook_method_selection: hook, basic_service_information: speech() })
}

fn alert(call_id: u16, duplex: bool) -> UAlertPdu {
    UAlertPdu {
        call_identifier: call_id,
        reserved: true,
        simplex_duplex_selection: duplex,
        basic_service_information: None,
        has_facility: false,
        has_proprietary: false,
    }
}

fn connect(call_id: u16, duplex: bool) -> UConnectPdu {
    UConnectPdu {
        call_identifier: call_id,
        hook_method_selection: true,
        simplex_duplex_selection: duplex,
        basic_service_information: None,
        has_facility: false,
        has_proprietary: false,
    }
}

fn cell() -> CcBsSubentity {
    let mut cc = CcBsSubentity::new();
    for issi in [201, 202] {
        cc.handle_subscriber_update(
            MmSubscriberUpdate { issi, groups: vec![], action: BrewSubscriberAction::Register },
            TetraEntity::Mm,
        );
    }
    cc
}

/// A local private call from 201 to 202 set up through U-SETUP.
fn started(cc: &mut CcBsSubentity, alloc: &mut TimeslotAllocator, duplex: bool) -> u16 {
    let req = P2pSetupRequest {
        call_priority: 0,
        called_party_type_identifier: PartyTypeIdentifier::Ssi,
        called_party_ssi: Some(202),
        has_called_party_short_number: false,
        called_party_extension: None,
        has_external_subscriber_number: false,
        hook_method_selection: true,
        simplex_duplex_selection: duplex,
        request_to_transmit_send_data: true,
        communication_type: CommunicationType::P2p,
        circuit_mode_type: CircuitModeType::TchS,
        encryption_flag: false,
        slots_per_frame: None,
        speech_service: Some(0),
    };
    let env = P2pSetupEnv { brew_active: false, mcc: 204, mnc: 1337, called_is_configured_local: true, call_timeout: CallTimeout::T5m };
    let link = UplinkContext { handle: 1, link_id: 2, endpoint_id: 3 };
    match cc.fsm_on_u_setup_p2p(req, TetraAddress::issi(201), link, env, &HashSet::new(), &HashSet::new(), alloc) {
        P2pSetupOutcome::Started { call_id, .. } => call_id,
        other => panic!("unexpected outcome {other:?}"),
    }
}

fn bridged_call(network: bool) -> IndividualCall {
    IndividualCall {
        calling_addr: TetraAddress::issi(2_345_678),
        called_addr: TetraAddress::issi(202),
        calling_handle: 0,
        calling_link_id: 0,
        calling_endpoint_id: 0,
        called_handle: None,
        called_link_id: None,
        called_endpoint_id: None,
        calling_ts: 2,
        called_ts: 2,
        calling_usage: 4,
        called_usage: 4,
        simplex_duplex: false,
        request_to_transmit_send_data: false,
        state: IndividualCallState::IncomingSetupPending,
        setup_timer_started: Some(TdmaTime::default()),
        setup_timeout: Some(CallTimeoutSetupPhase::T60s),
        active_timer_started: None,
        call_timeout: CallTimeout::T5m,
        called_over_brew: false,
        calling_over_brew: true,
        brew_uuid: if network { Some(0xabcd) } else { None },
        network_call: None,
        connect_request_sent: false,
        floor_holder: None,
        last_floor_holder: None,
        queued_tx_demand: None,
    }
}

#[test]
fn configured_call_timeouts() {
    assert_eq!(CcBsSubentity::config_call_timeout(0), CallTimeout::Infinite);
    assert_eq!(CcBsSubentity::config_call_timeout(30), CallTimeout::T30s);
    assert_eq!(CcBsSubentity::config_call_timeout(38), CallTimeout::T45s);
    assert_eq!(CcBsSubentity::config_call_timeout(300), CallTimeout::T5m);
    assert_eq!(CcBsSubentity::config_call_timeout(1800), CallTimeout::T20m);
    assert_eq!(CcBsSubentity::config_call_timeout(5000), CallTimeout::T30m);
}

#[test]
fn unsupported_answer_elements() {
    let mut pdu = connect(5, false);
    assert_eq!(CcBsSubentity::unsupported_u_connect_function(&pdu, None), None);
    pdu.has_proprietary = true;
    assert_eq!(CcBsSubentity::unsupported_u_connect_function(&pdu, None).map(|p| p.0), Some(18));
    pdu.has_proprietary = false;
    let mut other = speech();
    other.encryption_flag = true;
    pdu.basic_service_information = Some(other);
    assert_eq!(CcBsSubentity::unsupported_u_connect_function(&pdu, Some(speech())).map(|p| p.0), Some(17));
    pdu.basic_service_information = Some(speech());
    assert_eq!(CcBsSubentity::unsupported_u_connect_function(&pdu, Some(speech())), None);
    assert_eq!(CcBsSubentity::unsupported_u_connect_function(&pdu, None).map(|p| p.0), Some(17));

    let mut a = alert(5, false);
    assert_eq!(CcBsSubentity::unsupported_u_alert_function(&a, None), None);
    a.has_facility = true;
    assert_eq!(CcBsSubentity::unsupported_u_alert_function(&a, None).map(|p| p.0), Some(18));
    a.reserved = false;
    assert_eq!(CcBsSubentity::unsupported_u_alert_function(&a, None).map(|p| p.0), Some(14));
    assert!(CcBsSubentity::basic_service_information_matches(&speech(), &speech()));
    assert!(!CcBsSubentity::basic_service_information_matches(&speech(), &other));
}

#[test]
fn alert_with_simplex_offer_gives_back_called_bearer() {
    let mut cc = cell();
    let mut alloc = TimeslotAllocator::new();
    let call_id = started(&mut cc, &mut alloc, true);
    let (calling_ts, called_ts) = {
        let c = &cc.individual_calls[&call_id];
        (c.calling_ts, c.called_ts)
    };
    assert_ne!(calling_ts, called_ts);
    assert_eq!(alloc.owner_of(called_ts), Some(TimeslotOwner::Cmce));

    let r = cc.fsm_on_u_alert(TetraAddress::issi(202), 7, 8, 9, alert(call_id, false), CallTimeout::T2m, &mut alloc);
    match r {
        UAlertOutcome::Alerted {
            notice: AlertNotice::DAlert { simplex_duplex: false, calling_addr, calling, setup_timeout: CallTimeoutSetupPhase::T60s },
        } => {
            assert_eq!(calling_addr, TetraAddress::issi(201));
            assert_eq!(calling, UplinkContext { handle: 1, link_id: 2, endpoint_id: 3 });
        },
        other => panic!("unexpected outcome {other:?}"),
    }
    let c = &cc.individual_calls[&call_id];
    assert_eq!(c.state, IndividualCallState::IncomingAlerting);
    assert!(!c.simplex_duplex);
    assert_eq!(c.called_ts, calling_ts);
    assert_eq!(c.call_timeout, CallTimeout::T2m);
    assert_eq!(c.called_handle, Some(7));
    assert_eq!(alloc.owner_of(called_ts), None);
    assert_eq!(alloc.owner_of(calling_ts), Some(TimeslotOwner::Cmce));

    // The caller is told only once.
    let r = cc.fsm_on_u_alert(TetraAddress::issi(202), 7, 8, 9, alert(call_id, false), CallTimeout::T2m, &mut alloc);
    assert_eq!(r, UAlertOutcome::Alerted { notice: AlertNotice::AlreadyAlerted });
    // Another ISSI and another call are ignored.
    let r = cc.fsm_on_u_alert(TetraAddress::issi(203), 7, 8, 9, alert(call_id, false), CallTimeout::T2m, &mut alloc);
    assert_eq!(r, UAlertOutcome::UnexpectedSender);
    let r = cc.fsm_on_u_alert(TetraAddress::issi(202), 7, 8, 9, alert(call_id + 1, false), CallTimeout::T2m, &mut alloc);
    assert_eq!(r, UAlertOutcome::UnknownCall);
}

#[test]
fn local_private_connect_runs_to_active_call() {
    let mut cc = cell();
    let mut alloc = TimeslotAllocator::new();
    let call_id = started(&mut cc, &mut alloc, false);
    let ts = cc.individual_calls[&call_id].calling_ts;
    let usage = cc.individual_calls[&call_id].calling_usage;

    // From another station: ignored.
    let r = cc.fsm_on_u_connect(TetraAddress::issi(203), 7, 8, 9, connect(call_id, false), cached(true), &HashSet::new(), CallTimeout::T5m, &mut alloc);
    assert!(matches!(r, UConnectOutcome::UnexpectedSender));
    // Delivery already guarded: ignored after binding.
    let guarded: HashSet<u16> = [call_id].into_iter().collect();
    let r = cc.fsm_on_u_connect(TetraAddress::issi(202), 7, 8, 9, connect(call_id, false), cached(true), &guarded, CallTimeout::T5m, &mut alloc);
    assert!(matches!(r, UConnectOutcome::DeliveryGuardPending));
    assert_eq!(cc.individual_calls[&call_id].state, IndividualCallState::CallSetupPending);

    let r = cc.fsm_on_u_connect(TetraAddress::issi(202), 7, 8, 9, connect(call_id, false), cached(true), &HashSet::new(), CallTimeout::T5m, &mut alloc);
    match r {
        UConnectOutcome::ConnectCalled { called_ms_transmits_first, calling_bearer, called_bearer, d_connect_ack } => {
            // The caller asked the called station to talk first.
            assert!(called_ms_transmits_first);
            assert_eq!(d_connect_ack.transmission_grant, TransmissionGrant::Granted);
            assert_eq!(d_connect_ack.call_time_out, CallTimeout::T5m);
            assert_eq!(d_connect_ack.called, UplinkContext { handle: 7, link_id: 8, endpoint_id: 9 });
            assert_eq!(d_connect_ack.called_addr, TetraAddress::issi(202));
            assert_eq!(
                calling_bearer,
                BearerOpen {
                    ts,
                    usage,
                    peer_ts: None,
                    primary: TetraAddress::issi(202),
                    secondary: Some(TetraAddress::issi(201)),
                }
            );
            assert_eq!(called_bearer, None);
        },
        other => panic!("unexpected outcome {other:?}"),
    }
    assert_eq!(cc.individual_calls[&call_id].state, IndividualCallState::CalledConnectAckPending);
    assert_eq!(cc.individual_calls[&call_id].called_handle, Some(7));
    assert!(cc.individual_calls[&call_id].is_connect_ack_pending());
    assert!(cc.individual_calls[&call_id].has_assigned_circuit());

    // A repeated U-CONNECT is ignored while the acknowledgement is awaited.
    let r = cc.fsm_on_u_connect(TetraAddress::issi(202), 7, 8, 9, connect(call_id, false), cached(true), &HashSet::new(), CallTimeout::T5m, &mut alloc);
    assert!(matches!(r, UConnectOutcome::ConnectAckPending));

    let r = cc.complete_private_connect_after_called_delivery(call_id, cached(true), CallTimeout::T3m);
    match r {
        CalledDeliveryOutcome::CallerConnect { d_connect } => {
            assert_eq!(d_connect.transmission_grant, TransmissionGrant::GrantedToOtherUser);
            assert_eq!(d_connect.call_time_out, CallTimeout::T3m);
            assert_eq!(d_connect.calling_addr, TetraAddress::issi(201));
            assert_eq!(d_connect.ts, ts);
        },
        other => panic!("unexpected outcome {other:?}"),
    }
    assert_eq!(cc.individual_calls[&call_id].state, IndividualCallState::CallerConnectAckPending);

    let r = cc.complete_private_connect_after_caller_connect_delivery(call_id, cached(true));
    assert_eq!(
        r,
        CallerDeliveryOutcome::Activated {
            floor: Some(PrivateFloorGrant { source_issi: 202, dest_issi: 201, ts }),
        }
    );
    let c = &cc.individual_calls[&call_id];
    assert_eq!(c.state, IndividualCallState::Active);
    assert_eq!(c.floor_holder, Some(202));
    assert_eq!(c.active_timer_started, Some(cc.dltime));

    // Once active, U-CONNECT is ignored and a second activation refused.
    let r = cc.fsm_on_u_connect(TetraAddress::issi(202), 7, 8, 9, connect(call_id, false), cached(true), &HashSet::new(), CallTimeout::T5m, &mut alloc);
    assert!(matches!(r, UConnectOutcome::AlreadyActive));
    let r = cc.complete_private_connect_after_caller_connect_delivery(call_id, cached(true));
    assert!(matches!(r, CallerDeliveryOutcome::ActivationRefused { .. }));
}

#[test]
fn caller_talks_first_without_hook_signalling() {
    let mut cc = cell();
    let mut alloc = TimeslotAllocator::new();
    let call_id = started(&mut cc, &mut alloc, false);
    let ts = cc.individual_calls[&call_id].calling_ts;
    let r = cc.fsm_on_u_connect(TetraAddress::issi(202), 7, 8, 9, connect(call_id, false), cached(false), &HashSet::new(), CallTimeout::T5m, &mut alloc);
    assert!(matches!(r, UConnectOutcome::ConnectCalled { called_ms_transmits_first: false, .. }));
    match cc.complete_private_connect_after_called_delivery(call_id, cached(false), CallTimeout::T3m) {
        CalledDeliveryOutcome::CallerConnect { d_connect } => {
            assert_eq!(d_connect.transmission_grant, TransmissionGrant::Granted)
        },
        other => panic!("unexpected outcome {other:?}"),
    }
    let r = cc.complete_private_connect_after_caller_connect_delivery(call_id, cached(false));
    assert_eq!(
        r,
        CallerDeliveryOutcome::Activated { floor: Some(PrivateFloorGrant { source_issi: 201, dest_issi: 202, ts }) }
    );
}

#[test]
fn missing_setup_and_unknown_calls() {
    let mut cc = cell();
    let mut alloc = TimeslotAllocator::new();
    let call_id = started(&mut cc, &mut alloc, false);
    let r = cc.fsm_on_u_connect(TetraAddress::issi(202), 7, 8, 9, connect(call_id, false), None, &HashSet::new(), CallTimeout::T5m, &mut alloc);
    assert!(matches!(r, UConnectOutcome::NoCachedSetup));
    let r = cc.fsm_on_u_connect(TetraAddress::issi(202), 7, 8, 9, connect(999, false), None, &HashSet::new(), CallTimeout::T5m, &mut alloc);
    assert!(matches!(r, UConnectOutcome::UnknownCall));
    let mut refused = connect(call_id, false);
    refused.has_facility = true;
    let r = cc.fsm_on_u_connect(TetraAddress::issi(202), 7, 8, 9, refused, cached(true), &HashSet::new(), CallTimeout::T5m, &mut alloc);
    assert!(matches!(r, UConnectOutcome::FunctionNotSupported { pointer: 18 }));
    assert_eq!(cc.complete_private_connect_after_called_delivery(call_id, None, CallTimeout::T5m), CalledDeliveryOutcome::MissingCachedSetup);
    assert_eq!(cc.complete_private_connect_after_called_delivery(999, cached(true), CallTimeout::T5m), CalledDeliveryOutcome::CallGone);
    assert_eq!(cc.complete_private_connect_after_caller_connect_delivery(999, cached(true)), CallerDeliveryOutcome::CallGone);
}

#[test]
fn bridge_originated_connect_is_forwarded_once() {
    let mut cc = cell();
    let mut alloc = TimeslotAllocator::new();
    cc.individual_calls.insert(40, bridged_call(true));
    let r = cc.fsm_on_u_connect(TetraAddress::issi(202), 7, 8, 9, connect(40, true), None, &HashSet::new(), CallTimeout::T5m, &mut alloc);
    match r {
        UConnectOutcome::ForwardToNetwork { brew_uuid, call } => {
            assert_eq!(brew_uuid, 0xabcd);
            assert_eq!(call.number, "202");
            assert_eq!(call.source_issi, 2_345_678);
            assert_eq!(call.destination, 202);
            assert_eq!(call.duplex, 1);
            assert_eq!(call.method, 1);
            assert_eq!(call.timeout, 7);
        },
        other => panic!("unexpected outcome {other:?}"),
    }
    let c = &cc.individual_calls[&40];
    assert_eq!(c.state, IndividualCallState::IncomingSetupWaitNetworkAck);
    assert!(c.connect_request_sent);
    assert_eq!(c.network_call.as_ref().map(|n| n.number.clone()), Some("202".to_string()));

    let r = cc.fsm_on_u_connect(TetraAddress::issi(202), 7, 8, 9, connect(40, true), None, &HashSet::new(), CallTimeout::T5m, &mut alloc);
    assert!(matches!(
        r,
        UConnectOutcome::MarkRefused { error: IndividualTransitionError::ConnectRequestAlreadySent(40) }
    ));

    cc.individual_calls.insert(41, bridged_call(false));
    let r = cc.fsm_on_u_connect(TetraAddress::issi(202), 7, 8, 9, connect(41, true), None, &HashSet::new(), CallTimeout::T5m, &mut alloc);
    assert!(matches!(r, UConnectOutcome::MissingBrewUuid));
}

#[test]
fn bridge_originated_alert_goes_to_network() {
    let mut cc = cell();
    let mut alloc = TimeslotAllocator::new();
    cc.individual_calls.insert(40, bridged_call(true));
    let r = cc.fsm_on_u_alert(TetraAddress::issi(202), 7, 8, 9, alert(40, false), CallTimeout::T5m, &mut alloc);
    assert_eq!(r, UAlertOutcome::Alerted { notice: AlertNotice::NetworkAlert { brew_uuid: 0xabcd } });
    cc.individual_calls.insert(41, bridged_call(false));
    let r = cc.fsm_on_u_alert(TetraAddress::issi(202), 7, 8, 9, alert(41, false), CallTimeout::T5m, &mut alloc);
    assert_eq!(r, UAlertOutcome::Refused { error: IndividualTransitionError::MissingBrewUuid(41) });
    // The called party's link was bound all the same.
    assert_eq!(cc.individual_calls[&41].called_handle, Some(7));
    assert_eq!(cc.individual_calls[&41].state, IndividualCallState::IncomingSetupPending);
}
