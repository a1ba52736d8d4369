use std::collections::HashMap;

use tetra_entities::address::TetraAddress;
use tetra_entities::call::{CallTimeout, DisconnectCause, IndividualCall, IndividualCallState};
use tetra_entities::cc_bs::CcBsSubentity;
use tetra_entities::circuit_mgr::CommunicationType;
use tetra_entities::disconnect_flow::{
    DisconnectDeliveryStep, DisconnectTailDrainStep, PendingIndividualDisconnectDelivery,
    PendingIndividualDisconnectReleaseAck, PendingIndividualDisconnectTailDrain,
};
use tetra_entities::fsm::{PendingNetworkIndividualConnectKind, TransmissionGrant};
use tetra_entities::network_individual::{NetworkConnectStep, PendingNetworkIndividualConnect};
use tetra_entities::parrot::FloorGranted;
use tetra_entities::tdma::TdmaTime;
use tetra_entities::timeslots::{Direction, TimeslotAllocator, TimeslotOwner};

fn call(state: IndividualCallState) -> IndividualCall {
    IndividualCall {
        calling_addr: TetraAddress::issi(201),
        called_addr: TetraAddress::issi(202),
        calling_handle: 0,
        calling_link_id: 0,
        calling_endpoint_id: 0,
        called_handle: Some(1),
        called_link_id: Some(1),
        called_endpoint_id: Some(1),
        calling_ts: 2,
        called_ts: 3,
        calling_usage: 4,
        called_usage: 5,
        simplex_duplex: false,
        request_to_transmit_send_data: false,
        state,
        setup_timer_started: None,
        setup_timeout: None,
        active_timer_started: Some(TdmaTime::default()),
        call_timeout: CallTimeout::T5m,
        called_over_brew: false,
        calling_over_brew: false,
        brew_uuid: None,
        network_call: None,
        connect_request_sent: false,
        floor_holder: Some(201),
        last_floor_holder: Some(201),
        queued_tx_demand: None,
    }
}

#[test]
fn peer_is_released_once_the_speech_tail_drained() {
    let mut cc = CcBsSubentity::new();
    cc.individual_calls.insert(7, call(IndividualCallState::Active));
    let mut drains: HashMap<u16, PendingIndividualDisconnectTailDrain> = HashMap::new();
    assert!(cc.begin_individual_disconnect_tail_drain(
        &mut drains,
        None,
        7,
        TetraAddress::issi(201),
        202,
        DisconnectCause::UserRequestedDisconnection
    ));
    assert!(!cc.begin_individual_disconnect_tail_drain(
        &mut drains,
        None,
        7,
        TetraAddress::issi(202),
        201,
        DisconnectCause::ExpiryOfTimer
    ));
    assert_eq!(cc.drain_pending_individual_disconnect_tail_drains(&mut drains, 7), DisconnectTailDrainStep::Waiting);
    cc.dltime = TdmaTime::default().add_timeslots(12);
    assert_eq!(
        cc.drain_pending_individual_disconnect_tail_drains(&mut drains, 7),
        DisconnectTailDrainStep::PeerRelease { peer_issi: 202, cause: DisconnectCause::UserRequestedDisconnection }
    );
    assert!(drains.is_empty());

    // A drain that started with an earlier TX-CEASED tail counts from it.
    let earlier = TdmaTime::default();
    cc.dltime = earlier.add_timeslots(20);
    cc.begin_individual_disconnect_tail_drain(
        &mut drains,
        Some(earlier),
        7,
        TetraAddress::issi(203),
        202,
        DisconnectCause::UserRequestedDisconnection,
    );
    assert_eq!(drains.get(&7).unwrap().started_at, earlier);
    // The sender is no party of the call any more: dropped.
    assert_eq!(cc.drain_pending_individual_disconnect_tail_drains(&mut drains, 7), DisconnectTailDrainStep::Skipped);
}

#[test]
fn delivered_d_disconnect_waits_for_the_peer_release() {
    let mut cc = CcBsSubentity::new();
    cc.individual_calls.insert(7, call(IndividualCallState::Active));
    let mut deliveries: HashMap<u16, PendingIndividualDisconnectDelivery<u8>> = HashMap::new();
    cc.begin_individual_disconnect_delivery(&mut deliveries, 7, 202, 201, 1, DisconnectCause::UserRequestedDisconnection);
    assert_eq!(
        cc.drain_pending_individual_disconnect_deliveries(&mut deliveries, 7, false, false),
        DisconnectDeliveryStep::Waiting
    );
    assert_eq!(
        cc.drain_pending_individual_disconnect_deliveries(&mut deliveries, 7, true, false),
        DisconnectDeliveryStep::Delivered { entered: true }
    );
    let c = cc.individual_calls.get(&7).unwrap();
    assert!(matches!(c.state, IndividualCallState::DisconnectPending { awaiting_release_from: 202, release_to_issi: 201, .. }));
    assert_eq!(c.floor_holder, None);
    assert_eq!(c.last_floor_holder, Some(201));

    // A discarded D-DISCONNECT falls back to D-RELEASE.
    cc.begin_individual_disconnect_delivery(&mut deliveries, 7, 202, 201, 2, DisconnectCause::ExpiryOfTimer);
    assert_eq!(
        cc.drain_pending_individual_disconnect_deliveries(&mut deliveries, 7, false, true),
        DisconnectDeliveryStep::Fallback { cause: DisconnectCause::ExpiryOfTimer, awaiting_release_from: 202 }
    );

    // The peer's U-RELEASE takes the awaited delivery; another station's does not.
    cc.begin_individual_disconnect_delivery(&mut deliveries, 7, 202, 201, 3, DisconnectCause::UserRequestedDisconnection);
    assert_eq!(cc.take_individual_disconnect_delivery_release_if_awaited_by(&mut deliveries, 7, 201), None);
    assert_eq!(
        cc.take_individual_disconnect_delivery_release_if_awaited_by(&mut deliveries, 7, 202),
        Some((DisconnectCause::UserRequestedDisconnection, 201))
    );
    assert!(deliveries.is_empty());
}

#[test]
fn disconnect_completes_when_acknowledgement_and_peer_clear_are_done() {
    let mut cc = CcBsSubentity::new();
    let mut alloc = TimeslotAllocator::new();
    for _ in 0..2 {
        cc.circuits
            .allocate_circuit_with_allocator(Direction::Both, CommunicationType::P2p, &mut alloc, TimeslotOwner::Cmce)
            .expect("circuit");
    }
    cc.individual_calls.insert(7, call(IndividualCallState::Active));
    let mut acks: HashMap<u16, PendingIndividualDisconnectReleaseAck<u8>> = HashMap::new();
    assert!(cc.begin_individual_disconnect_release_ack(&mut acks, 7, 201, DisconnectCause::UserRequestedDisconnection, vec![1]));
    assert!(!cc.begin_individual_disconnect_release_ack(&mut acks, 7, 201, DisconnectCause::UserRequestedDisconnection, vec![9]));

    // The sender's copy went out, but the peer is not cleared yet.
    assert!(cc.complete_individual_disconnect_if_ready(&mut alloc, &mut acks, 7, true, true).is_none());
    assert_eq!(cc.individual_calls.len(), 1);

    // Falling back releases towards the peer of the acknowledged sender.
    assert_eq!(cc.release_individual_disconnect_fallback(&acks, 7, None), Some(202));
    assert_eq!(cc.release_individual_disconnect_fallback(&acks, 7, Some(205)), Some(205));
    assert_eq!(cc.release_individual_disconnect_fallback(&acks, 8, None), None);

    assert!(cc.add_individual_disconnect_peer_release(&mut acks, 7, vec![2, 3]));
    assert_eq!(acks.get(&7).unwrap().peer_release_reporters, vec![2, 3]);
    assert!(cc.complete_individual_disconnect_if_ready(&mut alloc, &mut acks, 7, true, false).is_none());

    let cleanup = cc
        .complete_individual_disconnect_if_ready(&mut alloc, &mut acks, 7, true, true)
        .expect("both done");
    assert_eq!(cleanup.ended_ts, vec![2, 3]);
    assert_eq!(cleanup.closed.len(), 2);
    assert!(acks.is_empty());
    assert!(cc.individual_calls.is_empty());
    assert_eq!(alloc.owners[1], None);
    assert_eq!(alloc.owners[2], None);
}

#[test]
fn peer_cleared_otherwise_completes_after_the_guard() {
    let mut cc = CcBsSubentity::new();
    let mut alloc = TimeslotAllocator::new();
    cc.individual_calls.insert(7, call(IndividualCallState::Active));
    let mut acks: HashMap<u16, PendingIndividualDisconnectReleaseAck<u8>> = HashMap::new();
    assert!(!cc.mark_individual_disconnect_peer_cleared(&mut acks, 7));
    cc.begin_individual_disconnect_release_ack(&mut acks, 7, 202, DisconnectCause::UserRequestedDisconnection, vec![1]);
    assert!(cc.mark_individual_disconnect_peer_cleared(&mut acks, 7));
    // The sender's copy is not reported yet; the guard ends the wait.
    assert!(cc.complete_individual_disconnect_if_ready(&mut alloc, &mut acks, 7, false, true).is_none());
    cc.dltime = TdmaTime::default().add_timeslots(144);
    let cleanup = cc.complete_individual_disconnect_if_ready(&mut alloc, &mut acks, 7, false, true);
    assert!(cleanup.is_some());
    assert!(cc.individual_calls.is_empty());
}

fn bridged(kind: PendingNetworkIndividualConnectKind, grant: TransmissionGrant, duplex: bool) -> PendingNetworkIndividualConnect {
    PendingNetworkIndividualConnect {
        brew_uuid: 0x42,
        call_id: 7,
        ts: 2,
        local_addr: TetraAddress::issi(201),
        peer_addr: TetraAddress::issi(9001),
        simplex_duplex: duplex,
        grant,
        permission: 0,
        started_at: TdmaTime::default(),
        kind,
    }
}

#[test]
fn bridged_connect_completes_on_acknowledgement_and_sets_the_floor() {
    let mut cc = CcBsSubentity::new();
    let mut c = call(IndividualCallState::CallerConnectAckPending);
    c.simplex_duplex = false;
    c.floor_holder = None;
    c.last_floor_holder = None;
    cc.individual_calls.insert(7, c);
    let p = bridged(PendingNetworkIndividualConnectKind::LocalCallerDConnect, TransmissionGrant::Granted, false);
    match cc.drain_pending_network_individual_connects(p, true, false, false) {
        NetworkConnectStep::Completed { completion: Some(done) } => {
            assert_eq!(done.activation, Ok(()));
            assert_eq!(done.floor_granted, Some(FloorGranted { call_id: 7, source_issi: 201, dest_gssi: 9001, ts: 2 }));
            assert_eq!(done.connect_confirm, Some((0x42, 0, 0)));
            assert_eq!(done.media_ready, (0x42, 7, 2));
        }
        _ => panic!("an acknowledged connect completes"),
    }
    let c = cc.individual_calls.get(&7).unwrap();
    assert_eq!(c.state, IndividualCallState::Active);
    assert_eq!(c.floor_holder, Some(201));
}

#[test]
fn bridged_connect_fails_on_final_report_and_waits_otherwise() {
    let mut cc = CcBsSubentity::new();
    cc.individual_calls.insert(7, call(IndividualCallState::CalledConnectAckPending));
    let p = bridged(PendingNetworkIndividualConnectKind::LocalCalledDConnectAck, TransmissionGrant::NotGranted, false);
    assert!(matches!(cc.drain_pending_network_individual_connects(p, false, true, false), NetworkConnectStep::Waiting));
    assert!(matches!(
        cc.drain_pending_network_individual_connects(p, false, false, true),
        NetworkConnectStep::ReleaseCall { cause: DisconnectCause::AcknowledgedServiceNotComplete }
    ));
    // Duplex connects complete on transmission of a granted leg.
    let d = bridged(PendingNetworkIndividualConnectKind::LocalCalledDConnectAck, TransmissionGrant::Granted, true);
    match cc.drain_pending_network_individual_connects(d, false, true, false) {
        NetworkConnectStep::Completed { completion: Some(done) } => {
            assert_eq!(done.floor_granted, None);
            assert_eq!(done.connect_confirm, None);
        }
        _ => panic!("duplex completes on transmission"),
    }
    // A call that is gone completes with nothing to announce.
    cc.individual_calls.clear();
    assert!(matches!(
        cc.drain_pending_network_individual_connects(d, true, false, false),
        NetworkConnectStep::Completed { completion: None }
    ));
}
