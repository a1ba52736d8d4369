use tetra_entities::address::TetraAddress;
use tetra_entities::call::{ActiveCall, CallTimeout, DisconnectCause, IndividualCall, IndividualCallState};
use tetra_entities::cc_bs::CcBsSubentity;
use tetra_entities::circuit_mgr::{CmceCircuit, CommunicationType};
use tetra_entities::parrot::ParrotSession;
use tetra_entities::tdma::TdmaTime;
use tetra_entities::teardown::{
    GroupBrewNotice, GroupReleaseStart, IndividualReleaseStart, PendingIndividualRelease, ReleaseLegs,
};
use tetra_entities::timeslots::{Direction, TimeslotAllocator, TimeslotOwner};

fn call(state: IndividualCallState) -> IndividualCall {
    IndividualCall {
        calling_addr: TetraAddress::issi(201),
        called_addr: TetraAddress::issi(202),
        calling_handle: 0,
        calling_link_id: 0,
        calling_endpoint_id: 0,
        called_handle: Some(1),
        called_link_id: Some(1),
        called_endpoint_id: Some(1),
        calling_ts: 2,
        called_ts: 3,
        calling_usage: 4,
        called_usage: 5,
        simplex_duplex: true,
        request_to_transmit_send_data: false,
        state,
        setup_timer_started: None,
        setup_timeout: None,
        active_timer_started: None,
        call_timeout: CallTimeout::T5m,
        called_over_brew: false,
        calling_over_brew: false,
        brew_uuid: None,
        network_call: None,
        connect_request_sent: false,
        floor_holder: None,
        last_floor_holder: None,
        queued_tx_demand: None,
    }
}

/// A cell with circuits open on timeslots 2 and 3, held by call control,
/// and call 7 on them.
fn cell(c: IndividualCall) -> (CcBsSubentity, TimeslotAllocator, CmceCircuit, CmceCircuit) {
    let mut cc = CcBsSubentity::new();
    let mut alloc = TimeslotAllocator::new();
    let a = cc
        .circuits
        .allocate_circuit_with_allocator(Direction::Both, CommunicationType::P2p, &mut alloc, TimeslotOwner::Cmce)
        .expect("first circuit");
    let b = cc
        .circuits
        .allocate_circuit_with_allocator(Direction::Both, CommunicationType::P2p, &mut alloc, TimeslotOwner::Cmce)
        .expect("second circuit");
    assert_eq!((a.ts, b.ts), (2, 3));
    cc.individual_calls.insert(7, c);
    (cc, alloc, a, b)
}

#[test]
fn setup_phase_release_clears_on_mcch_and_frees_everything() {
    let (mut cc, mut alloc, a, b) = cell(call(IndividualCallState::CallSetupPending));
    let r = cc.begin_individual_release(&mut alloc, 7, DisconnectCause::ExpiryOfTimer, Vec::new(), true, None, false);
    match r {
        IndividualReleaseStart::Released { legs, on_mcch, call, cleanup } => {
            assert!(on_mcch);
            assert_eq!(
                legs,
                ReleaseLegs { connecting: false, send_calling_leg: true, send_called_leg: true, reported_legs: 0 }
            );
            assert_eq!(call.calling_addr.ssi, 201);
            assert_eq!(cleanup.closed, vec![a, b]);
            assert_eq!(cleanup.ended_ts, vec![2, 3]);
            assert_eq!(cleanup.brew_release, None);
        }
        _ => panic!("a call in setup is released at once"),
    }
    assert!(cc.individual_calls.is_empty());
    assert_eq!(alloc.owners[1], None);
    assert_eq!(alloc.owners[2], None);
    assert!(!cc.circuits.is_active(2).0);
    assert!(!cc.circuits.is_active(3).0);
}

#[test]
fn established_release_waits_for_both_reported_copies() {
    let (mut cc, mut alloc, a, b) = cell(call(IndividualCallState::Active));
    let r = cc.begin_individual_release(
        &mut alloc,
        7,
        DisconnectCause::UserRequestedDisconnection,
        Vec::new(),
        true,
        None,
        false,
    );
    let pending = match r {
        IndividualReleaseStart::AwaitingDelivery { legs, pending } => {
            assert_eq!(legs.reported_legs, 2);
            assert!(!legs.connecting);
            pending
        }
        _ => panic!("an established call waits for its D-RELEASE copies"),
    };
    // The call left the table, but its circuits stay open for the D-RELEASE.
    assert!(cc.individual_calls.is_empty());
    assert!(cc.circuits.is_active(2).0);
    assert!(!cc.individual_release_due(&pending, false));
    assert!(cc.individual_release_due(&pending, true));
    cc.dltime = pending.started_at.add_timeslots(144);
    assert!(cc.individual_release_due(&pending, false));

    let cleanup = cc.complete_pending_individual_release(&mut alloc, pending);
    assert_eq!(cleanup.closed, vec![a, b]);
    assert_eq!(alloc.owners[1], None);
    assert!(!cc.circuits.is_active(3).0);
}

#[test]
fn addressed_release_of_connecting_call_reaches_only_one_leg() {
    let (mut cc, mut alloc, _, _) = cell(call(IndividualCallState::CalledConnectAckPending));
    let r = cc.begin_individual_release(
        &mut alloc,
        7,
        DisconnectCause::CallRejectedByTheCalledParty,
        Vec::new(),
        true,
        Some(201),
        false,
    );
    match r {
        IndividualReleaseStart::Released { legs, on_mcch, .. } => {
            // While the called party's connect is still unacknowledged, no
            // copy is reported, so the release completes at once.
            assert!(!on_mcch);
            assert_eq!(
                legs,
                ReleaseLegs { connecting: true, send_calling_leg: true, send_called_leg: false, reported_legs: 0 }
            );
        }
        _ => panic!("nothing to wait for"),
    }

    let (mut cc, mut alloc, _, _) = cell(call(IndividualCallState::CallerConnectAckPending));
    match cc.begin_individual_release(&mut alloc, 7, DisconnectCause::ExpiryOfTimer, Vec::new(), true, None, false) {
        IndividualReleaseStart::AwaitingDelivery { legs, .. } => assert_eq!(legs.reported_legs, 1),
        _ => panic!("the called party's copy on its traffic channel is reported"),
    }
}

#[test]
fn release_already_pending_or_unknown_changes_nothing() {
    let (mut cc, mut alloc, _, _) = cell(call(IndividualCallState::Active));
    assert!(matches!(
        cc.begin_individual_release(&mut alloc, 7, DisconnectCause::ExpiryOfTimer, Vec::new(), true, None, true),
        IndividualReleaseStart::AlreadyPending
    ));
    assert!(matches!(
        cc.begin_individual_release(&mut alloc, 9, DisconnectCause::ExpiryOfTimer, Vec::new(), true, None, false),
        IndividualReleaseStart::UnknownCall
    ));
    assert_eq!(cc.individual_calls.len(), 1);
    assert_eq!(alloc.owners[1], Some(TimeslotOwner::Cmce));
}

#[test]
fn cleanup_announces_preclosed_circuit_and_tells_the_bridge() {
    let mut c = call(IndividualCallState::Active);
    c.called_over_brew = true;
    c.brew_uuid = Some(0xABCD);
    let (mut cc, mut alloc, a, _) = cell(c);
    // Timeslot 3 was closed beforehand: it is announced but not closed again.
    let b = cc.circuits.close_circuit(Direction::Both, 3).expect("open");
    cc.parrot_session = Some(ParrotSession::new(2, 7, TetraAddress::issi(201)));
    let snapshot = cc.individual_calls.get(&7).unwrap().duplicate();
    let cleanup = cc.complete_individual_release_cleanup(
        &mut alloc,
        7,
        &snapshot,
        DisconnectCause::UserRequestedDisconnection,
        &vec![b],
        true,
    );
    assert_eq!(cleanup.closed, vec![a, b]);
    assert_eq!(cleanup.brew_release, Some((0xABCD, 1)));
    assert!(cc.parrot_session.is_none());
    assert!(cc.individual_calls.is_empty());

    // The network's own release is not echoed back to it.
    let mut c = call(IndividualCallState::Active);
    c.calling_over_brew = true;
    c.brew_uuid = Some(5);
    let (mut cc, mut alloc, _, _) = cell(c);
    let snapshot = cc.individual_calls.get(&7).unwrap().duplicate();
    let cleanup = cc.complete_individual_release_cleanup(
        &mut alloc,
        7,
        &snapshot,
        DisconnectCause::SwmiRequestedDisconnection,
        &Vec::new(),
        true,
    );
    assert_eq!(cleanup.brew_release, None);
}

#[test]
fn pending_individual_release_record_keeps_what_completion_needs() {
    let (mut cc, mut alloc, _, _) = cell(call(IndividualCallState::Active));
    let pending = PendingIndividualRelease {
        call_id: 7,
        call: call(IndividualCallState::Active),
        cause: DisconnectCause::ExpiryOfTimer,
        started_at: TdmaTime::default(),
        preclosed_circuits: Vec::new(),
        notify_brew: false,
    };
    let cleanup = cc.complete_pending_individual_release(&mut alloc, pending);
    assert_eq!(cleanup.ended_ts, vec![2, 3]);
    assert!(cc.individual_calls.is_empty());
}

fn group_cell(call: ActiveCall) -> (CcBsSubentity, TimeslotAllocator, CmceCircuit) {
    let mut cc = CcBsSubentity::new();
    let mut alloc = TimeslotAllocator::new();
    let a = cc
        .circuits
        .allocate_circuit_with_allocator(Direction::Dl, CommunicationType::P2Mp, &mut alloc, TimeslotOwner::Cmce)
        .expect("circuit");
    cc.active_calls.insert(8, call);
    (cc, alloc, a)
}

#[test]
fn group_release_goes_to_the_group_and_frees_the_circuit() {
    let (mut cc, mut alloc, a) = group_cell(ActiveCall::new_network(
        0x77,
        500,
        300,
        2,
        4,
        TdmaTime::default(),
        CallTimeout::T2m,
        0,
    ));
    let start = cc.begin_group_release(8, DisconnectCause::ExpiryOfTimer, None, false, None);
    let pending = match start {
        GroupReleaseStart::Started { dest_addr, ts, usage, pending } => {
            assert_eq!(dest_addr, TetraAddress::gssi(500));
            assert_eq!((ts, usage), (2, 4));
            assert!(!pending.is_local);
            assert_eq!(pending.network_brew_uuid, Some(0x77));
            pending
        }
        other => panic!("unexpected {:?}", other),
    };
    assert_eq!(cc.begin_group_release(8, DisconnectCause::ExpiryOfTimer, None, true, None), GroupReleaseStart::AlreadyPending);
    assert_eq!(cc.begin_group_release(9, DisconnectCause::ExpiryOfTimer, None, false, None), GroupReleaseStart::UnknownCall);
    assert_eq!(
        cc.begin_group_release(8, DisconnectCause::ExpiryOfTimer, None, false, Some(TetraAddress::gssi(501))),
        GroupReleaseStart::Started { dest_addr: TetraAddress::gssi(501), ts: 2, usage: 4, pending }
    );

    assert!(!cc.group_release_due(&pending, false));
    assert!(cc.group_release_due(&pending, true));
    let cleanup = cc.complete_pending_group_release(&mut alloc, pending, true);
    assert_eq!(cleanup.closed, Some(a));
    assert_eq!(cleanup.brew_notice, Some(GroupBrewNotice::NetworkCallEnd { brew_uuid: 0x77 }));
    assert!(cc.active_calls.is_empty());
    assert_eq!(alloc.owners[1], None);
    assert!(!cc.circuits.is_active(2).0);
}

#[test]
fn local_group_release_tells_a_routing_bridge_of_the_end() {
    let (mut cc, mut alloc, _) = group_cell(ActiveCall::new_local(
        TetraAddress::issi(300),
        500,
        300,
        2,
        4,
        TdmaTime::default(),
        CallTimeout::T2m,
        0,
    ));
    let pending = match cc.begin_group_release(8, DisconnectCause::UserRequestedDisconnection, None, false, None) {
        GroupReleaseStart::Started { pending, .. } => pending,
        other => panic!("unexpected {:?}", other),
    };
    assert!(pending.is_local);
    let mut later = pending;
    later.started_at = TdmaTime::default();
    cc.dltime = later.started_at.add_timeslots(1440);
    assert!(cc.group_release_due(&later, false));
    let cleanup = cc.complete_pending_group_release(&mut alloc, pending, true);
    assert_eq!(cleanup.brew_notice, Some(GroupBrewNotice::CallEnded));

    let (mut cc, mut alloc, _) = group_cell(ActiveCall::new_local(
        TetraAddress::issi(300),
        500,
        300,
        2,
        4,
        TdmaTime::default(),
        CallTimeout::T2m,
        0,
    ));
    let pending = match cc.begin_group_release(8, DisconnectCause::UserRequestedDisconnection, None, false, None) {
        GroupReleaseStart::Started { pending, .. } => pending,
        other => panic!("unexpected {:?}", other),
    };
    let cleanup = cc.complete_pending_group_release(&mut alloc, pending, false);
    assert_eq!(cleanup.brew_notice, None);
}
