use std::collections::HashSet;

use tetra_entities::address::TetraAddress;
use tetra_entities::call::{ActiveCall, CallTimeout, CallTimeoutSetupPhase, DisconnectCause, IndividualCall, IndividualCallState};
use tetra_entities::cc_bs::CcBsSubentity;
use tetra_entities::circuit_mgr::CommunicationType;
use tetra_entities::tdma::TdmaTime;
use tetra_entities::timers::{CircuitTickAction, IndividualTimer};
use tetra_entities::timeslots::{Direction, TimeslotAllocator, TimeslotOwner};

fn individual(state: IndividualCallState, started: TdmaTime) -> IndividualCall {
    IndividualCall {
        calling_addr: TetraAddress::issi(201),
        called_addr: TetraAddress::issi(202),
        calling_handle: 0,
        calling_link_id: 0,
        calling_endpoint_id: 0,
        called_handle: None,
        called_link_id: None,
        called_endpoint_id: None,
        calling_ts: 2,
        called_ts: 2,
        calling_usage: 4,
        called_usage: 4,
        simplex_duplex: true,
        request_to_transmit_send_data: false,
        state,
        setup_timer_started: Some(started),
        setup_timeout: Some(CallTimeoutSetupPhase::T10s),
        active_timer_started: Some(started),
        call_timeout: CallTimeout::T30s,
        called_over_brew: false,
        calling_over_brew: false,
        brew_uuid: None,
        network_call: None,
        connect_request_sent: false,
        floor_holder: None,
        last_floor_holder: None,
        queued_tx_demand: None,
    }
}

#[test]
fn hangtime_expiry_spares_calls_being_released() {
    let mut cc = CcBsSubentity::new();
    let mut call = ActiveCall::new_local(TetraAddress::issi(1), 9, 1, 2, 4, TdmaTime::default(), CallTimeout::Infinite, 0);
    call.enter_hangtime(TdmaTime::default());
    cc.active_calls.insert(5, call);
    cc.dltime = TdmaTime::default().add_timeslots(5 * 72);
    assert!(cc.expired_hangtime_calls(&HashSet::new(), 5).is_empty());
    cc.dltime = TdmaTime::default().add_timeslots(5 * 72 + 1);
    assert_eq!(cc.expired_hangtime_calls(&HashSet::new(), 5), vec![5]);
    assert!(cc.expired_hangtime_calls(&HashSet::from([5]), 5).is_empty());
}

#[test]
fn call_timeout_of_group_and_simplex_individual_calls() {
    let mut cc = CcBsSubentity::new();
    cc.active_calls.insert(
        5,
        ActiveCall::new_local(TetraAddress::issi(1), 9, 1, 2, 4, TdmaTime::default(), CallTimeout::T30s, 0),
    );
    let mut simplex = individual(IndividualCallState::Active, TdmaTime::default());
    simplex.simplex_duplex = false;
    cc.individual_calls.insert(6, simplex);
    // A full-duplex call has no call timeout.
    cc.individual_calls.insert(7, individual(IndividualCallState::Active, TdmaTime::default()));
    // Thirty seconds are 2117 timeslots.
    cc.dltime = TdmaTime::default().add_timeslots(2117);
    assert!(cc.expired_group_calls(&HashSet::new()).is_empty());
    assert!(cc.individual_calls_due(IndividualTimer::CallTimeout).is_empty());
    cc.dltime = TdmaTime::default().add_timeslots(2118);
    assert_eq!(cc.expired_group_calls(&HashSet::new()), vec![5]);
    assert_eq!(cc.individual_calls_due(IndividualTimer::CallTimeout), vec![6]);
}

#[test]
fn setup_retry_and_setup_timeout() {
    let mut cc = CcBsSubentity::new();
    cc.individual_calls.insert(6, individual(IndividualCallState::CallSetupPending, TdmaTime::default()));
    cc.dltime = TdmaTime::default().add_timeslots(72);
    assert_eq!(cc.individual_calls_due(IndividualTimer::SetupRetry), vec![6]);
    cc.dltime = TdmaTime::default().add_timeslots(73);
    assert!(cc.individual_calls_due(IndividualTimer::SetupRetry).is_empty());
    cc.dltime = TdmaTime::default().add_timeslots(72 + 720);
    assert_eq!(cc.individual_calls_due(IndividualTimer::SetupRetry), vec![6]);
    // Ten seconds are 705 timeslots.
    cc.dltime = TdmaTime::default().add_timeslots(705);
    assert!(cc.individual_calls_due(IndividualTimer::SetupTimeout).is_empty());
    cc.dltime = TdmaTime::default().add_timeslots(706);
    assert_eq!(cc.individual_calls_due(IndividualTimer::SetupTimeout), vec![6]);
}

#[test]
fn pending_disconnect_guard_reports_its_cause() {
    let mut cc = CcBsSubentity::new();
    let state = IndividualCallState::DisconnectPending {
        awaiting_release_from: 202,
        release_to_issi: 201,
        started_at: TdmaTime::default(),
        cause: DisconnectCause::CalledPartyBusy,
    };
    cc.individual_calls.insert(8, individual(state, TdmaTime::default()));
    cc.dltime = TdmaTime::default().add_timeslots(16);
    assert!(cc.expired_disconnect_pending_calls().is_empty());
    cc.dltime = TdmaTime::default().add_timeslots(17);
    assert_eq!(cc.expired_disconnect_pending_calls(), vec![(8, DisconnectCause::CalledPartyBusy)]);
}

#[test]
fn circuit_tick_resends_setup_and_classifies_expired_circuits() {
    let mut cc = CcBsSubentity::new();
    let mut alloc = TimeslotAllocator::new();
    cc.circuits.dltime = TdmaTime::default();
    let circuit = cc
        .circuits
        .allocate_circuit_with_allocator(Direction::Dl, CommunicationType::P2Mp, &mut alloc, TimeslotOwner::Cmce)
        .unwrap();
    cc.dltime = TdmaTime::default().add_timeslots(4);
    let actions = cc.tick_circuits(&HashSet::new(), &HashSet::new());
    assert_eq!(
        actions,
        vec![CircuitTickAction::ResendDSetup { call_id: circuit.call_id, usage: circuit.usage, ts: circuit.ts }]
    );
    let actions = cc.tick_circuits(&HashSet::from([circuit.call_id]), &HashSet::new());
    assert_eq!(actions, vec![CircuitTickAction::SuppressDSetup { call_id: circuit.call_id }]);
    cc.dltime = TdmaTime::default().add_timeslots(25920 + 4);
    let actions = cc.tick_circuits(&HashSet::new(), &HashSet::new());
    assert!(actions.contains(&CircuitTickAction::CloseStale { circuit }));
}
