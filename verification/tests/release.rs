use tetra_entities::address::TetraAddress;
use tetra_entities::call::{ActiveCall, CallTimeout, DisconnectCause, IndividualCall, IndividualCallState};
use tetra_entities::cc_bs::CcBsSubentity;
use tetra_entities::release::{DisconnectDeliveryWait, UDisconnectOutcome, UReleaseOutcome};
use tetra_entities::tdma::TdmaTime;

fn call(state: IndividualCallState, simplex_holder: Option<u32>) -> IndividualCall {
    IndividualCall {
        calling_addr: TetraAddress::issi(201),
        called_addr: TetraAddress::issi(202),
        calling_handle: 0,
        calling_link_id: 0,
        calling_endpoint_id: 0,
        called_handle: Some(1),
        called_link_id: Some(1),
        called_endpoint_id: Some(1),
        calling_ts: 2,
        called_ts: 3,
        calling_usage: 4,
        called_usage: 5,
        simplex_duplex: simplex_holder.is_none(),
        request_to_transmit_send_data: false,
        state,
        setup_timer_started: None,
        setup_timeout: None,
        active_timer_started: Some(TdmaTime::default()),
        call_timeout: CallTimeout::T5m,
        called_over_brew: false,
        calling_over_brew: false,
        brew_uuid: None,
        network_call: None,
        connect_request_sent: false,
        floor_holder: simplex_holder,
        last_floor_holder: simplex_holder,
        queued_tx_demand: None,
    }
}

fn cell(c: IndividualCall) -> CcBsSubentity {
    let mut cc = CcBsSubentity::new();
    cc.individual_calls.insert(7, c);
    cc.active_calls.insert(
        8,
        ActiveCall::new_local(TetraAddress::issi(300), 500, 300, 2, 4, TdmaTime::default(), CallTimeout::T2m, 0),
    );
    cc
}

#[test]
fn disconnect_of_active_local_call_clears_peer() {
    let cc = cell(call(IndividualCallState::Active, None));
    assert_eq!(
        cc.fsm_on_u_disconnect(TetraAddress::issi(201), 7, false, false),
        UDisconnectOutcome::DisconnectPeer { peer_issi: 202, target: TetraAddress::issi(202), target_ts: 3, target_usage: 5 }
    );
    assert_eq!(
        cc.fsm_on_u_disconnect(TetraAddress::issi(202), 7, false, false),
        UDisconnectOutcome::DisconnectPeer { peer_issi: 201, target: TetraAddress::issi(201), target_ts: 2, target_usage: 4 }
    );
    assert_eq!(cc.fsm_on_u_disconnect(TetraAddress::issi(201), 7, true, false), UDisconnectOutcome::DuplicateWhileClearing);
    assert_eq!(cc.fsm_on_u_disconnect(TetraAddress::issi(203), 7, false, false), UDisconnectOutcome::NotParticipant);

    // The peer's U-RELEASE completes the awaited D-DISCONNECT.
    let wait = DisconnectDeliveryWait { awaiting_release_from: 202, release_to_issi: 201, cause: DisconnectCause::UserRequestedDisconnection };
    assert_eq!(
        cc.fsm_on_u_release(TetraAddress::issi(202), 7, Some(wait)),
        UReleaseOutcome::CompletePeerRelease {
            cause: DisconnectCause::UserRequestedDisconnection,
            release_to_issi: 201,
            from_delivery: true,
        }
    );
    assert_eq!(cc.fsm_on_u_release(TetraAddress::issi(202), 7, None), UReleaseOutcome::IgnoredActive);
    assert_eq!(cc.fsm_on_u_release(TetraAddress::issi(203), 7, None), UReleaseOutcome::NotParticipant);
}

#[test]
fn simplex_disconnect_waits_for_tail_and_setup_calls_are_released() {
    let cc = cell(call(IndividualCallState::Active, Some(201)));
    assert_eq!(cc.fsm_on_u_disconnect(TetraAddress::issi(202), 7, false, false), UDisconnectOutcome::TailDrain { peer_issi: 201 });
    let cc = cell(call(IndividualCallState::IncomingAlerting, None));
    assert_eq!(cc.fsm_on_u_disconnect(TetraAddress::issi(201), 7, false, false), UDisconnectOutcome::ReleaseIndividual);
}

#[test]
fn disconnecting_call_waits_for_the_awaited_station() {
    let state = IndividualCallState::DisconnectPending {
        awaiting_release_from: 202,
        release_to_issi: 201,
        started_at: TdmaTime::default(),
        cause: DisconnectCause::ExpiryOfTimer,
    };
    let cc = cell(call(state, None));
    assert_eq!(cc.fsm_on_u_disconnect(TetraAddress::issi(202), 7, false, false), UDisconnectOutcome::AwaitingRelease);
    assert_eq!(
        cc.fsm_on_u_release(TetraAddress::issi(202), 7, None),
        UReleaseOutcome::CompletePeerRelease { cause: DisconnectCause::ExpiryOfTimer, release_to_issi: 201, from_delivery: false }
    );
    assert_eq!(cc.fsm_on_u_release(TetraAddress::issi(201), 7, None), UReleaseOutcome::IgnoredDisconnecting);
}

#[test]
fn only_the_owner_ends_a_group_call() {
    let cc = cell(call(IndividualCallState::Active, None));
    assert_eq!(cc.fsm_on_u_disconnect(TetraAddress::issi(300), 8, false, false), UDisconnectOutcome::ReleaseGroup);
    assert_eq!(cc.fsm_on_u_disconnect(TetraAddress::issi(301), 8, false, false), UDisconnectOutcome::NotCallOwner);
    assert_eq!(cc.fsm_on_u_release(TetraAddress::issi(300), 8, None), UReleaseOutcome::IgnoredGroupOwner);
    assert_eq!(cc.fsm_on_u_release(TetraAddress::issi(301), 8, None), UReleaseOutcome::NotCallOwner);
    assert_eq!(cc.fsm_on_u_disconnect(TetraAddress::issi(300), 9, false, false), UDisconnectOutcome::UnknownCall);
    assert_eq!(cc.fsm_on_u_release(TetraAddress::issi(300), 9, None), UReleaseOutcome::UnknownCall);
}
