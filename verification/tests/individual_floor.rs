use tetra_entities::address::TetraAddress;
use tetra_entities::call::{CallTimeout, IndividualCall, IndividualCallState};
use tetra_entities::cc_bs::CcBsSubentity;
use std::collections::HashSet;

use tetra_entities::floor::{
    GroupFloorContext, IndividualTxCeasedOutcome, IndividualTxDemandOutcome, UTxCeasedOutcome, UTxDemandOutcome,
    UlInactivityOutcome,
};
use tetra_entities::fsm::TransmissionGrant;
use tetra_entities::subscribers::{BrewSubscriberAction, MmSubscriberUpdate, TetraEntity};
use tetra_entities::tdma::TdmaTime;

const CALL: u16 = 12;

fn simplex_call(holder: Option<u32>) -> IndividualCall {
    IndividualCall {
        calling_addr: TetraAddress::issi(201),
        called_addr: TetraAddress::issi(202),
        calling_handle: 0,
        calling_link_id: 0,
        calling_endpoint_id: 0,
        called_handle: None,
        called_link_id: None,
        called_endpoint_id: None,
        calling_ts: 2,
        called_ts: 3,
        calling_usage: 4,
        called_usage: 5,
        simplex_duplex: false,
        request_to_transmit_send_data: true,
        state: IndividualCallState::Active,
        setup_timer_started: None,
        setup_timeout: None,
        active_timer_started: Some(TdmaTime::default()),
        call_timeout: CallTimeout::T5m,
        called_over_brew: false,
        calling_over_brew: false,
        brew_uuid: None,
        network_call: None,
        connect_request_sent: false,
        floor_holder: holder,
        last_floor_holder: holder,
        queued_tx_demand: None,
    }
}

fn cell(holder: Option<u32>) -> CcBsSubentity {
    let mut cc = CcBsSubentity::new();
    cc.individual_calls.insert(CALL, simplex_call(holder));
    cc
}

#[test]
fn demand_on_idle_floor_is_granted() {
    let mut cc = cell(None);
    let r = cc.fsm_individual_on_tx_demand(CALL, TetraAddress::issi(202), false);
    assert_eq!(r, IndividualTxDemandOutcome::Granted { peer: TetraAddress::issi(201) });
    assert_eq!(cc.individual_calls[&CALL].floor_holder, Some(202));
}

#[test]
fn demand_while_peer_holds_floor_waits_once() {
    let mut cc = cell(Some(201));
    let r = cc.fsm_individual_on_tx_demand(CALL, TetraAddress::issi(202), false);
    assert_eq!(r, IndividualTxDemandOutcome::Answered { grant: TransmissionGrant::RequestQueued, holder: 201 });
    assert_eq!(cc.individual_calls[&CALL].queued_tx_demand, Some(TetraAddress::issi(202)));
    let r = cc.fsm_individual_on_tx_demand(CALL, TetraAddress::issi(202), false);
    assert_eq!(r, IndividualTxDemandOutcome::Answered { grant: TransmissionGrant::RequestQueued, holder: 201 });
}

#[test]
fn demand_from_stranger_or_while_clearing_is_not_served() {
    let mut cc = cell(None);
    assert_eq!(
        cc.fsm_individual_on_tx_demand(CALL, TetraAddress::issi(999), false),
        IndividualTxDemandOutcome::RejectedNonParticipant
    );
    assert_eq!(cc.fsm_individual_on_tx_demand(CALL, TetraAddress::issi(201), true), IndividualTxDemandOutcome::Ignored);
    assert_eq!(cc.individual_calls[&CALL].floor_holder, None);
}

#[test]
fn ceased_hands_floor_to_waiting_peer_or_drains() {
    let mut cc = cell(Some(201));
    cc.fsm_individual_on_tx_demand(CALL, TetraAddress::issi(202), false);
    let r = cc.fsm_individual_on_tx_ceased(CALL, TetraAddress::issi(201), false);
    assert_eq!(
        r,
        IndividualTxCeasedOutcome::HandedOver { to: TetraAddress::issi(202), listener: TetraAddress::issi(201) }
    );
    assert_eq!(cc.individual_calls[&CALL].floor_holder, Some(202));
    assert_eq!(cc.individual_calls[&CALL].queued_tx_demand, None);

    let r = cc.fsm_individual_on_tx_ceased(CALL, TetraAddress::issi(202), false);
    assert_eq!(r, IndividualTxCeasedOutcome::TailDrainStarted { peer: TetraAddress::issi(201) });
}

#[test]
fn ceased_from_waiting_party_withdraws_request() {
    let mut cc = cell(Some(201));
    cc.fsm_individual_on_tx_demand(CALL, TetraAddress::issi(202), false);
    assert_eq!(cc.fsm_individual_on_tx_ceased(CALL, TetraAddress::issi(202), false), IndividualTxCeasedOutcome::Withdrawn);
    assert_eq!(cc.individual_calls[&CALL].queued_tx_demand, None);
    assert_eq!(cc.fsm_individual_on_tx_ceased(CALL, TetraAddress::issi(202), false), IndividualTxCeasedOutcome::Ignored);
}

#[test]
fn ul_inactivity_releases_silent_individual_holder() {
    let mut cc = cell(Some(201));
    let r = cc.handle_ul_inactivity_timeout(3, &Default::default(), None);
    assert!(matches!(r, UlInactivityOutcome::Nothing));
    let r = cc.handle_ul_inactivity_timeout(2, &Default::default(), None);
    assert!(matches!(
        r,
        UlInactivityOutcome::IndividualFloorReleased { call_id: CALL, holder, peer }
            if holder == TetraAddress::issi(201) && peer == TetraAddress::issi(202)
    ));
    assert_eq!(cc.individual_calls[&CALL].floor_holder, None);
}

#[test]
fn ul_inactivity_hands_floor_to_waiting_party_and_keeps_echo_alive() {
    let mut cc = cell(Some(201));
    cc.fsm_individual_on_tx_demand(CALL, TetraAddress::issi(202), false);
    let r = cc.handle_ul_inactivity_timeout(2, &Default::default(), None);
    assert!(matches!(
        r,
        UlInactivityOutcome::IndividualHandedOver { call_id: CALL, to, listener }
            if to == TetraAddress::issi(202) && listener == TetraAddress::issi(201)
    ));
    assert_eq!(cc.individual_calls[&CALL].floor_holder, Some(202));
    let r = cc.handle_ul_inactivity_timeout(4, &Default::default(), Some((40, 4)));
    assert!(matches!(r, UlInactivityOutcome::EchoRefresh { call_id: 40 }));
}

#[test]
fn ul_inactivity_puts_silent_group_call_into_hangtime() {
    let mut cc = CcBsSubentity::new();
    cc.handle_subscriber_update(
        MmSubscriberUpdate { issi: 100, groups: vec![91], action: BrewSubscriberAction::Affiliate },
        TetraEntity::Mm,
    );
    let call = tetra_entities::call::ActiveCall::new_local(
        TetraAddress::issi(100),
        91,
        100,
        2,
        4,
        TdmaTime::default(),
        CallTimeout::T30s,
        0,
    );
    cc.active_calls.insert(3, call);
    cc.dltime = TdmaTime { h: 0, m: 9, f: 1, t: 1 };
    let r = cc.handle_ul_inactivity_timeout(2, &Default::default(), None);
    assert!(matches!(r, UlInactivityOutcome::GroupFloorReleased { call_id: 3 }));
    assert!(!cc.active_calls[&3].tx_active);
    assert_eq!(cc.active_calls[&3].hangtime_start, Some(TdmaTime { h: 0, m: 9, f: 1, t: 1 }));
}

fn floor_ctx() -> GroupFloorContext {
    GroupFloorContext {
        release_pending: false,
        setup_cached: true,
        requester_tail_draining: false,
        legacy_gssi_group_call: false,
        transmission_interruption_enabled: false,
    }
}

#[test]
fn dispatcher_leaves_full_duplex_call_alone_on_tx_ceased() {
    let mut cc = cell(Some(201));
    cc.individual_calls.get_mut(&CALL).unwrap().simplex_duplex = true;
    let r = cc.fsm_on_u_tx_ceased(CALL, TetraAddress::issi(201), false, floor_ctx(), &HashSet::new());
    assert!(matches!(r, UTxCeasedOutcome::Individual(IndividualTxCeasedOutcome::Ignored)));
    assert_eq!(cc.individual_calls[&CALL].floor_holder, Some(201));
    assert_eq!(cc.individual_calls[&CALL].last_floor_holder, Some(201));
    assert_eq!(cc.individual_calls[&CALL].queued_tx_demand, None);
}

#[test]
fn dispatcher_routes_individual_floor_requests_to_the_call() {
    let mut cc = cell(None);
    let r = cc.fsm_on_u_tx_demand(CALL, TetraAddress::issi(202), 0, false, false, floor_ctx(), &HashSet::new());
    assert!(matches!(
        r,
        UTxDemandOutcome::Individual(IndividualTxDemandOutcome::Granted { peer }) if peer == TetraAddress::issi(201)
    ));
    assert_eq!(cc.individual_calls[&CALL].floor_holder, Some(202));

    let r = cc.fsm_on_u_tx_ceased(CALL, TetraAddress::issi(202), false, floor_ctx(), &HashSet::new());
    assert!(matches!(
        r,
        UTxCeasedOutcome::Individual(IndividualTxCeasedOutcome::TailDrainStarted { peer }) if peer == TetraAddress::issi(201)
    ));
}

#[test]
fn dispatcher_ignores_demand_while_individual_release_is_pending() {
    let mut cc = CcBsSubentity::new();
    let r = cc.fsm_on_u_tx_demand(CALL, TetraAddress::issi(202), 0, false, true, floor_ctx(), &HashSet::new());
    assert!(matches!(r, UTxDemandOutcome::IndividualReleasePending));
    assert!(cc.active_calls.is_empty());
}
