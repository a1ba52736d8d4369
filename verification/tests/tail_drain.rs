use std::collections::HashSet;

use tetra_entities::address::TetraAddress;
use tetra_entities::call::{ActiveCall, CallTimeout, CallTimeoutSetupPhase, IndividualCall, IndividualCallState};
use tetra_entities::cc_bs::CcBsSubentity;
use tetra_entities::floor::{GroupTailDrainOutcome, IndividualTailDrainOutcome};
use tetra_entities::subscribers::{BrewSubscriberAction, MmSubscriberUpdate, TetraEntity};
use tetra_entities::tdma::TdmaTime;

fn cell_with_queue(waiting: &[u32]) -> CcBsSubentity {
    let mut cc = CcBsSubentity::new();
    for issi in [100, 101, 102] {
        cc.handle_subscriber_update(
            MmSubscriberUpdate { issi, groups: vec![91], action: BrewSubscriberAction::Affiliate },
            TetraEntity::Mm,
        );
    }
    let mut call = ActiveCall::new_local(TetraAddress::issi(100), 91, 100, 2, 4, TdmaTime::default(), CallTimeout::T30s, 0);
    for issi in waiting {
        call.queue_tx_demand_after_cease_tail(TetraAddress::issi(*issi));
    }
    cc.active_calls.insert(1, call);
    cc
}

#[test]
fn group_tail_drain_hands_over_or_enters_hangtime() {
    let mut cc = cell_with_queue(&[101]);
    let r = cc.complete_group_tx_ceased_tail_drain(1, 100, 2, false, &HashSet::new());
    assert_eq!(r, GroupTailDrainOutcome::HandedOver { to: TetraAddress::issi(101) });
    assert_eq!(cc.active_calls[&1].source_issi, 101);

    let mut cc = cell_with_queue(&[]);
    let r = cc.complete_group_tx_ceased_tail_drain(1, 100, 2, false, &HashSet::new());
    assert_eq!(r, GroupTailDrainOutcome::FloorReleased { legacy_release: false, same_speaker_retake: false });
    assert!(!cc.active_calls[&1].tx_active);

    let mut cc = cell_with_queue(&[101]);
    assert_eq!(cc.complete_group_tx_ceased_tail_drain(1, 101, 2, false, &HashSet::new()), GroupTailDrainOutcome::Skipped);
    assert_eq!(cc.complete_group_tx_ceased_tail_drain(1, 100, 3, false, &HashSet::new()), GroupTailDrainOutcome::Skipped);
}

#[test]
fn legacy_tail_drain_prefers_other_speaker_and_suppresses_same_speaker_retake() {
    let mut cc = cell_with_queue(&[100, 102]);
    let r = cc.complete_group_tx_ceased_tail_drain(1, 100, 2, true, &HashSet::new());
    assert_eq!(r, GroupTailDrainOutcome::HandedOver { to: TetraAddress::issi(102) });

    let mut cc = cell_with_queue(&[100]);
    let r = cc.complete_group_tx_ceased_tail_drain(1, 100, 2, true, &HashSet::new());
    assert_eq!(r, GroupTailDrainOutcome::FloorReleased { legacy_release: true, same_speaker_retake: true });
    assert!(cc.active_calls[&1].queued_tx_demands().is_empty());
}

fn simplex(holder: u32, waiting: Option<u32>) -> IndividualCall {
    IndividualCall {
        calling_addr: TetraAddress::issi(201),
        called_addr: TetraAddress::issi(202),
        calling_handle: 0,
        calling_link_id: 0,
        calling_endpoint_id: 0,
        called_handle: None,
        called_link_id: None,
        called_endpoint_id: None,
        calling_ts: 2,
        called_ts: 3,
        calling_usage: 4,
        called_usage: 5,
        simplex_duplex: false,
        request_to_transmit_send_data: false,
        state: IndividualCallState::Active,
        setup_timer_started: None,
        setup_timeout: Some(CallTimeoutSetupPhase::T10s),
        active_timer_started: None,
        call_timeout: CallTimeout::T5m,
        called_over_brew: false,
        calling_over_brew: false,
        brew_uuid: None,
        network_call: None,
        connect_request_sent: false,
        floor_holder: Some(holder),
        last_floor_holder: Some(holder),
        queued_tx_demand: waiting.map(TetraAddress::issi),
    }
}

#[test]
fn individual_tail_drain_hands_over_or_releases() {
    let mut cc = CcBsSubentity::new();
    cc.individual_calls.insert(2, simplex(201, Some(202)));
    let r = cc.complete_individual_tx_ceased_tail_drain(2, TetraAddress::issi(201), TetraAddress::issi(202));
    assert_eq!(r, IndividualTailDrainOutcome::HandedOver { to: TetraAddress::issi(202), listener: TetraAddress::issi(201) });
    assert_eq!(cc.individual_calls[&2].floor_holder, Some(202));

    let mut cc = CcBsSubentity::new();
    cc.individual_calls.insert(2, simplex(201, None));
    let r = cc.complete_individual_tx_ceased_tail_drain(2, TetraAddress::issi(201), TetraAddress::issi(202));
    assert_eq!(r, IndividualTailDrainOutcome::FloorReleased);
    assert_eq!(cc.individual_calls[&2].floor_holder, None);
    assert_eq!(cc.individual_calls[&2].last_floor_holder, Some(201));
    let r = cc.complete_individual_tx_ceased_tail_drain(2, TetraAddress::issi(201), TetraAddress::issi(202));
    assert_eq!(r, IndividualTailDrainOutcome::Skipped);
}

#[test]
fn departure_clears_floor_state_and_unlistened_calls_drop() {
    let mut cc = cell_with_queue(&[101]);
    // The waiting station leaves: its request is withdrawn.
    let r = cc.clear_group_floor_state_for_departure(101, 91, false, &HashSet::new(), &HashSet::from([1]));
    assert!(r.is_empty());
    assert!(cc.active_calls[&1].queued_tx_demands().is_empty());
    // The speaker leaves while others listen: hangtime.
    let r = cc.clear_group_floor_state_for_departure(100, 91, false, &HashSet::new(), &HashSet::from([1]));
    assert_eq!(r, vec![(1, Ok(true))]);
    assert!(!cc.active_calls[&1].tx_active);

    assert!(cc.drop_group_calls_if_unlistened(91, false).is_empty());
    for issi in [100, 101, 102] {
        cc.handle_subscriber_update(
            MmSubscriberUpdate { issi, groups: vec![], action: BrewSubscriberAction::Deregister },
            TetraEntity::Mm,
        );
    }
    assert_eq!(cc.drop_group_calls_if_unlistened(91, false), vec![1]);
    assert!(cc.drop_group_calls_if_unlistened(91, true).is_empty());
}
