use std::collections::HashSet;

use tetra_entities::address::TetraAddress;
use tetra_entities::call::{ActiveCall, CallTimeout, MAX_GROUP_FLOOR_WAITERS};
use tetra_entities::cc_bs::CcBsSubentity;
use tetra_entities::floor::{
    GroupFloorContext, GroupTxCeasedOutcome, GroupTxDemandOutcome, NetworkCallEndOutcome, NetworkCallStartOutcome,
};
use tetra_entities::fsm::{GroupTransitionError, TransmissionGrant};
use tetra_entities::subscribers::{BrewSubscriberAction, MmSubscriberUpdate, TetraEntity};
use tetra_entities::tdma::TdmaTime;

const GSSI: u32 = 91;
const CALL: u16 = 7;

fn ctx() -> GroupFloorContext {
    GroupFloorContext {
        release_pending: false,
        setup_cached: true,
        requester_tail_draining: false,
        legacy_gssi_group_call: false,
        transmission_interruption_enabled: false,
    }
}

fn affiliate(cc: &mut CcBsSubentity, issi: u32) {
    cc.handle_subscriber_update(
        MmSubscriberUpdate { issi, groups: vec![GSSI], action: BrewSubscriberAction::Affiliate },
        TetraEntity::Mm,
    );
}

/// A cell with a local group call on `GSSI` held by 100, stations 100..=104 affiliated.
fn cell_with_call() -> CcBsSubentity {
    let mut cc = CcBsSubentity::new();
    for issi in 100..=104 {
        affiliate(&mut cc, issi);
    }
    let call = ActiveCall::new_local(TetraAddress::issi(100), GSSI, 100, 2, 4, TdmaTime::default(), CallTimeout::T30s, 0);
    cc.active_calls.insert(CALL, call);
    cc
}

fn none() -> HashSet<u32> {
    HashSet::new()
}

#[test]
fn tx_demand_during_transmission_is_queued_then_busy_for_others() {
    let mut cc = cell_with_call();
    let r = cc.fsm_group_on_tx_demand(CALL, TetraAddress::issi(101), 0, ctx(), &none());
    assert_eq!(r, Ok(GroupTxDemandOutcome::Answered { grant: TransmissionGrant::RequestQueued }));
    let r = cc.fsm_group_on_tx_demand(CALL, TetraAddress::issi(101), 0, ctx(), &none());
    assert_eq!(r, Ok(GroupTxDemandOutcome::Answered { grant: TransmissionGrant::RequestQueued }));
    let call = &cc.active_calls[&CALL];
    assert_eq!(call.queued_tx_demands(), vec![TetraAddress::issi(101)]);
    assert_eq!(call.source_issi, 100);
}

#[test]
fn tx_demand_from_unaffiliated_station_is_rejected_without_change() {
    let mut cc = cell_with_call();
    let r = cc.fsm_group_on_tx_demand(CALL, TetraAddress::issi(555), 0, ctx(), &none());
    assert_eq!(r, Ok(GroupTxDemandOutcome::RejectedUnaffiliated));
    assert!(cc.active_calls[&CALL].queued_tx_demands().is_empty());
    // A registry member counts as affiliated.
    let registry: HashSet<u32> = HashSet::from([555]);
    let r = cc.fsm_group_on_tx_demand(CALL, TetraAddress::issi(555), 0, ctx(), &registry);
    assert_eq!(r, Ok(GroupTxDemandOutcome::Answered { grant: TransmissionGrant::RequestQueued }));
}

#[test]
fn tx_demand_in_hangtime_grants_and_restarts_timeout() {
    let mut cc = cell_with_call();
    cc.active_calls.get_mut(&CALL).unwrap().enter_hangtime(TdmaTime { h: 0, m: 2, f: 1, t: 1 });
    cc.dltime = TdmaTime { h: 0, m: 3, f: 1, t: 1 };
    let r = cc.fsm_group_on_tx_demand(CALL, TetraAddress::issi(102), 0, ctx(), &none());
    assert_eq!(r, Ok(GroupTxDemandOutcome::Granted));
    let call = &cc.active_calls[&CALL];
    assert!(call.tx_active);
    assert_eq!(call.source_issi, 102);
    assert_eq!(call.hangtime_start, None);
    assert_eq!(call.created_at, TdmaTime { h: 0, m: 3, f: 1, t: 1 });
}

#[test]
fn missing_cached_setup_after_hangtime_grant_keeps_the_grant() {
    let mut cc = cell_with_call();
    cc.active_calls.get_mut(&CALL).unwrap().enter_hangtime(TdmaTime::default());
    let c = GroupFloorContext { setup_cached: false, ..ctx() };
    let r = cc.fsm_group_on_tx_demand(CALL, TetraAddress::issi(102), 0, c, &none());
    assert_eq!(r, Err(GroupTransitionError::MissingCachedSetup(CALL)));
    assert_eq!(cc.active_calls[&CALL].source_issi, 102);
}

#[test]
fn preemptive_priority_interrupts_current_speaker_only_when_enabled() {
    let mut cc = cell_with_call();
    let r = cc.fsm_group_on_tx_demand(CALL, TetraAddress::issi(103), 3, ctx(), &none());
    assert_eq!(r, Ok(GroupTxDemandOutcome::Answered { grant: TransmissionGrant::RequestQueued }));

    let mut cc = cell_with_call();
    let c = GroupFloorContext { transmission_interruption_enabled: true, ..ctx() };
    let r = cc.fsm_group_on_tx_demand(CALL, TetraAddress::issi(103), 2, c, &none());
    assert_eq!(r, Ok(GroupTxDemandOutcome::Preempted { previous_speaker: 100 }));
    assert_eq!(cc.active_calls[&CALL].source_issi, 103);

    let mut cc = cell_with_call();
    let r = cc.fsm_group_on_tx_demand(CALL, TetraAddress::issi(103), 1, c, &none());
    assert_eq!(r, Ok(GroupTxDemandOutcome::Answered { grant: TransmissionGrant::RequestQueued }));
}

#[test]
fn current_speaker_demand_is_reasserted() {
    let mut cc = cell_with_call();
    let r = cc.fsm_group_on_tx_demand(CALL, TetraAddress::issi(100), 0, ctx(), &none());
    assert_eq!(r, Ok(GroupTxDemandOutcome::Reasserted));
    let r = cc.fsm_group_reassert_current_speaker_floor(CALL, TetraAddress::issi(101), ctx(), &none());
    assert_eq!(
        r,
        Err(GroupTransitionError::NotCurrentSpeaker { call_id: CALL, sender_issi: 101, current_speaker_issi: 100 })
    );
}

#[test]
fn retake_during_tail_drain_is_never_granted() {
    let mut cc = cell_with_call();
    let c = GroupFloorContext { requester_tail_draining: true, ..ctx() };
    let r = cc.fsm_group_on_tx_demand(CALL, TetraAddress::issi(100), 0, c, &none());
    assert_eq!(r, Ok(GroupTxDemandOutcome::TailRetakeAnswered { grant: TransmissionGrant::RequestQueued }));
    assert_eq!(cc.active_calls[&CALL].queued_tx_demands(), vec![TetraAddress::issi(100)]);
}

#[test]
fn legacy_profile_releases_hangtime_call_on_same_speaker_retake() {
    let mut cc = cell_with_call();
    cc.active_calls.get_mut(&CALL).unwrap().enter_hangtime(TdmaTime::default());
    let c = GroupFloorContext { legacy_gssi_group_call: true, ..ctx() };
    let r = cc.fsm_group_on_tx_demand(CALL, TetraAddress::issi(100), 0, c, &none());
    assert_eq!(r, Ok(GroupTxDemandOutcome::ReleaseCall));
}

#[test]
fn demands_ignored_during_release_and_unknown_calls_refused() {
    let mut cc = cell_with_call();
    let c = GroupFloorContext { release_pending: true, ..ctx() };
    assert_eq!(cc.fsm_group_on_tx_demand(CALL, TetraAddress::issi(101), 0, c, &none()), Ok(GroupTxDemandOutcome::Ignored));
    assert_eq!(
        cc.fsm_group_on_tx_demand(99, TetraAddress::issi(101), 0, ctx(), &none()),
        Err(GroupTransitionError::UnknownCall(99))
    );
}

#[test]
fn tx_ceased_hands_floor_to_first_affiliated_waiter() {
    let mut cc = cell_with_call();
    for issi in [101, 102, 103] {
        cc.fsm_group_on_tx_demand(CALL, TetraAddress::issi(issi), 0, ctx(), &none()).unwrap();
    }
    // 101 leaves the group: it is skipped and dropped.
    cc.handle_subscriber_update(
        MmSubscriberUpdate { issi: 101, groups: vec![GSSI], action: BrewSubscriberAction::Deaffiliate },
        TetraEntity::Mm,
    );
    let r = cc.fsm_group_on_tx_ceased(CALL, TetraAddress::issi(100), ctx(), &none());
    assert_eq!(r, Ok(GroupTxCeasedOutcome::HandedOver { to: TetraAddress::issi(102) }));
    let call = &cc.active_calls[&CALL];
    assert_eq!(call.source_issi, 102);
    assert_eq!(call.queued_tx_demands(), vec![TetraAddress::issi(103)]);
}

#[test]
fn tx_ceased_with_nobody_waiting_starts_tail_drain() {
    let mut cc = cell_with_call();
    let r = cc.fsm_group_on_tx_ceased(CALL, TetraAddress::issi(100), ctx(), &none());
    assert_eq!(r, Ok(GroupTxCeasedOutcome::TailDrainStarted));
    assert!(cc.active_calls[&CALL].tx_active);
}

#[test]
fn tx_ceased_from_waiter_withdraws_and_from_others_is_refused() {
    let mut cc = cell_with_call();
    cc.fsm_group_on_tx_demand(CALL, TetraAddress::issi(101), 0, ctx(), &none()).unwrap();
    assert_eq!(
        cc.fsm_group_on_tx_ceased(CALL, TetraAddress::issi(101), ctx(), &none()),
        Ok(GroupTxCeasedOutcome::Withdrawn)
    );
    assert!(cc.active_calls[&CALL].queued_tx_demands().is_empty());
    assert_eq!(
        cc.fsm_group_on_tx_ceased(CALL, TetraAddress::issi(101), ctx(), &none()),
        Err(GroupTransitionError::NotCurrentSpeaker { call_id: CALL, sender_issi: 101, current_speaker_issi: 100 })
    );
}

#[test]
fn departed_speaker_puts_call_into_hangtime() {
    let mut cc = cell_with_call();
    cc.fsm_group_on_tx_demand(CALL, TetraAddress::issi(101), 0, ctx(), &none()).unwrap();
    cc.dltime = TdmaTime { h: 0, m: 5, f: 1, t: 1 };
    assert_eq!(cc.fsm_group_on_current_speaker_departed(CALL, 101, ctx()), Ok(false));
    assert_eq!(cc.fsm_group_on_current_speaker_departed(CALL, 100, ctx()), Ok(true));
    let call = &cc.active_calls[&CALL];
    assert!(!call.tx_active);
    assert_eq!(call.hangtime_start, Some(TdmaTime { h: 0, m: 5, f: 1, t: 1 }));
    assert!(call.queued_tx_demands().is_empty());
}

#[test]
fn network_speaker_interrupts_local_speaker_and_end_enters_hangtime() {
    let mut cc = cell_with_call();
    let r = cc.fsm_group_on_network_call_start(CALL, 0xABCD, 7777, 1, false, &none());
    assert_eq!(r, Ok(NetworkCallStartOutcome::Started { preempted_local_speaker: Some(100) }));
    let call = &cc.active_calls[&CALL];
    assert_eq!(call.source_issi, 7777);
    assert_eq!(call.brew_uuid, Some(0xABCD));
    assert_eq!(cc.fsm_group_on_network_call_end(CALL, false), Ok(NetworkCallEndOutcome::FloorReleased));
    assert!(!cc.active_calls[&CALL].tx_active);
    assert_eq!(cc.active_calls[&CALL].brew_uuid, None);
    assert_eq!(cc.fsm_group_on_network_call_end(CALL, false), Ok(NetworkCallEndOutcome::ReleaseCall));
}

#[test]
fn full_waiting_list_answers_not_granted() {
    let mut cc = cell_with_call();
    let registry: HashSet<u32> = (1000..1000 + MAX_GROUP_FLOOR_WAITERS as u32 + 1).collect();
    for k in 0..MAX_GROUP_FLOOR_WAITERS as u32 {
        cc.fsm_group_on_tx_demand(CALL, TetraAddress::issi(1000 + k), 0, ctx(), &registry).unwrap();
    }
    let r = cc.fsm_group_on_tx_demand(CALL, TetraAddress::issi(1000 + MAX_GROUP_FLOOR_WAITERS as u32), 0, ctx(), &registry);
    assert_eq!(r, Ok(GroupTxDemandOutcome::Answered { grant: TransmissionGrant::NotGranted }));
}
