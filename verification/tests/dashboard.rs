use tetra_entities::address::TetraAddress;
use tetra_entities::call::{ActiveCall, CallTimeout, IndividualCall, IndividualCallState};
use tetra_entities::cc_bs::CcBsSubentity;
use tetra_entities::dashboard::PendingTableSizes;
use tetra_entities::parrot::ParrotSession;
use tetra_entities::subscribers::{BrewSubscriberAction, RegistryOp, TetraEntity};
use tetra_entities::tdma::TdmaTime;

fn individual(state: IndividualCallState, calling_ts: u8, called_ts: u8) -> IndividualCall {
    IndividualCall {
        calling_addr: TetraAddress::issi(201),
        called_addr: TetraAddress::issi(202),
        calling_handle: 0,
        calling_link_id: 0,
        calling_endpoint_id: 0,
        called_handle: None,
        called_link_id: None,
        called_endpoint_id: None,
        calling_ts,
        called_ts,
        calling_usage: 4,
        called_usage: 5,
        simplex_duplex: false,
        request_to_transmit_send_data: false,
        state,
        setup_timer_started: None,
        setup_timeout: None,
        active_timer_started: None,
        call_timeout: CallTimeout::T5m,
        called_over_brew: false,
        calling_over_brew: false,
        brew_uuid: None,
        network_call: None,
        connect_request_sent: false,
        floor_holder: None,
        last_floor_holder: None,
        queued_tx_demand: None,
    }
}

fn cell() -> CcBsSubentity {
    let mut cc = CcBsSubentity::new();
    let mut g = ActiveCall::new_local(TetraAddress::issi(300), 500, 300, 2, 4, TdmaTime::default(), CallTimeout::T2m, 0);
    g.tx_active = true;
    cc.active_calls.insert(8, g);
    cc.active_calls.insert(9, ActiveCall::new_network(0x5, 501, 9000, 3, 6, TdmaTime::default(), CallTimeout::T2m, 0));
    cc.individual_calls.insert(7, individual(IndividualCallState::Active, 4, 4));
    cc.individual_calls.insert(6, individual(IndividualCallState::CallSetupPending, 3, 3));
    cc
}

#[test]
fn snapshots_list_every_call_once() {
    let cc = cell();
    let mut groups = cc.active_calls_snapshot();
    groups.sort();
    assert_eq!(groups, vec![(8, 500, 300, true), (9, 501, 0, true)]);
    let mut individuals = cc.individual_calls_snapshot();
    individuals.sort();
    assert_eq!(individuals, vec![(6, 201, 202, true), (7, 201, 202, true)]);
}

#[test]
fn timeslot_lookup_prefers_group_calls_and_skips_setups() {
    let cc = cell();
    assert_eq!(cc.call_id_for_ts(2), Some(8));
    assert_eq!(cc.call_id_for_ts(3), Some(9));
    assert_eq!(cc.call_id_for_ts(4), Some(7));
    assert_eq!(cc.call_id_for_ts(1), None);

    let mut cc = CcBsSubentity::new();
    cc.individual_calls.insert(6, individual(IndividualCallState::CallSetupPending, 3, 3));
    assert_eq!(cc.call_id_for_ts(3), None);
}

#[test]
fn parrot_takes_frames_of_its_timeslot_only() {
    let mut cc = CcBsSubentity::new();
    assert!(!cc.handle_parrot_ul_frame(2, vec![1, 2], None));
    cc.parrot_session = Some(ParrotSession::new(2, 11, TetraAddress::issi(201)));
    assert!(!cc.handle_parrot_ul_frame(3, vec![1, 2], None));
    assert!(cc.handle_parrot_ul_frame(2, vec![1, 2], None));
    assert_eq!(cc.parrot_session.as_ref().unwrap().recorded_len(), 1);

    assert!(!cc.release_echo_session_if_matches(Some(12), 10));
    assert!(cc.parrot_session.is_some());
    assert!(cc.release_echo_session_if_matches(Some(11), 11));
    assert!(cc.parrot_session.is_none());
}

#[test]
fn shared_registry_follows_only_mobility_management() {
    let cc = CcBsSubentity::new();
    let groups = vec![500, 501];
    assert_eq!(
        cc.sync_shared_subscribers_from_mm_update(201, &groups, BrewSubscriberAction::Register, TetraEntity::Mm, false),
        vec![RegistryOp::Register { issi: 201 }]
    );
    assert!(cc
        .sync_shared_subscribers_from_mm_update(201, &groups, BrewSubscriberAction::Register, TetraEntity::Mm, true)
        .is_empty());
    assert_eq!(
        cc.sync_shared_subscribers_from_mm_update(201, &groups, BrewSubscriberAction::Affiliate, TetraEntity::Mm, true),
        vec![RegistryOp::Affiliate { issi: 201, gssi: 500 }, RegistryOp::Affiliate { issi: 201, gssi: 501 }]
    );
    assert!(cc
        .sync_shared_subscribers_from_mm_update(201, &groups, BrewSubscriberAction::Affiliate, TetraEntity::Mm, false)
        .is_empty());
    assert_eq!(
        cc.sync_shared_subscribers_from_mm_update(201, &groups, BrewSubscriberAction::Deaffiliate, TetraEntity::Mm, false),
        vec![RegistryOp::Deaffiliate { issi: 201, gssi: 500 }, RegistryOp::Deaffiliate { issi: 201, gssi: 501 }]
    );
    assert_eq!(
        cc.sync_shared_subscribers_from_mm_update(201, &groups, BrewSubscriberAction::Deregister, TetraEntity::Mm, true),
        vec![RegistryOp::Deregister { issi: 201 }]
    );
    assert!(cc
        .sync_shared_subscribers_from_mm_update(201, &groups, BrewSubscriberAction::Deregister, TetraEntity::Brew, true)
        .is_empty());
}

#[test]
fn health_figures_count_the_call_tables() {
    let mut cc = cell();
    cc.active_calls.get_mut(&8).unwrap().queue_tx_demand(TetraAddress::issi(301));
    cc.active_calls.get_mut(&8).unwrap().queue_tx_demand(TetraAddress::issi(302));
    cc.active_calls.get_mut(&9).unwrap().queue_tx_demand(TetraAddress::issi(303));
    let mut waiting = individual(IndividualCallState::Active, 2, 3);
    waiting.queued_tx_demand = Some(TetraAddress::issi(202));
    cc.individual_calls.insert(5, waiting);
    let pending = PendingTableSizes {
        group_releases: 1,
        group_floor_activations: 2,
        network_group_readies: 3,
        individual_releases: 4,
        network_individual_connects: 5,
        individual_disconnect_tail_drains: 1,
        individual_disconnect_deliveries: 1,
        individual_disconnect_release_acks: 1,
        individual_tx_ceased_tail_drains: 2,
    };
    let stats = cc.health_stats(pending);
    assert_eq!(stats.active_group_calls, 2);
    assert_eq!(stats.group_floor_waiters, 3);
    assert_eq!(stats.active_individual_calls, 2);
    assert_eq!(stats.pending_individual_calls, 1);
    assert_eq!(stats.individual_floor_waiters, 1);
    assert_eq!(stats.pending_individual_disconnects, 5);
    assert_eq!(stats.pending_network_individual_connects, 5);
    assert_eq!(stats.pending_group_releases, 1);
}
