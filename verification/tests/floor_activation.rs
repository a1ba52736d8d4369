use std::collections::HashMap;

use tetra_entities::address::TetraAddress;
use tetra_entities::call::{ActiveCall, CallTimeout, DisconnectCause};
use tetra_entities::cc_bs::CcBsSubentity;
use tetra_entities::floor_activation::{
    FloorActivation, FloorActivationStep, NetworkGroupReady, NetworkGroupReadyStep, PendingGroupFloorActivation,
    PendingNetworkGroupReady,
};
use tetra_entities::tdma::TdmaTime;

fn speaking_cell() -> CcBsSubentity {
    let mut cc = CcBsSubentity::new();
    let mut call = ActiveCall::new_local(TetraAddress::issi(300), 500, 300, 2, 4, TdmaTime::default(), CallTimeout::T2m, 0);
    call.tx_active = true;
    cc.active_calls.insert(8, call);
    cc
}

#[test]
fn repeated_grant_to_same_speaker_joins_the_pending_activation() {
    let cc = speaking_cell();
    let mut table: HashMap<u16, PendingGroupFloorActivation<&str>> = HashMap::new();
    cc.queue_group_floor_activation(&mut table, 8, 300, 500, 2, "first", false);
    cc.queue_group_floor_activation(&mut table, 8, 300, 500, 2, "second", true);
    let p = table.get(&8).unwrap();
    assert_eq!(p.reporters, vec!["first", "second"]);
    assert!(p.notify_brew);

    // Another speaker replaces the pending activation.
    cc.queue_group_floor_activation(&mut table, 8, 301, 500, 2, "third", false);
    let p = table.get(&8).unwrap();
    assert_eq!(p.source_issi, 301);
    assert_eq!(p.reporters, vec!["third"]);
    assert!(!p.notify_brew);

    assert!(cc.cancel_group_floor_activation(&mut table, 8));
    assert!(!cc.cancel_group_floor_activation(&mut table, 8));
}

#[test]
fn transmitted_grant_activates_the_floor_of_the_current_speaker() {
    let mut cc = speaking_cell();
    let mut table: HashMap<u16, PendingGroupFloorActivation<u8>> = HashMap::new();
    cc.queue_group_floor_activation(&mut table, 8, 300, 500, 2, 1, true);
    assert_eq!(cc.drain_pending_group_floor_activations(&mut table, 8, false, false), FloorActivationStep::Waiting);
    assert_eq!(
        cc.drain_pending_group_floor_activations(&mut table, 8, true, false),
        FloorActivationStep::Completed {
            activation: Some(FloorActivation { call_id: 8, source_issi: 300, dest_gssi: 500, ts: 2, notify_brew: true }),
        }
    );
    assert!(table.is_empty());

    // A speaker that changed meanwhile gets no activation.
    cc.queue_group_floor_activation(&mut table, 8, 301, 500, 2, 1, false);
    assert_eq!(
        cc.drain_pending_group_floor_activations(&mut table, 8, true, false),
        FloorActivationStep::Completed { activation: None }
    );
}

#[test]
fn discarded_grant_puts_the_speaker_into_hangtime() {
    let mut cc = speaking_cell();
    cc.dltime = TdmaTime::default().add_timeslots(10);
    let mut table: HashMap<u16, PendingGroupFloorActivation<u8>> = HashMap::new();
    cc.queue_group_floor_activation(&mut table, 8, 300, 500, 2, 1, false);
    assert_eq!(
        cc.drain_pending_group_floor_activations(&mut table, 8, false, true),
        FloorActivationStep::Suppressed { hangtime: true }
    );
    let call = cc.active_calls.get(&8).unwrap();
    assert!(!call.tx_active);
    assert_eq!(call.hangtime_start, Some(cc.dltime));
    assert!(table.is_empty());
}

#[test]
fn network_group_ready_completes_or_releases_the_call() {
    let mut cc = CcBsSubentity::new();
    let mut call = ActiveCall::new_network(0x99, 500, 300, 2, 4, TdmaTime::default(), CallTimeout::T2m, 0);
    call.tx_active = true;
    cc.active_calls.insert(8, call);
    let mut table: HashMap<u16, PendingNetworkGroupReady<u8>> = HashMap::new();

    assert!(!cc.queue_network_group_ready(&mut table, 8, 0x99, 300, 500, 2, 4, vec![1], true));
    assert_eq!(cc.drain_pending_network_group_readies(&mut table, 8, false, false), NetworkGroupReadyStep::Waiting);
    assert_eq!(
        cc.drain_pending_network_group_readies(&mut table, 8, true, false),
        NetworkGroupReadyStep::Completed {
            ready: Some(NetworkGroupReady {
                brew_uuid: 0x99,
                call_id: 8,
                source_issi: 300,
                dest_gssi: 500,
                ts: 2,
                usage: 4,
                notify_speaker_changed: true,
            }),
        }
    );

    // Nothing to wait for completes at once; a stale UUID announces nothing.
    cc.queue_network_group_ready(&mut table, 8, 0x98, 300, 500, 2, 4, Vec::new(), false);
    assert_eq!(
        cc.drain_pending_network_group_readies(&mut table, 8, false, false),
        NetworkGroupReadyStep::Completed { ready: None }
    );

    // Never transmitted in time: the call is released.
    cc.queue_network_group_ready(&mut table, 8, 0x99, 300, 500, 2, 4, vec![1], false);
    assert!(cc.queue_network_group_ready(&mut table, 8, 0x99, 300, 500, 2, 4, vec![2], false));
    cc.dltime = TdmaTime::default().add_timeslots(144);
    assert_eq!(
        cc.drain_pending_network_group_readies(&mut table, 8, false, false),
        NetworkGroupReadyStep::ReleaseCall { cause: DisconnectCause::AcknowledgedServiceNotComplete }
    );
    assert!(table.is_empty());
    assert!(!cc.cancel_network_group_ready(&mut table, 8));
}
