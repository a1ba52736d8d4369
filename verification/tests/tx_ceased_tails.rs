use std::collections::HashMap;

use tetra_entities::address::TetraAddress;
use tetra_entities::cc_bs::CcBsSubentity;
use tetra_entities::floor_activation::PendingGroupFloorActivation;
use tetra_entities::tdma::TdmaTime;
use tetra_entities::tx_ceased_tails::{
    IndividualTailDrainLeg, PendingGroupTxCeasedTailDrain, PendingIndividualTxCeasedTailDrain,
};

#[test]
fn group_tail_drain_supersedes_floor_activation_and_comes_due() {
    let mut cc = CcBsSubentity::new();
    let mut drains: HashMap<u16, PendingGroupTxCeasedTailDrain> = HashMap::new();
    let mut activations: HashMap<u16, PendingGroupFloorActivation<u8>> = HashMap::new();
    cc.queue_group_floor_activation(&mut activations, 8, 300, 500, 2, 1, false);
    assert!(cc.begin_group_tx_ceased_tail_drain(&mut drains, &mut activations, 8, TetraAddress::issi(300), 500, 2, 4, true));
    assert!(activations.is_empty());
    assert!(!cc.begin_group_tx_ceased_tail_drain(&mut drains, &mut activations, 8, TetraAddress::issi(301), 500, 2, 4, false));
    assert_eq!(drains.get(&8).unwrap().sender, TetraAddress::issi(300));

    assert_eq!(cc.drain_pending_group_tx_ceased_tail_drains(&mut drains, 8), None);
    cc.dltime = TdmaTime::default().add_timeslots(12);
    let p = cc.drain_pending_group_tx_ceased_tail_drains(&mut drains, 8).expect("due");
    assert_eq!((p.dest_gssi, p.ts, p.usage, p.notify_brew), (500, 2, 4, true));
    assert!(drains.is_empty());
}

#[test]
fn retake_by_the_same_speaker_cancels_the_tail_drain() {
    let cc = CcBsSubentity::new();
    let mut drains: HashMap<u16, PendingGroupTxCeasedTailDrain> = HashMap::new();
    let mut activations: HashMap<u16, PendingGroupFloorActivation<u8>> = HashMap::new();
    cc.begin_group_tx_ceased_tail_drain(&mut drains, &mut activations, 8, TetraAddress::issi(300), 500, 2, 4, false);
    assert!(!cc.cancel_matching_group_tx_ceased_tail_drain(&mut drains, 8, 301));
    assert!(cc.cancel_matching_group_tx_ceased_tail_drain(&mut drains, 8, 300));
    assert!(!cc.cancel_group_tx_ceased_tail_drain(&mut drains, 8));

    let mut ind: HashMap<u16, PendingIndividualTxCeasedTailDrain> = HashMap::new();
    let sender = IndividualTailDrainLeg { addr: TetraAddress::issi(201), ts: 2, usage: 4 };
    let peer = IndividualTailDrainLeg { addr: TetraAddress::issi(202), ts: 3, usage: 5 };
    assert!(cc.begin_individual_tx_ceased_tail_drain(&mut ind, 7, sender, peer, false));
    assert!(!cc.begin_individual_tx_ceased_tail_drain(&mut ind, 7, peer, sender, false));
    assert!(!cc.cancel_matching_individual_tx_ceased_tail_drain(&mut ind, 7, 202));
    assert!(cc.cancel_matching_individual_tx_ceased_tail_drain(&mut ind, 7, 201));
    assert!(ind.is_empty());
}

#[test]
fn individual_tail_drain_comes_due_after_its_drain_time() {
    let mut cc = CcBsSubentity::new();
    let mut ind: HashMap<u16, PendingIndividualTxCeasedTailDrain> = HashMap::new();
    let sender = IndividualTailDrainLeg { addr: TetraAddress::issi(201), ts: 2, usage: 4 };
    let peer = IndividualTailDrainLeg { addr: TetraAddress::issi(202), ts: 3, usage: 5 };
    cc.begin_individual_tx_ceased_tail_drain(&mut ind, 7, sender, peer, true);
    cc.dltime = TdmaTime::default().add_timeslots(11);
    assert_eq!(cc.drain_pending_individual_tx_ceased_tail_drains(&mut ind, 7), None);
    cc.dltime = TdmaTime::default().add_timeslots(12);
    let p = cc.drain_pending_individual_tx_ceased_tail_drains(&mut ind, 7).expect("due");
    assert_eq!(p.peer, peer);
    assert!(p.notify_brew);
}
