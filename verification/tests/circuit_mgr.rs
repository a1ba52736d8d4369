use std::collections::HashSet;

use tetra_entities::circuit_mgr::{
    CircuitErr, CircuitMgr, CircuitMgrCmd, CommunicationType, MAX_CALL_IDENTIFIER,
};
use tetra_entities::tdma::TdmaTime;
use tetra_entities::timeslots::{Direction, TimeslotAllocator, TimeslotOwner};

#[test]
fn backup_d_setup_is_sent_at_exact_one_frame_boundary() {
    let mut mgr = CircuitMgr::new();
    let created = TdmaTime { t: 1, f: 1, m: 1, h: 0 };
    mgr.dltime = created;
    let mut timeslot_alloc = TimeslotAllocator::default();
    let circuit = mgr
        .allocate_circuit_with_allocator(Direction::Dl, CommunicationType::P2Mp, &mut timeslot_alloc, TimeslotOwner::Cmce)
        .expect("test circuit should allocate")
        .clone();

    // A circuit created on t1 reaches the backup check exactly one TDMA
    // frame later.
    let tasks = mgr
        .tick_start(created.add_timeslots(4))
        .expect("exact one-frame boundary should queue tasks");

    assert!(
        tasks.iter().any(|cmd| matches!(
            cmd,
            CircuitMgrCmd::SendDSetup(call_id, usage, ts)
                if *call_id == circuit.call_id && *usage == circuit.usage && *ts == circuit.ts
        )),
        "backup D-SETUP should be queued at the exact one-frame boundary"
    );
}

#[test]
fn call_identifier_uses_full_14_bit_range_and_skips_dummy_zero() {
    let mut mgr = CircuitMgr::new();
    mgr.next_call_identifier = 0x3FFE;

    assert_eq!(mgr.get_next_call_id(), 0x3FFE);
    assert_eq!(mgr.get_next_call_id(), 0x3FFF);
    assert_eq!(mgr.get_next_call_id(), 1);
    assert_eq!(mgr.next_call_identifier, 2);
}

#[test]
fn call_identifier_wrap_skips_occupied_live_ids() {
    let mut mgr = CircuitMgr::new();
    mgr.next_call_identifier = 0x3FFE;
    let occupied = HashSet::from([0x3FFE, 0x3FFF, 1, 2]);

    assert_eq!(
        mgr.get_next_call_id_avoiding(&occupied),
        Ok(3),
        "wrapped allocation must skip live CMCE call identifiers"
    );
    assert_eq!(mgr.next_call_identifier, 4);
}

#[test]
fn call_identifier_allocator_reports_exhaustion_when_all_real_ids_are_live() {
    let mut mgr = CircuitMgr::new();
    let occupied: HashSet<_> = (1..=MAX_CALL_IDENTIFIER).collect();

    assert_eq!(mgr.get_next_call_id_avoiding(&occupied), Err(CircuitErr::CallIdentifierExhausted));
}

#[test]
fn usage_number_is_five_bits_and_wraps_from_31_to_4() {
    let mut mgr = CircuitMgr::new();
    mgr.next_usage_number = 30;

    assert_eq!(mgr.get_next_usage_number(), 30);
    assert_eq!(mgr.get_next_usage_number(), 31);
    assert_eq!(mgr.get_next_usage_number(), 4);
    assert_eq!(mgr.next_usage_number, 5);
}

#[test]
fn closing_both_directions_also_closes_the_uplink_only_circuit() {
    let mut mgr = CircuitMgr::new();
    let dl = mgr.allocate_circuit(Direction::Dl, CommunicationType::P2p).expect("downlink circuit");
    let ul = mgr.allocate_circuit(Direction::Ul, CommunicationType::P2p).expect("uplink circuit");
    assert_eq!((dl.ts, ul.ts), (2, 2));
    assert!(mgr.ul_only[1].is_some());

    assert_eq!(mgr.close_circuit(Direction::Both, 2), Ok(dl));
    assert!(mgr.dl[1].is_none());
    assert!(mgr.ul_only[1].is_none());
}

#[test]
fn closing_downlink_keeps_the_uplink_only_circuit() {
    let mut mgr = CircuitMgr::new();
    let dl = mgr.allocate_circuit(Direction::Dl, CommunicationType::P2p).expect("downlink circuit");
    let ul = mgr.allocate_circuit(Direction::Ul, CommunicationType::P2p).expect("uplink circuit");

    assert_eq!(mgr.close_circuit(Direction::Dl, 2), Ok(dl));
    assert!(mgr.dl[1].is_none());
    assert_eq!(mgr.ul_only[1], Some(ul.clone()));
    assert_eq!(mgr.close_circuit(Direction::Ul, 2), Ok(ul));
    assert_eq!(mgr.close_circuit(Direction::Ul, 2), Err(CircuitErr::CircuitNotActive));
}

#[test]
fn blocks_come_out_in_the_order_they_were_queued() {
    let mut mgr = CircuitMgr::new();
    assert_eq!(mgr.put_block(2, vec![9]), Err(CircuitErr::CircuitNotActive));
    let dl = mgr.allocate_circuit(Direction::Dl, CommunicationType::P2Mp).expect("downlink circuit");
    assert_eq!(dl.ts, 2);

    assert_eq!(mgr.put_block(2, vec![1, 2]), Ok(()));
    assert_eq!(mgr.put_block(2, vec![3]), Ok(()));
    assert_eq!(mgr.put_block(2, vec![]), Ok(()));
    assert_eq!(mgr.take_block(2), Ok(Some(vec![1, 2])));
    assert_eq!(mgr.take_block(2), Ok(Some(vec![3])));
    assert_eq!(mgr.take_block(2), Ok(Some(vec![])));
    assert_eq!(mgr.take_block(2), Ok(None));
    assert_eq!(mgr.take_block(3), Err(CircuitErr::CircuitNotActive));
}

#[test]
fn neither_direction_finds_no_circuit() {
    let mut mgr = CircuitMgr::new();
    assert_eq!(mgr.allocate_circuit(Direction::Neither, CommunicationType::P2p), Err(CircuitErr::NoCircuitFree));
    assert_eq!(mgr.next_usage_number, 4);

    let mut timeslot_alloc = TimeslotAllocator::default();
    for expected in 2..=4u8 {
        assert_eq!(timeslot_alloc.allocate_any(TimeslotOwner::Cmce), Some(expected));
    }
    assert_eq!(
        mgr.allocate_circuit_with_allocator(Direction::Neither, CommunicationType::P2p, &mut timeslot_alloc, TimeslotOwner::Cmce),
        Err(CircuitErr::NoCircuitFree)
    );
}
