use tetra_entities::address::TetraAddress;
use tetra_entities::call::{ActiveCall, CallTimeout, TxDemandQueueResult, MAX_GROUP_FLOOR_WAITERS};
use tetra_entities::tdma::TdmaTime;

fn test_group_call() -> ActiveCall {
    ActiveCall::new_local(TetraAddress::issi(100), 91, 100, 2, 4, TdmaTime::default(), CallTimeout::T30s, 0)
}

#[test]
fn group_floor_waiter_fifo_is_deduplicated_and_bounded() {
    let mut call = test_group_call();

    assert_eq!(call.queue_tx_demand(TetraAddress::issi(101)), TxDemandQueueResult::Queued);
    assert_eq!(
        call.queue_tx_demand(TetraAddress::issi(101)),
        TxDemandQueueResult::AlreadyQueuedBySameUser
    );

    for offset in 1..MAX_GROUP_FLOOR_WAITERS {
        assert_eq!(
            call.queue_tx_demand(TetraAddress::issi(101 + offset as u32)),
            TxDemandQueueResult::Queued,
            "waiter offset {offset} should fit in the bounded FIFO"
        );
    }

    assert_eq!(
        call.queue_tx_demand(TetraAddress::issi(900_000)),
        TxDemandQueueResult::QueueBusy,
        "overflow beyond the bounded group floor FIFO must be rejected"
    );
    assert_eq!(call.take_queued_tx_demand().map(|addr| addr.ssi), Some(101));
    assert_eq!(call.take_queued_tx_demand().map(|addr| addr.ssi), Some(102));
    assert_eq!(
        call.queue_tx_demand(TetraAddress::issi(101)),
        TxDemandQueueResult::Queued,
        "a requester removed from the FIFO may request the floor again later"
    );
    assert!(call.clear_queued_tx_demand_from(101));
    assert_eq!(call.queue_tx_demand(TetraAddress::issi(101)), TxDemandQueueResult::Queued);
}

#[test]
fn group_floor_waiter_take_through_drops_stale_prefix_and_preserves_tail() {
    let mut call = test_group_call();

    assert_eq!(call.queue_tx_demand(TetraAddress::issi(101)), TxDemandQueueResult::Queued);
    assert_eq!(call.queue_tx_demand(TetraAddress::issi(102)), TxDemandQueueResult::Queued);
    assert_eq!(call.queue_tx_demand(TetraAddress::issi(103)), TxDemandQueueResult::Queued);

    assert_eq!(
        call.take_queued_tx_demand_through(Some(102)).map(|requester| requester.ssi),
        Some(102)
    );
    assert_eq!(call.take_queued_tx_demand().map(|requester| requester.ssi), Some(103));
    assert_eq!(call.queue_tx_demand(TetraAddress::issi(101)), TxDemandQueueResult::Queued);
    assert_eq!(call.queue_tx_demand(TetraAddress::issi(102)), TxDemandQueueResult::Queued);
}
