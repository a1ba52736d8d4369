use tetra_entities::live_sds::{AddLiveSdsOutcome, LiveSdsState};

fn state() -> LiveSdsState {
    LiveSdsState { live_sds_queue: Vec::new(), next_live_sds_id: 1 }
}

#[test]
fn live_messages_get_consecutive_ids_and_respect_limits() {
    let mut s = state();
    assert_eq!(s.add_live_sds("hello".to_string(), 0x82, 1000, 3, true, 2), AddLiveSdsOutcome::Added { id: 1 });
    assert_eq!(s.add_live_sds("world".to_string(), 0x82, 1001, 1, true, 2), AddLiveSdsOutcome::Added { id: 2 });
    assert_eq!(s.add_live_sds("full".to_string(), 0x82, 1001, 1, true, 2), AddLiveSdsOutcome::QueueFull);
    assert_eq!(s.add_live_sds("x".to_string(), 0x82, 0x0100_0000, 1, true, 5), AddLiveSdsOutcome::InvalidSourceIssi);
    assert_eq!(s.add_live_sds("x".to_string(), 0x01, 1000, 1, false, 5), AddLiveSdsOutcome::UnsupportedProtocol);
    assert_eq!(s.live_sds_queue.len(), 2);
    assert_eq!(s.live_sds_queue[0].text, "hello");
    assert_eq!(s.live_sds_queue[1].sent_count, 0);
    assert_eq!(s.next_live_sds_id, 3);
}

#[test]
fn identifier_wraps_past_zero() {
    let mut s = LiveSdsState { live_sds_queue: Vec::new(), next_live_sds_id: u32::MAX };
    assert_eq!(s.add_live_sds("a".to_string(), 0x82, 1, 1, true, 4), AddLiveSdsOutcome::Added { id: u32::MAX });
    assert_eq!(s.next_live_sds_id, 1);
}

#[test]
fn delete_removes_only_the_named_message_and_clear_empties() {
    let mut s = state();
    for text in ["a", "b", "c"] {
        s.add_live_sds(text.to_string(), 0x82, 7, 1, true, 10);
    }
    assert_eq!(s.delete_live_sds(2), 1);
    assert_eq!(s.live_sds_queue.iter().map(|m| m.id).collect::<Vec<_>>(), vec![1, 3]);
    assert_eq!(s.delete_live_sds(9), 0);
    assert_eq!(s.clear_live_sds(), 2);
    assert!(s.live_sds_queue.is_empty());
    assert_eq!(s.next_live_sds_id, 4);
}
