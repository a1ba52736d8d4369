use tetra_entities::address::TetraAddress;
use tetra_entities::parrot::{
    ParrotSession, PARROT_MAX_FRAMES, PARROT_PLAYBACK_DEADLINE_TIMESLOTS, PARROT_PLAYBACK_DRAIN_TIMESLOTS,
};
use tetra_entities::tdma::TdmaTime;

#[test]
fn parrot_recording_is_limited_to_twenty_seconds() {
    let mut session = ParrotSession::new(2, 42, TetraAddress::issi(1001));

    for seq in 0..(PARROT_MAX_FRAMES + 5) {
        assert!(session.record_ul_frame(2, vec![seq as u8; 35], None));
    }

    assert_eq!(session.recorded_len(), PARROT_MAX_FRAMES);
}

#[test]
fn parrot_playback_guard_forces_completion() {
    let mut session = ParrotSession::new(2, 42, TetraAddress::issi(1001));
    assert!(session.record_ul_frame(2, vec![0; 35], None));

    let start = TdmaTime { h: 0, m: 1, f: 1, t: 1 };
    assert!(session.start_playback(start));
    let after_deadline = start.add_timeslots(PARROT_PLAYBACK_DEADLINE_TIMESLOTS);

    assert!(session.next_playback_msg(after_deadline).is_none());
    assert!(session.take_playback_finished());
    assert_eq!(session.recorded_len(), 0);
}

#[test]
fn parrot_playback_skips_frame_18_and_drains_before_finish() {
    let mut session = ParrotSession::new(2, 42, TetraAddress::issi(1001));
    assert!(session.record_ul_frame(2, vec![1; 35], None));

    let start = TdmaTime { h: 0, m: 1, f: 14, t: 2 };
    assert!(session.start_playback(start));
    let frame_18 = TdmaTime { h: 0, m: 1, f: 18, t: 2 };
    assert!(
        session.next_playback_msg(frame_18).is_none(),
        "frame 18 is not RF-sendable traffic in the current UMAC scheduler"
    );
    assert_eq!(session.recorded_len(), 1);

    let next_multiframe_t2 = frame_18.add_timeslots(4);
    assert!(session.next_playback_msg(next_multiframe_t2).is_some());
    assert_eq!(session.recorded_len(), 0);

    let empty_probe = next_multiframe_t2.add_timeslots(4);
    assert!(session.next_playback_msg(empty_probe).is_none());
    assert!(
        !session.take_playback_finished(),
        "release should wait for a small RF drain guard after the last queued playback frame"
    );

    let after_drain = next_multiframe_t2.add_timeslots(PARROT_PLAYBACK_DRAIN_TIMESLOTS + 4);
    assert!(session.next_playback_msg(after_drain).is_none());
    assert!(session.take_playback_finished());
}
