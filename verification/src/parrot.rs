//! The local parrot test service (ISSI 99999): records the uplink speech
//! frames of one caller, plays the same frames back once the caller releases
//! the floor, then lets the call be cleared. Playback is paced by TDMA ticks.

use std::collections::VecDeque;
use vstd::prelude::*;

use crate::address::TetraAddress;
use crate::tdma::TdmaTime;

verus! {

/// The parrot service's individual address.
pub const PARROT_ISSI: u32 = 99_999;

/// Longest recording, in seconds.
pub const PARROT_MAX_RECORD_SECONDS: usize = 20;

/// Speech frames per second on a TCH/S channel.
pub const TCH_S_TRAFFIC_FRAMES_PER_SECOND: usize = 17;

/// Most frames a recording keeps: twenty seconds of speech.
pub const PARROT_MAX_FRAMES: usize = 340;

/// Playback starts no earlier than this many timeslots after it was started.
pub const PARROT_PLAYBACK_START_GUARD_TIMESLOTS: i32 = 12;

/// After the last frame, release waits this many timeslots for the radio to drain.
pub const PARROT_PLAYBACK_DRAIN_TIMESLOTS: i32 = 16;

/// Playback is cut off this many timeslots after it started (22 seconds).
pub const PARROT_PLAYBACK_DEADLINE_TIMESLOTS: i32 = 1584;

/// Half-block of a speech frame on the physical layer.
#[derive(Clone, Copy, Debug, PartialEq, Eq, Structural)]
pub enum PhyBlockNum {
    Block1,
    Block2,
}

/// One recorded speech frame.
#[derive(Clone, Debug)]
pub struct ParrotFrame {
    pub data: Vec<u8>,
    pub raw_tch_s_block: Option<PhyBlockNum>,
}

/// Phase of a parrot session.
#[derive(Clone, Copy, Debug, PartialEq, Eq, Structural)]
pub enum ParrotState {
    Recording,
    Playing,
    Releasing,
}

/// A downlink speech frame to send on a timeslot.
#[derive(Clone, Debug)]
pub struct TmdCircuitDataReq {
    pub ts: u8,
    pub data: Vec<u8>,
    pub raw_tch_s_block: Option<PhyBlockNum>,
}

/// Floor grant to announce to the MAC: who speaks to whom on which timeslot.
#[derive(Clone, Copy, Debug, PartialEq, Eq, Structural)]
pub struct FloorGranted {
    pub call_id: u16,
    pub source_issi: u32,
    pub dest_gssi: u32,
    pub ts: u8,
}

/// One parrot call.
#[derive(Debug)]
pub struct ParrotSession {
    pub ts: u8,
    pub call_id: u16,
    pub caller: TetraAddress,
    pub frames: VecDeque<ParrotFrame>,
    pub state: ParrotState,
    pub last_frame_at: Option<TdmaTime>,
    pub playback_started_at: Option<TdmaTime>,
    pub playback_release_started_at: Option<TdmaTime>,
    pub playback_finished: bool,
}

impl ParrotSession {
    /// A session recording `caller` on timeslot `ts`.
    pub fn new(ts: u8, call_id: u16, caller: TetraAddress) -> (r: ParrotSession)
        ensures
            r.ts == ts,
            r.call_id == call_id,
            r.caller == caller,
            r.frames@.len() == 0,
            r.state == ParrotState::Recording,
            r.last_frame_at is None,
            r.playback_started_at is None,
            r.playback_release_started_at is None,
            !r.playback_finished,
    {
        ParrotSession {
            ts,
            call_id,
            caller,
            frames: VecDeque::new(),
            state: ParrotState::Recording,
            last_frame_at: None,
            playback_started_at: None,
            playback_release_started_at: None,
            playback_finished: false,
        }
    }

    /// Offers an uplink frame. It is accepted (`true`) when it comes on the
    /// session's timeslot while recording; it is kept only while the
    /// recording is shorter than the limit.
    pub fn record_ul_frame(&mut self, ts: u8, data: Vec<u8>, raw_tch_s_block: Option<PhyBlockNum>) -> (r: bool)
        ensures
            r == (old(self).ts == ts && old(self).state == ParrotState::Recording),
            r && old(self).frames@.len() < PARROT_MAX_FRAMES ==> final(self).frames@ == old(self).frames@.push(
                ParrotFrame { data, raw_tch_s_block },
            ),
            !(r && old(self).frames@.len() < PARROT_MAX_FRAMES) ==> final(self).frames@ == old(self).frames@,
            *final(self) == (ParrotSession { frames: final(self).frames, ..*old(self) }),
    {
        if self.ts != ts || self.state != ParrotState::Recording {
            return false;
        }
        if self.frames.len() >= PARROT_MAX_FRAMES {
            return true;
        }
        self.frames.push_back(ParrotFrame { data, raw_tch_s_block });
        true
    }

    /// Number of frames held.
    pub fn recorded_len(&self) -> (r: usize)
        ensures
            r == self.frames@.len(),
    {
        self.frames.len()
    }

    /// The caller's SSI.
    pub fn caller_issi(&self) -> (r: u32)
        ensures
            r == self.caller.ssi,
    {
        self.caller.ssi
    }

    /// The session runs on timeslot `ts`.
    pub fn owns_ts(&self, ts: u8) -> (r: bool)
        ensures
            r == (self.ts == ts),
    {
        self.ts == ts
    }

    /// Switches from recording to playback, started at `now`; `false`
    /// (and nothing changes) when not recording.
    pub fn start_playback(&mut self, now: TdmaTime) -> (r: bool)
        ensures
            r == (old(self).state == ParrotState::Recording),
            r ==> *final(self) == (ParrotSession {
                state: ParrotState::Playing,
                last_frame_at: None,
                playback_started_at: Some(now),
                playback_release_started_at: None,
                playback_finished: false,
                ..*old(self)
            }),
            !r ==> *final(self) == *old(self),
    {
        if self.state != ParrotState::Recording {
            return false;
        }
        self.state = ParrotState::Playing;
        self.last_frame_at = None;
        self.playback_started_at = Some(now);
        self.playback_release_started_at = None;
        self.playback_finished = false;
        true
    }

    /// Ends a recording without playing it back: drops the frames, returns
    /// how many there were and goes to releasing; `None` when not recording.
    pub fn finish_without_playback(&mut self) -> (r: Option<usize>)
        ensures
            old(self).state == ParrotState::Recording ==> r == Some(old(self).frames@.len() as usize)
                && final(self).frames@.len() == 0 && *final(self) == (ParrotSession {
                frames: final(self).frames,
                state: ParrotState::Releasing,
                playback_release_started_at: None,
                playback_finished: false,
                ..*old(self)
            }),
            old(self).state != ParrotState::Recording ==> r is None && *final(self) == *old(self),
    {
        if self.state != ParrotState::Recording {
            return None;
        }
        let recorded = self.frames.len();
        self.frames.clear();
        self.state = ParrotState::Releasing;
        self.playback_release_started_at = None;
        self.playback_finished = false;
        Some(recorded)
    }

    /// Playback is running.
    pub fn is_playing(&self) -> (r: bool)
        ensures
            r == (self.state == ParrotState::Playing),
    {
        self.state == ParrotState::Playing
    }

    /// Playback step at downlink time `now`.
    ///
    /// Releasing: once the drain delay has passed since the last frame, the
    /// session reports itself finished. Playing: past the deadline, the
    /// remaining frames are dropped and the session finishes at once;
    /// otherwise, on the session's timeslot outside frame 18, after the start
    /// guard and at most once per timeslot, the oldest frame is sent; with
    /// none left, releasing starts from the last frame's time.
    pub fn next_playback_msg(&mut self, now: TdmaTime) -> (r: Option<TmdCircuitDataReq>)
        ensures
            ({
                let s = *old(self);
                if s.state == ParrotState::Releasing {
                    &&& r is None
                    &&& if (s.playback_release_started_at matches Some(t) && t.age_spec(now)
                        >= PARROT_PLAYBACK_DRAIN_TIMESLOTS) {
                        *final(self) == (ParrotSession {
                            playback_release_started_at: None,
                            playback_finished: true,
                            ..s
                        })
                    } else {
                        *final(self) == s
                    }
                } else if s.state != ParrotState::Playing {
                    r is None && *final(self) == s
                } else if (s.playback_started_at matches Some(t) && t.age_spec(now)
                    >= PARROT_PLAYBACK_DEADLINE_TIMESLOTS) {
                    &&& r is None
                    &&& final(self).frames@.len() == 0
                    &&& *final(self) == (ParrotSession {
                        frames: final(self).frames,
                        state: ParrotState::Releasing,
                        playback_release_started_at: None,
                        playback_finished: true,
                        ..s
                    })
                } else if now.t != s.ts || now.f == 18 || (s.playback_started_at matches Some(t) && t.age_spec(
                    now,
                ) < PARROT_PLAYBACK_START_GUARD_TIMESLOTS) || s.last_frame_at == Some(now) {
                    r is None && *final(self) == s
                } else if s.frames@.len() == 0 {
                    &&& r is None
                    &&& final(self).frames@ == s.frames@
                    &&& *final(self) == (ParrotSession {
                        frames: final(self).frames,
                        state: ParrotState::Releasing,
                        playback_release_started_at: Some(
                            match s.last_frame_at {
                                Some(t) => t,
                                None => now,
                            },
                        ),
                        ..s
                    })
                } else {
                    &&& r matches Some(m) && m.ts == s.ts && m.data == s.frames@[0].data && m.raw_tch_s_block
                        == s.frames@[0].raw_tch_s_block
                    &&& final(self).frames@ == s.frames@.subrange(1, s.frames@.len() as int)
                    &&& *final(self) == (ParrotSession {
                        frames: final(self).frames,
                        last_frame_at: Some(now),
                        ..s
                    })
                }
            }),
    {
        if self.state == ParrotState::Releasing {
            match self.playback_release_started_at {
                Some(release_started_at) => {
                    if release_started_at.age(now) >= PARROT_PLAYBACK_DRAIN_TIMESLOTS {
                        self.playback_release_started_at = None;
                        self.playback_finished = true;
                    }
                },
                None => {},
            }
            return None;
        }
        if self.state != ParrotState::Playing {
            return None;
        }
        match self.playback_started_at {
            Some(started_at) => {
                if started_at.age(now) >= PARROT_PLAYBACK_DEADLINE_TIMESLOTS {
                    self.frames.clear();
                    self.state = ParrotState::Releasing;
                    self.playback_release_started_at = None;
                    self.playback_finished = true;
                    return None;
                }
            },
            None => {},
        }
        if now.t != self.ts || now.f == 18 {
            return None;
        }
        match self.playback_started_at {
            Some(started_at) => {
                if started_at.age(now) < PARROT_PLAYBACK_START_GUARD_TIMESLOTS {
                    return None;
                }
            },
            None => {},
        }
        match self.last_frame_at {
            Some(t) => {
                if t == now {
                    return None;
                }
            },
            None => {},
        }
        let frame = match self.frames.pop_front() {
            Some(frame) => frame,
            None => {
                self.state = ParrotState::Releasing;
                self.playback_release_started_at = Some(
                    match self.last_frame_at {
                        Some(t) => t,
                        None => now,
                    },
                );
                return None;
            },
        };
        self.last_frame_at = Some(now);
        Some(TmdCircuitDataReq { ts: self.ts, data: frame.data, raw_tch_s_block: frame.raw_tch_s_block })
    }

    /// Reports, once, that playback has finished.
    pub fn take_playback_finished(&mut self) -> (r: bool)
        ensures
            r == old(self).playback_finished,
            *final(self) == (ParrotSession { playback_finished: false, ..*old(self) }),
    {
        let r = self.playback_finished;
        self.playback_finished = false;
        r
    }

    /// The caller holds the floor, speaking to the parrot.
    pub fn floor_granted_msg(&self) -> (r: FloorGranted)
        ensures
            r == (FloorGranted {
                call_id: self.call_id,
                source_issi: self.caller.ssi,
                dest_gssi: PARROT_ISSI,
                ts: self.ts,
            }),
    {
        FloorGranted { call_id: self.call_id, source_issi: self.caller.ssi, dest_gssi: PARROT_ISSI, ts: self.ts }
    }

    /// The parrot holds the floor, speaking back to the caller.
    pub fn playback_floor_granted_msg(&self) -> (r: FloorGranted)
        ensures
            r == (FloorGranted {
                call_id: self.call_id,
                source_issi: PARROT_ISSI,
                dest_gssi: self.caller.ssi,
                ts: self.ts,
            }),
    {
        FloorGranted { call_id: self.call_id, source_issi: PARROT_ISSI, dest_gssi: self.caller.ssi, ts: self.ts }
    }
}

} // verus!
