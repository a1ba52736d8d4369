//! Clearing an established local individual call after a station's
//! U-DISCONNECT (EN 300 392-2 clause 14.5.1.3): the peer is cleared after
//! the speech tail has drained, or sent D-DISCONNECT and awaited for
//! U-RELEASE; the sender's D-RELEASE acknowledgement and the peer clearing
//! complete the call together. Each pending step is kept per call
//! identifier, with the transmission reporters (`R`) of its PDUs.

use std::collections::HashMap;
use vstd::prelude::*;

use crate::address::TetraAddress;
use crate::call::{DisconnectCause, IndividualCall, IndividualCallState};
use crate::cc_bs::CcBsSubentity;
use crate::circuit_mgr::CmceCircuit;
use crate::tdma::TdmaTime;
use crate::teardown::{INDIVIDUAL_RELEASE_PENDING_TIMEOUT_TIMESLOTS, IndividualReleaseCleanup, individual_cleanup_done};
use crate::timeslots::TimeslotAllocator;

verus! {

broadcast use vstd::std_specs::hash::group_hash_axioms;

/// The speech tail of a simplex call drains for this many timeslots.
pub const INDIVIDUAL_SIMPLEX_TAIL_DRAIN_TIMESLOTS: i32 = 12;

/// A D-DISCONNECT whose delivery is not reported within this many
/// timeslots is given up.
pub const INDIVIDUAL_DISCONNECT_DELIVERY_TIMEOUT_TIMESLOTS: i32 = 144;

/// A peer clear waiting for the speech tail of the sender to drain.
#[derive(Clone, Copy, Debug, PartialEq, Eq, Structural)]
pub struct PendingIndividualDisconnectTailDrain {
    pub sender: TetraAddress,
    pub peer_issi: u32,
    pub cause: DisconnectCause,
    pub started_at: TdmaTime,
}

/// A D-DISCONNECT to the peer whose delivery is awaited.
pub struct PendingIndividualDisconnectDelivery<R> {
    /// The peer, which is to answer with U-RELEASE.
    pub awaiting_release_from: u32,
    /// The sender of U-DISCONNECT.
    pub release_to_issi: u32,
    pub cause: DisconnectCause,
    pub reporter: R,
    pub started_at: TdmaTime,
}

/// The D-RELEASE acknowledging a U-DISCONNECT, and the clearing of the
/// peer, both awaited.
pub struct PendingIndividualDisconnectReleaseAck<R> {
    /// The sender of U-DISCONNECT.
    pub release_to_issi: u32,
    pub cause: DisconnectCause,
    /// Reporters of the D-RELEASE to the sender.
    pub reporters: Vec<R>,
    /// Reporters of the D-RELEASE to the peer.
    pub peer_release_reporters: Vec<R>,
    pub started_at: TdmaTime,
    /// The peer was cleared otherwise (its U-RELEASE, or no downlink).
    pub peer_clear_complete: bool,
}

/// The next step of a pending tail drain.
#[derive(Clone, Copy, Debug, PartialEq, Eq, Structural)]
pub enum DisconnectTailDrainStep {
    /// The tail is still draining.
    Waiting,
    /// Drained, but the call is no longer active or the parties changed:
    /// dropped.
    Skipped,
    /// Drained: the peer is cleared by D-RELEASE with this cause.
    PeerRelease { peer_issi: u32, cause: DisconnectCause },
}

/// The next step of an awaited D-DISCONNECT delivery.
#[derive(Clone, Copy, Debug, PartialEq, Eq, Structural)]
pub enum DisconnectDeliveryStep {
    /// Not reported yet.
    Waiting,
    /// Transmitted: the call, if still active, now waits for the peer's
    /// U-RELEASE (`entered`).
    Delivered { entered: bool },
    /// Discarded or timed out: D-RELEASE goes instead of waiting.
    Fallback { cause: DisconnectCause, awaiting_release_from: u32 },
}

/// Whether call `c` is still active between `sender` and `peer`.
pub open spec fn tail_drain_target_holds(c: IndividualCall, sender: u32, peer: u32) -> bool {
    c.state == IndividualCallState::Active && (if sender == c.calling_addr.ssi {
        Some(c.called_addr.ssi)
    } else if sender == c.called_addr.ssi {
        Some(c.calling_addr.ssi)
    } else {
        None::<u32>
    }) == Some(peer)
}

/// The sender's acknowledgement is done: every copy to both parties was
/// transmitted, or the guard ran out at `now`.
pub open spec fn release_ack_done<R>(
    p: PendingIndividualDisconnectReleaseAck<R>,
    all_transmitted: bool,
    peer_all_transmitted: bool,
    now: TdmaTime,
) -> bool {
    (all_transmitted && peer_all_transmitted) || p.started_at.age_spec(now) >= INDIVIDUAL_RELEASE_PENDING_TIMEOUT_TIMESLOTS
}

/// The peer is cleared: said so, or its D-RELEASE copies exist and were
/// transmitted (or the guard ran out at `now`).
pub open spec fn peer_clear_done<R>(p: PendingIndividualDisconnectReleaseAck<R>, peer_all_transmitted: bool, now: TdmaTime) -> bool {
    p.peer_clear_complete || (p.peer_release_reporters@.len() > 0 && (peer_all_transmitted || p.started_at.age_spec(now)
        >= INDIVIDUAL_RELEASE_PENDING_TIMEOUT_TIMESLOTS))
}

impl CcBsSubentity {
    /// Delays the peer clear of call `call_id` until the speech tail of
    /// `sender` drained, unless a delay is pending already (then nothing
    /// changes and `false` comes back). The drain counts from
    /// `superseded_started_at`, the start of the call's pending TX-CEASED
    /// tail drain that this one replaces, else from now.
    pub fn begin_individual_disconnect_tail_drain(
        &self,
        drains: &mut HashMap<u16, PendingIndividualDisconnectTailDrain>,
        superseded_started_at: Option<TdmaTime>,
        call_id: u16,
        sender: TetraAddress,
        peer_issi: u32,
        disconnect_cause: DisconnectCause,
    ) -> (started: bool)
        ensures
            started == !old(drains)@.contains_key(call_id),
            started ==> final(drains)@ == old(drains)@.insert(
                call_id,
                PendingIndividualDisconnectTailDrain {
                    sender,
                    peer_issi,
                    cause: disconnect_cause,
                    started_at: match superseded_started_at {
                        Some(t) => t,
                        None => self.dltime,
                    },
                },
            ),
            !started ==> final(drains)@ == old(drains)@,
    {
        if drains.contains_key(&call_id) {
            return false;
        }
        let started_at = match superseded_started_at {
            Some(t) => t,
            None => self.dltime,
        };
        drains.insert(
            call_id,
            PendingIndividualDisconnectTailDrain { sender, peer_issi, cause: disconnect_cause, started_at },
        );
        true
    }

    /// Advances the tail drain of call `call_id`: once drained it leaves
    /// the table, and the peer is cleared when the call is still active
    /// between the same parties.
    pub fn drain_pending_individual_disconnect_tail_drains(
        &self,
        drains: &mut HashMap<u16, PendingIndividualDisconnectTailDrain>,
        call_id: u16,
    ) -> (r: DisconnectTailDrainStep)
        ensures
            ({
                let t = old(drains)@;
                if !t.contains_key(call_id) || t[call_id].started_at.age_spec(self.dltime)
                    < INDIVIDUAL_SIMPLEX_TAIL_DRAIN_TIMESLOTS {
                    r == DisconnectTailDrainStep::Waiting && final(drains)@ == t
                } else {
                    let p = t[call_id];
                    &&& final(drains)@ == t.remove(call_id)
                    &&& r == if self.individual_calls@.contains_key(call_id) && tail_drain_target_holds(
                        self.individual_calls@[call_id],
                        p.sender.ssi,
                        p.peer_issi,
                    ) {
                        DisconnectTailDrainStep::PeerRelease { peer_issi: p.peer_issi, cause: p.cause }
                    } else {
                        DisconnectTailDrainStep::Skipped
                    }
                }
            }),
    {
        let drained = match drains.get(&call_id) {
            Some(p) => p.started_at.age(self.dltime) >= INDIVIDUAL_SIMPLEX_TAIL_DRAIN_TIMESLOTS,
            None => false,
        };
        if !drained {
            return DisconnectTailDrainStep::Waiting;
        }
        let p = match drains.remove(&call_id) {
            Some(p) => p,
            None => {
                return DisconnectTailDrainStep::Waiting;
            },
        };
        match self.individual_calls.get(&call_id) {
            Some(call) => {
                let same = match call.peer_issi_for(p.sender.ssi) {
                    Some(x) => x == p.peer_issi,
                    None => false,
                };
                if call.is_active() && same {
                    DisconnectTailDrainStep::PeerRelease { peer_issi: p.peer_issi, cause: p.cause }
                } else {
                    DisconnectTailDrainStep::Skipped
                }
            },
            None => DisconnectTailDrainStep::Skipped,
        }
    }

    /// Starts waiting for the delivery of the D-DISCONNECT of call
    /// `call_id` to `awaiting_release_from`, reported by `reporter`.
    pub fn begin_individual_disconnect_delivery<R>(
        &self,
        deliveries: &mut HashMap<u16, PendingIndividualDisconnectDelivery<R>>,
        call_id: u16,
        awaiting_release_from: u32,
        release_to_issi: u32,
        reporter: R,
        disconnect_cause: DisconnectCause,
    )
        ensures
            final(deliveries)@ == old(deliveries)@.insert(
                call_id,
                PendingIndividualDisconnectDelivery {
                    awaiting_release_from,
                    release_to_issi,
                    cause: disconnect_cause,
                    reporter,
                    started_at: self.dltime,
                },
            ),
    {
        deliveries.insert(
            call_id,
            PendingIndividualDisconnectDelivery {
                awaiting_release_from,
                release_to_issi,
                cause: disconnect_cause,
                reporter,
                started_at: self.dltime,
            },
        );
    }

    /// The awaited D-DISCONNECT delivery of call `call_id`, taken from the
    /// table when `sender_issi` is the station it awaits: its cause and the
    /// station to release.
    pub fn take_individual_disconnect_delivery_release_if_awaited_by<R>(
        &self,
        deliveries: &mut HashMap<u16, PendingIndividualDisconnectDelivery<R>>,
        call_id: u16,
        sender_issi: u32,
    ) -> (r: Option<(DisconnectCause, u32)>)
        ensures
            ({
                let t = old(deliveries)@;
                if t.contains_key(call_id) && t[call_id].awaiting_release_from == sender_issi {
                    r == Some((t[call_id].cause, t[call_id].release_to_issi)) && final(deliveries)@ == t.remove(call_id)
                } else {
                    r is None && final(deliveries)@ == t
                }
            }),
    {
        let awaited = match deliveries.get(&call_id) {
            Some(p) => p.awaiting_release_from == sender_issi,
            None => false,
        };
        if !awaited {
            return None;
        }
        match deliveries.remove(&call_id) {
            Some(p) => Some((p.cause, p.release_to_issi)),
            None => None,
        }
    }

    /// Advances the awaited D-DISCONNECT delivery of call `call_id` given
    /// its reporter: transmitted, an active call starts waiting for the
    /// peer's U-RELEASE; discarded (`discarded`) or timed out, D-RELEASE is
    /// to go instead. A step other than waiting removes the entry.
    pub fn drain_pending_individual_disconnect_deliveries<R>(
        &mut self,
        deliveries: &mut HashMap<u16, PendingIndividualDisconnectDelivery<R>>,
        call_id: u16,
        transmitted: bool,
        discarded: bool,
    ) -> (r: DisconnectDeliveryStep)
        ensures
            old(self).individual_calls_wf() ==> final(self).individual_calls_wf(),
            final(self).same_except_individual_calls(old(self)),
            ({
                let t = old(deliveries)@;
                let m = old(self).individual_calls@;
                if !t.contains_key(call_id) {
                    r == DisconnectDeliveryStep::Waiting && final(deliveries)@ == t && final(self).individual_calls@ == m
                } else {
                    let p = t[call_id];
                    if transmitted {
                        let active = m.contains_key(call_id) && m[call_id].state == IndividualCallState::Active;
                        &&& r == DisconnectDeliveryStep::Delivered { entered: active }
                        &&& final(deliveries)@ == t.remove(call_id)
                        &&& final(self).individual_calls@ == if active {
                            m.insert(
                                call_id,
                                IndividualCall {
                                    state: IndividualCallState::DisconnectPending {
                                        awaiting_release_from: p.awaiting_release_from,
                                        release_to_issi: p.release_to_issi,
                                        started_at: old(self).dltime,
                                        cause: p.cause,
                                    },
                                    floor_holder: None,
                                    last_floor_holder: match m[call_id].floor_holder {
                                        Some(h) => Some(h),
                                        None => m[call_id].last_floor_holder,
                                    },
                                    queued_tx_demand: None,
                                    ..m[call_id]
                                },
                            )
                        } else {
                            m
                        }
                    } else if discarded || p.started_at.age_spec(old(self).dltime)
                        >= INDIVIDUAL_DISCONNECT_DELIVERY_TIMEOUT_TIMESLOTS {
                        &&& r == DisconnectDeliveryStep::Fallback {
                            cause: p.cause,
                            awaiting_release_from: p.awaiting_release_from,
                        }
                        &&& final(deliveries)@ == t.remove(call_id)
                        &&& final(self).individual_calls@ == m
                    } else {
                        r == DisconnectDeliveryStep::Waiting && final(deliveries)@ == t && final(self).individual_calls@
                            == m
                    }
                }
            }),
    {
        let ready = match deliveries.get(&call_id) {
            Some(p) => transmitted || discarded || p.started_at.age(self.dltime)
                >= INDIVIDUAL_DISCONNECT_DELIVERY_TIMEOUT_TIMESLOTS,
            None => false,
        };
        if !ready {
            return DisconnectDeliveryStep::Waiting;
        }
        let p = match deliveries.remove(&call_id) {
            Some(p) => p,
            None => {
                return DisconnectDeliveryStep::Waiting;
            },
        };
        if !transmitted {
            return DisconnectDeliveryStep::Fallback { cause: p.cause, awaiting_release_from: p.awaiting_release_from };
        }
        let active = match self.individual_calls.get(&call_id) {
            Some(c) => c.is_active(),
            None => false,
        };
        if active {
            let ghost m = self.individual_calls@;
            let now = self.dltime;
            match self.individual_calls.remove(&call_id) {
                Some(mut c) => {
                    c.begin_disconnect_pending(p.awaiting_release_from, p.release_to_issi, now, p.cause);
                    self.individual_calls.insert(call_id, c);
                    proof {
                        assert(self.individual_calls@ =~= m.insert(call_id, c));
                    }
                },
                None => {},
            }
        }
        DisconnectDeliveryStep::Delivered { entered: active }
    }

    /// Starts waiting for the D-RELEASE acknowledging the U-DISCONNECT of
    /// `release_to_issi` in call `call_id`, sent with `reporters`, unless
    /// such a wait is pending already (then nothing changes and `false`
    /// comes back).
    pub fn begin_individual_disconnect_release_ack<R>(
        &self,
        acks: &mut HashMap<u16, PendingIndividualDisconnectReleaseAck<R>>,
        call_id: u16,
        release_to_issi: u32,
        disconnect_cause: DisconnectCause,
        reporters: Vec<R>,
    ) -> (started: bool)
        ensures
            started == !old(acks)@.contains_key(call_id),
            started ==> final(acks)@.dom() == old(acks)@.dom().insert(call_id) && final(acks)@.remove(call_id)
                == old(acks)@ && final(acks)@[call_id].release_to_issi == release_to_issi
                && final(acks)@[call_id].cause == disconnect_cause && final(acks)@[call_id].reporters@ == reporters@
                && final(acks)@[call_id].peer_release_reporters@.len() == 0 && final(acks)@[call_id].started_at
                == self.dltime && !final(acks)@[call_id].peer_clear_complete,
            !started ==> final(acks)@ == old(acks)@,
    {
        if acks.contains_key(&call_id) {
            return false;
        }
        let ghost t = acks@;
        acks.insert(
            call_id,
            PendingIndividualDisconnectReleaseAck {
                release_to_issi,
                cause: disconnect_cause,
                reporters,
                peer_release_reporters: Vec::new(),
                started_at: self.dltime,
                peer_clear_complete: false,
            },
        );
        proof {
            assert(acks@.remove(call_id) =~= t);
        }
        true
    }

    /// Adds the reporters of a D-RELEASE sent to the peer of call
    /// `call_id` to its pending acknowledgement; `false` (nothing changes)
    /// when there is none, and the call is then released towards the peer.
    pub fn add_individual_disconnect_peer_release<R>(
        &self,
        acks: &mut HashMap<u16, PendingIndividualDisconnectReleaseAck<R>>,
        call_id: u16,
        reporters: Vec<R>,
    ) -> (added: bool)
        ensures
            added == old(acks)@.contains_key(call_id),
            !added ==> final(acks)@ == old(acks)@,
            added ==> final(acks)@.dom() == old(acks)@.dom() && final(acks)@.remove(call_id) == old(acks)@.remove(
                call_id,
            ) && ({
                let q = old(acks)@[call_id];
                let p = final(acks)@[call_id];
                &&& p.peer_release_reporters@ == q.peer_release_reporters@ + reporters@
                &&& p.reporters == q.reporters
                &&& p.release_to_issi == q.release_to_issi
                &&& p.cause == q.cause
                &&& p.started_at == q.started_at
                &&& p.peer_clear_complete == q.peer_clear_complete
            }),
    {
        let ghost t = acks@;
        match acks.remove(&call_id) {
            Some(mut p) => {
                let mut more = reporters;
                p.peer_release_reporters.append(&mut more);
                acks.insert(call_id, p);
                proof {
                    assert(acks@.remove(call_id) =~= t.remove(call_id));
                    assert(acks@.dom() =~= t.dom());
                }
                true
            },
            None => {
                proof {
                    assert(acks@ =~= t);
                }
                false
            },
        }
    }

    /// Records that the peer of call `call_id` was cleared otherwise (its
    /// U-RELEASE, or no downlink needed); `false` (nothing changes) when no
    /// acknowledgement is pending, and the call is then released directly.
    pub fn mark_individual_disconnect_peer_cleared<R>(
        &self,
        acks: &mut HashMap<u16, PendingIndividualDisconnectReleaseAck<R>>,
        call_id: u16,
    ) -> (marked: bool)
        ensures
            marked == old(acks)@.contains_key(call_id),
            !marked ==> final(acks)@ == old(acks)@,
            marked ==> final(acks)@.dom() == old(acks)@.dom() && final(acks)@.remove(call_id) == old(acks)@.remove(
                call_id,
            ) && ({
                let q = old(acks)@[call_id];
                let p = final(acks)@[call_id];
                &&& p.peer_clear_complete
                &&& p.peer_release_reporters == q.peer_release_reporters
                &&& p.reporters == q.reporters
                &&& p.release_to_issi == q.release_to_issi
                &&& p.cause == q.cause
                &&& p.started_at == q.started_at
            }),
    {
        let ghost t = acks@;
        match acks.remove(&call_id) {
            Some(mut p) => {
                p.peer_clear_complete = true;
                acks.insert(call_id, p);
                proof {
                    assert(acks@.remove(call_id) =~= t.remove(call_id));
                    assert(acks@.dom() =~= t.dom());
                }
                true
            },
            None => {
                proof {
                    assert(acks@ =~= t);
                }
                false
            },
        }
    }

    /// Completes the disconnect of call `call_id` once both its D-RELEASE
    /// acknowledgement and the peer clearing are done (given what the
    /// reporters of both say): the wait leaves the table and, if the call
    /// is still there, its resources are given back; nothing changes
    /// otherwise.
    pub fn complete_individual_disconnect_if_ready<R>(
        &mut self,
        alloc: &mut TimeslotAllocator,
        acks: &mut HashMap<u16, PendingIndividualDisconnectReleaseAck<R>>,
        call_id: u16,
        all_transmitted: bool,
        peer_all_transmitted: bool,
    ) -> (r: Option<IndividualReleaseCleanup>)
        requires
            old(self).circuits.wf(),
            old(self).individual_calls_wf(),
        ensures
            final(self).individual_calls_wf(),
            ({
                let t = old(acks)@;
                let m = old(self).individual_calls@;
                let ready = t.contains_key(call_id) && peer_clear_done(t[call_id], peer_all_transmitted, old(self).dltime)
                    && release_ack_done(t[call_id], all_transmitted, peer_all_transmitted, old(self).dltime);
                if !ready {
                    &&& r is None
                    &&& final(acks)@ == t
                    &&& *final(self) == *old(self)
                    &&& final(alloc).owners@ == old(alloc).owners@
                } else if !m.contains_key(call_id) {
                    &&& r is None
                    &&& final(acks)@ == t.remove(call_id)
                    &&& *final(self) == *old(self)
                    &&& final(alloc).owners@ == old(alloc).owners@
                } else {
                    &&& final(acks)@ == t.remove(call_id)
                    &&& r matches Some(cleanup)
                    &&& individual_cleanup_done(
                        *old(self),
                        *final(self),
                        old(alloc).owners@,
                        final(alloc).owners@,
                        call_id,
                        m[call_id],
                        t[call_id].cause,
                        Seq::empty(),
                        true,
                        cleanup,
                    )
                }
            }),
    {
        let ready = match acks.get(&call_id) {
            Some(p) => {
                let aged = p.started_at.age(self.dltime) >= INDIVIDUAL_RELEASE_PENDING_TIMEOUT_TIMESLOTS;
                let peer_done = p.peer_clear_complete || (p.peer_release_reporters.len() > 0 && (peer_all_transmitted
                    || aged));
                let ack_done = (all_transmitted && peer_all_transmitted) || aged;
                peer_done && ack_done
            },
            None => false,
        };
        if !ready {
            return None;
        }
        let p = match acks.remove(&call_id) {
            Some(p) => p,
            None => {
                return None;
            },
        };
        if !self.individual_calls.contains_key(&call_id) {
            return None;
        }
        let call = match self.individual_calls.remove(&call_id) {
            Some(c) => c,
            None => {
                return None;
            },
        };
        proof {
            assert(self.individual_calls@.remove(call_id) =~= self.individual_calls@);
        }
        let no_preclosed: Vec<CmceCircuit> = Vec::new();
        let cleanup = self.complete_individual_release_cleanup(alloc, call_id, &call, p.cause, &no_preclosed, true);
        proof {
            assert(no_preclosed@ =~= Seq::empty());
        }
        Some(cleanup)
    }

    /// The station towards which a failed disconnect of call `call_id` is
    /// released when its D-RELEASE acknowledgement is pending: the given
    /// one, else the peer of the acknowledged sender. `None` releases the
    /// whole call.
    pub fn release_individual_disconnect_fallback<R>(
        &self,
        acks: &HashMap<u16, PendingIndividualDisconnectReleaseAck<R>>,
        call_id: u16,
        release_to_issi: Option<u32>,
    ) -> (r: Option<u32>)
        ensures
            r == if !acks@.contains_key(call_id) {
                None
            } else {
                match release_to_issi {
                    Some(x) => Some(x),
                    None => if self.individual_calls@.contains_key(call_id) {
                        let c = self.individual_calls@[call_id];
                        let s = acks@[call_id].release_to_issi;
                        if s == c.calling_addr.ssi {
                            Some(c.called_addr.ssi)
                        } else if s == c.called_addr.ssi {
                            Some(c.calling_addr.ssi)
                        } else {
                            None
                        }
                    } else {
                        None
                    },
                }
            },
    {
        match acks.get(&call_id) {
            Some(p) => match release_to_issi {
                Some(x) => Some(x),
                None => match self.individual_calls.get(&call_id) {
                    Some(c) => c.peer_issi_for(p.release_to_issi),
                    None => None,
                },
            },
            None => None,
        }
    }
}

} // verus!
