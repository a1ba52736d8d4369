//! A station's U-DISCONNECT and U-RELEASE (EN 300 392-2 clauses 14.5.1.3
//! and 14.5.2.3): who may end which call, and how an individual call's
//! peer is cleared.

use vstd::prelude::*;

use crate::address::TetraAddress;
use crate::call::{CallOrigin, DisconnectCause, IndividualCall, IndividualCallState};
use crate::cc_bs::CcBsSubentity;

verus! {

/// The decision on a station's U-DISCONNECT.
#[derive(Clone, Copy, Debug, PartialEq, Eq, Structural)]
pub enum UDisconnectOutcome {
    /// The individual call waits for U-RELEASE after D-DISCONNECT; ignored.
    AwaitingRelease,
    /// The sender is no party of the individual call: D-RELEASE (requested
    /// service not available) goes back to it directly.
    NotParticipant,
    /// A disconnect of the call is already being cleared; ignored.
    DuplicateWhileClearing,
    /// D-RELEASE acknowledges the sender; the peer is cleared once the
    /// speech tail has drained.
    TailDrain { peer_issi: u32 },
    /// D-RELEASE acknowledges the sender; D-DISCONNECT goes to the peer
    /// (`target` on its timeslot and usage marker), which is to answer with
    /// U-RELEASE.
    DisconnectPeer { peer_issi: u32, target: TetraAddress, target_ts: u8, target_usage: u8 },
    /// The individual call is released with the sender's cause.
    ReleaseIndividual,
    /// No call has this identifier.
    UnknownCall,
    /// The owner of the group call ends it (user requested disconnection).
    ReleaseGroup,
    /// The sender does not own the group call: D-RELEASE (requested service
    /// not available) goes back to it directly.
    NotCallOwner,
}

/// A D-DISCONNECT of an individual call whose delivery is awaited.
#[derive(Clone, Copy, Debug, PartialEq, Eq, Structural)]
pub struct DisconnectDeliveryWait {
    pub awaiting_release_from: u32,
    pub release_to_issi: u32,
    pub cause: DisconnectCause,
}

/// The decision on a station's U-RELEASE.
#[derive(Clone, Copy, Debug, PartialEq, Eq, Structural)]
pub enum UReleaseOutcome {
    /// The awaited answer to D-DISCONNECT: the peer release completes with
    /// `cause` towards `release_to_issi`; `from_delivery` when it came from
    /// the delivery still being awaited.
    CompletePeerRelease { cause: DisconnectCause, release_to_issi: u32, from_delivery: bool },
    /// The call is disconnecting but waits for another station; ignored.
    IgnoredDisconnecting,
    /// The sender is no party of the individual call: D-RELEASE (requested
    /// service not available) goes back to it directly.
    NotParticipant,
    /// U-RELEASE of an individual call outside a disconnect; ignored.
    IgnoredActive,
    /// No call has this identifier.
    UnknownCall,
    /// The owner of a group call ends it with U-DISCONNECT; ignored.
    IgnoredGroupOwner,
    /// The sender does not own the group call: D-RELEASE (requested service
    /// not available) goes back to it directly.
    NotCallOwner,
}

/// The other party of call `c` than `sender`, if `sender` is one of them.
pub open spec fn peer_of(c: IndividualCall, sender: u32) -> Option<u32> {
    if sender == c.calling_addr.ssi {
        Some(c.called_addr.ssi)
    } else if sender == c.called_addr.ssi {
        Some(c.calling_addr.ssi)
    } else {
        None
    }
}

/// `sender` set up the group call with origin `origin`.
pub open spec fn owns_group_call(origin: CallOrigin, sender: u32) -> bool {
    match origin {
        CallOrigin::Local { caller_addr } => caller_addr.ssi == sender,
        _ => false,
    }
}

/// The decision on a U-DISCONNECT from `sender` for call `call_id`.
pub open spec fn u_disconnect_decision(
    cc: CcBsSubentity,
    sender: u32,
    call_id: u16,
    tail_drain_pending: bool,
    delivery_pending: bool,
) -> UDisconnectOutcome {
    let m = cc.individual_calls@;
    if m.contains_key(call_id) {
        let c = m[call_id];
        if c.state is DisconnectPending {
            UDisconnectOutcome::AwaitingRelease
        } else if peer_of(c, sender) is None {
            UDisconnectOutcome::NotParticipant
        } else if !c.called_over_brew && !c.calling_over_brew && c.state == IndividualCallState::Active {
            let peer = peer_of(c, sender)->0;
            if tail_drain_pending || delivery_pending {
                UDisconnectOutcome::DuplicateWhileClearing
            } else if !c.simplex_duplex && c.floor_holder is Some {
                UDisconnectOutcome::TailDrain { peer_issi: peer }
            } else {
                let target = if sender == c.calling_addr.ssi {
                    c.called_addr
                } else {
                    c.calling_addr
                };
                let to_caller = target.ssi == c.calling_addr.ssi;
                UDisconnectOutcome::DisconnectPeer {
                    peer_issi: peer,
                    target,
                    target_ts: if to_caller {
                        c.calling_ts
                    } else {
                        c.called_ts
                    },
                    target_usage: if to_caller {
                        c.calling_usage
                    } else {
                        c.called_usage
                    },
                }
            }
        } else {
            UDisconnectOutcome::ReleaseIndividual
        }
    } else if !cc.active_calls@.contains_key(call_id) {
        UDisconnectOutcome::UnknownCall
    } else if owns_group_call(cc.active_calls@[call_id].origin, sender) {
        UDisconnectOutcome::ReleaseGroup
    } else {
        UDisconnectOutcome::NotCallOwner
    }
}

/// The decision on a U-RELEASE from `sender` for call `call_id`, with the
/// awaited D-DISCONNECT delivery `delivery` of that call.
pub open spec fn u_release_decision(
    cc: CcBsSubentity,
    sender: u32,
    call_id: u16,
    delivery: Option<DisconnectDeliveryWait>,
) -> UReleaseOutcome {
    let m = cc.individual_calls@;
    if m.contains_key(call_id) {
        let c = m[call_id];
        if delivery is Some && delivery->0.awaiting_release_from == sender {
            UReleaseOutcome::CompletePeerRelease {
                cause: delivery->0.cause,
                release_to_issi: delivery->0.release_to_issi,
                from_delivery: true,
            }
        } else if c.state matches IndividualCallState::DisconnectPending { awaiting_release_from, .. }
            && awaiting_release_from == sender {
            UReleaseOutcome::CompletePeerRelease {
                cause: c.state->cause,
                release_to_issi: c.state->release_to_issi,
                from_delivery: false,
            }
        } else if c.state is DisconnectPending {
            UReleaseOutcome::IgnoredDisconnecting
        } else if peer_of(c, sender) is None {
            UReleaseOutcome::NotParticipant
        } else {
            UReleaseOutcome::IgnoredActive
        }
    } else if !cc.active_calls@.contains_key(call_id) {
        UReleaseOutcome::UnknownCall
    } else if owns_group_call(cc.active_calls@[call_id].origin, sender) {
        UReleaseOutcome::IgnoredGroupOwner
    } else {
        UReleaseOutcome::NotCallOwner
    }
}

impl CcBsSubentity {
    /// The owner of the group call `call_id` is `sender`.
    fn is_group_call_owner(&self, call_id: u16, sender: u32) -> (r: bool)
        requires
            self.active_calls@.contains_key(call_id),
        ensures
            r == owns_group_call(self.active_calls@[call_id].origin, sender),
    {
        match self.active_calls.get(&call_id) {
            Some(call) => match call.origin {
                CallOrigin::Local { caller_addr } => caller_addr.ssi == sender,
                _ => false,
            },
            None => false,
        }
    }

    /// Decides on a U-DISCONNECT from `sender` for call `call_id`. In an
    /// individual call the sender must be a party; an active local call
    /// acknowledges the sender and clears the peer (after the speech tail
    /// in simplex while someone holds the floor), unless a clear is already
    /// pending (`tail_drain_pending`, `delivery_pending`); any other
    /// individual call is released. A group call may only be ended by its
    /// local owner.
    pub fn fsm_on_u_disconnect(
        &self,
        sender: TetraAddress,
        call_id: u16,
        tail_drain_pending: bool,
        delivery_pending: bool,
    ) -> (r: UDisconnectOutcome)
        ensures
            r == u_disconnect_decision(*self, sender.ssi, call_id, tail_drain_pending, delivery_pending),
    {
        match self.individual_calls.get(&call_id) {
            Some(call) => {
                match call.state {
                    IndividualCallState::DisconnectPending { .. } => {
                        return UDisconnectOutcome::AwaitingRelease;
                    },
                    _ => {},
                }
                let peer_issi = match call.peer_issi_for(sender.ssi) {
                    Some(p) => p,
                    None => {
                        return UDisconnectOutcome::NotParticipant;
                    },
                };
                if !call.called_over_brew && !call.calling_over_brew && call.is_active() {
                    if tail_drain_pending || delivery_pending {
                        return UDisconnectOutcome::DuplicateWhileClearing;
                    }
                    if !call.simplex_duplex && call.floor_holder.is_some() {
                        return UDisconnectOutcome::TailDrain { peer_issi };
                    }
                    let target = if sender.ssi == call.calling_addr.ssi {
                        call.called_addr
                    } else {
                        call.calling_addr
                    };
                    let to_caller = target.ssi == call.calling_addr.ssi;
                    return UDisconnectOutcome::DisconnectPeer {
                        peer_issi,
                        target,
                        target_ts: if to_caller {
                            call.calling_ts
                        } else {
                            call.called_ts
                        },
                        target_usage: if to_caller {
                            call.calling_usage
                        } else {
                            call.called_usage
                        },
                    };
                }
                UDisconnectOutcome::ReleaseIndividual
            },
            None => {
                if !self.active_calls.contains_key(&call_id) {
                    return UDisconnectOutcome::UnknownCall;
                }
                if self.is_group_call_owner(call_id, sender.ssi) {
                    UDisconnectOutcome::ReleaseGroup
                } else {
                    UDisconnectOutcome::NotCallOwner
                }
            },
        }
    }

    /// Decides on a U-RELEASE from `sender` for call `call_id`: in an
    /// individual call it completes the peer release when it is the answer
    /// awaited to D-DISCONNECT (`delivery`, then the call's own disconnect
    /// state); otherwise it is ignored, or refused from a non-party. In a
    /// group call it is ignored from the owner and refused from others.
    pub fn fsm_on_u_release(&self, sender: TetraAddress, call_id: u16, delivery: Option<DisconnectDeliveryWait>) -> (r:
        UReleaseOutcome)
        ensures
            r == u_release_decision(*self, sender.ssi, call_id, delivery),
    {
        match self.individual_calls.get(&call_id) {
            Some(call) => {
                match delivery {
                    Some(d) => {
                        if d.awaiting_release_from == sender.ssi {
                            return UReleaseOutcome::CompletePeerRelease {
                                cause: d.cause,
                                release_to_issi: d.release_to_issi,
                                from_delivery: true,
                            };
                        }
                    },
                    None => {},
                }
                match call.pending_disconnect_release_if_awaited_by(sender.ssi) {
                    Some((cause, release_to_issi)) => {
                        return UReleaseOutcome::CompletePeerRelease { cause, release_to_issi, from_delivery: false };
                    },
                    None => {},
                }
                match call.state {
                    IndividualCallState::DisconnectPending { .. } => {
                        return UReleaseOutcome::IgnoredDisconnecting;
                    },
                    _ => {},
                }
                if call.peer_issi_for(sender.ssi).is_none() {
                    return UReleaseOutcome::NotParticipant;
                }
                UReleaseOutcome::IgnoredActive
            },
            None => {
                if !self.active_calls.contains_key(&call_id) {
                    return UReleaseOutcome::UnknownCall;
                }
                if self.is_group_call_owner(call_id, sender.ssi) {
                    UReleaseOutcome::IgnoredGroupOwner
                } else {
                    UReleaseOutcome::NotCallOwner
                }
            },
        }
    }
}

/// In a local active call, a U-DISCONNECT and the U-RELEASE it leads to fit
/// together: when the peer was sent D-DISCONNECT and its delivery is awaited,
/// the peer's U-RELEASE completes the release towards the station that
/// disconnected.
pub proof fn lemma_disconnect_then_peer_release_completes(
    cc: CcBsSubentity,
    sender: u32,
    call_id: u16,
    cause: DisconnectCause,
)
    requires
        u_disconnect_decision(cc, sender, call_id, false, false) is DisconnectPeer,
    ensures
        ({
            let peer = u_disconnect_decision(cc, sender, call_id, false, false)->DisconnectPeer_peer_issi;
            let wait = DisconnectDeliveryWait { awaiting_release_from: peer, release_to_issi: sender, cause };
            u_release_decision(cc, peer, call_id, Some(wait)) == (UReleaseOutcome::CompletePeerRelease {
                cause,
                release_to_issi: sender,
                from_delivery: true,
            })
        }),
{
}

/// A U-DISCONNECT from a party of an individual call that is not already
/// disconnecting releases the whole call exactly when a party is reached
/// over the bridge or the call is not yet active. The peer is cleared over
/// the air (D-DISCONNECT to the other party, or after the speech tail
/// drains) only in an active call between two local stations.
pub proof fn lemma_disconnect_over_bridge_releases(
    cc: CcBsSubentity,
    sender: u32,
    call_id: u16,
    tail: bool,
    delivery: bool,
)
    requires
        cc.individual_calls@.contains_key(call_id),
        !(cc.individual_calls@[call_id].state is DisconnectPending),
        sender == cc.individual_calls@[call_id].calling_addr.ssi || sender == cc.individual_calls@[
            call_id
        ].called_addr.ssi,
    ensures
        ({
            let c = cc.individual_calls@[call_id];
            let r = u_disconnect_decision(cc, sender, call_id, tail, delivery);
            let local_active = !c.calling_over_brew && !c.called_over_brew && c.state
                == IndividualCallState::Active;
            &&& (r == UDisconnectOutcome::ReleaseIndividual <==> !local_active)
            &&& (r is DisconnectPeer || r is TailDrain || r is DuplicateWhileClearing) ==> local_active
            &&& (r == UDisconnectOutcome::DuplicateWhileClearing <==> local_active && (tail || delivery))
            &&& local_active && !tail && !delivery && !c.simplex_duplex && c.floor_holder is Some ==> r
                == (UDisconnectOutcome::TailDrain {
                peer_issi: if sender == c.calling_addr.ssi {
                    c.called_addr.ssi
                } else {
                    c.calling_addr.ssi
                },
            })
            &&& local_active && !tail && !delivery && (c.simplex_duplex || c.floor_holder is None) ==> {
                &&& r is DisconnectPeer
                &&& r->target == if sender == c.calling_addr.ssi {
                    c.called_addr
                } else {
                    c.calling_addr
                }
            }
            &&& r matches UDisconnectOutcome::DisconnectPeer { target, .. } ==> target == if sender
                == c.calling_addr.ssi {
                c.called_addr
            } else {
                c.calling_addr
            }
        }),
{
}

/// A station that is no party of an individual call can neither disconnect
/// nor release it, unless the call is already disconnecting.
pub proof fn lemma_strangers_are_refused(cc: CcBsSubentity, sender: u32, call_id: u16, tail: bool, delivery: bool)
    requires
        cc.individual_calls@.contains_key(call_id),
        !(cc.individual_calls@[call_id].state is DisconnectPending),
        sender != cc.individual_calls@[call_id].calling_addr.ssi,
        sender != cc.individual_calls@[call_id].called_addr.ssi,
    ensures
        u_disconnect_decision(cc, sender, call_id, tail, delivery) == UDisconnectOutcome::NotParticipant,
        u_release_decision(cc, sender, call_id, None) == UReleaseOutcome::NotParticipant,
{
}

} // verus!
