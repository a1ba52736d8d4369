//! Activation of a granted group floor behind the air interface (EN 300
//! 392-2 clause 14.5.2.2.1): the lower MAC and the bridge learn of a new
//! speaker only once the D-TX GRANTED (or, for a network call, the setup
//! signalling) was transmitted. Each pending activation waits, keyed by
//! call identifier, with the transmission reporters of its PDUs.

use std::collections::HashMap;
use vstd::prelude::*;

use crate::call::{ActiveCall, DisconnectCause};
use crate::cc_bs::CcBsSubentity;
use crate::tdma::TdmaTime;

verus! {

broadcast use vstd::std_specs::hash::group_hash_axioms;

/// A network group call whose setup signalling was not transmitted within
/// this many timeslots is released.
pub const NETWORK_GROUP_READY_PENDING_TIMEOUT_TIMESLOTS: i32 = 144;

/// A floor grant waiting for its D-TX GRANTED to go out; `R` is the
/// transmission reporter of one copy.
pub struct PendingGroupFloorActivation<R> {
    pub call_id: u16,
    pub source_issi: u32,
    pub dest_gssi: u32,
    pub ts: u8,
    pub reporters: Vec<R>,
    /// The bridge is told of the new speaker too.
    pub notify_brew: bool,
    pub started_at: TdmaTime,
}

/// A network group call waiting for its setup signalling to go out.
pub struct PendingNetworkGroupReady<R> {
    pub brew_uuid: u128,
    pub call_id: u16,
    pub source_issi: u32,
    pub dest_gssi: u32,
    pub ts: u8,
    pub usage: u8,
    pub reporters: Vec<R>,
    /// The new speaker is announced.
    pub notify_speaker_changed: bool,
    pub started_at: TdmaTime,
}

/// What a completed floor activation tells the lower MAC (which takes its
/// downlink media from local loopback) and, when `notify_brew`, the bridge.
#[derive(Clone, Copy, Debug, PartialEq, Eq, Structural)]
pub struct FloorActivation {
    pub call_id: u16,
    pub source_issi: u32,
    pub dest_gssi: u32,
    pub ts: u8,
    pub notify_brew: bool,
}

/// What a completed network group ready tells the lower MAC (which takes
/// its downlink media from the network) and the bridge.
#[derive(Clone, Copy, Debug, PartialEq, Eq, Structural)]
pub struct NetworkGroupReady {
    pub brew_uuid: u128,
    pub call_id: u16,
    pub source_issi: u32,
    pub dest_gssi: u32,
    pub ts: u8,
    pub usage: u8,
    pub notify_speaker_changed: bool,
}

/// The next step of a pending floor activation.
#[derive(Clone, Copy, Debug, PartialEq, Eq, Structural)]
pub enum FloorActivationStep {
    /// Nothing transmitted yet; the activation waits.
    Waiting,
    /// A copy was transmitted: the activation leaves the table, and
    /// announces the grant unless the call moved on (`None`).
    Completed { activation: Option<FloorActivation> },
    /// Every copy was discarded: the activation leaves the table and the
    /// speaker it named, if still current, goes into hangtime.
    Suppressed { hangtime: bool },
}

/// The next step of a pending network group ready.
#[derive(Clone, Copy, Debug, PartialEq, Eq, Structural)]
pub enum NetworkGroupReadyStep {
    /// Nothing transmitted yet; the guard waits.
    Waiting,
    /// Transmitted (or nothing to wait for): the guard leaves the table,
    /// and the call is announced ready unless it moved on (`None`).
    Completed { ready: Option<NetworkGroupReady> },
    /// Never transmitted in time: the guard leaves the table and the call
    /// is released with this cause.
    ReleaseCall { cause: DisconnectCause },
}

/// Group call `c` still has `source` as speaker on group `gssi` and
/// timeslot `ts`.
pub open spec fn speaker_still(c: ActiveCall, source: u32, gssi: u32, ts: u8) -> bool {
    c.tx_active && c.source_issi == source && c.dest_gssi == gssi && c.ts == ts
}

/// The announcement of floor activation `p` against the call table `calls`.
pub open spec fn floor_activation_of<R>(calls: Map<u16, ActiveCall>, p: PendingGroupFloorActivation<R>) -> Option<
    FloorActivation,
> {
    if calls.contains_key(p.call_id) && speaker_still(calls[p.call_id], p.source_issi, p.dest_gssi, p.ts) {
        Some(
            FloorActivation {
                call_id: p.call_id,
                source_issi: p.source_issi,
                dest_gssi: p.dest_gssi,
                ts: p.ts,
                notify_brew: p.notify_brew,
            },
        )
    } else {
        None
    }
}

/// The announcement of network group ready `p` against the call table.
pub open spec fn network_ready_of<R>(calls: Map<u16, ActiveCall>, p: PendingNetworkGroupReady<R>) -> Option<
    NetworkGroupReady,
> {
    if calls.contains_key(p.call_id) && speaker_still(calls[p.call_id], p.source_issi, p.dest_gssi, p.ts)
        && calls[p.call_id].usage == p.usage && calls[p.call_id].brew_uuid == Some(p.brew_uuid) {
        Some(
            NetworkGroupReady {
                brew_uuid: p.brew_uuid,
                call_id: p.call_id,
                source_issi: p.source_issi,
                dest_gssi: p.dest_gssi,
                ts: p.ts,
                usage: p.usage,
                notify_speaker_changed: p.notify_speaker_changed,
            },
        )
    } else {
        None
    }
}

/// The activation that grant `source` on group `gssi` and timeslot `ts`
/// joins: a pending one for the same speaker, group and timeslot.
pub open spec fn joins<R>(
    table: Map<u16, PendingGroupFloorActivation<R>>,
    call_id: u16,
    source: u32,
    gssi: u32,
    ts: u8,
) -> bool {
    table.contains_key(call_id) && table[call_id].source_issi == source && table[call_id].dest_gssi == gssi
        && table[call_id].ts == ts
}

impl CcBsSubentity {
    /// Records that the grant of the floor of call `call_id` to
    /// `source_issi` waits for the D-TX GRANTED reported by `reporter`. A
    /// pending activation for the same speaker, group and timeslot gains
    /// the reporter (and the bridge notice, when asked); any other is
    /// replaced by a new one started now.
    pub fn queue_group_floor_activation<R>(
        &self,
        table: &mut HashMap<u16, PendingGroupFloorActivation<R>>,
        call_id: u16,
        source_issi: u32,
        dest_gssi: u32,
        ts: u8,
        reporter: R,
        notify_brew: bool,
    )
        ensures
            final(table)@.dom() == old(table)@.dom().insert(call_id),
            forall|k: u16| k != call_id && old(table)@.contains_key(k) ==> #[trigger] final(table)@[k] == old(table)@[k],
            ({
                let p = final(table)@[call_id];
                &&& p.call_id == (if joins(old(table)@, call_id, source_issi, dest_gssi, ts) {
                    old(table)@[call_id].call_id
                } else {
                    call_id
                })
                &&& p.source_issi == source_issi
                &&& p.dest_gssi == dest_gssi
                &&& p.ts == ts
                &&& if joins(old(table)@, call_id, source_issi, dest_gssi, ts) {
                    let q = old(table)@[call_id];
                    &&& p.reporters@ == q.reporters@.push(reporter)
                    &&& p.notify_brew == (q.notify_brew || notify_brew)
                    &&& p.started_at == q.started_at
                } else {
                    &&& p.reporters@ == seq![reporter]
                    &&& p.notify_brew == notify_brew
                    &&& p.started_at == self.dltime
                }
            }),
    {
        let joined = match table.get(&call_id) {
            Some(p) => p.source_issi == source_issi && p.dest_gssi == dest_gssi && p.ts == ts,
            None => false,
        };
        if joined {
            match table.remove(&call_id) {
                Some(mut p) => {
                    p.reporters.push(reporter);
                    p.notify_brew = p.notify_brew || notify_brew;
                    table.insert(call_id, p);
                },
                None => {},
            }
            return;
        }
        table.insert(
            call_id,
            PendingGroupFloorActivation {
                call_id,
                source_issi,
                dest_gssi,
                ts,
                reporters: vec![reporter],
                notify_brew,
                started_at: self.dltime,
            },
        );
    }

    /// Drops the pending floor activation of call `call_id`; whether there
    /// was one.
    pub fn cancel_group_floor_activation<R>(
        &self,
        table: &mut HashMap<u16, PendingGroupFloorActivation<R>>,
        call_id: u16,
    ) -> (r: bool)
        ensures
            r == old(table)@.contains_key(call_id),
            final(table)@ == old(table)@.remove(call_id),
    {
        match table.remove(&call_id) {
            Some(_) => true,
            None => false,
        }
    }

    /// The announcement of a transmitted floor activation: the grant, when
    /// the call still has the activation's speaker on its group and
    /// timeslot; nothing when the call ended or moved on.
    pub fn complete_group_floor_activation<R>(&self, pending: &PendingGroupFloorActivation<R>) -> (r: Option<
        FloorActivation,
    >)
        ensures
            r == floor_activation_of(self.active_calls@, *pending),
    {
        match self.active_calls.get(&pending.call_id) {
            Some(call) => {
                if call.is_current_speaker(pending.source_issi) && call.dest_gssi == pending.dest_gssi && call.ts
                    == pending.ts {
                    Some(
                        FloorActivation {
                            call_id: pending.call_id,
                            source_issi: pending.source_issi,
                            dest_gssi: pending.dest_gssi,
                            ts: pending.ts,
                            notify_brew: pending.notify_brew,
                        },
                    )
                } else {
                    None
                }
            },
            None => None,
        }
    }

    /// Advances the pending floor activation of call `call_id` given what
    /// its reporters say: one copy transmitted (`any_transmitted`) completes
    /// it; every copy discarded (`all_discarded`) suppresses it and puts its
    /// speaker, if still current, into hangtime; else it waits. A completed
    /// or suppressed activation leaves the table.
    pub fn drain_pending_group_floor_activations<R>(
        &mut self,
        table: &mut HashMap<u16, PendingGroupFloorActivation<R>>,
        call_id: u16,
        any_transmitted: bool,
        all_discarded: bool,
    ) -> (r: FloorActivationStep)
        ensures
            old(self).individual_calls_wf() ==> final(self).individual_calls_wf(),
            final(self).dltime == old(self).dltime,
            final(self).circuits == old(self).circuits,
            final(self).individual_calls == old(self).individual_calls,
            final(self).subscriber_groups == old(self).subscriber_groups,
            final(self).group_listeners == old(self).group_listeners,
            final(self).external_subscriber_groups == old(self).external_subscriber_groups,
            final(self).external_group_listeners == old(self).external_group_listeners,
            final(self).parrot_session == old(self).parrot_session,
            ({
                let t = old(table)@;
                let calls = old(self).active_calls@;
                if !t.contains_key(call_id) {
                    r == FloorActivationStep::Waiting && final(table)@ == t && final(self).active_calls@ == calls
                } else {
                    let p = t[call_id];
                    if any_transmitted {
                        &&& r == FloorActivationStep::Completed { activation: floor_activation_of(calls, p) }
                        &&& final(table)@ == t.remove(call_id)
                        &&& final(self).active_calls@ == calls
                    } else if p.reporters@.len() > 0 && all_discarded {
                        let hang = calls.contains_key(p.call_id) && speaker_still(
                            calls[p.call_id],
                            p.source_issi,
                            p.dest_gssi,
                            p.ts,
                        );
                        &&& r == FloorActivationStep::Suppressed { hangtime: hang }
                        &&& final(table)@ == t.remove(call_id)
                        &&& final(self).active_calls@ == if hang {
                            calls.insert(
                                p.call_id,
                                ActiveCall {
                                    tx_active: false,
                                    hangtime_start: Some(old(self).dltime),
                                    ..calls[p.call_id]
                                },
                            )
                        } else {
                            calls
                        }
                    } else {
                        r == FloorActivationStep::Waiting && final(table)@ == t && final(self).active_calls@ == calls
                    }
                }
            }),
    {
        let ready = match table.get(&call_id) {
            Some(p) => any_transmitted || (p.reporters.len() > 0 && all_discarded),
            None => false,
        };
        if !ready {
            return FloorActivationStep::Waiting;
        }
        let pending = match table.remove(&call_id) {
            Some(p) => p,
            None => {
                return FloorActivationStep::Waiting;
            },
        };
        if any_transmitted {
            let activation = self.complete_group_floor_activation(&pending);
            return FloorActivationStep::Completed { activation };
        }
        let hang = match self.active_calls.get(&pending.call_id) {
            Some(call) => call.is_current_speaker(pending.source_issi) && call.dest_gssi == pending.dest_gssi
                && call.ts == pending.ts,
            None => false,
        };
        if hang {
            let now = self.dltime;
            match self.active_calls.remove(&pending.call_id) {
                Some(mut call) => {
                    call.enter_hangtime(now);
                    self.active_calls.insert(pending.call_id, call);
                },
                None => {},
            }
        }
        FloorActivationStep::Suppressed { hangtime: hang }
    }

    /// Records that network group call `call_id` (bridge UUID `brew_uuid`)
    /// waits for its setup signalling, reported by `reporters`; it replaces
    /// any pending one of the call. Whether one was replaced.
    pub fn queue_network_group_ready<R>(
        &self,
        table: &mut HashMap<u16, PendingNetworkGroupReady<R>>,
        call_id: u16,
        brew_uuid: u128,
        source_issi: u32,
        dest_gssi: u32,
        ts: u8,
        usage: u8,
        reporters: Vec<R>,
        notify_speaker_changed: bool,
    ) -> (replaced: bool)
        ensures
            replaced == old(table)@.contains_key(call_id),
            final(table)@.dom() == old(table)@.dom().insert(call_id),
            forall|k: u16| k != call_id && old(table)@.contains_key(k) ==> #[trigger] final(table)@[k] == old(table)@[k],
            ({
                let p = final(table)@[call_id];
                &&& p.brew_uuid == brew_uuid
                &&& p.call_id == call_id
                &&& p.source_issi == source_issi
                &&& p.dest_gssi == dest_gssi
                &&& p.ts == ts
                &&& p.usage == usage
                &&& p.reporters@ == reporters@
                &&& p.notify_speaker_changed == notify_speaker_changed
                &&& p.started_at == self.dltime
            }),
    {
        let replaced = table.contains_key(&call_id);
        table.insert(
            call_id,
            PendingNetworkGroupReady {
                brew_uuid,
                call_id,
                source_issi,
                dest_gssi,
                ts,
                usage,
                reporters,
                notify_speaker_changed,
                started_at: self.dltime,
            },
        );
        replaced
    }

    /// Drops the pending network group ready of call `call_id`; whether
    /// there was one.
    pub fn cancel_network_group_ready<R>(
        &self,
        table: &mut HashMap<u16, PendingNetworkGroupReady<R>>,
        call_id: u16,
    ) -> (r: bool)
        ensures
            r == old(table)@.contains_key(call_id),
            final(table)@ == old(table)@.remove(call_id),
    {
        match table.remove(&call_id) {
            Some(_) => true,
            None => false,
        }
    }

    /// The announcement of a transmitted network group ready: the call is
    /// ready when it still has the guard's speaker, group, timeslot, usage
    /// and bridge UUID; nothing when it ended or moved on.
    pub fn complete_network_group_ready<R>(&self, pending: &PendingNetworkGroupReady<R>) -> (r: Option<
        NetworkGroupReady,
    >)
        ensures
            r == network_ready_of(self.active_calls@, *pending),
    {
        match self.active_calls.get(&pending.call_id) {
            Some(call) => {
                let same_uuid = match call.brew_uuid {
                    Some(u) => u == pending.brew_uuid,
                    None => false,
                };
                if call.is_current_speaker(pending.source_issi) && call.dest_gssi == pending.dest_gssi && call.ts
                    == pending.ts && call.usage == pending.usage && same_uuid {
                    Some(
                        NetworkGroupReady {
                            brew_uuid: pending.brew_uuid,
                            call_id: pending.call_id,
                            source_issi: pending.source_issi,
                            dest_gssi: pending.dest_gssi,
                            ts: pending.ts,
                            usage: pending.usage,
                            notify_speaker_changed: pending.notify_speaker_changed,
                        },
                    )
                } else {
                    None
                }
            },
            None => None,
        }
    }

    /// Advances the pending network group ready of call `call_id`: with
    /// nothing to wait for, or one copy transmitted (`any_transmitted`), it
    /// completes; with every copy discarded (`all_discarded`) or its time
    /// out reached, the call is released (acknowledged service not
    /// complete); else it waits. A completed or released guard leaves the
    /// table.
    pub fn drain_pending_network_group_readies<R>(
        &self,
        table: &mut HashMap<u16, PendingNetworkGroupReady<R>>,
        call_id: u16,
        any_transmitted: bool,
        all_discarded: bool,
    ) -> (r: NetworkGroupReadyStep)
        ensures
            ({
                let t = old(table)@;
                if !t.contains_key(call_id) {
                    r == NetworkGroupReadyStep::Waiting && final(table)@ == t
                } else {
                    let p = t[call_id];
                    if p.reporters@.len() == 0 || any_transmitted {
                        &&& r == NetworkGroupReadyStep::Completed {
                            ready: network_ready_of(self.active_calls@, p),
                        }
                        &&& final(table)@ == t.remove(call_id)
                    } else if all_discarded || p.started_at.age_spec(self.dltime)
                        >= NETWORK_GROUP_READY_PENDING_TIMEOUT_TIMESLOTS {
                        &&& r == NetworkGroupReadyStep::ReleaseCall {
                            cause: DisconnectCause::AcknowledgedServiceNotComplete,
                        }
                        &&& final(table)@ == t.remove(call_id)
                    } else {
                        r == NetworkGroupReadyStep::Waiting && final(table)@ == t
                    }
                }
            }),
    {
        let (complete, release) = match table.get(&call_id) {
            Some(p) => {
                let c = p.reporters.len() == 0 || any_transmitted;
                let g = !c && (all_discarded || p.started_at.age(self.dltime)
                    >= NETWORK_GROUP_READY_PENDING_TIMEOUT_TIMESLOTS);
                (c, g)
            },
            None => (false, false),
        };
        if !complete && !release {
            return NetworkGroupReadyStep::Waiting;
        }
        let pending = match table.remove(&call_id) {
            Some(p) => p,
            None => {
                return NetworkGroupReadyStep::Waiting;
            },
        };
        if complete {
            let ready = self.complete_network_group_ready(&pending);
            NetworkGroupReadyStep::Completed { ready }
        } else {
            NetworkGroupReadyStep::ReleaseCall { cause: DisconnectCause::AcknowledgedServiceNotComplete }
        }
    }
}

} // verus!
