//! The speech tail after a U-TX CEASED: the floor is handed on or released
//! only once the last traffic frames of the speaker have drained. Each
//! pending drain is kept per call identifier until it is due, cancelled by a
//! retake of the same speaker, or superseded.

use std::collections::HashMap;
use vstd::prelude::*;

use crate::address::TetraAddress;
use crate::cc_bs::CcBsSubentity;
use crate::disconnect_flow::INDIVIDUAL_SIMPLEX_TAIL_DRAIN_TIMESLOTS;
use crate::floor_activation::PendingGroupFloorActivation;
use crate::tdma::TdmaTime;

verus! {

broadcast use vstd::std_specs::hash::group_hash_axioms;

/// The speech tail of a group call drains for this many timeslots.
pub const GROUP_TX_CEASED_TAIL_DRAIN_TIMESLOTS: i32 = 12;

/// A group floor release waiting for the speaker's tail to drain.
#[derive(Clone, Copy, Debug, PartialEq, Eq, Structural)]
pub struct PendingGroupTxCeasedTailDrain {
    pub call_id: u16,
    pub sender: TetraAddress,
    pub dest_gssi: u32,
    pub ts: u8,
    pub usage: u8,
    pub notify_brew: bool,
    pub started_at: TdmaTime,
}

/// One leg of an individual call: the party and its traffic channel.
#[derive(Clone, Copy, Debug, PartialEq, Eq, Structural)]
pub struct IndividualTailDrainLeg {
    pub addr: TetraAddress,
    pub ts: u8,
    pub usage: u8,
}

/// An individual floor hand-off waiting for the speaker's tail to drain.
#[derive(Clone, Copy, Debug, PartialEq, Eq, Structural)]
pub struct PendingIndividualTxCeasedTailDrain {
    pub call_id: u16,
    pub sender: IndividualTailDrainLeg,
    pub peer: IndividualTailDrainLeg,
    pub notify_brew: bool,
    pub started_at: TdmaTime,
}

impl CcBsSubentity {
    /// Starts the tail drain after the U-TX CEASED of `sender` in group
    /// call `call_id`, unless one is pending (then nothing changes and
    /// `false` comes back); a floor activation still pending for the call
    /// is dropped.
    pub fn begin_group_tx_ceased_tail_drain<R>(
        &self,
        drains: &mut HashMap<u16, PendingGroupTxCeasedTailDrain>,
        activations: &mut HashMap<u16, PendingGroupFloorActivation<R>>,
        call_id: u16,
        sender: TetraAddress,
        dest_gssi: u32,
        ts: u8,
        usage: u8,
        notify_brew: bool,
    ) -> (started: bool)
        ensures
            started == !old(drains)@.contains_key(call_id),
            !started ==> final(drains)@ == old(drains)@ && final(activations)@ == old(activations)@,
            started ==> final(drains)@ == old(drains)@.insert(
                call_id,
                PendingGroupTxCeasedTailDrain {
                    call_id,
                    sender,
                    dest_gssi,
                    ts,
                    usage,
                    notify_brew,
                    started_at: self.dltime,
                },
            ) && final(activations)@ == old(activations)@.remove(call_id),
    {
        if drains.contains_key(&call_id) {
            return false;
        }
        activations.remove(&call_id);
        drains.insert(
            call_id,
            PendingGroupTxCeasedTailDrain { call_id, sender, dest_gssi, ts, usage, notify_brew, started_at: self.dltime },
        );
        true
    }

    /// Starts the tail drain after the U-TX CEASED of `sender` in
    /// individual call `call_id`, unless one is pending (then nothing
    /// changes and `false` comes back).
    pub fn begin_individual_tx_ceased_tail_drain(
        &self,
        drains: &mut HashMap<u16, PendingIndividualTxCeasedTailDrain>,
        call_id: u16,
        sender: IndividualTailDrainLeg,
        peer: IndividualTailDrainLeg,
        notify_brew: bool,
    ) -> (started: bool)
        ensures
            started == !old(drains)@.contains_key(call_id),
            !started ==> final(drains)@ == old(drains)@,
            started ==> final(drains)@ == old(drains)@.insert(
                call_id,
                PendingIndividualTxCeasedTailDrain { call_id, sender, peer, notify_brew, started_at: self.dltime },
            ),
    {
        if drains.contains_key(&call_id) {
            return false;
        }
        drains.insert(
            call_id,
            PendingIndividualTxCeasedTailDrain { call_id, sender, peer, notify_brew, started_at: self.dltime },
        );
        true
    }

    /// The group tail drain of call `call_id`, taken from the table once
    /// it is due; the floor change it waited for then completes.
    pub fn drain_pending_group_tx_ceased_tail_drains(
        &self,
        drains: &mut HashMap<u16, PendingGroupTxCeasedTailDrain>,
        call_id: u16,
    ) -> (r: Option<PendingGroupTxCeasedTailDrain>)
        ensures
            ({
                let t = old(drains)@;
                if t.contains_key(call_id) && t[call_id].started_at.age_spec(self.dltime)
                    >= GROUP_TX_CEASED_TAIL_DRAIN_TIMESLOTS {
                    r == Some(t[call_id]) && final(drains)@ == t.remove(call_id)
                } else {
                    r is None && final(drains)@ == t
                }
            }),
    {
        let due = match drains.get(&call_id) {
            Some(p) => p.started_at.age(self.dltime) >= GROUP_TX_CEASED_TAIL_DRAIN_TIMESLOTS,
            None => false,
        };
        if !due {
            return None;
        }
        drains.remove(&call_id)
    }

    /// The individual tail drain of call `call_id`, taken from the table
    /// once it is due; the floor hand-off it waited for then completes.
    pub fn drain_pending_individual_tx_ceased_tail_drains(
        &self,
        drains: &mut HashMap<u16, PendingIndividualTxCeasedTailDrain>,
        call_id: u16,
    ) -> (r: Option<PendingIndividualTxCeasedTailDrain>)
        ensures
            ({
                let t = old(drains)@;
                if t.contains_key(call_id) && t[call_id].started_at.age_spec(self.dltime)
                    >= INDIVIDUAL_SIMPLEX_TAIL_DRAIN_TIMESLOTS {
                    r == Some(t[call_id]) && final(drains)@ == t.remove(call_id)
                } else {
                    r is None && final(drains)@ == t
                }
            }),
    {
        let due = match drains.get(&call_id) {
            Some(p) => p.started_at.age(self.dltime) >= INDIVIDUAL_SIMPLEX_TAIL_DRAIN_TIMESLOTS,
            None => false,
        };
        if !due {
            return None;
        }
        drains.remove(&call_id)
    }

    /// Drops the group tail drain of call `call_id`; whether there was one.
    pub fn cancel_group_tx_ceased_tail_drain(
        &self,
        drains: &mut HashMap<u16, PendingGroupTxCeasedTailDrain>,
        call_id: u16,
    ) -> (r: bool)
        ensures
            r == old(drains)@.contains_key(call_id),
            final(drains)@ == old(drains)@.remove(call_id),
    {
        match drains.remove(&call_id) {
            Some(_) => true,
            None => false,
        }
    }

    /// Drops the group tail drain of call `call_id` when `sender_issi` is
    /// the speaker it waits for (the speaker took the floor back); whether
    /// it did.
    pub fn cancel_matching_group_tx_ceased_tail_drain(
        &self,
        drains: &mut HashMap<u16, PendingGroupTxCeasedTailDrain>,
        call_id: u16,
        sender_issi: u32,
    ) -> (r: bool)
        ensures
            r == (old(drains)@.contains_key(call_id) && old(drains)@[call_id].sender.ssi == sender_issi),
            r ==> final(drains)@ == old(drains)@.remove(call_id),
            !r ==> final(drains)@ == old(drains)@,
    {
        let matching = match drains.get(&call_id) {
            Some(p) => p.sender.ssi == sender_issi,
            None => false,
        };
        if !matching {
            return false;
        }
        self.cancel_group_tx_ceased_tail_drain(drains, call_id)
    }

    /// Drops the individual tail drain of call `call_id` when
    /// `sender_issi` is the speaker it waits for; whether it did.
    pub fn cancel_matching_individual_tx_ceased_tail_drain(
        &self,
        drains: &mut HashMap<u16, PendingIndividualTxCeasedTailDrain>,
        call_id: u16,
        sender_issi: u32,
    ) -> (r: bool)
        ensures
            r == (old(drains)@.contains_key(call_id) && old(drains)@[call_id].sender.addr.ssi == sender_issi),
            r ==> final(drains)@ == old(drains)@.remove(call_id),
            !r ==> final(drains)@ == old(drains)@,
    {
        let matching = match drains.get(&call_id) {
            Some(p) => p.sender.addr.ssi == sender_issi,
            None => false,
        };
        if !matching {
            return false;
        }
        match drains.remove(&call_id) {
            Some(_) => true,
            None => false,
        }
    }
}

} // verus!
