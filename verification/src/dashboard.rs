//! Queries of the call tables for the operator dashboard and the recorder,
//! and the hand-off of uplink speech frames to the parrot test service.

use std::collections::HashMap;
use vstd::prelude::*;

use crate::call::{ActiveCall, CallOrigin, IndividualCall, IndividualCallState};
use crate::cc_bs::CcBsSubentity;
use crate::parrot::{PARROT_MAX_FRAMES, ParrotFrame, ParrotSession, ParrotState, PhyBlockNum};
use crate::teardown::assigned;
use crate::timers::{CallFilter, collect_keys};

verus! {

broadcast use vstd::std_specs::hash::group_hash_axioms;

/// Every entry.
pub struct AnyCall;

impl<V> CallFilter<V> for AnyCall {
    open spec fn holds(&self, k: u16, v: V) -> bool {
        true
    }

    fn check(&self, k: u16, v: &V) -> (b: bool) {
        true
    }
}

/// Group calls on timeslot `ts`.
pub struct GroupOnTs {
    pub ts: u8,
}

impl CallFilter<ActiveCall> for GroupOnTs {
    open spec fn holds(&self, k: u16, v: ActiveCall) -> bool {
        v.ts == self.ts
    }

    fn check(&self, k: u16, v: &ActiveCall) -> (b: bool) {
        v.ts == self.ts
    }
}

/// Individual calls holding their traffic channels, one of them on
/// timeslot `ts`.
pub struct IndividualOnTs {
    pub ts: u8,
}

impl CallFilter<IndividualCall> for IndividualOnTs {
    open spec fn holds(&self, k: u16, v: IndividualCall) -> bool {
        assigned(v) && (v.calling_ts == self.ts || v.called_ts == self.ts)
    }

    fn check(&self, k: u16, v: &IndividualCall) -> (b: bool) {
        v.has_assigned_circuit() && (v.calling_ts == self.ts || v.called_ts == self.ts)
    }
}

/// The dashboard line of group call `id`: the group, the local caller (0
/// for a network call) and whether someone speaks.
pub open spec fn group_line(id: u16, c: ActiveCall) -> (u16, u32, u32, bool) {
    (
        id,
        c.dest_gssi,
        match c.origin {
            CallOrigin::Local { caller_addr } => caller_addr.ssi,
            CallOrigin::Network { .. } => 0,
        },
        c.tx_active,
    )
}

/// The dashboard line of individual call `id`: caller, called party and
/// whether the call is simplex.
pub open spec fn individual_line(id: u16, c: IndividualCall) -> (u16, u32, u32, bool) {
    (id, c.calling_addr.ssi, c.called_addr.ssi, !c.simplex_duplex)
}

/// Individual calls in the active state.
pub struct ActiveIndividual;

impl CallFilter<IndividualCall> for ActiveIndividual {
    open spec fn holds(&self, k: u16, v: IndividualCall) -> bool {
        v.state == IndividualCallState::Active
    }

    fn check(&self, k: u16, v: &IndividualCall) -> (b: bool) {
        v.is_active()
    }
}

/// Individual calls with a transmit request waiting.
pub struct WaitingIndividual;

impl CallFilter<IndividualCall> for WaitingIndividual {
    open spec fn holds(&self, k: u16, v: IndividualCall) -> bool {
        v.queued_tx_demand is Some
    }

    fn check(&self, k: u16, v: &IndividualCall) -> (b: bool) {
        v.queued_tx_demand.is_some()
    }
}

/// Sizes of the pending-procedure tables kept beside the call tables.
#[derive(Clone, Copy, Debug, PartialEq, Eq, Structural)]
pub struct PendingTableSizes {
    pub group_releases: usize,
    pub group_floor_activations: usize,
    pub network_group_readies: usize,
    pub individual_releases: usize,
    pub network_individual_connects: usize,
    pub individual_disconnect_tail_drains: usize,
    pub individual_disconnect_deliveries: usize,
    pub individual_disconnect_release_acks: usize,
    pub individual_tx_ceased_tail_drains: usize,
}

/// Load figures of the call control entity for health reporting.
#[derive(Clone, Copy, Debug, PartialEq, Eq, Structural)]
pub struct CmceHealthStats {
    pub active_group_calls: usize,
    pub pending_group_releases: usize,
    pub pending_group_floor_activations: usize,
    pub pending_network_group_readies: usize,
    /// Stations waiting for the floor over all group calls.
    pub group_floor_waiters: usize,
    pub active_individual_calls: usize,
    /// Individual calls not (yet or any more) active.
    pub pending_individual_calls: usize,
    pub pending_individual_releases: usize,
    pub pending_network_individual_connects: usize,
    /// Disconnects under way in any of their steps.
    pub pending_individual_disconnects: usize,
    /// Individual calls with a transmit request waiting.
    pub individual_floor_waiters: usize,
}

/// Stations waiting for the floor in the group calls `ids` of `m`.
pub open spec fn waiters_in(ids: Seq<u16>, m: Map<u16, ActiveCall>) -> int
    decreases ids.len(),
{
    if ids.len() == 0 {
        0
    } else {
        waiters_in(ids.drop_last(), m) + m[ids.last()].queued_floor_demands@.len()
    }
}

proof fn lemma_waiters_nonneg(ids: Seq<u16>, m: Map<u16, ActiveCall>)
    ensures
        waiters_in(ids, m) >= 0,
    decreases ids.len(),
{
    if ids.len() > 0 {
        lemma_waiters_nonneg(ids.drop_last(), m);
    }
}

/// `x`, or the largest `usize` when it does not fit.
pub open spec fn saturated(x: int) -> usize {
    if x <= usize::MAX {
        x as usize
    } else {
        usize::MAX
    }
}

/// The keys of `m` whose entries are in `state` (by `f`).
pub open spec fn keys_where<V>(m: Map<u16, V>, f: spec_fn(V) -> bool) -> Set<u16> {
    m.dom().filter(|id: u16| f(m[id]))
}

impl CcBsSubentity {
    /// One line per group call, in no particular order.
    pub fn active_calls_snapshot(&self) -> (r: Vec<(u16, u32, u32, bool)>)
        ensures
            r@.len() == self.active_calls@.dom().len(),
            forall|i: int|
                0 <= i < r@.len() ==> self.active_calls@.contains_key((#[trigger] r@[i]).0) && r@[i] == group_line(
                    r@[i].0,
                    self.active_calls@[r@[i].0],
                ),
            forall|id: u16| self.active_calls@.contains_key(id) ==> exists|i: int| 0 <= i < r@.len() && (#[trigger] r@[i]).0 == id,
            forall|i: int, j: int| 0 <= i < j < r@.len() ==> (#[trigger] r@[i]).0 != (#[trigger] r@[j]).0,
    {
        let ids = collect_keys(&self.active_calls, &AnyCall);
        let mut out: Vec<(u16, u32, u32, bool)> = Vec::new();
        let mut i: usize = 0;
        while i < ids.len()
            invariant
                0 <= i <= ids@.len(),
                ids@.no_duplicates(),
                forall|id: u16| #[trigger] ids@.contains(id) <==> self.active_calls@.contains_key(id),
                out@.len() == i,
                forall|j: int| 0 <= j < i ==> (#[trigger] out@[j]).0 == ids@[j],
                forall|j: int|
                    0 <= j < i ==> #[trigger] out@[j] == group_line(ids@[j], self.active_calls@[ids@[j]]),
            decreases ids@.len() - i,
        {
            let id = ids[i];
            assert(ids@.contains(id));
            match self.active_calls.get(&id) {
                Some(c) => {
                    let caller = match &c.origin {
                        CallOrigin::Local { caller_addr } => caller_addr.ssi,
                        CallOrigin::Network { .. } => 0,
                    };
                    out.push((id, c.dest_gssi, caller, c.tx_active));
                },
                None => {},
            }
            i = i + 1;
        }
        proof {
            assert forall|id: u16| self.active_calls@.contains_key(id) implies exists|i: int|
                0 <= i < out@.len() && (#[trigger] out@[i]).0 == id by {
                assert(ids@.contains(id));
                let k = choose|k: int| 0 <= k < ids@.len() && ids@[k] == id;
                assert(out@[k].0 == id);
            }
            assert forall|i: int| 0 <= i < out@.len() implies self.active_calls@.contains_key((#[trigger] out@[i]).0)
                && out@[i] == group_line(out@[i].0, self.active_calls@[out@[i].0]) by {
                assert(ids@.contains(ids@[i]));
            }
            ids@.unique_seq_to_set();
            assert(ids@.to_set() =~= self.active_calls@.dom());
        }
        out
    }

    /// One line per individual call, in no particular order.
    pub fn individual_calls_snapshot(&self) -> (r: Vec<(u16, u32, u32, bool)>)
        ensures
            r@.len() == self.individual_calls@.dom().len(),
            forall|i: int|
                0 <= i < r@.len() ==> self.individual_calls@.contains_key((#[trigger] r@[i]).0) && r@[i]
                    == individual_line(r@[i].0, self.individual_calls@[r@[i].0]),
            forall|id: u16|
                self.individual_calls@.contains_key(id) ==> exists|i: int| 0 <= i < r@.len() && (#[trigger] r@[i]).0 == id,
            forall|i: int, j: int| 0 <= i < j < r@.len() ==> (#[trigger] r@[i]).0 != (#[trigger] r@[j]).0,
    {
        let ids = collect_keys(&self.individual_calls, &AnyCall);
        let mut out: Vec<(u16, u32, u32, bool)> = Vec::new();
        let mut i: usize = 0;
        while i < ids.len()
            invariant
                0 <= i <= ids@.len(),
                ids@.no_duplicates(),
                forall|id: u16| #[trigger] ids@.contains(id) <==> self.individual_calls@.contains_key(id),
                out@.len() == i,
                forall|j: int| 0 <= j < i ==> (#[trigger] out@[j]).0 == ids@[j],
                forall|j: int|
                    0 <= j < i ==> #[trigger] out@[j] == individual_line(ids@[j], self.individual_calls@[ids@[j]]),
            decreases ids@.len() - i,
        {
            let id = ids[i];
            assert(ids@.contains(id));
            match self.individual_calls.get(&id) {
                Some(c) => {
                    out.push((id, c.calling_addr.ssi, c.called_addr.ssi, !c.simplex_duplex));
                },
                None => {},
            }
            i = i + 1;
        }
        proof {
            assert forall|id: u16| self.individual_calls@.contains_key(id) implies exists|i: int|
                0 <= i < out@.len() && (#[trigger] out@[i]).0 == id by {
                assert(ids@.contains(id));
                let k = choose|k: int| 0 <= k < ids@.len() && ids@[k] == id;
                assert(out@[k].0 == id);
            }
            assert forall|i: int| 0 <= i < out@.len() implies self.individual_calls@.contains_key(
                (#[trigger] out@[i]).0,
            ) && out@[i] == individual_line(out@[i].0, self.individual_calls@[out@[i].0]) by {
                assert(ids@.contains(ids@[i]));
            }
            ids@.unique_seq_to_set();
            assert(ids@.to_set() =~= self.individual_calls@.dom());
        }
        out
    }

    /// The call occupying timeslot `ts`: a group call on it, else an
    /// individual call holding its traffic channels with a leg on it; none
    /// when the timeslot is idle.
    pub fn call_id_for_ts(&self, ts: u8) -> (r: Option<u16>)
        ensures
            ({
                let g = self.active_calls@;
                let m = self.individual_calls@;
                let group_hit = exists|id: u16| g.contains_key(id) && (#[trigger] g[id]).ts == ts;
                let ind_hit = exists|id: u16|
                    m.contains_key(id) && assigned(#[trigger] m[id]) && (m[id].calling_ts == ts || m[id].called_ts
                        == ts);
                &&& r is None <==> !group_hit && !ind_hit
                &&& group_hit ==> (r matches Some(id) && g.contains_key(id) && g[id].ts == ts)
                &&& !group_hit && ind_hit ==> (r matches Some(id) && m.contains_key(id) && assigned(m[id]) && (
                m[id].calling_ts == ts || m[id].called_ts == ts))
            }),
    {
        let groups = collect_keys(&self.active_calls, &GroupOnTs { ts });
        if groups.len() > 0 {
            let id = groups[0];
            assert(groups@.contains(id));
            return Some(id);
        }
        proof {
            assert forall|id: u16| self.active_calls@.contains_key(id) implies (#[trigger] self.active_calls@[id]).ts
                != ts by {
                if self.active_calls@[id].ts == ts {
                    assert(groups@.contains(id));
                }
            }
        }
        let individuals = collect_keys(&self.individual_calls, &IndividualOnTs { ts });
        if individuals.len() > 0 {
            let id = individuals[0];
            assert(individuals@.contains(id));
            return Some(id);
        }
        proof {
            assert forall|id: u16| self.individual_calls@.contains_key(id) && assigned(
                #[trigger] self.individual_calls@[id],
            ) implies !(self.individual_calls@[id].calling_ts == ts || self.individual_calls@[id].called_ts
                == ts) by {
                if self.individual_calls@[id].calling_ts == ts || self.individual_calls@[id].called_ts == ts {
                    assert(individuals@.contains(id));
                }
            }
        }
        None
    }

    /// Offers an uplink speech frame on timeslot `ts` to the parrot
    /// session: it is the session's (`true`) when the session runs on that
    /// timeslot, and is recorded as the session's own rule says.
    pub fn handle_parrot_ul_frame(&mut self, ts: u8, data: Vec<u8>, raw_tch_s_block: Option<PhyBlockNum>) -> (r: bool)
        ensures
            old(self).individual_calls_wf() ==> final(self).individual_calls_wf(),
            r == (old(self).parrot_session matches Some(s) && s.ts == ts),
            !r ==> final(self).parrot_session == old(self).parrot_session,
            r ==> {
                let s = old(self).parrot_session->0;
                final(self).parrot_session == Some(
                    ParrotSession {
                        frames: final(self).parrot_session->0.frames,
                        ..s
                    },
                ) && final(self).parrot_session->0.frames@ == if s.state == ParrotState::Recording
                    && s.frames@.len() < PARROT_MAX_FRAMES {
                    s.frames@.push(ParrotFrame { data, raw_tch_s_block })
                } else {
                    s.frames@
                }
            },
            final(self).dltime == old(self).dltime,
            final(self).circuits == old(self).circuits,
            final(self).active_calls == old(self).active_calls,
            final(self).individual_calls == old(self).individual_calls,
            final(self).subscriber_groups == old(self).subscriber_groups,
            final(self).group_listeners == old(self).group_listeners,
            final(self).external_subscriber_groups == old(self).external_subscriber_groups,
            final(self).external_group_listeners == old(self).external_group_listeners,
    {
        match &mut self.parrot_session {
            Some(session) => {
                if !session.owns_ts(ts) {
                    return false;
                }
                session.record_ul_frame(ts, data, raw_tch_s_block);
                true
            },
            None => false,
        }
    }

    /// Ends the test sessions of call `call_id`: the parrot session goes
    /// when it is the call's; whether the echo session (of call
    /// `echo_call_id`, when there is one) goes too.
    pub fn release_echo_session_if_matches(&mut self, echo_call_id: Option<u16>, call_id: u16) -> (release_echo: bool)
        ensures
            old(self).individual_calls_wf() ==> final(self).individual_calls_wf(),
            release_echo == (echo_call_id == Some(call_id)),
            final(self).parrot_session == match old(self).parrot_session {
                Some(s) => if s.call_id == call_id {
                    None
                } else {
                    old(self).parrot_session
                },
                None => old(self).parrot_session,
            },
            final(self).dltime == old(self).dltime,
            final(self).circuits == old(self).circuits,
            final(self).active_calls == old(self).active_calls,
            final(self).individual_calls == old(self).individual_calls,
            final(self).subscriber_groups == old(self).subscriber_groups,
            final(self).group_listeners == old(self).group_listeners,
            final(self).external_subscriber_groups == old(self).external_subscriber_groups,
            final(self).external_group_listeners == old(self).external_group_listeners,
    {
        let drop_parrot = match &self.parrot_session {
            Some(s) => s.call_id == call_id,
            None => false,
        };
        if drop_parrot {
            self.parrot_session = None;
        }
        match echo_call_id {
            Some(id) => id == call_id,
            None => false,
        }
    }

    /// Load figures: counts of the call tables, with the sizes of the
    /// pending-procedure tables (`pending`) passed through; the floor
    /// waiters of all group calls are added up (saturating).
    pub fn health_stats(&self, pending: PendingTableSizes) -> (r: CmceHealthStats)
        ensures
            r.active_group_calls == self.active_calls@.dom().len(),
            r.active_individual_calls == keys_where(
                self.individual_calls@,
                |c: IndividualCall| c.state == IndividualCallState::Active,
            ).len(),
            r.pending_individual_calls == self.individual_calls@.dom().len() - r.active_individual_calls,
            r.individual_floor_waiters == keys_where(
                self.individual_calls@,
                |c: IndividualCall| c.queued_tx_demand is Some,
            ).len(),
            exists|ids: Seq<u16>|
                ids.no_duplicates() && ids.to_set() == self.active_calls@.dom() && r.group_floor_waiters == saturated(
                    waiters_in(ids, self.active_calls@),
                ),
            r.pending_group_releases == pending.group_releases,
            r.pending_group_floor_activations == pending.group_floor_activations,
            r.pending_network_group_readies == pending.network_group_readies,
            r.pending_individual_releases == pending.individual_releases,
            r.pending_network_individual_connects == pending.network_individual_connects,
            r.pending_individual_disconnects == saturated(
                pending.individual_disconnect_tail_drains + pending.individual_disconnect_deliveries
                    + pending.individual_disconnect_release_acks + pending.individual_tx_ceased_tail_drains,
            ),
    {
        let m = &self.individual_calls;
        let all = collect_keys(m, &AnyCall);
        let active = collect_keys(m, &ActiveIndividual);
        let waiting = collect_keys(m, &WaitingIndividual);
        proof {
            all@.unique_seq_to_set();
            active@.unique_seq_to_set();
            waiting@.unique_seq_to_set();
            assert(all@.to_set() =~= m@.dom());
            assert(active@.to_set() =~= keys_where(m@, |c: IndividualCall| c.state == IndividualCallState::Active));
            assert(waiting@.to_set() =~= keys_where(m@, |c: IndividualCall| c.queued_tx_demand is Some));
            assert(keys_where(m@, |c: IndividualCall| c.state == IndividualCallState::Active).subset_of(m@.dom()));
            vstd::set_lib::lemma_len_subset(
                keys_where(m@, |c: IndividualCall| c.state == IndividualCallState::Active),
                m@.dom(),
            );
        }
        let groups = collect_keys(&self.active_calls, &AnyCall);
        proof {
            groups@.unique_seq_to_set();
            assert(groups@.to_set() =~= self.active_calls@.dom());
        }
        let mut waiters: usize = 0;
        let mut i: usize = 0;
        while i < groups.len()
            invariant
                0 <= i <= groups@.len(),
                forall|id: u16| #[trigger] groups@.contains(id) <==> self.active_calls@.contains_key(id),
                waiters == saturated(waiters_in(groups@.take(i as int), self.active_calls@)),
            decreases groups@.len() - i,
        {
            let id = groups[i];
            assert(groups@.contains(id));
            let ghost before = waiters_in(groups@.take(i as int), self.active_calls@);
            proof {
                assert(groups@.take(i as int + 1).drop_last() =~= groups@.take(i as int));
                assert(groups@.take(i as int + 1).last() == id);
                lemma_waiters_nonneg(groups@.take(i as int), self.active_calls@);
            }
            match self.active_calls.get(&id) {
                Some(c) => {
                    let n = c.queued_floor_demands.len();
                    proof {
                        assert(waiters_in(groups@.take(i as int + 1), self.active_calls@) == before + n);
                    }
                    waiters = waiters.saturating_add(n);
                },
                None => {},
            }
            i = i + 1;
        }
        proof {
            assert(groups@.take(groups@.len() as int) =~= groups@);
        }
        let disconnects = pending.individual_disconnect_tail_drains.saturating_add(
            pending.individual_disconnect_deliveries,
        ).saturating_add(pending.individual_disconnect_release_acks).saturating_add(
            pending.individual_tx_ceased_tail_drains,
        );
        CmceHealthStats {
            active_group_calls: groups.len(),
            pending_group_releases: pending.group_releases,
            pending_group_floor_activations: pending.group_floor_activations,
            pending_network_group_readies: pending.network_group_readies,
            group_floor_waiters: waiters,
            active_individual_calls: active.len(),
            pending_individual_calls: all.len() - active.len(),
            pending_individual_releases: pending.individual_releases,
            pending_network_individual_connects: pending.network_individual_connects,
            pending_individual_disconnects: disconnects,
            individual_floor_waiters: waiting.len(),
        }
    }
}

} // verus!
