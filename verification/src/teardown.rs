//! Release of group and individual calls (EN 300 392-2 clauses 14.5.1.3 and
//! 14.5.2.3): where D-RELEASE goes, how long the circuits stay open for it,
//! and the clean-up that gives the circuits, the timeslots and the call
//! record back.

use vstd::prelude::*;

use crate::address::{SsiType, TetraAddress};
use crate::call::{ActiveCall, CallOrigin, DisconnectCause, IndividualCall, IndividualCallState, disconnect_cause_raw};
use crate::cc_bs::CcBsSubentity;
use crate::circuit_mgr::CmceCircuit;
use crate::tdma::TdmaTime;
use crate::timeslots::{Direction, TimeslotAllocator, TimeslotOwner};

verus! {

broadcast use vstd::std_specs::hash::group_hash_axioms;

/// A group release waits at most this long (in timeslots) for its D-RELEASE.
pub const GROUP_RELEASE_PENDING_TIMEOUT_TIMESLOTS: i32 = 1440;

/// An individual release waits at most this long (in timeslots) for its
/// D-RELEASE copies.
pub const INDIVIDUAL_RELEASE_PENDING_TIMEOUT_TIMESLOTS: i32 = 144;

/// Copies of D-RELEASE sent on the MCCH to each party of a call in setup.
pub const SETUP_RELEASE_REPEATS: u8 = 3;

/// The first circuit of `pre` on timeslot `ts`.
pub open spec fn first_on_ts(pre: Seq<CmceCircuit>, ts: u8) -> Option<CmceCircuit>
    decreases pre.len(),
{
    if pre.len() == 0 {
        None
    } else if pre[0].ts == ts {
        Some(pre[0])
    } else {
        first_on_ts(pre.drop_first(), ts)
    }
}

/// The circuit announced as closed on timeslot `ts`: the one closed
/// beforehand, else the one open on it.
pub open spec fn closed_on(dl: Seq<Option<CmceCircuit>>, pre: Seq<CmceCircuit>, ts: u8) -> Option<CmceCircuit> {
    match first_on_ts(pre, ts) {
        Some(c) => Some(c),
        None => dl[ts - 1],
    }
}

/// The circuit of an option, as a sequence of at most one.
pub open spec fn option_circuits(o: Option<CmceCircuit>) -> Seq<CmceCircuit> {
    match o {
        Some(c) => seq![c],
        None => Seq::empty(),
    }
}

/// The timeslots of an individual call, the caller's first.
pub open spec fn release_timeslots(call: IndividualCall) -> Seq<u8> {
    if call.called_ts != call.calling_ts {
        seq![call.calling_ts, call.called_ts]
    } else {
        seq![call.calling_ts]
    }
}

/// Timeslot owners after this entity gives `ts` back: only a timeslot it
/// holds changes.
pub open spec fn owners_released(owners: Seq<Option<TimeslotOwner>>, ts: u8) -> Seq<Option<TimeslotOwner>> {
    if 2 <= ts <= 4 && owners[ts - 1] == Some(TimeslotOwner::Cmce) {
        owners.update(ts - 1, None)
    } else {
        owners
    }
}

/// The release notice that goes to the network bridge: for a bridged call
/// when asked for, unless the network itself asked for the release.
pub open spec fn individual_release_brew_notice(call: IndividualCall, cause: DisconnectCause, notify_brew: bool) -> Option<
    (u128, u8),
> {
    if notify_brew && (call.called_over_brew || call.calling_over_brew) && cause
        != DisconnectCause::SwmiRequestedDisconnection && call.brew_uuid is Some {
        Some((call.brew_uuid->0, disconnect_cause_raw(cause)))
    } else {
        None
    }
}

/// D-RELEASE goes to a party not behind the bridge, and only to the one
/// named when the release is addressed.
pub open spec fn release_leg_sent(over_brew: bool, party: u32, release_to_issi: Option<u32>) -> bool {
    !over_brew && match release_to_issi {
        Some(issi) => issi == party,
        None => true,
    }
}

/// The connect of the call is being acknowledged.
pub open spec fn connecting(call: IndividualCall) -> bool {
    call.state == IndividualCallState::CalledConnectAckPending || call.state
        == IndividualCallState::CallerConnectAckPending
}

/// The call holds its traffic channels.
pub open spec fn assigned(call: IndividualCall) -> bool {
    connecting(call) || call.state == IndividualCallState::Active || call.state is DisconnectPending
}

/// D-RELEASE copies whose transmission is reported: none on the MCCH of a
/// call in setup; while connecting, only the one to a called party on its
/// traffic channel (the caller's connect still unacknowledged); once
/// established, one per leg sent.
pub open spec fn reported_release_legs(call: IndividualCall, send_calling: bool, send_called: bool) -> u8 {
    if !assigned(call) {
        0
    } else if connecting(call) {
        if send_called && call.state == IndividualCallState::CallerConnectAckPending {
            1
        } else {
            0
        }
    } else {
        ((if send_calling {
            1int
        } else {
            0int
        }) + (if send_called {
            1int
        } else {
            0int
        })) as u8
    }
}

/// Where the D-RELEASE of an individual call goes.
#[derive(Clone, Copy, Debug, PartialEq, Eq, Structural)]
pub struct ReleaseLegs {
    /// The connect is being acknowledged: the caller is cleared on its
    /// signalling context, the called party on its traffic channel once the
    /// caller's connect is owed.
    pub connecting: bool,
    pub send_calling_leg: bool,
    pub send_called_leg: bool,
    /// Copies whose transmission report the release waits for.
    pub reported_legs: u8,
}

/// What giving an individual call's resources back announces.
pub struct IndividualReleaseCleanup {
    /// Circuits to announce as closed, the caller's first.
    pub closed: Vec<CmceCircuit>,
    /// Timeslots on which the call ended, the caller's first.
    pub ended_ts: Vec<u8>,
    /// Release notice for the bridge: the call UUID and the cause code.
    pub brew_release: Option<(u128, u8)>,
}

/// An individual release waiting for its D-RELEASE copies.
pub struct PendingIndividualRelease {
    pub call_id: u16,
    pub call: IndividualCall,
    pub cause: DisconnectCause,
    pub started_at: TdmaTime,
    /// Circuits closed before the release began.
    pub preclosed_circuits: Vec<CmceCircuit>,
    pub notify_brew: bool,
}

/// Decision on an individual release.
pub enum IndividualReleaseStart {
    /// A release of the call is under way already: nothing happens.
    AlreadyPending,
    /// No such call.
    UnknownCall,
    /// D-RELEASE goes to the legs on the traffic channels; the record
    /// waits, out of the call table, for the reported copies.
    AwaitingDelivery { legs: ReleaseLegs, pending: PendingIndividualRelease },
    /// Released at once: `SETUP_RELEASE_REPEATS` copies go on the MCCH to
    /// each leg sent when `on_mcch`, else D-RELEASE goes on the traffic
    /// channels with no report to wait for.
    Released { legs: ReleaseLegs, on_mcch: bool, call: IndividualCall, cleanup: IndividualReleaseCleanup },
}

/// A group release waiting for its D-RELEASE.
#[derive(Clone, Copy, Debug, PartialEq, Eq, Structural)]
pub struct PendingGroupRelease {
    pub call_id: u16,
    pub dest_gssi: u32,
    pub ts: u8,
    pub cause: DisconnectCause,
    pub started_at: TdmaTime,
    /// The circuit, when it was closed before the release began.
    pub preclosed_circuit: Option<CmceCircuit>,
    /// A local station started the call.
    pub is_local: bool,
    /// The bridge's call UUID of a network call.
    pub network_brew_uuid: Option<u128>,
}

/// Decision on a group release.
#[derive(Clone, Copy, Debug, PartialEq, Eq, Structural)]
pub enum GroupReleaseStart {
    /// A release of the call is under way already: nothing happens.
    AlreadyPending,
    /// No such call.
    UnknownCall,
    /// D-RELEASE goes to `dest_addr` on the traffic channel (reported) and
    /// on the MCCH; `pending` waits for the report.
    Started { dest_addr: TetraAddress, ts: u8, usage: u8, pending: PendingGroupRelease },
}

/// What the bridge is told of an ended group call.
#[derive(Clone, Copy, Debug, PartialEq, Eq, Structural)]
pub enum GroupBrewNotice {
    /// A local call ended.
    CallEnded,
    /// The network call with this UUID ended.
    NetworkCallEnd { brew_uuid: u128 },
}

/// What giving a group call's resources back announces.
#[derive(Clone, Copy, Debug, PartialEq, Eq, Structural)]
pub struct GroupReleaseCleanup {
    /// The circuit to announce as closed.
    pub closed: Option<CmceCircuit>,
    pub brew_notice: Option<GroupBrewNotice>,
}

/// The group release notice for the bridge, for a group it routes.
pub open spec fn group_release_brew_notice(pending: PendingGroupRelease, brew_routable: bool) -> Option<
    GroupBrewNotice,
> {
    if !brew_routable {
        None
    } else if pending.is_local {
        Some(GroupBrewNotice::CallEnded)
    } else {
        match pending.network_brew_uuid {
            Some(u) => Some(GroupBrewNotice::NetworkCallEnd { brew_uuid: u }),
            None => None,
        }
    }
}

/// The pending record of a release of group call `call` begun at `now`.
pub open spec fn group_release_record(
    call_id: u16,
    call: ActiveCall,
    cause: DisconnectCause,
    now: TdmaTime,
    preclosed: Option<CmceCircuit>,
) -> PendingGroupRelease {
    PendingGroupRelease {
        call_id,
        dest_gssi: call.dest_gssi,
        ts: call.ts,
        cause,
        started_at: now,
        preclosed_circuit: preclosed,
        is_local: call.origin is Local,
        network_brew_uuid: match call.origin {
            CallOrigin::Network { brew_uuid } => Some(brew_uuid),
            CallOrigin::Local { .. } => None,
        },
    }
}

/// `after` (with timeslot owners `owners_after`) is `before` (with
/// `owners_before`) once individual call `call_id` (record `call`) has given
/// its resources back, and `out` says what is announced: each timeslot of
/// the call, the caller's first, ends; its circuit closes unless it was
/// closed beforehand (`pre`) and is announced either way; the timeslots go
/// back to the allocator; the call record and a parrot session of the call
/// go; nothing else changes.
pub open spec fn individual_cleanup_done(
    before: CcBsSubentity,
    after: CcBsSubentity,
    owners_before: Seq<Option<TimeslotOwner>>,
    owners_after: Seq<Option<TimeslotOwner>>,
    call_id: u16,
    call: IndividualCall,
    cause: DisconnectCause,
    pre: Seq<CmceCircuit>,
    notify_brew: bool,
    out: IndividualReleaseCleanup,
) -> bool {
    let dl = before.circuits.dl@;
    let two = call.called_ts != call.calling_ts;
    let rts = release_timeslots(call);
    &&& out.ended_ts@ == rts
    &&& out.closed@ == option_circuits(closed_on(dl, pre, call.calling_ts)) + if two {
        option_circuits(closed_on(dl, pre, call.called_ts))
    } else {
        Seq::empty()
    }
    &&& out.brew_release == individual_release_brew_notice(call, cause, notify_brew)
    &&& after.circuits.dl@ == Seq::new(
        4,
        |j: int|
            if rts.contains((j + 1) as u8) && first_on_ts(pre, (j + 1) as u8) is None {
                None
            } else {
                dl[j]
            },
    )
    &&& forall|j: int|
        0 <= j < 4 && rts.contains((j + 1) as u8) && first_on_ts(pre, (j + 1) as u8) is None
            ==> (#[trigger] after.circuits.tx_data@[j])@.len() == 0
    &&& forall|j: int|
        0 <= j < 4 && !(rts.contains((j + 1) as u8) && first_on_ts(pre, (j + 1) as u8) is None)
            ==> #[trigger] after.circuits.tx_data@[j] == before.circuits.tx_data@[j]
    &&& owners_after == if two {
        owners_released(owners_released(owners_before, call.calling_ts), call.called_ts)
    } else {
        owners_released(owners_before, call.calling_ts)
    }
    &&& after.circuits.ul_only@ == Seq::new(
        4,
        |j: int|
            if rts.contains((j + 1) as u8) && first_on_ts(pre, (j + 1) as u8) is None {
                None
            } else {
                before.circuits.ul_only@[j]
            },
    )
    &&& after.circuits.wf()
    &&& after.circuits.dltime == before.circuits.dltime
    &&& after.circuits.next_call_identifier == before.circuits.next_call_identifier
    &&& after.circuits.next_usage_number == before.circuits.next_usage_number
    &&& after.individual_calls@ == before.individual_calls@.remove(call_id)
    &&& after.parrot_session == match before.parrot_session {
        Some(s) => if s.call_id == call_id {
            None
        } else {
            before.parrot_session
        },
        None => before.parrot_session,
    }
    &&& after.dltime == before.dltime
    &&& after.active_calls == before.active_calls
    &&& after.subscriber_groups == before.subscriber_groups
    &&& after.group_listeners == before.group_listeners
    &&& after.external_subscriber_groups == before.external_subscriber_groups
    &&& after.external_group_listeners == before.external_group_listeners
}

/// Outcome of completing the pending group release `pending` (see
/// [`CcBsSubentity::complete_pending_group_release`]): `before`/`after` are the
/// sub-entity and `owners_before`/`owners_after` the timeslot owners around it.
pub open spec fn group_release_done(
    before: CcBsSubentity,
    after: CcBsSubentity,
    owners_before: Seq<Option<TimeslotOwner>>,
    owners_after: Seq<Option<TimeslotOwner>>,
    pending: PendingGroupRelease,
    brew_routable: bool,
    r: GroupReleaseCleanup,
) -> bool {
    &&& r.closed == match pending.preclosed_circuit {
        Some(c) => Some(c),
        None => before.circuits.dl@[pending.ts - 1],
    }
    &&& r.brew_notice == group_release_brew_notice(pending, brew_routable)
    &&& after.circuits.dl@ == if pending.preclosed_circuit is None {
        before.circuits.dl@.update(pending.ts - 1, None)
    } else {
        before.circuits.dl@
    }
    &&& after.circuits.ul_only@ == if pending.preclosed_circuit is None {
        before.circuits.ul_only@.update(pending.ts - 1, None)
    } else {
        before.circuits.ul_only@
    }
    &&& after.circuits.wf()
    &&& after.circuits.dltime == before.circuits.dltime
    &&& after.circuits.next_call_identifier == before.circuits.next_call_identifier
    &&& after.circuits.next_usage_number == before.circuits.next_usage_number
    &&& owners_after == owners_released(owners_before, pending.ts)
    &&& after.active_calls@ == before.active_calls@.remove(pending.call_id)
    &&& after.dltime == before.dltime
    &&& after.individual_calls == before.individual_calls
    &&& after.subscriber_groups == before.subscriber_groups
    &&& after.group_listeners == before.group_listeners
    &&& after.external_subscriber_groups == before.external_subscriber_groups
    &&& after.external_group_listeners == before.external_group_listeners
    &&& after.parrot_session == before.parrot_session
}

/// Outcome of beginning the release of individual call `call_id` (see
/// [`CcBsSubentity::begin_individual_release`]): `before`/`after` are the
/// sub-entity and `owners_before`/`owners_after` the timeslot owners around it.
pub open spec fn individual_release_begun(
    before: CcBsSubentity,
    after: CcBsSubentity,
    owners_before: Seq<Option<TimeslotOwner>>,
    owners_after: Seq<Option<TimeslotOwner>>,
    call_id: u16,
    disconnect_cause: DisconnectCause,
    preclosed_circuits: Seq<CmceCircuit>,
    notify_brew: bool,
    release_to_issi: Option<u32>,
    release_pending: bool,
    r: IndividualReleaseStart,
) -> bool {
    let m = before.individual_calls@;
    if release_pending {
        &&& r is AlreadyPending
        &&& after == before
        &&& owners_after == owners_before
    } else if !m.contains_key(call_id) {
        &&& r is UnknownCall
        &&& after == before
        &&& owners_after == owners_before
    } else {
        let call = m[call_id];
        let sc = release_leg_sent(call.calling_over_brew, call.calling_addr.ssi, release_to_issi);
        let sd = release_leg_sent(call.called_over_brew, call.called_addr.ssi, release_to_issi);
        let legs = ReleaseLegs {
            connecting: connecting(call),
            send_calling_leg: sc,
            send_called_leg: sd,
            reported_legs: reported_release_legs(call, sc, sd),
        };
        if assigned(call) && legs.reported_legs > 0 {
            &&& r matches IndividualReleaseStart::AwaitingDelivery { legs: l, pending }
            &&& l == legs
            &&& pending.call_id == call_id
            &&& pending.call == call
            &&& pending.cause == disconnect_cause
            &&& pending.started_at == before.dltime
            &&& pending.preclosed_circuits@ == preclosed_circuits
            &&& pending.notify_brew == notify_brew
            &&& after.individual_calls@ == m.remove(call_id)
            &&& after.same_except_individual_calls(&before)
            &&& owners_after == owners_before
        } else {
            &&& r matches IndividualReleaseStart::Released { legs: l, on_mcch, call: c, cleanup }
            &&& l == legs
            &&& on_mcch == !assigned(call)
            &&& c == call
            &&& individual_cleanup_done(
                before,
                after,
                owners_before,
                owners_after,
                call_id,
                call,
                disconnect_cause,
                preclosed_circuits,
                notify_brew,
                cleanup,
            )
        }
    }
}

/// Once an individual call has given its resources back, with no circuit
/// closed beforehand, no circuit stays open on its timeslots and this entity
/// holds none of its traffic timeslots (2 to 4).
pub proof fn lemma_cleanup_frees_call_timeslots(
    before: CcBsSubentity,
    after: CcBsSubentity,
    owners_before: Seq<Option<TimeslotOwner>>,
    owners_after: Seq<Option<TimeslotOwner>>,
    call_id: u16,
    call: IndividualCall,
    cause: DisconnectCause,
    notify_brew: bool,
    out: IndividualReleaseCleanup,
)
    requires
        owners_before.len() == 4,
        1 <= call.calling_ts <= 4,
        1 <= call.called_ts <= 4,
        individual_cleanup_done(
            before,
            after,
            owners_before,
            owners_after,
            call_id,
            call,
            cause,
            Seq::empty(),
            notify_brew,
            out,
        ),
    ensures
        forall|k: int|
            0 <= k < release_timeslots(call).len() ==> {
                let ts = #[trigger] release_timeslots(call)[k];
                &&& after.circuits.dl@[ts - 1] is None
                &&& after.circuits.ul_only@[ts - 1] is None
                &&& 2 <= ts ==> owners_after[ts - 1] != Some(TimeslotOwner::Cmce)
            },
        !after.individual_calls@.contains_key(call_id),
{
    let rts = release_timeslots(call);
    assert forall|k: int| 0 <= k < rts.len() implies {
        let ts = #[trigger] rts[k];
        &&& after.circuits.dl@[ts - 1] is None
        &&& after.circuits.ul_only@[ts - 1] is None
        &&& 2 <= ts ==> owners_after[ts - 1] != Some(TimeslotOwner::Cmce)
    } by {
        let ts = rts[k];
        assert(rts.contains(ts));
        assert(((ts - 1) + 1) as u8 == ts);
        assert(first_on_ts(Seq::<CmceCircuit>::empty(), ts) is None);
    }
}

proof fn lemma_first_on_ts_skip(pre: Seq<CmceCircuit>, i: int, ts: u8)
    requires
        0 <= i < pre.len(),
        pre[i].ts != ts,
    ensures
        first_on_ts(pre.subrange(i, pre.len() as int), ts) == first_on_ts(pre.subrange(i + 1, pre.len() as int), ts),
{
    assert(pre.subrange(i, pre.len() as int).drop_first() =~= pre.subrange(i + 1, pre.len() as int));
}

proof fn lemma_first_on_ts_hit(pre: Seq<CmceCircuit>, i: int, ts: u8)
    requires
        0 <= i < pre.len(),
        pre[i].ts == ts,
    ensures
        first_on_ts(pre.subrange(i, pre.len() as int), ts) == Some(pre[i]),
{
}

/// The first of `pre` on timeslot `ts`.
fn find_on_ts(pre: &Vec<CmceCircuit>, ts: u8) -> (r: Option<CmceCircuit>)
    ensures
        r == first_on_ts(pre@, ts),
{
    let mut i: usize = 0;
    assert(pre@.subrange(0, pre@.len() as int) =~= pre@);
    while i < pre.len()
        invariant
            0 <= i <= pre@.len(),
            first_on_ts(pre@, ts) == first_on_ts(pre@.subrange(i as int, pre@.len() as int), ts),
        decreases pre@.len() - i,
    {
        if pre[i].ts == ts {
            proof {
                lemma_first_on_ts_hit(pre@, i as int, ts);
            }
            return Some(pre[i]);
        }
        proof {
            lemma_first_on_ts_skip(pre@, i as int, ts);
        }
        i = i + 1;
    }
    None
}

impl CcBsSubentity {
    /// Gives timeslot `ts` back: closes its circuit unless it was closed
    /// beforehand (one of `pre`) and returns the circuit to announce, then
    /// returns the timeslot to the allocator.
    fn give_back_timeslot(&mut self, alloc: &mut TimeslotAllocator, ts: u8, pre: &Vec<CmceCircuit>) -> (r: Option<
        CmceCircuit,
    >)
        requires
            old(self).circuits.wf(),
            1 <= ts <= 4,
        ensures
            r == closed_on(old(self).circuits.dl@, pre@, ts),
            final(self).circuits.wf(),
            final(self).circuits.dltime == old(self).circuits.dltime,
            final(self).circuits.next_call_identifier == old(self).circuits.next_call_identifier,
            final(self).circuits.next_usage_number == old(self).circuits.next_usage_number,
            final(self).circuits.ul_only@ == if first_on_ts(pre@, ts) is None {
                old(self).circuits.ul_only@.update(ts - 1, None)
            } else {
                old(self).circuits.ul_only@
            },
            final(self).circuits.dl@ == if first_on_ts(pre@, ts) is None {
                old(self).circuits.dl@.update(ts - 1, None)
            } else {
                old(self).circuits.dl@
            },
            first_on_ts(pre@, ts) is None ==> final(self).circuits.tx_data@[ts - 1]@.len() == 0,
            forall|j: int|
                0 <= j < 4 && (j != ts - 1 || first_on_ts(pre@, ts) is Some) ==> final(self).circuits.tx_data@[j]
                    == old(self).circuits.tx_data@[j],
            final(alloc).owners@ == owners_released(old(alloc).owners@, ts),
            final(self).dltime == old(self).dltime,
            final(self).active_calls == old(self).active_calls,
            final(self).individual_calls == old(self).individual_calls,
            final(self).subscriber_groups == old(self).subscriber_groups,
            final(self).group_listeners == old(self).group_listeners,
            final(self).external_subscriber_groups == old(self).external_subscriber_groups,
            final(self).external_group_listeners == old(self).external_group_listeners,
            final(self).parrot_session == old(self).parrot_session,
    {
        let announced = match find_on_ts(pre, ts) {
            Some(c) => Some(c),
            None => match self.circuits.close_circuit(Direction::Both, ts) {
                Ok(c) => Some(c),
                Err(_) => None,
            },
        };
        let _ = alloc.release(TimeslotOwner::Cmce, ts);
        announced
    }

    /// Gives the resources of individual call `call_id` (record `call`) back:
    /// closes the circuits of its timeslots, the caller's first, unless they
    /// were closed beforehand (`preclosed_circuits`), returns the timeslots,
    /// drops the call record and the parrot session of the call, and says
    /// what the lower MAC and, when `notify_brew`, the bridge are told. The
    /// caller drops the call's cached D-SETUP and pending-table entries.
    pub fn complete_individual_release_cleanup(
        &mut self,
        alloc: &mut TimeslotAllocator,
        call_id: u16,
        call: &IndividualCall,
        disconnect_cause: DisconnectCause,
        preclosed_circuits: &Vec<CmceCircuit>,
        notify_brew: bool,
    ) -> (r: IndividualReleaseCleanup)
        requires
            old(self).circuits.wf(),
            1 <= call.calling_ts <= 4,
            1 <= call.called_ts <= 4,
        ensures
            old(self).individual_calls_wf() ==> final(self).individual_calls_wf(),
            individual_cleanup_done(
                *old(self),
                *final(self),
                old(alloc).owners@,
                final(alloc).owners@,
                call_id,
                *call,
                disconnect_cause,
                preclosed_circuits@,
                notify_brew,
                r,
            ),
    {
        let ghost dl0 = self.circuits.dl@;
        let ghost ul0 = self.circuits.ul_only@;
        let ghost tx0 = self.circuits.tx_data@;
        let mut closed: Vec<CmceCircuit> = Vec::new();
        let mut ended_ts: Vec<u8> = Vec::new();
        let first = self.give_back_timeslot(alloc, call.calling_ts, preclosed_circuits);
        if let Some(c) = first {
            closed.push(c);
        }
        ended_ts.push(call.calling_ts);
        if call.called_ts != call.calling_ts {
            let second = self.give_back_timeslot(alloc, call.called_ts, preclosed_circuits);
            if let Some(c) = second {
                closed.push(c);
            }
            ended_ts.push(call.called_ts);
        }
        proof {
            let pre = preclosed_circuits@;
            let rts = release_timeslots(*call);
            assert(ended_ts@ =~= rts);
            assert(closed@ =~= option_circuits(closed_on(dl0, pre, call.calling_ts)) + if call.called_ts
                != call.calling_ts {
                option_circuits(closed_on(dl0, pre, call.called_ts))
            } else {
                Seq::empty()
            });
            assert forall|j: int|
                #![trigger rts.contains((j + 1) as u8)]
                0 <= j < 4 implies (rts.contains((j + 1) as u8) <==> ((j + 1) as u8 == call.calling_ts || (
                call.called_ts != call.calling_ts && (j + 1) as u8 == call.called_ts))) by {
                if (j + 1) as u8 == call.calling_ts {
                    assert(rts[0] == call.calling_ts);
                }
                if call.called_ts != call.calling_ts && (j + 1) as u8 == call.called_ts {
                    assert(rts[1] == call.called_ts);
                }
            }
            assert(self.circuits.dl@ =~= Seq::new(
                4,
                |j: int|
                    if rts.contains((j + 1) as u8) && first_on_ts(pre, (j + 1) as u8) is None {
                        None
                    } else {
                        dl0[j]
                    },
            ));
            assert(self.circuits.ul_only@ =~= Seq::new(
                4,
                |j: int|
                    if rts.contains((j + 1) as u8) && first_on_ts(pre, (j + 1) as u8) is None {
                        None
                    } else {
                        ul0[j]
                    },
            ));
        }
        self.individual_calls.remove(&call_id);
        let drop_parrot = match &self.parrot_session {
            Some(s) => s.call_id == call_id,
            None => false,
        };
        if drop_parrot {
            self.parrot_session = None;
        }
        let brew_release = if notify_brew && (call.called_over_brew || call.calling_over_brew) && !matches!(
            disconnect_cause,
            DisconnectCause::SwmiRequestedDisconnection
        ) {
            match call.brew_uuid {
                Some(u) => Some((u, disconnect_cause.into_raw())),
                None => None,
            }
        } else {
            None
        };
        IndividualReleaseCleanup { closed, ended_ts, brew_release }
    }

    /// Completes a pending individual release: the resources of its call
    /// are given back as `complete_individual_release_cleanup` does.
    pub fn complete_pending_individual_release(
        &mut self,
        alloc: &mut TimeslotAllocator,
        pending: PendingIndividualRelease,
    ) -> (r: IndividualReleaseCleanup)
        requires
            old(self).circuits.wf(),
            1 <= pending.call.calling_ts <= 4,
            1 <= pending.call.called_ts <= 4,
        ensures
            old(self).individual_calls_wf() ==> final(self).individual_calls_wf(),
            individual_cleanup_done(
                *old(self),
                *final(self),
                old(alloc).owners@,
                final(alloc).owners@,
                pending.call_id,
                pending.call,
                pending.cause,
                pending.preclosed_circuits@,
                pending.notify_brew,
                r,
            ),
    {
        self.complete_individual_release_cleanup(
            alloc,
            pending.call_id,
            &pending.call,
            pending.cause,
            &pending.preclosed_circuits,
            pending.notify_brew,
        )
    }

    /// A pending individual release completes once every reported copy was
    /// transmitted, or when it has waited its time out.
    pub fn individual_release_due(&self, pending: &PendingIndividualRelease, all_transmitted: bool) -> (r: bool)
        ensures
            r == (all_transmitted || pending.started_at.age_spec(self.dltime)
                >= INDIVIDUAL_RELEASE_PENDING_TIMEOUT_TIMESLOTS),
    {
        all_transmitted || pending.started_at.age(self.dltime) >= INDIVIDUAL_RELEASE_PENDING_TIMEOUT_TIMESLOTS
    }

    /// Begins the release of individual call `call_id` with
    /// `disconnect_cause`, unless one is under way (`release_pending`). The
    /// call leaves the call table. D-RELEASE goes to each party not behind
    /// the bridge, or only to `release_to_issi` when given. A call on its
    /// traffic channels waits for the reported copies, if there are any; a
    /// call in setup is cleared on the MCCH and released at once. Unless a
    /// release is pending, the caller also drops the call's entries in the
    /// tables of pending disconnect steps, tail drains and connect guards.
    pub fn begin_individual_release(
        &mut self,
        alloc: &mut TimeslotAllocator,
        call_id: u16,
        disconnect_cause: DisconnectCause,
        preclosed_circuits: Vec<CmceCircuit>,
        notify_brew: bool,
        release_to_issi: Option<u32>,
        release_pending: bool,
    ) -> (r: IndividualReleaseStart)
        requires
            old(self).circuits.wf(),
            old(self).individual_calls_wf(),
        ensures
            final(self).individual_calls_wf(),
            individual_release_begun(
                *old(self),
                *final(self),
                old(alloc).owners@,
                final(alloc).owners@,
                call_id,
                disconnect_cause,
                preclosed_circuits@,
                notify_brew,
                release_to_issi,
                release_pending,
                r,
            ),
    {
        if release_pending {
            return IndividualReleaseStart::AlreadyPending;
        }
        if !self.individual_calls.contains_key(&call_id) {
            return IndividualReleaseStart::UnknownCall;
        }
        let call = match self.individual_calls.remove(&call_id) {
            Some(c) => c,
            None => {
                return IndividualReleaseStart::UnknownCall;
            },
        };
        let send_calling_leg = !call.calling_over_brew && match release_to_issi {
            Some(issi) => issi == call.calling_addr.ssi,
            None => true,
        };
        let send_called_leg = !call.called_over_brew && match release_to_issi {
            Some(issi) => issi == call.called_addr.ssi,
            None => true,
        };
        let is_connecting = call.is_connect_ack_pending();
        let has_assigned = call.has_assigned_circuit();
        let reported_legs: u8 = if !has_assigned {
            0
        } else if is_connecting {
            if send_called_leg && matches!(call.state, IndividualCallState::CallerConnectAckPending) {
                1
            } else {
                0
            }
        } else {
            let a: u8 = if send_calling_leg {
                1
            } else {
                0
            };
            let b: u8 = if send_called_leg {
                1
            } else {
                0
            };
            a + b
        };
        let legs = ReleaseLegs { connecting: is_connecting, send_calling_leg, send_called_leg, reported_legs };
        if has_assigned && reported_legs > 0 {
            let pending = PendingIndividualRelease {
                call_id,
                call,
                cause: disconnect_cause,
                started_at: self.dltime,
                preclosed_circuits,
                notify_brew,
            };
            return IndividualReleaseStart::AwaitingDelivery { legs, pending };
        }
        proof {
            assert(self.individual_calls@.remove(call_id) =~= self.individual_calls@);
        }
        let cleanup = self.complete_individual_release_cleanup(
            alloc,
            call_id,
            &call,
            disconnect_cause,
            &preclosed_circuits,
            notify_brew,
        );
        IndividualReleaseStart::Released { legs, on_mcch: !has_assigned, call, cleanup }
    }

    /// Begins the release of group call `call_id` with `disconnect_cause`,
    /// unless one is under way (`release_pending`). D-RELEASE goes to the
    /// address of the cached D-SETUP (`cached_dest_addr`), else to the group;
    /// the call stays until the release completes. `preclosed_circuit` is the
    /// circuit when it was closed beforehand. Whatever the outcome, the
    /// caller first cancels the call's pending tail drain, floor activation
    /// and network ready.
    pub fn begin_group_release(
        &self,
        call_id: u16,
        disconnect_cause: DisconnectCause,
        preclosed_circuit: Option<CmceCircuit>,
        release_pending: bool,
        cached_dest_addr: Option<TetraAddress>,
    ) -> (r: GroupReleaseStart)
        ensures
            release_pending ==> r == GroupReleaseStart::AlreadyPending,
            !release_pending && !self.active_calls@.contains_key(call_id) ==> r == GroupReleaseStart::UnknownCall,
            !release_pending && self.active_calls@.contains_key(call_id) ==> ({
                let call = self.active_calls@[call_id];
                r == GroupReleaseStart::Started {
                    dest_addr: match cached_dest_addr {
                        Some(a) => a,
                        None => (TetraAddress { ssi: call.dest_gssi, ssi_type: SsiType::Gssi }),
                    },
                    ts: call.ts,
                    usage: call.usage,
                    pending: group_release_record(call_id, call, disconnect_cause, self.dltime, preclosed_circuit),
                }
            }),
    {
        if release_pending {
            return GroupReleaseStart::AlreadyPending;
        }
        match self.active_calls.get(&call_id) {
            None => GroupReleaseStart::UnknownCall,
            Some(call) => {
                let dest_addr = match cached_dest_addr {
                    Some(a) => a,
                    None => TetraAddress::gssi(call.dest_gssi),
                };
                let network_brew_uuid = match call.origin {
                    CallOrigin::Network { brew_uuid } => Some(brew_uuid),
                    CallOrigin::Local { .. } => None,
                };
                let pending = PendingGroupRelease {
                    call_id,
                    dest_gssi: call.dest_gssi,
                    ts: call.ts,
                    cause: disconnect_cause,
                    started_at: self.dltime,
                    preclosed_circuit,
                    is_local: matches!(call.origin, CallOrigin::Local { .. }),
                    network_brew_uuid,
                };
                GroupReleaseStart::Started { dest_addr, ts: call.ts, usage: call.usage, pending }
            },
        }
    }

    /// A pending group release completes once its D-RELEASE was
    /// transmitted, or when it has waited its time out.
    pub fn group_release_due(&self, pending: &PendingGroupRelease, transmitted: bool) -> (r: bool)
        ensures
            r == (transmitted || pending.started_at.age_spec(self.dltime) >= GROUP_RELEASE_PENDING_TIMEOUT_TIMESLOTS),
    {
        transmitted || pending.started_at.age(self.dltime) >= GROUP_RELEASE_PENDING_TIMEOUT_TIMESLOTS
    }

    /// Completes a pending group release: closes the circuit unless it was
    /// closed beforehand and announces it, gives the timeslot back, drops
    /// the call, and says what the bridge is told for a group it routes
    /// (`brew_routable`).
    pub fn complete_pending_group_release(
        &mut self,
        alloc: &mut TimeslotAllocator,
        pending: PendingGroupRelease,
        brew_routable: bool,
    ) -> (r: GroupReleaseCleanup)
        requires
            old(self).circuits.wf(),
            1 <= pending.ts <= 4,
        ensures
            old(self).individual_calls_wf() ==> final(self).individual_calls_wf(),
            group_release_done(
                *old(self),
                *final(self),
                old(alloc).owners@,
                final(alloc).owners@,
                pending,
                brew_routable,
                r,
            ),
    {
        let closed = match pending.preclosed_circuit {
            Some(c) => Some(c),
            None => match self.circuits.close_circuit(Direction::Both, pending.ts) {
                Ok(c) => Some(c),
                Err(_) => None,
            },
        };
        let _ = alloc.release(TimeslotOwner::Cmce, pending.ts);
        let brew_notice = if !brew_routable {
            None
        } else if pending.is_local {
            Some(GroupBrewNotice::CallEnded)
        } else {
            match pending.network_brew_uuid {
                Some(u) => Some(GroupBrewNotice::NetworkCallEnd { brew_uuid: u }),
                None => None,
            }
        };
        self.active_calls.remove(&pending.call_id);
        GroupReleaseCleanup { closed, brew_notice }
    }
}

} // verus!
