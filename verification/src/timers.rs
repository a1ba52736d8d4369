//! Timer supervision of the call control sub-entity at the start of each
//! timeslot: call time-out (T310), setup time-out (T301/T302), the guard on
//! a pending disconnect, hangtime expiry and the periodic D-SETUP retry for
//! stations that may be sleeping.

use std::collections::{HashMap, HashSet};
use vstd::prelude::*;

use crate::call::{
    ActiveCall, DisconnectCause, IndividualCall, IndividualCallState, call_timeout_seconds, setup_timeout_seconds,
    timeslots_in_seconds,
};
use crate::cc_bs::CcBsSubentity;
use crate::circuit_mgr::{CircuitMgrCmd, CmceCircuit, d_setup_cmds, expiry_close_cmds, without_expired};
use crate::tdma::TdmaTime;
use vstd::std_specs::iter::IteratorSpec;

verus! {

broadcast use vstd::std_specs::hash::group_hash_axioms;

/// Timeslots after which a pending D-DISCONNECT is given up when the peer
/// never answers with U-RELEASE.
pub const INDIVIDUAL_DISCONNECT_PENDING_TIMEOUT_TIMESLOTS: i32 = 16;

/// Timeslots per second used by the setup retry and hangtime timers.
pub const TIMER_TIMESLOTS_PER_SECOND: i32 = 72;

/// First D-SETUP retry of a pending individual setup, in timeslots.
pub const DSETUP_FIRST_RETRY_AFTER_TIMESLOTS: i32 = 72;

/// Interval of later D-SETUP retries, in timeslots.
pub const DSETUP_RETRY_INTERVAL_TIMESLOTS: i32 = 720;

/// The group call `c` has outlived its call timeout at `now`.
pub open spec fn group_call_timed_out(c: ActiveCall, now: TdmaTime) -> bool {
    match call_timeout_seconds(c.call_timeout) {
        Some(s) => c.created_at.age_spec(now) > timeslots_in_seconds(s),
        None => false,
    }
}

/// The active simplex individual call `c` has outlived its call timeout at `now`.
pub open spec fn individual_call_timed_out(c: IndividualCall, now: TdmaTime) -> bool {
    c.state == IndividualCallState::Active && !c.simplex_duplex && match (
        c.active_timer_started,
        call_timeout_seconds(c.call_timeout),
    ) {
        (Some(started), Some(s)) => started.age_spec(now) > timeslots_in_seconds(s),
        _ => false,
    }
}

/// A full-duplex individual call never reaches its call timeout, nor does a
/// call that is not active or whose timeout is infinite; an active simplex
/// call whose timer runs reaches a timeout of `s` seconds once the time since
/// it became active exceeds `s` seconds.
pub proof fn lemma_individual_call_timeout(c: IndividualCall, now: TdmaTime)
    ensures
        c.simplex_duplex ==> !individual_call_timed_out(c, now),
        c.state != IndividualCallState::Active ==> !individual_call_timed_out(c, now),
        c.call_timeout == crate::call::CallTimeout::Infinite ==> !individual_call_timed_out(c, now),
        c.state == IndividualCallState::Active && !c.simplex_duplex && c.active_timer_started is Some
            && call_timeout_seconds(c.call_timeout) is Some ==> (individual_call_timed_out(c, now)
            <==> c.active_timer_started->0.age_spec(now) > call_timeout_seconds(c.call_timeout)->0 * 1200 / 17),
{
}

/// The setup of individual call `c` has outlived its setup timeout at `now`.
pub open spec fn individual_setup_timed_out(c: IndividualCall, now: TdmaTime) -> bool {
    c.state != IndividualCallState::Active && match (c.setup_timer_started, c.setup_timeout) {
        (Some(started), Some(timeout)) => started.age_spec(now) > timeslots_in_seconds(
            setup_timeout_seconds(timeout),
        ),
        _ => false,
    }
}

/// The cause with which a disconnect of `c` pending too long at `now` is
/// released, if it is.
pub open spec fn disconnect_guard_expired(c: IndividualCall, now: TdmaTime) -> Option<DisconnectCause> {
    match c.state {
        IndividualCallState::DisconnectPending { started_at, cause, .. } => if started_at.age_spec(now)
            > INDIVIDUAL_DISCONNECT_PENDING_TIMEOUT_TIMESLOTS {
            Some(cause)
        } else {
            None
        },
        _ => None,
    }
}

/// A D-SETUP retry of pending individual setup `c` is due at `now`: one
/// multiframe second after the start, then every ten seconds.
pub open spec fn setup_retry_due(c: IndividualCall, now: TdmaTime) -> bool {
    &&& c.state == IndividualCallState::CallSetupPending
    &&& c.setup_timer_started is Some
    &&& {
        let age = c.setup_timer_started->0.age_spec(now);
        age >= DSETUP_FIRST_RETRY_AFTER_TIMESLOTS && (age - DSETUP_FIRST_RETRY_AFTER_TIMESLOTS)
            % (DSETUP_RETRY_INTERVAL_TIMESLOTS as int) == 0
    }
}

/// The hangtime of group call `c` has outlived `hangtime_secs` seconds at `now`.
pub open spec fn hangtime_expired(c: ActiveCall, now: TdmaTime, hangtime_secs: u16) -> bool {
    !c.tx_active && ({
        let since = match c.hangtime_start {
            Some(t) => t,
            None => TdmaTime { h: 0, m: 1, f: 1, t: 1 },
        };
        since.age_spec(now) > hangtime_secs * TIMER_TIMESLOTS_PER_SECOND
    })
}

/// What is owed for one command of the circuit manager.
#[derive(Clone, Copy, Debug, PartialEq, Eq, Structural)]
pub enum CircuitTickAction {
    /// D-SETUP resend for `call_id` on `ts` with `usage`, subject to the
    /// cached setup's own resend rules.
    ResendDSetup { call_id: u16, usage: u8, ts: u8 },
    /// The resend is suppressed: a release is pending or the individual call
    /// left its setup phase.
    SuppressDSetup { call_id: u16 },
    /// The circuit expired while a release is already pending; nothing more.
    SuppressClose { call_id: u16 },
    /// The circuit of group call `call_id` expired: begin its release.
    BeginGroupRelease { call_id: u16, circuit: CmceCircuit },
    /// The circuit of individual call `call_id` expired: begin its release.
    BeginIndividualRelease { call_id: u16, circuit: CmceCircuit },
    /// A circuit without call state expired: close it and free its timeslot.
    CloseStale { circuit: CmceCircuit },
}

/// The action owed for circuit manager command `cmd`, given the group
/// (`group_releasing`) and individual (`individual_releasing`) calls being
/// released and the call records of `cc`.
pub open spec fn circuit_tick_action(
    cc: CcBsSubentity,
    group_releasing: Set<u16>,
    individual_releasing: Set<u16>,
    cmd: CircuitMgrCmd,
) -> CircuitTickAction {
    match cmd {
        CircuitMgrCmd::SendDSetup(call_id, usage, ts) => if group_releasing.contains(call_id)
            || individual_releasing.contains(call_id) || (cc.individual_calls@.contains_key(call_id)
            && cc.individual_calls@[call_id].state != IndividualCallState::CallSetupPending) {
            CircuitTickAction::SuppressDSetup { call_id }
        } else {
            CircuitTickAction::ResendDSetup { call_id, usage, ts }
        },
        CircuitMgrCmd::SendClose(call_id, circuit) => if group_releasing.contains(call_id)
            || individual_releasing.contains(call_id) {
            CircuitTickAction::SuppressClose { call_id }
        } else if cc.active_calls@.contains_key(call_id) {
            CircuitTickAction::BeginGroupRelease { call_id, circuit }
        } else if cc.individual_calls@.contains_key(call_id) {
            CircuitTickAction::BeginIndividualRelease { call_id, circuit }
        } else {
            CircuitTickAction::CloseStale { circuit }
        },
    }
}

/// A test on the entries of a call table.
pub trait CallFilter<V> {
    /// The test, on key `k` and entry `v`.
    spec fn holds(&self, k: u16, v: V) -> bool;

    /// Runs the test.
    fn check(&self, k: u16, v: &V) -> (b: bool)
        ensures
            b == self.holds(k, *v),
    ;
}

/// The keys of `m` whose entries pass `f`, each once.
pub(crate) fn collect_keys<V, F: CallFilter<V>>(m: &HashMap<u16, V>, f: &F) -> (r: Vec<u16>)
    ensures
        forall|id: u16| #[trigger] r@.contains(id) <==> m@.contains_key(id) && f.holds(id, m@[id]),
        r@.no_duplicates(),
{
    let mut out: Vec<u16> = Vec::new();
    let ghost ks = vstd::std_specs::hash::spec_keys_iter(m).remaining().unref();
    for k in it: m.keys()
        invariant
            it.seq().unref() == ks,
            ks.to_set() == m@.dom(),
            ks.no_duplicates(),
            out@.no_duplicates(),
            forall|id: u16|
                #[trigger] out@.contains(id) <==> ks.take(it.index() as int).contains(id) && f.holds(id, m@[id]),
    {
        let ghost i = it.index() as int;
        proof {
            let t0 = ks.take(i);
            let t1 = ks.take(i + 1);
            assert(ks[i] == *k);
            assert(!t0.contains(*k)) by {
                if t0.contains(*k) {
                    let j = choose|j: int| 0 <= j < t0.len() && t0[j] == *k;
                    assert(ks[j] == ks[i]);
                }
            }
            assert(ks.to_set().contains(*k));
            assert forall|id: u16| t1.contains(id) <==> t0.contains(id) || id == *k by {
                if t1.contains(id) {
                    let j = choose|j: int| 0 <= j < t1.len() && t1[j] == id;
                    if j < i {
                        assert(t0[j] == id);
                    }
                }
                if t0.contains(id) {
                    let j = choose|j: int| 0 <= j < t0.len() && t0[j] == id;
                    assert(t1[j] == id);
                }
                if id == *k {
                    assert(t1[i] == id);
                }
            }
        }
        let ghost out0 = out@;
        match m.get(k) {
            Some(v) => {
                if f.check(*k, v) {
                    proof {
                        assert(!out0.contains(*k));
                    }
                    out.push(*k);
                    proof {
                        assert forall|a: int, b: int| 0 <= a < b < out@.len() implies out@[a] != out@[b] by {
                            if b == out0.len() {
                                assert(out0[a] == out@[a]);
                                assert(out0.contains(out@[a]));
                            } else {
                                assert(out0[a] == out@[a] && out0[b] == out@[b]);
                            }
                        }
                        assert forall|id: u16| #[trigger] out@.contains(id) <==> out0.contains(id) || id == *k by {
                            if out@.contains(id) {
                                let j = choose|j: int| 0 <= j < out@.len() && out@[j] == id;
                                if j < out0.len() {
                                    assert(out0[j] == id);
                                }
                            }
                            if out0.contains(id) {
                                let j = choose|j: int| 0 <= j < out0.len() && out0[j] == id;
                                assert(out@[j] == id);
                            }
                            if id == *k {
                                assert(out@[out0.len() as int] == id);
                            }
                        }
                    }
                }
            },
            None => {},
        }
    }
    proof {
        assert(ks.take(ks.len() as int) =~= ks);
        assert forall|id: u16| #[trigger] m@.contains_key(id) implies ks.contains(id) by {
            assert(ks.to_set().contains(id));
        }
        assert forall|id: u16| #[trigger] ks.contains(id) implies m@.contains_key(id) by {
            assert(ks.to_set().contains(id));
        }
    }
    out
}

/// Group calls timed out at `now` and not being released.
pub struct GroupTimeoutFilter<'a> {
    pub releasing: &'a HashSet<u16>,
    pub now: TdmaTime,
}

impl<'a> CallFilter<ActiveCall> for GroupTimeoutFilter<'a> {
    open spec fn holds(&self, k: u16, v: ActiveCall) -> bool {
        !self.releasing@.contains(k) && group_call_timed_out(v, self.now)
    }

    fn check(&self, k: u16, v: &ActiveCall) -> (b: bool) {
        !self.releasing.contains(&k) && v.call_timeout_expired(self.now)
    }
}

/// Group calls in hangtime for longer than `hangtime_secs` seconds at
/// `now` and not being released.
pub struct HangtimeFilter<'a> {
    pub releasing: &'a HashSet<u16>,
    pub now: TdmaTime,
    pub hangtime_secs: u16,
}

impl<'a> CallFilter<ActiveCall> for HangtimeFilter<'a> {
    open spec fn holds(&self, k: u16, v: ActiveCall) -> bool {
        !self.releasing@.contains(k) && hangtime_expired(v, self.now, self.hangtime_secs)
    }

    fn check(&self, k: u16, v: &ActiveCall) -> (b: bool) {
        if self.releasing.contains(&k) {
            return false;
        }
        let limit: i32 = self.hangtime_secs as i32 * TIMER_TIMESLOTS_PER_SECOND;
        match v.state() {
            crate::call::GroupCallState::NoActiveSpeaker { since } => since.age(self.now) > limit,
            crate::call::GroupCallState::Transmitting => false,
        }
    }
}

/// Which timer of individual calls a [`IndividualTimerFilter`] tests.
#[derive(Clone, Copy, Debug, PartialEq, Eq, Structural)]
pub enum IndividualTimer {
    /// Call timeout of active simplex calls.
    CallTimeout,
    /// Setup timeout.
    SetupTimeout,
    /// D-SETUP retry of pending setups.
    SetupRetry,
    /// Guard on a pending disconnect.
    DisconnectGuard,
}

/// Individual calls whose `timer` is due at `now`.
pub struct IndividualTimerFilter {
    pub timer: IndividualTimer,
    pub now: TdmaTime,
}

/// The `timer` of individual call `c` is due at `now`.
pub open spec fn individual_timer_due(timer: IndividualTimer, c: IndividualCall, now: TdmaTime) -> bool {
    match timer {
        IndividualTimer::CallTimeout => individual_call_timed_out(c, now),
        IndividualTimer::SetupTimeout => individual_setup_timed_out(c, now),
        IndividualTimer::SetupRetry => setup_retry_due(c, now),
        IndividualTimer::DisconnectGuard => disconnect_guard_expired(c, now) is Some,
    }
}

impl CallFilter<IndividualCall> for IndividualTimerFilter {
    open spec fn holds(&self, k: u16, v: IndividualCall) -> bool {
        individual_timer_due(self.timer, v, self.now)
    }

    fn check(&self, k: u16, v: &IndividualCall) -> (b: bool) {
        let now = self.now;
        match self.timer {
            IndividualTimer::CallTimeout => v.active_timeout_expired(now),
            IndividualTimer::SetupTimeout => v.setup_timeout_expired(now),
            IndividualTimer::SetupRetry => {
                let pending = match v.state {
                    IndividualCallState::CallSetupPending => true,
                    _ => false,
                };
                if !pending {
                    return false;
                }
                match v.setup_timer_started {
                    Some(started) => {
                        let age = started.age(now);
                        age >= DSETUP_FIRST_RETRY_AFTER_TIMESLOTS && (age - DSETUP_FIRST_RETRY_AFTER_TIMESLOTS)
                            % DSETUP_RETRY_INTERVAL_TIMESLOTS == 0
                    },
                    None => false,
                }
            },
            IndividualTimer::DisconnectGuard => v.pending_disconnect_timeout_expired(
                now,
                INDIVIDUAL_DISCONNECT_PENDING_TIMEOUT_TIMESLOTS,
            ).is_some(),
        }
    }
}

impl CcBsSubentity {
    /// Group calls whose call timeout (T310) expired, except those being
    /// released (`releasing`), each once.
    pub fn expired_group_calls(&self, releasing: &HashSet<u16>) -> (r: Vec<u16>)
        ensures
            forall|id: u16|
                #[trigger] r@.contains(id) <==> self.active_calls@.contains_key(id) && !releasing@.contains(id)
                    && group_call_timed_out(self.active_calls@[id], self.dltime),
            r@.no_duplicates(),
    {
        collect_keys(&self.active_calls, &GroupTimeoutFilter { releasing, now: self.dltime })
    }

    /// Group calls whose hangtime of `hangtime_secs` seconds expired, except
    /// those being released (`releasing`), each once.
    pub fn expired_hangtime_calls(&self, releasing: &HashSet<u16>, hangtime_secs: u16) -> (r: Vec<u16>)
        ensures
            forall|id: u16|
                #[trigger] r@.contains(id) <==> self.active_calls@.contains_key(id) && !releasing@.contains(id)
                    && hangtime_expired(self.active_calls@[id], self.dltime, hangtime_secs),
            r@.no_duplicates(),
    {
        collect_keys(&self.active_calls, &HangtimeFilter { releasing, now: self.dltime, hangtime_secs })
    }

    /// Individual calls whose `timer` is due, each once: active simplex calls
    /// past their call timeout, setups past their setup timeout, pending
    /// setups due a D-SETUP retry on the control channel, or disconnects
    /// whose guard expired.
    pub fn individual_calls_due(&self, timer: IndividualTimer) -> (r: Vec<u16>)
        ensures
            forall|id: u16|
                #[trigger] r@.contains(id) <==> self.individual_calls@.contains_key(id) && individual_timer_due(
                    timer,
                    self.individual_calls@[id],
                    self.dltime,
                ),
            r@.no_duplicates(),
    {
        collect_keys(&self.individual_calls, &IndividualTimerFilter { timer, now: self.dltime })
    }

    /// Pending disconnects whose guard expired, each once, with the cause to
    /// release them with.
    pub fn expired_disconnect_pending_calls(&self) -> (r: Vec<(u16, DisconnectCause)>)
        ensures
            forall|id: u16|
                self.individual_calls@.contains_key(id) && disconnect_guard_expired(
                    self.individual_calls@[id],
                    self.dltime,
                ) is Some ==> exists|i: int| 0 <= i < r@.len() && (#[trigger] r@[i]).0 == id,
            forall|i: int|
                0 <= i < r@.len() ==> self.individual_calls@.contains_key((#[trigger] r@[i]).0)
                    && disconnect_guard_expired(self.individual_calls@[r@[i].0], self.dltime) == Some(r@[i].1),
            forall|i: int, j: int| 0 <= i < j < r@.len() ==> (#[trigger] r@[i]).0 != (#[trigger] r@[j]).0,
    {
        let now = self.dltime;
        let ids = self.individual_calls_due(IndividualTimer::DisconnectGuard);
        let mut out: Vec<(u16, DisconnectCause)> = Vec::new();
        let mut i: usize = 0;
        while i < ids.len()
            invariant
                0 <= i <= ids@.len(),
                ids@.no_duplicates(),
                now == self.dltime,
                forall|id: u16|
                    #[trigger] ids@.contains(id) <==> self.individual_calls@.contains_key(id) && individual_timer_due(
                        IndividualTimer::DisconnectGuard,
                        self.individual_calls@[id],
                        now,
                    ),
                out@.len() == i,
                forall|j: int| 0 <= j < i ==> (#[trigger] out@[j]).0 == ids@[j],
                forall|j: int|
                    0 <= j < i ==> self.individual_calls@.contains_key((#[trigger] out@[j]).0)
                        && disconnect_guard_expired(self.individual_calls@[out@[j].0], now) == Some(out@[j].1),
            decreases ids@.len() - i,
        {
            let id = ids[i];
            proof {
                assert(ids@.contains(id));
            }
            let cause = match self.individual_calls.get(&id) {
                Some(call) => match call.pending_disconnect_timeout_expired(
                    now,
                    INDIVIDUAL_DISCONNECT_PENDING_TIMEOUT_TIMESLOTS,
                ) {
                    Some(cause) => cause,
                    None => DisconnectCause::ExpiryOfTimer,
                },
                None => DisconnectCause::ExpiryOfTimer,
            };
            out.push((id, cause));
            i = i + 1;
        }
        proof {
            assert forall|id: u16|
                self.individual_calls@.contains_key(id) && disconnect_guard_expired(
                    self.individual_calls@[id],
                    self.dltime,
                ) is Some implies exists|i: int| 0 <= i < out@.len() && (#[trigger] out@[i]).0 == id by {
                assert(ids@.contains(id));
                let i = choose|i: int| 0 <= i < ids@.len() && ids@[i] == id;
                assert(out@[i].0 == id);
            }
            assert forall|a: int, b: int| 0 <= a < b < out@.len() implies (#[trigger] out@[a]).0 != (
            #[trigger] out@[b]).0 by {
                assert(out@[a].0 == ids@[a] && out@[b].0 == ids@[b]);
            }
        }
        out
    }

    /// Advances the circuit manager to the current downlink time and says,
    /// for each of its commands in order, what is owed; calls being released
    /// are `group_releasing` and `individual_releasing`.
    pub fn tick_circuits(&mut self, group_releasing: &HashSet<u16>, individual_releasing: &HashSet<u16>) -> (r:
        Vec<CircuitTickAction>)
        requires
            old(self).circuits.wf(),
        ensures
            old(self).individual_calls_wf() ==> final(self).individual_calls_wf(),
            final(self).circuits.wf(),
            *final(self) == (CcBsSubentity { circuits: final(self).circuits, ..*old(self) }),
            final(self).circuits.dltime == old(self).dltime,
            final(self).circuits.next_call_identifier == old(self).circuits.next_call_identifier,
            final(self).circuits.next_usage_number == old(self).circuits.next_usage_number,
            ({
                let now = old(self).dltime;
                let c0 = old(self).circuits;
                let c1 = final(self).circuits;
                if now.t != 1 {
                    &&& r@.len() == 0
                    &&& c1.dl == c0.dl && c1.ul_only == c0.ul_only && c1.tx_data == c0.tx_data
                } else {
                    let cmds = expiry_close_cmds(c0.dl@, now) + expiry_close_cmds(c0.ul_only@, now) + d_setup_cmds(
                        c1.dl@,
                        now,
                    );
                    &&& c1.dl@ == without_expired(c0.dl@, now)
                    &&& c1.ul_only@ == without_expired(c0.ul_only@, now)
                    &&& r@.len() == cmds.len()
                    &&& forall|i: int|
                        0 <= i < cmds.len() ==> #[trigger] r@[i] == circuit_tick_action(
                            *old(self),
                            group_releasing@,
                            individual_releasing@,
                            cmds[i],
                        )
                }
            }),
    {
        let now = self.dltime;
        let cmds = match self.circuits.tick_start(now) {
            Some(v) => v,
            None => Vec::new(),
        };
        let mut out: Vec<CircuitTickAction> = Vec::new();
        let mut i: usize = 0;
        while i < cmds.len()
            invariant
                0 <= i <= cmds@.len(),
                out@.len() == i,
                forall|j: int|
                    0 <= j < i ==> #[trigger] out@[j] == circuit_tick_action(
                        *old(self),
                        group_releasing@,
                        individual_releasing@,
                        cmds@[j],
                    ),
                self.active_calls == old(self).active_calls,
                self.individual_calls == old(self).individual_calls,
            decreases cmds@.len() - i,
        {
            let action = match cmds[i] {
                CircuitMgrCmd::SendDSetup(call_id, usage, ts) => {
                    let setup_over = match self.individual_calls.get(&call_id) {
                        Some(call) => match call.state {
                            IndividualCallState::CallSetupPending => false,
                            _ => true,
                        },
                        None => false,
                    };
                    if group_releasing.contains(&call_id) || individual_releasing.contains(&call_id) || setup_over {
                        CircuitTickAction::SuppressDSetup { call_id }
                    } else {
                        CircuitTickAction::ResendDSetup { call_id, usage, ts }
                    }
                },
                CircuitMgrCmd::SendClose(call_id, circuit) => {
                    if group_releasing.contains(&call_id) || individual_releasing.contains(&call_id) {
                        CircuitTickAction::SuppressClose { call_id }
                    } else if self.active_calls.contains_key(&call_id) {
                        CircuitTickAction::BeginGroupRelease { call_id, circuit }
                    } else if self.individual_calls.contains_key(&call_id) {
                        CircuitTickAction::BeginIndividualRelease { call_id, circuit }
                    } else {
                        CircuitTickAction::CloseStale { circuit }
                    }
                },
            };
            out.push(action);
            i = i + 1;
        }
        out
    }
}

} // verus!
