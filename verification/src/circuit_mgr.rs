//! The circuit manager: which traffic circuit occupies which timeslot in
//! which direction, allocation of call identifiers and usage markers, the
//! per-timeslot downlink signalling queues, and the periodic tasks (late-entry
//! D-SETUP repetition, expiry of forgotten simplex circuits).

use std::collections::{HashSet, VecDeque};
use vstd::prelude::*;

use crate::tdma::TdmaTime;
use crate::timeslots::{Direction, TimeslotAllocator, TimeslotOwner, first_free_traffic_ts};

verus! {

broadcast use vstd::std_specs::hash::group_hash_axioms;

/// D-SETUP is sent on creation and then repeated during this many frames.
pub const D_SETUP_REPEATS: i32 = 1;

/// Late-entry D-SETUP repetition interval: five multiframes.
pub const LATE_ENTRY_INTERVAL_TIMESLOTS: i32 = 360;

/// Largest 14-bit call identifier; 0 is the dummy identifier.
pub const MAX_CALL_IDENTIFIER: u16 = 0x3FFF;

/// Simplex circuits older than six minutes are closed.
pub const CIRCUIT_EXPIRY_TIMESLOTS: i32 = 25920;

/// First usage marker handed out; 0..=3 are reserved.
pub const FIRST_USAGE_NUMBER: u8 = 4;

/// Largest 5-bit usage marker.
pub const MAX_USAGE_NUMBER: u8 = 31;

/// Why a circuit operation failed.
#[derive(Clone, Copy, Debug, PartialEq, Eq, Structural)]
pub enum CircuitErr {
    NoCircuitFree,
    CircuitAlreadyInUse,
    CircuitNotActive,
    CallIdentifierExhausted,
}

/// Circuit mode type of a traffic channel.
#[derive(Clone, Copy, Debug, PartialEq, Eq, Structural)]
pub enum CircuitModeType {
    TchS,
    Tch72,
    Tch48N1,
    Tch48N4,
    Tch48N8,
    Tch24N1,
    Tch24N4,
    Tch24N8,
}

/// Communication type of a call.
#[derive(Clone, Copy, Debug, PartialEq, Eq, Structural)]
pub enum CommunicationType {
    P2p,
    P2Mp,
    P2MpAck,
    Broadcast,
}

/// One traffic circuit.
#[derive(Clone, Copy, Debug, PartialEq, Eq, Structural)]
pub struct CmceCircuit {
    pub ts_created: TdmaTime,
    pub direction: Direction,
    pub ts: u8,
    pub call_id: u16,
    pub usage: u8,
    pub circuit_mode: CircuitModeType,
    pub comm_type: CommunicationType,
    pub simplex_duplex: bool,
    pub speech_service: Option<u8>,
    pub etee_encrypted: bool,
}

/// Work that the circuit manager hands to the call control entity.
#[derive(Clone, Copy, Debug, PartialEq, Eq, Structural)]
pub enum CircuitMgrCmd {
    /// Send D-SETUP: call identifier, usage marker, timeslot.
    SendDSetup(u16, u8, u8),
    /// The circuit was closed by the manager.
    SendClose(u16, CmceCircuit),
}

/// Circuits per timeslot and per direction.
pub struct CircuitMgr {
    pub dltime: TdmaTime,
    /// Downlink and downlink+uplink circuits; index `ts - 1`.
    pub dl: [Option<CmceCircuit>; 4],
    /// Uplink-only circuits, with no recipients on this cell; index `ts - 1`.
    pub ul_only: [Option<CmceCircuit>; 4],
    /// Signalling blocks queued for transmission, per timeslot.
    pub tx_data: [VecDeque<Vec<u8>>; 4],
    /// Next 14-bit call identifier to try.
    pub next_call_identifier: u16,
    /// Next usage marker to hand out.
    pub next_usage_number: u8,
}

/// One take from the signalling queue `q`: its oldest block, if any, and
/// what stays queued.
pub open spec fn take_result(q: Seq<Vec<u8>>) -> (Option<Vec<u8>>, Seq<Vec<u8>>) {
    if q.len() == 0 {
        (None, q)
    } else {
        (Some(q[0]), q.subrange(1, q.len() as int))
    }
}

/// What `n` successive takes from queue `q` hand out, in order.
pub open spec fn takes(q: Seq<Vec<u8>>, n: nat) -> Seq<Option<Vec<u8>>>
    decreases n,
{
    if n == 0 {
        Seq::empty()
    } else {
        seq![take_result(q).0] + takes(take_result(q).1, (n - 1) as nat)
    }
}

/// Each block of `q`, as handed out by a take.
pub open spec fn handed_out(q: Seq<Vec<u8>>) -> Seq<Option<Vec<u8>>> {
    q.map_values(|x: Vec<u8>| Some(x))
}

/// Takes from a queue hand out its blocks from the oldest on, then nothing.
pub proof fn lemma_takes_in_order(q: Seq<Vec<u8>>, n: nat)
    ensures
        n <= q.len() ==> takes(q, n) == handed_out(q.take(n as int)),
        n > q.len() ==> takes(q, n) == handed_out(q) + Seq::new((n - q.len()) as nat, |i: int| None::<Vec<u8>>),
    decreases n,
{
    if n == 0 {
        assert(handed_out(q.take(0)) =~= Seq::<Option<Vec<u8>>>::empty());
    } else if q.len() == 0 {
        lemma_takes_in_order(q, (n - 1) as nat);
        assert(takes(q, n) =~= handed_out(q) + Seq::new((n - q.len()) as nat, |i: int| None::<Vec<u8>>));
    } else {
        let rest = q.subrange(1, q.len() as int);
        lemma_takes_in_order(rest, (n - 1) as nat);
        if n <= q.len() {
            assert(rest.take((n - 1) as int) =~= q.take(n as int).subrange(1, n as int));
            assert(takes(q, n) =~= handed_out(q.take(n as int)));
        } else {
            assert(takes(q, n) =~= handed_out(q) + Seq::new((n - q.len()) as nat, |i: int| None::<Vec<u8>>));
        }
    }
}

/// The signalling queue of a timeslot is first in, first out: after a
/// block `b` is put behind queued blocks `q`, successive takes hand out the
/// blocks of `q` in order, then `b`, then nothing.
pub proof fn lemma_put_then_take_fifo(q: Seq<Vec<u8>>, b: Vec<u8>)
    ensures
        takes(q.push(b), q.len() + 2) == handed_out(q) + seq![Some(b), None::<Vec<u8>>],
{
    lemma_takes_in_order(q.push(b), q.len() + 2);
    assert(handed_out(q.push(b)) + Seq::new(1, |i: int| None::<Vec<u8>>) =~= handed_out(q) + seq![
        Some(b),
        None::<Vec<u8>>,
    ]);
}

/// A stored call identifier, brought into the range 1..=MAX.
pub open spec fn normal_call_identifier(call_id: u16) -> u16 {
    if 1 <= call_id <= MAX_CALL_IDENTIFIER {
        call_id
    } else {
        1
    }
}

/// The identifier that follows `call_id`, wrapping from MAX to 1.
pub open spec fn call_identifier_after(call_id: u16) -> u16 {
    if call_id >= MAX_CALL_IDENTIFIER {
        1
    } else {
        (call_id + 1) as u16
    }
}

/// The `k`-th identifier visited when counting upwards from `start`
/// around the range 1..=MAX.
pub open spec fn cyclic_call_identifier(start: u16, k: int) -> u16 {
    ((start - 1 + k) % (MAX_CALL_IDENTIFIER as int) + 1) as u16
}

/// `id` is the first identifier, counting upwards from `start` around
/// 1..=MAX, that is not in `occupied`.
pub open spec fn first_unoccupied_call_id(start: u16, occupied: Set<u16>, id: u16) -> bool {
    &&& 1 <= id <= MAX_CALL_IDENTIFIER
    &&& !occupied.contains(id)
    &&& exists|k: int|
        0 <= k < MAX_CALL_IDENTIFIER && id == #[trigger] cyclic_call_identifier(start, k) && forall|j: int|
            0 <= j < k ==> occupied.contains(#[trigger] cyclic_call_identifier(start, j))
}

/// Every real call identifier is in `occupied`.
pub open spec fn all_call_ids_occupied(occupied: Set<u16>) -> bool {
    forall|id: u16| 1 <= id <= MAX_CALL_IDENTIFIER ==> occupied.contains(id)
}

/// The usage marker that follows `usage`, wrapping from 31 to 4.
pub open spec fn usage_number_after(usage: u8) -> u8 {
    if usage + 1 > MAX_USAGE_NUMBER {
        FIRST_USAGE_NUMBER
    } else {
        (usage + 1) as u8
    }
}

/// Counting on from an identifier in the range steps to the next one visited.
pub proof fn lemma_call_identifier_after_cyclic(start: u16, k: int)
    requires
        1 <= start <= MAX_CALL_IDENTIFIER,
        0 <= k,
    ensures
        1 <= cyclic_call_identifier(start, k) <= MAX_CALL_IDENTIFIER,
        call_identifier_after(cyclic_call_identifier(start, k)) == cyclic_call_identifier(start, k + 1),
{
    let m = MAX_CALL_IDENTIFIER as int;
    let x = start - 1 + k;
    vstd::arithmetic::div_mod::lemma_fundamental_div_mod(x, m);
    vstd::arithmetic::div_mod::lemma_fundamental_div_mod(x + 1, m);
    vstd::arithmetic::div_mod::lemma_mod_bound(x, m);
    vstd::arithmetic::div_mod::lemma_mod_bound(x + 1, m);
    if x % m == m - 1 {
        assert((x + 1) % m == 0) by {
            vstd::arithmetic::div_mod::lemma_add_mod_noop(x, 1, m);
            vstd::arithmetic::div_mod::lemma_mod_self_0(m);
        }
    } else {
        assert((x + 1) % m == x % m + 1) by {
            vstd::arithmetic::div_mod::lemma_add_mod_noop(x, 1, m);
            vstd::arithmetic::div_mod::lemma_small_mod((x % m + 1) as nat, m as nat);
        }
    }
}

/// Counting upwards from any start visits every identifier of 1..=MAX
/// within MAX steps.
pub proof fn lemma_cyclic_call_identifier_covers(start: u16, id: u16)
    requires
        1 <= start <= MAX_CALL_IDENTIFIER,
        1 <= id <= MAX_CALL_IDENTIFIER,
    ensures
        0 <= (id - start) % (MAX_CALL_IDENTIFIER as int) < MAX_CALL_IDENTIFIER,
        cyclic_call_identifier(start, (id - start) % (MAX_CALL_IDENTIFIER as int)) == id,
{
    let m = MAX_CALL_IDENTIFIER as int;
    let j = (id - start) % m;
    vstd::arithmetic::div_mod::lemma_mod_bound(id - start, m);
    assert((start - 1 + j) % m == (id - 1) % m) by {
        vstd::arithmetic::div_mod::lemma_add_mod_noop(start - 1, id - start, m);
        vstd::arithmetic::div_mod::lemma_mod_twice(id - start, m);
        vstd::arithmetic::div_mod::lemma_add_mod_noop(start - 1, j, m);
        vstd::arithmetic::div_mod::lemma_mod_twice(start - 1, m);
    }
    vstd::arithmetic::div_mod::lemma_small_mod((id - 1) as nat, m as nat);
}

/// Call identifiers of the open circuits in `slots`, in slot order.
pub open spec fn present_call_ids(slots: Seq<Option<CmceCircuit>>) -> Seq<u16>
    decreases slots.len(),
{
    if slots.len() == 0 {
        Seq::empty()
    } else {
        let prev = present_call_ids(slots.drop_last());
        match slots.last() {
            Some(c) => prev.push(c.call_id),
            None => prev,
        }
    }
}

/// `s` with every repeated value after its first occurrence dropped.
pub open spec fn dedup_first(s: Seq<u16>) -> Seq<u16>
    decreases s.len(),
{
    if s.len() == 0 {
        Seq::empty()
    } else {
        let d = dedup_first(s.drop_last());
        if d.contains(s.last()) {
            d
        } else {
            d.push(s.last())
        }
    }
}

/// A simplex circuit older than the expiry limit at time `now`.
pub open spec fn circuit_expired(c: CmceCircuit, now: TdmaTime) -> bool {
    !c.simplex_duplex && c.ts_created.age_spec(now) > CIRCUIT_EXPIRY_TIMESLOTS
}

/// D-SETUP is due for a downlink circuit at time `now`: during its first
/// frame after creation (the initial send and one back-up), and then at
/// every five-multiframe boundary of its age.
pub open spec fn d_setup_due(c: CmceCircuit, now: TdmaTime) -> bool {
    let age = c.ts_created.age_spec(now);
    (1 <= age <= 4) || ((age / 4) % 90 == 0)
}

/// The D-SETUP commands for `slots` include one for each circuit in them
/// that is due.
proof fn lemma_d_setup_cmds_include(slots: Seq<Option<CmceCircuit>>, now: TdmaTime, j: int)
    requires
        0 <= j < slots.len(),
        slots[j] is Some,
        d_setup_due(slots[j]->0, now),
    ensures
        d_setup_cmds(slots, now).contains(
            CircuitMgrCmd::SendDSetup(slots[j]->0.call_id, slots[j]->0.usage, slots[j]->0.ts),
        ),
    decreases slots.len(),
{
    let c = slots[j]->0;
    let cmd = CircuitMgrCmd::SendDSetup(c.call_id, c.usage, c.ts);
    let prev = d_setup_cmds(slots.drop_last(), now);
    if j == slots.len() - 1 {
        assert(prev.push(cmd)[prev.len() as int] == cmd);
    } else {
        assert(slots.drop_last()[j] == slots[j]);
        lemma_d_setup_cmds_include(slots.drop_last(), now, j);
        let k = choose|k: int| 0 <= k < prev.len() && prev[k] == cmd;
        match slots.last() {
            Some(l) => if d_setup_due(l, now) {
                assert(prev.push(CircuitMgrCmd::SendDSetup(l.call_id, l.usage, l.ts))[k] == cmd);
            },
            None => {},
        }
    }
}

/// Every D-SETUP command for `slots` is for a circuit in them that is due.
proof fn lemma_d_setup_cmds_only_due(slots: Seq<Option<CmceCircuit>>, now: TdmaTime, i: int)
    requires
        0 <= i < d_setup_cmds(slots, now).len(),
    ensures
        exists|j: int|
            0 <= j < slots.len() && (#[trigger] slots[j]) is Some && d_setup_cmds(slots, now)[i]
                == CircuitMgrCmd::SendDSetup(slots[j]->0.call_id, slots[j]->0.usage, slots[j]->0.ts)
                && d_setup_due(slots[j]->0, now),
    decreases slots.len(),
{
    let prev = d_setup_cmds(slots.drop_last(), now);
    if i < prev.len() {
        lemma_d_setup_cmds_only_due(slots.drop_last(), now, i);
        let j = choose|j: int|
            0 <= j < slots.drop_last().len() && (#[trigger] slots.drop_last()[j]) is Some && prev[i]
                == CircuitMgrCmd::SendDSetup(
                slots.drop_last()[j]->0.call_id,
                slots.drop_last()[j]->0.usage,
                slots.drop_last()[j]->0.ts,
            ) && d_setup_due(slots.drop_last()[j]->0, now);
        assert(slots[j] == slots.drop_last()[j]);
    } else {
        assert(slots[slots.len() - 1] == slots.last());
    }
}

/// Late entry: on a tick at timeslot 1 every downlink circuit that has not
/// expired gets its D-SETUP in the first frame of its age (the initial
/// send and one back-up) and again each time its age reaches a further
/// five multiframes (90 frames, 360 timeslots); a D-SETUP goes only to a
/// circuit that has not expired and whose age in frames is a whole number
/// of such periods or that is in its first frame.
pub proof fn lemma_late_entry_d_setup(dl: Seq<Option<CmceCircuit>>, now: TdmaTime, j: int, k: int)
    requires
        0 <= j < dl.len(),
        dl[j] is Some,
        !circuit_expired(dl[j]->0, now),
        (1 <= (dl[j]->0).ts_created.age_spec(now) <= 4) || (k >= 1 && (dl[j]->0).ts_created.age_spec(now) / 4
            == 90 * k),
    ensures
        d_setup_cmds(without_expired(dl, now), now).contains(
            CircuitMgrCmd::SendDSetup((dl[j]->0).call_id, (dl[j]->0).usage, (dl[j]->0).ts),
        ),
        forall|i: int|
            0 <= i < d_setup_cmds(without_expired(dl, now), now).len() ==> exists|j2: int|
                0 <= j2 < dl.len() && (#[trigger] dl[j2]) is Some && !circuit_expired(dl[j2]->0, now)
                    && #[trigger] d_setup_cmds(without_expired(dl, now), now)[i] == CircuitMgrCmd::SendDSetup(
                    dl[j2]->0.call_id,
                    dl[j2]->0.usage,
                    dl[j2]->0.ts,
                ) && ((1 <= (dl[j2]->0).ts_created.age_spec(now) <= 4) || ((dl[j2]->0).ts_created.age_spec(now)
                    / 4) % 90 == 0),
{
    let w = without_expired(dl, now);
    let c = dl[j]->0;
    assert(w[j] == Some(c));
    let age = c.ts_created.age_spec(now);
    if !(1 <= age <= 4) {
        assert((90 * k) % 90 == 0) by (nonlinear_arith)
            requires
                k >= 1,
        ;
    }
    lemma_d_setup_cmds_include(w, now, j);
    assert forall|i: int| 0 <= i < d_setup_cmds(w, now).len() implies exists|j2: int|
        0 <= j2 < dl.len() && (#[trigger] dl[j2]) is Some && !circuit_expired(dl[j2]->0, now) && #[trigger] d_setup_cmds(
            w,
            now,
        )[i] == CircuitMgrCmd::SendDSetup(dl[j2]->0.call_id, dl[j2]->0.usage, dl[j2]->0.ts) && ((1 <= (
        dl[j2]->0).ts_created.age_spec(now) <= 4) || ((dl[j2]->0).ts_created.age_spec(now) / 4) % 90 == 0) by {
        lemma_d_setup_cmds_only_due(w, now, i);
        let j2 = choose|j2: int|
            0 <= j2 < w.len() && (#[trigger] w[j2]) is Some && d_setup_cmds(w, now)[i] == CircuitMgrCmd::SendDSetup(
                w[j2]->0.call_id,
                w[j2]->0.usage,
                w[j2]->0.ts,
            ) && d_setup_due(w[j2]->0, now);
        assert(dl[j2] is Some && dl[j2] == w[j2]);
    }
}

/// What a tick at timeslot 1 of time `dltime` does to the manager
/// (`before` to `after`) and returns (`r`): expired circuits are closed and
/// announced, then D-SETUP is sent for each downlink circuit that is due.
pub open spec fn frame_tick_done(
    before: CircuitMgr,
    after: CircuitMgr,
    dltime: TdmaTime,
    r: Option<Vec<CircuitMgrCmd>>,
) -> bool {
    let cmds = expiry_close_cmds(before.dl@, dltime) + expiry_close_cmds(before.ul_only@, dltime) + d_setup_cmds(
        after.dl@,
        dltime,
    );
    &&& after.dl@ == without_expired(before.dl@, dltime)
    &&& after.ul_only@ == without_expired(before.ul_only@, dltime)
    &&& forall|j: int|
        0 <= j < 4 ==> if slot_expired(before.dl@[j], dltime) {
            after.tx_data@[j]@.len() == 0
        } else {
            after.tx_data@[j] == before.tx_data@[j]
        }
    &&& (cmds.len() == 0 ==> r is None)
    &&& (cmds.len() > 0 ==> (r matches Some(v) && v@ == cmds))
}

/// Late entry on a frame tick: when a tick at timeslot 1 finds a downlink
/// circuit that has not expired in the first frame of its age, or whose age
/// has reached a positive whole number of five multiframes (90 frames, 360
/// timeslots), the tick returns a D-SETUP command for it.
pub proof fn lemma_tick_sends_late_entry_d_setup(
    before: CircuitMgr,
    after: CircuitMgr,
    dltime: TdmaTime,
    r: Option<Vec<CircuitMgrCmd>>,
    j: int,
    k: int,
)
    requires
        frame_tick_done(before, after, dltime, r),
        0 <= j < before.dl@.len(),
        before.dl@[j] is Some,
        !circuit_expired(before.dl@[j]->0, dltime),
        (1 <= (before.dl@[j]->0).ts_created.age_spec(dltime) <= 4) || (k >= 1 && (
        before.dl@[j]->0).ts_created.age_spec(dltime) / 4 == 90 * k),
    ensures
        r matches Some(v) && v@.contains(
            CircuitMgrCmd::SendDSetup((before.dl@[j]->0).call_id, (before.dl@[j]->0).usage, (before.dl@[j]->0).ts),
        ),
{
    let c = before.dl@[j]->0;
    let cmd = CircuitMgrCmd::SendDSetup(c.call_id, c.usage, c.ts);
    lemma_late_entry_d_setup(before.dl@, dltime, j, k);
    let pre = expiry_close_cmds(before.dl@, dltime) + expiry_close_cmds(before.ul_only@, dltime);
    let ds = d_setup_cmds(after.dl@, dltime);
    let n = choose|n: int| 0 <= n < ds.len() && ds[n] == cmd;
    assert((pre + ds)[pre.len() + n] == cmd);
}

/// Call identifiers are the 14-bit values 1 to 16383 (0 is the dummy
/// identifier): a stored value outside that range starts again at 1, and
/// each identifier is followed by the next one, 16383 by 1.
pub proof fn lemma_call_identifier_range(call_id: u16)
    ensures
        1 <= normal_call_identifier(call_id) <= 0x3FFF,
        1 <= call_id <= 0x3FFF ==> normal_call_identifier(call_id) == call_id,
        1 <= call_identifier_after(call_id) <= 0x3FFF,
        1 <= call_id < 0x3FFF ==> call_identifier_after(call_id) == call_id + 1,
        call_id == 0x3FFF ==> call_identifier_after(call_id) == 1,
{
}

/// Usage markers are 5-bit values with 0 to 3 reserved: from a marker in
/// 4..=31 the next one is the following value, and 31 is followed by 4.
pub proof fn lemma_usage_number_wraps(usage: u8)
    requires
        4 <= usage <= 31,
    ensures
        4 <= usage_number_after(usage) <= 31,
        usage < 31 ==> usage_number_after(usage) == usage + 1,
        usage == 31 ==> usage_number_after(usage) == 4,
{
}

/// A duplex circuit never expires; a simplex one expires once its age
/// exceeds six minutes (360 multiframes, 25 920 timeslots).
pub proof fn lemma_circuit_expiry(c: CmceCircuit, now: TdmaTime)
    ensures
        c.simplex_duplex ==> !circuit_expired(c, now),
        !c.simplex_duplex ==> (circuit_expired(c, now) <==> c.ts_created.age_spec(now) > 360 * 72),
{
}

/// The slot holds a downlink+uplink circuit.
pub open spec fn slot_is_both(slot: Option<CmceCircuit>) -> bool {
    match slot {
        Some(c) => c.direction == Direction::Both,
        None => false,
    }
}

/// The slot holds an expired circuit.
pub open spec fn slot_expired(slot: Option<CmceCircuit>, now: TdmaTime) -> bool {
    match slot {
        Some(c) => circuit_expired(c, now),
        None => false,
    }
}

/// The closing commands for the expired circuits of `slots`, in slot order.
pub open spec fn expiry_close_cmds(slots: Seq<Option<CmceCircuit>>, now: TdmaTime) -> Seq<CircuitMgrCmd>
    decreases slots.len(),
{
    if slots.len() == 0 {
        Seq::empty()
    } else {
        let prev = expiry_close_cmds(slots.drop_last(), now);
        match slots.last() {
            Some(c) => if circuit_expired(c, now) {
                prev.push(CircuitMgrCmd::SendClose(c.call_id, c))
            } else {
                prev
            },
            None => prev,
        }
    }
}

/// `slots` with the expired circuits removed.
pub open spec fn without_expired(slots: Seq<Option<CmceCircuit>>, now: TdmaTime) -> Seq<Option<CmceCircuit>> {
    Seq::new(
        slots.len(),
        |i: int|
            match slots[i] {
                Some(c) => if circuit_expired(c, now) {
                    None
                } else {
                    Some(c)
                },
                None => None,
            },
    )
}

/// The D-SETUP commands due for the downlink circuits of `slots`, in slot order.
pub open spec fn d_setup_cmds(slots: Seq<Option<CmceCircuit>>, now: TdmaTime) -> Seq<CircuitMgrCmd>
    decreases slots.len(),
{
    if slots.len() == 0 {
        Seq::empty()
    } else {
        let prev = d_setup_cmds(slots.drop_last(), now);
        match slots.last() {
            Some(c) => if d_setup_due(c, now) {
                prev.push(CircuitMgrCmd::SendDSetup(c.call_id, c.usage, c.ts))
            } else {
                prev
            },
            None => prev,
        }
    }
}

fn vec_contains_u16(v: &Vec<u16>, x: u16) -> (r: bool)
    ensures
        r == v@.contains(x),
{
    let mut i: usize = 0;
    while i < v.len()
        invariant
            0 <= i <= v.len(),
            forall|j: int| 0 <= j < i ==> v@[j] != x,
        decreases v.len() - i,
    {
        if v[i] == x {
            return true;
        }
        i = i + 1;
    }
    false
}

impl CircuitMgr {
    /// Well-formedness: each stored circuit sits at the index of its own
    /// timeslot, with a direction that fits its table, a downlink+uplink
    /// circuit excludes an uplink-only one on the same timeslot, and the next
    /// usage marker is a real one.
    pub open spec fn wf(&self) -> bool {
        &&& forall|i: int|
            0 <= i < 4 ==> match #[trigger] self.dl@[i] {
                Some(c) => c.ts == i + 1 && c.direction.spec_includes_dl(),
                None => true,
            }
        &&& forall|i: int|
            0 <= i < 4 ==> match #[trigger] self.ul_only@[i] {
                Some(c) => c.ts == i + 1 && c.direction == Direction::Ul,
                None => true,
            }
        &&& forall|i: int| 0 <= i < 4 && slot_is_both(#[trigger] self.dl@[i]) ==> self.ul_only@[i] is None
        &&& FIRST_USAGE_NUMBER <= self.next_usage_number <= MAX_USAGE_NUMBER
    }

    /// A downlink circuit is open on timeslot `ts`.
    pub open spec fn dl_active(&self, ts: u8) -> bool {
        self.dl@[ts - 1] is Some
    }

    /// An uplink circuit is open on timeslot `ts`, either uplink-only or as
    /// part of a downlink+uplink circuit.
    pub open spec fn ul_active(&self, ts: u8) -> bool {
        match self.dl@[ts - 1] {
            Some(c) => c.direction == Direction::Both || self.ul_only@[ts - 1] is Some,
            None => self.ul_only@[ts - 1] is Some,
        }
    }

    /// Timeslot `ts` can take a new circuit in direction `dir`.
    pub open spec fn ts_free_for(&self, dir: Direction, ts: u8) -> bool {
        match dir {
            Direction::Dl => !self.dl_active(ts),
            Direction::Ul => !self.ul_active(ts),
            Direction::Both => !self.dl_active(ts) && !self.ul_active(ts),
            Direction::Neither => false,
        }
    }

    /// The lowest traffic timeslot (2..=4) free for `dir`, if any.
    pub open spec fn first_free_ts(&self, dir: Direction) -> Option<u8> {
        if self.ts_free_for(dir, 2) {
            Some(2u8)
        } else if self.ts_free_for(dir, 3) {
            Some(3u8)
        } else if self.ts_free_for(dir, 4) {
            Some(4u8)
        } else {
            None
        }
    }

    /// A fresh manager: no circuits, empty queues, identifiers and usage
    /// markers starting at 4.
    pub fn new() -> (r: CircuitMgr)
        ensures
            r.wf(),
            r.dltime == (TdmaTime { h: 0, m: 1, f: 1, t: 1 }),
            forall|i: int| 0 <= i < 4 ==> r.dl@[i] is None && r.ul_only@[i] is None && r.tx_data@[i]@.len() == 0,
            r.next_call_identifier == 4,
            r.next_usage_number == 4,
    {
        CircuitMgr {
            dltime: TdmaTime::start(),
            dl: [None, None, None, None],
            ul_only: [None, None, None, None],
            tx_data: [VecDeque::new(), VecDeque::new(), VecDeque::new(), VecDeque::new()],
            next_call_identifier: 4,
            next_usage_number: 4,
        }
    }

    /// Whether a circuit is open on timeslot `ts`: (downlink, uplink).
    pub fn is_active(&self, ts: u8) -> (r: (bool, bool))
        requires
            1 <= ts <= 4,
        ensures
            r == (self.dl_active(ts), self.ul_active(ts)),
    {
        let i = (ts - 1) as usize;
        match self.dl[i] {
            Some(dl) => {
                if dl.direction == Direction::Both {
                    (true, true)
                } else {
                    (true, self.ul_only[i].is_some())
                }
            },
            None => (false, self.ul_only[i].is_some()),
        }
    }

    /// Whether a circuit is open on timeslot `ts` in direction `dir`; any
    /// direction other than downlink or uplink alone answers `false`.
    pub fn is_active_dir(&self, ts: u8, dir: Direction) -> (r: bool)
        requires
            1 <= ts <= 4,
        ensures
            r == match dir {
                Direction::Dl => self.dl_active(ts),
                Direction::Ul => self.ul_active(ts),
                _ => false,
            },
    {
        let i = (ts - 1) as usize;
        match dir {
            Direction::Dl => self.dl[i].is_some(),
            Direction::Ul => {
                let dl_is_both = match self.dl[i] {
                    Some(dl) => dl.direction == Direction::Both,
                    None => false,
                };
                self.ul_only[i].is_some() || dl_is_both
            },
            _ => false,
        }
    }

    /// Usage markers of the circuits on timeslot `ts`: (downlink, uplink).
    /// A downlink+uplink circuit gives its marker for both.
    pub fn get_usage(&self, ts: u8) -> (r: (Option<u8>, Option<u8>))
        requires
            self.wf(),
            1 <= ts <= 4,
        ensures
            r.0 == match self.dl@[ts - 1] {
                Some(c) => Some(c.usage),
                None => None::<u8>,
            },
            r.1 == match self.dl@[ts - 1] {
                Some(c) if c.direction == Direction::Both => Some(c.usage),
                _ => match self.ul_only@[ts - 1] {
                    Some(u) => Some(u.usage),
                    None => None::<u8>,
                },
            },
    {
        let i = (ts - 1) as usize;
        let (dl_usage, dl_is_both) = match self.dl[i] {
            Some(dl) => (Some(dl.usage), dl.direction == Direction::Both),
            None => (None, false),
        };
        let ul_usage = if dl_is_both {
            dl_usage
        } else {
            match self.ul_only[i] {
                Some(ul) => Some(ul.usage),
                None => None,
            }
        };
        (dl_usage, ul_usage)
    }

    /// Hands out the next call identifier (stored values outside 1..=MAX
    /// count as 1) and moves on to the one after it.
    pub fn get_next_call_id(&mut self) -> (r: u16)
        ensures
            r == normal_call_identifier(old(self).next_call_identifier),
            1 <= r <= MAX_CALL_IDENTIFIER,
            final(self).next_call_identifier == call_identifier_after(r),
            final(self).dl == old(self).dl,
            final(self).ul_only == old(self).ul_only,
            final(self).tx_data == old(self).tx_data,
            final(self).dltime == old(self).dltime,
            final(self).next_usage_number == old(self).next_usage_number,
    {
        let call_id = Self::normal_call_identifier(self.next_call_identifier);
        self.next_call_identifier = Self::call_identifier_after(call_id);
        call_id
    }

    /// Hands out the first call identifier, counting upwards from the next
    /// one around 1..=MAX, that is not in `occupied`; fails when every
    /// identifier of 1..=MAX is occupied.
    pub fn get_next_call_id_avoiding(&mut self, occupied: &HashSet<u16>) -> (r: Result<u16, CircuitErr>)
        ensures
            ({
                let start = normal_call_identifier(old(self).next_call_identifier);
                match r {
                    Ok(id) => {
                        &&& first_unoccupied_call_id(start, occupied@, id)
                        &&& final(self).next_call_identifier == call_identifier_after(id)
                    },
                    Err(e) => {
                        &&& e == CircuitErr::CallIdentifierExhausted
                        &&& final(self).next_call_identifier == start
                    },
                }
            }),
            all_call_ids_occupied(occupied@) <==> r is Err,
            final(self).dl == old(self).dl,
            final(self).ul_only == old(self).ul_only,
            final(self).tx_data == old(self).tx_data,
            final(self).dltime == old(self).dltime,
            final(self).next_usage_number == old(self).next_usage_number,
    {
        let ghost start = normal_call_identifier(self.next_call_identifier);
        let mut k: u16 = 0;
        while k < MAX_CALL_IDENTIFIER
            invariant
                0 <= k <= MAX_CALL_IDENTIFIER,
                1 <= start <= MAX_CALL_IDENTIFIER,
                start == normal_call_identifier(old(self).next_call_identifier),
                normal_call_identifier(self.next_call_identifier) == cyclic_call_identifier(start, k as int),
                k > 0 ==> self.next_call_identifier == cyclic_call_identifier(start, k as int),
                forall|j: int| 0 <= j < k ==> occupied@.contains(#[trigger] cyclic_call_identifier(start, j)),
                self.dl == old(self).dl,
                self.ul_only == old(self).ul_only,
                self.tx_data == old(self).tx_data,
                self.dltime == old(self).dltime,
                self.next_usage_number == old(self).next_usage_number,
            decreases MAX_CALL_IDENTIFIER - k,
        {
            proof {
                lemma_call_identifier_after_cyclic(start, k as int);
            }
            let call_id = self.get_next_call_id();
            if !occupied.contains(&call_id) {
                proof {
                    assert(call_id == cyclic_call_identifier(start, k as int));
                }
                return Ok(call_id);
            }
            k = k + 1;
        }
        proof {
            assert forall|id: u16| 1 <= id <= MAX_CALL_IDENTIFIER implies occupied@.contains(id) by {
                lemma_cyclic_call_identifier_covers(start, id);
                let j = (id - start) % (MAX_CALL_IDENTIFIER as int);
                assert(occupied@.contains(cyclic_call_identifier(start, j)));
            }
            assert(cyclic_call_identifier(start, MAX_CALL_IDENTIFIER as int) == start) by {
                let m = MAX_CALL_IDENTIFIER as int;
                vstd::arithmetic::div_mod::lemma_mod_add_multiples_vanish(start - 1, m);
                vstd::arithmetic::div_mod::lemma_small_mod((start - 1) as nat, m as nat);
            }
        }
        Err(CircuitErr::CallIdentifierExhausted)
    }

    fn normal_call_identifier(call_id: u16) -> (r: u16)
        ensures
            r == normal_call_identifier(call_id),
    {
        if 1 <= call_id && call_id <= MAX_CALL_IDENTIFIER {
            call_id
        } else {
            1
        }
    }

    fn call_identifier_after(call_id: u16) -> (r: u16)
        ensures
            r == call_identifier_after(call_id),
    {
        if call_id >= MAX_CALL_IDENTIFIER {
            1
        } else {
            call_id + 1
        }
    }

    /// Hands out the next usage marker and moves on, wrapping from 31 to 4:
    /// usage markers are 5 bits wide and 0..=3 are reserved.
    pub fn get_next_usage_number(&mut self) -> (r: u8)
        requires
            old(self).next_usage_number < 255,
        ensures
            r == old(self).next_usage_number,
            final(self).next_usage_number == usage_number_after(r),
            final(self).dl == old(self).dl,
            final(self).ul_only == old(self).ul_only,
            final(self).tx_data == old(self).tx_data,
            final(self).dltime == old(self).dltime,
            final(self).next_call_identifier == old(self).next_call_identifier,
    {
        let usage = self.next_usage_number;
        self.next_usage_number = self.next_usage_number + 1;
        if self.next_usage_number > MAX_USAGE_NUMBER {
            self.next_usage_number = FIRST_USAGE_NUMBER;
        }
        usage
    }

    /// The lowest traffic timeslot free for `dir`.
    fn get_free_ts(&self, dir: Direction) -> (r: Result<u8, CircuitErr>)
        ensures
            match self.first_free_ts(dir) {
                Some(ts) => r == Ok::<u8, CircuitErr>(ts),
                None => r == Err::<u8, CircuitErr>(CircuitErr::NoCircuitFree),
            },
    {
        let mut ts: u8 = 2;
        while ts <= 4
            invariant
                2 <= ts <= 5,
                forall|j: u8| 2 <= j < ts ==> !self.ts_free_for(dir, j),
            decreases 5 - ts,
        {
            let (dl_active, ul_active) = self.is_active(ts);
            let free = match dir {
                Direction::Dl => !dl_active,
                Direction::Ul => !ul_active,
                Direction::Both => !dl_active && !ul_active,
                Direction::Neither => false,
            };
            if free {
                return Ok(ts);
            }
            ts = ts + 1;
        }
        Err(CircuitErr::NoCircuitFree)
    }

    /// `after` is `self` with circuit `c` opened in direction `dir` on its
    /// timeslot: a downlink circuit replaces the downlink entry and empties
    /// that timeslot's signalling queue, an uplink one the uplink entry.
    pub open spec fn opened(&self, dir: Direction, c: CmceCircuit, after: CircuitMgr) -> bool {
        let i = c.ts - 1;
        &&& after.dltime == self.dltime
        &&& after.next_call_identifier == self.next_call_identifier
        &&& after.next_usage_number == self.next_usage_number
        &&& if dir.spec_includes_dl() {
            &&& after.dl@ == self.dl@.update(i, Some(c))
            &&& after.ul_only@ == self.ul_only@
            &&& after.tx_data@[i]@.len() == 0
            &&& forall|j: int| 0 <= j < 4 && j != i ==> after.tx_data@[j] == self.tx_data@[j]
        } else {
            &&& after.dl@ == self.dl@
            &&& after.ul_only@ == self.ul_only@.update(i, Some(c))
            &&& after.tx_data@ == self.tx_data@
        }
    }

    /// The circuit `dir` on timeslot `ts` would clash with one already open.
    pub open spec fn open_clashes(&self, dir: Direction, ts: u8) -> bool {
        (dir.spec_includes_dl() && self.dl_active(ts)) || (dir.spec_includes_ul() && self.ul_active(ts))
    }

    /// Registers `circuit` on its timeslot in direction `dir`, refusing when
    /// a circuit is already open there in one of the directions it needs.
    fn open_circuit(&mut self, dir: Direction, circuit: CmceCircuit) -> (r: Result<CmceCircuit, CircuitErr>)
        requires
            old(self).wf(),
            1 <= circuit.ts <= 4,
            dir != Direction::Neither,
            circuit.direction == dir,
        ensures
            final(self).wf(),
            old(self).open_clashes(dir, circuit.ts) ==> r == Err::<CmceCircuit, CircuitErr>(
                CircuitErr::CircuitAlreadyInUse,
            ) && *final(self) == *old(self),
            !old(self).open_clashes(dir, circuit.ts) ==> r == Ok::<CmceCircuit, CircuitErr>(circuit)
                && old(self).opened(dir, circuit, *final(self)),
    {
        let ts = circuit.ts;
        let (dl_active, ul_active) = self.is_active(ts);
        if dir.includes_dl() && dl_active {
            return Err(CircuitErr::CircuitAlreadyInUse);
        }
        if dir.includes_ul() && ul_active {
            return Err(CircuitErr::CircuitAlreadyInUse);
        }
        let i = (ts - 1) as usize;
        if dir.includes_dl() {
            self.tx_data[i].clear();
            self.dl[i] = Some(circuit);
        } else {
            self.ul_only[i] = Some(circuit);
        }
        proof {
            assert forall|j: int| 0 <= j < 4 implies match #[trigger] self.ul_only@[j] {
                Some(c) => c.ts == j + 1 && c.direction == Direction::Ul,
                None => true,
            } by {
                if j != i as int {
                    assert(self.ul_only@[j] == old(self).ul_only@[j]);
                }
            }
        }
        Ok(circuit)
    }

    /// The circuit that an allocation on timeslot `ts` creates.
    pub open spec fn allocated_circuit(
        &self,
        dir: Direction,
        comm_type: CommunicationType,
        simplex_duplex: bool,
        ts: u8,
        call_id: u16,
    ) -> CmceCircuit {
        CmceCircuit {
            ts_created: self.dltime,
            direction: dir,
            ts,
            call_id,
            usage: self.next_usage_number,
            circuit_mode: CircuitModeType::TchS,
            comm_type,
            simplex_duplex,
            speech_service: Some(0u8),
            etee_encrypted: false,
        }
    }

    /// Opens a circuit in direction `dir` on the lowest traffic timeslot that
    /// is free for it, with the next call identifier and usage marker.
    pub fn allocate_circuit(&mut self, dir: Direction, comm_type: CommunicationType) -> (r: Result<
        CmceCircuit,
        CircuitErr,
    >)
        requires
            old(self).wf(),
        ensures
            final(self).wf(),
            match old(self).first_free_ts(dir) {
                None => r == Err::<CmceCircuit, CircuitErr>(CircuitErr::NoCircuitFree) && *final(self) == *old(self),
                Some(ts) => {
                    let call_id = normal_call_identifier(old(self).next_call_identifier);
                    let c = old(self).allocated_circuit(dir, comm_type, false, ts, call_id);
                    &&& r == Ok::<CmceCircuit, CircuitErr>(c)
                    &&& final(self).next_call_identifier == call_identifier_after(call_id)
                    &&& final(self).next_usage_number == usage_number_after(old(self).next_usage_number)
                    &&& (CircuitMgr {
                        next_call_identifier: old(self).next_call_identifier,
                        next_usage_number: old(self).next_usage_number,
                        ..*final(self)
                    }).opened_from(*old(self), dir, c)
                },
            },
    {
        self.allocate_circuit_duplex(dir, comm_type, false)
    }

    /// `self` is `before` with circuit `c` opened (see `opened`).
    pub open spec fn opened_from(&self, before: CircuitMgr, dir: Direction, c: CmceCircuit) -> bool {
        before.opened(dir, c, *self)
    }

    /// As `allocate_circuit`, with an explicit duplex flag.
    pub fn allocate_circuit_duplex(
        &mut self,
        dir: Direction,
        comm_type: CommunicationType,
        simplex_duplex: bool,
    ) -> (r: Result<CmceCircuit, CircuitErr>)
        requires
            old(self).wf(),
        ensures
            final(self).wf(),
            match old(self).first_free_ts(dir) {
                None => r == Err::<CmceCircuit, CircuitErr>(CircuitErr::NoCircuitFree) && *final(self) == *old(self),
                Some(ts) => {
                    let call_id = normal_call_identifier(old(self).next_call_identifier);
                    let c = old(self).allocated_circuit(dir, comm_type, simplex_duplex, ts, call_id);
                    &&& r == Ok::<CmceCircuit, CircuitErr>(c)
                    &&& final(self).next_call_identifier == call_identifier_after(call_id)
                    &&& final(self).next_usage_number == usage_number_after(old(self).next_usage_number)
                    &&& (CircuitMgr {
                        next_call_identifier: old(self).next_call_identifier,
                        next_usage_number: old(self).next_usage_number,
                        ..*final(self)
                    }).opened_from(*old(self), dir, c)
                },
            },
    {
        let ts = match self.get_free_ts(dir) {
            Ok(ts) => ts,
            Err(e) => {
                return Err(e);
            },
        };
        let call_id = self.get_next_call_id();
        let ghost mid = *self;
        let usage = self.get_next_usage_number();
        let circuit = CmceCircuit {
            ts_created: self.dltime,
            direction: dir,
            ts,
            call_id,
            usage,
            circuit_mode: CircuitModeType::TchS,
            comm_type,
            simplex_duplex,
            speech_service: Some(0),
            etee_encrypted: false,
        };
        proof {
            assert(self.open_clashes(dir, ts) == old(self).open_clashes(dir, ts));
            assert(!old(self).open_clashes(dir, ts));
        }
        self.open_circuit(dir, circuit)
    }

    /// Outcome of an allocation through the cell-wide timeslot allocator:
    /// the allocator's lowest free traffic timeslot is taken for `owner`; a
    /// call identifier is drawn avoiding `occupied`, then a usage marker, and
    /// the circuit is opened. When no identifier is left, or the manager
    /// already has a clashing circuit on that timeslot, the timeslot goes
    /// back to the allocator.
    pub open spec fn allocation_outcome(
        before: CircuitMgr,
        alloc_before: Seq<Option<TimeslotOwner>>,
        dir: Direction,
        comm_type: CommunicationType,
        simplex_duplex: bool,
        owner: TimeslotOwner,
        occupied: Set<u16>,
        r: Result<CmceCircuit, CircuitErr>,
        after: CircuitMgr,
        alloc_after: Seq<Option<TimeslotOwner>>,
    ) -> bool {
        let start = normal_call_identifier(before.next_call_identifier);
        match first_free_traffic_ts(alloc_before) {
            None => r == Err::<CmceCircuit, CircuitErr>(CircuitErr::NoCircuitFree) && after == before
                && alloc_after == alloc_before,
            Some(ts) => if all_call_ids_occupied(occupied) {
                &&& r == Err::<CmceCircuit, CircuitErr>(CircuitErr::CallIdentifierExhausted)
                &&& alloc_after == alloc_before
                &&& after == (CircuitMgr { next_call_identifier: start, ..before })
            } else {
                exists|id: u16|
                    #![trigger first_unoccupied_call_id(start, occupied, id)]
                    first_unoccupied_call_id(start, occupied, id) && {
                        let c = before.allocated_circuit(dir, comm_type, simplex_duplex, ts, id);
                        let advanced = CircuitMgr {
                            next_call_identifier: call_identifier_after(id),
                            next_usage_number: usage_number_after(before.next_usage_number),
                            ..before
                        };
                        if before.open_clashes(dir, ts) {
                            &&& r == Err::<CmceCircuit, CircuitErr>(CircuitErr::CircuitAlreadyInUse)
                            &&& alloc_after == alloc_before
                            &&& after == advanced
                        } else {
                            &&& r == Ok::<CmceCircuit, CircuitErr>(c)
                            &&& alloc_after == alloc_before.update(ts - 1, Some(owner))
                            &&& advanced.opened(dir, c, after)
                        }
                    }
            },
        }
    }

    /// Allocates a circuit with a timeslot from the cell-wide allocator.
    /// No circuit can be opened in direction `Neither`: such a request is
    /// taken only where it fails first, for want of a free timeslot.
    pub fn allocate_circuit_with_allocator(
        &mut self,
        dir: Direction,
        comm_type: CommunicationType,
        timeslot_alloc: &mut TimeslotAllocator,
        owner: TimeslotOwner,
    ) -> (r: Result<CmceCircuit, CircuitErr>)
        requires
            old(self).wf(),
            dir == Direction::Neither ==> first_free_traffic_ts(old(timeslot_alloc).owners@) is None,
        ensures
            final(self).wf(),
            Self::allocation_outcome(
                *old(self),
                old(timeslot_alloc).owners@,
                dir,
                comm_type,
                false,
                owner,
                Set::empty(),
                r,
                *final(self),
                final(timeslot_alloc).owners@,
            ),
    {
        self.allocate_circuit_with_allocator_duplex(dir, comm_type, false, timeslot_alloc, owner)
    }

    /// Allocates a circuit with a timeslot from the cell-wide allocator and
    /// an explicit duplex flag. A `Neither` request is taken only where no
    /// timeslot is free.
    pub fn allocate_circuit_with_allocator_duplex(
        &mut self,
        dir: Direction,
        comm_type: CommunicationType,
        simplex_duplex: bool,
        timeslot_alloc: &mut TimeslotAllocator,
        owner: TimeslotOwner,
    ) -> (r: Result<CmceCircuit, CircuitErr>)
        requires
            old(self).wf(),
            dir == Direction::Neither ==> first_free_traffic_ts(old(timeslot_alloc).owners@) is None,
        ensures
            final(self).wf(),
            Self::allocation_outcome(
                *old(self),
                old(timeslot_alloc).owners@,
                dir,
                comm_type,
                simplex_duplex,
                owner,
                Set::empty(),
                r,
                *final(self),
                final(timeslot_alloc).owners@,
            ),
    {
        let none: HashSet<u16> = HashSet::new();
        self.allocate_circuit_with_allocator_duplex_avoiding(dir, comm_type, simplex_duplex, timeslot_alloc, owner, &none)
    }

    /// Allocates a circuit with a timeslot from the cell-wide allocator and a
    /// call identifier that avoids the live ones in `occupied_call_ids`.
    /// A `Neither` request is taken only where it fails before a circuit
    /// would open: no timeslot free, or every identifier occupied.
    pub fn allocate_circuit_with_allocator_duplex_avoiding(
        &mut self,
        dir: Direction,
        comm_type: CommunicationType,
        simplex_duplex: bool,
        timeslot_alloc: &mut TimeslotAllocator,
        owner: TimeslotOwner,
        occupied_call_ids: &HashSet<u16>,
    ) -> (r: Result<CmceCircuit, CircuitErr>)
        requires
            old(self).wf(),
            dir == Direction::Neither ==> first_free_traffic_ts(old(timeslot_alloc).owners@) is None
                || all_call_ids_occupied(occupied_call_ids@),
        ensures
            final(self).wf(),
            Self::allocation_outcome(
                *old(self),
                old(timeslot_alloc).owners@,
                dir,
                comm_type,
                simplex_duplex,
                owner,
                occupied_call_ids@,
                r,
                *final(self),
                final(timeslot_alloc).owners@,
            ),
    {
        let ghost alloc0 = timeslot_alloc.owners@;
        let ts = match timeslot_alloc.allocate_any(owner) {
            Some(ts) => ts,
            None => {
                return Err(CircuitErr::NoCircuitFree);
            },
        };
        let ghost start = normal_call_identifier(self.next_call_identifier);
        let call_id = match self.get_next_call_id_avoiding(occupied_call_ids) {
            Ok(call_id) => call_id,
            Err(err) => {
                let _ = timeslot_alloc.release(owner, ts);
                proof {
                    assert(timeslot_alloc.owners@ =~= alloc0);
                }
                return Err(err);
            },
        };
        let usage = self.get_next_usage_number();
        let circuit = CmceCircuit {
            ts_created: self.dltime,
            direction: dir,
            ts,
            call_id,
            usage,
            circuit_mode: CircuitModeType::TchS,
            comm_type,
            simplex_duplex,
            speech_service: Some(0),
            etee_encrypted: false,
        };
        let ghost advanced = *self;
        proof {
            assert(first_unoccupied_call_id(start, occupied_call_ids@, call_id));
            assert(!occupied_call_ids@.contains(call_id));
            assert(self.open_clashes(dir, ts) == old(self).open_clashes(dir, ts));
        }
        match self.open_circuit(dir, circuit) {
            Ok(c) => Ok(c),
            Err(err) => {
                let _ = timeslot_alloc.release(owner, ts);
                proof {
                    assert(timeslot_alloc.owners@ =~= alloc0);
                }
                Err(err)
            },
        }
    }

    /// The outcome of allocating a second circuit for call `call_id`: the
    /// lowest free traffic timeslot is taken (even when the circuit then
    /// clashes), the usage number advances, and the circuit opens unless one
    /// is already open there.
    pub open spec fn call_allocation_outcome(
        before: CircuitMgr,
        alloc_before: Seq<Option<TimeslotOwner>>,
        call_id: u16,
        dir: Direction,
        comm_type: CommunicationType,
        simplex_duplex: bool,
        owner: TimeslotOwner,
        r: Result<CmceCircuit, CircuitErr>,
        after: CircuitMgr,
        alloc_after: Seq<Option<TimeslotOwner>>,
    ) -> bool {
        match first_free_traffic_ts(alloc_before) {
            None => r == Err::<CmceCircuit, CircuitErr>(CircuitErr::NoCircuitFree) && after == before && alloc_after
                == alloc_before,
            Some(ts) => {
                let c = before.allocated_circuit(dir, comm_type, simplex_duplex, ts, call_id);
                let advanced = CircuitMgr { next_usage_number: usage_number_after(before.next_usage_number), ..before };
                &&& alloc_after == alloc_before.update(ts - 1, Some(owner))
                &&& if before.open_clashes(dir, ts) {
                    r == Err::<CmceCircuit, CircuitErr>(CircuitErr::CircuitAlreadyInUse) && after == advanced
                } else {
                    r == Ok::<CmceCircuit, CircuitErr>(c) && advanced.opened(dir, c, after)
                }
            },
        }
    }

    /// Opens one more circuit for the existing call `call_id` (the second
    /// leg of a duplex individual call) on a timeslot from the cell-wide
    /// allocator. The timeslot stays taken when opening fails. A `Neither`
    /// request is taken only where no timeslot is free.
    pub fn allocate_circuit_for_call_with_allocator(
        &mut self,
        call_id: u16,
        dir: Direction,
        comm_type: CommunicationType,
        simplex_duplex: bool,
        timeslot_alloc: &mut TimeslotAllocator,
        owner: TimeslotOwner,
    ) -> (r: Result<CmceCircuit, CircuitErr>)
        requires
            old(self).wf(),
            dir == Direction::Neither ==> first_free_traffic_ts(old(timeslot_alloc).owners@) is None,
        ensures
            final(self).wf(),
            Self::call_allocation_outcome(
                *old(self),
                old(timeslot_alloc).owners@,
                call_id,
                dir,
                comm_type,
                simplex_duplex,
                owner,
                r,
                *final(self),
                final(timeslot_alloc).owners@,
            ),
    {
        let ts = match timeslot_alloc.allocate_any(owner) {
            Some(ts) => ts,
            None => {
                return Err(CircuitErr::NoCircuitFree);
            },
        };
        let usage = self.get_next_usage_number();
        let circuit = CmceCircuit {
            ts_created: self.dltime,
            direction: dir,
            ts,
            call_id,
            usage,
            circuit_mode: CircuitModeType::TchS,
            comm_type,
            simplex_duplex,
            speech_service: Some(0),
            etee_encrypted: false,
        };
        proof {
            assert(self.open_clashes(dir, ts) == old(self).open_clashes(dir, ts));
        }
        self.open_circuit(dir, circuit)
    }

    /// Closes the circuits of timeslot `ts`: the downlink (or
    /// downlink+uplink) one for `Dl`, which also drops the queued signalling;
    /// the uplink-only one for `Ul`; both directions for `Both`. Returns the
    /// downlink circuit for `Dl` and `Both`, the uplink-only one for `Ul`.
    pub fn close_circuit(&mut self, dir: Direction, ts: u8) -> (r: Result<CmceCircuit, CircuitErr>)
        requires
            old(self).wf(),
            1 <= ts <= 4,
            dir != Direction::Neither,
        ensures
            final(self).wf(),
            final(self).dltime == old(self).dltime,
            final(self).next_call_identifier == old(self).next_call_identifier,
            final(self).next_usage_number == old(self).next_usage_number,
            dir.spec_includes_dl() ==> {
                &&& r == match old(self).dl@[ts - 1] {
                    Some(c) => Ok::<CmceCircuit, CircuitErr>(c),
                    None => Err::<CmceCircuit, CircuitErr>(CircuitErr::CircuitNotActive),
                }
                &&& final(self).dl@ == old(self).dl@.update(ts - 1, None)
                &&& final(self).ul_only@ == if dir == Direction::Both {
                    old(self).ul_only@.update(ts - 1, None)
                } else {
                    old(self).ul_only@
                }
                &&& final(self).tx_data@[ts - 1]@.len() == 0
                &&& forall|j: int| 0 <= j < 4 && j != ts - 1 ==> final(self).tx_data@[j] == old(self).tx_data@[j]
            },
            dir == Direction::Ul ==> {
                &&& r == match old(self).ul_only@[ts - 1] {
                    Some(c) => Ok::<CmceCircuit, CircuitErr>(c),
                    None => Err::<CmceCircuit, CircuitErr>(CircuitErr::CircuitNotActive),
                }
                &&& final(self).ul_only@ == old(self).ul_only@.update(ts - 1, None)
                &&& final(self).dl@ == old(self).dl@
                &&& final(self).tx_data@ == old(self).tx_data@
            },
    {
        let i = (ts - 1) as usize;
        match dir {
            Direction::Ul => {
                let circuit = self.ul_only[i].take();
                match circuit {
                    Some(c) => Ok(c),
                    None => Err(CircuitErr::CircuitNotActive),
                }
            },
            _ => {
                self.tx_data[i].clear();
                let circuit = self.dl[i].take();
                if matches!(dir, Direction::Both) {
                    self.ul_only[i] = None;
                }
                proof {
                    assert forall|j: int| 0 <= j < 4 && slot_is_both(#[trigger] self.dl@[j]) implies self.ul_only@[j] is None by {
                        if j != i as int {
                            assert(self.dl@[j] == old(self).dl@[j]);
                        }
                    }
                }
                match circuit {
                    Some(c) => Ok(c),
                    None => Err(CircuitErr::CircuitNotActive),
                }
            },
        }
    }

    /// Queues a signalling block for transmission on the downlink circuit of
    /// timeslot `ts`; fails when no downlink circuit is open there.
    pub fn put_block(&mut self, ts: u8, block: Vec<u8>) -> (r: Result<(), CircuitErr>)
        requires
            1 <= ts <= 4,
        ensures
            !old(self).dl_active(ts) ==> r == Err::<(), CircuitErr>(CircuitErr::CircuitNotActive) && *final(self)
                == *old(self),
            old(self).dl_active(ts) ==> r is Ok && final(self).tx_data@[ts - 1]@ == old(self).tx_data@[ts
                - 1]@.push(block),
            forall|j: int| 0 <= j < 4 && j != ts - 1 ==> final(self).tx_data@[j] == old(self).tx_data@[j],
            final(self).dl == old(self).dl,
            final(self).ul_only == old(self).ul_only,
            final(self).dltime == old(self).dltime,
            final(self).next_call_identifier == old(self).next_call_identifier,
            final(self).next_usage_number == old(self).next_usage_number,
    {
        if !self.is_active_dir(ts, Direction::Dl) {
            Err(CircuitErr::CircuitNotActive)
        } else {
            self.tx_data[(ts - 1) as usize].push_back(block);
            Ok(())
        }
    }

    /// Takes the oldest queued signalling block of timeslot `ts`, if any;
    /// fails when no downlink circuit is open there.
    pub fn take_block(&mut self, ts: u8) -> (r: Result<Option<Vec<u8>>, CircuitErr>)
        requires
            1 <= ts <= 4,
        ensures
            !old(self).dl_active(ts) ==> r == Err::<Option<Vec<u8>>, CircuitErr>(CircuitErr::CircuitNotActive)
                && *final(self) == *old(self),
            old(self).dl_active(ts) ==> {
                let q = old(self).tx_data@[ts - 1]@;
                &&& r == Ok::<Option<Vec<u8>>, CircuitErr>(take_result(q).0)
                &&& final(self).tx_data@[ts - 1]@ == take_result(q).1
            },
            forall|j: int| 0 <= j < 4 && j != ts - 1 ==> final(self).tx_data@[j] == old(self).tx_data@[j],
            final(self).dl == old(self).dl,
            final(self).ul_only == old(self).ul_only,
            final(self).dltime == old(self).dltime,
            final(self).next_call_identifier == old(self).next_call_identifier,
            final(self).next_usage_number == old(self).next_usage_number,
    {
        if !self.is_active_dir(ts, Direction::Dl) {
            Err(CircuitErr::CircuitNotActive)
        } else {
            Ok(self.tx_data[(ts - 1) as usize].pop_front())
        }
    }

    /// The call identifiers of all open circuits, downlink table first, each
    /// listed once in order of first appearance.
    pub fn active_call_ids(&self) -> (r: Vec<u16>)
        ensures
            r@ == dedup_first(present_call_ids(self.dl@ + self.ul_only@)),
    {
        let ghost all = self.dl@ + self.ul_only@;
        let mut ids: Vec<u16> = Vec::new();
        let mut i: usize = 0;
        while i < 8
            invariant
                0 <= i <= 8,
                all == self.dl@ + self.ul_only@,
                all.len() == 8,
                ids@ == dedup_first(present_call_ids(all.take(i as int))),
            decreases 8 - i,
        {
            let slot = if i < 4 {
                self.dl[i]
            } else {
                self.ul_only[i - 4]
            };
            proof {
                assert(slot == all[i as int]);
                assert(all.take(i as int + 1).drop_last() =~= all.take(i as int));
                assert(all.take(i as int + 1).last() == all[i as int]);
            }
            match slot {
                Some(circuit) => {
                    proof {
                        let p = present_call_ids(all.take(i as int));
                        assert(present_call_ids(all.take(i as int + 1)) == p.push(circuit.call_id));
                        assert(p.push(circuit.call_id).drop_last() =~= p);
                    }
                    if !vec_contains_u16(&ids, circuit.call_id) {
                        ids.push(circuit.call_id);
                    }
                },
                None => {},
            }
            i = i + 1;
        }
        proof {
            assert(all.take(8) =~= all);
        }
        ids
    }

    /// Closes every expired simplex circuit, downlink table first, appending
    /// a closing command per closed circuit to `tasks`.
    fn close_expired_circuits(&mut self, tasks: &mut Vec<CircuitMgrCmd>)
        requires
            old(self).wf(),
        ensures
            final(self).wf(),
            final(tasks)@ == old(tasks)@ + expiry_close_cmds(old(self).dl@, old(self).dltime) + expiry_close_cmds(
                old(self).ul_only@,
                old(self).dltime,
            ),
            final(self).dl@ == without_expired(old(self).dl@, old(self).dltime),
            final(self).ul_only@ == without_expired(old(self).ul_only@, old(self).dltime),
            forall|j: int|
                0 <= j < 4 ==> if slot_expired(old(self).dl@[j], old(self).dltime) {
                    final(self).tx_data@[j]@.len() == 0
                } else {
                    final(self).tx_data@[j] == old(self).tx_data@[j]
                },
            final(self).dltime == old(self).dltime,
            final(self).next_call_identifier == old(self).next_call_identifier,
            final(self).next_usage_number == old(self).next_usage_number,
    {
        let now = self.dltime;
        let ghost dl0 = self.dl@;
        let ghost ul0 = self.ul_only@;
        let ghost tasks0 = tasks@;
        let mut i: usize = 0;
        while i < 4
            invariant
                0 <= i <= 4,
                self.wf(),
                self.dltime == now,
                now == old(self).dltime,
                dl0 == old(self).dl@,
                ul0 == old(self).ul_only@,
                self.ul_only@ == ul0,
                self.next_call_identifier == old(self).next_call_identifier,
                self.next_usage_number == old(self).next_usage_number,
                tasks@ == tasks0 + expiry_close_cmds(dl0.take(i as int), now),
                forall|j: int| 0 <= j < i ==> self.dl@[j] == without_expired(dl0, now)[j],
                forall|j: int| i <= j < 4 ==> self.dl@[j] == dl0[j],
                forall|j: int|
                    0 <= j < 4 ==> if j < i && slot_expired(dl0[j], now) {
                        self.tx_data@[j]@.len() == 0
                    } else {
                        self.tx_data@[j] == old(self).tx_data@[j]
                    },
            decreases 4 - i,
        {
            proof {
                assert(dl0.take(i as int + 1).drop_last() =~= dl0.take(i as int));
                assert(dl0.take(i as int + 1).last() == dl0[i as int]);
            }
            match self.dl[i] {
                Some(circuit) => {
                    if !circuit.simplex_duplex && circuit.ts_created.age(now) > CIRCUIT_EXPIRY_TIMESLOTS {
                        let ts = (i + 1) as u8;
                        let ghost before = *self;
                        match self.close_circuit(circuit.direction, ts) {
                            Ok(closed) => {
                                tasks.push(CircuitMgrCmd::SendClose(circuit.call_id, closed));
                            },
                            Err(_) => {},
                        }
                    }
                },
                None => {},
            }
            i = i + 1;
        }
        proof {
            assert(dl0.take(4) =~= dl0);
            assert(self.dl@ =~= without_expired(dl0, now));
        }
        let ghost tasks1 = tasks@;
        let ghost dl1 = self.dl@;
        let ghost tx1 = self.tx_data@;
        let mut i: usize = 0;
        while i < 4
            invariant
                0 <= i <= 4,
                self.wf(),
                self.dltime == now,
                ul0 == old(self).ul_only@,
                self.dl@ == dl1,
                self.tx_data@ == tx1,
                self.next_call_identifier == old(self).next_call_identifier,
                self.next_usage_number == old(self).next_usage_number,
                tasks@ == tasks1 + expiry_close_cmds(ul0.take(i as int), now),
                forall|j: int| 0 <= j < i ==> self.ul_only@[j] == without_expired(ul0, now)[j],
                forall|j: int| i <= j < 4 ==> self.ul_only@[j] == ul0[j],
            decreases 4 - i,
        {
            proof {
                assert(ul0.take(i as int + 1).drop_last() =~= ul0.take(i as int));
                assert(ul0.take(i as int + 1).last() == ul0[i as int]);
            }
            match self.ul_only[i] {
                Some(circuit) => {
                    if !circuit.simplex_duplex && circuit.ts_created.age(now) > CIRCUIT_EXPIRY_TIMESLOTS {
                        let ts = (i + 1) as u8;
                        match self.close_circuit(circuit.direction, ts) {
                            Ok(closed) => {
                                tasks.push(CircuitMgrCmd::SendClose(circuit.call_id, closed));
                            },
                            Err(_) => {},
                        }
                    }
                },
                None => {},
            }
            i = i + 1;
        }
        proof {
            assert(ul0.take(4) =~= ul0);
            assert(self.ul_only@ =~= without_expired(ul0, now));
        }
    }

    /// Start of a downlink timeslot. On timeslot 1 of each frame, closes the
    /// expired simplex circuits and then queues a D-SETUP for every remaining
    /// downlink circuit that is due one; returns the commands, or `None` when
    /// there are none.
    pub fn tick_start(&mut self, dltime: TdmaTime) -> (r: Option<Vec<CircuitMgrCmd>>)
        requires
            old(self).wf(),
        ensures
            final(self).wf(),
            final(self).dltime == dltime,
            final(self).next_call_identifier == old(self).next_call_identifier,
            final(self).next_usage_number == old(self).next_usage_number,
            dltime.t != 1 ==> r is None && final(self).dl == old(self).dl && final(self).ul_only
                == old(self).ul_only && final(self).tx_data == old(self).tx_data,
            dltime.t == 1 ==> frame_tick_done(*old(self), *final(self), dltime, r),
    {
        self.dltime = dltime;
        if dltime.t == 1 {
            let mut tasks: Vec<CircuitMgrCmd> = Vec::new();
            self.close_expired_circuits(&mut tasks);
            let ghost tasks1 = tasks@;
            let ghost dl1 = self.dl@;
            let ghost tx1 = self.tx_data@;
            let mut i: usize = 0;
            while i < 4
                invariant
                    0 <= i <= 4,
                    self.dl@ == dl1,
                    self.tx_data@ == tx1,
                    dl1.len() == 4,
                    tasks@ == tasks1 + d_setup_cmds(dl1.take(i as int), dltime),
                decreases 4 - i,
            {
                proof {
                    assert(dl1.take(i as int + 1).drop_last() =~= dl1.take(i as int));
                    assert(dl1.take(i as int + 1).last() == dl1[i as int]);
                }
                match self.dl[i] {
                    Some(circuit) => {
                        let age = circuit.ts_created.age(dltime);
                        if 1 <= age && age <= 4 {
                            tasks.push(CircuitMgrCmd::SendDSetup(circuit.call_id, circuit.usage, circuit.ts));
                        } else if (age / 4) % (LATE_ENTRY_INTERVAL_TIMESLOTS / 4) == 0 {
                            tasks.push(CircuitMgrCmd::SendDSetup(circuit.call_id, circuit.usage, circuit.ts));
                        }
                    },
                    None => {},
                }
                i = i + 1;
            }
            proof {
                assert(dl1.take(4) =~= dl1);
                assert(tasks@ =~= expiry_close_cmds(old(self).dl@, dltime) + expiry_close_cmds(
                    old(self).ul_only@,
                    dltime,
                ) + d_setup_cmds(self.dl@, dltime));
            }
            if tasks.len() == 0 {
                return None;
            }
            return Some(tasks);
        }
        None
    }
}

} // verus!
