//! Group call setup from a U-SETUP of a local station (EN 300 392-2 clause
//! 14.5.2.1): rejection before a call identity exists, mapping of a repeated
//! setup onto the call already maintained for the group, or a new call on a
//! fresh circuit.

use std::collections::{HashMap, HashSet};
use vstd::prelude::*;

use crate::address::TetraAddress;
use crate::call::{ActiveCall, CallOrigin, CallTimeout, DisconnectCause};
use crate::cc_bs::CcBsSubentity;
use crate::circuit_mgr::{
    CircuitErr, CircuitMgr, CircuitModeType, CmceCircuit, CommunicationType, dedup_first, present_call_ids,
};
use crate::floor::affiliated;
use crate::subscribers::listener_count;
use crate::timeslots::{Direction, TimeslotAllocator, TimeslotOwner};
use vstd::std_specs::iter::IteratorSpec;

verus! {

broadcast use vstd::std_specs::hash::group_hash_axioms;

/// The setup parameters a repeated U-SETUP must share with the call it joins.
#[derive(Clone, Copy, Debug)]
pub struct GroupSetupParams {
    pub hook_method_selection: bool,
    /// Full duplex when set.
    pub simplex_duplex_selection: bool,
    pub circuit_mode_type: CircuitModeType,
    pub encryption_flag: bool,
    pub communication_type: CommunicationType,
    pub slots_per_frame: Option<u8>,
    pub speech_service: Option<u8>,
}

/// The part of a group U-SETUP that setup decides on.
#[derive(Clone, Copy, Debug)]
pub struct GroupSetupRequest {
    /// The called group, when the PDU names one.
    pub called_party_ssi: Option<u32>,
    pub call_priority: u8,
    pub params: GroupSetupParams,
}

/// Cell configuration and registry facts that group setup reads.
#[derive(Clone, Copy, Debug)]
pub struct GroupSetupEnv {
    /// Cell option: pre-emptive priorities are supported.
    pub transmission_interruption_enabled: bool,
    /// The shared subscriber registry lists members of the called group.
    pub registry_has_members: bool,
    /// Configured call timeout of new calls.
    pub call_timeout: CallTimeout,
}

/// Tables of pending procedures that the call records do not hold.
pub struct GroupCallTables {
    /// Group calls whose release is under way.
    pub releasing: HashSet<u16>,
    /// Setup parameters of the cached D-SETUP of each call.
    pub cached_setups: HashMap<u16, GroupSetupParams>,
    /// Call identifiers held by other pending procedures.
    pub other_occupied: HashSet<u16>,
}

/// Decision on a group U-SETUP.
#[derive(Clone, Copy, Debug)]
pub enum GroupSetupOutcome {
    /// D-RELEASE with `cause` and the dummy call identity to the caller.
    Rejected { cause: DisconnectCause },
    /// The group already has a maintained call `call_id`: the setup is a floor
    /// request, to be handled as a reassertion by the current speaker
    /// (`reassert`) or as U-TX DEMAND with priority 0.
    JoinExisting { call_id: u16, reassert: bool },
    /// A new call was set up on `circuit`, with the caller holding the floor.
    Started { circuit: CmceCircuit },
}

/// Both parameter sets agree on every field a joining setup must share.
pub open spec fn setups_compatible(a: GroupSetupParams, b: GroupSetupParams) -> bool {
    &&& a.hook_method_selection == b.hook_method_selection
    &&& a.simplex_duplex_selection == b.simplex_duplex_selection
    &&& a.circuit_mode_type == b.circuit_mode_type
    &&& a.encryption_flag == b.encryption_flag
    &&& a.communication_type == b.communication_type
    &&& a.slots_per_frame == b.slots_per_frame
    &&& a.speech_service == b.speech_service
}

/// `id` is a group call of `calls` for group `gssi` whose release is
/// (`releasing_wanted`) or is not under way.
pub open spec fn group_call_of(
    calls: Map<u16, ActiveCall>,
    releasing: Set<u16>,
    gssi: u32,
    releasing_wanted: bool,
    id: u16,
) -> bool {
    calls.contains_key(id) && calls[id].dest_gssi == gssi && releasing.contains(id) == releasing_wanted
}

/// Outcome of a group U-SETUP (see [`CcBsSubentity::fsm_on_u_setup_group`]):
/// `before`/`after` are the sub-entity and `alloc_before`/`alloc_after` the
/// timeslot allocator before and after the setup that answered `r`.
pub open spec fn group_setup_done(
    before: CcBsSubentity,
    after: CcBsSubentity,
    alloc_before: TimeslotAllocator,
    alloc_after: TimeslotAllocator,
    request: GroupSetupRequest,
    calling_party: TetraAddress,
    env: GroupSetupEnv,
    tables: GroupCallTables,
    registry_members: Set<u32>,
    r: GroupSetupOutcome,
) -> bool {
    let m = before.active_calls@;
    let g = request.called_party_ssi->0;
    let rejected = GroupSetupOutcome::Rejected { cause: DisconnectCause::RequestedServiceNotAvailable };
    let unchanged = after == before && alloc_after == alloc_before;
    if !env.transmission_interruption_enabled && 12 <= request.call_priority <= 15 {
        r == rejected && unchanged
    } else if request.called_party_ssi is None {
        r == rejected && unchanged
    } else if !(env.registry_has_members || listener_count(before.group_listeners@, g) > 0
        || listener_count(before.external_group_listeners@, g) > 0) {
        r == rejected && unchanged
    } else if exists|id: u16| #[trigger] group_call_of(m, tables.releasing@, g, false, id) {
        &&& unchanged
        &&& match r {
            GroupSetupOutcome::JoinExisting { call_id, reassert } => {
                &&& group_call_of(m, tables.releasing@, g, false, call_id)
                &&& affiliated(before.subscriber_groups@, registry_members, calling_party.ssi, g)
                &&& !join_refused(tables.cached_setups@, request.params, call_id)
                &&& reassert == (m[call_id].tx_active && m[call_id].source_issi == calling_party.ssi)
            },
            GroupSetupOutcome::Rejected { cause } => {
                &&& cause == DisconnectCause::RequestedServiceNotAvailable
                &&& (!affiliated(before.subscriber_groups@, registry_members, calling_party.ssi, g)
                    || exists|id: u16|
                    #[trigger] group_call_of(m, tables.releasing@, g, false, id) && join_refused(
                        tables.cached_setups@,
                        request.params,
                        id,
                    ))
            },
            GroupSetupOutcome::Started { .. } => false,
        }
    } else {
        let occupied = occupied_ids(before, tables.other_occupied@);
        &&& after == (CcBsSubentity {
            circuits: after.circuits,
            active_calls: after.active_calls,
            ..before
        })
        &&& match r {
            GroupSetupOutcome::Started { circuit } => {
                &&& CircuitMgr::allocation_outcome(
                    before.circuits,
                    alloc_before.owners@,
                    Direction::Both,
                    request.params.communication_type,
                    request.params.simplex_duplex_selection,
                    TimeslotOwner::Cmce,
                    occupied,
                    Ok(circuit),
                    after.circuits,
                    alloc_after.owners@,
                )
                &&& after.active_calls@ == m.insert(
                    circuit.call_id,
                    after.active_calls@[circuit.call_id],
                )
                &&& new_local_group_call(
                    after.active_calls@[circuit.call_id],
                    calling_party,
                    g,
                    circuit,
                    before.dltime,
                    env.call_timeout,
                    request.call_priority,
                )
            },
            GroupSetupOutcome::Rejected { cause } => {
                &&& cause == DisconnectCause::CongestionInInfrastructure
                &&& after.active_calls == before.active_calls
                &&& exists|err: CircuitErr|
                    #[trigger] CircuitMgr::allocation_outcome(
                        before.circuits,
                        alloc_before.owners@,
                        Direction::Both,
                        request.params.communication_type,
                        request.params.simplex_duplex_selection,
                        TimeslotOwner::Cmce,
                        occupied,
                        Err::<CmceCircuit, CircuitErr>(err),
                        after.circuits,
                        alloc_after.owners@,
                    )
            },
            GroupSetupOutcome::JoinExisting { .. } => false,
        }
    }
}

/// The call identifiers [`CcBsSubentity::occupied_call_ids`] reports.
pub open spec fn occupied_ids(cc: CcBsSubentity, other_occupied: Set<u16>) -> Set<u16> {
    (cc.active_calls@.dom() + cc.individual_calls@.dom() + dedup_first(
        present_call_ids(cc.circuits.dl@ + cc.circuits.ul_only@),
    ).to_set() + match cc.parrot_session {
        Some(p) => set![p.call_id],
        None => Set::empty(),
    } + other_occupied).remove(0)
}

/// `c` is the record of a new local group call from `caller` to `gssi` on
/// `circuit`, set up at `now`, with the caller holding the floor.
pub open spec fn new_local_group_call(
    c: ActiveCall,
    caller: TetraAddress,
    gssi: u32,
    circuit: CmceCircuit,
    now: crate::tdma::TdmaTime,
    call_timeout: CallTimeout,
    priority: u8,
) -> bool {
    &&& c.floor_queue_wf()
    &&& c.floor_queue().len() == 0
    &&& c.origin == (CallOrigin::Local { caller_addr: caller })
    &&& c.dest_gssi == gssi
    &&& c.source_issi == caller.ssi
    &&& c.created_at == now
    &&& c.call_timeout == call_timeout
    &&& c.priority == priority
    &&& c.ts == circuit.ts
    &&& c.usage == circuit.usage
    &&& c.tx_active
    &&& c.hangtime_start is None
    &&& c.brew_uuid is None
}

/// A repeated setup cannot join call `id`: its D-SETUP is not cached or
/// its parameters differ.
pub open spec fn join_refused(tables_cached: Map<u16, GroupSetupParams>, params: GroupSetupParams, id: u16) -> bool {
    !tables_cached.contains_key(id) || !setups_compatible(tables_cached[id], params)
}

impl GroupSetupParams {
    /// The two parameter sets agree on every field a joining setup must share.
    pub fn compatible_with(&self, other: &GroupSetupParams) -> (r: bool)
        ensures
            r == setups_compatible(*self, *other),
    {
        let slots_equal = match (self.slots_per_frame, other.slots_per_frame) {
            (Some(a), Some(b)) => a == b,
            (None, None) => true,
            _ => false,
        };
        let speech_equal = match (self.speech_service, other.speech_service) {
            (Some(a), Some(b)) => a == b,
            (None, None) => true,
            _ => false,
        };
        self.hook_method_selection == other.hook_method_selection && self.simplex_duplex_selection
            == other.simplex_duplex_selection && self.circuit_mode_type == other.circuit_mode_type
            && self.encryption_flag == other.encryption_flag && self.communication_type
            == other.communication_type && slots_equal && speech_equal
    }
}

/// Adds the keys of `m` to `set`.
fn insert_keys<V>(set: &mut HashSet<u16>, m: &HashMap<u16, V>)
    ensures
        final(set)@ == old(set)@ + m@.dom(),
{
    let ghost s0 = set@;
    let ghost ks = vstd::std_specs::hash::spec_keys_iter(m).remaining().unref();
    for k in it: m.keys()
        invariant
            it.seq().unref() == ks,
            ks.to_set() == m@.dom(),
            set@ == s0 + ks.take(it.index() as int).to_set(),
    {
        proof {
            assert(it.seq().unref().take(it.index() as int + 1) =~= it.seq().unref().take(it.index() as int).push(*k));
            ks.take(it.index() as int).lemma_push_to_set_commute(*k);
        }
        set.insert(*k);
        proof {
            assert(set@ =~= s0 + ks.take(it.index() as int + 1).to_set());
        }
    }
    proof {
        assert(ks.take(ks.len() as int) =~= ks);
    }
}

impl CcBsSubentity {
    /// Group `gssi` has listeners: registry members (`registry_has_members`),
    /// affiliated local subscribers or affiliated bridge subscribers.
    pub fn has_listener(&self, gssi: u32, registry_has_members: bool) -> (r: bool)
        ensures
            r == (registry_has_members || listener_count(self.group_listeners@, gssi) > 0 || listener_count(
                self.external_group_listeners@,
                gssi,
            ) > 0),
    {
        if registry_has_members {
            return true;
        }
        let local = match self.group_listeners.get(&gssi) {
            Some(c) => *c,
            None => 0,
        };
        let external = match self.external_group_listeners.get(&gssi) {
            Some(c) => *c,
            None => 0,
        };
        local > 0 || external > 0
    }

    /// Group `gssi` has local listeners: registry members or affiliated local
    /// subscribers.
    pub fn has_local_listener(&self, gssi: u32, registry_has_members: bool) -> (r: bool)
        ensures
            r == (registry_has_members || listener_count(self.group_listeners@, gssi) > 0),
    {
        if registry_has_members {
            return true;
        }
        match self.group_listeners.get(&gssi) {
            Some(c) => *c > 0,
            None => false,
        }
    }

    /// The call identifiers in use: group and individual calls, open
    /// circuits, the parrot session and `other_occupied` (other pending
    /// procedures); never the dummy identity 0.
    pub fn occupied_call_ids(&self, other_occupied: &HashSet<u16>) -> (r: HashSet<u16>)
        ensures
            r@ == (self.active_calls@.dom() + self.individual_calls@.dom() + dedup_first(
                present_call_ids(self.circuits.dl@ + self.circuits.ul_only@),
            ).to_set() + match self.parrot_session {
                Some(p) => set![p.call_id],
                None => Set::empty(),
            } + other_occupied@).remove(0),
    {
        let mut ids: HashSet<u16> = HashSet::new();
        insert_keys(&mut ids, &self.active_calls);
        insert_keys(&mut ids, &self.individual_calls);
        let circuit_ids = self.circuits.active_call_ids();
        let ghost s1 = ids@;
        let mut i: usize = 0;
        while i < circuit_ids.len()
            invariant
                0 <= i <= circuit_ids@.len(),
                ids@ == s1 + circuit_ids@.take(i as int).to_set(),
            decreases circuit_ids@.len() - i,
        {
            proof {
                assert(circuit_ids@.take(i as int + 1) =~= circuit_ids@.take(i as int).push(circuit_ids@[i as int]));
                circuit_ids@.take(i as int).lemma_push_to_set_commute(circuit_ids@[i as int]);
            }
            ids.insert(circuit_ids[i]);
            proof {
                assert(ids@ =~= s1 + circuit_ids@.take(i as int + 1).to_set());
            }
            i = i + 1;
        }
        proof {
            assert(circuit_ids@.take(circuit_ids@.len() as int) =~= circuit_ids@);
        }
        let ghost s2 = ids@;
        match &self.parrot_session {
            Some(p) => {
                ids.insert(p.call_id);
            },
            None => {},
        }
        let ghost s3 = ids@;
        let ghost ks = vstd::std_specs::hash::spec_hash_keys_iter(other_occupied).remaining().unref();
        for k in it: other_occupied.iter()
            invariant
                it.seq().unref() == ks,
                ks.to_set() == other_occupied@,
                ids@ == s3 + ks.take(it.index() as int).to_set(),
        {
            proof {
                assert(it.seq().unref().take(it.index() as int + 1) =~= it.seq().unref().take(it.index() as int).push(*k));
                ks.take(it.index() as int).lemma_push_to_set_commute(*k);
            }
            ids.insert(*k);
            proof {
                assert(ids@ =~= s3 + ks.take(it.index() as int + 1).to_set());
            }
        }
        proof {
            assert(ks.take(ks.len() as int) =~= ks);
        }
        ids.remove(&0);
        proof {
            assert(ids@ =~= (self.active_calls@.dom() + self.individual_calls@.dom() + dedup_first(
                present_call_ids(self.circuits.dl@ + self.circuits.ul_only@),
            ).to_set() + match self.parrot_session {
                Some(p) => set![p.call_id],
                None => Set::empty(),
            } + other_occupied@).remove(0));
        }
        ids
    }

    /// Handles a group U-SETUP from `calling_party` (EN 300 392-2 clause
    /// 14.5.2.1): rejected before a call identity exists when pre-emptive
    /// priority is unsupported, no group is named, nobody listens, or a
    /// repeated setup cannot join the maintained call; mapped onto the
    /// maintained call of the group as a floor request; otherwise a new call
    /// on a fresh circuit, with the caller holding the floor.
    pub fn fsm_on_u_setup_group(
        &mut self,
        request: GroupSetupRequest,
        calling_party: TetraAddress,
        env: GroupSetupEnv,
        tables: &GroupCallTables,
        registry_members: &HashSet<u32>,
        timeslot_alloc: &mut TimeslotAllocator,
    ) -> (r: GroupSetupOutcome)
        requires
            old(self).circuits.wf(),
            old(self).calls_wf(),
        ensures
            old(self).individual_calls_wf() ==> final(self).individual_calls_wf(),
            final(self).circuits.wf(),
            final(self).calls_wf(),
            group_setup_done(
                *old(self),
                *final(self),
                *old(timeslot_alloc),
                *final(timeslot_alloc),
                request,
                calling_party,
                env,
                *tables,
                registry_members@,
                r,
            ),
    {
        if !env.transmission_interruption_enabled && Self::is_preemptive_call_priority(request.call_priority) {
            return GroupSetupOutcome::Rejected { cause: DisconnectCause::RequestedServiceNotAvailable };
        }
        let gssi = match request.called_party_ssi {
            Some(g) => g,
            None => {
                return GroupSetupOutcome::Rejected { cause: DisconnectCause::RequestedServiceNotAvailable };
            },
        };
        if !self.has_listener(gssi, env.registry_has_members) {
            return GroupSetupOutcome::Rejected { cause: DisconnectCause::RequestedServiceNotAvailable };
        }
        match self.find_group_call(gssi, &tables.releasing, false) {
            Some(call_id) => {
                if !self.subscriber_affiliated_to_group(calling_party.ssi, gssi, registry_members) {
                    return GroupSetupOutcome::Rejected { cause: DisconnectCause::RequestedServiceNotAvailable };
                }
                let compatible = match tables.cached_setups.get(&call_id) {
                    Some(existing) => existing.compatible_with(&request.params),
                    None => false,
                };
                if !compatible {
                    return GroupSetupOutcome::Rejected { cause: DisconnectCause::RequestedServiceNotAvailable };
                }
                let reassert = match self.active_calls.get(&call_id) {
                    Some(call) => call.is_current_speaker(calling_party.ssi),
                    None => false,
                };
                return GroupSetupOutcome::JoinExisting { call_id, reassert };
            },
            None => {},
        }
        let occupied = self.occupied_call_ids(&tables.other_occupied);
        let ghost m = self.active_calls@;
        let circuit = match self.circuits.allocate_circuit_with_allocator_duplex_avoiding(
            Direction::Both,
            request.params.communication_type,
            request.params.simplex_duplex_selection,
            timeslot_alloc,
            TimeslotOwner::Cmce,
            &occupied,
        ) {
            Ok(c) => c,
            Err(e) => {
                proof {
                    assert(CircuitMgr::allocation_outcome(
                        old(self).circuits,
                        old(timeslot_alloc).owners@,
                        Direction::Both,
                        request.params.communication_type,
                        request.params.simplex_duplex_selection,
                        TimeslotOwner::Cmce,
                        occupied@,
                        Err::<CmceCircuit, CircuitErr>(e),
                        self.circuits,
                        timeslot_alloc.owners@,
                    ));
                    assert(occupied@ == occupied_ids(*old(self), tables.other_occupied@));
                    assert(*self == (CcBsSubentity { circuits: self.circuits, active_calls: self.active_calls, ..*old(self) }));
                }
                return GroupSetupOutcome::Rejected { cause: DisconnectCause::CongestionInInfrastructure };
            },
        };
        let call = ActiveCall::new_local(
            calling_party,
            gssi,
            calling_party.ssi,
            circuit.ts,
            circuit.usage,
            self.dltime,
            env.call_timeout,
            request.call_priority,
        );
        self.active_calls.insert(circuit.call_id, call);
        proof {
            assert(self.active_calls@ =~= m.insert(circuit.call_id, self.active_calls@[circuit.call_id]));
        }
        GroupSetupOutcome::Started { circuit }
    }

    /// A group call for group `gssi` whose release is (`releasing_wanted`) or
    /// is not under way; `None` when there is none.
    pub fn find_group_call(&self, gssi: u32, releasing: &HashSet<u16>, releasing_wanted: bool) -> (r: Option<u16>)
        ensures
            match r {
                Some(id) => group_call_of(self.active_calls@, releasing@, gssi, releasing_wanted, id),
                None => forall|id: u16|
                    !#[trigger] group_call_of(self.active_calls@, releasing@, gssi, releasing_wanted, id),
            },
    {
        let ghost ks = vstd::std_specs::hash::spec_keys_iter(&self.active_calls).remaining().unref();
        for k in it: self.active_calls.keys()
            invariant
                it.seq().unref() == ks,
                ks.to_set() == self.active_calls@.dom(),
                forall|j: int|
                    0 <= j < it.index() ==> !group_call_of(
                        self.active_calls@,
                        releasing@,
                        gssi,
                        releasing_wanted,
                        #[trigger] ks[j],
                    ),
        {
            let ghost j = it.index() as int;
            proof {
                assert(ks[j] == *k);
                assert(ks.to_set().contains(*k));
            }
            match self.active_calls.get(k) {
                Some(call) => {
                    if call.dest_gssi == gssi && releasing.contains(k) == releasing_wanted {
                        return Some(*k);
                    }
                },
                None => {},
            }
        }
        proof {
            assert forall|id: u16| !#[trigger] group_call_of(self.active_calls@, releasing@, gssi, releasing_wanted, id) by {
                if self.active_calls@.contains_key(id) {
                    assert(ks.to_set().contains(id));
                    let j = choose|j: int| 0 <= j < ks.len() && ks[j] == id;
                    assert(!group_call_of(self.active_calls@, releasing@, gssi, releasing_wanted, ks[j]));
                }
            }
        }
        None
    }
}

} // verus!
