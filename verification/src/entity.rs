//! The call control sub-entity together with the tables of pending
//! procedures that its call records do not hold: the cached D-SETUPs of
//! individual and group calls, and the group releases under way. Each step
//! runs one procedure of the sub-entity and keeps the tables in line with
//! the call records.

use std::collections::{HashMap, HashSet};
use vstd::prelude::*;

use crate::address::{SsiType, TetraAddress};
use crate::call::{ActiveCall, DisconnectCause, IndividualCall};
use crate::cc_bs::CcBsSubentity;
use crate::circuit_mgr::CmceCircuit;
use crate::call::CallTimeout;
use crate::floor::{
    GroupFloorContext, UTxCeasedOutcome, UTxDemandOutcome, group_tx_ceased_done, group_tx_demand_done,
    individual_tx_ceased_done, individual_tx_demand_done, only_call_changed, only_individual_changed,
};
use crate::connect_ack::{
    ConnectAckStage, ConnectAckStep, DeliveryReport, PendingIndividualConnectAck, connect_ack_drained,
};
use crate::connect::{CachedPrivateSetup, CalledDeliveryOutcome, UConnectOutcome, UConnectPdu, u_connect_done};
use crate::group_setup::{
    GroupCallTables, GroupSetupEnv, GroupSetupOutcome, GroupSetupRequest, group_setup_done,
};
use crate::individual_setup::{
    IndividualDSetup, P2pSetupEnv, P2pSetupOutcome, P2pSetupRequest, UplinkContext, p2p_setup_done,
};
use crate::teardown::{
    GroupReleaseCleanup, GroupReleaseStart, IndividualReleaseCleanup, IndividualReleaseStart, PendingGroupRelease,
    PendingIndividualRelease, group_release_done, group_release_record, individual_cleanup_done,
    individual_release_begun,
};
use crate::timeslots::TimeslotAllocator;
use crate::timers::{CallFilter, collect_keys};

verus! {

broadcast use vstd::std_specs::hash::group_hash_axioms;

/// What a U-CONNECT of call `call_id` learns from the call's cached
/// D-SETUP in `setups`.
pub open spec fn cached_private_setup(setups: Map<u16, IndividualDSetup>, call_id: u16) -> Option<
    CachedPrivateSetup,
> {
    if setups.contains_key(call_id) {
        Some(
            CachedPrivateSetup {
                hook_method_selection: setups[call_id].hook_method_selection,
                basic_service_information: setups[call_id].basic_service_information,
            },
        )
    } else {
        None
    }
}

/// Station `issi` is a party of an individual call in `parties` (calling
/// and called ISSI by call identifier).
pub open spec fn releasing_party(parties: Map<u16, (u32, u32)>, issi: u32) -> bool {
    exists|id: u16| #[trigger] parties.contains_key(id) && (parties[id].0 == issi || parties[id].1 == issi)
}

/// The parties of an individual setup (the caller `calling` and, when
/// named, the called station) that are parties of a release in `parties`.
pub open spec fn setup_release_parties(parties: Map<u16, (u32, u32)>, calling: u32, called: Option<u32>) -> Set<
    u32,
> {
    Set::new(|x: u32| (x == calling || called == Some(x)) && releasing_party(parties, x))
}

/// Entries of a party table that name station `issi`.
pub struct PartyOf {
    pub issi: u32,
}

impl CallFilter<(u32, u32)> for PartyOf {
    open spec fn holds(&self, k: u16, v: (u32, u32)) -> bool {
        v.0 == self.issi || v.1 == self.issi
    }

    fn check(&self, k: u16, v: &(u32, u32)) -> (b: bool) {
        v.0 == self.issi || v.1 == self.issi
    }
}

/// What a group floor decision takes from outside the call records and
/// the tables: the requester's tail drain and two cell options.
#[derive(Clone, Copy, Debug)]
pub struct FloorOptions {
    /// The requester's previous transmission on the call's timeslot is still
    /// draining after its U-TX CEASED.
    pub requester_tail_draining: bool,
    /// Cell option: a maintained local call is released rather than handed
    /// back to the same speaker from hangtime.
    pub legacy_gssi_group_call: bool,
    /// Cell option: a pre-emptive request may interrupt the current speaker.
    pub transmission_interruption_enabled: bool,
}

/// The call control sub-entity with its tables of pending procedures.
pub struct CallControlState {
    pub cc: CcBsSubentity,
    /// The D-SETUP sent to the called station of each local individual call.
    pub private_setups: HashMap<u16, IndividualDSetup>,
    /// Group releases under way, the setup parameters of each cached group
    /// D-SETUP, and the call identifiers held by other pending procedures.
    pub group: GroupCallTables,
    /// The destination address of each cached group D-SETUP.
    pub group_setup_dests: HashMap<u16, TetraAddress>,
    /// The parties (calling and called ISSI) of each individual call whose
    /// release waits for its D-RELEASE deliveries, out of the call table.
    pub release_parties: HashMap<u16, (u32, u32)>,
    /// The guarded connect delivery (D-CONNECT ACKNOWLEDGE to the called
    /// party, then D-CONNECT to the caller) of each local individual call.
    pub connect_acks: HashMap<u16, PendingIndividualConnectAck>,
}

/// The calls among `call_id` whose connect delivery is guarded in `guards`.
pub open spec fn guarded_ids(guards: Map<u16, PendingIndividualConnectAck>, call_id: u16) -> Set<u16> {
    if guards.contains_key(call_id) {
        set![call_id]
    } else {
        Set::empty()
    }
}

/// The connect guards after step `r` on the guard of call `call_id` at
/// time `now`: a called delivery that owes the caller its D-CONNECT starts
/// the caller's guard; a retry replaces the guard; waiting keeps it; any
/// other step drops it.
pub open spec fn guards_after_step(
    guards: Map<u16, PendingIndividualConnectAck>,
    call_id: u16,
    r: ConnectAckStep,
    now: crate::tdma::TdmaTime,
) -> Map<u16, PendingIndividualConnectAck> {
    match r {
        ConnectAckStep::Waiting => guards,
        ConnectAckStep::CalledDelivered { outcome } => if outcome is CallerConnect {
            guards.insert(
                call_id,
                PendingIndividualConnectAck { stage: ConnectAckStage::CallerDConnect { attempts: 1 }, started_at: now },
            )
        } else {
            guards.remove(call_id)
        },
        ConnectAckStep::RetryCalled { next, .. } => guards.insert(call_id, next),
        ConnectAckStep::RetryCaller { next, .. } => guards.insert(call_id, next),
        _ => guards.remove(call_id),
    }
}

impl CallControlState {
    /// The sub-entity is well formed and every table entry belongs to a
    /// call record: a cached D-SETUP of an individual call to that call or
    /// to its release under way (and names it), a cached group D-SETUP or a
    /// release under way to a group call; the call identifiers of individual
    /// releases under way are held; a connect guard belongs to a call
    /// record.
    pub open spec fn wf(&self) -> bool {
        &&& self.cc.circuits.wf()
        &&& self.cc.calls_wf()
        &&& self.cc.individual_calls_wf()
        &&& forall|id: u16|
            #[trigger] self.private_setups@.contains_key(id) ==> (self.cc.individual_calls@.contains_key(id)
                || self.release_parties@.contains_key(id)) && self.private_setups@[id].call_identifier == id
        &&& forall|id: u16|
            #[trigger] self.release_parties@.contains_key(id) ==> self.group.other_occupied@.contains(id)
        &&& forall|id: u16|
            #[trigger] self.connect_acks@.contains_key(id) ==> self.cc.individual_calls@.contains_key(id)
        &&& forall|id: u16|
            #[trigger] self.group.cached_setups@.contains_key(id) ==> self.cc.active_calls@.contains_key(id)
        &&& forall|id: u16|
            #[trigger] self.group_setup_dests@.contains_key(id) ==> self.cc.active_calls@.contains_key(id)
        &&& forall|id: u16| #[trigger] self.group.releasing@.contains(id) ==> self.cc.active_calls@.contains_key(id)
    }

    /// The context of a floor decision on group call `call_id`: whether its
    /// release is under way and whether its D-SETUP is cached come from the
    /// tables.
    pub open spec fn floor_context(&self, call_id: u16, options: FloorOptions) -> GroupFloorContext {
        GroupFloorContext {
            release_pending: self.group.releasing@.contains(call_id),
            setup_cached: self.group.cached_setups@.contains_key(call_id),
            requester_tail_draining: options.requester_tail_draining,
            legacy_gssi_group_call: options.legacy_gssi_group_call,
            transmission_interruption_enabled: options.transmission_interruption_enabled,
        }
    }

    fn floor_context_exec(&self, call_id: u16, options: FloorOptions) -> (r: GroupFloorContext)
        ensures
            r == self.floor_context(call_id, options),
    {
        GroupFloorContext {
            release_pending: self.group.releasing.contains(&call_id),
            setup_cached: self.group.cached_setups.contains_key(&call_id),
            requester_tail_draining: options.requester_tail_draining,
            legacy_gssi_group_call: options.legacy_gssi_group_call,
            transmission_interruption_enabled: options.transmission_interruption_enabled,
        }
    }

    /// U-TX DEMAND for call `call_id` (see
    /// [`CcBsSubentity::fsm_on_u_tx_demand`]), a group call's context taken
    /// from the tables.
    pub fn on_u_tx_demand(
        &mut self,
        call_id: u16,
        requesting_party: TetraAddress,
        tx_demand_priority: u8,
        disconnect_clearing: bool,
        individual_release_pending: bool,
        options: FloorOptions,
        registry_members: &HashSet<u32>,
    ) -> (r: UTxDemandOutcome)
        requires
            old(self).wf(),
        ensures
            final(self).wf(),
            final(self).private_setups == old(self).private_setups,
            final(self).group == old(self).group,
            final(self).group_setup_dests == old(self).group_setup_dests,
            old(self).cc.individual_calls@.contains_key(call_id) ==> {
                &&& r matches UTxDemandOutcome::Individual(o)
                &&& final(self).cc.same_except_individual_calls(&old(self).cc)
                &&& only_individual_changed(old(self).cc.individual_calls@, final(self).cc.individual_calls@, call_id)
                &&& individual_tx_demand_done(
                    old(self).cc,
                    final(self).cc,
                    call_id,
                    requesting_party,
                    disconnect_clearing,
                    o,
                )
            },
            !old(self).cc.individual_calls@.contains_key(call_id) && individual_release_pending ==> r
                == UTxDemandOutcome::IndividualReleasePending && final(self).cc == old(self).cc,
            !old(self).cc.individual_calls@.contains_key(call_id) && !individual_release_pending ==> {
                &&& r matches UTxDemandOutcome::Group(o)
                &&& final(self).cc == (CcBsSubentity { active_calls: final(self).cc.active_calls, ..old(self).cc })
                &&& only_call_changed(old(self).cc.active_calls@, final(self).cc.active_calls@, call_id)
                &&& group_tx_demand_done(
                    old(self).cc,
                    final(self).cc,
                    call_id,
                    requesting_party,
                    tx_demand_priority,
                    old(self).floor_context(call_id, options),
                    registry_members@,
                    o,
                )
            },
            final(self).release_parties == old(self).release_parties,
            final(self).connect_acks == old(self).connect_acks,
    {
        let ctx = self.floor_context_exec(call_id, options);
        self.cc.fsm_on_u_tx_demand(
            call_id,
            requesting_party,
            tx_demand_priority,
            disconnect_clearing,
            individual_release_pending,
            ctx,
            registry_members,
        )
    }

    /// U-TX CEASED for call `call_id` (see
    /// [`CcBsSubentity::fsm_on_u_tx_ceased`]), a group call's context taken
    /// from the tables.
    pub fn on_u_tx_ceased(
        &mut self,
        call_id: u16,
        sender: TetraAddress,
        disconnect_clearing: bool,
        options: FloorOptions,
        registry_members: &HashSet<u32>,
    ) -> (r: UTxCeasedOutcome)
        requires
            old(self).wf(),
        ensures
            final(self).wf(),
            final(self).private_setups == old(self).private_setups,
            final(self).group == old(self).group,
            final(self).group_setup_dests == old(self).group_setup_dests,
            old(self).cc.individual_calls@.contains_key(call_id) ==> {
                &&& r matches UTxCeasedOutcome::Individual(o)
                &&& final(self).cc.same_except_individual_calls(&old(self).cc)
                &&& only_individual_changed(old(self).cc.individual_calls@, final(self).cc.individual_calls@, call_id)
                &&& individual_tx_ceased_done(old(self).cc, final(self).cc, call_id, sender, disconnect_clearing, o)
            },
            !old(self).cc.individual_calls@.contains_key(call_id) ==> {
                &&& r matches UTxCeasedOutcome::Group(o)
                &&& final(self).cc == (CcBsSubentity { active_calls: final(self).cc.active_calls, ..old(self).cc })
                &&& only_call_changed(old(self).cc.active_calls@, final(self).cc.active_calls@, call_id)
                &&& group_tx_ceased_done(
                    old(self).cc,
                    final(self).cc,
                    call_id,
                    sender,
                    old(self).floor_context(call_id, options),
                    registry_members@,
                    o,
                )
            },
            final(self).release_parties == old(self).release_parties,
            final(self).connect_acks == old(self).connect_acks,
    {
        let ctx = self.floor_context_exec(call_id, options);
        self.cc.fsm_on_u_tx_ceased(call_id, sender, disconnect_clearing, ctx, registry_members)
    }

    /// Station `issi` is a party of an individual release under way.
    pub fn is_releasing_party(&self, issi: u32) -> (r: bool)
        ensures
            r == releasing_party(self.release_parties@, issi),
    {
        let f = PartyOf { issi };
        let ids = collect_keys(&self.release_parties, &f);
        proof {
            if ids@.len() > 0 {
                assert(ids@.contains(ids@[0]));
                let id = ids@[0];
                assert(self.release_parties@.contains_key(id) && f.holds(id, self.release_parties@[id]));
            } else {
                assert forall|id: u16| #[trigger] self.release_parties@.contains_key(id) implies !(
                self.release_parties@[id].0 == issi || self.release_parties@[id].1 == issi) by {
                    if self.release_parties@[id].0 == issi || self.release_parties@[id].1 == issi {
                        assert(ids@.contains(id));
                    }
                }
            }
        }
        ids.len() > 0
    }

    /// Begins the release of individual call `call_id` (see
    /// [`CcBsSubentity::begin_individual_release`]), whether one is under
    /// way taken from the tables. A call that waits for its D-RELEASE
    /// deliveries is recorded with its parties and its identifier held; a
    /// call released at once drops its cached D-SETUP.
    pub fn start_individual_release(
        &mut self,
        alloc: &mut TimeslotAllocator,
        call_id: u16,
        disconnect_cause: DisconnectCause,
        preclosed_circuits: Vec<CmceCircuit>,
        notify_brew: bool,
        release_to_issi: Option<u32>,
    ) -> (r: IndividualReleaseStart)
        requires
            old(self).wf(),
        ensures
            final(self).wf(),
            individual_release_begun(
                old(self).cc,
                final(self).cc,
                old(alloc).owners@,
                final(alloc).owners@,
                call_id,
                disconnect_cause,
                preclosed_circuits@,
                notify_brew,
                release_to_issi,
                old(self).release_parties@.contains_key(call_id),
                r,
            ),
            final(self).release_parties@ == match r {
                IndividualReleaseStart::AwaitingDelivery { pending, .. } => old(self).release_parties@.insert(
                    call_id,
                    (pending.call.calling_addr.ssi, pending.call.called_addr.ssi),
                ),
                _ => old(self).release_parties@,
            },
            final(self).group.other_occupied@ == if r is AwaitingDelivery {
                old(self).group.other_occupied@.insert(call_id)
            } else {
                old(self).group.other_occupied@
            },
            final(self).private_setups@ == if r is Released {
                old(self).private_setups@.remove(call_id)
            } else {
                old(self).private_setups@
            },
            final(self).connect_acks@ == if r is AwaitingDelivery || r is Released {
                old(self).connect_acks@.remove(call_id)
            } else {
                old(self).connect_acks@
            },
            final(self).group.releasing == old(self).group.releasing,
            final(self).group.cached_setups == old(self).group.cached_setups,
            final(self).group_setup_dests == old(self).group_setup_dests,
    {
        let release_pending = self.release_parties.contains_key(&call_id);
        let r = self.cc.begin_individual_release(
            alloc,
            call_id,
            disconnect_cause,
            preclosed_circuits,
            notify_brew,
            release_to_issi,
            release_pending,
        );
        match &r {
            IndividualReleaseStart::AwaitingDelivery { pending, .. } => {
                self.release_parties.insert(call_id, (pending.call.calling_addr.ssi, pending.call.called_addr.ssi));
                self.group.other_occupied.insert(call_id);
                self.connect_acks.remove(&call_id);
            },
            IndividualReleaseStart::Released { .. } => {
                self.private_setups.remove(&call_id);
                self.connect_acks.remove(&call_id);
            },
            _ => {},
        }
        r
    }

    /// Completes the individual release `pending` once its D-RELEASE
    /// deliveries are done (see
    /// [`CcBsSubentity::complete_pending_individual_release`]): the call's
    /// release entry, held identifier and cached D-SETUP are dropped.
    pub fn complete_pending_individual_release(
        &mut self,
        alloc: &mut TimeslotAllocator,
        pending: PendingIndividualRelease,
    ) -> (r: IndividualReleaseCleanup)
        requires
            old(self).wf(),
            1 <= pending.call.calling_ts <= 4,
            1 <= pending.call.called_ts <= 4,
        ensures
            final(self).wf(),
            individual_cleanup_done(
                old(self).cc,
                final(self).cc,
                old(alloc).owners@,
                final(alloc).owners@,
                pending.call_id,
                pending.call,
                pending.cause,
                pending.preclosed_circuits@,
                pending.notify_brew,
                r,
            ),
            final(self).release_parties@ == old(self).release_parties@.remove(pending.call_id),
            final(self).group.other_occupied@ == old(self).group.other_occupied@.remove(pending.call_id),
            final(self).private_setups@ == old(self).private_setups@.remove(pending.call_id),
            final(self).connect_acks@ == old(self).connect_acks@.remove(pending.call_id),
            final(self).group.releasing == old(self).group.releasing,
            final(self).group.cached_setups == old(self).group.cached_setups,
            final(self).group_setup_dests == old(self).group_setup_dests,
    {
        let call_id = pending.call_id;
        let r = self.cc.complete_pending_individual_release(alloc, pending);
        self.release_parties.remove(&call_id);
        self.group.other_occupied.remove(&call_id);
        self.private_setups.remove(&call_id);
        self.connect_acks.remove(&call_id);
        r
    }

    /// A call control with no calls and empty tables.
    pub fn new() -> (r: CallControlState)
        ensures
            r.wf(),
            r.cc.circuits.next_call_identifier == 4,
            r.cc.active_calls@ == Map::<u16, ActiveCall>::empty(),
            r.cc.individual_calls@ == Map::<u16, IndividualCall>::empty(),
            r.cc.subscriber_groups@ == Map::<u32, HashSet<u32>>::empty(),
            r.cc.group_listeners@ == Map::<u32, usize>::empty(),
            r.cc.external_subscriber_groups@ == Map::<u32, HashSet<u32>>::empty(),
            r.cc.external_group_listeners@ == Map::<u32, usize>::empty(),
            r.cc.parrot_session is None,
            r.private_setups@ == Map::<u16, IndividualDSetup>::empty(),
            r.group.cached_setups@.is_empty(),
            r.group.releasing@.is_empty(),
            r.group.other_occupied@.is_empty(),
            r.group_setup_dests@ == Map::<u16, TetraAddress>::empty(),
            r.release_parties@ == Map::<u16, (u32, u32)>::empty(),
            r.connect_acks@ == Map::<u16, PendingIndividualConnectAck>::empty(),
    {
        let cc = CcBsSubentity::new();
        CallControlState {
            cc,
            private_setups: HashMap::new(),
            group: GroupCallTables {
                releasing: HashSet::new(),
                cached_setups: HashMap::new(),
                other_occupied: HashSet::new(),
            },
            group_setup_dests: HashMap::new(),
            release_parties: HashMap::new(),
            connect_acks: HashMap::new(),
        }
    }

    /// An individual U-SETUP (see [`CcBsSubentity::fsm_on_u_setup_p2p`]);
    /// a call that starts has its D-SETUP cached.
    pub fn on_u_setup_p2p(
        &mut self,
        request: P2pSetupRequest,
        calling_party: TetraAddress,
        link: UplinkContext,
        env: P2pSetupEnv,
        timeslot_alloc: &mut TimeslotAllocator,
    ) -> (r: P2pSetupOutcome)
        requires
            old(self).wf(),
        ensures
            final(self).wf(),
            p2p_setup_done(
                old(self).cc,
                final(self).cc,
                *old(timeslot_alloc),
                *final(timeslot_alloc),
                request,
                calling_party,
                link,
                env,
                setup_release_parties(old(self).release_parties@, calling_party.ssi, request.called_party_ssi),
                old(self).group.other_occupied@,
                r,
            ),
            final(self).private_setups@ == match r {
                P2pSetupOutcome::Started { call_id, d_setup, .. } => old(self).private_setups@.insert(
                    call_id,
                    d_setup,
                ),
                _ => old(self).private_setups@,
            },
            final(self).group == old(self).group,
            final(self).group_setup_dests == old(self).group_setup_dests,
            final(self).release_parties == old(self).release_parties,
            final(self).connect_acks == old(self).connect_acks,
    {
        let mut pending_release_parties: HashSet<u32> = HashSet::new();
        if self.is_releasing_party(calling_party.ssi) {
            pending_release_parties.insert(calling_party.ssi);
        }
        match request.called_party_ssi {
            Some(called) => {
                if self.is_releasing_party(called) {
                    pending_release_parties.insert(called);
                }
            },
            None => {},
        }
        proof {
            assert(pending_release_parties@ =~= setup_release_parties(
                self.release_parties@,
                calling_party.ssi,
                request.called_party_ssi,
            ));
        }
        let r = self.cc.fsm_on_u_setup_p2p(
            request,
            calling_party,
            link,
            env,
            &pending_release_parties,
            &self.group.other_occupied,
            timeslot_alloc,
        );
        match r {
            P2pSetupOutcome::Started { call_id, d_setup, .. } => {
                self.private_setups.insert(call_id, d_setup);
            },
            _ => {},
        }
        r
    }

    /// A U-CONNECT of the called station (see
    /// [`CcBsSubentity::fsm_on_u_connect`]), answered with what the call's
    /// cached D-SETUP says while no connect delivery of the call is guarded;
    /// the D-CONNECT ACKNOWLEDGE it sends to the called party is guarded.
    pub fn on_u_connect(
        &mut self,
        received_tetra_address: TetraAddress,
        handle: u32,
        link_id: u32,
        endpoint_id: u32,
        pdu: UConnectPdu,
        call_timeout: CallTimeout,
        timeslot_alloc: &mut TimeslotAllocator,
    ) -> (r: UConnectOutcome)
        requires
            old(self).wf(),
        ensures
            final(self).wf(),
            u_connect_done(
                old(self).cc,
                final(self).cc,
                *old(timeslot_alloc),
                *final(timeslot_alloc),
                received_tetra_address,
                handle,
                link_id,
                endpoint_id,
                pdu,
                cached_private_setup(old(self).private_setups@, pdu.call_identifier),
                guarded_ids(old(self).connect_acks@, pdu.call_identifier),
                call_timeout,
                r,
            ),
            final(self).connect_acks@ == if r is ConnectCalled {
                old(self).connect_acks@.insert(
                    pdu.call_identifier,
                    PendingIndividualConnectAck {
                        stage: ConnectAckStage::CalledConnectAck { attempts: 1, requires_l2_ack: true },
                        started_at: old(self).cc.dltime,
                    },
                )
            } else {
                old(self).connect_acks@
            },
            final(self).private_setups == old(self).private_setups,
            final(self).group == old(self).group,
            final(self).group_setup_dests == old(self).group_setup_dests,
            final(self).release_parties == old(self).release_parties,
    {
        let cached = match self.private_setups.get(&pdu.call_identifier) {
            Some(d) => Some(
                CachedPrivateSetup {
                    hook_method_selection: d.hook_method_selection,
                    basic_service_information: d.basic_service_information,
                },
            ),
            None => None,
        };
        let call_id = pdu.call_identifier;
        let mut guarded: HashSet<u16> = HashSet::new();
        if self.connect_acks.contains_key(&call_id) {
            guarded.insert(call_id);
        }
        proof {
            assert(guarded@ =~= guarded_ids(self.connect_acks@, call_id));
        }
        let now = self.cc.dltime;
        let r = self.cc.fsm_on_u_connect(
            received_tetra_address,
            handle,
            link_id,
            endpoint_id,
            pdu,
            cached,
            &guarded,
            call_timeout,
            timeslot_alloc,
        );
        match r {
            UConnectOutcome::ConnectCalled { .. } => {
                self.connect_acks.insert(
                    call_id,
                    PendingIndividualConnectAck {
                        stage: ConnectAckStage::CalledConnectAck { attempts: 1, requires_l2_ack: true },
                        started_at: now,
                    },
                );
            },
            _ => {},
        }
        r
    }

    /// Advances the connect guard of call `call_id` on the transmission
    /// `report` of its guarded PDU (see
    /// [`CcBsSubentity::drain_pending_individual_connect_acks`]), with the
    /// call's cached D-SETUP; `None` when the call has no guard. The guard
    /// table then follows `guards_after_step`.
    pub fn drain_connect_ack(&mut self, call_id: u16, report: DeliveryReport, call_timeout: CallTimeout) -> (r: Option<
        ConnectAckStep,
    >)
        requires
            old(self).wf(),
        ensures
            final(self).wf(),
            !old(self).connect_acks@.contains_key(call_id) ==> r is None && *final(self) == *old(self),
            old(self).connect_acks@.contains_key(call_id) ==> {
                &&& r matches Some(step)
                &&& final(self).cc.same_except_individual_calls(&old(self).cc)
                &&& connect_ack_drained(
                    old(self).cc,
                    final(self).cc,
                    call_id,
                    old(self).connect_acks@[call_id],
                    report,
                    cached_private_setup(old(self).private_setups@, call_id),
                    call_timeout,
                    step,
                )
                &&& final(self).connect_acks@ == guards_after_step(
                    old(self).connect_acks@,
                    call_id,
                    step,
                    old(self).cc.dltime,
                )
                &&& final(self).private_setups == old(self).private_setups
                &&& final(self).group == old(self).group
                &&& final(self).group_setup_dests == old(self).group_setup_dests
                &&& final(self).release_parties == old(self).release_parties
            },
    {
        let pending = match self.connect_acks.get(&call_id) {
            Some(p) => *p,
            None => {
                return None;
            },
        };
        let cached = match self.private_setups.get(&call_id) {
            Some(d) => Some(
                CachedPrivateSetup {
                    hook_method_selection: d.hook_method_selection,
                    basic_service_information: d.basic_service_information,
                },
            ),
            None => None,
        };
        let now = self.cc.dltime;
        let step = self.cc.drain_pending_individual_connect_acks(call_id, pending, report, cached, call_timeout);
        match step {
            ConnectAckStep::Waiting => {},
            ConnectAckStep::CalledDelivered { outcome } => {
                match outcome {
                    CalledDeliveryOutcome::CallerConnect { .. } => {
                        self.connect_acks.insert(
                            call_id,
                            PendingIndividualConnectAck {
                                stage: ConnectAckStage::CallerDConnect { attempts: 1 },
                                started_at: now,
                            },
                        );
                    },
                    _ => {
                        self.connect_acks.remove(&call_id);
                    },
                }
            },
            ConnectAckStep::RetryCalled { next, .. } => {
                self.connect_acks.insert(call_id, next);
            },
            ConnectAckStep::RetryCaller { next, .. } => {
                self.connect_acks.insert(call_id, next);
            },
            _ => {
                self.connect_acks.remove(&call_id);
            },
        }
        Some(step)
    }

    /// A group U-SETUP (see [`CcBsSubentity::fsm_on_u_setup_group`]); a call
    /// that starts has its D-SETUP (parameters and group address) cached.
    pub fn on_u_setup_group(
        &mut self,
        request: GroupSetupRequest,
        calling_party: TetraAddress,
        env: GroupSetupEnv,
        registry_members: &HashSet<u32>,
        timeslot_alloc: &mut TimeslotAllocator,
    ) -> (r: GroupSetupOutcome)
        requires
            old(self).wf(),
        ensures
            final(self).wf(),
            group_setup_done(
                old(self).cc,
                final(self).cc,
                *old(timeslot_alloc),
                *final(timeslot_alloc),
                request,
                calling_party,
                env,
                old(self).group,
                registry_members@,
                r,
            ),
            final(self).group.cached_setups@ == match r {
                GroupSetupOutcome::Started { circuit } => old(self).group.cached_setups@.insert(
                    circuit.call_id,
                    request.params,
                ),
                _ => old(self).group.cached_setups@,
            },
            final(self).group_setup_dests@ == match r {
                GroupSetupOutcome::Started { circuit } => old(self).group_setup_dests@.insert(
                    circuit.call_id,
                    (TetraAddress { ssi: request.called_party_ssi->0, ssi_type: SsiType::Gssi }),
                ),
                _ => old(self).group_setup_dests@,
            },
            final(self).group.releasing == old(self).group.releasing,
            final(self).group.other_occupied == old(self).group.other_occupied,
            final(self).private_setups == old(self).private_setups,
            final(self).release_parties == old(self).release_parties,
            final(self).connect_acks == old(self).connect_acks,
    {
        let r = self.cc.fsm_on_u_setup_group(request, calling_party, env, &self.group, registry_members, timeslot_alloc);
        match r {
            GroupSetupOutcome::Started { circuit } => {
                let gssi = match request.called_party_ssi {
                    Some(g) => g,
                    None => 0,
                };
                self.group.cached_setups.insert(circuit.call_id, request.params);
                self.group_setup_dests.insert(circuit.call_id, TetraAddress::gssi(gssi));
            },
            _ => {},
        }
        r
    }

    /// Starts releasing group call `call_id` (see
    /// [`CcBsSubentity::begin_group_release`]), with the release state and
    /// the cached destination taken from the tables; a release that starts
    /// is recorded as under way.
    pub fn start_group_release(
        &mut self,
        call_id: u16,
        disconnect_cause: DisconnectCause,
        preclosed_circuit: Option<CmceCircuit>,
    ) -> (r: GroupReleaseStart)
        requires
            old(self).wf(),
        ensures
            final(self).wf(),
            ({
                let calls = old(self).cc.active_calls@;
                if old(self).group.releasing@.contains(call_id) {
                    r == GroupReleaseStart::AlreadyPending
                } else if !calls.contains_key(call_id) {
                    r == GroupReleaseStart::UnknownCall
                } else {
                    r == (GroupReleaseStart::Started {
                        dest_addr: if old(self).group_setup_dests@.contains_key(call_id) {
                            old(self).group_setup_dests@[call_id]
                        } else {
                            TetraAddress { ssi: calls[call_id].dest_gssi, ssi_type: SsiType::Gssi }
                        },
                        ts: calls[call_id].ts,
                        usage: calls[call_id].usage,
                        pending: group_release_record(
                            call_id,
                            calls[call_id],
                            disconnect_cause,
                            old(self).cc.dltime,
                            preclosed_circuit,
                        ),
                    })
                }
            }),
            final(self).group.releasing@ == if r is Started {
                old(self).group.releasing@.insert(call_id)
            } else {
                old(self).group.releasing@
            },
            final(self).cc == old(self).cc,
            final(self).private_setups == old(self).private_setups,
            final(self).group.cached_setups == old(self).group.cached_setups,
            final(self).group.other_occupied == old(self).group.other_occupied,
            final(self).group_setup_dests == old(self).group_setup_dests,
            final(self).release_parties == old(self).release_parties,
            final(self).connect_acks == old(self).connect_acks,
    {
        let release_pending = self.group.releasing.contains(&call_id);
        let cached_dest_addr = match self.group_setup_dests.get(&call_id) {
            Some(a) => Some(*a),
            None => None,
        };
        let r = self.cc.begin_group_release(
            call_id,
            disconnect_cause,
            preclosed_circuit,
            release_pending,
            cached_dest_addr,
        );
        match r {
            GroupReleaseStart::Started { .. } => {
                self.group.releasing.insert(call_id);
            },
            _ => {},
        }
        r
    }

    /// Completes the pending group release `pending` (see
    /// [`CcBsSubentity::complete_pending_group_release`]) and drops the
    /// call's cached D-SETUP and release entry.
    pub fn complete_group_release(
        &mut self,
        alloc: &mut TimeslotAllocator,
        pending: PendingGroupRelease,
        brew_routable: bool,
    ) -> (r: GroupReleaseCleanup)
        requires
            old(self).wf(),
            1 <= pending.ts <= 4,
        ensures
            final(self).wf(),
            group_release_done(
                old(self).cc,
                final(self).cc,
                old(alloc).owners@,
                final(alloc).owners@,
                pending,
                brew_routable,
                r,
            ),
            final(self).group.cached_setups@ == old(self).group.cached_setups@.remove(pending.call_id),
            final(self).group.releasing@ == old(self).group.releasing@.remove(pending.call_id),
            final(self).group_setup_dests@ == old(self).group_setup_dests@.remove(pending.call_id),
            final(self).group.other_occupied == old(self).group.other_occupied,
            final(self).private_setups == old(self).private_setups,
            final(self).release_parties == old(self).release_parties,
            final(self).connect_acks == old(self).connect_acks,
    {
        let call_id = pending.call_id;
        let r = self.cc.complete_pending_group_release(alloc, pending, brew_routable);
        self.group.cached_setups.remove(&call_id);
        self.group.releasing.remove(&call_id);
        self.group_setup_dests.remove(&call_id);
        r
    }

    /// Gives the resources of individual call `call_id` back (see
    /// [`CcBsSubentity::complete_individual_release_cleanup`]) and drops the
    /// call's cached D-SETUP.
    pub fn complete_individual_release(
        &mut self,
        alloc: &mut TimeslotAllocator,
        call_id: u16,
        call: &IndividualCall,
        disconnect_cause: DisconnectCause,
        preclosed_circuits: &Vec<CmceCircuit>,
        notify_brew: bool,
    ) -> (r: IndividualReleaseCleanup)
        requires
            old(self).wf(),
            1 <= call.calling_ts <= 4,
            1 <= call.called_ts <= 4,
        ensures
            final(self).wf(),
            individual_cleanup_done(
                old(self).cc,
                final(self).cc,
                old(alloc).owners@,
                final(alloc).owners@,
                call_id,
                *call,
                disconnect_cause,
                preclosed_circuits@,
                notify_brew,
                r,
            ),
            final(self).private_setups@ == old(self).private_setups@.remove(call_id),
            final(self).connect_acks@ == old(self).connect_acks@.remove(call_id),
            final(self).group == old(self).group,
            final(self).group_setup_dests == old(self).group_setup_dests,
            final(self).release_parties == old(self).release_parties,
    {
        let r = self.cc.complete_individual_release_cleanup(
            alloc,
            call_id,
            call,
            disconnect_cause,
            preclosed_circuits,
            notify_brew,
        );
        self.private_setups.remove(&call_id);
        self.connect_acks.remove(&call_id);
        r
    }
}

} // verus!
