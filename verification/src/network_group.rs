//! Group calls that start behind the network bridge: the decision to take
//! the bridge's talker into an existing call of the group, to start a new
//! call for it, or to end the bridge's call.

use std::collections::HashSet;
use vstd::prelude::*;

use crate::call::{ActiveCall, CallOrigin, CallTimeout};
use crate::cc_bs::CcBsSubentity;
use crate::circuit_mgr::{CircuitErr, CircuitMgr, CircuitModeType, CmceCircuit, CommunicationType};
use crate::connect::BasicServiceInformation;
use crate::floor::{NetworkCallStartOutcome, affiliated, granted_to};
use crate::fsm::TransmissionGrant;
use crate::group_setup::{group_call_of, occupied_ids};
use crate::network_setup::IncomingDSetup;
use crate::subscribers::listener_count;
use crate::timeslots::{Direction, TimeslotAllocator, TimeslotOwner};

verus! {

broadcast use vstd::std_specs::hash::group_hash_axioms;

/// Cell configuration that a network group call start reads.
#[derive(Clone, Copy, Debug)]
pub struct NetworkGroupEnv {
    /// The group is routed over the network bridge.
    pub gssi_routable: bool,
    /// Transmission interruption (pre-emption) is offered.
    pub transmission_interruption_enabled: bool,
    /// Configured call timeout of new calls.
    pub call_timeout: CallTimeout,
}

/// The decision on a group call started behind the network bridge. Every
/// outcome but `SpeakerChange` and `NewCall` sends NetworkCallEnd back to
/// the bridge.
#[derive(Clone, Debug)]
pub enum NetworkGroupStartOutcome {
    /// The group is not routed over the bridge.
    NotRoutable,
    /// The group has no local listener; the group calls in `released` (all
    /// of the group's, when it has no listener at all) are to be released.
    NoLocalListener { released: Vec<u16> },
    /// A pre-emptive priority while transmission interruption is off.
    InterruptionDisabled,
    /// A local speaker holds the floor of the group's call `call_id` and may
    /// not be pre-empted.
    LocalFloorHeld { call_id: u16 },
    /// The bridge's talker took the floor of the group's call `call_id`; a
    /// local speaker that held it is to be sent D-TX INTERRUPT.
    SpeakerChange { call_id: u16, preempted_local_speaker: Option<u32> },
    /// No circuit could be had.
    Congestion,
    /// A new group call `call_id` on `circuit`; `d_setup` goes to the group.
    NewCall { call_id: u16, circuit: CmceCircuit, d_setup: IncomingDSetup },
}

/// A local speaker holding the floor of call `c` keeps it against a network
/// talker with `priority`, unless interruption is on and the priority is
/// pre-emptive and above the call's.
pub open spec fn local_floor_blocks(
    c: ActiveCall,
    groups: Map<u32, HashSet<u32>>,
    registry: Set<u32>,
    priority: u8,
    interruption_enabled: bool,
) -> bool {
    &&& c.tx_active
    &&& affiliated(groups, registry, c.source_issi, c.dest_gssi)
    &&& !(interruption_enabled && 12 <= priority <= 15 && priority > c.priority)
}

/// `c` is a new group call of group `gssi` started by network talker
/// `source_issi` for bridge call `brew_uuid` on `circuit` at `now`.
pub open spec fn new_network_group_call(
    c: ActiveCall,
    brew_uuid: u128,
    gssi: u32,
    source_issi: u32,
    circuit: CmceCircuit,
    now: crate::tdma::TdmaTime,
    call_timeout: CallTimeout,
    priority: u8,
) -> bool {
    &&& c.floor_queue_wf()
    &&& c.floor_queue().len() == 0
    &&& c.origin == (CallOrigin::Network { brew_uuid })
    &&& c.dest_gssi == gssi
    &&& c.source_issi == source_issi
    &&& c.created_at == now
    &&& c.call_timeout == call_timeout
    &&& c.priority == priority
    &&& c.ts == circuit.ts
    &&& c.usage == circuit.usage
    &&& c.tx_active
    &&& c.hangtime_start is None
    &&& c.brew_uuid == Some(brew_uuid)
}

/// The D-SETUP of a new network group call: speech on a simplex
/// point-to-multipoint circuit, the floor granted to another user.
pub open spec fn network_group_d_setup(call_timeout: CallTimeout, priority: u8, source_issi: u32) -> IncomingDSetup {
    IncomingDSetup {
        call_time_out: call_timeout,
        hook_method_selection: false,
        simplex_duplex_selection: false,
        basic_service_information: BasicServiceInformation {
            circuit_mode_type: CircuitModeType::TchS,
            encryption_flag: false,
            communication_type: CommunicationType::P2Mp,
            slots_per_frame: None,
            speech_service: Some(0),
        },
        transmission_grant: TransmissionGrant::GrantedToOtherUser,
        call_priority: priority,
        calling_party_address_ssi: source_issi,
        external_subscriber_number: None,
    }
}

impl CcBsSubentity {
    /// The bridge starts group call `brew_uuid` for group `dest_gssi` with
    /// talker `source_issi` and `priority`. The bridge's call is ended when
    /// the group is not routed over the bridge, has no local listener
    /// (`registry_members`: the group's members in the shared registry), or
    /// asks for pre-emption while interruption is off. If the group has a
    /// call that is not being released (`releasing`), the talker takes its
    /// floor unless a local speaker holds it and may not be pre-empted.
    /// Otherwise a new call is started on a fresh circuit, with a call
    /// identifier that avoids the live ones (and `other_occupied`).
    pub fn fsm_on_network_call_start(
        &mut self,
        brew_uuid: u128,
        source_issi: u32,
        dest_gssi: u32,
        priority: u8,
        env: NetworkGroupEnv,
        registry_members: &HashSet<u32>,
        releasing: &HashSet<u16>,
        other_occupied: &HashSet<u16>,
        timeslot_alloc: &mut TimeslotAllocator,
    ) -> (r: NetworkGroupStartOutcome)
        requires
            old(self).circuits.wf(),
            old(self).calls_wf(),
        ensures
            old(self).individual_calls_wf() ==> final(self).individual_calls_wf(),
            final(self).circuits.wf(),
            final(self).calls_wf(),
            *final(self) == (CcBsSubentity {
                circuits: final(self).circuits,
                active_calls: final(self).active_calls,
                ..*old(self)
            }),
            ({
                let m = old(self).active_calls@;
                let groups = old(self).subscriber_groups@;
                let unchanged = *final(self) == *old(self) && *final(timeslot_alloc) == *old(timeslot_alloc);
                let local_listener = registry_members@.len() > 0 || listener_count(
                    old(self).group_listeners@,
                    dest_gssi,
                ) > 0;
                let any_listener = local_listener || listener_count(old(self).external_group_listeners@, dest_gssi)
                    > 0;
                if !env.gssi_routable {
                    r is NotRoutable && unchanged
                } else if !local_listener {
                    &&& r matches NetworkGroupStartOutcome::NoLocalListener { released }
                    &&& released@.no_duplicates()
                    &&& forall|id: u16|
                        #[trigger] released@.contains(id) <==> !any_listener && m.contains_key(id) && m[id].dest_gssi
                            == dest_gssi
                    &&& unchanged
                } else if !env.transmission_interruption_enabled && 12 <= priority <= 15 {
                    r is InterruptionDisabled && unchanged
                } else if exists|id: u16| #[trigger] group_call_of(m, releasing@, dest_gssi, false, id) {
                    match r {
                        NetworkGroupStartOutcome::LocalFloorHeld { call_id } => {
                            &&& group_call_of(m, releasing@, dest_gssi, false, call_id)
                            &&& local_floor_blocks(
                                m[call_id],
                                groups,
                                registry_members@,
                                priority,
                                env.transmission_interruption_enabled,
                            )
                            &&& unchanged
                        },
                        NetworkGroupStartOutcome::SpeakerChange { call_id, preempted_local_speaker } => {
                            let c = m[call_id];
                            let local_speaker = c.tx_active && affiliated(
                                groups,
                                registry_members@,
                                c.source_issi,
                                c.dest_gssi,
                            );
                            &&& group_call_of(m, releasing@, dest_gssi, false, call_id)
                            &&& !local_floor_blocks(
                                c,
                                groups,
                                registry_members@,
                                priority,
                                env.transmission_interruption_enabled,
                            )
                            &&& preempted_local_speaker == if local_speaker && c.source_issi != source_issi {
                                Some(c.source_issi)
                            } else {
                                None
                            }
                            &&& final(self).active_calls@ == m.insert(
                                call_id,
                                ActiveCall {
                                    priority,
                                    brew_uuid: Some(brew_uuid),
                                    origin: CallOrigin::Network { brew_uuid },
                                    ..granted_to(c, source_issi, old(self).dltime)
                                },
                            )
                            &&& final(self).circuits == old(self).circuits
                            &&& *final(timeslot_alloc) == *old(timeslot_alloc)
                        },
                        _ => false,
                    }
                } else {
                    let occupied = occupied_ids(*old(self), other_occupied@);
                    match r {
                        NetworkGroupStartOutcome::NewCall { call_id, circuit, d_setup } => {
                            &&& call_id == circuit.call_id
                            &&& d_setup == network_group_d_setup(env.call_timeout, priority, source_issi)
                            &&& CircuitMgr::allocation_outcome(
                                old(self).circuits,
                                old(timeslot_alloc).owners@,
                                Direction::Both,
                                CommunicationType::P2Mp,
                                false,
                                TimeslotOwner::Cmce,
                                occupied,
                                Ok::<CmceCircuit, CircuitErr>(circuit),
                                final(self).circuits,
                                final(timeslot_alloc).owners@,
                            )
                            &&& final(self).active_calls@ == m.insert(call_id, final(self).active_calls@[call_id])
                            &&& new_network_group_call(
                                final(self).active_calls@[call_id],
                                brew_uuid,
                                dest_gssi,
                                source_issi,
                                circuit,
                                old(self).dltime,
                                env.call_timeout,
                                priority,
                            )
                        },
                        NetworkGroupStartOutcome::Congestion => {
                            &&& final(self).active_calls == old(self).active_calls
                            &&& exists|err: CircuitErr|
                                #[trigger] CircuitMgr::allocation_outcome(
                                    old(self).circuits,
                                    old(timeslot_alloc).owners@,
                                    Direction::Both,
                                    CommunicationType::P2Mp,
                                    false,
                                    TimeslotOwner::Cmce,
                                    occupied,
                                    Err::<CmceCircuit, CircuitErr>(err),
                                    final(self).circuits,
                                    final(timeslot_alloc).owners@,
                                )
                        },
                        _ => false,
                    }
                }
            }),
    {
        if !env.gssi_routable {
            return NetworkGroupStartOutcome::NotRoutable;
        }
        let registry_has_members = registry_members.len() > 0;
        if !self.has_local_listener(dest_gssi, registry_has_members) {
            let released = self.drop_group_calls_if_unlistened(dest_gssi, registry_has_members);
            return NetworkGroupStartOutcome::NoLocalListener { released };
        }
        if !env.transmission_interruption_enabled && Self::is_preemptive_call_priority(priority) {
            return NetworkGroupStartOutcome::InterruptionDisabled;
        }
        match self.find_group_call(dest_gssi, releasing, false) {
            Some(call_id) => {
                let (blocked, call_priority) = match self.active_calls.get(&call_id) {
                    Some(call) => (
                        call.tx_active && self.subscriber_affiliated_to_group(
                            call.source_issi,
                            call.dest_gssi,
                            registry_members,
                        ),
                        call.priority,
                    ),
                    None => (false, 0),
                };
                if blocked {
                    let may_preempt = env.transmission_interruption_enabled && Self::is_preemptive_call_priority(
                        priority,
                    ) && priority > call_priority;
                    if !may_preempt {
                        return NetworkGroupStartOutcome::LocalFloorHeld { call_id };
                    }
                }
                match self.fsm_group_on_network_call_start(
                    call_id,
                    brew_uuid,
                    source_issi,
                    priority,
                    false,
                    registry_members,
                ) {
                    Ok(NetworkCallStartOutcome::Started { preempted_local_speaker }) => {
                        NetworkGroupStartOutcome::SpeakerChange { call_id, preempted_local_speaker }
                    },
                    _ => NetworkGroupStartOutcome::SpeakerChange { call_id, preempted_local_speaker: None },
                }
            },
            None => {
                let occupied = self.occupied_call_ids(other_occupied);
                let ghost m = self.active_calls@;
                let circuit = match self.circuits.allocate_circuit_with_allocator_duplex_avoiding(
                    Direction::Both,
                    CommunicationType::P2Mp,
                    false,
                    timeslot_alloc,
                    TimeslotOwner::Cmce,
                    &occupied,
                ) {
                    Ok(c) => c,
                    Err(e) => {
                        proof {
                            assert(occupied@ == occupied_ids(*old(self), other_occupied@));
                            assert(CircuitMgr::allocation_outcome(
                                old(self).circuits,
                                old(timeslot_alloc).owners@,
                                Direction::Both,
                                CommunicationType::P2Mp,
                                false,
                                TimeslotOwner::Cmce,
                                occupied_ids(*old(self), other_occupied@),
                                Err::<CmceCircuit, CircuitErr>(e),
                                self.circuits,
                                timeslot_alloc.owners@,
                            ));
                        }
                        return NetworkGroupStartOutcome::Congestion;
                    },
                };
                let call = ActiveCall::new_network(
                    brew_uuid,
                    dest_gssi,
                    source_issi,
                    circuit.ts,
                    circuit.usage,
                    self.dltime,
                    env.call_timeout,
                    priority,
                );
                let d_setup = IncomingDSetup {
                    call_time_out: env.call_timeout,
                    hook_method_selection: false,
                    simplex_duplex_selection: false,
                    basic_service_information: BasicServiceInformation {
                        circuit_mode_type: CircuitModeType::TchS,
                        encryption_flag: false,
                        communication_type: CommunicationType::P2Mp,
                        slots_per_frame: None,
                        speech_service: Some(0),
                    },
                    transmission_grant: TransmissionGrant::GrantedToOtherUser,
                    call_priority: priority,
                    calling_party_address_ssi: source_issi,
                    external_subscriber_number: None,
                };
                self.active_calls.insert(circuit.call_id, call);
                proof {
                    assert(self.active_calls@ =~= m.insert(circuit.call_id, self.active_calls@[circuit.call_id]));
                }
                NetworkGroupStartOutcome::NewCall { call_id: circuit.call_id, circuit, d_setup }
            },
        }
    }
}

} // verus!
