use std::collections::{HashMap, HashSet};

use tetra_entities::address::TetraAddress;
use tetra_entities::call::{CallTimeout, DisconnectCause};
use tetra_entities::cc_bs::CcBsSubentity;
use tetra_entities::circuit_mgr::{CircuitModeType, CommunicationType};
use tetra_entities::group_setup::{GroupCallTables, GroupSetupEnv, GroupSetupOutcome, GroupSetupParams, GroupSetupRequest};
use tetra_entities::subscribers::{BrewSubscriberAction, MmSubscriberUpdate, TetraEntity};
use tetra_entities::timeslots::{TimeslotAllocator, TimeslotOwner};

fn params() -> GroupSetupParams {
    GroupSetupParams {
        hook_method_selection: false,
        simplex_duplex_selection: false,
        circuit_mode_type: CircuitModeType::TchS,
        encryption_flag: false,
        communication_type: CommunicationType::P2Mp,
        slots_per_frame: None,
        speech_service: Some(0),
    }
}

fn request(gssi: Option<u32>, priority: u8) -> GroupSetupRequest {
    GroupSetupRequest { called_party_ssi: gssi, call_priority: priority, params: params() }
}

fn env() -> GroupSetupEnv {
    GroupSetupEnv { transmission_interruption_enabled: false, registry_has_members: false, call_timeout: CallTimeout::T2m }
}

fn tables() -> GroupCallTables {
    GroupCallTables { releasing: HashSet::new(), cached_setups: HashMap::new(), other_occupied: HashSet::new() }
}

fn cell() -> CcBsSubentity {
    let mut cc = CcBsSubentity::new();
    for issi in [300, 301] {
        cc.handle_subscriber_update(
            MmSubscriberUpdate { issi, groups: vec![500], action: BrewSubscriberAction::Affiliate },
            TetraEntity::Mm,
        );
    }
    cc
}

#[test]
fn setup_without_group_listeners_or_group_is_rejected() {
    let mut cc = CcBsSubentity::new();
    let mut alloc = TimeslotAllocator::new();
    let r = cc.fsm_on_u_setup_group(request(Some(500), 0), TetraAddress::issi(300), env(), &tables(), &HashSet::new(), &mut alloc);
    assert!(matches!(r, GroupSetupOutcome::Rejected { cause: DisconnectCause::RequestedServiceNotAvailable }));
    let r = cc.fsm_on_u_setup_group(request(None, 0), TetraAddress::issi(300), env(), &tables(), &HashSet::new(), &mut alloc);
    assert!(matches!(r, GroupSetupOutcome::Rejected { cause: DisconnectCause::RequestedServiceNotAvailable }));
    assert!(cc.active_calls.is_empty());
}

#[test]
fn preemptive_setup_is_rejected_without_interruption_support() {
    let mut cc = cell();
    let mut alloc = TimeslotAllocator::new();
    let r = cc.fsm_on_u_setup_group(request(Some(500), 13), TetraAddress::issi(300), env(), &tables(), &HashSet::new(), &mut alloc);
    assert!(matches!(r, GroupSetupOutcome::Rejected { cause: DisconnectCause::RequestedServiceNotAvailable }));
}

#[test]
fn setup_starts_call_with_caller_holding_the_floor_then_repeat_joins_it() {
    let mut cc = cell();
    let mut alloc = TimeslotAllocator::new();
    let r = cc.fsm_on_u_setup_group(request(Some(500), 0), TetraAddress::issi(300), env(), &tables(), &HashSet::new(), &mut alloc);
    let circuit = match r {
        GroupSetupOutcome::Started { circuit } => circuit,
        other => panic!("unexpected outcome {other:?}"),
    };
    assert_eq!(circuit.ts, 2);
    assert_eq!(circuit.call_id, 4);
    assert_eq!(alloc.owner_of(2), Some(TimeslotOwner::Cmce));
    let call = &cc.active_calls[&circuit.call_id];
    assert_eq!(call.source_issi, 300);
    assert_eq!(call.dest_gssi, 500);
    assert!(call.tx_active);
    assert_eq!(call.call_timeout, CallTimeout::T2m);

    let mut t = tables();
    t.cached_setups.insert(circuit.call_id, params());
    let r = cc.fsm_on_u_setup_group(request(Some(500), 0), TetraAddress::issi(300), env(), &t, &HashSet::new(), &mut alloc);
    assert!(matches!(r, GroupSetupOutcome::JoinExisting { call_id: 4, reassert: true }));
    let r = cc.fsm_on_u_setup_group(request(Some(500), 0), TetraAddress::issi(301), env(), &t, &HashSet::new(), &mut alloc);
    assert!(matches!(r, GroupSetupOutcome::JoinExisting { call_id: 4, reassert: false }));

    // Incompatible parameters and a missing cached setup are refused.
    let mut other = request(Some(500), 0);
    other.params.simplex_duplex_selection = true;
    let r = cc.fsm_on_u_setup_group(other, TetraAddress::issi(301), env(), &t, &HashSet::new(), &mut alloc);
    assert!(matches!(r, GroupSetupOutcome::Rejected { cause: DisconnectCause::RequestedServiceNotAvailable }));
    let r = cc.fsm_on_u_setup_group(request(Some(500), 0), TetraAddress::issi(301), env(), &tables(), &HashSet::new(), &mut alloc);
    assert!(matches!(r, GroupSetupOutcome::Rejected { cause: DisconnectCause::RequestedServiceNotAvailable }));
}

#[test]
fn setup_is_refused_for_congestion_when_no_timeslot_is_free() {
    let mut cc = cell();
    let mut alloc = TimeslotAllocator::new();
    for _ in 0..3 {
        alloc.allocate_any(TimeslotOwner::Brew);
    }
    let r = cc.fsm_on_u_setup_group(request(Some(500), 0), TetraAddress::issi(300), env(), &tables(), &HashSet::new(), &mut alloc);
    assert!(matches!(r, GroupSetupOutcome::Rejected { cause: DisconnectCause::CongestionInInfrastructure }));
    assert!(cc.active_calls.is_empty());
}

#[test]
fn occupied_call_ids_cover_calls_and_pending_procedures_but_not_dummy() {
    let mut cc = cell();
    let mut alloc = TimeslotAllocator::new();
    cc.fsm_on_u_setup_group(request(Some(500), 0), TetraAddress::issi(300), env(), &tables(), &HashSet::new(), &mut alloc);
    let others: HashSet<u16> = HashSet::from([0, 77]);
    let ids = cc.occupied_call_ids(&others);
    assert_eq!(ids, HashSet::from([4, 77]));
}

#[test]
fn listener_checks_count_registry_and_affiliations() {
    let cc = cell();
    assert!(cc.has_listener(500, false));
    assert!(!cc.has_listener(501, false));
    assert!(cc.has_listener(501, true));
    assert!(cc.has_local_listener(500, false));
}
