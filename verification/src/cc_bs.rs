//! State of the base-station call control sub-entity: the circuits, the
//! active group and individual calls, subscriber group affiliations and
//! listener counts, and the parrot test session.

use std::collections::{HashMap, HashSet};
use vstd::prelude::*;

use crate::call::{ActiveCall, IndividualCall};
use crate::circuit_mgr::CircuitMgr;
use crate::parrot::ParrotSession;
use crate::tdma::TdmaTime;

verus! {

/// Call control sub-entity of the base station (EN 300 392-2 clause 14):
/// group calls, individual calls and calls bridged to the network.
pub struct CcBsSubentity {
    pub dltime: TdmaTime,
    pub circuits: CircuitMgr,
    /// Active group calls by call identifier.
    pub active_calls: HashMap<u16, ActiveCall>,
    /// Active or pending individual calls by call identifier.
    pub individual_calls: HashMap<u16, IndividualCall>,
    /// Groups of each registered local subscriber (ISSI to GSSIs).
    pub subscriber_groups: HashMap<u32, HashSet<u32>>,
    /// Number of affiliated local subscribers per group.
    pub group_listeners: HashMap<u32, usize>,
    /// Groups of each subscriber known through the network bridge.
    pub external_subscriber_groups: HashMap<u32, HashSet<u32>>,
    /// Number of affiliated bridge subscribers per group.
    pub external_group_listeners: HashMap<u32, usize>,
    /// The running parrot session, if any.
    pub parrot_session: Option<ParrotSession>,
}

impl CcBsSubentity {
    /// Every individual call record names traffic timeslots (1 to 4) for
    /// both of its parties.
    pub open spec fn individual_calls_wf(&self) -> bool {
        forall|id: u16|
            #[trigger] self.individual_calls@.contains_key(id) ==> {
                let c = self.individual_calls@[id];
                1 <= c.calling_ts <= 4 && 1 <= c.called_ts <= 4
            }
    }

    /// A sub-entity with no calls, subscribers or sessions.
    pub fn new() -> (r: CcBsSubentity)
        ensures
            r.circuits.wf(),
            r.individual_calls_wf(),
            r.circuits.next_call_identifier == 4,
            r.active_calls@ == Map::<u16, ActiveCall>::empty(),
            r.individual_calls@ == Map::<u16, IndividualCall>::empty(),
            r.subscriber_groups@ == Map::<u32, HashSet<u32>>::empty(),
            r.group_listeners@ == Map::<u32, usize>::empty(),
            r.external_subscriber_groups@ == Map::<u32, HashSet<u32>>::empty(),
            r.external_group_listeners@ == Map::<u32, usize>::empty(),
            r.parrot_session is None,
            r.dltime == (TdmaTime { h: 0, m: 1, f: 1, t: 1 }),
    {
        CcBsSubentity {
            dltime: TdmaTime::default(),
            circuits: CircuitMgr::new(),
            active_calls: HashMap::new(),
            individual_calls: HashMap::new(),
            subscriber_groups: HashMap::new(),
            group_listeners: HashMap::new(),
            external_subscriber_groups: HashMap::new(),
            external_group_listeners: HashMap::new(),
            parrot_session: None,
        }
    }
}

} // verus!
