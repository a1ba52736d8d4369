//! Checks of received call-control PDUs against the features this base
//! station supports (EN 300 392-2 clause 14.7.1): a U-SETUP is refused as a
//! whole, the other PDUs name the first unsupported element by its pointer
//! for a CMCE FUNCTION NOT SUPPORTED answer. Also the U-INFO of a bridged
//! call, whose DTMF digits go on to the network.

use vstd::prelude::*;

use crate::cc_bs::CcBsSubentity;
use crate::circuit_mgr::CommunicationType;

verus! {

/// Element pointer of unsupported type-3 elements in U-DISCONNECT.
pub const CMCE_FNS_PTR_U_DISCONNECT_TYPE3: u8 = 20;

/// Element pointer of a modify element in U-INFO.
pub const CMCE_FNS_PTR_U_INFO_MODIFY: u8 = 16;

/// Element pointer of unsupported type-3 elements in U-INFO.
pub const CMCE_FNS_PTR_U_INFO_TYPE3: u8 = 17;

/// Element pointer of unsupported type-3 elements in U-RELEASE.
pub const CMCE_FNS_PTR_U_RELEASE_TYPE3: u8 = 20;

/// Element pointer of a set encryption control bit in U-TX DEMAND.
pub const CMCE_FNS_PTR_U_TX_DEMAND_ENCRYPTION_CONTROL: u8 = 16;

/// Element pointer of a set reserved bit in U-TX DEMAND.
pub const CMCE_FNS_PTR_U_TX_DEMAND_RESERVED: u8 = 17;

/// Element pointer of unsupported type-3 elements in U-TX DEMAND.
pub const CMCE_FNS_PTR_U_TX_DEMAND_TYPE3: u8 = 19;

/// The elements of a U-SETUP that the feature check reads.
#[derive(Clone, Copy, Debug)]
pub struct USetupFeatures {
    pub area_selection: u8,
    pub communication_type: CommunicationType,
    /// Duplex when set, simplex otherwise.
    pub simplex_duplex_selection: bool,
    pub clir_control: u8,
    pub has_facility: bool,
    pub has_dm_ms_address: bool,
    pub has_proprietary: bool,
}

/// The optional elements of a U-DISCONNECT or U-RELEASE.
#[derive(Clone, Copy, Debug)]
pub struct ClearingElements {
    pub has_facility: bool,
    pub has_proprietary: bool,
}

/// The elements of a U-INFO that the feature check reads.
#[derive(Clone, Copy, Debug)]
pub struct UInfoElements {
    pub has_modify: bool,
    pub has_facility: bool,
    pub has_proprietary: bool,
}

/// The elements of a U-TX DEMAND that the feature check reads.
#[derive(Clone, Copy, Debug)]
pub struct UTxDemandElements {
    pub encryption_control: bool,
    /// Reserved bit; this edition leaves it clear.
    pub reserved: bool,
    pub has_facility: bool,
    pub has_dm_ms_address: bool,
    pub has_proprietary: bool,
}

/// A U-SETUP is supported when it selects no area, asks duplex only of an
/// individual call, leaves CLIR control at zero and carries no facility,
/// DM-MS address or proprietary element.
pub open spec fn u_setup_supported(pdu: USetupFeatures) -> bool {
    &&& pdu.area_selection == 0
    &&& !(pdu.communication_type != CommunicationType::P2p && pdu.simplex_duplex_selection)
    &&& pdu.clir_control == 0
    &&& !pdu.has_facility
    &&& !pdu.has_dm_ms_address
    &&& !pdu.has_proprietary
}

/// The element pointer with which a U-DISCONNECT or U-RELEASE is refused.
pub open spec fn clearing_refusal(pdu: ClearingElements, type3_ptr: u8) -> Option<u8> {
    if pdu.has_facility || pdu.has_proprietary {
        Some(type3_ptr)
    } else {
        None
    }
}

/// The element pointer with which a U-INFO is refused, if it is.
pub open spec fn u_info_refusal(pdu: UInfoElements) -> Option<u8> {
    if pdu.has_modify {
        Some(CMCE_FNS_PTR_U_INFO_MODIFY)
    } else if pdu.has_facility || pdu.has_proprietary {
        Some(CMCE_FNS_PTR_U_INFO_TYPE3)
    } else {
        None
    }
}

/// The element pointer with which a U-TX DEMAND is refused, if it is.
pub open spec fn u_tx_demand_refusal(pdu: UTxDemandElements) -> Option<u8> {
    if pdu.encryption_control {
        Some(CMCE_FNS_PTR_U_TX_DEMAND_ENCRYPTION_CONTROL)
    } else if pdu.reserved {
        Some(CMCE_FNS_PTR_U_TX_DEMAND_RESERVED)
    } else if pdu.has_facility || pdu.has_dm_ms_address || pdu.has_proprietary {
        Some(CMCE_FNS_PTR_U_TX_DEMAND_TYPE3)
    } else {
        None
    }
}

impl CcBsSubentity {
    /// Whether a U-SETUP asks only for supported features.
    pub fn feature_check_u_setup(pdu: &USetupFeatures) -> (supported: bool)
        ensures
            supported == u_setup_supported(*pdu),
    {
        let mut supported = true;
        if pdu.area_selection != 0 {
            supported = false;
        }
        if !matches!(pdu.communication_type, CommunicationType::P2p) && pdu.simplex_duplex_selection {
            supported = false;
        }
        if pdu.clir_control != 0 {
            supported = false;
        }
        if pdu.has_facility {
            supported = false;
        }
        if pdu.has_dm_ms_address {
            supported = false;
        }
        if pdu.has_proprietary {
            supported = false;
        }
        supported
    }

    /// The unsupported element of a U-DISCONNECT, with the reason.
    pub fn unsupported_u_disconnect_function(pdu: &ClearingElements) -> (r: Option<(u8, &'static str)>)
        ensures
            r is Some <==> clearing_refusal(*pdu, CMCE_FNS_PTR_U_DISCONNECT_TYPE3) is Some,
            r matches Some((p, _)) ==> p == CMCE_FNS_PTR_U_DISCONNECT_TYPE3,
    {
        if pdu.has_facility {
            return Some((CMCE_FNS_PTR_U_DISCONNECT_TYPE3, "facility not supported"));
        }
        if pdu.has_proprietary {
            return Some((CMCE_FNS_PTR_U_DISCONNECT_TYPE3, "proprietary not supported"));
        }
        None
    }

    /// The unsupported element of a U-RELEASE, with the reason.
    pub fn unsupported_u_release_function(pdu: &ClearingElements) -> (r: Option<(u8, &'static str)>)
        ensures
            r is Some <==> clearing_refusal(*pdu, CMCE_FNS_PTR_U_RELEASE_TYPE3) is Some,
            r matches Some((p, _)) ==> p == CMCE_FNS_PTR_U_RELEASE_TYPE3,
    {
        if pdu.has_facility {
            return Some((CMCE_FNS_PTR_U_RELEASE_TYPE3, "facility not supported"));
        }
        if pdu.has_proprietary {
            return Some((CMCE_FNS_PTR_U_RELEASE_TYPE3, "proprietary not supported"));
        }
        None
    }

    /// The unsupported element of a U-INFO, with the reason: a modify
    /// element first, then a facility or proprietary element.
    pub fn unsupported_u_info_function(pdu: &UInfoElements) -> (r: Option<(u8, &'static str)>)
        ensures
            r is Some <==> u_info_refusal(*pdu) is Some,
            r matches Some((p, _)) ==> p == u_info_refusal(*pdu)->0,
    {
        if pdu.has_modify {
            return Some((CMCE_FNS_PTR_U_INFO_MODIFY, "modify not supported"));
        }
        if pdu.has_facility {
            return Some((CMCE_FNS_PTR_U_INFO_TYPE3, "facility not supported"));
        }
        if pdu.has_proprietary {
            return Some((CMCE_FNS_PTR_U_INFO_TYPE3, "proprietary not supported"));
        }
        None
    }

    /// The unsupported element of a U-TX DEMAND, with the reason: encryption
    /// control first, then a set reserved bit, then a facility, DM-MS address
    /// or proprietary element.
    pub fn unsupported_u_tx_demand_function(pdu: &UTxDemandElements) -> (r: Option<(u8, &'static str)>)
        ensures
            r is Some <==> u_tx_demand_refusal(*pdu) is Some,
            r matches Some((p, _)) ==> p == u_tx_demand_refusal(*pdu)->0,
    {
        if pdu.encryption_control {
            return Some((CMCE_FNS_PTR_U_TX_DEMAND_ENCRYPTION_CONTROL, "encrypted transmission demand not supported"));
        }
        if pdu.reserved {
            return Some((CMCE_FNS_PTR_U_TX_DEMAND_RESERVED, "reserved bit set"));
        }
        if pdu.has_facility {
            return Some((CMCE_FNS_PTR_U_TX_DEMAND_TYPE3, "facility not supported"));
        }
        if pdu.has_dm_ms_address {
            return Some((CMCE_FNS_PTR_U_TX_DEMAND_TYPE3, "dm_ms_address not supported"));
        }
        if pdu.has_proprietary {
            return Some((CMCE_FNS_PTR_U_TX_DEMAND_TYPE3, "proprietary not supported"));
        }
        None
    }
}

/// Kind of a DTMF element (EN 300 392-2 clause 14.8.17a).
#[derive(Clone, Copy, Debug, PartialEq, Eq, Structural)]
pub enum DtmfKind {
    ToneStart,
    ToneEnd,
    NotSupported,
    NotSubscribed,
    Reserved(u8),
    /// Digits of the older coding without a type field.
    LegacyDigits,
    /// Empty or unreadable.
    Invalid,
}

/// A decoded DTMF element of a U-INFO.
pub struct DecodedDtmf {
    pub kind: DtmfKind,
    /// The digits, one byte each.
    pub digits: Vec<u8>,
    /// Length in bits of the element once packed into bytes.
    pub packed_len_bits: u32,
    /// The packed element holds at least one byte.
    pub packed_nonempty: bool,
}

/// The decision on a U-INFO.
pub enum UInfoOutcome {
    /// No individual call has the identifier.
    UnknownCall,
    /// Both parties are local: nothing to forward.
    LocalCall,
    /// The bridged call has no bridge UUID.
    MissingBrewUuid,
    /// The PDU carries no DTMF element.
    NoDtmf,
    /// The DTMF element is a tone end, an indication or unreadable.
    NotForwarded { kind: DtmfKind },
    /// The DTMF element decodes to no digit.
    NoDigits,
    /// The DTMF element packs to nothing.
    EmptyPayload,
    /// Each digit goes to the bridge as one 8-bit DTMF message.
    Forward { brew_uuid: u128, digits: Vec<u8> },
}

/// DTMF of this kind starts tones that go to the bridge.
pub open spec fn forwarded_dtmf_kind(k: DtmfKind) -> bool {
    k == DtmfKind::ToneStart || k == DtmfKind::LegacyDigits
}

impl CcBsSubentity {
    /// Handles a U-INFO of call `call_id` carrying `dtmf`, if any: DTMF of
    /// a call with a party behind the bridge is forwarded digit by digit
    /// when it starts tones and packs to something.
    pub fn fsm_on_u_info(&self, call_id: u16, dtmf: Option<DecodedDtmf>) -> (r: UInfoOutcome)
        ensures
            ({
                let m = self.individual_calls@;
                if !m.contains_key(call_id) {
                    r is UnknownCall
                } else if !m[call_id].called_over_brew && !m[call_id].calling_over_brew {
                    r is LocalCall
                } else if m[call_id].brew_uuid is None {
                    r is MissingBrewUuid
                } else {
                    match dtmf {
                        None => r is NoDtmf,
                        Some(d) => if !forwarded_dtmf_kind(d.kind) {
                            r matches UInfoOutcome::NotForwarded { kind } && kind == d.kind
                        } else if d.digits@.len() == 0 {
                            r is NoDigits
                        } else if d.packed_len_bits == 0 || !d.packed_nonempty {
                            r is EmptyPayload
                        } else {
                            r matches UInfoOutcome::Forward { brew_uuid, digits } && brew_uuid
                                == m[call_id].brew_uuid->0 && digits@ == d.digits@
                        },
                    }
                }
            }),
    {
        let brew_uuid = match self.individual_calls.get(&call_id) {
            None => {
                return UInfoOutcome::UnknownCall;
            },
            Some(call) => {
                if !call.called_over_brew && !call.calling_over_brew {
                    return UInfoOutcome::LocalCall;
                }
                match call.brew_uuid {
                    Some(u) => u,
                    None => {
                        return UInfoOutcome::MissingBrewUuid;
                    },
                }
            },
        };
        let d = match dtmf {
            Some(d) => d,
            None => {
                return UInfoOutcome::NoDtmf;
            },
        };
        match d.kind {
            DtmfKind::ToneStart | DtmfKind::LegacyDigits => {},
            _ => {
                return UInfoOutcome::NotForwarded { kind: d.kind };
            },
        }
        if d.digits.len() == 0 {
            return UInfoOutcome::NoDigits;
        }
        if d.packed_len_bits == 0 || !d.packed_nonempty {
            return UInfoOutcome::EmptyPayload;
        }
        UInfoOutcome::Forward { brew_uuid, digits: d.digits }
    }
}

} // verus!
