//! Short data of a given type (EN 300 392-2 clause 14.8.52) that the control
//! interface hands over as raw bits: types 1 to 3 are fixed-size values,
//! type 4 is a length-prefixed payload beginning with a protocol identifier.

use vstd::prelude::*;

use crate::address::SsiType;
use crate::sds::{SdsBsSubentity, control_air_route, report_remembered, transfer_report_context};
use crate::sds_routing::{SdsDelivery, sds_delivery, without_report_request};

verus! {

/// Type-4 user data is at most this many bits (an 11-bit length).
pub const SDS_TYPE4_MAX_BITS: u16 = 2047;

/// SDS user data of one of the four types.
#[derive(Debug)]
pub enum SdsUserData {
    Type1(u16),
    Type2(u32),
    Type3(u64),
    /// Length in bits and the bytes holding them.
    Type4(u16, Vec<u8>),
}

/// A raw SDS from the control interface, ready for the air.
pub struct RawControlSds {
    pub delivery: SdsDelivery,
    pub user_data: SdsUserData,
}

/// The big-endian value of two bytes.
pub open spec fn be16(p: Seq<u8>) -> u16 {
    (p[0] as int * 0x100 + p[1] as int) as u16
}

/// The big-endian value of four bytes.
pub open spec fn be32(p: Seq<u8>) -> u32 {
    (p[0] as int * 0x1000000 + p[1] as int * 0x10000 + p[2] as int * 0x100 + p[3] as int) as u32
}

/// The big-endian value of eight bytes.
pub open spec fn be64(p: Seq<u8>) -> u64 {
    (p[0] as int * 0x100000000000000 + p[1] as int * 0x1000000000000 + p[2] as int * 0x10000000000
        + p[3] as int * 0x100000000 + p[4] as int * 0x1000000 + p[5] as int * 0x10000 + p[6] as int * 0x100
        + p[7] as int) as u64
}

/// The type-4 payload passes: it holds at least the protocol identifier,
/// fits the length field, and the bytes its declared length needs
/// (`declared`) are there; `canonical` is its canonical form.
pub open spec fn type4_accepted(len_bits: u16, payload_len: nat, declared: Option<usize>, canonical: Option<Seq<u8>>) -> bool {
    8 <= len_bits <= SDS_TYPE4_MAX_BITS && declared is Some && payload_len >= declared->0 && canonical is Some
}

impl SdsBsSubentity {
    /// The user data that raw control data of type `sdti` (0 to 3 for
    /// types 1 to 4), `len_bits` long, stands for: a fixed-size value read
    /// big-endian from exactly as many bytes as its type has bits, or for
    /// type 4 the canonical bytes (`type4_canonical`) of a payload from 8 to
    /// 2047 bits that holds the bytes its length needs
    /// (`type4_declared_bytes`). Anything else is refused.
    pub fn raw_control_sds_user_data(
        sdti: u8,
        len_bits: u16,
        payload: &Vec<u8>,
        type4_declared_bytes: Option<usize>,
        type4_canonical: Option<Vec<u8>>,
    ) -> (r: Option<SdsUserData>)
        ensures
            sdti == 0 ==> if len_bits == 16 && payload@.len() == 2 {
                r matches Some(SdsUserData::Type1(v)) && v == be16(payload@)
            } else {
                r is None
            },
            sdti == 1 ==> if len_bits == 32 && payload@.len() == 4 {
                r matches Some(SdsUserData::Type2(v)) && v == be32(payload@)
            } else {
                r is None
            },
            sdti == 2 ==> if len_bits == 64 && payload@.len() == 8 {
                r matches Some(SdsUserData::Type3(v)) && v == be64(payload@)
            } else {
                r is None
            },
            sdti == 3 ==> if type4_accepted(
                len_bits,
                payload@.len(),
                type4_declared_bytes,
                match type4_canonical {
                    Some(c) => Some(c@),
                    None => None,
                },
            ) {
                r matches Some(SdsUserData::Type4(l, d)) && l == len_bits && d@ == type4_canonical->0@
            } else {
                r is None
            },
            sdti > 3 ==> r is None,
    {
        if sdti == 0 {
            if Self::check_raw_sds_payload(len_bits, 16, payload.len(), 2).is_none() {
                return None;
            }
            let v: u16 = payload[0] as u16 * 0x100 + payload[1] as u16;
            return Some(SdsUserData::Type1(v));
        }
        if sdti == 1 {
            if Self::check_raw_sds_payload(len_bits, 32, payload.len(), 4).is_none() {
                return None;
            }
            let v: u32 = payload[0] as u32 * 0x1000000 + payload[1] as u32 * 0x10000 + payload[2] as u32 * 0x100
                + payload[3] as u32;
            return Some(SdsUserData::Type2(v));
        }
        if sdti == 2 {
            if Self::check_raw_sds_payload(len_bits, 64, payload.len(), 8).is_none() {
                return None;
            }
            let v: u64 = payload[0] as u64 * 0x100000000000000 + payload[1] as u64 * 0x1000000000000 + payload[2] as u64
                * 0x10000000000 + payload[3] as u64 * 0x100000000 + payload[4] as u64 * 0x1000000 + payload[5] as u64
                * 0x10000 + payload[6] as u64 * 0x100 + payload[7] as u64;
            return Some(SdsUserData::Type3(v));
        }
        if sdti == 3 {
            if len_bits < 8 || len_bits > SDS_TYPE4_MAX_BITS {
                return None;
            }
            let expected = match type4_declared_bytes {
                Some(n) => n,
                None => {
                    return None;
                },
            };
            if payload.len() < expected {
                return None;
            }
            return match type4_canonical {
                Some(d) => Some(SdsUserData::Type4(len_bits, d)),
                None => None,
            };
        }
        None
    }

    /// A raw SDS from the control interface, from `source_ssi` to
    /// `dest_ssi` (a group when `dest_is_group`): it needs a route on the
    /// air and valid user data; type-4 data to a group loses its delivery
    /// report request (a group transfer is never acknowledged), and an
    /// individual transfer asking for reports is remembered.
    pub fn rx_raw_sds_from_control(
        &mut self,
        source_ssi: u32,
        dest_ssi: u32,
        dest_is_group: bool,
        sdti: u8,
        len_bits: u16,
        payload: &Vec<u8>,
        dest_registered: bool,
        dest_group_has_members: bool,
        type4_declared_bytes: Option<usize>,
        type4_canonical: Option<Vec<u8>>,
    ) -> (r: Option<RawControlSds>)
        requires
            old(self).wf(),
        ensures
            final(self).wf(),
            final(self).pending_actions == old(self).pending_actions,
            final(self).control_message_reference == old(self).control_message_reference,
            ({
                let route = control_air_route(source_ssi, dest_ssi, dest_is_group, dest_registered, dest_group_has_members);
                let typed = sdti <= 2 ==> (sdti == 0 && len_bits == 16 && payload@.len() == 2) || (sdti == 1 && len_bits
                    == 32 && payload@.len() == 4) || (sdti == 2 && len_bits == 64 && payload@.len() == 8);
                let canon = match type4_canonical {
                    Some(c) => Some(c@),
                    None => None,
                };
                let valid = sdti <= 3 && typed && (sdti == 3 ==> type4_accepted(
                    len_bits,
                    payload@.len(),
                    type4_declared_bytes,
                    canon,
                ));
                if route is None || !valid {
                    r is None && final(self).sds_tl_report_contexts == old(self).sds_tl_report_contexts
                } else {
                    let air = route->0;
                    let data = if sdti == 3 {
                        if air.dest_ssi_type == SsiType::Gssi {
                            without_report_request(canon->0)
                        } else {
                            canon->0
                        }
                    } else {
                        Seq::<u8>::empty()
                    };
                    &&& r is Some
                    &&& Some(r->0.delivery) == sds_delivery(air.air_source_ssi, dest_ssi, air.dest_ssi_type)
                    &&& sdti == 0 ==> (r->0.user_data matches SdsUserData::Type1(v) && v == be16(payload@))
                    &&& sdti == 1 ==> (r->0.user_data matches SdsUserData::Type2(v) && v == be32(payload@))
                    &&& sdti == 2 ==> (r->0.user_data matches SdsUserData::Type3(v) && v == be64(payload@))
                    &&& sdti == 3 ==> (r->0.user_data matches SdsUserData::Type4(l, d) && l == len_bits && d@ == data)
                    &&& final(self).sds_tl_report_contexts@ == report_remembered(
                        old(self).sds_tl_report_contexts@,
                        air.air_source_ssi,
                        dest_ssi,
                        air.dest_ssi_type,
                        transfer_report_context(data),
                    )
                }
            }),
    {
        let route = match Self::control_sds_air_route(
            source_ssi,
            dest_ssi,
            dest_is_group,
            dest_registered,
            dest_group_has_members,
        ) {
            Some(x) => x,
            None => {
                return None;
            },
        };
        let user_data = match Self::raw_control_sds_user_data(
            sdti,
            len_bits,
            payload,
            type4_declared_bytes,
            type4_canonical,
        ) {
            Some(u) => u,
            None => {
                return None;
            },
        };
        let group = matches!(route.dest_ssi_type, SsiType::Gssi);
        match user_data {
            SdsUserData::Type4(l, mut d) => {
                if group {
                    Self::clear_sds_tl_delivery_report_request(&mut d);
                }
                let delivery = match self.send_d_sds_data_with_reporter(
                    route.air_source_ssi,
                    dest_ssi,
                    route.dest_ssi_type,
                    &d,
                ) {
                    Some(x) => x,
                    None => {
                        return None;
                    },
                };
                Some(RawControlSds { delivery, user_data: SdsUserData::Type4(l, d) })
            },
            other => {
                let empty: Vec<u8> = Vec::new();
                let delivery = match self.send_d_sds_data_with_reporter(
                    route.air_source_ssi,
                    dest_ssi,
                    route.dest_ssi_type,
                    &empty,
                ) {
                    Some(x) => x,
                    None => {
                        return None;
                    },
                };
                proof {
                    assert(empty@ =~= Seq::<u8>::empty());
                }
                Some(RawControlSds { delivery, user_data: other })
            },
        }
    }
}

} // verus!
