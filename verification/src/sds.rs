//! Short data service (EN 300 392-2 clause 13) and supplementary service
//! sub-entities: address checks, SDS-TL report bookkeeping and the queue of
//! actions requested through status messages.

use vstd::prelude::*;

use crate::address::{MAX_AIR_INTERFACE_SSI, SsiType, TetraAddress};
use crate::ext_number::string_push;

verus! {

/// SDS-TL transfer without delivery report request.
pub const SDS_TL_TRANSFER_NO_REPORT_REQ: u8 = 0x00;

/// Mask of the delivery report request bits of an SDS-TL transfer.
pub const SDS_TL_TRANSFER_REPORT_REQ_MASK: u8 = 0x0C;

/// Report mask bit: message received.
pub const SDS_TL_REPORT_RECEIVED_MASK: u8 = 0x01;

/// Report mask bit: message consumed.
pub const SDS_TL_REPORT_CONSUMED_MASK: u8 = 0x02;

/// At most this many SDS-TL report contexts are remembered.
pub const SDS_TL_REPORT_CONTEXT_LIMIT: usize = 256;

/// Calling party type identifier: how the calling party address is given.
#[derive(Clone, Copy, Debug, PartialEq, Eq, Structural)]
pub enum PartyTypeIdentifier {
    Sna,
    Ssi,
    Tsi,
    Reserved,
}

/// Type of an SDS-SHORT REPORT.
#[derive(Clone, Copy, Debug, PartialEq, Eq, Structural)]
pub enum ShortReportType {
    ProtOrEncodingNotSupported,
    DestMemFull,
    MessageReceived,
    MessageConsumed,
}

/// Actions that the short data sub-entity cannot carry out itself and
/// leaves for the CMCE entity.
#[derive(Clone, Copy, Debug, PartialEq, Eq, Structural)]
pub enum SdsPendingAction {
    /// Deregister every registered station.
    KickAll,
}

/// `ssi` fits the 24-bit air-interface address space.
pub open spec fn valid_air_interface_ssi(ssi: u32) -> bool {
    ssi <= MAX_AIR_INTERFACE_SSI
}

/// Short data sub-entity of the mobile station side.
pub struct SdsMsSubentity {}

impl SdsMsSubentity {
    /// A new sub-entity.
    pub fn new() -> (r: SdsMsSubentity)
        ensures
            r == (SdsMsSubentity {}),
    {
        SdsMsSubentity {}
    }

    /// `ssi` fits the 24-bit air-interface address space.
    pub fn valid_air_interface_ssi(ssi: u32) -> (r: bool)
        ensures
            r == valid_air_interface_ssi(ssi),
    {
        ssi <= MAX_AIR_INTERFACE_SSI
    }

    /// The source SSI of a downlink D-SDS-DATA/D-STATUS: only an SSI-type
    /// calling party with a present 24-bit address qualifies.
    pub fn calling_party_ssi(
        cpti: PartyTypeIdentifier,
        calling_party_address_ssi: Option<u64>,
        calling_party_extension: Option<u64>,
    ) -> (r: Option<u32>)
        ensures
            r == match (cpti, calling_party_address_ssi) {
                (PartyTypeIdentifier::Ssi, Some(ssi)) => if ssi <= MAX_AIR_INTERFACE_SSI {
                    Some(ssi as u32)
                } else {
                    None::<u32>
                },
                _ => None::<u32>,
            },
    {
        match cpti {
            PartyTypeIdentifier::Ssi => {
                let ssi = match calling_party_address_ssi {
                    Some(ssi) => ssi,
                    None => {
                        return None;
                    },
                };
                if ssi <= MAX_AIR_INTERFACE_SSI as u64 {
                    Some(ssi as u32)
                } else {
                    None
                }
            },
            PartyTypeIdentifier::Tsi => None,
            PartyTypeIdentifier::Sna | PartyTypeIdentifier::Reserved => None,
        }
    }
}

/// Supplementary service sub-entity of the base station.
pub struct SsBsSubentity {}

impl SsBsSubentity {
    /// A new sub-entity.
    pub fn new() -> (r: SsBsSubentity)
        ensures
            r == (SsBsSubentity {}),
    {
        SsBsSubentity {}
    }
}

/// Supplementary service sub-entity of the mobile station.
pub struct SsMsSubentity {}

impl SsMsSubentity {
    /// A new sub-entity.
    pub fn new() -> (r: SsMsSubentity)
        ensures
            r == (SsMsSubentity {}),
    {
        SsMsSubentity {}
    }
}


/// Identifies an SDS-TL message awaiting delivery reports: the station that
/// will report, the station that sent it, and the message reference.
#[derive(Clone, Copy, Debug, PartialEq, Eq, Structural)]
pub struct SdsTlReportContextKey {
    pub reporting_issi: u32,
    pub peer_issi: u32,
    pub message_reference: u8,
}

/// What is remembered of an SDS-TL message awaiting delivery reports.
#[derive(Clone, Copy, Debug, PartialEq, Eq, Structural)]
pub struct SdsTlReportContext {
    pub protocol_id: u8,
    pub requested_report_mask: u8,
    pub converted_report_mask: u8,
}

/// One remembered report context.
#[derive(Clone, Copy, Debug, PartialEq, Eq, Structural)]
pub struct SdsTlReportEntry {
    pub key: SdsTlReportContextKey,
    pub context: SdsTlReportContext,
}

/// Base-station short data state: the remembered SDS-TL report contexts,
/// oldest first, and the actions left for the CMCE entity.
pub struct SdsBsSubentity {
    pub pending_actions: Vec<SdsPendingAction>,
    pub sds_tl_report_contexts: Vec<SdsTlReportEntry>,
    /// Counter of the message references of SDS-TL text sent from the
    /// control interface.
    pub control_message_reference: u8,
}

/// Keys of `entries` are pairwise different.
pub open spec fn report_keys_distinct(entries: Seq<SdsTlReportEntry>) -> bool {
    forall|i: int, j: int| 0 <= i < j < entries.len() ==> (#[trigger] entries[i]).key != (#[trigger] entries[j]).key
}

/// Index of the entry for `key` in `entries`.
pub open spec fn report_entry_index(entries: Seq<SdsTlReportEntry>, key: SdsTlReportContextKey, k: int) -> bool {
    0 <= k < entries.len() && entries[k].key == key
}

/// The report mask that a transfer's report request bits ask for.
pub open spec fn report_request_mask(report_request: u8) -> u8 {
    let bits = report_request & SDS_TL_TRANSFER_REPORT_REQ_MASK;
    if bits == 0x04 {
        SDS_TL_REPORT_RECEIVED_MASK
    } else if bits == 0x08 {
        SDS_TL_REPORT_CONSUMED_MASK
    } else if bits == 0x0C {
        SDS_TL_REPORT_RECEIVED_MASK | SDS_TL_REPORT_CONSUMED_MASK
    } else {
        0
    }
}

/// The report mask that a short report answers; negative reports answer all.
pub open spec fn short_report_mask(t: ShortReportType) -> u8 {
    match t {
        ShortReportType::MessageReceived => SDS_TL_REPORT_RECEIVED_MASK,
        ShortReportType::MessageConsumed => SDS_TL_REPORT_CONSUMED_MASK,
        _ => (SDS_TL_REPORT_RECEIVED_MASK | SDS_TL_REPORT_CONSUMED_MASK),
    }
}

/// `protocol_id` uses the SDS-TL transport PDUs (0x80..=0xFE, EN 300 392-2 clause 29.4.1).
pub open spec fn is_sds_tl_transport_protocol_id(protocol_id: u8) -> bool {
    0x80 <= protocol_id <= 0xFE
}

/// Every report that `context` asked for has arrived once `report_mask` is
/// added, or the report was not asked for, or it is a terminal negative one.
pub open spec fn report_context_done(context: SdsTlReportContext, t: ShortReportType) -> bool {
    let mask = short_report_mask(t);
    let converted = context.converted_report_mask | mask;
    (converted & context.requested_report_mask) == context.requested_report_mask || (mask
        & context.requested_report_mask) == 0 || t == ShortReportType::DestMemFull || t
        == ShortReportType::ProtOrEncodingNotSupported
}

/// The SDS-TL transfer facts of user data `data` that ask for delivery
/// reports: protocol identifier, message reference, requested report mask.
pub open spec fn transfer_report_context(data: Seq<u8>) -> Option<(u8, u8, u8)> {
    if data.len() >= 3 && is_sds_tl_transport_protocol_id(data[0]) && data[1] & 0xF0 == SDS_TL_TRANSFER_NO_REPORT_REQ
        && report_request_mask(data[1]) != 0 {
        Some((data[0], data[2], report_request_mask(data[1])))
    } else {
        None
    }
}

/// The report contexts `e` once a transfer (`transfer`) from `source_issi`
/// to `dest_ssi` of kind `dest_ssi_type` is remembered: an individual
/// transfer that asks for reports replaces any context with its key and
/// becomes the newest; beyond the limit the oldest is forgotten.
pub open spec fn report_remembered(
    e: Seq<SdsTlReportEntry>,
    source_issi: u32,
    dest_ssi: u32,
    dest_ssi_type: SsiType,
    transfer: Option<(u8, u8, u8)>,
) -> Seq<SdsTlReportEntry> {
    match (dest_ssi_type, transfer) {
        (SsiType::Issi, Some((protocol_id, message_reference, requested_report_mask))) => {
            let key = SdsTlReportContextKey { reporting_issi: dest_ssi, peer_issi: source_issi, message_reference };
            let entry = SdsTlReportEntry {
                key,
                context: SdsTlReportContext { protocol_id, requested_report_mask, converted_report_mask: 0 },
            };
            let base = if exists|k: int| report_entry_index(e, key, k) {
                e.remove(choose|k: int| report_entry_index(e, key, k))
            } else {
                e
            };
            let grown = base.push(entry);
            if grown.len() > SDS_TL_REPORT_CONTEXT_LIMIT {
                grown.subrange(1, grown.len() as int)
            } else {
                grown
            }
        },
        _ => e,
    }
}

/// The protocol identifier remembered for the message that a short report
/// of type `t` about `key` answers, and the contexts after the report: the
/// context is forgotten once done, else the report is recorded.
pub open spec fn report_taken(e: Seq<SdsTlReportEntry>, key: SdsTlReportContextKey, t: ShortReportType) -> (
    Option<u8>,
    Seq<SdsTlReportEntry>,
) {
    if exists|k: int| report_entry_index(e, key, k) {
        let k = choose|k: int| report_entry_index(e, key, k);
        let c = e[k].context;
        (
            Some(c.protocol_id),
            if report_context_done(c, t) {
                e.remove(k)
            } else {
                e.update(
                    k,
                    SdsTlReportEntry {
                        key,
                        context: SdsTlReportContext {
                            converted_report_mask: c.converted_report_mask | short_report_mask(t),
                            ..c
                        },
                    },
                )
            },
        )
    } else {
        (None, e)
    }
}

impl SdsBsSubentity {
    /// A sub-entity with no remembered contexts and no pending actions.
    pub fn new() -> (r: SdsBsSubentity)
        ensures
            r.pending_actions@.len() == 0,
            r.sds_tl_report_contexts@.len() == 0,
            r.control_message_reference == 1,
    {
        SdsBsSubentity { pending_actions: Vec::new(), sds_tl_report_contexts: Vec::new(), control_message_reference: 1 }
    }

    /// The remembered contexts have distinct keys and do not exceed the limit.
    pub open spec fn wf(&self) -> bool {
        &&& report_keys_distinct(self.sds_tl_report_contexts@)
        &&& self.sds_tl_report_contexts@.len() <= SDS_TL_REPORT_CONTEXT_LIMIT
    }

    /// `ssi` fits the 24-bit air-interface address space.
    pub fn valid_air_interface_ssi(ssi: u32) -> (r: bool)
        ensures
            r == valid_air_interface_ssi(ssi),
    {
        ssi <= MAX_AIR_INTERFACE_SSI
    }

    /// The calling station of an uplink SDS/status: only an individual
    /// 24-bit address qualifies.
    pub fn rf_calling_party_issi(address: TetraAddress) -> (r: Option<u32>)
        ensures
            r == if address.ssi_type == SsiType::Issi && valid_air_interface_ssi(address.ssi) {
                Some(address.ssi)
            } else {
                None::<u32>
            },
    {
        if address.ssi_type != SsiType::Issi || !Self::valid_air_interface_ssi(address.ssi) {
            return None;
        }
        Some(address.ssi)
    }

    /// `protocol_id` uses the SDS-TL transport PDUs.
    pub fn is_sds_tl_transport_protocol_id(protocol_id: u8) -> (r: bool)
        ensures
            r == is_sds_tl_transport_protocol_id(protocol_id),
    {
        0x80 <= protocol_id && protocol_id <= 0xFE
    }

    /// Source address of a system-generated SDS: the all-ones address for a
    /// broadcast to the all-ones group, `source_issi` otherwise.
    pub fn system_broadcast_source_issi(source_issi: u32, dest_ssi: u32) -> (r: u32)
        ensures
            r == if dest_ssi == MAX_AIR_INTERFACE_SSI {
                MAX_AIR_INTERFACE_SSI
            } else {
                source_issi
            },
    {
        if dest_ssi == MAX_AIR_INTERFACE_SSI {
            MAX_AIR_INTERFACE_SSI
        } else {
            source_issi
        }
    }

    /// Clears the delivery report request of an SDS-TL transfer held in
    /// `data` (protocol identifier, then message type byte); other payloads
    /// are left alone.
    pub fn clear_sds_tl_delivery_report_request(data: &mut Vec<u8>)
        ensures
            old(data)@.len() >= 2 && is_sds_tl_transport_protocol_id(old(data)@[0]) && old(data)@[1] & 0xF0
                == SDS_TL_TRANSFER_NO_REPORT_REQ ==> final(data)@ == old(data)@.update(
                1,
                old(data)@[1] & !SDS_TL_TRANSFER_REPORT_REQ_MASK,
            ),
            !(old(data)@.len() >= 2 && is_sds_tl_transport_protocol_id(old(data)@[0]) && old(data)@[1] & 0xF0
                == SDS_TL_TRANSFER_NO_REPORT_REQ) ==> final(data)@ == old(data)@,
    {
        if data.len() >= 2 && Self::is_sds_tl_transport_protocol_id(data[0]) && data[1] & 0xF0
            == SDS_TL_TRANSFER_NO_REPORT_REQ {
            let b = data[1] & !SDS_TL_TRANSFER_REPORT_REQ_MASK;
            data.set(1, b);
        }
    }

    /// The report mask that the report request bits ask for.
    pub fn sds_tl_report_request_mask(report_request: u8) -> (r: u8)
        ensures
            r == report_request_mask(report_request),
    {
        let bits = report_request & SDS_TL_TRANSFER_REPORT_REQ_MASK;
        if bits == 0x04 {
            SDS_TL_REPORT_RECEIVED_MASK
        } else if bits == 0x08 {
            SDS_TL_REPORT_CONSUMED_MASK
        } else if bits == 0x0C {
            SDS_TL_REPORT_RECEIVED_MASK | SDS_TL_REPORT_CONSUMED_MASK
        } else {
            0
        }
    }

    /// The report mask that a short report answers.
    pub fn sds_tl_short_report_mask(short_report_type: ShortReportType) -> (r: u8)
        ensures
            r == short_report_mask(short_report_type),
    {
        match short_report_type {
            ShortReportType::MessageReceived => SDS_TL_REPORT_RECEIVED_MASK,
            ShortReportType::MessageConsumed => SDS_TL_REPORT_CONSUMED_MASK,
            ShortReportType::DestMemFull | ShortReportType::ProtOrEncodingNotSupported => SDS_TL_REPORT_RECEIVED_MASK
                | SDS_TL_REPORT_CONSUMED_MASK,
        }
    }

    /// From the canonical bytes of a type 4 SDS: the protocol identifier,
    /// message reference and requested report mask of an SDS-TL transfer
    /// that asks for delivery reports; `None` for anything else.
    pub fn sds_tl_transfer_report_context(data: &Vec<u8>) -> (r: Option<(u8, u8, u8)>)
        ensures
            r == transfer_report_context(data@),
            r == if data@.len() >= 3 && is_sds_tl_transport_protocol_id(data@[0]) && data@[1] & 0xF0
                == SDS_TL_TRANSFER_NO_REPORT_REQ && report_request_mask(data@[1]) != 0 {
                Some((data@[0], data@[2], report_request_mask(data@[1])))
            } else {
                None::<(u8, u8, u8)>
            },
    {
        if data.len() < 3 {
            return None;
        }
        if !Self::is_sds_tl_transport_protocol_id(data[0]) {
            return None;
        }
        let message_type = data[1] & 0xF0;
        let requested_report_mask = Self::sds_tl_report_request_mask(data[1]);
        if message_type == SDS_TL_TRANSFER_NO_REPORT_REQ && requested_report_mask != 0 {
            Some((data[0], data[2], requested_report_mask))
        } else {
            None
        }
    }

    fn find_report_context(&self, key: SdsTlReportContextKey) -> (r: Option<usize>)
        ensures
            match r {
                Some(k) => report_entry_index(self.sds_tl_report_contexts@, key, k as int),
                None => forall|k: int|
                    0 <= k < self.sds_tl_report_contexts@.len() ==> (#[trigger] self.sds_tl_report_contexts@[k]).key
                        != key,
            },
    {
        let mut i: usize = 0;
        while i < self.sds_tl_report_contexts.len()
            invariant
                0 <= i <= self.sds_tl_report_contexts@.len(),
                forall|k: int| 0 <= k < i ==> (#[trigger] self.sds_tl_report_contexts@[k]).key != key,
            decreases self.sds_tl_report_contexts@.len() - i,
        {
            if self.sds_tl_report_contexts[i].key == key {
                return Some(i);
            }
            i = i + 1;
        }
        None
    }

    /// Remembers an SDS-TL transfer sent to individual station `dest_ssi`
    /// by `source_issi` that asks for delivery reports (`transfer`: protocol
    /// identifier, message reference, requested report mask). A context with
    /// the same key is replaced and becomes the newest; beyond the limit the
    /// oldest context is forgotten.
    pub fn remember_sds_tl_report_context(
        &mut self,
        source_issi: u32,
        dest_ssi: u32,
        dest_ssi_type: SsiType,
        transfer: Option<(u8, u8, u8)>,
    )
        requires
            old(self).wf(),
        ensures
            final(self).wf(),
            final(self).pending_actions == old(self).pending_actions,
            final(self).control_message_reference == old(self).control_message_reference,
            ({
                let e = old(self).sds_tl_report_contexts@;
                match (dest_ssi_type, transfer) {
                    (SsiType::Issi, Some((protocol_id, message_reference, requested_report_mask))) => {
                        let key = SdsTlReportContextKey { reporting_issi: dest_ssi, peer_issi: source_issi, message_reference };
                        let entry = SdsTlReportEntry {
                            key,
                            context: SdsTlReportContext { protocol_id, requested_report_mask, converted_report_mask: 0 },
                        };
                        let base = if exists|k: int| report_entry_index(e, key, k) {
                            e.remove(choose|k: int| report_entry_index(e, key, k))
                        } else {
                            e
                        };
                        let grown = base.push(entry);
                        final(self).sds_tl_report_contexts@ == if grown.len() > SDS_TL_REPORT_CONTEXT_LIMIT {
                            grown.subrange(1, grown.len() as int)
                        } else {
                            grown
                        }
                    },
                    _ => final(self).sds_tl_report_contexts@ == e,
                }
            }),
            final(self).sds_tl_report_contexts@ == report_remembered(
                old(self).sds_tl_report_contexts@,
                source_issi,
                dest_ssi,
                dest_ssi_type,
                transfer,
            ),
    {
        if dest_ssi_type != SsiType::Issi {
            return;
        }
        let (protocol_id, message_reference, requested_report_mask) = match transfer {
            Some(t) => t,
            None => {
                return;
            },
        };
        let key = SdsTlReportContextKey { reporting_issi: dest_ssi, peer_issi: source_issi, message_reference };
        let ghost e = self.sds_tl_report_contexts@;
        match self.find_report_context(key) {
            Some(k) => {
                proof {
                    assert(exists|j: int| report_entry_index(e, key, j));
                    let c = choose|j: int| report_entry_index(e, key, j);
                    if c != k as int {
                        if c < k as int {
                            assert(e[c].key != e[k as int].key);
                        } else {
                            assert(e[k as int].key != e[c].key);
                        }
                    }
                }
                self.sds_tl_report_contexts.remove(k);
            },
            None => {},
        }
        let ghost base = self.sds_tl_report_contexts@;
        proof {
            assert forall|i: int| 0 <= i < base.len() implies (#[trigger] base[i]).key != key by {
                if exists|j: int| report_entry_index(e, key, j) {
                    let c = choose|j: int| report_entry_index(e, key, j);
                    if i < c {
                        assert(base[i] == e[i]);
                        assert(e[i].key != e[c].key);
                    } else {
                        assert(base[i] == e[i + 1]);
                        assert(e[c].key != e[i + 1].key);
                    }
                }
            }
            assert forall|i: int, j: int| 0 <= i < j < base.len() implies (#[trigger] base[i]).key
                != (#[trigger] base[j]).key by {
                if exists|m: int| report_entry_index(e, key, m) {
                    let c = choose|m: int| report_entry_index(e, key, m);
                    let ii = if i < c { i } else { i + 1 };
                    let jj = if j < c { j } else { j + 1 };
                    assert(base[i] == e[ii] && base[j] == e[jj]);
                } else {
                    assert(base[i] == e[i] && base[j] == e[j]);
                }
            }
        }
        self.sds_tl_report_contexts.push(
            SdsTlReportEntry {
                key,
                context: SdsTlReportContext { protocol_id, requested_report_mask, converted_report_mask: 0 },
            },
        );
        if self.sds_tl_report_contexts.len() > SDS_TL_REPORT_CONTEXT_LIMIT {
            let ghost grown = self.sds_tl_report_contexts@;
            self.sds_tl_report_contexts.remove(0);
            proof {
                assert(grown.remove(0) =~= grown.subrange(1, grown.len() as int));
            }
        }
    }

    /// Handles an SDS-SHORT REPORT from `reporting_issi` about message
    /// `message_reference` of `peer_issi`: returns the remembered protocol
    /// identifier, if any, and records the report; the context is forgotten
    /// once all requested reports have arrived, on a report that was not
    /// requested, or on a terminal negative report.
    pub fn take_sds_tl_report_protocol_id(
        &mut self,
        reporting_issi: u32,
        peer_issi: u32,
        message_reference: u8,
        short_report_type: ShortReportType,
    ) -> (r: Option<u8>)
        requires
            old(self).wf(),
        ensures
            final(self).wf(),
            final(self).pending_actions == old(self).pending_actions,
            final(self).control_message_reference == old(self).control_message_reference,
            ({
                let e = old(self).sds_tl_report_contexts@;
                let key = SdsTlReportContextKey { reporting_issi, peer_issi, message_reference };
                if exists|k: int| report_entry_index(e, key, k) {
                    let k = choose|k: int| report_entry_index(e, key, k);
                    let c = e[k].context;
                    &&& r == Some(c.protocol_id)
                    &&& if report_context_done(c, short_report_type) {
                        final(self).sds_tl_report_contexts@ == e.remove(k)
                    } else {
                        final(self).sds_tl_report_contexts@ == e.update(
                            k,
                            SdsTlReportEntry {
                                key,
                                context: SdsTlReportContext {
                                    converted_report_mask: c.converted_report_mask | short_report_mask(
                                        short_report_type,
                                    ),
                                    ..c
                                },
                            },
                        )
                    }
                } else {
                    r is None && final(self).sds_tl_report_contexts@ == e
                }
            }),
            ({
                let taken = report_taken(
                    old(self).sds_tl_report_contexts@,
                    SdsTlReportContextKey { reporting_issi, peer_issi, message_reference },
                    short_report_type,
                );
                r == taken.0 && final(self).sds_tl_report_contexts@ == taken.1
            }),
    {
        let key = SdsTlReportContextKey { reporting_issi, peer_issi, message_reference };
        let ghost e = self.sds_tl_report_contexts@;
        let k = match self.find_report_context(key) {
            Some(k) => k,
            None => {
                return None;
            },
        };
        proof {
            let c = choose|j: int| report_entry_index(e, key, j);
            if c != k as int {
                if c < k as int {
                    assert(e[c].key != e[k as int].key);
                } else {
                    assert(e[k as int].key != e[c].key);
                }
            }
        }
        let report_mask = Self::sds_tl_short_report_mask(short_report_type);
        let entry = self.sds_tl_report_contexts[k];
        let context = entry.context;
        let converted = context.converted_report_mask | report_mask;
        let requested_reports_complete = (converted & context.requested_report_mask) == context.requested_report_mask;
        let report_was_not_requested = report_mask & context.requested_report_mask == 0;
        let terminal_negative_report = match short_report_type {
            ShortReportType::DestMemFull | ShortReportType::ProtOrEncodingNotSupported => true,
            _ => false,
        };
        if requested_reports_complete || report_was_not_requested || terminal_negative_report {
            self.sds_tl_report_contexts.remove(k);
            proof {
                let f = self.sds_tl_report_contexts@;
                assert forall|i: int, j: int| 0 <= i < j < f.len() implies (#[trigger] f[i]).key
                    != (#[trigger] f[j]).key by {
                    let ii = if i < k { i } else { i + 1 };
                    let jj = if j < k { j } else { j + 1 };
                    assert(f[i] == e[ii] && f[j] == e[jj]);
                }
            }
        } else {
            self.sds_tl_report_contexts.set(
                k,
                SdsTlReportEntry {
                    key,
                    context: SdsTlReportContext { converted_report_mask: converted, ..context },
                },
            );
            proof {
                let f = self.sds_tl_report_contexts@;
                assert forall|i: int, j: int| 0 <= i < j < f.len() implies (#[trigger] f[i]).key
                    != (#[trigger] f[j]).key by {
                    assert(f[i].key == e[i].key && f[j].key == e[j].key);
                }
            }
        }
        Some(context.protocol_id)
    }
}

/// The payload of SDS user data that carries text: after a four-byte
/// SDS-TL text header (protocol 0x82, 0x80 or 0x8A), after a leading text
/// coding byte (1 to 3), or all of it.
pub open spec fn sds_text_payload(b: Seq<u8>) -> Seq<u8> {
    if b.len() > 4 && (b[0] == 0x82 || b[0] == 0x80 || b[0] == 0x8A) {
        b.subrange(4, b.len() as int)
    } else if b.len() > 1 && 1 <= b[0] <= 3 {
        b.subrange(1, b.len() as int)
    } else {
        b
    }
}

/// A byte kept in extracted text: tab or printable ASCII.
pub open spec fn printable_text_byte() -> spec_fn(u8) -> bool {
    |b: u8| b == 9 || (0x20 <= b && b <= 0x7E)
}

/// A byte removed at either end of extracted text.
pub open spec fn blank_byte(b: u8) -> bool {
    b == 9 || b == 0x20
}

/// `s` without its leading blanks.
pub open spec fn trim_start_blanks(s: Seq<u8>) -> Seq<u8>
    decreases s.len(),
{
    if s.len() > 0 && blank_byte(s[0]) {
        trim_start_blanks(s.subrange(1, s.len() as int))
    } else {
        s
    }
}

/// `s` without its trailing blanks.
pub open spec fn trim_end_blanks(s: Seq<u8>) -> Seq<u8>
    decreases s.len(),
{
    if s.len() > 0 && blank_byte(s[s.len() - 1]) {
        trim_end_blanks(s.subrange(0, s.len() - 1))
    } else {
        s
    }
}

/// The text of SDS user data `b`: its printable bytes, without blanks at
/// either end.
pub open spec fn sds_text(b: Seq<u8>) -> Seq<u8> {
    trim_end_blanks(trim_start_blanks(sds_text_payload(b).filter(printable_text_byte())))
}

proof fn lemma_trim_start_from(s: Seq<u8>, k: int)
    requires
        0 <= k <= s.len(),
        forall|j: int| 0 <= j < k ==> blank_byte(#[trigger] s[j]),
    ensures
        trim_start_blanks(s) == trim_start_blanks(s.subrange(k, s.len() as int)),
    decreases k,
{
    if k > 0 {
        let t = s.subrange(1, s.len() as int);
        assert forall|j: int| 0 <= j < k - 1 implies blank_byte(#[trigger] t[j]) by {
            assert(t[j] == s[j + 1]);
        }
        lemma_trim_start_from(t, k - 1);
        assert(t.subrange(k - 1, t.len() as int) =~= s.subrange(k, s.len() as int));
    } else {
        assert(s.subrange(0, s.len() as int) =~= s);
    }
}

proof fn lemma_trim_end_to(s: Seq<u8>, k: int)
    requires
        0 <= k <= s.len(),
        forall|j: int| k <= j < s.len() ==> blank_byte(#[trigger] s[j]),
    ensures
        trim_end_blanks(s) == trim_end_blanks(s.subrange(0, k)),
    decreases s.len() - k,
{
    if k < s.len() {
        let t = s.subrange(0, s.len() - 1);
        assert forall|j: int| k <= j < t.len() implies blank_byte(#[trigger] t[j]) by {
            assert(t[j] == s[j]);
        }
        lemma_trim_end_to(t, k);
        assert(t.subrange(0, k) =~= s.subrange(0, k));
    } else {
        assert(s.subrange(0, k) =~= s);
    }
}

/// Where a control-originated SDS goes on the air.
#[derive(Clone, Copy, Debug, PartialEq, Eq, Structural)]
pub struct ControlSdsRoute {
    /// Source address sent on the air.
    pub air_source_ssi: u32,
    /// Kind of the destination address.
    pub dest_ssi_type: SsiType,
}

/// The air route of an SDS from the control interface (see
/// [`SdsBsSubentity::control_sds_air_route`]).
pub open spec fn control_air_route(
    source_ssi: u32,
    dest_ssi: u32,
    dest_is_group: bool,
    dest_registered: bool,
    dest_group_has_members: bool,
) -> Option<ControlSdsRoute> {
    if !valid_air_interface_ssi(source_ssi) || !valid_air_interface_ssi(dest_ssi) {
        None
    } else if dest_ssi == MAX_AIR_INTERFACE_SSI {
        Some(ControlSdsRoute { air_source_ssi: MAX_AIR_INTERFACE_SSI, dest_ssi_type: SsiType::Gssi })
    } else if dest_is_group {
        if dest_group_has_members {
            Some(ControlSdsRoute { air_source_ssi: source_ssi, dest_ssi_type: SsiType::Gssi })
        } else {
            None
        }
    } else if dest_registered {
        Some(ControlSdsRoute { air_source_ssi: source_ssi, dest_ssi_type: SsiType::Issi })
    } else {
        None
    }
}

impl SdsBsSubentity {
    /// The calling station of an uplink SDS/status when it is an individual
    /// 24-bit address registered with mobility management (`registered`).
    pub fn registered_rf_calling_party_issi(address: TetraAddress, registered: bool) -> (r: Option<u32>)
        ensures
            r == if address.ssi_type == SsiType::Issi && valid_air_interface_ssi(address.ssi) && registered {
                Some(address.ssi)
            } else {
                None::<u32>
            },
    {
        let source_issi = match Self::rf_calling_party_issi(address) {
            Some(ssi) => ssi,
            None => {
                return None;
            },
        };
        if !registered {
            return None;
        }
        Some(source_issi)
    }

    /// Route of an SDS from the control interface from `source_ssi` to
    /// `dest_ssi`: both must be 24-bit addresses; the all-ones destination
    /// is a broadcast to all groups and is sent from the all-ones address;
    /// an individual destination must be registered (`dest_registered`), a
    /// group destination must have local members (`dest_group_has_members`).
    pub fn control_sds_air_route(
        source_ssi: u32,
        dest_ssi: u32,
        dest_is_group: bool,
        dest_registered: bool,
        dest_group_has_members: bool,
    ) -> (r: Option<ControlSdsRoute>)
        ensures
            r == control_air_route(source_ssi, dest_ssi, dest_is_group, dest_registered, dest_group_has_members),
            r == if !valid_air_interface_ssi(source_ssi) || !valid_air_interface_ssi(dest_ssi) {
                None
            } else if dest_ssi == MAX_AIR_INTERFACE_SSI {
                Some(ControlSdsRoute { air_source_ssi: MAX_AIR_INTERFACE_SSI, dest_ssi_type: SsiType::Gssi })
            } else if dest_is_group {
                if dest_group_has_members {
                    Some(ControlSdsRoute { air_source_ssi: source_ssi, dest_ssi_type: SsiType::Gssi })
                } else {
                    None
                }
            } else if dest_registered {
                Some(ControlSdsRoute { air_source_ssi: source_ssi, dest_ssi_type: SsiType::Issi })
            } else {
                None
            },
    {
        if !Self::valid_air_interface_ssi(source_ssi) || !Self::valid_air_interface_ssi(dest_ssi) {
            return None;
        }
        let broadcast_dest = dest_ssi == MAX_AIR_INTERFACE_SSI;
        let dest_ssi_type = if broadcast_dest || dest_is_group {
            SsiType::Gssi
        } else {
            SsiType::Issi
        };
        match dest_ssi_type {
            SsiType::Issi => {
                if !dest_registered {
                    return None;
                }
            },
            _ => {
                if !broadcast_dest && !dest_group_has_members {
                    return None;
                }
            },
        }
        let air_source_ssi = if broadcast_dest {
            MAX_AIR_INTERFACE_SSI
        } else {
            source_ssi
        };
        Some(ControlSdsRoute { air_source_ssi, dest_ssi_type })
    }

    /// A raw SDS from the control interface has the length of its type:
    /// `len_bits` bits in `payload_len` bytes.
    pub fn check_raw_sds_payload(len_bits: u16, expected_bits: u16, payload_len: usize, expected_bytes: usize) -> (r:
        Option<()>)
        ensures
            r is Some <==> len_bits == expected_bits && payload_len == expected_bytes,
    {
        if len_bits != expected_bits {
            return None;
        }
        if payload_len != expected_bytes {
            return None;
        }
        Some(())
    }

    /// User data `bytes` is an SDS-TL report (protocol 0x82 or 0x89,
    /// message type 0x10) rather than a text request.
    pub fn is_sds_tl_report(bytes: &Vec<u8>) -> (r: bool)
        ensures
            r == (bytes@.len() >= 4 && (bytes@[0] == 0x82 || bytes@[0] == 0x89) && bytes@[1] == 0x10),
    {
        bytes.len() >= 4 && (bytes[0] == 0x82 || bytes[0] == 0x89) && bytes[1] == 0x10
    }

    /// The message reference of an SDS-TL text request in `bytes`; `None`
    /// for reports and data without an SDS-TL header.
    pub fn sds_tl_message_reference(bytes: &Vec<u8>) -> (r: Option<u8>)
        ensures
            r == if bytes@.len() >= 4 && (bytes@[0] == 0x82 || bytes@[0] == 0x89) && bytes@[1] != 0x10 {
                Some(bytes@[2])
            } else {
                None::<u8>
            },
    {
        if bytes.len() >= 4 && (bytes[0] == 0x82 || bytes[0] == 0x89) && bytes[1] != 0x10 {
            Some(bytes[2])
        } else {
            None
        }
    }

    /// The text carried by SDS user data `bytes`: its tab and printable
    /// ASCII bytes, without blanks at either end.
    pub fn extract_sds_text(bytes: &Vec<u8>) -> (r: String)
        ensures
            r@ == sds_text(bytes@).map_values(|b: u8| b as char),
    {
        let n = bytes.len();
        let start: usize = if n > 4 && (bytes[0] == 0x82 || bytes[0] == 0x80 || bytes[0] == 0x8A) {
            4
        } else if n > 1 && 1 <= bytes[0] && bytes[0] <= 3 {
            1
        } else {
            0
        };
        let ghost payload = bytes@.subrange(start as int, n as int);
        proof {
            assert(payload =~= sds_text_payload(bytes@));
        }
        let mut kept: Vec<u8> = Vec::new();
        let mut i: usize = start;
        proof {
            assert(payload.take(0) =~= Seq::<u8>::empty());
            reveal(Seq::filter);
        }
        while i < n
            invariant
                start <= i <= n,
                n == bytes@.len(),
                payload == bytes@.subrange(start as int, n as int),
                kept@ == payload.take(i - start).filter(printable_text_byte()),
            decreases n - i,
        {
            let b = bytes[i];
            proof {
                assert(payload.take(i - start + 1) =~= payload.take(i - start).push(b));
                payload.take(i - start).lemma_filter_push(b, printable_text_byte());
            }
            if b == 9 || (0x20 <= b && b <= 0x7E) {
                kept.push(b);
            }
            i = i + 1;
        }
        proof {
            assert(payload.take(n - start) =~= payload);
        }
        let ghost f = kept@;
        let m = kept.len();
        let mut lo: usize = 0;
        while lo < m && (kept[lo] == 9 || kept[lo] == 0x20)
            invariant
                0 <= lo <= m,
                m == f.len(),
                kept@ == f,
                forall|j: int| 0 <= j < lo ==> blank_byte(#[trigger] f[j]),
            decreases m - lo,
        {
            lo = lo + 1;
        }
        proof {
            lemma_trim_start_from(f, lo as int);
            let t = f.subrange(lo as int, m as int);
            assert(trim_start_blanks(t) == t);
        }
        let mut hi: usize = m;
        while hi > lo && (kept[hi - 1] == 9 || kept[hi - 1] == 0x20)
            invariant
                lo <= hi <= m,
                m == f.len(),
                kept@ == f,
                forall|j: int| hi <= j < m ==> blank_byte(#[trigger] f[j]),
            decreases hi - lo,
        {
            hi = hi - 1;
        }
        let ghost t = f.subrange(lo as int, m as int);
        proof {
            assert forall|j: int| hi - lo <= j < t.len() implies blank_byte(#[trigger] t[j]) by {
                assert(t[j] == f[lo + j]);
            }
            lemma_trim_end_to(t, hi - lo);
            let u = t.subrange(0, hi - lo);
            assert(u =~= f.subrange(lo as int, hi as int));
            assert(trim_end_blanks(u) == u);
        }
        let mut out = String::new();
        let mut k: usize = lo;
        proof {
            assert(out@ =~= f.subrange(lo as int, lo as int).map_values(|b: u8| b as char));
        }
        while k < hi
            invariant
                lo <= k <= hi,
                hi <= m,
                m == f.len(),
                kept@ == f,
                out@ == f.subrange(lo as int, k as int).map_values(|b: u8| b as char),
            decreases hi - k,
        {
            let c = kept[k] as char;
            string_push(&mut out, c);
            proof {
                assert(f.subrange(lo as int, k + 1) =~= f.subrange(lo as int, k as int).push(f[k as int]));
                assert(out@ =~= f.subrange(lo as int, k + 1).map_values(|b: u8| b as char));
            }
            k = k + 1;
        }
        out
    }
}

} // verus!
