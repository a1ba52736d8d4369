//! Routing of short data and status messages that local stations send
//! (EN 300 392-2 clauses 13.2, 14.7.2.7 and 14.7.2.8): local delivery to an
//! individual or a group, the weather service, status-triggered commands,
//! forwarding over the network bridge, or refusal.

use vstd::prelude::*;

use crate::address::{MAX_AIR_INTERFACE_SSI, SsiType, TetraAddress};
use crate::fsm::Layer2Service;
use crate::sds::{
    SDS_TL_TRANSFER_NO_REPORT_REQ, SDS_TL_TRANSFER_REPORT_REQ_MASK, SdsBsSubentity, SdsPendingAction,
    SdsTlReportContextKey, ShortReportType, control_air_route, is_sds_tl_transport_protocol_id, report_remembered,
    report_taken,
    transfer_report_context, valid_air_interface_ssi,
};

verus! {

/// Protocol identifier of SDS-TL text messages.
pub const SDS_TL_TEXT_PROTOCOL_ID: u8 = 0x82;

/// SDS-TL transfer asking for a delivery report (message received).
pub const SDS_TL_TRANSFER_WITH_REPORT_REQ: u8 = 0x04;

/// Text coding scheme: ISO/IEC 8859-1.
pub const SDS_TL_TEXT_CODING_LATIN_1: u8 = 0x01;

/// Text coding scheme: UCS-2 (UTF-16, big endian).
pub const SDS_TL_TEXT_CODING_UCS2: u8 = 0x1A;

/// The ISSI to which a pre-coded status triggers a configured command.
pub const SDS_COMMAND_ISSI: u32 = 9999;

/// The destination addressing of a received U-SDS-DATA or U-STATUS.
#[derive(Clone, Copy, Debug, PartialEq, Eq, Structural)]
pub struct UplinkSdsAddressing {
    pub called_party_ssi: Option<u32>,
    pub has_short_number_address: bool,
    pub has_extension: bool,
    pub has_external_subscriber_number: bool,
    pub has_dm_ms_address: bool,
}

/// What routing reads of the cell and of the destination.
#[derive(Clone, Copy, Debug, PartialEq, Eq, Structural)]
pub struct SdsRouteEnv {
    /// The weather responder is enabled, at `wx_service_issi`.
    pub wx_enabled: bool,
    pub wx_service_issi: u32,
    /// The destination is a registered local station.
    pub dest_registered: bool,
    /// The destination is a group with local members.
    pub dest_group_has_members: bool,
    /// Short data may be forwarded over the network bridge.
    pub brew_sds_enabled: bool,
}

/// Where a local station's U-SDS-DATA goes.
#[derive(Clone, Copy, Debug, PartialEq, Eq, Structural)]
pub enum RfSdsRoute {
    /// The sender is not a registered individual station; dropped.
    InvalidSource,
    /// The addressing is not supported: CMCE FUNCTION NOT SUPPORTED.
    FunctionNotSupported,
    /// A delivery report to the weather service; absorbed.
    WxReportAbsorbed,
    /// A request to the weather service; an SDS-TL short report with this
    /// message reference is returned first, if the request carries one.
    WxRequest { source_issi: u32, report_reference: Option<u8> },
    /// The destination is both a local station and a local group; dropped.
    Ambiguous,
    /// D-SDS-DATA to the local station.
    LocalIssi { source_issi: u32, dest_ssi: u32 },
    /// D-SDS-DATA to the local group.
    LocalGroup { source_issi: u32, dest_ssi: u32 },
    /// Forwarded over the network bridge.
    Brew { source_issi: u32, dest_ssi: u32 },
    /// Not local and not forwardable; dropped.
    Dropped,
}

/// A command that a status to the command ISSI may trigger.
#[derive(Clone, Copy, Debug, PartialEq, Eq, Structural)]
pub enum SdsCommandAction {
    Restart,
    Shutdown,
    KickAll,
    /// An action name the cell does not know.
    Unknown,
}

/// A configured command: the status code that triggers `action`.
#[derive(Clone, Copy, Debug, PartialEq, Eq, Structural)]
pub struct SdsCommandEntry {
    pub status_code: u16,
    pub action: SdsCommandAction,
}

/// The configured status-triggered commands and who may trigger them.
pub struct SdsCommandControl {
    pub authorized_issis: Vec<u32>,
    pub commands: Vec<SdsCommandEntry>,
}

/// The kind of a pre-coded status.
#[derive(Clone, Copy, Debug, PartialEq, Eq, Structural)]
pub enum PreCodedStatusKind {
    /// An SDS-TL short report (EN 300 392-2 clause 29.4.2.3).
    SdsTl { short_report_type: ShortReportType, message_reference: u8 },
    /// A network or user specific status.
    NetworkUserSpecific { code: u16 },
    /// Any other status.
    Other,
}

/// A pre-coded status with its 16-bit code.
#[derive(Clone, Copy, Debug, PartialEq, Eq, Structural)]
pub struct PreCodedStatus {
    pub raw: u16,
    pub kind: PreCodedStatusKind,
}

/// The user data a status is forwarded with over the network bridge.
#[derive(Clone, Copy, Debug, PartialEq, Eq, Structural)]
pub enum BrewStatusData {
    /// An SDS-TL short report converted to a full report (type 4).
    Report { protocol_id: u8, delivery_status: u8, message_reference: u8 },
    /// The status code as it is (type 1).
    Status { raw: u16 },
}

/// Where a local station's U-STATUS goes.
#[derive(Clone, Copy, Debug, PartialEq, Eq, Structural)]
pub enum StatusRoute {
    /// The sender is not a registered individual station; dropped.
    InvalidSource,
    /// The addressing is not supported: CMCE FUNCTION NOT SUPPORTED.
    FunctionNotSupported,
    /// The status triggered a configured command.
    Command { action: SdsCommandAction },
    /// The destination is both a local station and a local group; dropped.
    Ambiguous,
    /// D-STATUS to the local station.
    LocalIssi { source_issi: u32, dest_ssi: u32 },
    /// D-STATUS to the local group.
    LocalGroup { source_issi: u32, dest_ssi: u32 },
    /// Forwarded over the network bridge with `data`.
    Brew { source_issi: u32, dest_ssi: u32, data: BrewStatusData },
    /// Not local and not forwardable; dropped.
    Dropped,
}

/// The addressing names one SSI and nothing call control cannot handle.
pub open spec fn addressing_supported(a: UplinkSdsAddressing) -> bool {
    a.called_party_ssi is Some && !a.has_extension && !a.has_external_subscriber_number && !a.has_dm_ms_address
}

/// The destination is a local station (never the all-groups address).
pub open spec fn dest_is_local_issi(dest: u32, env: SdsRouteEnv) -> bool {
    dest != MAX_AIR_INTERFACE_SSI && env.dest_registered
}

/// The destination is the all-groups address or a group with local members.
pub open spec fn dest_is_local_group(dest: u32, env: SdsRouteEnv) -> bool {
    dest == MAX_AIR_INTERFACE_SSI || env.dest_group_has_members
}

/// The registered individual station that sent an uplink message.
pub open spec fn registered_source(calling_party: TetraAddress, registered: bool) -> Option<u32> {
    if calling_party.ssi_type == SsiType::Issi && valid_air_interface_ssi(calling_party.ssi) && registered {
        Some(calling_party.ssi)
    } else {
        None
    }
}

/// The route of a U-SDS-DATA from `calling_party` (`registered` or not)
/// with addressing `a` and type-4 user data `bytes`.
pub open spec fn rf_sds_route(
    calling_party: TetraAddress,
    registered: bool,
    a: UplinkSdsAddressing,
    bytes: Seq<u8>,
    env: SdsRouteEnv,
) -> RfSdsRoute {
    match registered_source(calling_party, registered) {
        None => RfSdsRoute::InvalidSource,
        Some(source) => if !addressing_supported(a) {
            RfSdsRoute::FunctionNotSupported
        } else {
            let dest = a.called_party_ssi->0;
            let sds_tl = bytes.len() >= 4 && (bytes[0] == 0x82 || bytes[0] == 0x89);
            if env.wx_enabled && dest == env.wx_service_issi {
                if sds_tl && bytes[1] == 0x10 {
                    RfSdsRoute::WxReportAbsorbed
                } else {
                    RfSdsRoute::WxRequest {
                        source_issi: source,
                        report_reference: if sds_tl {
                            Some(bytes[2])
                        } else {
                            None
                        },
                    }
                }
            } else if dest_is_local_issi(dest, env) && dest_is_local_group(dest, env) {
                RfSdsRoute::Ambiguous
            } else if dest_is_local_issi(dest, env) {
                RfSdsRoute::LocalIssi { source_issi: source, dest_ssi: dest }
            } else if dest_is_local_group(dest, env) {
                RfSdsRoute::LocalGroup { source_issi: source, dest_ssi: dest }
            } else if env.brew_sds_enabled {
                RfSdsRoute::Brew { source_issi: source, dest_ssi: dest }
            } else {
                RfSdsRoute::Dropped
            }
        },
    }
}

/// Delivery status of a full SDS-TL report for a short report type
/// (EN 300 392-2 tables 29.16 and 29.23).
pub open spec fn report_delivery_status(t: ShortReportType) -> u8 {
    match t {
        ShortReportType::MessageReceived => 0x00,
        ShortReportType::MessageConsumed => 0x02,
        ShortReportType::DestMemFull => 0x52,
        ShortReportType::ProtOrEncodingNotSupported => 0x50,
    }
}

/// `k` is the position of the first command entry for `code` in `entries`.
pub open spec fn first_command_at(entries: Seq<SdsCommandEntry>, code: u16, k: int) -> bool {
    &&& 0 <= k < entries.len()
    &&& entries[k].status_code == code
    &&& forall|j: int| 0 <= j < k ==> (#[trigger] entries[j]).status_code != code
}

/// The command a status from `source` triggers under `control`, if any:
/// the action of the first entry for its network/user specific code, when
/// the sender is authorized and the action is known.
pub open spec fn triggered_command(
    source: u32,
    status: PreCodedStatus,
    control: Option<(Seq<u32>, Seq<SdsCommandEntry>)>,
) -> Option<SdsCommandAction> {
    match (status.kind, control) {
        (PreCodedStatusKind::NetworkUserSpecific { code }, Some((authorized, entries))) => if !authorized.contains(
            source,
        ) {
            None
        } else if exists|k: int| first_command_at(entries, code, k) {
            let k = choose|k: int| first_command_at(entries, code, k);
            if entries[k].action == SdsCommandAction::Unknown {
                None
            } else {
                Some(entries[k].action)
            }
        } else {
            None
        },
        _ => None,
    }
}

/// A downlink short data or status message to send.
#[derive(Clone, Copy, Debug, PartialEq, Eq, Structural)]
pub struct SdsDelivery {
    /// Calling party address on the air.
    pub source_issi: u32,
    pub dest: TetraAddress,
    /// Acknowledged towards a station, unacknowledged towards a group.
    pub layer2service: Layer2Service,
}

/// The delivery of a message from `source` to `dest` of kind `t`; none when
/// either is not a 24-bit address.
pub open spec fn sds_delivery(source: u32, dest: u32, t: SsiType) -> Option<SdsDelivery> {
    if !valid_air_interface_ssi(source) || !valid_air_interface_ssi(dest) {
        None
    } else {
        Some(
            SdsDelivery {
                source_issi: source,
                dest: TetraAddress { ssi: dest, ssi_type: t },
                layer2service: if t == SsiType::Issi {
                    Layer2Service::Acknowledged
                } else {
                    Layer2Service::Unacknowledged
                },
            },
        )
    }
}

/// Where a short data message from the bridge to `dest` (explicitly of kind
/// `t`, if given) goes: the air source and the destination kind. The
/// all-groups address is sent from the all-ones address; otherwise an
/// explicit kind must match a local station or group, and without one the
/// destination must be exactly one of them.
pub open spec fn brew_sds_target(
    source: u32,
    dest: u32,
    t: Option<SsiType>,
    registered: bool,
    has_members: bool,
) -> Option<(u32, SsiType)> {
    if !valid_air_interface_ssi(source) || !valid_air_interface_ssi(dest) {
        None
    } else if dest == MAX_AIR_INTERFACE_SSI {
        Some((MAX_AIR_INTERFACE_SSI, SsiType::Gssi))
    } else {
        match t {
            Some(SsiType::Issi) => if registered {
                Some((source, SsiType::Issi))
            } else {
                None
            },
            Some(SsiType::Gssi) => if has_members {
                Some((source, SsiType::Gssi))
            } else {
                None
            },
            Some(_) => None,
            None => if registered && has_members {
                None
            } else if registered {
                Some((source, SsiType::Issi))
            } else if has_members {
                Some((source, SsiType::Gssi))
            } else {
                None
            },
        }
    }
}

/// User data `d` with the delivery report request of an SDS-TL transfer
/// cleared.
pub open spec fn without_report_request(d: Seq<u8>) -> Seq<u8> {
    if d.len() >= 2 && is_sds_tl_transport_protocol_id(d[0]) && d[1] & 0xF0 == SDS_TL_TRANSFER_NO_REPORT_REQ {
        d.update(1, d[1] & !SDS_TL_TRANSFER_REPORT_REQ_MASK)
    } else {
        d
    }
}

/// The characters of `bytes` read as UTF-8; `None` when they are not
/// valid UTF-8.
pub uninterp spec fn utf8_decode(bytes: Seq<u8>) -> Option<Seq<char>>;

/// The UTF-16 code units of `c`, as big-endian bytes.
pub open spec fn utf16_be_bytes(c: char) -> Seq<u8> {
    let v = c as u32;
    if v < 0x10000 {
        seq![(v / 256) as u8, (v % 256) as u8]
    } else {
        let w = (v - 0x10000) as u32;
        let hi = (0xD800 + w / 1024) as u32;
        let lo = (0xDC00 + w % 1024) as u32;
        seq![(hi / 256) as u8, (hi % 256) as u8, (lo / 256) as u8, (lo % 256) as u8]
    }
}

/// The UCS-2 (UTF-16 big-endian) bytes of `cs`.
pub open spec fn ucs2_bytes(cs: Seq<char>) -> Seq<u8>
    decreases cs.len(),
{
    if cs.len() == 0 {
        Seq::empty()
    } else {
        ucs2_bytes(cs.drop_last()) + utf16_be_bytes(cs.last())
    }
}

/// Every character of `cs` fits one ISO/IEC 8859-1 byte.
pub open spec fn all_latin1(cs: Seq<char>) -> bool {
    forall|i: int| 0 <= i < cs.len() ==> (cs[i] as u32) <= 0xFF
}

/// The SDS-TL text user data (coding scheme byte, then the text) for the
/// characters `cs`: ISO/IEC 8859-1 when every character fits, else UCS-2.
pub open spec fn text_chars_payload(cs: Seq<char>) -> Seq<u8> {
    if all_latin1(cs) {
        seq![SDS_TL_TEXT_CODING_LATIN_1] + Seq::new(cs.len(), |i: int| (cs[i] as u32) as u8)
    } else {
        seq![SDS_TL_TEXT_CODING_UCS2] + ucs2_bytes(cs)
    }
}

/// The SDS-TL text user data for the control interface's text `payload`:
/// that of its characters when it is UTF-8; bytes that are not UTF-8 are
/// taken as ISO/IEC 8859-1.
pub open spec fn control_text_payload(payload: Seq<u8>) -> Seq<u8> {
    match utf8_decode(payload) {
        Some(cs) => text_chars_payload(cs),
        None => seq![SDS_TL_TEXT_CODING_LATIN_1] + payload,
    }
}

/// An uplink short data message from a registered station, with addressing
/// that call control handles and not addressed to the weather service, goes
/// to its destination on this cell before the bridge: to the local group
/// when the destination is the all-groups address or a group with local
/// members (and no registered local station), to the local station when
/// the destination is a registered station that is no such group, and over
/// the bridge exactly when it is neither and the bridge carries short data.
pub proof fn lemma_rf_sds_local_before_bridge(
    calling_party: TetraAddress,
    registered: bool,
    a: UplinkSdsAddressing,
    bytes: Seq<u8>,
    env: SdsRouteEnv,
)
    requires
        registered_source(calling_party, registered) is Some,
        addressing_supported(a),
        !(env.wx_enabled && a.called_party_ssi->0 == env.wx_service_issi),
    ensures
        ({
            let source = calling_party.ssi;
            let dest = a.called_party_ssi->0;
            let group = dest == MAX_AIR_INTERFACE_SSI || env.dest_group_has_members;
            let station = dest != MAX_AIR_INTERFACE_SSI && env.dest_registered;
            let r = rf_sds_route(calling_party, registered, a, bytes, env);
            &&& group && !station ==> r == (RfSdsRoute::LocalGroup { source_issi: source, dest_ssi: dest })
            &&& station && !group ==> r == (RfSdsRoute::LocalIssi { source_issi: source, dest_ssi: dest })
            &&& (r is Brew <==> !group && !station && env.brew_sds_enabled)
            &&& (r == (RfSdsRoute::Brew { source_issi: source, dest_ssi: dest }) <==> !group && !station
                && env.brew_sds_enabled)
        }),
{
}

/// A status from registered station `source` that no command took goes to
/// its destination on this cell before the bridge: to the local group when
/// the destination is the all-groups address or a group with local members
/// (and no registered local station), to the local station when it is a
/// registered station that is no such group, and over the bridge exactly
/// when it is neither and the bridge carries short data.
pub proof fn lemma_status_local_before_bridge(
    source: u32,
    dest: u32,
    status: PreCodedStatus,
    env: SdsRouteEnv,
    e: Seq<crate::sds::SdsTlReportEntry>,
)
    ensures
        ({
            let group = dest == MAX_AIR_INTERFACE_SSI || env.dest_group_has_members;
            let station = dest != MAX_AIR_INTERFACE_SSI && env.dest_registered;
            let r = status_route_after_command(source, dest, status, env, e);
            &&& group && !station ==> r == (StatusRoute::LocalGroup { source_issi: source, dest_ssi: dest })
            &&& station && !group ==> r == (StatusRoute::LocalIssi { source_issi: source, dest_ssi: dest })
            &&& (r is Brew <==> !group && !station && env.brew_sds_enabled)
        }),
{
}

/// The message reference after counter value `v`, and the counter's next
/// value: the value itself, or 1 in place of 0 (which also resets it).
pub open spec fn message_reference_step(v: u8) -> (u8, u8) {
    if v == 0 {
        (1, 1)
    } else {
        (v, if v == 255 {
            0
        } else {
            (v + 1) as u8
        })
    }
}

/// A D-SDS-DATA prepared for the control interface: its delivery and the
/// type-4 user data.
pub struct ControlSds {
    pub delivery: SdsDelivery,
    pub user_data: Vec<u8>,
}

/// The configured command control `control` as plain sequences.
pub open spec fn command_control_view(control: Option<&SdsCommandControl>) -> Option<(Seq<u32>, Seq<SdsCommandEntry>)> {
    match control {
        Some(c) => Some((c.authorized_issis@, c.commands@)),
        None => None,
    }
}

/// The route of a U-STATUS from registered `source` to `dest` once no
/// command took it, with the report contexts `e` (for the bridge).
pub open spec fn status_route_after_command(
    source: u32,
    dest: u32,
    status: PreCodedStatus,
    env: SdsRouteEnv,
    e: Seq<crate::sds::SdsTlReportEntry>,
) -> StatusRoute {
    if dest_is_local_issi(dest, env) && dest_is_local_group(dest, env) {
        StatusRoute::Ambiguous
    } else if dest_is_local_issi(dest, env) {
        StatusRoute::LocalIssi { source_issi: source, dest_ssi: dest }
    } else if dest_is_local_group(dest, env) {
        StatusRoute::LocalGroup { source_issi: source, dest_ssi: dest }
    } else if env.brew_sds_enabled {
        StatusRoute::Brew {
            source_issi: source,
            dest_ssi: dest,
            data: match status.kind {
                PreCodedStatusKind::SdsTl { short_report_type, message_reference } => match report_taken(
                    e,
                    SdsTlReportContextKey { reporting_issi: source, peer_issi: dest, message_reference },
                    short_report_type,
                ).0 {
                    Some(protocol_id) => BrewStatusData::Report {
                        protocol_id,
                        delivery_status: report_delivery_status(short_report_type),
                        message_reference,
                    },
                    None => BrewStatusData::Status { raw: status.raw },
                },
                _ => BrewStatusData::Status { raw: status.raw },
            },
        }
    } else {
        StatusRoute::Dropped
    }
}

/// The report contexts after a U-STATUS from `source` to `dest` was
/// routed as `route`: a short report forwarded over the bridge is taken.
pub open spec fn contexts_after_status(
    source: u32,
    dest: u32,
    status: PreCodedStatus,
    route: StatusRoute,
    e: Seq<crate::sds::SdsTlReportEntry>,
) -> Seq<crate::sds::SdsTlReportEntry> {
    match (route, status.kind) {
        (StatusRoute::Brew { .. }, PreCodedStatusKind::SdsTl { short_report_type, message_reference }) => report_taken(
            e,
            SdsTlReportContextKey { reporting_issi: source, peer_issi: dest, message_reference },
            short_report_type,
        ).1,
        _ => e,
    }
}

impl SdsBsSubentity {
    /// The addressing of a U-SDS-DATA is supported: a called SSI, and no
    /// extension, external number or direct-mode address.
    pub fn feature_check_u_sds_data(pdu: &UplinkSdsAddressing) -> (r: bool)
        ensures
            r == addressing_supported(*pdu),
    {
        pdu.called_party_ssi.is_some() && !pdu.has_extension && !pdu.has_external_subscriber_number
            && !pdu.has_dm_ms_address
    }

    /// The addressing of a U-STATUS is supported (as for U-SDS-DATA).
    pub fn feature_check_u_status(pdu: &UplinkSdsAddressing) -> (r: bool)
        ensures
            r == addressing_supported(*pdu),
    {
        pdu.called_party_ssi.is_some() && !pdu.has_extension && !pdu.has_external_subscriber_number
            && !pdu.has_dm_ms_address
    }

    /// Routes a U-SDS-DATA from `calling_party` (`source_registered` with
    /// mobility management) with addressing `pdu` and type-4 user data
    /// `user_data` (empty for other types): requests to the weather service
    /// are answered locally (delivery reports to it absorbed); otherwise the
    /// message goes to a local station or group, over the bridge, or nowhere.
    pub fn route_rf_deliver(
        calling_party: TetraAddress,
        source_registered: bool,
        pdu: &UplinkSdsAddressing,
        user_data: &Vec<u8>,
        env: SdsRouteEnv,
    ) -> (r: RfSdsRoute)
        ensures
            r == rf_sds_route(calling_party, source_registered, *pdu, user_data@, env),
    {
        let source_ssi = match Self::registered_rf_calling_party_issi(calling_party, source_registered) {
            Some(s) => s,
            None => {
                return RfSdsRoute::InvalidSource;
            },
        };
        if !Self::feature_check_u_sds_data(pdu) {
            return RfSdsRoute::FunctionNotSupported;
        }
        let dest_ssi = match pdu.called_party_ssi {
            Some(d) => d,
            None => {
                return RfSdsRoute::FunctionNotSupported;
            },
        };
        if env.wx_enabled && dest_ssi == env.wx_service_issi {
            if Self::is_sds_tl_report(user_data) {
                return RfSdsRoute::WxReportAbsorbed;
            }
            let report_reference = Self::sds_tl_message_reference(user_data);
            return RfSdsRoute::WxRequest { source_issi: source_ssi, report_reference };
        }
        let broadcast = dest_ssi == MAX_AIR_INTERFACE_SSI;
        let local_issi = !broadcast && env.dest_registered;
        let local_group = broadcast || env.dest_group_has_members;
        if local_issi && local_group {
            RfSdsRoute::Ambiguous
        } else if local_issi {
            RfSdsRoute::LocalIssi { source_issi: source_ssi, dest_ssi }
        } else if local_group {
            RfSdsRoute::LocalGroup { source_issi: source_ssi, dest_ssi }
        } else if env.brew_sds_enabled {
            RfSdsRoute::Brew { source_issi: source_ssi, dest_ssi }
        } else {
            RfSdsRoute::Dropped
        }
    }

    /// Whether `source` is among `authorized`.
    fn issi_authorized(authorized: &Vec<u32>, source: u32) -> (r: bool)
        ensures
            r == authorized@.contains(source),
    {
        let mut i: usize = 0;
        while i < authorized.len()
            invariant
                0 <= i <= authorized@.len(),
                forall|j: int| 0 <= j < i ==> authorized@[j] != source,
            decreases authorized@.len() - i,
        {
            if authorized[i] == source {
                proof {
                    assert(authorized@[i as int] == source);
                }
                return true;
            }
            i = i + 1;
        }
        false
    }

    /// The action of the first configured command for `code`, if any.
    fn command_for_code(commands: &Vec<SdsCommandEntry>, code: u16) -> (r: Option<SdsCommandAction>)
        ensures
            match r {
                Some(a) => exists|k: int| first_command_at(commands@, code, k) && commands@[k].action == a,
                None => forall|k: int| !first_command_at(commands@, code, k),
            },
    {
        let mut i: usize = 0;
        while i < commands.len()
            invariant
                0 <= i <= commands@.len(),
                forall|j: int| 0 <= j < i ==> (#[trigger] commands@[j]).status_code != code,
            decreases commands@.len() - i,
        {
            if commands[i].status_code == code {
                proof {
                    assert(first_command_at(commands@, code, i as int));
                }
                return Some(commands[i].action);
            }
            i = i + 1;
        }
        proof {
            assert forall|k: int| !first_command_at(commands@, code, k) by {
                if 0 <= k < commands@.len() {
                    assert(commands@[k].status_code != code);
                }
            }
        }
        None
    }

    /// A status from `source_ssi` to the command ISSI may trigger a
    /// configured command (`control`): a network/user specific status whose
    /// code has an entry, from an authorized station, with a known action.
    /// A kick-all command is queued for the CMCE entity; restart and
    /// shutdown are returned for the caller to schedule.
    pub fn handle_sds_command_status(
        &mut self,
        source_ssi: u32,
        status: &PreCodedStatus,
        control: Option<&SdsCommandControl>,
    ) -> (r: Option<SdsCommandAction>)
        requires
            old(self).pending_actions@.len() < usize::MAX,
        ensures
            r == triggered_command(
                source_ssi,
                *status,
                match control {
                    Some(c) => Some((c.authorized_issis@, c.commands@)),
                    None => None,
                },
            ),
            final(self).sds_tl_report_contexts == old(self).sds_tl_report_contexts,
            final(self).control_message_reference == old(self).control_message_reference,
            final(self).pending_actions@ == if r == Some(SdsCommandAction::KickAll) {
                old(self).pending_actions@.push(SdsPendingAction::KickAll)
            } else {
                old(self).pending_actions@
            },
    {
        let code = match status.kind {
            PreCodedStatusKind::NetworkUserSpecific { code } => code,
            _ => {
                return None;
            },
        };
        let ctrl = match control {
            Some(c) => c,
            None => {
                return None;
            },
        };
        if !Self::issi_authorized(&ctrl.authorized_issis, source_ssi) {
            return None;
        }
        let action = match Self::command_for_code(&ctrl.commands, code) {
            Some(a) => a,
            None => {
                return None;
            },
        };
        proof {
            let k = choose|k: int| first_command_at(ctrl.commands@, code, k) && ctrl.commands@[k].action == action;
            let k2 = choose|k: int| first_command_at(ctrl.commands@, code, k);
            assert(k == k2) by {
                if k < k2 {
                    assert(ctrl.commands@[k].status_code != code);
                } else if k2 < k {
                    assert(ctrl.commands@[k2].status_code != code);
                }
            }
        }
        match action {
            SdsCommandAction::Unknown => None,
            SdsCommandAction::KickAll => {
                self.pending_actions.push(SdsPendingAction::KickAll);
                Some(SdsCommandAction::KickAll)
            },
            other => Some(other),
        }
    }

    /// Routes a U-STATUS from `calling_party` (`source_registered`) with
    /// addressing `pdu`: a status to the command ISSI may trigger a
    /// configured command (`control`); otherwise it goes to a local station
    /// or group, over the bridge (an SDS-TL short report then becomes a full
    /// report when its message's protocol is remembered), or nowhere.
    pub fn route_status_deliver(
        &mut self,
        calling_party: TetraAddress,
        source_registered: bool,
        pdu: &UplinkSdsAddressing,
        status: PreCodedStatus,
        control: Option<&SdsCommandControl>,
        env: SdsRouteEnv,
    ) -> (r: StatusRoute)
        requires
            old(self).wf(),
            old(self).pending_actions@.len() < usize::MAX,
        ensures
            final(self).wf(),
            final(self).control_message_reference == old(self).control_message_reference,
            ({
                let e = old(self).sds_tl_report_contexts@;
                match registered_source(calling_party, source_registered) {
                    None => r == StatusRoute::InvalidSource && *final(self) == *old(self),
                    Some(source) => if !addressing_supported(*pdu) {
                        r == StatusRoute::FunctionNotSupported && *final(self) == *old(self)
                    } else {
                        let dest = pdu.called_party_ssi->0;
                        let command = if dest == SDS_COMMAND_ISSI {
                            triggered_command(source, status, command_control_view(control))
                        } else {
                            None
                        };
                        match command {
                            Some(action) => {
                                &&& r == (StatusRoute::Command { action })
                                &&& final(self).sds_tl_report_contexts@ == e
                                &&& final(self).pending_actions@ == if action == SdsCommandAction::KickAll {
                                    old(self).pending_actions@.push(SdsPendingAction::KickAll)
                                } else {
                                    old(self).pending_actions@
                                }
                            },
                            None => {
                                &&& r == status_route_after_command(source, dest, status, env, e)
                                &&& final(self).sds_tl_report_contexts@ == contexts_after_status(
                                    source,
                                    dest,
                                    status,
                                    r,
                                    e,
                                )
                                &&& final(self).pending_actions@ == old(self).pending_actions@
                            },
                        }
                    },
                }
            }),
    {
        let source_ssi = match Self::registered_rf_calling_party_issi(calling_party, source_registered) {
            Some(s) => s,
            None => {
                return StatusRoute::InvalidSource;
            },
        };
        if !Self::feature_check_u_status(pdu) {
            return StatusRoute::FunctionNotSupported;
        }
        let dest_ssi = match pdu.called_party_ssi {
            Some(d) => d,
            None => {
                return StatusRoute::FunctionNotSupported;
            },
        };
        if dest_ssi == SDS_COMMAND_ISSI {
            match self.handle_sds_command_status(source_ssi, &status, control) {
                Some(action) => {
                    return StatusRoute::Command { action };
                },
                None => {},
            }
        }
        let broadcast = dest_ssi == MAX_AIR_INTERFACE_SSI;
        let local_issi = !broadcast && env.dest_registered;
        let local_group = broadcast || env.dest_group_has_members;
        if local_issi && local_group {
            StatusRoute::Ambiguous
        } else if local_issi {
            StatusRoute::LocalIssi { source_issi: source_ssi, dest_ssi }
        } else if local_group {
            StatusRoute::LocalGroup { source_issi: source_ssi, dest_ssi }
        } else if env.brew_sds_enabled {
            let data = match status.kind {
                PreCodedStatusKind::SdsTl { short_report_type, message_reference } => {
                    match self.take_sds_tl_report_protocol_id(
                        source_ssi,
                        dest_ssi,
                        message_reference,
                        short_report_type,
                    ) {
                        Some(protocol_id) => {
                            let delivery_status: u8 = match short_report_type {
                                ShortReportType::MessageReceived => 0x00,
                                ShortReportType::MessageConsumed => 0x02,
                                ShortReportType::DestMemFull => 0x52,
                                ShortReportType::ProtOrEncodingNotSupported => 0x50,
                            };
                            BrewStatusData::Report { protocol_id, delivery_status, message_reference }
                        },
                        None => BrewStatusData::Status { raw: status.raw },
                    }
                },
                _ => BrewStatusData::Status { raw: status.raw },
            };
            StatusRoute::Brew { source_issi: source_ssi, dest_ssi, data }
        } else {
            StatusRoute::Dropped
        }
    }

    /// Prepares D-SDS-DATA from `source_issi` to `dest_ssi` (of kind
    /// `dest_ssi_type`) with type-4 user data `user_data` (empty for other
    /// types): refused unless both are 24-bit addresses; an individual
    /// SDS-TL transfer asking for reports is remembered so that its short
    /// reports can later be expanded.
    pub fn send_d_sds_data_with_reporter(
        &mut self,
        source_issi: u32,
        dest_ssi: u32,
        dest_ssi_type: SsiType,
        user_data: &Vec<u8>,
    ) -> (r: Option<SdsDelivery>)
        requires
            old(self).wf(),
        ensures
            final(self).wf(),
            r == sds_delivery(source_issi, dest_ssi, dest_ssi_type),
            final(self).pending_actions == old(self).pending_actions,
            final(self).control_message_reference == old(self).control_message_reference,
            final(self).sds_tl_report_contexts@ == if r is Some {
                report_remembered(
                    old(self).sds_tl_report_contexts@,
                    source_issi,
                    dest_ssi,
                    dest_ssi_type,
                    transfer_report_context(user_data@),
                )
            } else {
                old(self).sds_tl_report_contexts@
            },
    {
        let r = Self::send_d_status(source_issi, dest_ssi, dest_ssi_type);
        if r.is_none() {
            return None;
        }
        let transfer = Self::sds_tl_transfer_report_context(user_data);
        self.remember_sds_tl_report_context(source_issi, dest_ssi, dest_ssi_type, transfer);
        r
    }

    /// Prepares D-STATUS from `source_issi` to `dest_ssi` (of kind
    /// `dest_ssi_type`): refused unless both are 24-bit addresses.
    pub fn send_d_status(source_issi: u32, dest_ssi: u32, dest_ssi_type: SsiType) -> (r: Option<SdsDelivery>)
        ensures
            r == sds_delivery(source_issi, dest_ssi, dest_ssi_type),
    {
        if !Self::valid_air_interface_ssi(source_issi) || !Self::valid_air_interface_ssi(dest_ssi) {
            return None;
        }
        let layer2service = match dest_ssi_type {
            SsiType::Issi => Layer2Service::Acknowledged,
            _ => Layer2Service::Unacknowledged,
        };
        Some(
            SdsDelivery {
                source_issi,
                dest: TetraAddress { ssi: dest_ssi, ssi_type: dest_ssi_type },
                layer2service,
            },
        )
    }

    /// A short data message from the bridge, from `source_issi` to
    /// `dest_issi` (explicitly of kind `dest_ssi_type`, if given), with
    /// type-4 user data `user_data`: delivered to the local station or group
    /// it names (`dest_registered`, `dest_group_has_members`), or dropped. To
    /// all groups it is sent from the all-ones address without its delivery
    /// report request.
    pub fn rx_sds_from_brew(
        &mut self,
        source_issi: u32,
        dest_issi: u32,
        dest_ssi_type: Option<SsiType>,
        user_data: &mut Vec<u8>,
        dest_registered: bool,
        dest_group_has_members: bool,
    ) -> (r: Option<SdsDelivery>)
        requires
            old(self).wf(),
        ensures
            final(self).wf(),
            final(self).pending_actions == old(self).pending_actions,
            final(self).control_message_reference == old(self).control_message_reference,
            ({
                let target = brew_sds_target(
                    source_issi,
                    dest_issi,
                    dest_ssi_type,
                    dest_registered,
                    dest_group_has_members,
                );
                match target {
                    None => r is None && final(self).sds_tl_report_contexts@ == old(self).sds_tl_report_contexts@
                        && final(user_data)@ == old(user_data)@,
                    Some((air_source, t)) => {
                        &&& final(user_data)@ == if dest_issi == MAX_AIR_INTERFACE_SSI {
                            without_report_request(old(user_data)@)
                        } else {
                            old(user_data)@
                        }
                        &&& r == sds_delivery(air_source, dest_issi, t)
                        &&& final(self).sds_tl_report_contexts@ == report_remembered(
                            old(self).sds_tl_report_contexts@,
                            air_source,
                            dest_issi,
                            t,
                            transfer_report_context(final(user_data)@),
                        )
                    },
                }
            }),
    {
        if !Self::valid_air_interface_ssi(source_issi) || !Self::valid_air_interface_ssi(dest_issi) {
            return None;
        }
        let (air_source_ssi, t) = if dest_issi == MAX_AIR_INTERFACE_SSI {
            Self::clear_sds_tl_delivery_report_request(user_data);
            (MAX_AIR_INTERFACE_SSI, SsiType::Gssi)
        } else {
            match dest_ssi_type {
                Some(SsiType::Issi) => {
                    if !dest_registered {
                        return None;
                    }
                    (source_issi, SsiType::Issi)
                },
                Some(SsiType::Gssi) => {
                    if !dest_group_has_members {
                        return None;
                    }
                    (source_issi, SsiType::Gssi)
                },
                Some(_) => {
                    return None;
                },
                None => {
                    if dest_registered && dest_group_has_members {
                        return None;
                    } else if dest_registered {
                        (source_issi, SsiType::Issi)
                    } else if dest_group_has_members {
                        (source_issi, SsiType::Gssi)
                    } else {
                        return None;
                    }
                },
            }
        };
        self.send_d_sds_data_with_reporter(air_source_ssi, dest_issi, t, user_data)
    }

    /// Routes a pre-coded status from the control interface or the bridge,
    /// from `source_issi` to `dest_issi` of kind `dest_ssi_type`: refused
    /// unless both are 24-bit addresses; an individual destination must be a
    /// registered station (never the all-groups address), a group one must
    /// have local members unless it is the all-groups address, which is sent
    /// from the all-ones address; other kinds are refused.
    pub fn route_status_from_control_fields(
        source_issi: u32,
        dest_issi: u32,
        dest_ssi_type: SsiType,
        dest_registered: bool,
        dest_group_has_members: bool,
    ) -> (r: Option<SdsDelivery>)
        ensures
            r == if !valid_air_interface_ssi(source_issi) || !valid_air_interface_ssi(dest_issi) {
                None
            } else {
                match dest_ssi_type {
                    SsiType::Issi => if dest_issi == MAX_AIR_INTERFACE_SSI || !dest_registered {
                        None
                    } else {
                        sds_delivery(source_issi, dest_issi, SsiType::Issi)
                    },
                    SsiType::Gssi => if dest_issi != MAX_AIR_INTERFACE_SSI && !dest_group_has_members {
                        None
                    } else if dest_issi == MAX_AIR_INTERFACE_SSI {
                        sds_delivery(MAX_AIR_INTERFACE_SSI, dest_issi, SsiType::Gssi)
                    } else {
                        sds_delivery(source_issi, dest_issi, SsiType::Gssi)
                    },
                    _ => None,
                }
            },
    {
        if !Self::valid_air_interface_ssi(source_issi) || !Self::valid_air_interface_ssi(dest_issi) {
            return None;
        }
        match dest_ssi_type {
            SsiType::Issi => {
                if dest_issi == MAX_AIR_INTERFACE_SSI || !dest_registered {
                    return None;
                }
                Self::send_d_status(source_issi, dest_issi, SsiType::Issi)
            },
            SsiType::Gssi => {
                if dest_issi != MAX_AIR_INTERFACE_SSI && !dest_group_has_members {
                    return None;
                }
                let air_source_issi = if dest_issi == MAX_AIR_INTERFACE_SSI {
                    MAX_AIR_INTERFACE_SSI
                } else {
                    source_issi
                };
                Self::send_d_status(air_source_issi, dest_issi, SsiType::Gssi)
            },
            _ => None,
        }
    }

    /// A status command of the control interface: a group flag or the
    /// all-groups address makes the destination a group.
    pub fn rx_status_command_from_control(
        source_ssi: u32,
        dest_ssi: u32,
        dest_is_group: bool,
        dest_registered: bool,
        dest_group_has_members: bool,
    ) -> (r: Option<SdsDelivery>)
        ensures
            r == Self::spec_status_command_route(
                source_ssi,
                dest_ssi,
                dest_is_group,
                dest_registered,
                dest_group_has_members,
            ),
    {
        let dest_ssi_type = if dest_is_group || dest_ssi == MAX_AIR_INTERFACE_SSI {
            SsiType::Gssi
        } else {
            SsiType::Issi
        };
        Self::route_status_from_control_fields(
            source_ssi,
            dest_ssi,
            dest_ssi_type,
            dest_registered,
            dest_group_has_members,
        )
    }

    /// The route of a status command of the control interface.
    pub open spec fn spec_status_command_route(
        source_ssi: u32,
        dest_ssi: u32,
        dest_is_group: bool,
        dest_registered: bool,
        dest_group_has_members: bool,
    ) -> Option<SdsDelivery> {
        if !valid_air_interface_ssi(source_ssi) || !valid_air_interface_ssi(dest_ssi) {
            None
        } else if dest_is_group || dest_ssi == MAX_AIR_INTERFACE_SSI {
            if dest_ssi != MAX_AIR_INTERFACE_SSI && !dest_group_has_members {
                None
            } else if dest_ssi == MAX_AIR_INTERFACE_SSI {
                sds_delivery(MAX_AIR_INTERFACE_SSI, dest_ssi, SsiType::Gssi)
            } else {
                sds_delivery(source_ssi, dest_ssi, SsiType::Gssi)
            }
        } else if !dest_registered {
            None
        } else {
            sds_delivery(source_ssi, dest_ssi, SsiType::Issi)
        }
    }

    /// The next message reference for SDS-TL text from the control
    /// interface: the counter's value, or 1 in place of 0.
    pub fn next_control_message_reference(&mut self) -> (r: u8)
        ensures
            (r, final(self).control_message_reference) == message_reference_step(old(self).control_message_reference),
            final(self).pending_actions == old(self).pending_actions,
            final(self).sds_tl_report_contexts == old(self).sds_tl_report_contexts,
    {
        let v = self.control_message_reference;
        self.control_message_reference = v.wrapping_add(1);
        if v == 0 {
            self.control_message_reference = 1;
            1
        } else {
            v
        }
    }

    /// The SDS-TL text user data (coding scheme byte, then the text) for the
    /// characters `cs`: one ISO/IEC 8859-1 byte per character when every
    /// character fits, else their UTF-16 big-endian code units (UCS-2).
    pub fn encode_text_chars(cs: &Vec<char>) -> (r: Vec<u8>)
        ensures
            r@ == text_chars_payload(cs@),
    {
        let mut out: Vec<u8> = Vec::new();
        let mut latin1 = true;
        let mut i: usize = 0;
        while i < cs.len()
            invariant
                0 <= i <= cs@.len(),
                latin1 == (forall|j: int| 0 <= j < i ==> (cs@[j] as u32) <= 0xFF),
            decreases cs@.len() - i,
        {
            if (cs[i] as u32) > 0xFF {
                latin1 = false;
            }
            i = i + 1;
        }
        if latin1 {
            out.push(SDS_TL_TEXT_CODING_LATIN_1);
            let mut k: usize = 0;
            while k < cs.len()
                invariant
                    0 <= k <= cs@.len(),
                    out@ == seq![SDS_TL_TEXT_CODING_LATIN_1] + Seq::new(
                        k as nat,
                        |j: int| (cs@[j] as u32) as u8,
                    ),
                decreases cs@.len() - k,
            {
                out.push((cs[k] as u32) as u8);
                k = k + 1;
                proof {
                    assert(out@ =~= seq![SDS_TL_TEXT_CODING_LATIN_1] + Seq::new(
                        k as nat,
                        |j: int| (cs@[j] as u32) as u8,
                    ));
                }
            }
        } else {
            out.push(SDS_TL_TEXT_CODING_UCS2);
            let mut k: usize = 0;
            while k < cs.len()
                invariant
                    0 <= k <= cs@.len(),
                    out@ == seq![SDS_TL_TEXT_CODING_UCS2] + ucs2_bytes(cs@.take(k as int)),
                decreases cs@.len() - k,
            {
                let v = cs[k] as u32;
                proof {
                    assert(cs@.take(k as int + 1).drop_last() =~= cs@.take(k as int));
                    assert(cs@.take(k as int + 1).last() == cs@[k as int]);
                }
                if v < 0x10000 {
                    out.push((v / 256) as u8);
                    out.push((v % 256) as u8);
                } else {
                    let w = v - 0x10000;
                    let hi = 0xD800 + w / 1024;
                    let lo = 0xDC00 + w % 1024;
                    out.push((hi / 256) as u8);
                    out.push((hi % 256) as u8);
                    out.push((lo / 256) as u8);
                    out.push((lo % 256) as u8);
                }
                proof {
                    assert(out@ =~= seq![SDS_TL_TEXT_CODING_UCS2] + ucs2_bytes(cs@.take(k as int + 1)));
                }
                k = k + 1;
            }
            proof {
                assert(cs@.take(cs@.len() as int) =~= cs@);
            }
        }
        out
    }

    /// The SDS-TL text user data for the control interface's text `payload`.
    pub fn encode_control_text_payload(payload: &Vec<u8>) -> (r: Vec<u8>)
        ensures
            r@ == control_text_payload(payload@),
    {
        match utf8_chars(payload) {
            Some(cs) => Self::encode_text_chars(&cs),
            None => {
                let mut out: Vec<u8> = Vec::new();
                out.push(SDS_TL_TEXT_CODING_LATIN_1);
                let mut k: usize = 0;
                while k < payload.len()
                    invariant
                        0 <= k <= payload@.len(),
                        out@ == seq![SDS_TL_TEXT_CODING_LATIN_1] + payload@.take(k as int),
                    decreases payload@.len() - k,
                {
                    out.push(payload[k]);
                    proof {
                        assert(payload@.take(k as int + 1) =~= payload@.take(k as int).push(payload@[k as int]));
                    }
                    k = k + 1;
                }
                proof {
                    assert(payload@.take(payload@.len() as int) =~= payload@);
                }
                out
            },
        }
    }

    /// A text SDS from the control interface, from `source_ssi` to
    /// `dest_ssi` (a group when `dest_is_group`), `len_bits` long: it must
    /// have a route on the air and be byte-aligned; it is then wrapped as an
    /// SDS-TL text transfer with the next message reference, asking for a
    /// delivery report only from an individual destination, and refused when
    /// longer than 255 bytes.
    pub fn rx_sds_from_control(
        &mut self,
        source_ssi: u32,
        dest_ssi: u32,
        dest_is_group: bool,
        len_bits: u16,
        payload: &Vec<u8>,
        dest_registered: bool,
        dest_group_has_members: bool,
    ) -> (r: Option<ControlSds>)
        requires
            old(self).wf(),
        ensures
            final(self).wf(),
            final(self).pending_actions == old(self).pending_actions,
            ({
                let route = control_air_route(
                    source_ssi,
                    dest_ssi,
                    dest_is_group,
                    dest_registered,
                    dest_group_has_members,
                );
                if route is None || len_bits as int != payload@.len() * 8 {
                    r is None && final(self).control_message_reference == old(self).control_message_reference
                        && final(self).sds_tl_report_contexts == old(self).sds_tl_report_contexts
                } else {
                    let (mr, next) = message_reference_step(old(self).control_message_reference);
                    let flags = if dest_is_group || dest_ssi == MAX_AIR_INTERFACE_SSI {
                        SDS_TL_TRANSFER_NO_REPORT_REQ
                    } else {
                        SDS_TL_TRANSFER_WITH_REPORT_REQ
                    };
                    let data = seq![SDS_TL_TEXT_PROTOCOL_ID, flags, mr] + control_text_payload(payload@);
                    &&& final(self).control_message_reference == next
                    &&& if data.len() > 255 {
                        r is None && final(self).sds_tl_report_contexts == old(self).sds_tl_report_contexts
                    } else {
                        let air = route->0;
                        &&& r is Some
                        &&& r->0.user_data@ == data
                        &&& Some(r->0.delivery) == sds_delivery(air.air_source_ssi, dest_ssi, air.dest_ssi_type)
                        &&& final(self).sds_tl_report_contexts@ == report_remembered(
                            old(self).sds_tl_report_contexts@,
                            air.air_source_ssi,
                            dest_ssi,
                            air.dest_ssi_type,
                            transfer_report_context(data),
                        )
                    }
                }
            }),
    {
        let route = match Self::control_sds_air_route(
            source_ssi,
            dest_ssi,
            dest_is_group,
            dest_registered,
            dest_group_has_members,
        ) {
            Some(route) => route,
            None => {
                return None;
            },
        };
        if payload.len() > 8191 || len_bits as usize != payload.len() * 8 {
            return None;
        }
        let mr = self.next_control_message_reference();
        let text_user_data = Self::encode_control_text_payload(payload);
        let transfer_flags = if dest_is_group || dest_ssi == MAX_AIR_INTERFACE_SSI {
            SDS_TL_TRANSFER_NO_REPORT_REQ
        } else {
            SDS_TL_TRANSFER_WITH_REPORT_REQ
        };
        if text_user_data.len() > 252 {
            return None;
        }
        let mut wrapped: Vec<u8> = Vec::new();
        wrapped.push(SDS_TL_TEXT_PROTOCOL_ID);
        wrapped.push(transfer_flags);
        wrapped.push(mr);
        let mut k: usize = 0;
        while k < text_user_data.len()
            invariant
                0 <= k <= text_user_data@.len(),
                wrapped@ == seq![SDS_TL_TEXT_PROTOCOL_ID, transfer_flags, mr] + text_user_data@.take(k as int),
            decreases text_user_data@.len() - k,
        {
            wrapped.push(text_user_data[k]);
            proof {
                assert(text_user_data@.take(k as int + 1) =~= text_user_data@.take(k as int).push(
                    text_user_data@[k as int],
                ));
            }
            k = k + 1;
        }
        proof {
            assert(text_user_data@.take(text_user_data@.len() as int) =~= text_user_data@);
        }
        let delivery = match self.send_d_sds_data_with_reporter(
            route.air_source_ssi,
            dest_ssi,
            route.dest_ssi_type,
            &wrapped,
        ) {
            Some(d) => d,
            None => {
                return None;
            },
        };
        Some(ControlSds { delivery, user_data: wrapped })
    }
}

/// Reads `bytes` as UTF-8 with `std::str::from_utf8` and collects the
/// characters of the text; `None` when the bytes are not valid UTF-8. The
/// contract only names the result: the characters that UTF-8 decoding of
/// the bytes gives.
#[verifier::external_body]
fn utf8_chars(bytes: &Vec<u8>) -> (r: Option<Vec<char>>)
    ensures
        match r {
            Some(cs) => utf8_decode(bytes@) == Some(cs@),
            None => utf8_decode(bytes@) is None,
        },
{
    match std::str::from_utf8(bytes.as_slice()) {
        Ok(text) => Some(text.chars().collect()),
        Err(_) => None,
    }
}

} // verus!
