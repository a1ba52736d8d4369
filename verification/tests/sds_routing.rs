use tetra_entities::address::{SsiType, TetraAddress};
use tetra_entities::fsm::Layer2Service;
use tetra_entities::sds::{SdsBsSubentity, SdsPendingAction, ShortReportType};
use tetra_entities::sds_routing::{
    BrewStatusData, PreCodedStatus, SdsDelivery, PreCodedStatusKind, RfSdsRoute, SdsCommandAction, SdsCommandControl, SdsCommandEntry,
    SdsRouteEnv, StatusRoute, UplinkSdsAddressing,
};

fn to(dest: u32) -> UplinkSdsAddressing {
    UplinkSdsAddressing {
        called_party_ssi: Some(dest),
        has_short_number_address: false,
        has_extension: false,
        has_external_subscriber_number: false,
        has_dm_ms_address: false,
    }
}

fn env(registered: bool, group: bool, brew: bool) -> SdsRouteEnv {
    SdsRouteEnv { wx_enabled: true, wx_service_issi: 7777, dest_registered: registered, dest_group_has_members: group, brew_sds_enabled: brew }
}

#[test]
fn uplink_sds_routes() {
    let me = TetraAddress::issi(201);
    let none: Vec<u8> = vec![];
    assert_eq!(SdsBsSubentity::route_rf_deliver(me, true, &to(202), &none, env(true, false, false)), RfSdsRoute::LocalIssi { source_issi: 201, dest_ssi: 202 });
    assert_eq!(SdsBsSubentity::route_rf_deliver(me, true, &to(500), &none, env(false, true, false)), RfSdsRoute::LocalGroup { source_issi: 201, dest_ssi: 500 });
    assert_eq!(SdsBsSubentity::route_rf_deliver(me, true, &to(500), &none, env(true, true, false)), RfSdsRoute::Ambiguous);
    assert_eq!(SdsBsSubentity::route_rf_deliver(me, true, &to(2_000_000), &none, env(false, false, true)), RfSdsRoute::Brew { source_issi: 201, dest_ssi: 2_000_000 });
    assert_eq!(SdsBsSubentity::route_rf_deliver(me, true, &to(2_000_000), &none, env(false, false, false)), RfSdsRoute::Dropped);
    // The all-groups address is a group, never a station.
    assert_eq!(SdsBsSubentity::route_rf_deliver(me, true, &to(0xFF_FFFF), &none, env(true, false, false)), RfSdsRoute::LocalGroup { source_issi: 201, dest_ssi: 0xFF_FFFF });
    assert_eq!(SdsBsSubentity::route_rf_deliver(me, false, &to(202), &none, env(true, false, false)), RfSdsRoute::InvalidSource);
    assert_eq!(SdsBsSubentity::route_rf_deliver(TetraAddress { ssi: 201, ssi_type: SsiType::Gssi }, true, &to(202), &none, env(true, false, false)), RfSdsRoute::InvalidSource);
    let mut ext = to(202);
    ext.has_external_subscriber_number = true;
    assert_eq!(SdsBsSubentity::route_rf_deliver(me, true, &ext, &none, env(true, false, false)), RfSdsRoute::FunctionNotSupported);
    assert!(!SdsBsSubentity::feature_check_u_status(&UplinkSdsAddressing { called_party_ssi: None, ..to(1) }));
}

#[test]
fn weather_service_answers_requests_and_absorbs_reports() {
    let me = TetraAddress::issi(201);
    let request = vec![0x82, 0x00, 0x2a, 0x01, b'w'];
    assert_eq!(
        SdsBsSubentity::route_rf_deliver(me, true, &to(7777), &request, env(false, false, false)),
        RfSdsRoute::WxRequest { source_issi: 201, report_reference: Some(0x2a) }
    );
    let report = vec![0x82, 0x10, 0x00, 0x2a];
    assert_eq!(SdsBsSubentity::route_rf_deliver(me, true, &to(7777), &report, env(false, false, false)), RfSdsRoute::WxReportAbsorbed);
    let plain = vec![b'w', b'x'];
    assert_eq!(
        SdsBsSubentity::route_rf_deliver(me, true, &to(7777), &plain, env(false, false, false)),
        RfSdsRoute::WxRequest { source_issi: 201, report_reference: None }
    );
}

fn control() -> SdsCommandControl {
    SdsCommandControl {
        authorized_issis: vec![201],
        commands: vec![
            SdsCommandEntry { status_code: 5, action: SdsCommandAction::KickAll },
            SdsCommandEntry { status_code: 5, action: SdsCommandAction::Restart },
            SdsCommandEntry { status_code: 6, action: SdsCommandAction::Unknown },
        ],
    }
}

#[test]
fn status_to_command_issi_triggers_first_configured_command() {
    let mut sds = SdsBsSubentity::new();
    let status = PreCodedStatus { raw: 0x8005, kind: PreCodedStatusKind::NetworkUserSpecific { code: 5 } };
    let ctrl = control();
    let r = sds.route_status_deliver(TetraAddress::issi(201), true, &to(9999), status, Some(&ctrl), env(false, false, false));
    assert_eq!(r, StatusRoute::Command { action: SdsCommandAction::KickAll });
    assert_eq!(sds.pending_actions, vec![SdsPendingAction::KickAll]);
    // An unauthorized station, or an unknown action, is routed as an ordinary status.
    let r = sds.route_status_deliver(TetraAddress::issi(202), true, &to(9999), status, Some(&ctrl), env(false, false, false));
    assert_eq!(r, StatusRoute::Dropped);
    let unknown = PreCodedStatus { raw: 0x8006, kind: PreCodedStatusKind::NetworkUserSpecific { code: 6 } };
    let r = sds.route_status_deliver(TetraAddress::issi(201), true, &to(9999), unknown, Some(&ctrl), env(true, false, false));
    assert_eq!(r, StatusRoute::LocalIssi { source_issi: 201, dest_ssi: 9999 });
    assert_eq!(sds.handle_sds_command_status(201, &status, None), None);
    assert_eq!(sds.pending_actions.len(), 1);
}

#[test]
fn short_report_is_converted_for_bridge_when_protocol_is_known() {
    let mut sds = SdsBsSubentity::new();
    // Station 300 was sent an SDS-TL transfer from bridged 2000000 asking for a received report.
    let transfer = vec![0x82u8, 0x04, 0x11, 0x00];
    let context = SdsBsSubentity::sds_tl_transfer_report_context(&transfer);
    assert!(context.is_some());
    sds.remember_sds_tl_report_context(2_000_000, 300, SsiType::Issi, context);
    let status = PreCodedStatus {
        raw: 0x7c11,
        kind: PreCodedStatusKind::SdsTl { short_report_type: ShortReportType::MessageReceived, message_reference: 0x11 },
    };
    let r = sds.route_status_deliver(TetraAddress::issi(300), true, &to(2_000_000), status, None, env(false, false, true));
    assert_eq!(
        r,
        StatusRoute::Brew {
            source_issi: 300,
            dest_ssi: 2_000_000,
            data: BrewStatusData::Report { protocol_id: 0x82, delivery_status: 0x00, message_reference: 0x11 },
        }
    );
    // The context is used up: a second report goes as a plain status.
    let r = sds.route_status_deliver(TetraAddress::issi(300), true, &to(2_000_000), status, None, env(false, false, true));
    assert_eq!(r, StatusRoute::Brew { source_issi: 300, dest_ssi: 2_000_000, data: BrewStatusData::Status { raw: 0x7c11 } });
}

#[test]
fn downlink_deliveries_check_addresses_and_pick_layer2_service() {
    assert_eq!(
        SdsBsSubentity::send_d_status(201, 500, SsiType::Gssi),
        Some(SdsDelivery { source_issi: 201, dest: TetraAddress { ssi: 500, ssi_type: SsiType::Gssi }, layer2service: Layer2Service::Unacknowledged })
    );
    assert_eq!(SdsBsSubentity::send_d_status(0x0100_0000, 500, SsiType::Issi), None);
    let mut sds = SdsBsSubentity::new();
    let transfer = vec![0x82u8, 0x08, 0x21, 0x00];
    let r = sds.send_d_sds_data_with_reporter(2_000_000, 300, SsiType::Issi, &transfer);
    assert_eq!(r.map(|d| d.layer2service), Some(Layer2Service::Acknowledged));
    assert_eq!(sds.sds_tl_report_contexts.len(), 1);
    assert_eq!(sds.sds_tl_report_contexts[0].context.protocol_id, 0x82);
    assert_eq!(sds.sds_tl_report_contexts[0].key.reporting_issi, 300);
}

#[test]
fn bridge_sds_goes_to_the_named_local_destination() {
    let mut sds = SdsBsSubentity::new();
    let mut data = vec![0x82u8, 0x0c, 0x05, 0x00];
    // To all groups: sent from the all-ones address without report request.
    let r = sds.rx_sds_from_brew(2_000_000, 0xFF_FFFF, None, &mut data, false, false);
    assert_eq!(r.map(|d| (d.source_issi, d.dest.ssi_type)), Some((0xFF_FFFF, SsiType::Gssi)));
    assert_eq!(data, vec![0x82u8, 0x00, 0x05, 0x00]);
    assert!(sds.sds_tl_report_contexts.is_empty());

    let mut data = vec![0x82u8, 0x0c, 0x05, 0x00];
    let r = sds.rx_sds_from_brew(2_000_000, 300, None, &mut data, true, false);
    assert_eq!(r.map(|d| (d.source_issi, d.dest)), Some((2_000_000, TetraAddress::issi(300))));
    assert_eq!(data, vec![0x82u8, 0x0c, 0x05, 0x00]);
    assert_eq!(sds.sds_tl_report_contexts.len(), 1);

    assert_eq!(sds.rx_sds_from_brew(2_000_000, 300, None, &mut data, true, true), None);
    assert_eq!(sds.rx_sds_from_brew(2_000_000, 300, Some(SsiType::Gssi), &mut data, true, false), None);
    let r = sds.rx_sds_from_brew(2_000_000, 300, Some(SsiType::Gssi), &mut data, true, true);
    assert_eq!(r.map(|d| d.dest.ssi_type), Some(SsiType::Gssi));
    assert_eq!(sds.rx_sds_from_brew(2_000_000, 301, Some(SsiType::Ussi), &mut data, true, true), None);
}

#[test]
fn control_text_is_wrapped_as_sds_tl_text() {
    assert_eq!(SdsBsSubentity::encode_control_text_payload(&b"hi".to_vec()), vec![0x01, b'h', b'i']);
    assert_eq!(SdsBsSubentity::encode_control_text_payload(&"é".as_bytes().to_vec()), vec![0x01, 0xE9]);
    assert_eq!(SdsBsSubentity::encode_control_text_payload(&"€".as_bytes().to_vec()), vec![0x1A, 0x20, 0xAC]);
    assert_eq!(
        SdsBsSubentity::encode_control_text_payload(&"a😀".as_bytes().to_vec()),
        vec![0x1A, 0x00, 0x61, 0xD8, 0x3D, 0xDE, 0x00]
    );
    assert_eq!(SdsBsSubentity::encode_control_text_payload(&vec![0xFF, 0x41]), vec![0x01, 0xFF, 0x41]);

    let mut sds = SdsBsSubentity::new();
    let r = sds.rx_sds_from_control(100, 300, false, 16, &b"ok".to_vec(), true, false).expect("routed");
    assert_eq!(r.user_data, vec![0x82, 0x04, 0x01, 0x01, b'o', b'k']);
    assert_eq!(r.delivery.dest, TetraAddress::issi(300));
    // The individual transfer asks for a report, so its context is remembered.
    assert_eq!(sds.sds_tl_report_contexts.len(), 1);
    let r = sds.rx_sds_from_control(100, 500, true, 16, &b"ok".to_vec(), false, true).expect("routed");
    assert_eq!(r.user_data, vec![0x82, 0x00, 0x02, 0x01, b'o', b'k']);
    assert_eq!(sds.sds_tl_report_contexts.len(), 1);
    // Misaligned length, unknown destination.
    assert!(sds.rx_sds_from_control(100, 300, false, 15, &b"ok".to_vec(), true, false).is_none());
    assert!(sds.rx_sds_from_control(100, 301, false, 16, &b"ok".to_vec(), false, false).is_none());
    assert_eq!(sds.control_message_reference, 3);
    let long = vec![b'x'; 253];
    assert!(sds.rx_sds_from_control(100, 300, false, 253 * 8, &long, true, false).is_none());
    assert_eq!(sds.control_message_reference, 4);
}

#[test]
fn control_message_references_skip_zero() {
    let mut sds = SdsBsSubentity::new();
    sds.control_message_reference = 255;
    assert_eq!(sds.next_control_message_reference(), 255);
    assert_eq!(sds.next_control_message_reference(), 1);
    assert_eq!(sds.control_message_reference, 1);
    assert_eq!(sds.next_control_message_reference(), 1);
    assert_eq!(sds.next_control_message_reference(), 2);
}

#[test]
fn control_status_routes() {
    let to_station = SdsBsSubentity::rx_status_command_from_control(100, 300, false, true, false);
    assert_eq!(to_station.map(|d| (d.source_issi, d.dest)), Some((100, TetraAddress::issi(300))));
    assert_eq!(SdsBsSubentity::rx_status_command_from_control(100, 300, false, false, true), None);
    let all = SdsBsSubentity::rx_status_command_from_control(100, 0xFF_FFFF, false, false, false);
    assert_eq!(all.map(|d| (d.source_issi, d.dest.ssi_type)), Some((0xFF_FFFF, SsiType::Gssi)));
    assert_eq!(SdsBsSubentity::route_status_from_control_fields(100, 0xFF_FFFF, SsiType::Issi, true, true), None);
    assert_eq!(SdsBsSubentity::route_status_from_control_fields(100, 300, SsiType::Smi, true, true), None);
    let group = SdsBsSubentity::route_status_from_control_fields(100, 500, SsiType::Gssi, false, true);
    assert_eq!(group.map(|d| d.layer2service), Some(Layer2Service::Unacknowledged));
}

#[test]
fn decoded_text_is_latin1_when_it_fits_else_ucs2() {
    assert_eq!(SdsBsSubentity::encode_text_chars(&vec!['h', 'i']), vec![0x01, b'h', b'i']);
    assert_eq!(SdsBsSubentity::encode_text_chars(&vec!['\u{FF}']), vec![0x01, 0xFF]);
    assert_eq!(SdsBsSubentity::encode_text_chars(&vec!['a', '€']), vec![0x1A, 0x00, 0x61, 0x20, 0xAC]);
    assert_eq!(SdsBsSubentity::encode_text_chars(&vec!['😀']), vec![0x1A, 0xD8, 0x3D, 0xDE, 0x00]);
    assert_eq!(SdsBsSubentity::encode_text_chars(&vec![]), vec![0x01]);
}
