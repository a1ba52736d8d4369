use tetra_entities::address::{SsiType, TetraAddress};
use tetra_entities::sds::{ControlSdsRoute, SdsBsSubentity};

#[test]
fn sds_text_is_extracted_from_sds_tl_and_raw_payloads() {
    let tl = vec![0x82, 0x04, 0x07, 0x01, b' ', b'H', b'i', 0x00, b'!', b'\t'];
    assert_eq!(SdsBsSubentity::extract_sds_text(&tl), "Hi!");
    let coded = vec![0x01, b'o', b'k'];
    assert_eq!(SdsBsSubentity::extract_sds_text(&coded), "ok");
    let raw = vec![b' ', b'a', b' ', b'b', b' '];
    assert_eq!(SdsBsSubentity::extract_sds_text(&raw), "a b");
    assert_eq!(SdsBsSubentity::extract_sds_text(&vec![]), "");
    // Too short for an SDS-TL header: all bytes are text candidates.
    assert_eq!(SdsBsSubentity::extract_sds_text(&vec![0x82, b'x']), "x");
}

#[test]
fn sds_tl_report_and_message_reference() {
    let report = vec![0x82, 0x10, 0x33, 0x00];
    assert!(SdsBsSubentity::is_sds_tl_report(&report));
    assert_eq!(SdsBsSubentity::sds_tl_message_reference(&report), None);
    let text = vec![0x89, 0x04, 0x33, 0x00];
    assert!(!SdsBsSubentity::is_sds_tl_report(&text));
    assert_eq!(SdsBsSubentity::sds_tl_message_reference(&text), Some(0x33));
    assert_eq!(SdsBsSubentity::sds_tl_message_reference(&vec![0x89, 0x04, 0x33]), None);
}

#[test]
fn control_sds_routes_follow_destination_kind() {
    assert_eq!(SdsBsSubentity::control_sds_air_route(0x0100_0000, 5, false, true, true), None);
    assert_eq!(
        SdsBsSubentity::control_sds_air_route(7, 0xFF_FFFF, false, false, false),
        Some(ControlSdsRoute { air_source_ssi: 0xFF_FFFF, dest_ssi_type: SsiType::Gssi })
    );
    assert_eq!(
        SdsBsSubentity::control_sds_air_route(7, 91, true, false, true),
        Some(ControlSdsRoute { air_source_ssi: 7, dest_ssi_type: SsiType::Gssi })
    );
    assert_eq!(SdsBsSubentity::control_sds_air_route(7, 91, true, true, false), None);
    assert_eq!(SdsBsSubentity::control_sds_air_route(7, 12, false, false, true), None);
    assert_eq!(
        SdsBsSubentity::control_sds_air_route(7, 12, false, true, false),
        Some(ControlSdsRoute { air_source_ssi: 7, dest_ssi_type: SsiType::Issi })
    );
}

#[test]
fn uplink_calling_party_must_be_registered_individual() {
    assert_eq!(SdsBsSubentity::registered_rf_calling_party_issi(TetraAddress::issi(12), true), Some(12));
    assert_eq!(SdsBsSubentity::registered_rf_calling_party_issi(TetraAddress::issi(12), false), None);
    assert_eq!(SdsBsSubentity::registered_rf_calling_party_issi(TetraAddress::gssi(12), true), None);
    assert_eq!(SdsBsSubentity::check_raw_sds_payload(16, 16, 2, 2), Some(()));
    assert_eq!(SdsBsSubentity::check_raw_sds_payload(16, 32, 2, 2), None);
    assert_eq!(SdsBsSubentity::check_raw_sds_payload(16, 16, 3, 2), None);
}
