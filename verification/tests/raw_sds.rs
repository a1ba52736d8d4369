use tetra_entities::address::TetraAddress;
use tetra_entities::raw_sds::SdsUserData;
use tetra_entities::sds::SdsBsSubentity;

#[test]
fn fixed_size_types_are_read_big_endian_from_exact_payloads() {
    match SdsBsSubentity::raw_control_sds_user_data(0, 16, &vec![0x12, 0x34], None, None) {
        Some(SdsUserData::Type1(v)) => assert_eq!(v, 0x1234),
        other => panic!("unexpected {:?}", other),
    }
    match SdsBsSubentity::raw_control_sds_user_data(1, 32, &vec![0xDE, 0xAD, 0xBE, 0xEF], None, None) {
        Some(SdsUserData::Type2(v)) => assert_eq!(v, 0xDEADBEEF),
        other => panic!("unexpected {:?}", other),
    }
    match SdsBsSubentity::raw_control_sds_user_data(2, 64, &vec![1, 2, 3, 4, 5, 6, 7, 8], None, None) {
        Some(SdsUserData::Type3(v)) => assert_eq!(v, 0x0102030405060708),
        other => panic!("unexpected {:?}", other),
    }
    assert!(SdsBsSubentity::raw_control_sds_user_data(0, 15, &vec![0x12, 0x34], None, None).is_none());
    assert!(SdsBsSubentity::raw_control_sds_user_data(1, 32, &vec![0xDE, 0xAD, 0xBE], None, None).is_none());
    assert!(SdsBsSubentity::raw_control_sds_user_data(4, 16, &vec![0x12, 0x34], None, None).is_none());
}

#[test]
fn type4_needs_protocol_identifier_and_declared_bytes() {
    let payload = vec![0x82, 0x04, 0x01];
    match SdsBsSubentity::raw_control_sds_user_data(3, 24, &payload, Some(3), Some(payload.clone())) {
        Some(SdsUserData::Type4(l, d)) => {
            assert_eq!(l, 24);
            assert_eq!(d, payload);
        }
        other => panic!("unexpected {:?}", other),
    }
    assert!(SdsBsSubentity::raw_control_sds_user_data(3, 7, &payload, Some(1), Some(vec![0x82])).is_none());
    assert!(SdsBsSubentity::raw_control_sds_user_data(3, 2048, &payload, Some(256), Some(payload.clone())).is_none());
    assert!(SdsBsSubentity::raw_control_sds_user_data(3, 40, &payload, Some(5), Some(payload.clone())).is_none());
    assert!(SdsBsSubentity::raw_control_sds_user_data(3, 24, &payload, None, None).is_none());
}

#[test]
fn raw_group_transfer_drops_its_report_request() {
    let mut sds = SdsBsSubentity::new();
    let payload = vec![0x82, 0x04, 0x11, 0x00];
    let r = sds
        .rx_raw_sds_from_control(100, 500, true, 3, 32, &payload, false, true, Some(4), Some(payload.clone()))
        .expect("routed");
    assert_eq!(r.delivery.dest.ssi, 500);
    match r.user_data {
        SdsUserData::Type4(_, d) => assert_eq!(d, vec![0x82, 0x00, 0x11, 0x00]),
        other => panic!("unexpected {:?}", other),
    }
    assert_eq!(sds.sds_tl_report_contexts.len(), 0);

    // An individual transfer keeps the request and is remembered.
    let r = sds
        .rx_raw_sds_from_control(100, 300, false, 3, 32, &payload, true, false, Some(4), Some(payload.clone()))
        .expect("routed");
    assert_eq!(r.delivery.dest, TetraAddress::issi(300));
    assert_eq!(sds.sds_tl_report_contexts.len(), 1);

    // A type-1 value to an unregistered station has no route.
    assert!(sds.rx_raw_sds_from_control(100, 301, false, 0, 16, &vec![0, 1], false, false, None, None).is_none());
}
