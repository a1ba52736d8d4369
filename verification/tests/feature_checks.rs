use tetra_entities::address::TetraAddress;
use tetra_entities::call::{CallTimeout, IndividualCall, IndividualCallState};
use tetra_entities::cc_bs::CcBsSubentity;
use tetra_entities::circuit_mgr::CommunicationType;
use tetra_entities::feature_checks::{
    ClearingElements, DecodedDtmf, DtmfKind, UInfoElements, UInfoOutcome, USetupFeatures, UTxDemandElements,
};
use tetra_entities::tdma::TdmaTime;

fn plain_setup() -> USetupFeatures {
    USetupFeatures {
        area_selection: 0,
        communication_type: CommunicationType::P2p,
        simplex_duplex_selection: true,
        clir_control: 0,
        has_facility: false,
        has_dm_ms_address: false,
        has_proprietary: false,
    }
}

#[test]
fn u_setup_supports_duplex_only_for_individual_calls() {
    assert!(CcBsSubentity::feature_check_u_setup(&plain_setup()));
    let mut group_duplex = plain_setup();
    group_duplex.communication_type = CommunicationType::P2Mp;
    assert!(!CcBsSubentity::feature_check_u_setup(&group_duplex));
    group_duplex.simplex_duplex_selection = false;
    assert!(CcBsSubentity::feature_check_u_setup(&group_duplex));

    let mut area = plain_setup();
    area.area_selection = 3;
    assert!(!CcBsSubentity::feature_check_u_setup(&area));
    let mut clir = plain_setup();
    clir.clir_control = 1;
    assert!(!CcBsSubentity::feature_check_u_setup(&clir));
    let mut dm = plain_setup();
    dm.has_dm_ms_address = true;
    assert!(!CcBsSubentity::feature_check_u_setup(&dm));
}

#[test]
fn clearing_pdus_name_their_type3_elements() {
    let clean = ClearingElements { has_facility: false, has_proprietary: false };
    assert_eq!(CcBsSubentity::unsupported_u_disconnect_function(&clean), None);
    assert_eq!(CcBsSubentity::unsupported_u_release_function(&clean), None);
    let facility = ClearingElements { has_facility: true, has_proprietary: false };
    assert_eq!(CcBsSubentity::unsupported_u_disconnect_function(&facility), Some((20, "facility not supported")));
    let proprietary = ClearingElements { has_facility: false, has_proprietary: true };
    assert_eq!(CcBsSubentity::unsupported_u_release_function(&proprietary), Some((20, "proprietary not supported")));
}

#[test]
fn u_info_modify_is_named_before_type3_elements() {
    let both = UInfoElements { has_modify: true, has_facility: true, has_proprietary: false };
    assert_eq!(CcBsSubentity::unsupported_u_info_function(&both), Some((16, "modify not supported")));
    let facility = UInfoElements { has_modify: false, has_facility: true, has_proprietary: false };
    assert_eq!(CcBsSubentity::unsupported_u_info_function(&facility), Some((17, "facility not supported")));
    let clean = UInfoElements { has_modify: false, has_facility: false, has_proprietary: false };
    assert_eq!(CcBsSubentity::unsupported_u_info_function(&clean), None);
}

#[test]
fn u_tx_demand_checks_encryption_then_reserved_then_type3() {
    let mut pdu = UTxDemandElements {
        encryption_control: true,
        reserved: true,
        has_facility: true,
        has_dm_ms_address: true,
        has_proprietary: true,
    };
    assert_eq!(
        CcBsSubentity::unsupported_u_tx_demand_function(&pdu),
        Some((16, "encrypted transmission demand not supported"))
    );
    pdu.encryption_control = false;
    assert_eq!(CcBsSubentity::unsupported_u_tx_demand_function(&pdu), Some((17, "reserved bit set")));
    pdu.reserved = false;
    assert_eq!(CcBsSubentity::unsupported_u_tx_demand_function(&pdu), Some((19, "facility not supported")));
    pdu.has_facility = false;
    assert_eq!(CcBsSubentity::unsupported_u_tx_demand_function(&pdu), Some((19, "dm_ms_address not supported")));
    pdu.has_dm_ms_address = false;
    assert_eq!(CcBsSubentity::unsupported_u_tx_demand_function(&pdu), Some((19, "proprietary not supported")));
    pdu.has_proprietary = false;
    assert_eq!(CcBsSubentity::unsupported_u_tx_demand_function(&pdu), None);
}

fn bridged_call(brew_uuid: Option<u128>, over_brew: bool) -> IndividualCall {
    IndividualCall {
        calling_addr: TetraAddress::issi(201),
        called_addr: TetraAddress::issi(202),
        calling_handle: 0,
        calling_link_id: 0,
        calling_endpoint_id: 0,
        called_handle: None,
        called_link_id: None,
        called_endpoint_id: None,
        calling_ts: 2,
        called_ts: 2,
        calling_usage: 4,
        called_usage: 4,
        simplex_duplex: true,
        request_to_transmit_send_data: false,
        state: IndividualCallState::Active,
        setup_timer_started: None,
        setup_timeout: None,
        active_timer_started: Some(TdmaTime::default()),
        call_timeout: CallTimeout::T5m,
        called_over_brew: over_brew,
        calling_over_brew: false,
        brew_uuid,
        network_call: None,
        connect_request_sent: false,
        floor_holder: None,
        last_floor_holder: None,
        queued_tx_demand: None,
    }
}

fn dtmf(kind: DtmfKind, digits: &[u8]) -> DecodedDtmf {
    DecodedDtmf { kind, digits: digits.to_vec(), packed_len_bits: 8 * digits.len() as u32, packed_nonempty: !digits.is_empty() }
}

#[test]
fn dtmf_of_bridged_calls_is_forwarded_digit_by_digit() {
    let mut cc = CcBsSubentity::new();
    cc.individual_calls.insert(7, bridged_call(Some(0x55), true));
    match cc.fsm_on_u_info(7, Some(dtmf(DtmfKind::ToneStart, b"12#"))) {
        UInfoOutcome::Forward { brew_uuid, digits } => {
            assert_eq!(brew_uuid, 0x55);
            assert_eq!(digits, b"12#".to_vec());
        }
        _ => panic!("tone start is forwarded"),
    }
    assert!(matches!(
        cc.fsm_on_u_info(7, Some(dtmf(DtmfKind::ToneEnd, b"1"))),
        UInfoOutcome::NotForwarded { kind: DtmfKind::ToneEnd }
    ));
    assert!(matches!(cc.fsm_on_u_info(7, Some(dtmf(DtmfKind::LegacyDigits, b""))), UInfoOutcome::NoDigits));
    assert!(matches!(cc.fsm_on_u_info(7, None), UInfoOutcome::NoDtmf));
    assert!(matches!(cc.fsm_on_u_info(8, None), UInfoOutcome::UnknownCall));

    cc.individual_calls.insert(8, bridged_call(None, false));
    assert!(matches!(cc.fsm_on_u_info(8, Some(dtmf(DtmfKind::ToneStart, b"5"))), UInfoOutcome::LocalCall));
    cc.individual_calls.insert(9, bridged_call(None, true));
    assert!(matches!(cc.fsm_on_u_info(9, Some(dtmf(DtmfKind::ToneStart, b"5"))), UInfoOutcome::MissingBrewUuid));
    let empty = DecodedDtmf { kind: DtmfKind::ToneStart, digits: b"5".to_vec(), packed_len_bits: 0, packed_nonempty: false };
    assert!(matches!(cc.fsm_on_u_info(7, Some(empty)), UInfoOutcome::EmptyPayload));
}
