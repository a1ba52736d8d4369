use tetra_entities::call::DisconnectCause;
use tetra_entities::cc_ms::{CcMsSubentity, MsCallAction, MsCallContext, MsConfigure};
use tetra_entities::circuit_mgr::{CircuitModeType, CommunicationType};
use tetra_entities::fsm::TransmissionGrant;

#[test]
fn direct_private_setup_profile() {
    let mut ms = CcMsSubentity::new();
    assert_eq!(
        ms.rx_d_setup(5, true, CircuitModeType::TchS, CommunicationType::P2p, false, false),
        MsCallAction::WaitForUser
    );
    assert_eq!(
        ms.rx_d_setup(5, false, CircuitModeType::TchS, CommunicationType::P2p, true, false),
        MsCallAction::Disconnect { cause: DisconnectCause::CalledPartyDoesNotSupportEncryption }
    );
    assert_eq!(
        ms.rx_d_setup(5, false, CircuitModeType::Tch72, CommunicationType::P2p, false, false),
        MsCallAction::Disconnect { cause: DisconnectCause::CallRejectedByTheCalledParty }
    );
    assert_eq!(ms.active_call, None);
    assert_eq!(
        ms.rx_d_setup(5, false, CircuitModeType::TchS, CommunicationType::P2p, false, true),
        MsCallAction::Connect
    );
    assert_eq!(
        ms.active_call,
        Some(MsCallContext { call_identifier: 5, circuit_mode_type: CircuitModeType::TchS, simplex_duplex: true })
    );
}

#[test]
fn connect_acknowledge_and_tx_granted_configure_u_plane() {
    let mut ms = CcMsSubentity::new();
    assert_eq!(
        ms.rx_d_connect_acknowledge(5, TransmissionGrant::Granted),
        MsCallAction::Disconnect { cause: DisconnectCause::InvalidCallIdentifier }
    );
    ms.remember_call(5, CircuitModeType::TchS, false);
    assert_eq!(
        ms.rx_d_connect_acknowledge(5, TransmissionGrant::GrantedToOtherUser),
        MsCallAction::Configure {
            configure: MsConfigure {
                circuit_mode_type: CircuitModeType::TchS,
                simplex_duplex: false,
                encryption_flag: false,
                tx_grant: false,
                switch_u_plane: true,
                call_release: None,
            }
        }
    );
    assert_eq!(ms.rx_d_tx_granted(5, TransmissionGrant::RequestQueued, false), MsCallAction::Nothing);
    assert_eq!(
        ms.rx_d_tx_granted(6, TransmissionGrant::Granted, false),
        MsCallAction::Disconnect { cause: DisconnectCause::InvalidCallIdentifier }
    );
    assert_eq!(CcMsSubentity::u_plane_config_for_grant(TransmissionGrant::Granted), (true, true));
    assert_eq!(CcMsSubentity::u_plane_config_for_grant(TransmissionGrant::NotGranted), (false, false));
}

#[test]
fn disconnect_releases_kept_call_and_forgets_it() {
    let mut ms = CcMsSubentity::new();
    ms.rx_d_connect(9, Some((CircuitModeType::Tch48N1, true)), true, TransmissionGrant::Granted);
    assert_eq!(
        ms.rx_d_disconnect(9),
        MsCallAction::ReleaseAndConfigure {
            configure: MsConfigure {
                circuit_mode_type: CircuitModeType::Tch48N1,
                simplex_duplex: true,
                encryption_flag: false,
                tx_grant: false,
                switch_u_plane: false,
                call_release: Some(9),
            }
        }
    );
    assert_eq!(ms.active_call, None);
    // Releasing a call the station does not keep uses the defaults.
    assert_eq!(
        ms.rx_d_release(3),
        MsCallAction::Configure {
            configure: MsConfigure {
                circuit_mode_type: CircuitModeType::TchS,
                simplex_duplex: false,
                encryption_flag: false,
                tx_grant: false,
                switch_u_plane: false,
                call_release: Some(3),
            }
        }
    );
}
