//! Call control of the mobile station side (EN 300 392-2 clause 14.5.1):
//! the one call context the station keeps, and what it answers to the
//! downlink call control PDUs and how it configures its lower layers.

use vstd::prelude::*;

use crate::call::DisconnectCause;
use crate::circuit_mgr::{CircuitModeType, CommunicationType};
use crate::fsm::TransmissionGrant;

verus! {

/// The call the station takes part in.
#[derive(Clone, Copy, Debug, PartialEq, Eq, Structural)]
pub struct MsCallContext {
    pub call_identifier: u16,
    pub circuit_mode_type: CircuitModeType,
    /// Full duplex when set.
    pub simplex_duplex: bool,
}

/// Call control sub-entity of the mobile station.
pub struct CcMsSubentity {
    pub active_call: Option<MsCallContext>,
}

/// Lower-layer configuration owed to the station's own MLE.
#[derive(Clone, Copy, Debug, PartialEq, Eq, Structural)]
pub struct MsConfigure {
    pub circuit_mode_type: CircuitModeType,
    pub simplex_duplex: bool,
    pub encryption_flag: bool,
    /// The station may transmit.
    pub tx_grant: bool,
    /// The U-plane is switched on.
    pub switch_u_plane: bool,
    /// The call being released, for a release configuration.
    pub call_release: Option<u16>,
}

/// The station's answer to a downlink call control PDU.
#[derive(Clone, Copy, Debug, PartialEq, Eq, Structural)]
pub enum MsCallAction {
    /// Nothing is sent.
    Nothing,
    /// On/off-hook signalling: the user decides.
    WaitForUser,
    /// U-DISCONNECT with `cause`.
    Disconnect { cause: DisconnectCause },
    /// U-CONNECT accepting the setup.
    Connect,
    /// Lower-layer configuration.
    Configure { configure: MsConfigure },
    /// U-RELEASE answering a disconnect, then the release configuration.
    ReleaseAndConfigure { configure: MsConfigure },
}

/// U-plane switching and transmit permission for `grant`.
pub open spec fn u_plane_for_grant(grant: TransmissionGrant) -> (bool, bool) {
    match grant {
        TransmissionGrant::Granted => (true, true),
        TransmissionGrant::GrantedToOtherUser => (true, false),
        _ => (false, false),
    }
}

/// The connect configuration of a call with the given parameters.
pub open spec fn connect_configure(
    circuit_mode_type: CircuitModeType,
    simplex_duplex: bool,
    encryption_flag: bool,
    grant: TransmissionGrant,
) -> MsConfigure {
    MsConfigure {
        circuit_mode_type,
        simplex_duplex,
        encryption_flag,
        tx_grant: u_plane_for_grant(grant).1,
        switch_u_plane: u_plane_for_grant(grant).0,
        call_release: None,
    }
}

/// The release configuration of call `call_identifier` given the context
/// the station kept.
pub open spec fn release_configure(context: Option<MsCallContext>, call_identifier: u16) -> MsConfigure {
    let kept = match context {
        Some(c) => c.call_identifier == call_identifier,
        None => false,
    };
    MsConfigure {
        circuit_mode_type: if kept {
            context->0.circuit_mode_type
        } else {
            CircuitModeType::TchS
        },
        simplex_duplex: kept && context->0.simplex_duplex,
        encryption_flag: false,
        tx_grant: false,
        switch_u_plane: false,
        call_release: Some(call_identifier),
    }
}

impl CcMsSubentity {
    /// A station taking part in no call.
    pub fn new() -> (r: CcMsSubentity)
        ensures
            r.active_call is None,
    {
        CcMsSubentity { active_call: None }
    }

    /// Remembers the call the station takes part in.
    pub fn remember_call(&mut self, call_identifier: u16, circuit_mode_type: CircuitModeType, simplex_duplex: bool)
        ensures
            final(self).active_call == Some(MsCallContext { call_identifier, circuit_mode_type, simplex_duplex }),
    {
        self.active_call = Some(MsCallContext { call_identifier, circuit_mode_type, simplex_duplex });
    }

    /// U-plane switching and transmit permission for `grant`: both for a
    /// grant, U-plane only for a grant to another user, neither otherwise.
    pub fn u_plane_config_for_grant(grant: TransmissionGrant) -> (r: (bool, bool))
        ensures
            r == u_plane_for_grant(grant),
    {
        match grant {
            TransmissionGrant::Granted => (true, true),
            TransmissionGrant::GrantedToOtherUser => (true, false),
            TransmissionGrant::NotGranted | TransmissionGrant::RequestQueued => (false, false),
        }
    }

    /// The station accepts direct private setups only for unencrypted
    /// point-to-point TCH/S speech.
    pub fn supports_direct_private_setup(
        circuit_mode_type: CircuitModeType,
        communication_type: CommunicationType,
        encryption_flag: bool,
    ) -> (r: bool)
        ensures
            r == (circuit_mode_type == CircuitModeType::TchS && communication_type == CommunicationType::P2p
                && !encryption_flag),
    {
        circuit_mode_type == CircuitModeType::TchS && communication_type == CommunicationType::P2p && !encryption_flag
    }

    /// Why an unsupported direct private setup is refused.
    pub fn direct_private_setup_reject_cause(encryption_flag: bool) -> (r: DisconnectCause)
        ensures
            r == if encryption_flag {
                DisconnectCause::CalledPartyDoesNotSupportEncryption
            } else {
                DisconnectCause::CallRejectedByTheCalledParty
            },
    {
        if encryption_flag {
            DisconnectCause::CalledPartyDoesNotSupportEncryption
        } else {
            DisconnectCause::CallRejectedByTheCalledParty
        }
    }

    /// D-SETUP of call `call_identifier`: on/off-hook signalling waits for
    /// the user; an unsupported basic service is refused; otherwise the
    /// station remembers the call and connects.
    pub fn rx_d_setup(
        &mut self,
        call_identifier: u16,
        hook_method_selection: bool,
        circuit_mode_type: CircuitModeType,
        communication_type: CommunicationType,
        encryption_flag: bool,
        simplex_duplex: bool,
    ) -> (r: MsCallAction)
        ensures
            r == if hook_method_selection {
                MsCallAction::WaitForUser
            } else if !(circuit_mode_type == CircuitModeType::TchS && communication_type == CommunicationType::P2p
                && !encryption_flag) {
                MsCallAction::Disconnect {
                    cause: if encryption_flag {
                        DisconnectCause::CalledPartyDoesNotSupportEncryption
                    } else {
                        DisconnectCause::CallRejectedByTheCalledParty
                    },
                }
            } else {
                MsCallAction::Connect
            },
            final(self).active_call == if r == MsCallAction::Connect {
                Some(MsCallContext { call_identifier, circuit_mode_type, simplex_duplex })
            } else {
                old(self).active_call
            },
    {
        if hook_method_selection {
            return MsCallAction::WaitForUser;
        }
        if !Self::supports_direct_private_setup(circuit_mode_type, communication_type, encryption_flag) {
            return MsCallAction::Disconnect { cause: Self::direct_private_setup_reject_cause(encryption_flag) };
        }
        self.remember_call(call_identifier, circuit_mode_type, simplex_duplex);
        MsCallAction::Connect
    }

    /// D-CONNECT of call `call_identifier` with `grant`: the station
    /// remembers the call (its circuit mode from the PDU's basic service
    /// information `service`, or the kept context, or TCH/S) and through-
    /// connects.
    pub fn rx_d_connect(
        &mut self,
        call_identifier: u16,
        service: Option<(CircuitModeType, bool)>,
        simplex_duplex: bool,
        grant: TransmissionGrant,
    ) -> (r: MsCallAction)
        ensures
            ({
                let mode = match service {
                    Some((m, _)) => m,
                    None => match old(self).active_call {
                        Some(c) => c.circuit_mode_type,
                        None => CircuitModeType::TchS,
                    },
                };
                let encryption = match service {
                    Some((_, e)) => e,
                    None => false,
                };
                &&& r == MsCallAction::Configure {
                    configure: connect_configure(mode, simplex_duplex, encryption, grant),
                }
                &&& final(self).active_call == Some(
                    MsCallContext { call_identifier, circuit_mode_type: mode, simplex_duplex },
                )
            }),
    {
        let circuit_mode_type = match service {
            Some((mode, _)) => mode,
            None => match self.active_call {
                Some(context) => context.circuit_mode_type,
                None => CircuitModeType::TchS,
            },
        };
        let encryption_flag = match service {
            Some((_, encryption)) => encryption,
            None => false,
        };
        self.remember_call(call_identifier, circuit_mode_type, simplex_duplex);
        let (switch_u_plane, tx_grant) = Self::u_plane_config_for_grant(grant);
        MsCallAction::Configure {
            configure: MsConfigure {
                circuit_mode_type,
                simplex_duplex,
                encryption_flag,
                tx_grant,
                switch_u_plane,
                call_release: None,
            },
        }
    }

    /// D-CONNECT ACKNOWLEDGE of call `call_identifier` with `grant`: the
    /// called station through-connects its kept call; a call it does not
    /// keep is refused as an invalid call identifier.
    pub fn rx_d_connect_acknowledge(&self, call_identifier: u16, grant: TransmissionGrant) -> (r: MsCallAction)
        ensures
            r == match self.active_call {
                Some(c) => if c.call_identifier == call_identifier {
                    MsCallAction::Configure {
                        configure: connect_configure(c.circuit_mode_type, c.simplex_duplex, false, grant),
                    }
                } else {
                    MsCallAction::Disconnect { cause: DisconnectCause::InvalidCallIdentifier }
                },
                None => MsCallAction::Disconnect { cause: DisconnectCause::InvalidCallIdentifier },
            },
    {
        match self.active_call {
            Some(context) => {
                if context.call_identifier != call_identifier {
                    return MsCallAction::Disconnect { cause: DisconnectCause::InvalidCallIdentifier };
                }
                let (switch_u_plane, tx_grant) = Self::u_plane_config_for_grant(grant);
                MsCallAction::Configure {
                    configure: MsConfigure {
                        circuit_mode_type: context.circuit_mode_type,
                        simplex_duplex: context.simplex_duplex,
                        encryption_flag: false,
                        tx_grant,
                        switch_u_plane,
                        call_release: None,
                    },
                }
            },
            None => MsCallAction::Disconnect { cause: DisconnectCause::InvalidCallIdentifier },
        }
    }

    /// D-TX GRANTED of call `call_identifier` with `grant`: a grant (to the
    /// station or another user) reconfigures the U-plane; a queued or refused
    /// request leaves it; a call the station does not keep is refused.
    pub fn rx_d_tx_granted(&self, call_identifier: u16, grant: TransmissionGrant, encryption_control: bool) -> (r:
        MsCallAction)
        ensures
            r == match self.active_call {
                Some(c) => if c.call_identifier != call_identifier {
                    MsCallAction::Disconnect { cause: DisconnectCause::InvalidCallIdentifier }
                } else if grant == TransmissionGrant::Granted || grant == TransmissionGrant::GrantedToOtherUser {
                    MsCallAction::Configure {
                        configure: connect_configure(c.circuit_mode_type, c.simplex_duplex, encryption_control, grant),
                    }
                } else {
                    MsCallAction::Nothing
                },
                None => MsCallAction::Disconnect { cause: DisconnectCause::InvalidCallIdentifier },
            },
    {
        let context = match self.active_call {
            Some(c) => c,
            None => {
                return MsCallAction::Disconnect { cause: DisconnectCause::InvalidCallIdentifier };
            },
        };
        if context.call_identifier != call_identifier {
            return MsCallAction::Disconnect { cause: DisconnectCause::InvalidCallIdentifier };
        }
        match grant {
            TransmissionGrant::Granted | TransmissionGrant::GrantedToOtherUser => {
                let (switch_u_plane, tx_grant) = Self::u_plane_config_for_grant(grant);
                MsCallAction::Configure {
                    configure: MsConfigure {
                        circuit_mode_type: context.circuit_mode_type,
                        simplex_duplex: context.simplex_duplex,
                        encryption_flag: encryption_control,
                        tx_grant,
                        switch_u_plane,
                        call_release: None,
                    },
                }
            },
            _ => MsCallAction::Nothing,
        }
    }

    /// The release configuration of call `call_identifier`; the kept call
    /// context is dropped.
    pub fn send_release_configure(&mut self, call_identifier: u16) -> (r: MsConfigure)
        ensures
            r == release_configure(old(self).active_call, call_identifier),
            final(self).active_call is None,
    {
        let context = self.active_call.take();
        let kept = match context {
            Some(c) => c.call_identifier == call_identifier,
            None => false,
        };
        let (circuit_mode_type, simplex_duplex) = match context {
            Some(c) => if kept {
                (c.circuit_mode_type, c.simplex_duplex)
            } else {
                (CircuitModeType::TchS, false)
            },
            None => (CircuitModeType::TchS, false),
        };
        MsConfigure {
            circuit_mode_type,
            simplex_duplex,
            encryption_flag: false,
            tx_grant: false,
            switch_u_plane: false,
            call_release: Some(call_identifier),
        }
    }

    /// D-DISCONNECT of call `call_identifier`: U-RELEASE, then release.
    pub fn rx_d_disconnect(&mut self, call_identifier: u16) -> (r: MsCallAction)
        ensures
            r == (MsCallAction::ReleaseAndConfigure {
                configure: release_configure(old(self).active_call, call_identifier),
            }),
            final(self).active_call is None,
    {
        MsCallAction::ReleaseAndConfigure { configure: self.send_release_configure(call_identifier) }
    }

    /// D-RELEASE of call `call_identifier`: release without an answer.
    pub fn rx_d_release(&mut self, call_identifier: u16) -> (r: MsCallAction)
        ensures
            r == (MsCallAction::Configure { configure: release_configure(old(self).active_call, call_identifier) }),
            final(self).active_call is None,
    {
        MsCallAction::Configure { configure: self.send_release_configure(call_identifier) }
    }
}

} // verus!
