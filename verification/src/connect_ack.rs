//! The guard on the two D-CONNECT deliveries of a local private call: the
//! called party's D-CONNECT ACKNOWLEDGE, then the caller's D-CONNECT. Each
//! is retried a bounded number of times while it is not acknowledged.

use vstd::prelude::*;

use crate::call::{CallTimeout, IndividualCall};
use crate::cc_bs::CcBsSubentity;
use crate::connect::{
    CachedPrivateSetup, CalledDConnectAck, CalledDeliveryOutcome, CallerDConnect, CallerDeliveryOutcome, activated_call,
    called_d_connect_ack, caller_d_connect, first_private_floor,
};
use crate::fsm::{IndividualEvent, IndividualTransitionError, PrivateCalledConnectAckDelivery, TxState, individual_transition_allowed};
use crate::tdma::TdmaTime;

verus! {

/// A connect delivery older than this (in timeslots) is given up.
pub const INDIVIDUAL_CONNECT_ACK_PENDING_TIMEOUT_TIMESLOTS: i32 = 144;

/// The called party's D-CONNECT ACKNOWLEDGE is tried at most this often.
pub const INDIVIDUAL_CONNECT_ACK_MAX_ATTEMPTS: u8 = 5;

/// The caller's D-CONNECT is tried at most this often.
pub const INDIVIDUAL_CALLER_CONNECT_MAX_ATTEMPTS: u8 = 3;

/// Which delivery of a private connect is guarded.
#[derive(Clone, Copy, Debug, PartialEq, Eq, Structural)]
pub enum ConnectAckStage {
    /// The called party's D-CONNECT ACKNOWLEDGE, tried `attempts` times; it
    /// completes on a layer 2 acknowledgement when `requires_l2_ack`, else
    /// once transmitted.
    CalledConnectAck { attempts: u8, requires_l2_ack: bool },
    /// The caller's D-CONNECT, tried `attempts` times.
    CallerDConnect { attempts: u8 },
}

/// A guarded connect delivery, started at `started_at`.
#[derive(Clone, Copy, Debug, PartialEq, Eq, Structural)]
pub struct PendingIndividualConnectAck {
    pub stage: ConnectAckStage,
    pub started_at: TdmaTime,
}

/// What the transmission report of the guarded PDU says.
#[derive(Clone, Copy, Debug, PartialEq, Eq, Structural)]
pub struct DeliveryReport {
    pub state: TxState,
    /// The PDU was acknowledged at layer 2.
    pub acknowledged: bool,
    /// The PDU went out on the air.
    pub transmitted: bool,
    /// The report will not change any more.
    pub final_state: bool,
}

/// The next step of a guarded connect delivery.
#[derive(Clone, Copy, Debug, PartialEq, Eq, Structural)]
pub enum ConnectAckStep {
    /// Nothing yet; the guard stays.
    Waiting,
    /// The called party's delivery completed (the guard is dropped) with
    /// this outcome; a caller D-CONNECT it owes starts a caller guard.
    CalledDelivered { outcome: CalledDeliveryOutcome },
    /// The caller's delivery completed (the guard is dropped) with this
    /// outcome.
    CallerDelivered { outcome: CallerDeliveryOutcome },
    /// The delivery failed for good: the guard is dropped and the call
    /// released (acknowledged service not complete).
    ReleaseCall,
    /// The call or its D-SETUP is gone: the guard is dropped.
    Forget,
    /// D-CONNECT ACKNOWLEDGE goes again by `delivery`; the guard becomes
    /// `next`.
    RetryCalled {
        delivery: PrivateCalledConnectAckDelivery,
        d_connect_ack: CalledDConnectAck,
        next: PendingIndividualConnectAck,
    },
    /// The caller's D-CONNECT goes again; the guard becomes `next`.
    RetryCaller { d_connect: CallerDConnect, next: PendingIndividualConnectAck },
}

/// The guarded delivery is done.
pub open spec fn delivery_done(stage: ConnectAckStage, report: DeliveryReport) -> bool {
    match stage {
        ConnectAckStage::CalledConnectAck { requires_l2_ack, .. } => (requires_l2_ack && report.acknowledged) || (
        !requires_l2_ack && report.transmitted),
        ConnectAckStage::CallerDConnect { .. } => report.acknowledged,
    }
}

/// The guarded delivery failed or timed out at `now`.
pub open spec fn delivery_stalled(pending: PendingIndividualConnectAck, report: DeliveryReport, now: TdmaTime) -> bool {
    report.final_state || pending.started_at.age_spec(now) >= INDIVIDUAL_CONNECT_ACK_PENDING_TIMEOUT_TIMESLOTS
}

/// The delivery of retry `attempt` of the called party's D-CONNECT
/// ACKNOWLEDGE.
pub open spec fn retry_delivery(attempt: u8) -> PrivateCalledConnectAckDelivery {
    if attempt == 1 || attempt == 2 || attempt == 4 {
        PrivateCalledConnectAckDelivery::CurrentChannel
    } else {
        PrivateCalledConnectAckDelivery::AssignedChannelRecovery
    }
}

/// The called party talks first in call `c` with D-SETUP `cached`.
pub open spec fn called_talks_first(c: IndividualCall, cached: CachedPrivateSetup) -> bool {
    !c.simplex_duplex && cached.hook_method_selection && c.request_to_transmit_send_data
}

/// Outcome of advancing the connect guard `pending` of call `call_id` on
/// `report` (see [`CcBsSubentity::drain_pending_individual_connect_acks`]):
/// `before`/`after` are the sub-entity around it.
pub open spec fn connect_ack_drained(
    before: CcBsSubentity,
    after: CcBsSubentity,
    call_id: u16,
    pending: PendingIndividualConnectAck,
    report: DeliveryReport,
    cached: Option<CachedPrivateSetup>,
    call_timeout: CallTimeout,
    r: ConnectAckStep,
) -> bool {
    let m = before.individual_calls@;
    let now = before.dltime;
    if delivery_done(pending.stage, report) {
        match pending.stage {
            ConnectAckStage::CalledConnectAck { .. } => {
                &&& r matches ConnectAckStep::CalledDelivered { outcome }
                &&& if !m.contains_key(call_id) {
                    outcome == CalledDeliveryOutcome::CallGone && after.individual_calls@ == m
                } else if cached is None {
                    outcome == CalledDeliveryOutcome::MissingCachedSetup && after.individual_calls@
                        == m
                } else {
                    &&& outcome == (CalledDeliveryOutcome::CallerConnect {
                        d_connect: caller_d_connect(m[call_id], cached->0, call_timeout),
                    })
                    &&& after.individual_calls@ == m.insert(
                        call_id,
                        IndividualCall {
                            state: crate::call::IndividualCallState::CallerConnectAckPending,
                            ..m[call_id]
                        },
                    )
                }
            },
            ConnectAckStage::CallerDConnect { .. } => {
                &&& r matches ConnectAckStep::CallerDelivered { outcome }
                &&& if !m.contains_key(call_id) {
                    outcome == CallerDeliveryOutcome::CallGone && after.individual_calls@ == m
                } else if !individual_transition_allowed(m[call_id].state, IndividualEvent::Connect) {
                    &&& outcome == (CallerDeliveryOutcome::ActivationRefused {
                        error: IndividualTransitionError::InvalidTransition {
                            call_id,
                            state: m[call_id].state,
                            event: IndividualEvent::Connect,
                        },
                    })
                    &&& after.individual_calls@ == m
                } else {
                    let active = activated_call(m[call_id], now);
                    if !m[call_id].simplex_duplex && cached is Some {
                        let floor = first_private_floor(m[call_id], cached->0);
                        &&& outcome == (CallerDeliveryOutcome::Activated { floor: Some(floor) })
                        &&& after.individual_calls@ == m.insert(
                            call_id,
                            IndividualCall {
                                floor_holder: Some(floor.source_issi),
                                last_floor_holder: Some(floor.source_issi),
                                ..active
                            },
                        )
                    } else {
                        outcome == (CallerDeliveryOutcome::Activated { floor: None })
                            && after.individual_calls@ == m.insert(call_id, active)
                    }
                }
            },
        }
    } else {
        &&& after.individual_calls@ == m
        &&& if !delivery_stalled(pending, report, now) {
            r == ConnectAckStep::Waiting
        } else {
            match pending.stage {
                ConnectAckStage::CalledConnectAck { attempts, .. } => if attempts
                    >= INDIVIDUAL_CONNECT_ACK_MAX_ATTEMPTS {
                    r == ConnectAckStep::ReleaseCall
                } else if !m.contains_key(call_id) || cached is None {
                    r == ConnectAckStep::Forget
                } else {
                    let first = called_talks_first(m[call_id], cached->0);
                    r == (ConnectAckStep::RetryCalled {
                        delivery: retry_delivery((attempts + 1) as u8),
                        d_connect_ack: called_d_connect_ack(m[call_id], first, call_timeout),
                        next: PendingIndividualConnectAck {
                            stage: ConnectAckStage::CalledConnectAck {
                                attempts: (attempts + 1) as u8,
                                requires_l2_ack: true,
                            },
                            started_at: now,
                        },
                    })
                },
                ConnectAckStage::CallerDConnect { attempts } => if attempts
                    >= INDIVIDUAL_CALLER_CONNECT_MAX_ATTEMPTS {
                    r == ConnectAckStep::ReleaseCall
                } else if !m.contains_key(call_id) {
                    r == ConnectAckStep::Forget
                } else if cached is None {
                    r == ConnectAckStep::ReleaseCall
                } else {
                    r == (ConnectAckStep::RetryCaller {
                        d_connect: caller_d_connect(m[call_id], cached->0, call_timeout),
                        next: PendingIndividualConnectAck {
                            stage: ConnectAckStage::CallerDConnect { attempts: (attempts + 1) as u8 },
                            started_at: now,
                        },
                    })
                },
            }
        }
    }
}

impl CcBsSubentity {
    /// Advances the guard `pending` of call `call_id` given the report
    /// `report` of its PDU (D-SETUP `cached`, configured `call_timeout`). A
    /// completed delivery moves the connect on; a stalled one is retried
    /// until its attempts run out, then the call is released.
    pub fn drain_pending_individual_connect_acks(
        &mut self,
        call_id: u16,
        pending: PendingIndividualConnectAck,
        report: DeliveryReport,
        cached: Option<CachedPrivateSetup>,
        call_timeout: CallTimeout,
    ) -> (r: ConnectAckStep)
        ensures
            old(self).individual_calls_wf() ==> final(self).individual_calls_wf(),
            final(self).same_except_individual_calls(old(self)),
            connect_ack_drained(*old(self), *final(self), call_id, pending, report, cached, call_timeout, r),
    {
        let done = match pending.stage {
            ConnectAckStage::CalledConnectAck { requires_l2_ack, .. } => (requires_l2_ack && report.acknowledged) || (
            !requires_l2_ack && report.transmitted),
            ConnectAckStage::CallerDConnect { .. } => report.acknowledged,
        };
        if done {
            return match pending.stage {
                ConnectAckStage::CalledConnectAck { .. } => {
                    let outcome = self.complete_private_connect_after_called_delivery(call_id, cached, call_timeout);
                    ConnectAckStep::CalledDelivered { outcome }
                },
                ConnectAckStage::CallerDConnect { .. } => {
                    let outcome = self.complete_private_connect_after_caller_connect_delivery(call_id, cached);
                    ConnectAckStep::CallerDelivered { outcome }
                },
            };
        }
        let now = self.dltime;
        if !(report.final_state || pending.started_at.age(now) >= INDIVIDUAL_CONNECT_ACK_PENDING_TIMEOUT_TIMESLOTS) {
            return ConnectAckStep::Waiting;
        }
        match pending.stage {
            ConnectAckStage::CalledConnectAck { attempts, .. } => {
                if attempts >= INDIVIDUAL_CONNECT_ACK_MAX_ATTEMPTS {
                    return ConnectAckStep::ReleaseCall;
                }
                let cached = match cached {
                    Some(c) => c,
                    None => {
                        return ConnectAckStep::Forget;
                    },
                };
                match self.individual_calls.get(&call_id) {
                    Some(call) => {
                        let first = Self::private_simplex_called_ms_transmits_first(
                            call.simplex_duplex,
                            cached.hook_method_selection,
                            call.request_to_transmit_send_data,
                        );
                        let attempt = attempts + 1;
                        let delivery = PrivateCalledConnectAckDelivery::for_retry(report.state, attempt);
                        let d_connect_ack = Self::called_d_connect_ack_for(call, first, call_timeout);
                        ConnectAckStep::RetryCalled {
                            delivery,
                            d_connect_ack,
                            next: PendingIndividualConnectAck {
                                stage: ConnectAckStage::CalledConnectAck {
                                    attempts: attempt,
                                    requires_l2_ack: delivery.requires_l2_ack(),
                                },
                                started_at: now,
                            },
                        }
                    },
                    None => ConnectAckStep::Forget,
                }
            },
            ConnectAckStage::CallerDConnect { attempts } => {
                if attempts >= INDIVIDUAL_CALLER_CONNECT_MAX_ATTEMPTS {
                    return ConnectAckStep::ReleaseCall;
                }
                if !self.individual_calls.contains_key(&call_id) {
                    return ConnectAckStep::Forget;
                }
                let cached = match cached {
                    Some(c) => c,
                    None => {
                        return ConnectAckStep::ReleaseCall;
                    },
                };
                match self.individual_calls.get(&call_id) {
                    Some(call) => {
                        let d_connect = Self::caller_d_connect_for(call, &cached, call_timeout);
                        ConnectAckStep::RetryCaller {
                            d_connect,
                            next: PendingIndividualConnectAck {
                                stage: ConnectAckStage::CallerDConnect { attempts: attempts + 1 },
                                started_at: now,
                            },
                        }
                    },
                    None => ConnectAckStep::Forget,
                }
            },
        }
    }
}

} // verus!
