//! Verified core of a TETRA base-station circuit-mode control entity (CMCE):
//! TDMA timekeeping, the circuit manager, call records with floor control,
//! individual/group call state machines, the parrot test service, subscriber
//! bookkeeping and short-data helpers.

pub mod address;
pub mod circuit_mgr;
pub mod tdma;
pub mod timeslots;
pub mod call;
pub mod cc_bs;
pub mod parrot;
pub mod ext_number;
pub mod sds;
pub mod fsm;
pub mod subscribers;
pub mod floor;
pub mod group_setup;
pub mod timers;
pub mod cc_ms;
pub mod individual_setup;
pub mod brew_setup;
pub mod connect;
pub mod network_setup;
pub mod network_group;
pub mod network_individual;
pub mod release;
pub mod sds_routing;
pub mod connect_ack;
pub mod feature_checks;
pub mod teardown;
pub mod floor_activation;
pub mod live_sds;
pub mod disconnect_flow;
pub mod dashboard;
pub mod raw_sds;
pub mod tx_ceased_tails;
pub mod entity;
