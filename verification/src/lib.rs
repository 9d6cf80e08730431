//! Verified core of a Wi-Fi provisioning firmware: a credential record with
//! its on-store encoding, the non-volatile storage access protocol, the
//! provisioning lifecycle, bounded-timeout connection establishment, and the
//! steady-state probe policy. Device drivers (non-volatile store, radio,
//! transport) are external collaborators: the library states what is decided
//! for every value they can hand back, and an unverified driver performs the
//! actual calls.

pub mod credential;
pub mod storage;
pub mod store;
pub mod status;
pub mod connect;
pub mod provision;
pub mod ops;
