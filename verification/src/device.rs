//! Endpoint records: one physical network interface each, identified by
//! its hardware address and owned by exactly one identity.

use vstd::prelude::*;

verus! {

/// A stored endpoint. `internet` is the admission state last successfully
/// pushed to the enforcement backend — the diff baseline of the engine,
/// not a live read of firewall state.
#[derive(Clone, Debug)]
pub struct Device {
    pub id: u128,
    /// Canonical colon-separated hardware address.
    pub mac: String,
    /// Owning identity.
    pub user_id: u128,
    /// Last pushed admission state.
    pub internet: bool,
    /// Timestamp of the last state transition, seconds since the epoch.
    pub date_time: i64,
}

/// An endpoint about to be stored for the first time.
#[derive(Clone, Debug)]
pub struct NewDevice {
    pub mac: String,
    pub user_id: u128,
    pub internet: bool,
    pub date_time: i64,
}

/// The caller-supplied part of an endpoint registration.
#[derive(Clone, Copy, Debug)]
pub struct DeviceInput {
    pub user_id: u128,
}

} // verus!
