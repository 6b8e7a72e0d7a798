//! Verified core of a home-automation bridge: BLE advertisement decoding,
//! HomeKit setup codes, API responses and device bookkeeping.
use vstd::prelude::*;

pub mod api;
pub mod ble;
pub mod config;
pub mod db;
pub mod device;
pub mod graphql;
pub mod hap;
pub mod template;
pub mod template_apply;
mod text;

verus! {

/// Sums two sizes.
pub fn add(left: usize, right: usize) -> (sum: usize)
    requires
        left + right <= usize::MAX,
    ensures
        sum == left + right,
{
    left + right
}

} // verus!
