//! HomeKit accessory protocol helpers: setup URIs, setup codes and ids.
pub mod accessory;
pub mod bridge;
pub mod characteristic;
pub mod codes;
pub mod delegate;
pub mod setup_uri;
pub mod switch_group;
