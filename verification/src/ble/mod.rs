//! Decoding of Xiaomi BLE service-data advertisements.
pub mod error;
pub mod native;
pub mod value;
pub mod xiaomi;
