//! IoT devices: source platforms, the local BLE adapter and how stored devices are started.
pub mod ble_manager;
pub mod platform;
pub mod records;
pub mod routing;
