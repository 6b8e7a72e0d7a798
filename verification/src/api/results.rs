//! Result bodies of the API handlers.
use vstd::prelude::*;

use crate::device::ble_manager::Status;
use crate::device::records::{IotDeviceRecord, MiotDeviceRecord};
use crate::hap::bridge::HapBridgeModel;
use crate::hap::delegate::AccessoryRecord;
use crate::template_apply::{AccessoryShape, DeviceShape};
use crate::template::TemplateFormat;

verus! {

/// The logged-in user.
#[derive(Debug)]
pub struct UserInfoResult {
    pub username: String,
    pub name: String,
    pub avatar: String,
    pub userid: i64,
    pub roles: Vec<String>,
}

/// A template rendered as text.
#[derive(Debug)]
pub struct TemplateResult {
    pub text: String,
    pub format: TemplateFormat,
}

/// A device of a Mi cloud account.
#[derive(Debug)]
pub struct MiotDeviceResult {
    pub did: String,
    pub token: String,
    pub name: String,
    pub model: String,
    pub localip: Option<String>,
    pub mac: Option<String>,
    pub is_online: Option<bool>,
    pub full: Option<String>,
}

/// A listed IoT device: its stored row, whether it runs, and its source device.
#[derive(Debug)]
pub struct IotDeviceResult {
    pub model: IotDeviceRecord,
    pub running: bool,
    pub source: Option<MiotDeviceResult>,
}

/// A listed accessory: its stored row, whether it runs, its bridge and its
/// device.
#[derive(Debug)]
pub struct HapAccessoryResult<P> {
    pub model: AccessoryRecord<P>,
    pub running: bool,
    pub bridge: Option<HapBridgeModel>,
    pub device: Option<IotDeviceRecord>,
}

/// What a template would add: its devices and their accessories.
#[derive(Debug)]
pub struct CheckTemplateResult {
    pub new_devices: Vec<DeviceShape>,
    pub new_accessories: Vec<AccessoryShape>,
}

/// A stored Mi device, with whether a template exists for its model.
#[derive(Debug)]
pub struct MiotDeviceModelResult {
    pub model: MiotDeviceRecord,
    pub has_template: bool,
}

/// State of the local BLE adapter.
#[derive(Debug)]
pub struct NativeBleStatus {
    pub status: Status,
}

} // verus!
