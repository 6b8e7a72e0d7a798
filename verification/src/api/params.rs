//! Request parameters of the API handlers.
use vstd::prelude::*;

use crate::device::platform::SourcePlatform;
use crate::template::{BridgeMode, TemplateFormat};

verus! {

/// Form that adds a HomeKit bridge: its setup code (a fresh one when missing), its
/// accessory category number and its name.
#[derive(Debug)]
pub struct AddHapBridgeParam {
    pub pin_code: Option<String>,
    pub category: u64,
    pub name: String,
}

/// Login form.
#[derive(Debug)]
pub struct LoginParam {
    pub password: String,
    pub username: String,
}

/// A Mi account and, where needed, its password.
#[derive(Debug)]
pub struct AccountParam {
    pub account: String,
    pub password: Option<String>,
}

/// A Mi device id.
#[derive(Debug)]
pub struct DidParam {
    pub did: String,
}

/// Conversion of a Mi device by a template.
#[derive(Debug)]
pub struct MiConvertByTemplateParam {
    /// Id of the template to apply.
    pub id: String,
    pub did: String,
    pub bridge_mode: BridgeMode,
    pub bridge_id: Option<i64>,
    pub gateway_id: Option<i64>,
}

/// Conversion of a Mi device into an IoT device.
#[derive(Debug)]
pub struct MiConvertToIotParam {
    pub did: String,
    pub name: String,
    pub integration: String,
    pub memo: Option<String>,
}

/// Filter of the IoT device list.
#[derive(Debug)]
pub struct QueryIotDeviceParam {
    pub device_type: Option<Vec<String>>,
    pub is_gateway: Option<bool>,
    pub source_platform: Option<SourcePlatform>,
}

/// Edit of an IoT device.
#[derive(Debug)]
pub struct EditDeviceParam {
    pub device_type: Option<String>,
    pub gateway_id: Option<i64>,
    pub name: Option<String>,
    pub is_gateway: Option<bool>,
    pub memo: Option<String>,
}

/// The text format in which a template is wanted.
#[derive(Debug)]
pub struct GetTemplateParam {
    pub format: TemplateFormat,
}

/// Enable or disable an object.
#[derive(Debug)]
pub struct DisableParam {
    pub disabled: bool,
}

/// A characteristic id given as number or text.
#[derive(Debug)]
pub struct Test {
    pub cid: Option<i32>,
}

/// A template to apply to a device, under a bridge.
#[derive(Debug)]
pub struct ApplyTemplateParam {
    pub text: String,
    pub format: TemplateFormat,
    pub bridge_id: i64,
    pub device_id: String,
}

/// A template to check against an existing source device.
#[derive(Debug)]
pub struct CheckTemplateParam {
    pub text: String,
    pub format: TemplateFormat,
    pub source_id: String,
    pub source_platform: String,
}

} // verus!
