//! The stored rows of IoT devices and Mi devices: the row made when a Mi device is
//! turned into an IoT device, the rows written when a Mi cloud account is synced,
//! and where the source device of a listed IoT device is looked up.
use vstd::prelude::*;

use crate::api::errors::ApiError;
use crate::api::params::MiConvertToIotParam;
use crate::api::results::MiotDeviceResult;
use crate::device::platform::SourcePlatform;
use crate::device::routing::{convert_error_text, convert_device_param, MiotDeviceType};
use crate::api::power::{json_shape, json_shape_of, JsonShape};

verus! {

/// A stored IoT device.
#[derive(Debug)]
pub struct IotDeviceRecord {
    pub device_id: i64,
    pub device_type: String,
    pub gateway_id: Option<i64>,
    pub name: String,
    pub memo: Option<String>,
    pub disabled: bool,
    pub source_platform: String,
    pub source_id: Option<String>,
}

/// The IoT device made from the Mi device `param.did`: id `device_id`, the given
/// kind, gateway and name, no memo, enabled, from the `mijia` platform with the Mi
/// device id as its source id.
pub fn iot_device_record(
    param: &MiConvertToIotParam,
    device_type: String,
    gateway_id: Option<i64>,
    device_id: i64,
) -> (r: IotDeviceRecord)
    ensures
        r.device_id == device_id,
        r.device_type == device_type,
        r.gateway_id == gateway_id,
        r.name@ == param.name@,
        r.memo is None,
        r.disabled == false,
        r.source_platform@ == "mijia"@,
        r.source_id matches Some(s) && s@ == param.did@,
{
    IotDeviceRecord {
        device_id,
        device_type,
        gateway_id,
        name: param.name.clone(),
        memo: None,
        disabled: false,
        source_platform: String::from_str("mijia"),
        source_id: Some(param.did.clone()),
    }
}

/// Turns a Mi device into an IoT device. `mi_device` tells whether a Mi device with
/// id `param.did` is stored and, if so, whether it has a local IP address;
/// `parsed_type` is `device_type` read as a Mi device kind. The Mi device must exist
/// ("设备不存在"), its kind must be known, and the kind must be convertible with the
/// given gateway (see `convert_error_text`); then the row to insert is returned.
pub fn convert_to_iot_device(
    param: &MiConvertToIotParam,
    mi_device: Option<bool>,
    device_type: String,
    parsed_type: Result<MiotDeviceType, strum::ParseError>,
    gateway_id: Option<i64>,
    device_id: i64,
) -> (r: Result<IotDeviceRecord, ApiError>)
    ensures
        mi_device is None ==> (r matches Err(ApiError::Msg(m)) && m@ == "设备不存在"@),
        mi_device is Some && parsed_type is Err ==> (r matches Err(ApiError::ParseError(e))
            && Err::<MiotDeviceType, strum::ParseError>(e) == parsed_type),
        match (mi_device, parsed_type) {
            (Some(has_ip), Ok(t)) => match convert_error_text(t, has_ip, gateway_id is Some) {
                Some(text) => r matches Err(ApiError::StrMsg(m)) && m@ == text,
                None => r matches Ok(rec) && rec.device_id == device_id && rec.device_type
                    == device_type && rec.gateway_id == gateway_id && rec.name@ == param.name@
                    && rec.memo is None && !rec.disabled && rec.source_platform@ == "mijia"@ && (
                rec.source_id matches Some(s) && s@ == param.did@),
            },
            _ => true,
        },
{
    let has_ip = match mi_device {
        Some(h) => h,
        None => {
            return Err(ApiError::Msg(String::from_str("设备不存在")));
        },
    };
    let t = match parsed_type {
        Ok(t) => t,
        Err(e) => {
            return Err(ApiError::ParseError(e));
        },
    };
    match convert_device_param(t, has_ip, gateway_id.is_some()) {
        Ok(_) => {},
        Err(m) => {
            return Err(ApiError::StrMsg(m));
        },
    }
    Ok(iot_device_record(param, device_type, gateway_id, device_id))
}

/// A stored Mi device of a cloud account. `full` is the JSON text of the device as
/// the cloud reported it.
#[derive(Debug)]
pub struct MiotDeviceRecord {
    pub did: String,
    pub token: String,
    pub name: String,
    pub model: String,
    pub localip: Option<String>,
    pub mac: Option<String>,
    pub is_online: bool,
    pub user_id: String,
    pub full: String,
}

/// The JSON text under the first entry named `key`.
pub open spec fn entry_text(es: Seq<(String, String)>, key: Seq<char>) -> Option<String>
    decreases es.len(),
{
    if es.len() == 0 {
        None
    } else if es[0].0@ == key {
        Some(es[0].1)
    } else {
        entry_text(es.drop_first(), key)
    }
}

/// The JSON text of the entry `key` of a JSON object text; `None` for text that is
/// not an object or an object without the key.
pub open spec fn object_field(text: Seq<char>, key: Seq<char>) -> Option<String> {
    match json_shape(text) {
        JsonShape::Object(es) => entry_text(es@, key),
        _ => None,
    }
}

/// The device elements of a Mi cloud device-list reply: the array at
/// `result.list`, each element as its JSON text; `None` when the reply has none.
pub open spec fn cloud_list_spec(resp: Seq<char>) -> Option<Seq<String>> {
    match object_field(resp, "result"@) {
        None => None,
        Some(result) => match object_field(result@, "list"@) {
            None => None,
            Some(list) => match json_shape(list@) {
                JsonShape::Array(items) => Some(items@),
                _ => None,
            },
        },
    }
}

fn find_entry(es: &Vec<(String, String)>, key: &str) -> (r: Option<String>)
    ensures
        r == entry_text(es@, key@),
{
    let mut i: usize = 0;
    assert(es@.skip(0) =~= es@);
    while i < es.len()
        invariant
            i <= es@.len(),
            entry_text(es@, key@) == entry_text(es@.skip(i as int), key@),
        decreases es@.len() - i,
    {
        assert(es@.skip(i as int).drop_first() =~= es@.skip(i + 1));
        assert(es@.skip(i as int)[0] == es@[i as int]);
        if crate::text::str_eq(es[i].0.as_str(), key) {
            let v = es[i].1.clone();
            return Some(v);
        }
        i += 1;
    }
    None
}

fn field_of(text: &str, key: &str) -> (r: Option<String>)
    ensures
        r == object_field(text@, key@),
{
    match json_shape_of(text) {
        JsonShape::Object(es) => find_entry(&es, key),
        _ => None,
    }
}

/// Reads the device elements of a Mi cloud device-list reply, as `cloud_list_spec`
/// says; a reply without an array at `result.list` is refused.
pub fn cloud_device_list(resp: &str) -> (r: Result<Vec<String>, &'static str>)
    ensures
        match cloud_list_spec(resp@) {
            Some(items) => r matches Ok(v) && v@ == items,
            None => r matches Err(m) && m@ == "米家云返回数据格式错误"@,
        },
{
    proof {
        reveal_strlit("result");
        reveal_strlit("list");
    }
    let result = match field_of(resp, "result") {
        Some(r) => r,
        None => {
            return Err("米家云返回数据格式错误");
        },
    };
    let list = match field_of(result.as_str(), "list") {
        Some(l) => l,
        None => {
            return Err("米家云返回数据格式错误");
        },
    };
    match json_shape_of(list.as_str()) {
        JsonShape::Array(items) => Ok(items),
        _ => Err("米家云返回数据格式错误"),
    }
}

/// Whether `did` is among the stored ids.
pub open spec fn is_stored(existing: Seq<String>, did: Seq<char>) -> bool {
    exists|j: int| 0 <= j < existing.len() && (#[trigger] existing[j])@ == did
}

/// The row written for a cloud device of `account` whose element is `element`:
/// its fields as reported, offline unless reported online, owned by the account,
/// with the element itself as its full record.
pub open spec fn record_matches(
    r: MiotDeviceRecord,
    d: MiotDeviceResult,
    account: Seq<char>,
    element: Seq<char>,
) -> bool {
    &&& r.did@ == d.did@
    &&& r.token@ == d.token@
    &&& r.name@ == d.name@
    &&& r.model@ == d.model@
    &&& r.localip == d.localip
    &&& r.mac == d.mac
    &&& r.is_online == (match d.is_online {
        Some(b) => b,
        None => false,
    })
    &&& r.user_id@ == account
    &&& r.full@ == element
}

/// A synced row keeps what the cloud reported of its device field by field: the
/// row's IP address is the reported IP address and its MAC address the reported
/// MAC address, never one for the other; the id, token, name and model are the
/// reported ones; the device counts as online only when reported online.
pub proof fn lemma_synced_row_keeps_reported_fields(
    r: MiotDeviceRecord,
    d: MiotDeviceResult,
    account: Seq<char>,
    element: Seq<char>,
)
    requires
        record_matches(r, d, account, element),
    ensures
        r.localip == d.localip,
        r.mac == d.mac,
        r.did@ == d.did@,
        r.token@ == d.token@,
        r.name@ == d.name@,
        r.model@ == d.model@,
        r.is_online <==> d.is_online == Some(true),
        r.user_id@ == account,
        r.full@ == element,
{
}

/// The elements that read as devices, each with its JSON text, in order.
pub open spec fn kept_devices(es: Seq<(String, Option<MiotDeviceResult>)>) -> Seq<
    (String, MiotDeviceResult),
>
    decreases es.len(),
{
    if es.len() == 0 {
        Seq::empty()
    } else {
        let rest = kept_devices(es.drop_last());
        match es.last().1 {
            Some(d) => rest.push((es.last().0, d)),
            None => rest,
        }
    }
}

proof fn lemma_kept_len(es: Seq<(String, Option<MiotDeviceResult>)>)
    ensures
        kept_devices(es).len() <= es.len(),
    decreases es.len(),
{
    if es.len() > 0 {
        lemma_kept_len(es.drop_last());
    }
}

fn opt_string_clone(s: &Option<String>) -> (r: Option<String>)
    ensures
        r == *s,
{
    match s {
        Some(t) => Some(t.clone()),
        None => None,
    }
}

fn contains_did(existing: &Vec<String>, did: &String) -> (b: bool)
    ensures
        b == is_stored(existing@, did@),
{
    let mut i: usize = 0;
    while i < existing.len()
        invariant
            i <= existing@.len(),
            forall|j: int| 0 <= j < i ==> (#[trigger] existing@[j])@ != did@,
        decreases existing@.len() - i,
    {
        if crate::text::str_eq(existing[i].as_str(), did.as_str()) {
            assert(existing@[i as int]@ == did@);
            return true;
        }
        i += 1;
    }
    false
}

/// The rows to write for the device elements that the Mi cloud reported for
/// `account`. Each element comes with its JSON text and what it reads as (`None`
/// for an element that does not read as a device, which is skipped); `existing`
/// holds the ids of the Mi devices already stored. Each kept device gives a row,
/// marked `true` to be inserted when its id is not stored yet and `false` to
/// update the stored row; the count is the number of kept devices.
pub fn sync_records(
    elements: &Vec<(String, Option<MiotDeviceResult>)>,
    account: &str,
    existing: &Vec<String>,
) -> (r: (u32, Vec<(MiotDeviceRecord, bool)>))
    requires
        elements@.len() <= u32::MAX,
    ensures
        ({
            let kept = kept_devices(elements@);
            &&& r.0 == kept.len()
            &&& r.1@.len() == kept.len()
            &&& forall|i: int|
                0 <= i < kept.len() ==> {
                    &&& record_matches((#[trigger] r.1@[i]).0, kept[i].1, account@, kept[i].0@)
                    &&& r.1@[i].0.localip == kept[i].1.localip
                    &&& r.1@[i].0.mac == kept[i].1.mac
                    &&& r.1@[i].1 == !is_stored(existing@, kept[i].1.did@)
                }
        }),
{
    let mut rows: Vec<(MiotDeviceRecord, bool)> = Vec::new();
    let mut count: u32 = 0;
    let mut i: usize = 0;
    while i < elements.len()
        invariant
            i <= elements@.len(),
            elements@.len() <= u32::MAX,
            count == rows@.len(),
            rows@.len() == kept_devices(elements@.take(i as int)).len(),
            forall|k: int|
                0 <= k < rows@.len() ==> {
                    let kept = kept_devices(elements@.take(i as int));
                    &&& record_matches((#[trigger] rows@[k]).0, kept[k].1, account@, kept[k].0@)
                    &&& rows@[k].1 == !is_stored(existing@, kept[k].1.did@)
                },
        decreases elements@.len() - i,
    {
        proof {
            assert(elements@.take(i + 1).drop_last() =~= elements@.take(i as int));
            lemma_kept_len(elements@.take(i as int));
        }
        let (text, parsed) = &elements[i];
        match parsed {
            Some(d) => {
                let is_online = match d.is_online {
                    Some(b) => b,
                    None => false,
                };
                let record = MiotDeviceRecord {
                    did: d.did.clone(),
                    token: d.token.clone(),
                    name: d.name.clone(),
                    model: d.model.clone(),
                    localip: opt_string_clone(&d.localip),
                    mac: opt_string_clone(&d.mac),
                    is_online,
                    user_id: String::from_str(account),
                    full: text.clone(),
                };
                let insert = !contains_did(existing, &d.did);
                rows.push((record, insert));
                count = count + 1;
            },
            None => {},
        }
        i += 1;
    }
    assert(elements@.take(i as int) =~= elements@);
    proof {
        let kept = kept_devices(elements@);
        assert forall|k: int| 0 <= k < kept.len() implies (#[trigger] rows@[k]).0.localip
            == kept[k].1.localip && rows@[k].0.mac == kept[k].1.mac by {
            lemma_synced_row_keeps_reported_fields(rows@[k].0, kept[k].1, account@, kept[k].0@);
        }
    }
    (count, rows)
}

/// The ids stored once a sync of the kept devices `kept` has written its rows over
/// `existing`.
pub open spec fn ids_after_sync(existing: Seq<String>, kept: Seq<(String, MiotDeviceResult)>) -> Seq<
    String,
> {
    existing + kept.map_values(|d: (String, MiotDeviceResult)| d.1.did)
}

/// Syncing the same device list a second time inserts no row: after the first sync
/// every kept device's id is stored, so each row of the second is an update.
pub proof fn lemma_second_sync_inserts_nothing(
    existing: Seq<String>,
    elements: Seq<(String, Option<MiotDeviceResult>)>,
)
    ensures
        ({
            let kept = kept_devices(elements);
            forall|i: int|
                0 <= i < kept.len() ==> is_stored(ids_after_sync(existing, kept), #[trigger] kept[i].1.did@)
        }),
{
    let kept = kept_devices(elements);
    assert forall|i: int| 0 <= i < kept.len() implies is_stored(
        ids_after_sync(existing, kept),
        #[trigger] kept[i].1.did@,
    ) by {
        let all = ids_after_sync(existing, kept);
        assert(all[existing.len() + i] == kept[i].1.did);
    }
}

/// Where the source device of a stored IoT device is looked up: a Mi Home device
/// with a source id is looked up by that id among the stored Mi devices; any other
/// device has no source device.
pub fn source_lookup(platform: SourcePlatform, source_id: Option<String>) -> (r: Option<String>)
    ensures
        r == (if platform == SourcePlatform::Mijia {
            source_id
        } else {
            None
        }),
{
    match (platform, source_id) {
        (SourcePlatform::Mijia, Some(id)) => Some(id),
        _ => None,
    }
}

} // verus!
