//! How a stored IoT device is started, and which connection parameters a Mi device
//! gets when it is converted into an IoT device.
use vstd::prelude::*;

use crate::api::device_type::DeviceType;
use crate::text::str_eq;

verus! {

/// Kinds of Mi-IoT devices.
#[derive(Debug, Clone, Copy, PartialEq, Eq, Structural)]
pub enum MiotDeviceType {
    /// Reached over Wi-Fi on the local network.
    Wifi,
    /// A gateway reached over MQTT.
    MqttGateway,
    /// A BLE mesh device behind a gateway.
    Mesh,
    /// A BLE device behind a gateway.
    Ble,
    /// Reached through the Mi cloud.
    Cloud,
}

/// The connection parameters stored for an IoT device made from a Mi device.
#[derive(Debug, Clone, Copy, PartialEq, Eq, Structural)]
pub enum DeviceParam {
    WifiDeviceParam,
    MiGatewayParam,
    MeshParam,
    MiCloudParam,
}

/// Why a Mi device cannot be converted.
pub open spec fn convert_error_text(t: MiotDeviceType, has_local_ip: bool, has_gateway_id: bool) -> Option<Seq<char>> {
    match t {
        MiotDeviceType::Wifi | MiotDeviceType::MqttGateway => if has_local_ip {
            None
        } else {
            Some("该设备无ip"@)
        },
        MiotDeviceType::Mesh => if has_gateway_id {
            None
        } else {
            Some("网关id不能为空"@)
        },
        MiotDeviceType::Cloud => None,
        MiotDeviceType::Ble => Some("暂不支持该设备类型"@),
    }
}

/// The parameters of a Mi device converted into an IoT device: a Wi-Fi device or an
/// MQTT gateway needs a local IP address, a mesh device needs a gateway, a cloud
/// device needs nothing, and a plain BLE device cannot be converted.
pub fn convert_device_param(dev_type: MiotDeviceType, has_local_ip: bool, has_gateway_id: bool) -> (r:
    Result<DeviceParam, &'static str>)
    ensures
        r is Err <==> convert_error_text(dev_type, has_local_ip, has_gateway_id) is Some,
        r matches Err(m) ==> Some(m@) == convert_error_text(dev_type, has_local_ip, has_gateway_id),
        r matches Ok(p) ==> p == match dev_type {
            MiotDeviceType::Wifi => DeviceParam::WifiDeviceParam,
            MiotDeviceType::MqttGateway => DeviceParam::MiGatewayParam,
            MiotDeviceType::Mesh => DeviceParam::MeshParam,
            _ => DeviceParam::MiCloudParam,
        },
{
    match dev_type {
        MiotDeviceType::Wifi => {
            if !has_local_ip {
                return Err("该设备无ip");
            }
            Ok(DeviceParam::WifiDeviceParam)
        },
        MiotDeviceType::MqttGateway => {
            if !has_local_ip {
                return Err("该设备无ip");
            }
            Ok(DeviceParam::MiGatewayParam)
        },
        MiotDeviceType::Mesh => {
            if !has_gateway_id {
                return Err("网关id不能为空");
            }
            Ok(DeviceParam::MeshParam)
        },
        MiotDeviceType::Cloud => Ok(DeviceParam::MiCloudParam),
        _ => Err("暂不支持该设备类型"),
    }
}

/// How a device is started.
#[derive(Debug, Clone, Copy, PartialEq, Eq, Structural)]
pub enum DeviceStartRoute {
    /// As a Mi Home device.
    Mijia,
    /// As a sensor of the local BLE adapter.
    NativeBle,
}

/// How a device that needs no gateway is started, by its stored platform name:
/// `mijia` and `ble-native` are handled, any other platform is refused.
pub fn no_gateway_route(source_platform: &str) -> (r: Result<DeviceStartRoute, String>)
    ensures
        source_platform@ == "mijia"@ ==> r == Ok::<DeviceStartRoute, String>(DeviceStartRoute::Mijia),
        source_platform@ == "ble-native"@ ==> r == Ok::<DeviceStartRoute, String>(
            DeviceStartRoute::NativeBle,
        ),
        source_platform@ != "mijia"@ && source_platform@ != "ble-native"@ ==> (r matches Err(m)
            && m@ == "暂不支持:"@ + source_platform@ + "类型设备接入"@),
{
    proof {
        reveal_strlit("mijia");
        reveal_strlit("ble-native");
        assert("mijia"@.len() == 5);
        assert("ble-native"@.len() == 10);
    }
    if str_eq(source_platform, "mijia") {
        Ok(DeviceStartRoute::Mijia)
    } else if str_eq(source_platform, "ble-native") {
        Ok(DeviceStartRoute::NativeBle)
    } else {
        let mut msg = String::from_str("暂不支持:");
        msg.append(source_platform);
        msg.append("类型设备接入");
        Err(msg)
    }
}

/// How a device behind a gateway is started, by its stored platform name: only
/// `mijia` devices can sit behind a gateway.
pub fn child_route(source_platform: &str) -> (r: Result<DeviceStartRoute, String>)
    ensures
        source_platform@ == "mijia"@ ==> r == Ok::<DeviceStartRoute, String>(DeviceStartRoute::Mijia),
        source_platform@ != "mijia"@ ==> (r matches Err(m) && m@ == "暂不支持:"@
            + source_platform@ + "设备网关接入"@),
{
    if str_eq(source_platform, "mijia") {
        Ok(DeviceStartRoute::Mijia)
    } else {
        let mut msg = String::from_str("暂不支持:");
        msg.append(source_platform);
        msg.append("设备网关接入");
        Err(msg)
    }
}

/// Why a Mi device cannot be started the way it was asked to be.
#[derive(Debug, Clone, Copy, PartialEq, Eq, Structural)]
pub enum MiDeviceStartError {
    /// A device of this kind cannot sit behind a gateway.
    NotAChildType(MiotDeviceType),
    /// A device of this kind needs a gateway.
    NeedsGateway,
}

/// Whether a Mi device of kind `t` is started behind a gateway (BLE and mesh devices)
/// or on its own (Wi-Fi devices, MQTT gateways and cloud devices).
pub open spec fn needs_gateway(t: MiotDeviceType) -> bool {
    t == MiotDeviceType::Ble || t == MiotDeviceType::Mesh
}

/// Checks that a Mi device of kind `t` can be started behind a gateway
/// (`through_gateway`) or on its own.
pub fn check_mi_device_start(t: MiotDeviceType, through_gateway: bool) -> (r: Result<
    (),
    MiDeviceStartError,
>)
    ensures
        through_gateway ==> (r is Ok <==> needs_gateway(t)),
        through_gateway && !needs_gateway(t) ==> r == Err::<(), MiDeviceStartError>(
            MiDeviceStartError::NotAChildType(t),
        ),
        !through_gateway ==> (r is Ok <==> !needs_gateway(t)),
        !through_gateway && needs_gateway(t) ==> r == Err::<(), MiDeviceStartError>(
            MiDeviceStartError::NeedsGateway,
        ),
{
    if through_gateway {
        match t {
            MiotDeviceType::Ble => Ok(()),
            MiotDeviceType::Mesh => Ok(()),
            _ => Err(MiDeviceStartError::NotAChildType(t)),
        }
    } else {
        match t {
            MiotDeviceType::Wifi => Ok(()),
            MiotDeviceType::MqttGateway => Ok(()),
            MiotDeviceType::Cloud => Ok(()),
            _ => Err(MiDeviceStartError::NeedsGateway),
        }
    }
}

/// What starting a stored IoT device looks at: its id, whether it is disabled,
/// and its kind.
#[derive(Debug, Clone, Copy)]
pub struct DeviceStartInfo {
    pub device_id: i64,
    pub disabled: bool,
    pub device_type: DeviceType,
}

/// Whether a device is started in the pass for gateway children (`child`) or in
/// the pass for the others: it is enabled, of the pass's kind, and among the
/// requested ids when ids are given.
pub open spec fn picked_for_start(d: DeviceStartInfo, ids: Option<Seq<i64>>, child: bool) -> bool {
    &&& !d.disabled
    &&& (d.device_type == DeviceType::Child) == child
    &&& match ids {
        Some(f) => f.contains(d.device_id),
        None => true,
    }
}

/// The positions of the devices picked for one pass, in stored order.
pub open spec fn start_pass(devs: Seq<DeviceStartInfo>, ids: Option<Seq<i64>>, child: bool) -> Seq<
    int,
>
    decreases devs.len(),
{
    if devs.len() == 0 {
        Seq::empty()
    } else {
        let rest = start_pass(devs.drop_last(), ids, child);
        if picked_for_start(devs.last(), ids, child) {
            rest.push(devs.len() - 1)
        } else {
            rest
        }
    }
}

/// What a start pass holds: positions of enabled devices only, of the pass's kind
/// (gateway children in the children pass, no gateway child in the other), with
/// one of the requested ids when ids are given, in rising order; and every such
/// device is in it.
pub proof fn lemma_start_pass_picks_enabled(
    devs: Seq<DeviceStartInfo>,
    ids: Option<Seq<i64>>,
    child: bool,
)
    ensures
        forall|k: int|
            0 <= k < start_pass(devs, ids, child).len() ==> {
                let p = #[trigger] start_pass(devs, ids, child)[k];
                &&& 0 <= p < devs.len()
                &&& !devs[p].disabled
                &&& (devs[p].device_type == DeviceType::Child) == child
                &&& ids matches Some(f) ==> f.contains(devs[p].device_id)
            },
        forall|k: int, l: int|
            0 <= k < l < start_pass(devs, ids, child).len() ==> start_pass(devs, ids, child)[k]
                < start_pass(devs, ids, child)[l],
        forall|p: int|
            0 <= p < devs.len() && !devs[p].disabled && (devs[p].device_type == DeviceType::Child)
                == child && (ids matches Some(f) ==> f.contains(devs[p].device_id)) ==> start_pass(
                devs,
                ids,
                child,
            ).contains(p),
    decreases devs.len(),
{
    if devs.len() > 0 {
        let rest = devs.drop_last();
        lemma_start_pass_picks_enabled(rest, ids, child);
        let pr = start_pass(rest, ids, child);
        let pa = start_pass(devs, ids, child);
        assert forall|k: int| 0 <= k < pr.len() implies (#[trigger] pr[k]) < devs.len() - 1
            && devs[pr[k]] == rest[pr[k]] by {}
        assert forall|p: int|
            0 <= p < devs.len() && !devs[p].disabled && (devs[p].device_type == DeviceType::Child)
                == child && (ids matches Some(f) ==> f.contains(devs[p].device_id)) implies pa.contains(
            p,
        ) by {
            if p < devs.len() - 1 {
                assert(rest[p] == devs[p]);
                assert(pr.contains(p));
                let q = choose|q: int| 0 <= q < pr.len() && pr[q] == p;
                assert(pa[q] == p);
            } else {
                assert(pa[pa.len() - 1] == p);
            }
        }
    }
}

fn contains_id(ids: &Vec<i64>, id: i64) -> (b: bool)
    ensures
        b == ids@.contains(id),
{
    let mut i: usize = 0;
    while i < ids.len()
        invariant
            i <= ids@.len(),
            forall|k: int| 0 <= k < i ==> ids@[k] != id,
        decreases ids@.len() - i,
    {
        if ids[i] == id {
            assert(ids@[i as int] == id);
            return true;
        }
        i += 1;
    }
    false
}

fn push_pass(
    out: &mut Vec<usize>,
    devs: &Vec<DeviceStartInfo>,
    ids: Option<&Vec<i64>>,
    child: bool,
)
    ensures
        final(out)@.map_values(|k: usize| k as int) == old(out)@.map_values(|k: usize| k as int)
            + start_pass(
            devs@,
            match ids {
                Some(f) => Some(f@),
                None => None,
            },
            child,
        ),
{
    let ghost f = match ids {
        Some(f) => Some(f@),
        None => None,
    };
    let ghost start = out@.map_values(|k: usize| k as int);
    let mut i: usize = 0;
    while i < devs.len()
        invariant
            i <= devs@.len(),
            f == (match ids {
                Some(v) => Some(v@),
                None => None::<Seq<i64>>,
            }),
            out@.map_values(|k: usize| k as int) == start + start_pass(devs@.take(i as int), f, child),
        decreases devs@.len() - i,
    {
        let d = devs[i];
        let in_ids = match ids {
            Some(v) => contains_id(v, d.device_id),
            None => true,
        };
        let is_child = match d.device_type {
            DeviceType::Child => true,
            _ => false,
        };
        let ghost before = out@;
        assert(devs@.take(i + 1).drop_last() =~= devs@.take(i as int));
        if !d.disabled && is_child == child && in_ids {
            out.push(i);
            assert(out@.map_values(|k: usize| k as int) =~= before.map_values(|k: usize| k as int).push(
                i as int,
            ));
        }
        i += 1;
    }
    assert(devs@.take(i as int) =~= devs@);
}

/// The order in which stored devices are started: first every enabled device that
/// is not a gateway child, then every enabled gateway child, each pass in stored
/// order and, when ids are given, only devices with one of those ids. The result
/// holds positions in `devs`.
pub fn start_order(devs: &Vec<DeviceStartInfo>, ids: Option<&Vec<i64>>) -> (r: Vec<usize>)
    ensures
        ({
            let f = match ids {
                Some(v) => Some(v@),
                None => None,
            };
            r@.map_values(|k: usize| k as int) == start_pass(devs@, f, false) + start_pass(
                devs@,
                f,
                true,
            )
        }),
        forall|k: int| 0 <= k < r@.len() ==> !devs@[#[trigger] r@[k] as int].disabled,
{
    let mut out: Vec<usize> = Vec::new();
    assert(out@.map_values(|k: usize| k as int) =~= Seq::<int>::empty());
    push_pass(&mut out, devs, ids, false);
    push_pass(&mut out, devs, ids, true);
    proof {
        let f = match ids {
            Some(v) => Some(v@),
            None => None,
        };
        lemma_start_pass_picks_enabled(devs@, f, false);
        lemma_start_pass_picks_enabled(devs@, f, true);
        let a = start_pass(devs@, f, false);
        let b = start_pass(devs@, f, true);
        let m = out@.map_values(|x: usize| x as int);
        assert(m == a + b);
        assert(m.len() == out@.len());
        assert forall|k: int| 0 <= k < out@.len() implies !devs@[#[trigger] out@[k] as int].disabled by {
            assert(m[k] == out@[k] as int);
            if k < a.len() {
                assert((a + b)[k] == a[k]);
            } else {
                assert((a + b)[k] == b[k - a.len()]);
            }
        }
    }
    out
}

} // verus!
