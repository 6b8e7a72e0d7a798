//! A BLE device read straight from the local adapter: it reports a property only
//! when the value of that property changes.
use vstd::prelude::*;

use dashmap::DashMap;

verus! {

#[verifier::external_type_specification]
#[verifier::external_body]
#[verifier::reject_recursive_types(K)]
#[verifier::reject_recursive_types(V)]
#[verifier::reject_recursive_types(S)]
pub struct ExDashMap<K, V, S>(DashMap<K, V, S>);

/// What a register of last-seen values holds: object type code to data bytes.
pub uninterp spec fn register_contents(m: DashMap<u16, Vec<u8>>) -> Map<u16, Seq<u8>>;

/// `DashMap::new`: a map with no entries.
#[verifier::external_body]
fn register_new() -> (m: DashMap<u16, Vec<u8>>)
    ensures
        register_contents(m).is_empty(),
{
    DashMap::new()
}

/// `DashMap::get`, with the value copied out: the value stored under `key`, or
/// `None` when there is no entry for it.
#[verifier::external_body]
fn register_get(m: &DashMap<u16, Vec<u8>>, key: u16) -> (r: Option<Vec<u8>>)
    ensures
        r is Some <==> register_contents(*m).contains_key(key),
        r matches Some(v) ==> v@ == register_contents(*m)[key],
{
    m.get(&key).map(|entry| entry.value().clone())
}

/// `DashMap::insert`: afterwards `key` maps to `value`, every other entry unchanged.
#[verifier::external_body]
fn register_insert(m: &mut DashMap<u16, Vec<u8>>, key: u16, value: Vec<u8>)
    ensures
        register_contents(*final(m)) == register_contents(*old(m)).insert(key, value@),
{
    m.insert(key, value);
}

/// A property value to publish: object type code and raw data.
#[derive(Debug, Clone)]
pub struct PropData {
    pub etype: u16,
    pub edata: Vec<u8>,
}

/// Whether two byte strings are equal.
fn bytes_equal(a: &Vec<u8>, b: &Vec<u8>) -> (eq: bool)
    ensures
        eq == (a@ == b@),
{
    if a.len() != b.len() {
        return false;
    }
    let mut i: usize = 0;
    while i < a.len()
        invariant
            a@.len() == b@.len(),
            i <= a@.len(),
            forall|j: int| 0 <= j < i ==> a@[j] == b@[j],
        decreases a@.len() - i,
    {
        if a[i] != b[i] {
            return false;
        }
        i += 1;
    }
    assert(a@ =~= b@);
    true
}

/// Whether a reading (`mac`, `etype`, `edata`) is news for a device with MAC address
/// `device_mac` whose register holds `register`: it comes from that device and
/// differs from the value last stored for its type.
pub open spec fn reading_is_news(
    register: Map<u16, Seq<u8>>,
    device_mac: Seq<u8>,
    mac: Seq<u8>,
    etype: u16,
    edata: Seq<u8>,
) -> bool {
    mac == device_mac && !(register.contains_key(etype) && register[etype] == edata)
}

/// The register after a reading.
pub open spec fn register_after(
    register: Map<u16, Seq<u8>>,
    device_mac: Seq<u8>,
    mac: Seq<u8>,
    etype: u16,
    edata: Seq<u8>,
) -> Map<u16, Seq<u8>> {
    if reading_is_news(register, device_mac, mac, etype, edata) {
        register.insert(etype, edata)
    } else {
        register
    }
}

/// What an accessory reports of the device behind it.
#[derive(Debug, Clone, PartialEq, Eq)]
pub struct DeviceInfo {
    pub manufacturer: String,
    pub model: String,
    pub serial_number: String,
    pub software_revision: Option<String>,
    pub firmware_revision: Option<String>,
}

/// A device read from the local BLE adapter.
pub struct NativeBleDevice {
    mac: [u8; 6],
    dev_id: i64,
    /// The last value seen for each object type.
    value_register: DashMap<u16, Vec<u8>>,
}

impl NativeBleDevice {
    /// The MAC address of the device.
    pub closed spec fn device_mac(&self) -> Seq<u8> {
        self.mac@
    }

    /// The id of the device.
    pub closed spec fn device_id(&self) -> i64 {
        self.dev_id
    }

    /// What the register holds.
    pub closed spec fn register(&self) -> Map<u16, Seq<u8>> {
        register_contents(self.value_register)
    }

    /// A device with the given MAC address and id, and nothing seen yet.
    pub fn new(mac: [u8; 6], dev_id: i64) -> (d: NativeBleDevice)
        ensures
            d.device_mac() == mac@,
            d.device_id() == dev_id,
            d.register() == Map::<u16, Seq<u8>>::empty(),
    {
        NativeBleDevice { mac, dev_id, value_register: register_new() }
    }

    /// What the device reports of itself: an unknown maker, an empty model, a
    /// placeholder serial number and no revisions.
    pub fn get_hap_info(&self) -> (info: DeviceInfo)
        ensures
            info.manufacturer@ == "未知"@,
            info.model@ == ""@,
            info.serial_number@ == "xxx"@,
            info.software_revision is None,
            info.firmware_revision is None,
    {
        DeviceInfo {
            manufacturer: String::from_str("未知"),
            model: String::from_str(""),
            serial_number: String::from_str("xxx"),
            software_revision: None,
            firmware_revision: None,
        }
    }

    /// The value last seen for object type `etype`, if any.
    pub fn last_value(&self, etype: u16) -> (r: Option<Vec<u8>>)
        ensures
            r is Some <==> self.register().contains_key(etype),
            r matches Some(v) ==> v@ == self.register()[etype],
    {
        register_get(&self.value_register, etype)
    }

    /// The MAC address of the device.
    pub fn mac(&self) -> (m: [u8; 6])
        ensures
            m@ == self.device_mac(),
    {
        self.mac
    }

    /// Handles one reading from the adapter. A reading of another device, or one
    /// whose value equals the value last seen for its type, changes nothing and is
    /// not published; any other reading is stored and returned for publishing.
    pub fn on_ble_data(&mut self, mac: [u8; 6], etype: u16, edata: &Vec<u8>) -> (emit: Option<
        PropData,
    >)
        ensures
            final(self).device_mac() == old(self).device_mac(),
            final(self).device_id() == old(self).device_id(),
            final(self).register() == register_after(
                old(self).register(),
                old(self).device_mac(),
                mac@,
                etype,
                edata@,
            ),
            emit is Some <==> reading_is_news(
                old(self).register(),
                old(self).device_mac(),
                mac@,
                etype,
                edata@,
            ),
            emit matches Some(p) ==> p.etype == etype && p.edata@ == edata@,
    {
        let mut same_mac = true;
        let mut i: usize = 0;
        while i < 6
            invariant
                i <= 6,
                same_mac == (forall|j: int| 0 <= j < i ==> mac@[j] == self.mac@[j]),
            decreases 6 - i,
        {
            if mac[i] != self.mac[i] {
                same_mac = false;
            }
            i += 1;
        }
        assert(same_mac == (mac@ =~= self.mac@));
        if !same_mac {
            return None;
        }
        let unchanged = match register_get(&self.value_register, etype) {
            Some(v) => bytes_equal(&v, edata),
            None => false,
        };
        if unchanged {
            return None;
        }
        register_insert(&mut self.value_register, etype, edata.clone());
        Some(PropData { etype, edata: edata.clone() })
    }
}

/// A reading that has just been stored is not news when it comes again: feeding the
/// same reading twice publishes it at most once.
pub proof fn lemma_repeated_reading_is_not_news(
    register: Map<u16, Seq<u8>>,
    device_mac: Seq<u8>,
    mac: Seq<u8>,
    etype: u16,
    edata: Seq<u8>,
)
    ensures
        !reading_is_news(
            register_after(register, device_mac, mac, etype, edata),
            device_mac,
            mac,
            etype,
            edata,
        ),
{
}

/// After a reading from the device, the register holds that reading's value for its
/// type, whether or not it was news.
pub proof fn lemma_register_holds_last_reading(
    register: Map<u16, Seq<u8>>,
    device_mac: Seq<u8>,
    etype: u16,
    edata: Seq<u8>,
)
    ensures
        register_after(register, device_mac, device_mac, etype, edata).contains_key(etype),
        register_after(register, device_mac, device_mac, etype, edata)[etype] == edata,
{
}

} // verus!
