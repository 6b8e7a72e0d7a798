# homelink

The verified core of a home-automation bridge that exposes Xiaomi devices and local
BLE sensors to Apple HomeKit. Everything under `src/` is checked by Verus; the
contracts state what each function returns, except where nothing can be promised
(a random MAC address, a constructor of a unit type, an entry point that does
nothing).

- `src/ble/`: Xiaomi BLE service-data frames (frame header, object payload, typed
  values) and the change register of a locally read BLE sensor.
- `src/hap/`: HomeKit setup URIs, setup codes, setup ids and setup hashes; checks made
  while an accessory is assembled (unique instance ids, required characteristics,
  service numbering); characteristic defaults; delegate resolution; the switch group
  accessory; bridge rules.
- `src/api/`: API reply envelopes, errors and the reply each one gets, request and
  result types, the list query (JSON filter and sort to conditions and sort keys,
  JSON values to column values), the device-type enumeration and its iterator.
- `src/device/`: platform names, how a device is started (gateway or not), BLE
  adapter status, the rows of converted and synced devices.
- `src/template.rs`: loaded device templates and bridge selection for templates.
- `app/`: a small command-line front end (setup data for a new bridge, decoding of
  BLE frames given in hex).

Calls into outside crates (`rand`, `rust-crypto`, `base64`, `dashmap`, `sea-orm`,
`anyhow`, `serde_json`, `strum`) and into a few std functions sit behind small trusted wrappers whose doc comments
say what is assumed of them.
