//! State of the local BLE adapter.
use vstd::prelude::*;

verus! {

/// State of the local BLE adapter.
#[derive(Debug, Clone, Copy, PartialEq, Eq, Structural)]
pub enum Status {
    /// Switched off after a failed start.
    Off,
    /// Scanning.
    On,
    Normal,
    /// No adapter was found.
    EmptyAdapter,
}

/// An event of BLE data.
#[derive(Debug)]
pub struct BleDataEvent {}

impl Status {
    /// The state before the adapter is started.
    pub fn initial() -> (s: Status)
        ensures
            s == Status::EmptyAdapter,
    {
        Status::EmptyAdapter
    }

    /// The state after starting the adapter: `Off` when the start failed, otherwise
    /// `EmptyAdapter` when no adapter was found and `On` when scanning began.
    pub fn after_start(started: bool, adapter_found: bool) -> (s: Status)
        ensures
            s == (if !started {
                Status::Off
            } else if !adapter_found {
                Status::EmptyAdapter
            } else {
                Status::On
            }),
    {
        if !started {
            Status::Off
        } else if !adapter_found {
            Status::EmptyAdapter
        } else {
            Status::On
        }
    }
}

} // verus!
