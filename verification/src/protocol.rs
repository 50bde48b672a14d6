//! What the client, the daemon and the device actors say to each other.

use vstd::prelude::*;

verus! {

/// A request that a client sends to the daemon.
#[derive(Debug, PartialEq, Eq)]
pub enum ClientCommand {
    /// List the devices that can be seen within `timeout_ms` milliseconds.
    Scan { timeout_ms: u64 },
    /// Ask every connected device for its status.
    Status,
    /// Connect to the device and start its actor.
    Connect { name: String },
    /// Stop the device's actor.
    Disconnect { name: String },
    /// Set the device to streaming mode.
    Record { name: String },
}

/// What a device tells about itself.
#[derive(Debug, PartialEq, Eq)]
pub struct DeviceStatus {
    pub name: String,
    /// The charge as the device gave it, or `None` where it reported an error.
    pub battery_charge: Option<u8>,
}

/// What the daemon answers to a request.
#[derive(Debug, PartialEq, Eq)]
pub enum DaemonResponse {
    Success,
    Error(String),
    /// The names that a scan found.
    Devices(Vec<String>),
    /// The status of each connected device.
    Statuses(Vec<DeviceStatus>),
}

/// What the daemon tells a device actor to do. `R` is the channel over which a
/// status is sent back.
#[derive(Debug, PartialEq, Eq)]
pub enum DeviceCommand<R> {
    StartRecording { lsl_stream_name: String },
    Status { tx: R },
    Shutdown,
}

/// The answer to a request for a device that has no actor.
pub const DEVICE_NOT_CONNECTED: &'static str = "Device not connected";

/// Why a request to connect fails where no device has the name.
pub const DEVICE_NOT_FOUND: &'static str = "Device not found";

/// The number of commands that can wait for a device actor.
pub const COMMAND_QUEUE: usize = 32;

} // verus!
