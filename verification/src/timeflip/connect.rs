//! Choosing the TimeFlip2 among the devices that the Bluetooth stack knows.

use crate::timeflip::gatt::TIMEFLIP_BASE_UUID;
use crate::timeflip::Error;
use vstd::prelude::*;

verus! {

/// The password that a TimeFlip2 leaves the factory with.
pub const DEFAULT_PASSWORD: [u8; 6] = [0x30, 0x30, 0x30, 0x30, 0x30, 0x30];

/// What the Bluetooth stack knows of a device.
#[derive(Debug, Clone, PartialEq, Eq)]
pub struct DeviceSummary {
    /// The UUIDs of the services that the device offers, as 128-bit numbers.
    pub services: Vec<u128>,
    /// Whether the device is paired.
    pub paired: bool,
    /// Whether the device is connected.
    pub connected: bool,
}

/// How to connect to the TimeFlip2 that was chosen.
#[derive(Debug, Clone, Copy, PartialEq, Eq)]
pub struct Connection {
    /// The place of the device in the list of devices.
    pub device: usize,
    /// Whether the device is paired; one that is not is worth a warning.
    pub paired: bool,
    /// Whether the device has yet to be connected.
    pub connect: bool,
}

/// Whether a device offers the TimeFlip service.
pub open spec fn is_timeflip(device: DeviceSummary) -> bool {
    device.services@.contains(TIMEFLIP_BASE_UUID)
}

/// Whether a device offers the TimeFlip service.
pub fn offers_timeflip(device: &DeviceSummary) -> (r: bool)
    ensures
        r == is_timeflip(*device),
{
    let mut i: usize = 0;
    while i < device.services.len()
        invariant
            i <= device.services@.len(),
            forall|k: int| 0 <= k < i ==> device.services@[k] != TIMEFLIP_BASE_UUID,
        decreases device.services@.len() - i,
    {
        if device.services[i] == TIMEFLIP_BASE_UUID {
            assert(device.services@[i as int] == TIMEFLIP_BASE_UUID);
            return true;
        }
        i += 1;
    }
    false
}

/// Choose the device to connect to: the first that offers the TimeFlip
/// service. It is to be connected unless it is connected already. Without
/// such a device there is nothing to connect to.
pub fn choose_device(devices: &Vec<DeviceSummary>) -> (r: Result<Connection, Error>)
    ensures
        match r {
            Ok(connection) => {
                &&& connection.device < devices@.len()
                &&& is_timeflip(devices@[connection.device as int])
                &&& forall|k: int| 0 <= k < connection.device ==> !is_timeflip(#[trigger] devices@[k])
                &&& connection.paired == devices@[connection.device as int].paired
                &&& connection.connect == !devices@[connection.device as int].connected
            },
            Err(e) => e == Error::NoDevice && forall|k: int|
                0 <= k < devices@.len() ==> !is_timeflip(#[trigger] devices@[k]),
        },
{
    let mut i: usize = 0;
    while i < devices.len()
        invariant
            i <= devices@.len(),
            forall|k: int| 0 <= k < i ==> !is_timeflip(#[trigger] devices@[k]),
        decreases devices@.len() - i,
    {
        if offers_timeflip(&devices[i]) {
            return Ok(
                Connection {
                    device: i,
                    paired: devices[i].paired,
                    connect: !devices[i].connected,
                },
            );
        }
        i += 1;
    }
    Err(Error::NoDevice)
}

/// The password to write to the device once it is connected: the one that
/// was given, or the factory password.
pub fn access_password(password: Option<[u8; 6]>) -> (r: [u8; 6])
    ensures
        r == match password {
            Some(given) => given,
            None => DEFAULT_PASSWORD,
        },
{
    match password {
        Some(given) => given,
        None => DEFAULT_PASSWORD,
    }
}

} // verus!
