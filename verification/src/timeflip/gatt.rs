//! The GATT services and characteristics of the TimeFlip2.

use vstd::prelude::*;

verus! {

/// The Bluetooth base UUID, into which 16-bit short UUIDs are filled.
pub const BLUETOOTH_BASE_UUID: u128 = 0x0000_0000_0000_1000_8000_0080_5f9b_34fb;

/// The UUID of the TimeFlip service; its characteristics count up from it.
pub const TIMEFLIP_BASE_UUID: u128 = 0xF119_6F50_71A4_11E6_BDF4_0800_200C_9A66;

/// The step between two UUIDs that differ by one in their first 32 bits.
pub const UUID_STEP: u128 = 0x1_0000_0000_0000_0000_0000_0000;

/// The full 128-bit UUID of a 16-bit short UUID.
pub open spec fn short_uuid(short: u16) -> u128 {
    (BLUETOOTH_BASE_UUID + short * UUID_STEP) as u128
}

/// Fill a 16-bit short UUID into the Bluetooth base UUID.
pub fn uuid_from_u16(short: u16) -> (r: u128)
    ensures
        r == short_uuid(short),
{
    assert(short * UUID_STEP <= 0xFFFF * UUID_STEP) by (nonlinear_arith)
        requires
            short <= 0xFFFF,
    ;
    BLUETOOTH_BASE_UUID + (short as u128) * UUID_STEP
}

/// A GATT service.
#[derive(Debug, Clone, Copy, Hash, PartialEq, Eq)]
pub enum Service {
    /// GATT Battery service.
    Battery,
    /// TimeFlip service.
    TimeFlip,
}

impl Service {
    /// The UUID of the service, as a 128-bit number.
    pub open spec fn uuid_spec(self) -> u128 {
        match self {
            Service::Battery => short_uuid(0x180F),
            Service::TimeFlip => TIMEFLIP_BASE_UUID,
        }
    }

    /// The UUID of the service, as a 128-bit number.
    pub fn uuid(&self) -> (r: u128)
        ensures
            r == self.uuid_spec(),
    {
        match self {
            Service::Battery => uuid_from_u16(0x180F),
            Service::TimeFlip => TIMEFLIP_BASE_UUID,
        }
    }
}

/// A GATT characteristic belonging to a [Service].
#[derive(Debug, Clone, Copy, Hash, PartialEq, Eq)]
pub enum Characteristic {
    /// The TimeFlip2's battery level in percent.
    ///
    /// Supports Read and Notify.
    BatteryLevel,
    /// The most current event in TimeFlip2's event log.
    ///
    /// Saved as ASCII text.
    ///
    /// Supports Read and Notify.
    Event,
    /// The facet currently pointing upward.
    ///
    /// Supports Read and Notify.
    Facet,
    /// Result of a command initiated through [Characteristic::Command].
    ///
    /// Can only be read from.
    CommandResult,
    /// Characteristic to send commands to the TimeFlip2.
    ///
    /// Supports Write and Read. When reading this characteristic, the last
    /// executed command's success state is returned. The command's output can
    /// be read from [Characteristic::CommandResult].
    Command,
    /// Characteristic to notify about double taps.
    ///
    /// Supports Notify only.
    DoubleTap,
    /// System state for TimeFlip2 calibration/initialization.
    ///
    /// Supports Read and Notify.
    SystemState,
    /// TimeFlip2 requires the password written to this characteristic.
    ///
    /// The password is reset whenever the bluetooth connection is disrupted.
    /// With no or the wrong password set, TimeFlip2 refuses to execute some
    /// commands.
    ///
    /// Can only be written to.
    Password,
    /// Characteristic to read the history of flip events from the TimeFlip2's
    /// memory.
    ///
    /// Supports Write, Read and Notify.
    History,
}

impl Characteristic {
    /// The [Service] this characteristic belongs to.
    pub open spec fn service_spec(self) -> Service {
        match self {
            Characteristic::BatteryLevel => Service::Battery,
            _ => Service::TimeFlip,
        }
    }

    /// The [Service] this characteristic belongs to.
    pub fn service(&self) -> (r: Service)
        ensures
            r == self.service_spec(),
    {
        match self {
            Characteristic::BatteryLevel => Service::Battery,
            Characteristic::Event
            | Characteristic::Facet
            | Characteristic::CommandResult
            | Characteristic::Command
            | Characteristic::DoubleTap
            | Characteristic::SystemState
            | Characteristic::Password
            | Characteristic::History => Service::TimeFlip,
        }
    }

    /// The UUID of the characteristic, as a 128-bit number.
    pub open spec fn uuid_spec(self) -> u128 {
        match self {
            Characteristic::BatteryLevel => short_uuid(0x2A19),
            Characteristic::Event => (TIMEFLIP_BASE_UUID + 1 * UUID_STEP) as u128,
            Characteristic::Facet => (TIMEFLIP_BASE_UUID + 2 * UUID_STEP) as u128,
            Characteristic::CommandResult => (TIMEFLIP_BASE_UUID + 3 * UUID_STEP) as u128,
            Characteristic::Command => (TIMEFLIP_BASE_UUID + 4 * UUID_STEP) as u128,
            Characteristic::DoubleTap => (TIMEFLIP_BASE_UUID + 5 * UUID_STEP) as u128,
            Characteristic::SystemState => (TIMEFLIP_BASE_UUID + 6 * UUID_STEP) as u128,
            Characteristic::Password => (TIMEFLIP_BASE_UUID + 7 * UUID_STEP) as u128,
            Characteristic::History => (TIMEFLIP_BASE_UUID + 8 * UUID_STEP) as u128,
        }
    }

    /// The UUID of the characteristic, as a 128-bit number.
    pub fn uuid(&self) -> (r: u128)
        ensures
            r == self.uuid_spec(),
    {
        match self {
            Characteristic::BatteryLevel => uuid_from_u16(0x2A19),
            Characteristic::Event => 0xF119_6F51_71A4_11E6_BDF4_0800_200C_9A66,
            Characteristic::Facet => 0xF119_6F52_71A4_11E6_BDF4_0800_200C_9A66,
            Characteristic::CommandResult => 0xF119_6F53_71A4_11E6_BDF4_0800_200C_9A66,
            Characteristic::Command => 0xF119_6F54_71A4_11E6_BDF4_0800_200C_9A66,
            Characteristic::DoubleTap => 0xF119_6F55_71A4_11E6_BDF4_0800_200C_9A66,
            Characteristic::SystemState => 0xF119_6F56_71A4_11E6_BDF4_0800_200C_9A66,
            Characteristic::Password => 0xF119_6F57_71A4_11E6_BDF4_0800_200C_9A66,
            Characteristic::History => 0xF119_6F58_71A4_11E6_BDF4_0800_200C_9A66,
        }
    }

    /// No two characteristics share a UUID, and none has the UUID of a
    /// service.
    pub proof fn lemma_uuid_identifies(self, other: Characteristic, service: Service)
        ensures
            self.uuid_spec() == other.uuid_spec() ==> self == other,
            self.uuid_spec() != service.uuid_spec(),
    {
    }
}

} // verus!
