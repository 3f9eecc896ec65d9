//! The status word by which the TimeFlip2 says what it needs to have
//! synchronized.

use vstd::prelude::*;

verus! {

/// Error for converting the system state to a [SyncState].
#[derive(Debug, Clone, Copy, PartialEq, Eq)]
pub enum SyncStateError {
    /// Fewer than 4 bytes were read; holds their number.
    TooShort(usize),
    /// The first two bytes name no synchronization; holds both.
    InvalidSyncType(u8, u8),
    /// The last two bytes name no hardware state; holds both.
    InvalidHardwareError(u8, u8),
}

/// Indicates that some type of synchronization is required.
#[derive(Debug, Clone, Copy, PartialEq, Eq, Structural)]
pub enum SyncType {
    /// The device is synchronized.
    Synchronized,
    /// The device has been reset to the factory settings.
    FactoryReset,
    /// Time synchronization required.
    Time,
    /// Facet color synchronization required.
    FacetColor,
    /// LED brightness synchronization required.
    LedBrightness,
    /// Blink interval synchronization required.
    BlinkInterval,
    /// Task parameters synchronization required.
    TaskParameters,
    /// Auto-pause synchronization required.
    AutoPause,
}

/// Synchronization state used to keep the application and the TimeFlip2
/// up-to-date.
#[derive(Debug, Clone, Copy, PartialEq, Eq)]
pub struct SyncState {
    /// The synchronization state.
    pub sync: SyncType,
    /// Detected accelerometer error.
    pub accelerometer_error: bool,
    /// Detected flash error.
    pub flash_error: bool,
}

/// The synchronization that a pair of bytes names, if any.
pub open spec fn sync_type_of(major: u8, minor: u8) -> Option<SyncType> {
    if major == 0 && minor == 0 {
        Some(SyncType::Synchronized)
    } else if major == 1 && minor == 0 {
        Some(SyncType::FactoryReset)
    } else if major == 2 && minor == 1 {
        Some(SyncType::Time)
    } else if major == 2 && minor == 2 {
        Some(SyncType::FacetColor)
    } else if major == 2 && minor == 3 {
        Some(SyncType::LedBrightness)
    } else if major == 2 && minor == 4 {
        Some(SyncType::BlinkInterval)
    } else if major == 2 && minor == 5 {
        Some(SyncType::TaskParameters)
    } else if major == 2 && minor == 6 {
        Some(SyncType::AutoPause)
    } else {
        None
    }
}

/// The accelerometer and flash errors that a pair of bytes names, if any.
pub open spec fn hardware_errors_of(major: u8, minor: u8) -> Option<(bool, bool)> {
    if major == 0 && minor == 0 {
        Some((false, false))
    } else if major == 2 && minor == 1 {
        Some((true, false))
    } else if major == 2 && minor == 2 {
        Some((false, true))
    } else if major == 2 && minor == 3 {
        Some((true, true))
    } else {
        None
    }
}

impl SyncState {
    /// What a status word decodes to.
    pub open spec fn decoded(data: Seq<u8>) -> Result<SyncState, SyncStateError> {
        if data.len() < 4 {
            Err(SyncStateError::TooShort(data.len() as usize))
        } else {
            match sync_type_of(data[0], data[1]) {
                None => Err(SyncStateError::InvalidSyncType(data[0], data[1])),
                Some(sync) => match hardware_errors_of(data[2], data[3]) {
                    None => Err(SyncStateError::InvalidHardwareError(data[2], data[3])),
                    Some(errors) => Ok(
                        SyncState { sync, accelerometer_error: errors.0, flash_error: errors.1 },
                    ),
                },
            }
        }
    }

    /// Construct a [SyncState] from the data read from the system state
    /// characteristic.
    pub fn from_data(data: &[u8]) -> (r: Result<SyncState, SyncStateError>)
        ensures
            r == SyncState::decoded(data@),
    {
        if data.len() < 4 {
            return Err(SyncStateError::TooShort(data.len()));
        }
        let sync = match (data[0], data[1]) {
            (0, 0) => SyncType::Synchronized,
            (1, 0) => SyncType::FactoryReset,
            (2, 1) => SyncType::Time,
            (2, 2) => SyncType::FacetColor,
            (2, 3) => SyncType::LedBrightness,
            (2, 4) => SyncType::BlinkInterval,
            (2, 5) => SyncType::TaskParameters,
            (2, 6) => SyncType::AutoPause,
            (x, y) => return Err(SyncStateError::InvalidSyncType(x, y)),
        };

        let (accelerometer_error, flash_error) = match (data[2], data[3]) {
            (0, 0) => (false, false),
            (2, 1) => (true, false),
            (2, 2) => (false, true),
            (2, 3) => (true, true),
            (x, y) => return Err(SyncStateError::InvalidHardwareError(x, y)),
        };

        Ok(SyncState { sync, accelerometer_error, flash_error })
    }
}

} // verus!
