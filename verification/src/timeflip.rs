//! Communicating with the TimeFlip2: what to write to the device and how to
//! read what it answers.
//!
//! Nothing here talks to the device. Each function takes what was read from
//! it, or says what is to be written to it; the caller does the reading and
//! the writing, one command at a time.

pub mod collect;
pub mod command;
pub mod connect;
pub mod event;
pub mod gatt;
pub mod history;
pub mod result;
pub mod sync;
pub mod sync_state;

pub use command::Command;
pub use event::{BluetoothEvent, Event, EventError, EventHandles};
pub use gatt::{Characteristic, Service};
pub use history::{Entry, EntryError};
pub use result::{
    CommandResult, FacetSettings, FacetSettingsError, GetTimeError, SystemStatus,
    SystemStatusError,
};
pub use sync_state::{SyncState, SyncStateError, SyncType};

use crate::types::{Facet, FacetError, Percent, PercentError};
use event::{decoded_event, text_from_utf8};
use vstd::prelude::*;
use vstd::std_specs::convert::FromSpecImpl;
use vstd::utf8::{decode_utf8, valid_utf8};

verus! {

/// What is wrong with a notification of the history characteristic.
#[derive(Debug, Clone, Copy, PartialEq, Eq)]
pub enum DataFault {
    /// The value belongs to another characteristic.
    WrongCharacteristic,
    /// The event carries no value of a characteristic.
    UnexpectedEvent,
}

/// Error for communication with TimeFlip2.
#[derive(Debug, Clone, PartialEq, Eq)]
pub enum Error {
    /// A characteristic held fewer bytes than needed; holds the number read
    /// and the number needed.
    ReadTooShort(usize, usize),
    /// The device did not report that it ran the command.
    CommandExecutionFailed,
    /// The time of the device could not be decoded.
    GetTime(GetTimeError),
    /// The event text is not valid UTF-8; holds its bytes.
    Utf8Error(Vec<u8>),
    /// The battery level is no percentage.
    InvalidBatteryLevel(PercentError),
    /// The facet byte names no facet.
    InvalidFacet(FacetError),
    /// The settings of a facet could not be decoded.
    InvalidFacetSettings(FacetSettingsError),
    /// A notification was none of the characteristic that was listened to.
    InvalidCharacteristicData(DataFault),
    /// A history entry could not be decoded.
    InvalidHistoryEntry(EntryError),
    /// The status word could not be decoded.
    InvalidSyncState(SyncStateError),
    /// The system status could not be decoded.
    InvalidSystemStatus(SystemStatusError),
    /// No TimeFlip2 is among the known devices.
    NoDevice,
    /// TimeFlip2 reports an accelerometer error.
    AccelerometerError,
    /// TimeFlip2 reports a flash error.
    FlashError,
    /// The device keeps asking for the same synchronization; holds which.
    SyncError(SyncType),
}

impl From<GetTimeError> for Error {
    fn from(e: GetTimeError) -> (r: Error) {
        Error::GetTime(e)
    }
}

impl FromSpecImpl<GetTimeError> for Error {
    open spec fn obeys_from_spec() -> bool {
        true
    }

    open spec fn from_spec(e: GetTimeError) -> Error {
        Error::GetTime(e)
    }
}

impl From<FacetError> for Error {
    fn from(e: FacetError) -> (r: Error) {
        Error::InvalidFacet(e)
    }
}

impl FromSpecImpl<FacetError> for Error {
    open spec fn obeys_from_spec() -> bool {
        true
    }

    open spec fn from_spec(e: FacetError) -> Error {
        Error::InvalidFacet(e)
    }
}

impl From<FacetSettingsError> for Error {
    fn from(e: FacetSettingsError) -> (r: Error) {
        Error::InvalidFacetSettings(e)
    }
}

impl FromSpecImpl<FacetSettingsError> for Error {
    open spec fn obeys_from_spec() -> bool {
        true
    }

    open spec fn from_spec(e: FacetSettingsError) -> Error {
        Error::InvalidFacetSettings(e)
    }
}

impl From<EntryError> for Error {
    fn from(e: EntryError) -> (r: Error) {
        Error::InvalidHistoryEntry(e)
    }
}

impl FromSpecImpl<EntryError> for Error {
    open spec fn obeys_from_spec() -> bool {
        true
    }

    open spec fn from_spec(e: EntryError) -> Error {
        Error::InvalidHistoryEntry(e)
    }
}

impl From<SyncStateError> for Error {
    fn from(e: SyncStateError) -> (r: Error) {
        Error::InvalidSyncState(e)
    }
}

impl FromSpecImpl<SyncStateError> for Error {
    open spec fn obeys_from_spec() -> bool {
        true
    }

    open spec fn from_spec(e: SyncStateError) -> Error {
        Error::InvalidSyncState(e)
    }
}

impl From<SystemStatusError> for Error {
    fn from(e: SystemStatusError) -> (r: Error) {
        Error::InvalidSystemStatus(e)
    }
}

impl FromSpecImpl<SystemStatusError> for Error {
    open spec fn obeys_from_spec() -> bool {
        true
    }

    open spec fn from_spec(e: SystemStatusError) -> Error {
        Error::InvalidSystemStatus(e)
    }
}

/// Whether what the command characteristic holds after a command was
/// written says that the device ran it: the id of the command, then a 2.
pub open spec fn executed(echo: Seq<u8>, command: Command) -> bool {
    echo.len() >= 2 && echo[0] == command.id_spec() && echo[1] == 2
}

/// Check what was read back from the command characteristic after the
/// command was written to it. Only where this succeeds is the command's
/// result to be read and trusted.
pub fn check_execution(echo: &[u8], command: &Command) -> (r: Result<(), Error>)
    ensures
        r == (if executed(echo@, *command) {
            Ok::<(), Error>(())
        } else {
            Err::<(), Error>(Error::CommandExecutionFailed)
        }),
{
    if echo.len() < 2 || echo[0] != command.id() || echo[1] != 2 {
        return Err(Error::CommandExecutionFailed);
    }
    Ok(())
}

/// What a read of the battery level characteristic decodes to.
pub open spec fn battery_level_decoded(data: Seq<u8>) -> Result<Percent, Error> {
    if data.len() == 0 {
        Err(Error::ReadTooShort(0, 1))
    } else {
        match Percent::checked(data[0] as usize) {
            Ok(level) => Ok(level),
            Err(e) => Err(Error::InvalidBatteryLevel(e)),
        }
    }
}

/// Decode the battery level in percent from what the battery level
/// characteristic holds.
pub fn decode_battery_level(data: &[u8]) -> (r: Result<Percent, Error>)
    ensures
        r == battery_level_decoded(data@),
{
    if data.len() == 0 {
        return Err(Error::ReadTooShort(data.len(), 1));
    }
    match Percent::new(data[0] as usize) {
        Ok(level) => Ok(level),
        Err(e) => Err(Error::InvalidBatteryLevel(e)),
    }
}

/// What a read of the facet characteristic decodes to.
pub open spec fn facet_decoded(data: Seq<u8>) -> Result<Facet, Error> {
    if data.len() == 0 {
        Err(Error::ReadTooShort(0, 1))
    } else {
        match Facet::checked(data[0] as usize) {
            Ok(facet) => Ok(facet),
            Err(e) => Err(Error::InvalidFacet(e)),
        }
    }
}

/// Decode the facet currently facing up from what the facet characteristic
/// holds.
pub fn decode_facet(data: &[u8]) -> (r: Result<Facet, Error>)
    ensures
        r == facet_decoded(data@),
{
    if data.len() == 0 {
        return Err(Error::ReadTooShort(data.len(), 1));
    }
    match Facet::new(data[0] as usize) {
        Ok(facet) => Ok(facet),
        Err(e) => Err(Error::from(e)),
    }
}

/// Decode the (informational) last event of the TimeFlip2 from what the
/// event characteristic holds: its bytes read as UTF-8.
pub fn decode_last_event(data: Vec<u8>) -> (r: Result<String, Error>)
    ensures
        valid_utf8(data@) ==> r is Ok && r->Ok_0@ == decode_utf8(data@),
        !valid_utf8(data@) ==> r == Err::<String, Error>(Error::Utf8Error(data)),
{
    match text_from_utf8(data) {
        Ok(text) => Ok(text),
        Err(bytes) => Err(Error::Utf8Error(bytes)),
    }
}

/// What a Bluetooth event adds to the stream of events.
#[derive(Debug, Clone, PartialEq, Eq)]
pub enum StreamItem {
    /// The event that it decodes to, which the stream yields.
    Event(Event),
    /// Nothing: the device has connected, which is no news.
    Ignored,
    /// Nothing: the event did not decode, for the reason held.
    Dropped(EventError),
}

/// What a Bluetooth event adds to the stream of events: the event that it
/// decodes to, or nothing. The stream goes on either way; a failure is
/// told apart from the notification that the device has connected, which
/// is left out though nothing is wrong with it.
pub fn stream_item(bt_event: BluetoothEvent, handles: &EventHandles) -> (r: StreamItem)
    ensures
        match decoded_event(bt_event, *handles) {
            Ok(event) => r matches StreamItem::Event(e) && e@ == event,
            Err(EventError::IgnoreConnected) => r == StreamItem::Ignored,
            Err(e) => r == StreamItem::Dropped(e),
        },
{
    match Event::from_bluetooth_event(bt_event, handles) {
        Ok(event) => StreamItem::Event(event),
        Err(EventError::IgnoreConnected) => StreamItem::Ignored,
        Err(e) => StreamItem::Dropped(e),
    }
}

} // verus!
