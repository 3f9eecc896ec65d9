//! Notifications of the TimeFlip2, decoded from what the Bluetooth stack
//! delivers.

use crate::timeflip::gatt::Characteristic;
use crate::timeflip::history::{facet_with_pause, facet_with_pause_spec};
use crate::types::{Facet, FacetError, Percent, PercentError};
use vstd::prelude::*;
use vstd::utf8::{decode_utf8, valid_utf8};

verus! {

/// An event as the Bluetooth stack delivers it. A device or a characteristic
/// is named by the bytes of its object path.
#[derive(Debug, Clone, PartialEq, Eq)]
pub enum BluetoothEvent {
    /// A new value of a characteristic has been received.
    Value {
        /// The characteristic.
        id: Vec<u8>,
        /// The value.
        value: Vec<u8>,
    },
    /// A device has connected or disconnected.
    Connected {
        /// The device.
        id: Vec<u8>,
        /// Whether it is connected now.
        connected: bool,
    },
    /// Any other event of an adapter, a device or a characteristic.
    Other,
}

/// Error while decoding a Bluetooth event.
#[derive(Debug, Clone, PartialEq, Eq)]
pub enum EventError {
    /// The event is none that the TimeFlip2 is listened to for.
    UnexpectedEvent,
    /// The event belongs to another device; holds that device.
    UnexpectedDevice(Vec<u8>),
    /// The event belongs to a characteristic that is not listened to; holds
    /// that characteristic.
    UnexpectedCharacteristic(Vec<u8>),
    /// The device has connected, which is no news.
    IgnoreConnected,
    /// The value of the named characteristic is empty.
    TooShort(Characteristic),
    /// The battery level is no percentage.
    BatteryLevel(PercentError),
    /// The event text is not valid UTF-8; holds its bytes.
    Event(Vec<u8>),
    /// The facet byte names no facet.
    Facet(FacetError),
    /// The facet byte of a double tap names no facet.
    DoubleTap(FacetError),
}

/// Handles for identifying Bluetooth events, each the bytes of an object
/// path.
#[derive(Debug, Clone, PartialEq, Eq)]
pub struct EventHandles {
    pub device_id: Vec<u8>,
    pub battery_level: Vec<u8>,
    pub last_event: Vec<u8>,
    pub facet: Vec<u8>,
    pub double_tap: Vec<u8>,
}

/// Events for subscribed properties of the TimeFlip2.
#[derive(Debug, Clone, PartialEq, Eq)]
pub enum Event {
    /// Device has disconnected.
    Disconnected,
    /// Battery level has changed.
    BatteryLevel(Percent),
    /// Status message has changed.
    Event(String),
    /// The facet has changed.
    Facet(Facet),
    /// Double Tap / Pause detected.
    ///
    /// This event indicates that the TimeFlip2 has been set into pause mode
    /// either by double-tapping or by auto-pause.
    DoubleTap {
        /// The facet currently facing up.
        facet: Facet,
        /// Whether pause mode has been entered or left.
        pause: bool,
    },
}

/// An [Event] with its text as a sequence of characters.
pub enum EventView {
    Disconnected,
    BatteryLevel(Percent),
    Event(Seq<char>),
    Facet(Facet),
    DoubleTap { facet: Facet, pause: bool },
}

impl View for Event {
    type V = EventView;

    open spec fn view(&self) -> EventView {
        match *self {
            Event::Disconnected => EventView::Disconnected,
            Event::BatteryLevel(level) => EventView::BatteryLevel(level),
            Event::Event(text) => EventView::Event(text@),
            Event::Facet(facet) => EventView::Facet(facet),
            Event::DoubleTap { facet, pause } => EventView::DoubleTap { facet, pause },
        }
    }
}

/// The view of a decoding: that of the event, or the error as it is.
pub open spec fn decoding_view(r: Result<Event, EventError>) -> Result<EventView, EventError> {
    match r {
        Ok(event) => Ok(event@),
        Err(e) => Err(e),
    }
}

/// What a battery level notification decodes to.
pub open spec fn battery_level_event(value: Seq<u8>) -> Result<EventView, EventError> {
    if value.len() == 0 {
        Err(EventError::TooShort(Characteristic::BatteryLevel))
    } else {
        match Percent::checked(value[0] as usize) {
            Ok(level) => Ok(EventView::BatteryLevel(level)),
            Err(e) => Err(EventError::BatteryLevel(e)),
        }
    }
}

/// What a facet notification decodes to.
pub open spec fn facet_event(value: Seq<u8>) -> Result<EventView, EventError> {
    if value.len() == 0 {
        Err(EventError::TooShort(Characteristic::Facet))
    } else {
        match Facet::checked(value[0] as usize) {
            Ok(facet) => Ok(EventView::Facet(facet)),
            Err(e) => Err(EventError::Facet(e)),
        }
    }
}

/// What a double tap notification decodes to.
pub open spec fn double_tap_event(value: Seq<u8>) -> Result<EventView, EventError> {
    if value.len() == 0 {
        Err(EventError::TooShort(Characteristic::DoubleTap))
    } else {
        match facet_with_pause_spec(value[0]) {
            Ok(side) => Ok(EventView::DoubleTap { facet: side.0, pause: side.1 }),
            Err(e) => Err(EventError::DoubleTap(e)),
        }
    }
}

/// What a Bluetooth event decodes to. A value goes to the first of the four
/// characteristics listened to whose handle it carries.
pub open spec fn decoded_event(bt_event: BluetoothEvent, handles: EventHandles) -> Result<
    EventView,
    EventError,
> {
    match bt_event {
        BluetoothEvent::Value { id, value } => {
            if id@ == handles.battery_level@ {
                battery_level_event(value@)
            } else if id@ == handles.last_event@ {
                if valid_utf8(value@) {
                    Ok(EventView::Event(decode_utf8(value@)))
                } else {
                    Err(EventError::Event(value))
                }
            } else if id@ == handles.facet@ {
                facet_event(value@)
            } else if id@ == handles.double_tap@ {
                double_tap_event(value@)
            } else {
                Err(EventError::UnexpectedCharacteristic(id))
            }
        },
        BluetoothEvent::Connected { id, connected } => {
            if id@ != handles.device_id@ {
                Err(EventError::UnexpectedDevice(id))
            } else if connected {
                Err(EventError::IgnoreConnected)
            } else {
                Ok(EventView::Disconnected)
            }
        },
        BluetoothEvent::Other => Err(EventError::UnexpectedEvent),
    }
}

/// Each kind of event comes from its own source: a value is routed by the
/// handle of its characteristic, and only the device that is listened to
/// can disconnect.
pub proof fn lemma_event_names_its_source(bt_event: BluetoothEvent, handles: EventHandles)
    requires
        decoded_event(bt_event, handles) is Ok,
    ensures
        match decoded_event(bt_event, handles)->Ok_0 {
            EventView::BatteryLevel(_) => bt_event matches BluetoothEvent::Value { id, .. }
                && id@ == handles.battery_level@,
            EventView::Event(_) => bt_event matches BluetoothEvent::Value { id, .. } && id@
                == handles.last_event@,
            EventView::Facet(_) => bt_event matches BluetoothEvent::Value { id, .. } && id@
                == handles.facet@,
            EventView::DoubleTap { .. } => bt_event matches BluetoothEvent::Value { id, .. }
                && id@ == handles.double_tap@,
            EventView::Disconnected => bt_event matches BluetoothEvent::Connected {
                id,
                connected,
            } && id@ == handles.device_id@ && !connected,
        },
{
}

/// `String::from_utf8` of std: the text that the bytes encode. Where they
/// are not valid UTF-8, the error's `into_bytes` hands the same bytes back.
#[verifier::external_body]
pub(crate) fn text_from_utf8(value: Vec<u8>) -> (r: Result<String, Vec<u8>>)
    ensures
        r.is_ok() == valid_utf8(value@),
        r.is_ok() ==> r.unwrap()@ == decode_utf8(value@),
        r.is_err() ==> r.unwrap_err() == value,
{
    match String::from_utf8(value) {
        Ok(text) => Ok(text),
        Err(e) => Err(e.into_bytes()),
    }
}

/// Whether two handles are the same object path.
pub fn same_handle(a: &Vec<u8>, b: &Vec<u8>) -> (r: bool)
    ensures
        r == (a@ == b@),
{
    if a.len() != b.len() {
        return false;
    }
    let mut i: usize = 0;
    while i < a.len()
        invariant
            a@.len() == b@.len(),
            i <= a@.len(),
            forall|k: int| 0 <= k < i ==> a@[k] == b@[k],
        decreases a@.len() - i,
    {
        if a[i] != b[i] {
            return false;
        }
        i += 1;
    }
    assert(a@ =~= b@);
    true
}

impl Event {
    /// Construct an [Event] from a [BluetoothEvent].
    pub fn from_bluetooth_event(bt_event: BluetoothEvent, handles: &EventHandles) -> (r: Result<
        Event,
        EventError,
    >)
        ensures
            decoding_view(r) == decoded_event(bt_event, *handles),
    {
        match bt_event {
            BluetoothEvent::Value { id, value } => {
                if same_handle(&id, &handles.battery_level) {
                    if value.len() == 0 {
                        return Err(EventError::TooShort(Characteristic::BatteryLevel));
                    }
                    match Percent::new(value[0] as usize) {
                        Ok(level) => Ok(Event::BatteryLevel(level)),
                        Err(e) => Err(EventError::BatteryLevel(e)),
                    }
                } else if same_handle(&id, &handles.last_event) {
                    match text_from_utf8(value) {
                        Ok(text) => Ok(Event::Event(text)),
                        Err(bytes) => Err(EventError::Event(bytes)),
                    }
                } else if same_handle(&id, &handles.facet) {
                    if value.len() == 0 {
                        return Err(EventError::TooShort(Characteristic::Facet));
                    }
                    match Facet::new(value[0] as usize) {
                        Ok(facet) => Ok(Event::Facet(facet)),
                        Err(e) => Err(EventError::Facet(e)),
                    }
                } else if same_handle(&id, &handles.double_tap) {
                    if value.len() == 0 {
                        return Err(EventError::TooShort(Characteristic::DoubleTap));
                    }
                    match facet_with_pause(value[0]) {
                        Ok((facet, pause)) => Ok(Event::DoubleTap { facet, pause }),
                        Err(e) => Err(EventError::DoubleTap(e)),
                    }
                } else {
                    Err(EventError::UnexpectedCharacteristic(id))
                }
            },
            BluetoothEvent::Connected { id, connected } => {
                if !same_handle(&id, &handles.device_id) {
                    Err(EventError::UnexpectedDevice(id))
                } else if connected {
                    Err(EventError::IgnoreConnected)
                } else {
                    Ok(Event::Disconnected)
                }
            },
            BluetoothEvent::Other => Err(EventError::UnexpectedEvent),
        }
    }
}

} // verus!
