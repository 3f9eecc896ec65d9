//! Records of the TimeFlip2's history of flips.

use crate::time::{raw_time_is_representable, raw_time_representable, Timestamp};
use crate::types::{Facet, FacetError};
use crate::wire::{be32, be32_at, be64_at, get_u32, get_u64, get_u8, put_u32, put_u8};
use vstd::prelude::*;

verus! {

/// The id that asks the device for its most recent entry.
pub const LAST_ENTRY: u32 = 0xFFFF_FFFF;

/// The facet index in a byte that also carries the pause flag in its
/// highest bit.
pub open spec fn facet_index_of(byte: u8) -> u8 {
    if byte > 127 {
        (byte - 128) as u8
    } else {
        byte
    }
}

/// The pause flag in a byte that also carries a facet index.
pub open spec fn pause_flag_of(byte: u8) -> bool {
    byte > 127
}

/// What [facet_with_pause] returns.
pub open spec fn facet_with_pause_spec(byte: u8) -> Result<(Facet, bool), FacetError> {
    match Facet::checked(facet_index_of(byte) as usize) {
        Ok(facet) => Ok((facet, pause_flag_of(byte))),
        Err(e) => Err(e),
    }
}

/// Split a byte into the facet that its lower seven bits name and the pause
/// flag in its highest bit. History records and double-tap notifications
/// both carry such a byte.
pub fn facet_with_pause(byte: u8) -> (r: Result<(Facet, bool), FacetError>)
    ensures
        r == facet_with_pause_spec(byte),
{
    let (index, pause): (u8, bool) = if byte > 127 {
        (byte - 128, true)
    } else {
        (byte, false)
    };
    match Facet::new(index as usize) {
        Ok(facet) => Ok((facet, pause)),
        Err(e) => Err(e),
    }
}

/// A byte that splits into a facet and a pause flag is put together again
/// from them: the index of the facet, and 128 more where the flag is set.
pub proof fn lemma_facet_with_pause_joins(byte: u8)
    requires
        facet_with_pause_spec(byte) is Ok,
    ensures
        byte == facet_with_pause_spec(byte)->Ok_0.0.value() + (if facet_with_pause_spec(
            byte,
        )->Ok_0.1 {
            128int
        } else {
            0int
        }),
        1 <= facet_with_pause_spec(byte)->Ok_0.0.value() <= 12,
{
    Facet::lemma_value_at(facet_index_of(byte) as int);
}

/// Error when parsing a history entry.
#[derive(Debug, Clone, Copy, PartialEq, Eq)]
pub enum EntryError {
    /// The record is the marker that ends the history.
    EndOfHistory,
    /// The record has fewer than 17 bytes.
    TooShort,
    /// The facet byte names no facet.
    InvalidFacet(FacetError),
    /// The start time of the flip denotes no instant; holds the raw value.
    InvalidTimestamp(u64),
}

/// An entry from TimeFlip2's history.
#[derive(Debug, Clone, Copy, PartialEq, Eq)]
pub struct Entry {
    /// ID of the entry.
    pub id: u32,
    /// Active facet.
    pub facet: Facet,
    /// Whether or not the facet is in pause state.
    pub pause: bool,
    /// The time the dice was flipped.
    pub time: Timestamp,
    /// Duration the facet was active, in seconds.
    pub duration: u32,
}

impl Entry {
    /// What a history record decodes to, once it is known whether the
    /// calendar reaches the start time that it holds.
    pub open spec fn decoded(data: Seq<u8>, representable: bool) -> Result<Entry, EntryError> {
        if data.len() < 17 {
            Err(EntryError::TooShort)
        } else if be32_at(data, 0) == 0 && data[4] == 0 && be64_at(data, 5) == 0 && be32_at(
            data,
            13,
        ) == 0 {
            Err(EntryError::EndOfHistory)
        } else {
            match facet_with_pause_spec(data[4]) {
                Err(e) => Err(EntryError::InvalidFacet(e)),
                Ok(side) => match Timestamp::lifted(be64_at(data, 5) as u64, representable) {
                    None => Err(EntryError::InvalidTimestamp(be64_at(data, 5) as u64)),
                    Some(time) => Ok(
                        Entry {
                            id: be32_at(data, 0) as u32,
                            facet: side.0,
                            pause: side.1,
                            time,
                            duration: be32_at(data, 13) as u32,
                        },
                    ),
                },
            }
        }
    }

    /// Whether the calendar reaches the start time that a history record
    /// holds.
    pub open spec fn time_representable(data: Seq<u8>) -> bool {
        data.len() >= 17 && raw_time_representable(be64_at(data, 5) as u64)
    }

    /// What [Entry::from_data] returns.
    pub open spec fn parsed(data: Seq<u8>) -> Result<Entry, EntryError> {
        Entry::decoded(data, Entry::time_representable(data))
    }

    /// Decode a history record, given whether the calendar reaches the start
    /// time that it holds.
    pub fn decode(data: &[u8], representable: bool) -> (r: Result<Entry, EntryError>)
        ensures
            r == Entry::decoded(data@, representable),
    {
        if data.len() < 17 {
            return Err(EntryError::TooShort);
        }
        let id: u32 = get_u32(data, 0);
        let facet: u8 = get_u8(data, 4);
        let start_time: u64 = get_u64(data, 5);
        let duration: u32 = get_u32(data, 13);

        if id == 0 && facet == 0 && start_time == 0 && duration == 0 {
            return Err(EntryError::EndOfHistory);
        }
        let (facet, pause) = match facet_with_pause(facet) {
            Ok(side) => side,
            Err(e) => return Err(EntryError::InvalidFacet(e)),
        };
        match Timestamp::lift(start_time, representable) {
            Some(time) => Ok(Entry { id, facet, pause, time, duration }),
            None => Err(EntryError::InvalidTimestamp(start_time)),
        }
    }

    /// Construct an [Entry] from the data read from the history
    /// characteristic.
    pub fn from_data(data: &[u8]) -> (r: Result<Entry, EntryError>)
        ensures
            r == Entry::parsed(data@),
    {
        let representable = data.len() >= 17 && raw_time_is_representable(get_u64(data, 5));
        Entry::decode(data, representable)
    }

    /// A record of zero bytes alone, 17 of them or more, is the marker that
    /// ends the history, whatever the calendar reaches.
    pub proof fn lemma_zero_record_ends_history(data: Seq<u8>)
        requires
            data.len() >= 17,
            forall|i: int| 0 <= i < 17 ==> data[i] == 0,
        ensures
            Entry::parsed(data) == Err::<Entry, EntryError>(EntryError::EndOfHistory),
    {
    }

    /// No entry has all of id, facet byte, start time and duration zero: a
    /// record that decodes to an entry is not the end marker.
    pub proof fn lemma_entry_is_no_end_marker(data: Seq<u8>, representable: bool)
        requires
            Entry::decoded(data, representable) is Ok,
        ensures
            !(be32_at(data, 0) == 0 && data[4] == 0 && be64_at(data, 5) == 0 && be32_at(data, 13)
                == 0),
            1 <= facet_index_of(data[4]) <= 12,
    {
    }
}

/// The bytes that ask for the entry with the given id.
pub open spec fn read_request(id: u32) -> Seq<u8> {
    seq![0x01u8] + be32(id)
}

/// The bytes that ask for all entries from the given id on.
pub open spec fn stream_request(id: u32) -> Seq<u8> {
    seq![0x02u8] + be32(id)
}

/// The request for a single history entry, to be written to the history
/// characteristic. [LAST_ENTRY] asks for the most recent one.
pub fn history_read_request(id: u32) -> (data: Vec<u8>)
    ensures
        data@ == read_request(id),
{
    let mut data: Vec<u8> = Vec::with_capacity(5);
    put_u8(&mut data, 0x01);
    put_u32(&mut data, id);
    assert(data@ =~= read_request(id));
    data
}

/// The request for the history entries from `id` on, to be written to the
/// history characteristic once its notifications are subscribed to.
pub fn history_stream_request(id: u32) -> (data: Vec<u8>)
    ensures
        data@ == stream_request(id),
{
    let mut data: Vec<u8> = Vec::with_capacity(5);
    put_u8(&mut data, 0x02);
    put_u32(&mut data, id);
    assert(data@ =~= stream_request(id));
    data
}

} // verus!
