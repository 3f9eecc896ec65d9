//! Collecting the history that the TimeFlip2 streams as notifications.
//!
//! The caller subscribes to the history characteristic, writes the stream
//! request, and hands each notification to [history_step] until it says
//! that the history has ended; then it stops the subscription.

use crate::timeflip::event::{same_handle, BluetoothEvent};
use crate::timeflip::history::{Entry, EntryError};
use crate::timeflip::{DataFault, Error};
use vstd::prelude::*;

verus! {

/// What one notification adds to the history that is collected.
pub enum HistoryItem {
    /// An entry, which is collected.
    Entry(Entry),
    /// A record that does not decode, which is skipped; holds why.
    Skip(EntryError),
    /// The marker that ends the history.
    End,
    /// An event that does not belong to the stream, which fails the
    /// collection.
    Fail(DataFault),
}

/// What one notification adds to the history that is collected from the
/// characteristic with the given handle.
pub open spec fn history_item(event: BluetoothEvent, history: Seq<u8>) -> HistoryItem {
    match event {
        BluetoothEvent::Value { id, value } => if id@ != history {
            HistoryItem::Fail(DataFault::WrongCharacteristic)
        } else {
            match Entry::parsed(value@) {
                Ok(entry) => HistoryItem::Entry(entry),
                Err(EntryError::EndOfHistory) => HistoryItem::End,
                Err(e) => HistoryItem::Skip(e),
            }
        },
        _ => HistoryItem::Fail(DataFault::UnexpectedEvent),
    }
}

/// Whether the collection goes on after a notification.
#[derive(Debug, Clone, Copy, PartialEq, Eq)]
pub enum HistoryStep {
    /// An entry was collected; more notifications are to be taken.
    Collected,
    /// The record did not decode and was skipped, for the reason held; more
    /// notifications are to be taken.
    Skipped(EntryError),
    /// The history has ended: the subscription is to be stopped and the
    /// entries are complete.
    Finished,
}

/// Take one notification of the history characteristic: collect the entry
/// that it decodes to, skip it where it decodes to none, and say where the
/// history ends.
pub fn history_step(entries: &mut Vec<Entry>, event: &BluetoothEvent, history: &Vec<u8>) -> (r:
    Result<HistoryStep, Error>)
    ensures
        match history_item(*event, history@) {
            HistoryItem::Entry(entry) => r == Ok::<HistoryStep, Error>(HistoryStep::Collected)
                && final(entries)@ == old(entries)@.push(entry),
            HistoryItem::Skip(e) => r == Ok::<HistoryStep, Error>(HistoryStep::Skipped(e))
                && final(entries)@ == old(entries)@,
            HistoryItem::End => r == Ok::<HistoryStep, Error>(HistoryStep::Finished)
                && final(entries)@ == old(entries)@,
            HistoryItem::Fail(fault) => r == Err::<HistoryStep, Error>(
                Error::InvalidCharacteristicData(fault),
            ) && final(entries)@ == old(entries)@,
        },
{
    match event {
        BluetoothEvent::Value { id, value } => {
            if !same_handle(id, history) {
                return Err(Error::InvalidCharacteristicData(DataFault::WrongCharacteristic));
            }
            match Entry::from_data(value.as_slice()) {
                Ok(entry) => {
                    entries.push(entry);
                    Ok(HistoryStep::Collected)
                },
                Err(EntryError::EndOfHistory) => Ok(HistoryStep::Finished),
                Err(e) => Ok(HistoryStep::Skipped(e)),
            }
        },
        _ => Err(Error::InvalidCharacteristicData(DataFault::UnexpectedEvent)),
    }
}

/// The history that the notifications from place `from` on add to the
/// entries collected so far: entries in the order of their delivery, up to
/// the first end marker or the end of the notifications.
pub open spec fn collected_from(
    events: Seq<BluetoothEvent>,
    history: Seq<u8>,
    from: int,
    so_far: Seq<Entry>,
) -> Result<Seq<Entry>, Error>
    decreases events.len() - from,
{
    if from < 0 || from >= events.len() {
        Ok(so_far)
    } else {
        match history_item(events[from], history) {
            HistoryItem::Entry(entry) => collected_from(
                events,
                history,
                from + 1,
                so_far.push(entry),
            ),
            HistoryItem::Skip(_) => collected_from(events, history, from + 1, so_far),
            HistoryItem::End => Ok(so_far),
            HistoryItem::Fail(fault) => Err(Error::InvalidCharacteristicData(fault)),
        }
    }
}

/// The history that a run of notifications holds.
pub open spec fn collected(events: Seq<BluetoothEvent>, history: Seq<u8>) -> Result<
    Seq<Entry>,
    Error,
> {
    collected_from(events, history, 0, Seq::empty())
}

/// Collect the history from notifications that were delivered in this
/// order. What follows the end marker is not looked at.
pub fn collect_history(events: &Vec<BluetoothEvent>, history: &Vec<u8>) -> (r: Result<
    Vec<Entry>,
    Error,
>)
    ensures
        match collected(events@, history@) {
            Ok(entries) => r is Ok && r->Ok_0@ == entries,
            Err(e) => r == Err::<Vec<Entry>, Error>(e),
        },
{
    let mut entries: Vec<Entry> = Vec::new();
    let mut i: usize = 0;
    while i < events.len()
        invariant
            i <= events@.len(),
            collected_from(events@, history@, i as int, entries@) == collected(
                events@,
                history@,
            ),
        decreases events@.len() - i,
    {
        match history_step(&mut entries, &events[i], history) {
            Ok(HistoryStep::Collected) => {},
            Ok(HistoryStep::Skipped(_)) => {},
            Ok(HistoryStep::Finished) => {
                return Ok(entries);
            },
            Err(e) => {
                return Err(e);
            },
        }
        i += 1;
    }
    Ok(entries)
}

/// The entries collected are delivered entries: each decodes from one of
/// the notifications, and none from the end marker on.
pub proof fn lemma_collected_are_delivered(
    events: Seq<BluetoothEvent>,
    history: Seq<u8>,
    from: int,
    so_far: Seq<Entry>,
    k: int,
)
    requires
        0 <= from,
        collected_from(events, history, from, so_far) is Ok,
        so_far.len() <= k < collected_from(events, history, from, so_far)->Ok_0.len(),
    ensures
        exists|i: int|
            from <= i < events.len() && history_item(#[trigger] events[i], history)
                == HistoryItem::Entry(collected_from(events, history, from, so_far)->Ok_0[k]),
    decreases events.len() - from,
{
    if from < events.len() {
        match history_item(events[from], history) {
            HistoryItem::Entry(entry) => {
                if k == so_far.len() {
                    lemma_collected_keeps(events, history, from + 1, so_far.push(entry), k);
                } else {
                    lemma_collected_are_delivered(
                        events,
                        history,
                        from + 1,
                        so_far.push(entry),
                        k,
                    );
                }
            },
            HistoryItem::Skip(_) => {
                lemma_collected_are_delivered(events, history, from + 1, so_far, k);
            },
            _ => {},
        }
    }
}

/// Collecting goes on behind what was collected so far, which stays as it
/// is.
pub proof fn lemma_collected_keeps(
    events: Seq<BluetoothEvent>,
    history: Seq<u8>,
    from: int,
    so_far: Seq<Entry>,
    k: int,
)
    requires
        0 <= from,
        collected_from(events, history, from, so_far) is Ok,
        0 <= k < so_far.len(),
    ensures
        so_far.len() <= collected_from(events, history, from, so_far)->Ok_0.len(),
        collected_from(events, history, from, so_far)->Ok_0[k] == so_far[k],
    decreases events.len() - from,
{
    if from < events.len() {
        match history_item(events[from], history) {
            HistoryItem::Entry(entry) => {
                lemma_collected_keeps(events, history, from + 1, so_far.push(entry), k);
            },
            HistoryItem::Skip(_) => {
                lemma_collected_keeps(events, history, from + 1, so_far, k);
            },
            _ => {},
        }
    }
}

} // verus!
