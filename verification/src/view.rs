//! Selecting and merging history entries for display and for keeping.
//!
//! What is shown where, and in which words, is left to the caller.

pub mod table;

use crate::time::Timestamp;
use crate::timeflip::history::Entry;
use vstd::prelude::*;

verus! {

/// Hours, minutes and seconds of a duration given in seconds. The hours are
/// not wrapped at a day.
pub open spec fn clock_of(seconds: u64) -> (u64, u64, u64) {
    (seconds / 3600, (seconds / 60 % 60) as u64, seconds % 60)
}

/// Split a duration given in seconds into the hours, minutes and seconds
/// that a clock shows for it.
pub fn clock(seconds: u64) -> (r: (u64, u64, u64))
    ensures
        r == clock_of(seconds),
        r.1 < 60,
        r.2 < 60,
        r.0 * 3600 + r.1 * 60 + r.2 == seconds,
{
    (seconds / 3600, (seconds / 60) % 60, seconds % 60)
}

/// Whether an entry counts as activity after the given time: it is no
/// pause and it started later.
pub open spec fn active_since(entry: Entry, date: Timestamp) -> bool {
    !entry.pause && entry.time.0 > date.0
}

/// The entries that count as activity after the given time, in the order
/// they are in.
pub fn since(entries: &Vec<Entry>, date: Timestamp) -> (r: Vec<Entry>)
    ensures
        r@ == entries@.filter(|entry: Entry| active_since(entry, date)),
{
    let mut selected: Vec<Entry> = Vec::new();
    let mut i: usize = 0;
    while i < entries.len()
        invariant
            i <= entries@.len(),
            selected@ == entries@.take(i as int).filter(|entry: Entry| active_since(entry, date)),
        decreases entries@.len() - i,
    {
        let entry = entries[i];
        proof {
            assert(entries@.take(i + 1) =~= entries@.take(i as int).push(entry));
            filter_push(entries@.take(i as int), entry, date);
        }
        if !entry.pause && entry.time.0 > date.0 {
            selected.push(entry);
        }
        i += 1;
    }
    assert(entries@.take(i as int) =~= entries@);
    selected
}

/// Filtering a sequence with one more entry filters the sequence and then
/// looks at the entry.
proof fn filter_push(entries: Seq<Entry>, entry: Entry, date: Timestamp)
    ensures
        entries.push(entry).filter(|e: Entry| active_since(e, date)) == if active_since(
            entry,
            date,
        ) {
            entries.filter(|e: Entry| active_since(e, date)).push(entry)
        } else {
            entries.filter(|e: Entry| active_since(e, date))
        },
{
    reveal(Seq::filter);
    assert(entries.push(entry).drop_last() =~= entries);
}

/// Whether one of the entries has the given id.
pub open spec fn has_id(entries: Seq<Entry>, id: u32) -> bool {
    exists|i: int| 0 <= i < entries.len() && (#[trigger] entries[i]).id == id
}

/// Whether one of the entries has the given id.
pub fn contains_id(entries: &Vec<Entry>, id: u32) -> (r: bool)
    ensures
        r == has_id(entries@, id),
{
    let mut i: usize = 0;
    while i < entries.len()
        invariant
            i <= entries@.len(),
            forall|k: int| 0 <= k < i ==> (#[trigger] entries@[k]).id != id,
        decreases entries@.len() - i,
    {
        if entries[i].id == id {
            return true;
        }
        i += 1;
    }
    false
}

/// The id from which the history is to be read on, given the entries that
/// are kept already: the highest id among them, or 0 where there are none.
pub fn resume_id(stored: &Vec<Entry>) -> (r: u32)
    ensures
        forall|i: int| 0 <= i < stored@.len() ==> (#[trigger] stored@[i]).id <= r,
        stored@.len() == 0 ==> r == 0,
        stored@.len() > 0 ==> has_id(stored@, r),
{
    let mut highest: u32 = 0;
    let mut i: usize = 0;
    while i < stored.len()
        invariant
            i <= stored@.len(),
            forall|k: int| 0 <= k < i ==> (#[trigger] stored@[k]).id <= highest,
            i == 0 ==> highest == 0,
            i > 0 ==> exists|k: int| 0 <= k < i && (#[trigger] stored@[k]).id == highest,
        decreases stored@.len() - i,
    {
        if i == 0 || stored[i].id > highest {
            highest = stored[i].id;
        }
        i += 1;
    }
    highest
}

/// Bring newly read entries into the entries that are kept: a kept entry
/// gives way to a new one with its id, and the new ones follow the kept
/// ones that stay, each in the order it was in.
pub fn merge(stored: &Vec<Entry>, update: &Vec<Entry>) -> (r: Vec<Entry>)
    ensures
        r@ == stored@.filter(|entry: Entry| !has_id(update@, entry.id)) + update@,
{
    let mut merged: Vec<Entry> = Vec::new();
    let mut i: usize = 0;
    while i < stored.len()
        invariant
            i <= stored@.len(),
            merged@ == stored@.take(i as int).filter(|entry: Entry| !has_id(update@, entry.id)),
        decreases stored@.len() - i,
    {
        let entry = stored[i];
        proof {
            assert(stored@.take(i + 1) =~= stored@.take(i as int).push(entry));
            reveal(Seq::filter);
            assert(stored@.take(i as int).push(entry).drop_last() =~= stored@.take(i as int));
        }
        if !contains_id(update, entry.id) {
            merged.push(entry);
        }
        i += 1;
    }
    assert(stored@.take(i as int) =~= stored@);
    let mut j: usize = 0;
    while j < update.len()
        invariant
            j <= update@.len(),
            merged@ == stored@.filter(|entry: Entry| !has_id(update@, entry.id)) + update@.take(
                j as int,
            ),
        decreases update@.len() - j,
    {
        merged.push(update[j]);
        assert(update@.take(j + 1) =~= update@.take(j as int).push(update@[j as int]));
        j += 1;
    }
    assert(update@.take(j as int) =~= update@);
    merged
}

} // verus!
