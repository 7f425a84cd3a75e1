//! The entries of a room list.

use vstd::prelude::*;

verus! {

/// An entry of a room list as the server describes it.
#[derive(Debug)]
pub enum RoomListEntry {
    /// No room is known for the place.
    Empty,
    /// The room that stood there may have changed.
    Invalidated(String),
    /// The room that stands there.
    Filled(String),
}

/// An entry of a room list by its kind alone.
#[derive(Clone, Copy, Debug, PartialEq, Eq, Structural)]
pub enum RoomListEntryEasy {
    Empty,
    Invalid,
    Filled,
}

/// The kind of an entry.
pub open spec fn kind_of(entry: RoomListEntry) -> RoomListEntryEasy {
    match entry {
        RoomListEntry::Empty => RoomListEntryEasy::Empty,
        RoomListEntry::Invalidated(_) => RoomListEntryEasy::Invalid,
        RoomListEntry::Filled(_) => RoomListEntryEasy::Filled,
    }
}

/// The kind of an entry.
pub fn easy(entry: &RoomListEntry) -> (r: RoomListEntryEasy)
    ensures
        r == kind_of(*entry),
{
    match entry {
        RoomListEntry::Empty => RoomListEntryEasy::Empty,
        RoomListEntry::Invalidated(_) => RoomListEntryEasy::Invalid,
        RoomListEntry::Filled(_) => RoomListEntryEasy::Filled,
    }
}

} // verus!
