//! The records that are kept: events and badges.

use crate::identity::Identity;
use crate::ledger::{row_record, EventRow};
use vstd::prelude::*;

verus! {

/// An event as registered. It is written once and never changed.
#[derive(Clone, Debug, PartialEq)]
pub struct EventData {
    /// The caller that registered the event.
    pub owner: Identity,
    pub name: String,
    pub image: String,
    pub description: String,
    /// Seconds since the epoch.
    pub start_time: u64,
    /// Seconds since the epoch.
    pub end_time: u64,
}

/// An event as contracts speak of it: strings by their characters.
pub struct EventRecord {
    pub owner: Seq<char>,
    pub name: Seq<char>,
    pub image: Seq<char>,
    pub description: Seq<char>,
    pub start_time: u64,
    pub end_time: u64,
}

impl View for EventData {
    type V = EventRecord;

    open spec fn view(&self) -> EventRecord {
        EventRecord {
            owner: self.owner@,
            name: self.name@,
            image: self.image@,
            description: self.description@,
            start_time: self.start_time,
            end_time: self.end_time,
        }
    }
}

impl EventData {
    /// The event that a stored row stands for.
    pub fn from_row(row: EventRow) -> (event: EventData)
        ensures
            event@ == row_record(row),
    {
        EventData {
            owner: Identity::unchecked(row.0.as_str()),
            name: row.1,
            image: row.2,
            description: row.3,
            start_time: row.4,
            end_time: row.5,
        }
    }

    /// The row under which the event is stored.
    pub fn to_row(&self) -> (row: EventRow)
        ensures
            row_record(row) == self@,
    {
        (
            self.owner.as_str().to_owned(),
            self.name.clone(),
            self.image.clone(),
            self.description.clone(),
            self.start_time,
            self.end_time,
        )
    }
}

/// What a badge records beyond its event and its attendee.
#[derive(Clone, Debug, PartialEq)]
pub struct BadgeData {
    pub was_late: bool,
}

} // verus!
