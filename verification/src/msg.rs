//! Commands, queries and the answers to queries.

use crate::ledger::{keyed_records, EventRow};
use crate::state::{EventData, EventRecord};
use vstd::prelude::*;

verus! {

/// Nothing is needed to set the contract up.
#[derive(Clone, Debug, PartialEq)]
pub struct InstantiateMsg {}

/// A command: it changes what is kept.
#[derive(Clone, Debug, PartialEq)]
pub enum ExecuteMsg {
    RegisterEvent {
        name: String,
        image: String,
        description: String,
        start_time: u64,
        end_time: u64,
    },
    MintBadge {
        event: String,
        attendee: String,
        was_late: bool,
    },
}

/// A query: it reads what is kept.
#[derive(Clone, Debug, PartialEq)]
pub enum QueryMsg {
    GetEvent { name: String },
    ListAllEvents {},
    ListAttendees { name: String },
    ListMyBadges { attendee: String },
}

/// An event as the public sees it.
#[derive(Clone, Debug, PartialEq)]
pub struct GetEventResponse {
    pub owner: String,
    pub name: String,
    pub image: String,
    pub description: String,
    pub start_time: u64,
    pub end_time: u64,
}

impl View for GetEventResponse {
    type V = EventRecord;

    open spec fn view(&self) -> EventRecord {
        EventRecord {
            owner: self.owner@,
            name: self.name@,
            image: self.image@,
            description: self.description@,
            start_time: self.start_time,
            end_time: self.end_time,
        }
    }
}

impl DeepView for GetEventResponse {
    type V = EventRecord;

    open spec fn deep_view(&self) -> EventRecord {
        self@
    }
}

impl From<EventData> for GetEventResponse {
    fn from(evt: EventData) -> (response: GetEventResponse)
        ensures
            response@ == evt@,
    {
        GetEventResponse {
            owner: evt.owner.into_string(),
            name: evt.name,
            image: evt.image,
            description: evt.description,
            start_time: evt.start_time,
            end_time: evt.end_time,
        }
    }
}

impl vstd::std_specs::convert::FromSpecImpl<EventData> for GetEventResponse {
    open spec fn obeys_from_spec() -> bool {
        true
    }

    open spec fn from_spec(evt: EventData) -> GetEventResponse {
        GetEventResponse {
            owner: evt.owner.text(),
            name: evt.name,
            image: evt.image,
            description: evt.description,
            start_time: evt.start_time,
            end_time: evt.end_time,
        }
    }
}

/// Every event, in ascending order of name.
#[derive(Clone, Debug, PartialEq)]
pub struct ListAllEventsResponse {
    pub events: Vec<GetEventResponse>,
}

impl ListAllEventsResponse {
    /// The events of `rows`, in the order of the rows; the names that they
    /// were kept under are dropped.
    pub fn from_rows(rows: Vec<(String, EventRow)>) -> (response: ListAllEventsResponse)
        ensures
            response.events.deep_view() == keyed_records(rows@).map_values(
                |row: (Seq<char>, EventRecord)| row.1,
            ),
    {
        let mut events: Vec<GetEventResponse> = Vec::new();
        let mut i: usize = 0;
        while i < rows.len()
            invariant
                i <= rows.len(),
                events.len() == i,
                forall|j: int|
                    0 <= j < i ==> (#[trigger] events[j])@ == keyed_records(rows@)[j].1,
            decreases rows.len() - i,
        {
            let row = &rows[i].1;
            let data = EventData::from_row(
                (row.0.clone(), row.1.clone(), row.2.clone(), row.3.clone(), row.4, row.5),
            );
            events.push(GetEventResponse::from(data));
            i += 1;
        }
        assert(events.deep_view() =~= keyed_records(rows@).map_values(
            |row: (Seq<char>, EventRecord)| row.1,
        ));
        ListAllEventsResponse { events }
    }
}

/// The attendees of one event, in ascending order of identity.
#[derive(Clone, Debug, PartialEq)]
pub struct ListAttendeesResponse {
    pub attendees: Vec<Attendee>,
}

impl ListAttendeesResponse {
    /// One attendee for each of `rows`, in the order of the rows.
    pub fn from_rows(rows: Vec<(String, bool)>) -> (response: ListAttendeesResponse)
        ensures
            response.attendees.deep_view() == rows.deep_view(),
    {
        let mut attendees: Vec<Attendee> = Vec::new();
        let mut i: usize = 0;
        while i < rows.len()
            invariant
                i <= rows.len(),
                attendees.len() == i,
                forall|j: int|
                    0 <= j < i ==> (#[trigger] attendees[j]).deep_view() == rows[j].deep_view(),
            decreases rows.len() - i,
        {
            attendees.push(Attendee { attendee: rows[i].0.clone(), was_late: rows[i].1 });
            i += 1;
        }
        assert(attendees.deep_view() =~= rows.deep_view());
        ListAttendeesResponse { attendees }
    }
}

/// An attendee of an event, and whether they were late.
#[derive(Clone, Debug, PartialEq)]
pub struct Attendee {
    pub attendee: String,
    pub was_late: bool,
}

impl DeepView for Attendee {
    type V = (Seq<char>, bool);

    open spec fn deep_view(&self) -> (Seq<char>, bool) {
        (self.attendee@, self.was_late)
    }
}

/// The badges of one attendee, in ascending order of event name.
#[derive(Clone, Debug, PartialEq)]
pub struct ListMyBadgesResponse {
    pub badges: Vec<Badge>,
}

impl ListMyBadgesResponse {
    /// One badge for each of `rows`, in the order of the rows.
    pub fn from_rows(rows: Vec<(String, bool)>) -> (response: ListMyBadgesResponse)
        ensures
            response.badges.deep_view() == rows.deep_view(),
    {
        let mut badges: Vec<Badge> = Vec::new();
        let mut i: usize = 0;
        while i < rows.len()
            invariant
                i <= rows.len(),
                badges.len() == i,
                forall|j: int|
                    0 <= j < i ==> (#[trigger] badges[j]).deep_view() == rows[j].deep_view(),
            decreases rows.len() - i,
        {
            badges.push(Badge { event: rows[i].0.clone(), was_late: rows[i].1 });
            i += 1;
        }
        assert(badges.deep_view() =~= rows.deep_view());
        ListMyBadgesResponse { badges }
    }
}

/// A badge of an attendee: its event, and whether they were late.
#[derive(Clone, Debug, PartialEq)]
pub struct Badge {
    pub event: String,
    pub was_late: bool,
}

impl DeepView for Badge {
    type V = (Seq<char>, bool);

    open spec fn deep_view(&self) -> (Seq<char>, bool) {
        (self.event@, self.was_late)
    }
}

} // verus!
