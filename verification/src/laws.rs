//! Laws of the system: what holds of every run of the operations, proved from
//! what the operations owe.

use crate::contract::{
    attendees_listed, badges_listed, event_read, events_listed, host_failed, minting_done,
    refused_as, registration_done, seen,
};
use crate::error::{ContractError, ErrorKind};
use crate::ledger::{
    address_refusal, event_not_found, fits_key_frame, readable, valid_addresses, Ledger,
};
use crate::msg::{
    GetEventResponse, ListAllEventsResponse, ListAttendeesResponse, ListMyBadgesResponse,
};
use crate::order::{listing_counts_all, listing_is_unique, lists, under};
use crate::receipt::{minting_receipt, registration_receipt, Receipt, ReceiptView};
use crate::registry::{broken_rule, minter_refused};
use crate::state::EventRecord;
use cosmwasm_std::StdError;
use vstd::prelude::*;

verus! {

/// A request that breaks no rule registers a free name: on a readable ledger
/// it succeeds, puts the event under its name with the caller as owner, and
/// changes nothing else.
pub proof fn valid_registration_succeeds(
    pre: Ledger,
    post: Ledger,
    res: Result<Receipt, ContractError>,
    now: u64,
    sender: Seq<char>,
    name: Seq<char>,
    image: Seq<char>,
    description: Seq<char>,
    start_time: u64,
    end_time: u64,
)
    requires
        registration_done(
            pre,
            post,
            res,
            now,
            sender,
            name,
            image,
            description,
            start_time,
            end_time,
        ),
        readable(pre),
        !pre@.events.contains_key(name),
        broken_rule(now, name, image, start_time, end_time) is None,
    ensures
        seen(res) == Ok::<ReceiptView, ErrorKind>(registration_receipt(name)),
        post@.events == pre@.events.insert(
            name,
            EventRecord { owner: sender, name, image, description, start_time, end_time },
        ),
        post@.attendees == pre@.attendees,
        post@.badges == pre@.badges,
        readable(post),
{
}

/// An event that was registered reads back as it was given: where a
/// registration succeeded, a read of the event's name on the ledger that it
/// left succeeds, and answers with the caller as owner and with the name,
/// image, description and times of the request.
pub proof fn registered_event_reads_back(
    pre: Ledger,
    post: Ledger,
    written: Result<Receipt, ContractError>,
    now: u64,
    sender: Seq<char>,
    name: Seq<char>,
    image: Seq<char>,
    description: Seq<char>,
    start_time: u64,
    end_time: u64,
    read: Result<GetEventResponse, StdError>,
)
    requires
        registration_done(
            pre,
            post,
            written,
            now,
            sender,
            name,
            image,
            description,
            start_time,
            end_time,
        ),
        written is Ok,
        event_read(post, name, read),
    ensures
        read matches Ok(response) && response@ == (EventRecord {
            owner: sender,
            name,
            image,
            description,
            start_time,
            end_time,
        }),
{
}

/// A name is registered once: where a registration succeeded, every further
/// registration of that name, whoever asks and whatever else it says, is
/// refused as `EventAlreadyRegistered` and leaves what is kept as it was.
pub proof fn second_registration_is_refused(
    pre: Ledger,
    between: Ledger,
    post: Ledger,
    first: Result<Receipt, ContractError>,
    second: Result<Receipt, ContractError>,
    name: Seq<char>,
    now: u64,
    sender: Seq<char>,
    image: Seq<char>,
    description: Seq<char>,
    start_time: u64,
    end_time: u64,
    again_now: u64,
    again_sender: Seq<char>,
    again_image: Seq<char>,
    again_description: Seq<char>,
    again_start_time: u64,
    again_end_time: u64,
)
    requires
        registration_done(
            pre,
            between,
            first,
            now,
            sender,
            name,
            image,
            description,
            start_time,
            end_time,
        ),
        first is Ok,
        registration_done(
            between,
            post,
            second,
            again_now,
            again_sender,
            name,
            again_image,
            again_description,
            again_start_time,
            again_end_time,
        ),
    ensures
        refused_as(second, ErrorKind::EventAlreadyRegistered),
        post@ == between@,
{
}

/// A badge is minted for an event that is there: a request to mint a badge of
/// an event that is not kept fails on the host's side and writes nothing; on a
/// readable ledger the failure is the store's not-found failure of the event.
pub proof fn missing_event_is_not_found(
    pre: Ledger,
    post: Ledger,
    res: Result<Receipt, ContractError>,
    now: u64,
    sender: Seq<char>,
    event: Seq<char>,
    attendee: Seq<char>,
    was_late: bool,
)
    requires
        minting_done(pre, post, res, now, sender, event, attendee, was_late),
        !pre@.events.contains_key(event),
    ensures
        host_failed(res),
        post@ == pre@,
        readable(pre) ==> refused_as(res, ErrorKind::Std(event_not_found(event))),
{
}

/// Only the owner mints: a request to mint a badge of an event that is there,
/// from anyone but its owner, is refused as `Unauthorized` and writes nothing;
/// if the event had no attendees, a listing of them on the ledger that the
/// request left is still empty.
pub proof fn stranger_mints_nothing(
    pre: Ledger,
    post: Ledger,
    res: Result<Receipt, ContractError>,
    now: u64,
    sender: Seq<char>,
    event: Seq<char>,
    attendee: Seq<char>,
    was_late: bool,
    listed: Result<ListAttendeesResponse, StdError>,
)
    requires
        minting_done(pre, post, res, now, sender, event, attendee, was_late),
        pre@.events.contains_key(event),
        sender != pre@.events[event].owner,
        attendees_listed(post, event, listed),
    ensures
        refused_as(res, ErrorKind::Unauthorized),
        post@ == pre@,
        (forall|other: Seq<char>| !pre@.attendees.contains_key((event, other))) ==> (
        listed matches Ok(response) ==> response.attendees@.len() == 0),
{
    if let Ok(response) = listed {
        if forall|other: Seq<char>| !pre@.attendees.contains_key((event, other)) {
            let rows = response.attendees.deep_view();
            if rows.len() > 0 {
                assert(pre@.attendees.contains_key((event, rows[0].0)));
            }
        }
    }
}

/// The host is asked about the attendee: a minting succeeds only for an
/// address that the host finds valid, and where the owner asks within the
/// window for any other address, the request is refused with the host's
/// refusal of that address and writes nothing.
pub proof fn refused_address_gets_no_badge(
    pre: Ledger,
    post: Ledger,
    res: Result<Receipt, ContractError>,
    now: u64,
    sender: Seq<char>,
    event: Seq<char>,
    attendee: Seq<char>,
    was_late: bool,
)
    requires
        minting_done(pre, post, res, now, sender, event, attendee, was_late),
    ensures
        res is Ok ==> valid_addresses(pre).contains(attendee),
        pre@.events.contains_key(event) && minter_refused(pre@.events[event], now, sender) is None
            && !valid_addresses(pre).contains(attendee) ==> refused_as(
            res,
            ErrorKind::Std(address_refusal(pre, attendee)),
        ) && post@ == pre@,
{
}

/// The owner's request within the window mints a first badge: for an event
/// that is there, an address that the host finds valid, keys that the storage
/// can frame and an attendee without a badge of the event, on a readable
/// ledger, it succeeds, puts the badge with its flag into both indexes, and
/// changes nothing else.
pub proof fn valid_minting_succeeds(
    pre: Ledger,
    post: Ledger,
    res: Result<Receipt, ContractError>,
    now: u64,
    sender: Seq<char>,
    event: Seq<char>,
    attendee: Seq<char>,
    was_late: bool,
)
    requires
        minting_done(pre, post, res, now, sender, event, attendee, was_late),
        readable(pre),
        pre@.events.contains_key(event),
        minter_refused(pre@.events[event], now, sender) is None,
        valid_addresses(pre).contains(attendee),
        fits_key_frame(event),
        fits_key_frame(attendee),
        !pre@.attendees.contains_key((event, attendee)),
    ensures
        seen(res) == Ok::<ReceiptView, ErrorKind>(minting_receipt(event, attendee)),
        post@.events == pre@.events,
        post@.attendees == pre@.attendees.insert((event, attendee), was_late),
        post@.badges == pre@.badges.insert((attendee, event), was_late),
        readable(post),
{
}

/// The minting window includes both its ends. On a well-formed ledger, the
/// owner's request is refused as `EventNotStarted` one second before the start
/// and as `EventAlreadyOver` one second after the end, for any attendee. At
/// the start time and at the end time it succeeds, if the ledger is readable
/// and the request is for a first badge of an attendee whose address the host
/// finds valid and the storage can frame.
pub proof fn minting_window_is_inclusive(
    pre: Ledger,
    post: Ledger,
    res: Result<Receipt, ContractError>,
    now: u64,
    event: Seq<char>,
    attendee: Seq<char>,
    was_late: bool,
)
    requires
        pre@.well_formed(),
        pre@.events.contains_key(event),
        minting_done(pre, post, res, now, pre@.events[event].owner, event, attendee, was_late),
    ensures
        ({
            &&& now == pre@.events[event].start_time || now == pre@.events[event].end_time
            &&& readable(pre)
            &&& valid_addresses(pre).contains(attendee)
            &&& fits_key_frame(attendee)
            &&& !pre@.attendees.contains_key((event, attendee))
        }) ==> res is Ok,
        now == pre@.events[event].start_time - 1 ==> refused_as(res, ErrorKind::EventNotStarted),
        now == pre@.events[event].end_time + 1 ==> refused_as(res, ErrorKind::EventAlreadyOver),
{
}

/// One badge for each attendee of an event: where a minting succeeded, the
/// same caller's every further request within the window to mint a badge of
/// that event for that attendee is refused as `BadgeAlreadyIssued` and leaves
/// what is kept as it was, with the flag of the first badge.
pub proof fn second_badge_is_refused(
    pre: Ledger,
    between: Ledger,
    post: Ledger,
    first: Result<Receipt, ContractError>,
    second: Result<Receipt, ContractError>,
    sender: Seq<char>,
    event: Seq<char>,
    attendee: Seq<char>,
    now: u64,
    was_late: bool,
    again_now: u64,
    again_was_late: bool,
)
    requires
        minting_done(pre, between, first, now, sender, event, attendee, was_late),
        first is Ok,
        minting_done(between, post, second, again_now, sender, event, attendee, again_was_late),
        pre@.events[event].start_time <= again_now <= pre@.events[event].end_time,
    ensures
        refused_as(second, ErrorKind::BadgeAlreadyIssued),
        post@ == between@,
        post@.attendees[(event, attendee)] == was_late,
        post@.badges[(attendee, event)] == was_late,
{
}

/// A badge is written to both indexes together: a minting that succeeded put
/// the badge, with the flag it was given, under its event and attendee and
/// under its attendee and event, and changed nothing else.
pub proof fn minted_badge_is_in_both_indexes(
    pre: Ledger,
    post: Ledger,
    res: Result<Receipt, ContractError>,
    now: u64,
    sender: Seq<char>,
    event: Seq<char>,
    attendee: Seq<char>,
    was_late: bool,
)
    requires
        minting_done(pre, post, res, now, sender, event, attendee, was_late),
        res is Ok,
    ensures
        post@.events == pre@.events,
        post@.attendees == pre@.attendees.insert((event, attendee), was_late),
        post@.badges == pre@.badges.insert((attendee, event), was_late),
{
}

/// A badge that was minted is listed both ways: on the ledger that a minting
/// left which succeeded, a listing of the event's attendees holds the
/// attendee, and a listing of the attendee's badges holds the event, each with
/// the flag that the badge was given. Where that ledger is readable, both
/// listings succeed.
pub proof fn minted_badge_is_listed(
    pre: Ledger,
    post: Ledger,
    res: Result<Receipt, ContractError>,
    now: u64,
    sender: Seq<char>,
    event: Seq<char>,
    attendee: Seq<char>,
    was_late: bool,
    by_event: Result<ListAttendeesResponse, StdError>,
    by_attendee: Result<ListMyBadgesResponse, StdError>,
)
    requires
        minting_done(pre, post, res, now, sender, event, attendee, was_late),
        res is Ok,
        attendees_listed(post, event, by_event),
        badges_listed(post, attendee, by_attendee),
    ensures
        by_event matches Ok(response) ==> response.attendees.deep_view().contains(
            (attendee, was_late),
        ),
        by_attendee matches Ok(response) ==> response.badges.deep_view().contains(
            (event, was_late),
        ),
        readable(post) ==> by_event is Ok && by_attendee is Ok,
{
    if let Ok(response) = by_event {
        let rows = response.attendees.deep_view();
        assert(under(post@.attendees, event).contains_key(attendee));
        let i = choose|i: int| 0 <= i < rows.len() && (#[trigger] rows[i]).0 == attendee;
        assert(under(post@.attendees, event).contains_pair(rows[i].0, rows[i].1));
        assert(rows[i] == (attendee, was_late));
    }
    if let Ok(response) = by_attendee {
        let rows = response.badges.deep_view();
        assert(under(post@.badges, attendee).contains_key(event));
        let i = choose|i: int| 0 <= i < rows.len() && (#[trigger] rows[i]).0 == event;
        assert(under(post@.badges, attendee).contains_pair(rows[i].0, rows[i].1));
        assert(rows[i] == (event, was_late));
    }
}

/// Where no event is kept, a listing of the events is empty; on a ledger that
/// is readable it is no failure.
pub proof fn no_events_none_listed(
    ledger: Ledger,
    listed: Result<ListAllEventsResponse, StdError>,
)
    requires
        forall|name: Seq<char>| !ledger@.events.contains_key(name),
        events_listed(ledger, listed),
    ensures
        listed matches Ok(response) ==> response.events@.len() == 0,
        readable(ledger) ==> listed is Ok,
{
    if let Ok(response) = listed {
        let rows = choose|rows: Seq<(Seq<char>, EventRecord)>|
            lists(rows, ledger@.events) && response.events.deep_view() == rows.map_values(
                |row: (Seq<char>, EventRecord)| row.1,
            );
        if rows.len() > 0 {
            assert(ledger@.events.contains_key(rows[0].0));
        }
        assert(response.events.deep_view().len() == response.events@.len());
    }
}

/// What is kept settles the listing of the events: it holds as many events as
/// are kept, and two listings of one ledger hold the same events in the same
/// order.
pub proof fn events_listing_is_settled(
    ledger: Ledger,
    first: Result<ListAllEventsResponse, StdError>,
    second: Result<ListAllEventsResponse, StdError>,
)
    requires
        events_listed(ledger, first),
        events_listed(ledger, second),
    ensures
        first matches Ok(one) ==> ledger@.events.dom().finite() && one.events@.len()
            == ledger@.events.dom().len(),
        first matches Ok(one) ==> (second matches Ok(other) ==> one.events.deep_view()
            == other.events.deep_view()),
{
    if let Ok(one) = first {
        let rows = choose|rows: Seq<(Seq<char>, EventRecord)>|
            lists(rows, ledger@.events) && one.events.deep_view() == rows.map_values(
                |row: (Seq<char>, EventRecord)| row.1,
            );
        listing_counts_all(rows, ledger@.events);
        assert(one.events.deep_view().len() == one.events@.len());
        if let Ok(other) = second {
            let more = choose|more: Seq<(Seq<char>, EventRecord)>|
                lists(more, ledger@.events) && other.events.deep_view() == more.map_values(
                    |row: (Seq<char>, EventRecord)| row.1,
                );
            listing_is_unique(rows, more, ledger@.events);
        }
    }
}

/// Registering keeps a well-formed ledger well-formed, whether the request
/// succeeds or not.
pub proof fn registering_keeps_well_formed(
    pre: Ledger,
    post: Ledger,
    res: Result<Receipt, ContractError>,
    now: u64,
    sender: Seq<char>,
    name: Seq<char>,
    image: Seq<char>,
    description: Seq<char>,
    start_time: u64,
    end_time: u64,
)
    requires
        pre@.well_formed(),
        registration_done(
            pre,
            post,
            res,
            now,
            sender,
            name,
            image,
            description,
            start_time,
            end_time,
        ),
    ensures
        post@.well_formed(),
{
}

/// Minting keeps a well-formed ledger well-formed, whether the request
/// succeeds or not: the two indexes of badges never part.
pub proof fn minting_keeps_well_formed(
    pre: Ledger,
    post: Ledger,
    res: Result<Receipt, ContractError>,
    now: u64,
    sender: Seq<char>,
    event: Seq<char>,
    attendee: Seq<char>,
    was_late: bool,
)
    requires
        pre@.well_formed(),
        minting_done(pre, post, res, now, sender, event, attendee, was_late),
    ensures
        post@.well_formed(),
{
}

} // verus!
