//! The operations: registering an event, minting a badge, and the queries.
//!
//! Each takes the ledger that the host lends for the call, and what the host
//! knows of the call: the time, in seconds since the epoch, and the identity
//! of the caller. A command that fails leaves the ledger as it found it.

use crate::error::{ContractError, ErrorKind};
use crate::identity::Identity;
use crate::ledger::{
    all_events, attendees_under, badges_under, find_attendee, find_event, fits_key_frame,
    address_refusal, event_not_found, generic_failure, host_kept, keyed_records, load_event,
    readable, save_attendee, save_badge, save_event, valid_addresses, verdict, Ledger,
};
use crate::msg::{
    ExecuteMsg, GetEventResponse, ListAllEventsResponse, ListAttendeesResponse,
    ListMyBadgesResponse, QueryMsg,
};
use crate::order::{lists, under};
use crate::receipt::{Receipt, ReceiptView};
use crate::registry::{broken_rule, key_failure, minter_refused};
use crate::state::{BadgeData, EventData, EventRecord};
use crate::text::{byte_len, is_secure_address};
use cosmwasm_std::StdError;
use vstd::prelude::*;

verus! {

/// The answer of a command as contracts speak of it.
pub open spec fn seen(res: Result<Receipt, ContractError>) -> Result<ReceiptView, ErrorKind> {
    match res {
        Ok(receipt) => Ok(receipt@),
        Err(error) => Err(error@),
    }
}

/// The command was refused for the reason `kind`.
pub open spec fn refused_as(res: Result<Receipt, ContractError>, kind: ErrorKind) -> bool {
    res matches Err(error) && error@ == kind
}

/// The command failed on the host's side.
pub open spec fn host_failed(res: Result<Receipt, ContractError>) -> bool {
    res matches Err(ContractError::Std(_))
}

/// What [`execute_register_event`] owes. The ledger and the answer are those
/// of [`Registry::register`](crate::registry::Registry::register). The one
/// exception is a ledger that is not readable: there the look-up of a free
/// name may fail on the host's side, and the ledger is then as it was.
pub open spec fn registration_done(
    before: Ledger,
    after: Ledger,
    res: Result<Receipt, ContractError>,
    now: u64,
    sender: Seq<char>,
    name: Seq<char>,
    image: Seq<char>,
    description: Seq<char>,
    start_time: u64,
    end_time: u64,
) -> bool {
    let step = before@.register(now, sender, name, image, description, start_time, end_time);
    &&& host_kept(before, after)
    &&& {
        ||| seen(res) == step.result && after@ == step.after
        ||| {
            &&& !readable(before)
            &&& !before@.events.contains_key(name)
            &&& host_failed(res)
            &&& after@ == before@
        }
    }
}

/// What [`execute_mint_badge`] owes. The ledger and the answer are those of
/// [`Registry::mint`](crate::registry::Registry::mint), with what the host says
/// of the attendee's address. The one exception is a ledger that is not
/// readable: there the look-up of an event or of a badge that is not kept may
/// fail on the host's side in its own way, and the ledger is then as it was.
pub open spec fn minting_done(
    before: Ledger,
    after: Ledger,
    res: Result<Receipt, ContractError>,
    now: u64,
    sender: Seq<char>,
    event: Seq<char>,
    attendee: Seq<char>,
    was_late: bool,
) -> bool {
    let step = before@.mint(now, sender, event, attendee, was_late, verdict(before, attendee));
    &&& host_kept(before, after)
    &&& {
        ||| seen(res) == step.result && after@ == step.after
        ||| {
            &&& !readable(before)
            &&& step.result is Ok || !before@.events.contains_key(event)
            &&& host_failed(res)
            &&& after@ == before@
        }
    }
}

/// What [`execute`] owes: what the command in `msg` owes.
pub open spec fn command_done(
    before: Ledger,
    after: Ledger,
    res: Result<Receipt, ContractError>,
    now: u64,
    sender: Seq<char>,
    msg: ExecuteMsg,
) -> bool {
    match msg {
        ExecuteMsg::RegisterEvent { name, image, description, start_time, end_time } => {
            registration_done(
                before,
                after,
                res,
                now,
                sender,
                name@,
                image@,
                description@,
                start_time,
                end_time,
            )
        },
        ExecuteMsg::MintBadge { event, attendee, was_late } => minting_done(
            before,
            after,
            res,
            now,
            sender,
            event@,
            attendee@,
            was_late,
        ),
    }
}

/// Carries out the command in `msg`, sent by `sender` at time `now`.
pub fn execute(
    ledger: &mut Ledger,
    now: u64,
    sender: &Identity,
    msg: ExecuteMsg,
) -> (res: Result<Receipt, ContractError>)
    ensures
        command_done(*old(ledger), *final(ledger), res, now, sender@, msg),
{
    match msg {
        ExecuteMsg::RegisterEvent { name, image, description, start_time, end_time } => {
            execute_register_event(
                ledger,
                now,
                sender,
                name,
                image,
                description,
                start_time,
                end_time,
            )
        },
        ExecuteMsg::MintBadge { event, attendee, was_late } => execute_mint_badge(
            ledger,
            now,
            sender,
            event,
            attendee,
            was_late,
        ),
    }
}

/// Registers an event owned by `sender`.
///
/// A name that is taken is refused as `EventAlreadyRegistered`; then the
/// request is held to the rules of [`build_event`]; then the event is written
/// under its name. The receipt carries the attribute `register_event` with the
/// name.
pub fn execute_register_event(
    ledger: &mut Ledger,
    now: u64,
    sender: &Identity,
    name: String,
    image: String,
    description: String,
    start_time: u64,
    end_time: u64,
) -> (res: Result<Receipt, ContractError>)
    ensures
        registration_done(
            *old(ledger),
            *final(ledger),
            res,
            now,
            sender@,
            name@,
            image@,
            description@,
            start_time,
            end_time,
        ),
{
    match find_event(ledger, name.as_str()) {
        Err(failure) => {
            return Err(ContractError::from(failure));
        },
        Ok(Some(_)) => {
            return Err(ContractError::EventAlreadyRegistered);
        },
        Ok(None) => {},
    }
    let event = match build_event(
        now,
        sender,
        name.clone(),
        image,
        description,
        start_time,
        end_time,
    ) {
        Ok(event) => event,
        Err(error) => {
            return Err(error);
        },
    };
    match save_event(ledger, name.as_str(), &event.to_row()) {
        Err(failure) => Err(ContractError::from(failure)),
        Ok(()) => Ok(Receipt::registered(name)),
    }
}

/// Checks a request to register an event made by `sender` at time `now`, and
/// builds the event's record. The request is refused for the first rule of
/// [`broken_rule`] that it breaks.
pub fn build_event(
    now: u64,
    sender: &Identity,
    name: String,
    image: String,
    description: String,
    start_time: u64,
    end_time: u64,
) -> (res: Result<EventData, ContractError>)
    ensures
        match broken_rule(now, name@, image@, start_time, end_time) {
            Some(kind) => res matches Err(error) && error@ == kind,
            None => res matches Ok(event) && event@ == (EventRecord {
                owner: sender@,
                name: name@,
                image: image@,
                description: description@,
                start_time,
                end_time,
            }),
        },
{
    let name_len = byte_len(name.as_str());
    if name_len < 2 {
        return Err(ContractError::NameTooShort);
    }
    if name_len > 100 {
        return Err(ContractError::NameTooLong);
    }
    if !is_secure_address(image.as_str()) {
        return Err(ContractError::InvalidImageURL(image));
    }
    if start_time >= end_time {
        return Err(ContractError::StartBeforeEnd);
    }
    if end_time < now {
        return Err(ContractError::EventAlreadyOver);
    }
    Ok(EventData { owner: sender.clone(), name, image, description, start_time, end_time })
}

/// Whether `sender` may mint a badge of `event` at time `now`: the refusal is
/// the one that [`minter_refused`] names.
pub fn check_minter(event: &EventData, now: u64, sender: &Identity) -> (res: Result<
    (),
    ContractError,
>)
    ensures
        match minter_refused(event@, now, sender@) {
            Some(kind) => res matches Err(error) && error@ == kind,
            None => res is Ok,
        },
{
    if !(*sender == event.owner) {
        return Err(ContractError::Unauthorized {  });
    }
    if now < event.start_time {
        return Err(ContractError::EventNotStarted);
    }
    if now > event.end_time {
        return Err(ContractError::EventAlreadyOver);
    }
    Ok(())
}

/// Whether the storage can frame `part` as a key part that another follows.
pub fn fits_frame(part: &str) -> (fits: bool)
    ensures
        fits == fits_key_frame(part@),
{
    byte_len(part) <= 0xFFFF
}

/// The failure of a key part that the storage cannot frame.
fn key_too_long() -> (failure: StdError)
    ensures
        failure == key_failure(),
{
    generic_failure("key part of more than 65535 bytes")
}

/// Writes a badge to both indexes: under event and attendee, and under
/// attendee and event. Nothing else writes a badge.
fn write_badge(
    ledger: &mut Ledger,
    event: &str,
    attendee: &str,
    badge: &BadgeData,
) -> (res: Result<(), StdError>)
    requires
        fits_key_frame(event@),
        fits_key_frame(attendee@),
    ensures
        res is Ok,
        final(ledger)@.events == old(ledger)@.events,
        final(ledger)@.attendees == old(ledger)@.attendees.insert(
            (event@, attendee@),
            badge.was_late,
        ),
        final(ledger)@.badges == old(ledger)@.badges.insert((attendee@, event@), badge.was_late),
        host_kept(*old(ledger), *final(ledger)),
{
    match save_attendee(ledger, event, attendee, badge.was_late) {
        Err(failure) => Err(failure),
        Ok(()) => save_badge(ledger, attendee, event, badge.was_late),
    }
}

/// Mints a badge of `event` for `attendee`.
///
/// The event is loaded; the caller and the time are held to the rules of
/// [`check_minter`]; the attendee's address is validated by the host; the keys
/// of the badge are held to the frame of the storage; an attendee who holds a
/// badge of the event is refused as `BadgeAlreadyIssued`; then the badge is
/// written to both indexes. The receipt carries the notice `mint-badge` with
/// the event and the attendee.
pub fn execute_mint_badge(
    ledger: &mut Ledger,
    now: u64,
    sender: &Identity,
    event: String,
    attendee: String,
    was_late: bool,
) -> (res: Result<Receipt, ContractError>)
    ensures
        minting_done(
            *old(ledger),
            *final(ledger),
            res,
            now,
            sender@,
            event@,
            attendee@,
            was_late,
        ),
{
    let data = match load_event(ledger, event.as_str()) {
        Ok(row) => EventData::from_row(row),
        Err(failure) => {
            return Err(ContractError::from(failure));
        },
    };
    match check_minter(&data, now, sender) {
        Err(error) => {
            return Err(error);
        },
        Ok(()) => {},
    }
    let attendee = match Identity::validate(ledger, attendee.as_str()) {
        Ok(identity) => identity,
        Err(failure) => {
            return Err(ContractError::from(failure));
        },
    };
    if !fits_frame(event.as_str()) || !fits_frame(attendee.as_str()) {
        return Err(ContractError::from(key_too_long()));
    }
    match find_attendee(ledger, event.as_str(), attendee.as_str()) {
        Err(failure) => {
            return Err(ContractError::from(failure));
        },
        Ok(Some(_)) => {
            return Err(ContractError::BadgeAlreadyIssued);
        },
        Ok(None) => {},
    }
    let badge = BadgeData { was_late };
    match write_badge(ledger, event.as_str(), attendee.as_str(), &badge) {
        Err(failure) => Err(ContractError::from(failure)),
        Ok(()) => Ok(Receipt::minted(event, attendee.into_string())),
    }
}

/// The answer to a query.
#[derive(Clone, Debug, PartialEq)]
pub enum QueryResponse {
    Event(GetEventResponse),
    AllEvents(ListAllEventsResponse),
    Attendees(ListAttendeesResponse),
    MyBadges(ListMyBadgesResponse),
}

/// What [`query_get_event`] owes: the event kept under `name`, and a failure
/// exactly when none is kept there. On a readable ledger the failure is the
/// store's not-found failure of the name.
pub open spec fn event_read(
    ledger: Ledger,
    name: Seq<char>,
    res: Result<GetEventResponse, StdError>,
) -> bool {
    match res {
        Ok(response) => ledger@.events.contains_pair(name, response@),
        Err(failure) => !ledger@.events.contains_key(name) && (readable(ledger) ==> failure
            == event_not_found(name)),
    }
}

/// What [`list_all_events`] owes. On success: the events of a listing of what
/// is kept, which is every event once, in ascending order of the bytes of the
/// names they are kept under. It succeeds on a ledger that is readable.
pub open spec fn events_listed(
    ledger: Ledger,
    res: Result<ListAllEventsResponse, StdError>,
) -> bool {
    &&& res matches Ok(response) ==> exists|rows: Seq<(Seq<char>, EventRecord)>|
        lists(rows, ledger@.events) && response.events.deep_view() == rows.map_values(
            |row: (Seq<char>, EventRecord)| row.1,
        )
    &&& readable(ledger) ==> res is Ok
}

/// What [`list_attendees`] owes. On success: every attendee of `name`, once,
/// with the flag of the badge, in ascending order of the bytes of their
/// identities. A name that the storage cannot frame is refused with
/// [`key_failure`]; any other name succeeds on a ledger that is readable.
pub open spec fn attendees_listed(
    ledger: Ledger,
    name: Seq<char>,
    res: Result<ListAttendeesResponse, StdError>,
) -> bool {
    &&& res matches Ok(response) ==> fits_key_frame(name) && lists(
        response.attendees.deep_view(),
        under(ledger@.attendees, name),
    )
    &&& !fits_key_frame(name) ==> res == Err::<ListAttendeesResponse, StdError>(key_failure())
    &&& fits_key_frame(name) && readable(ledger) ==> res is Ok
}

/// What [`list_my_badges`] owes. On success: every event of which `attendee`
/// holds a badge, once, with the flag of the badge, in ascending order of the
/// bytes of their names. An attendee whose address the host does not find
/// valid gets the host's refusal; a valid one that the storage cannot frame is
/// refused with [`key_failure`]; any other succeeds on a ledger that is
/// readable.
pub open spec fn badges_listed(
    ledger: Ledger,
    attendee: Seq<char>,
    res: Result<ListMyBadgesResponse, StdError>,
) -> bool {
    let valid = valid_addresses(ledger).contains(attendee);
    &&& res matches Ok(response) ==> valid && fits_key_frame(attendee) && lists(
        response.badges.deep_view(),
        under(ledger@.badges, attendee),
    )
    &&& !valid ==> res == Err::<ListMyBadgesResponse, StdError>(
        address_refusal(ledger, attendee),
    )
    &&& valid && !fits_key_frame(attendee) ==> res == Err::<ListMyBadgesResponse, StdError>(
        key_failure(),
    )
    &&& valid && fits_key_frame(attendee) && readable(ledger) ==> res is Ok
}

/// What [`query`] owes: the answer is of the kind that `msg` asks for, and is
/// what that query owes.
pub open spec fn query_answered(
    ledger: Ledger,
    msg: QueryMsg,
    res: Result<QueryResponse, StdError>,
) -> bool {
    match msg {
        QueryMsg::GetEvent { name } => match res {
            Ok(QueryResponse::Event(response)) => event_read(ledger, name@, Ok(response)),
            Ok(_) => false,
            Err(failure) => event_read(ledger, name@, Err(failure)),
        },
        QueryMsg::ListAllEvents {  } => match res {
            Ok(QueryResponse::AllEvents(response)) => events_listed(ledger, Ok(response)),
            Ok(_) => false,
            Err(failure) => events_listed(ledger, Err(failure)),
        },
        QueryMsg::ListAttendees { name } => match res {
            Ok(QueryResponse::Attendees(response)) => attendees_listed(ledger, name@, Ok(response)),
            Ok(_) => false,
            Err(failure) => attendees_listed(ledger, name@, Err(failure)),
        },
        QueryMsg::ListMyBadges { attendee } => match res {
            Ok(QueryResponse::MyBadges(response)) => badges_listed(ledger, attendee@, Ok(response)),
            Ok(_) => false,
            Err(failure) => badges_listed(ledger, attendee@, Err(failure)),
        },
    }
}

/// Answers the query in `msg`. The ledger is only read.
pub fn query(ledger: &Ledger, msg: QueryMsg) -> (res: Result<QueryResponse, StdError>)
    ensures
        query_answered(*ledger, msg, res),
{
    match msg {
        QueryMsg::GetEvent { name } => match query_get_event(ledger, name) {
            Ok(response) => Ok(QueryResponse::Event(response)),
            Err(failure) => Err(failure),
        },
        QueryMsg::ListAllEvents {  } => match list_all_events(ledger) {
            Ok(response) => Ok(QueryResponse::AllEvents(response)),
            Err(failure) => Err(failure),
        },
        QueryMsg::ListAttendees { name } => match list_attendees(ledger, name) {
            Ok(response) => Ok(QueryResponse::Attendees(response)),
            Err(failure) => Err(failure),
        },
        QueryMsg::ListMyBadges { attendee } => match list_my_badges(ledger, attendee) {
            Ok(response) => Ok(QueryResponse::MyBadges(response)),
            Err(failure) => Err(failure),
        },
    }
}

/// The event kept under `name`, as the public sees it.
pub fn query_get_event(ledger: &Ledger, name: String) -> (res: Result<GetEventResponse, StdError>)
    ensures
        event_read(*ledger, name@, res),
{
    match load_event(ledger, name.as_str()) {
        Ok(row) => Ok(GetEventResponse::from(EventData::from_row(row))),
        Err(failure) => Err(failure),
    }
}

/// Every event, as the public sees it, in ascending order of name.
pub fn list_all_events(ledger: &Ledger) -> (res: Result<ListAllEventsResponse, StdError>)
    ensures
        events_listed(*ledger, res),
{
    match all_events(ledger) {
        Ok(rows) => {
            let response = ListAllEventsResponse::from_rows(rows);
            assert(lists(keyed_records(rows@), ledger@.events));
            Ok(response)
        },
        Err(failure) => Err(failure),
    }
}

/// The attendees of the event `name`, in ascending order of identity.
pub fn list_attendees(ledger: &Ledger, name: String) -> (res: Result<
    ListAttendeesResponse,
    StdError,
>)
    ensures
        attendees_listed(*ledger, name@, res),
{
    if !fits_frame(name.as_str()) {
        return Err(key_too_long());
    }
    match attendees_under(ledger, name.as_str()) {
        Ok(rows) => Ok(ListAttendeesResponse::from_rows(rows)),
        Err(failure) => Err(failure),
    }
}

/// The badges of `attendee`, whose address the host validates first, in
/// ascending order of event name.
pub fn list_my_badges(ledger: &Ledger, attendee: String) -> (res: Result<
    ListMyBadgesResponse,
    StdError,
>)
    ensures
        badges_listed(*ledger, attendee@, res),
{
    let attendee = match Identity::validate(ledger, attendee.as_str()) {
        Ok(identity) => identity,
        Err(failure) => {
            return Err(failure);
        },
    };
    if !fits_frame(attendee.as_str()) {
        return Err(key_too_long());
    }
    match badges_under(ledger, attendee.as_str()) {
        Ok(rows) => Ok(ListMyBadgesResponse::from_rows(rows)),
        Err(failure) => Err(failure),
    }
}

} // verus!
