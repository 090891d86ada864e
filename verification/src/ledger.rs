//! The ledger: the host's storage and its address validation, as the operations
//! reach them. Everything in this file is taken on trust from `cosmwasm-std` and
//! `cw-storage-plus`; the rest of the crate is proved from what is stated here.
//!
//! Records live in three `cw_storage_plus::Map`s over the host's storage:
//! `events`, keyed by event name; `attendees`, keyed by event name and then
//! attendee; `badges`, keyed by attendee and then event name. An event is stored
//! as the tuple of its six fields, a badge as its one flag.
//!
//! Three things are assumed throughout. The storage answers as
//! `cosmwasm_std::Storage` documents: what was set under a key is what `get`
//! and `range` give until the key is set again, and `range` goes through the
//! keys in ascending order of their bytes. The keys of the three maps never
//! coincide, nor do the keys of two entries of one map: `cw-storage-plus` puts
//! the map's name and every key part but the last behind their lengths. And a
//! row that was saved is read back equal: `serde-json-wasm`, which writes the
//! rows, loses nothing of a string, an integer or a flag.
//!
//! Of the host's address validation it is assumed, as `cosmwasm_std::Api`
//! asks of it, that it answers alike whenever it is asked alike and does not
//! look at the storage.

use crate::order::{lists, under};
use crate::state::EventRecord;
use crate::text::utf8_len;
use cosmwasm_std::{Api, Order, StdError, Storage};
use vstd::prelude::*;

verus! {

/// The stored form of an event: owner, name, image, description, start time,
/// end time.
pub type EventRow = (String, String, String, String, u64, u64);

/// The storage and the address validation that a host lends for one call. A
/// host builds one from what it was handed; a query, which holds it by shared
/// reference, cannot write through it.
///
/// It holds `&mut dyn cosmwasm_std::Storage` and `&dyn cosmwasm_std::Api`, which
/// Verus cannot look into: what the storage holds is spoken of through
/// [`events_of`], [`attendees_of`], [`badges_of`] and [`readable`], what the
/// host validates through [`valid_addresses`] and [`address_refusal`].
#[verifier::external_body]
pub struct Ledger<'a> {
    pub storage: &'a mut dyn Storage,
    pub api: &'a dyn Api,
}

/// The events that the ledger holds, by name: the entries of the map `events`
/// that can be read back.
pub uninterp spec fn events_of(ledger: Ledger) -> Map<Seq<char>, EventRecord>;

/// The lateness flags that the ledger holds by event name and attendee: the
/// entries of the map `attendees` that can be read back.
pub uninterp spec fn attendees_of(ledger: Ledger) -> Map<(Seq<char>, Seq<char>), bool>;

/// The lateness flags that the ledger holds by attendee and event name: the
/// entries of the map `badges` that can be read back.
pub uninterp spec fn badges_of(ledger: Ledger) -> Map<(Seq<char>, Seq<char>), bool>;

/// Whether everything that the storage keeps under the three maps can be read
/// back: every key as a key of its map, every value as a row or a flag.
pub uninterp spec fn readable(ledger: Ledger) -> bool;

/// The addresses that the ledger's host finds valid. `cosmwasm_std::Api` asks
/// of every host that it answer alike whenever it is asked alike, whatever the
/// storage holds.
pub uninterp spec fn valid_addresses(ledger: Ledger) -> Set<Seq<char>>;

/// The failure with which the ledger's host refuses an address that it does
/// not find valid.
pub uninterp spec fn address_refusal(ledger: Ledger, input: Seq<char>) -> StdError;

/// The failure that `cw_storage_plus::Map::load` on `events` makes of a name
/// under which nothing is kept: a not-found failure that tells the key.
pub uninterp spec fn event_not_found(name: Seq<char>) -> StdError;

/// The failure that `cosmwasm_std::StdError::generic_err` makes of a message.
pub uninterp spec fn generic_error(msg: Seq<char>) -> StdError;

/// What the host says of an address: nothing where it finds it valid, its
/// refusal where it does not.
pub open spec fn verdict(ledger: Ledger, input: Seq<char>) -> Option<StdError> {
    if valid_addresses(ledger).contains(input) {
        None
    } else {
        Some(address_refusal(ledger, input))
    }
}

/// What a write leaves as it was: the host says of every address what it
/// said, and a storage that was readable still is.
pub open spec fn host_kept(before: Ledger, after: Ledger) -> bool {
    &&& valid_addresses(after) == valid_addresses(before)
    &&& forall|input: Seq<char>| #[trigger]
        address_refusal(after, input) == address_refusal(before, input)
    &&& readable(before) ==> readable(after)
}

/// A key part that is followed by another is framed by its length in two bytes,
/// so it has at most 65535 bytes.
pub open spec fn fits_key_frame(part: Seq<char>) -> bool {
    utf8_len(part) <= 0xFFFF
}

/// The event that a stored row stands for.
pub open spec fn row_record(row: EventRow) -> EventRecord {
    EventRecord {
        owner: row.0@,
        name: row.1@,
        image: row.2@,
        description: row.3@,
        start_time: row.4,
        end_time: row.5,
    }
}

/// Rows as they come out of `events`, each as its name and its event.
pub open spec fn keyed_records(rows: Seq<(String, EventRow)>) -> Seq<(Seq<char>, EventRecord)> {
    rows.map_values(|keyed: (String, EventRow)| (keyed.0@, row_record(keyed.1)))
}

/// `cw_storage_plus::Map::load` on `events`. It answers with the row kept under
/// `name`, and fails exactly when no readable row is kept there. On a readable
/// ledger that is where nothing is kept, and the failure is the not-found
/// failure of the name.
#[verifier::external_body]
pub(crate) fn load_event(ledger: &Ledger, name: &str) -> (res: Result<EventRow, StdError>)
    ensures
        match res {
            Ok(row) => events_of(*ledger).contains_pair(name@, row_record(row)),
            Err(failure) => !events_of(*ledger).contains_key(name@) && (readable(*ledger)
                ==> failure == event_not_found(name@)),
        },
{
    cw_storage_plus::Map::<&str, EventRow>::new("events").load(&*ledger.storage, name)
}

/// `cw_storage_plus::Map::may_load` on `events`. It answers `Some` with the row
/// kept under `name` exactly when a readable row is kept there; where none is,
/// it answers `None`, or fails on bytes that are no row. It fails on nothing
/// else, so not on a readable ledger.
#[verifier::external_body]
pub(crate) fn find_event(ledger: &Ledger, name: &str) -> (res: Result<Option<EventRow>, StdError>)
    ensures
        match res {
            Ok(Some(row)) => events_of(*ledger).contains_pair(name@, row_record(row)),
            _ => !events_of(*ledger).contains_key(name@),
        },
        readable(*ledger) ==> res is Ok,
{
    cw_storage_plus::Map::<&str, EventRow>::new("events").may_load(&*ledger.storage, name)
}

/// `cw_storage_plus::Map::save` on `events`. `row` is kept under `name`, in
/// place of what was there. The other two maps are not touched, and nothing
/// becomes unreadable. It does not fail: it would only where the row could not
/// be written as text, and strings and integers always can.
#[verifier::external_body]
pub(crate) fn save_event(
    ledger: &mut Ledger,
    name: &str,
    row: &EventRow,
) -> (res: Result<(), StdError>)
    ensures
        res is Ok,
        events_of(*final(ledger)) == events_of(*old(ledger)).insert(name@, row_record(*row)),
        attendees_of(*final(ledger)) == attendees_of(*old(ledger)),
        badges_of(*final(ledger)) == badges_of(*old(ledger)),
        host_kept(*old(ledger), *final(ledger)),
{
    cw_storage_plus::Map::<&str, EventRow>::new("events").save(ledger.storage, name, row)
}

/// `cw_storage_plus::Map::range` on `events`, over all keys and ascending. On
/// success the rows are the events that the ledger holds, each once, in
/// ascending order of the bytes of their names. It fails only on an entry that
/// it cannot read.
#[verifier::external_body]
pub(crate) fn all_events(ledger: &Ledger) -> (res: Result<Vec<(String, EventRow)>, StdError>)
    ensures
        res matches Ok(rows) ==> lists(keyed_records(rows@), events_of(*ledger)),
        readable(*ledger) ==> res is Ok,
{
    cw_storage_plus::Map::<&str, EventRow>::new("events").range(
        &*ledger.storage,
        None,
        None,
        Order::Ascending,
    ).collect()
}

/// `cw_storage_plus::Map::may_load` on `attendees`. It answers `Some` with the
/// flag kept under `event` and `attendee` exactly when a readable flag is kept
/// there; where none is, it answers `None`, or fails on bytes that are no flag.
/// It fails on nothing else, so not on a readable ledger. The key framing
/// panics on an `event` of more than 65535 bytes.
#[verifier::external_body]
pub(crate) fn find_attendee(
    ledger: &Ledger,
    event: &str,
    attendee: &str,
) -> (res: Result<Option<bool>, StdError>)
    requires
        fits_key_frame(event@),
    ensures
        match res {
            Ok(Some(was_late)) => attendees_of(*ledger).contains_pair(
                (event@, attendee@),
                was_late,
            ),
            _ => !attendees_of(*ledger).contains_key((event@, attendee@)),
        },
        readable(*ledger) ==> res is Ok,
{
    cw_storage_plus::Map::<(&str, &str), bool>::new("attendees").may_load(
        &*ledger.storage,
        (event, attendee),
    )
}

/// `cw_storage_plus::Map::save` on `attendees`. `was_late` is kept under
/// `event` and `attendee`. The other two maps are not touched, and nothing
/// becomes unreadable. It does not fail: it would only where the flag could
/// not be written as text, and a flag always can. The key framing panics on an
/// `event` of more than 65535 bytes.
#[verifier::external_body]
pub(crate) fn save_attendee(
    ledger: &mut Ledger,
    event: &str,
    attendee: &str,
    was_late: bool,
) -> (res: Result<(), StdError>)
    requires
        fits_key_frame(event@),
    ensures
        res is Ok,
        attendees_of(*final(ledger)) == attendees_of(*old(ledger)).insert(
            (event@, attendee@),
            was_late,
        ),
        events_of(*final(ledger)) == events_of(*old(ledger)),
        badges_of(*final(ledger)) == badges_of(*old(ledger)),
        host_kept(*old(ledger), *final(ledger)),
{
    cw_storage_plus::Map::<(&str, &str), bool>::new("attendees").save(
        ledger.storage,
        (event, attendee),
        &was_late,
    )
}

/// `cw_storage_plus::Map::save` on `badges`. `was_late` is kept under
/// `attendee` and `event`. The other two maps are not touched, and nothing
/// becomes unreadable. It does not fail: it would only where the flag could
/// not be written as text, and a flag always can. The key framing panics on an
/// `attendee` of more than 65535 bytes.
#[verifier::external_body]
pub(crate) fn save_badge(
    ledger: &mut Ledger,
    attendee: &str,
    event: &str,
    was_late: bool,
) -> (res: Result<(), StdError>)
    requires
        fits_key_frame(attendee@),
    ensures
        res is Ok,
        badges_of(*final(ledger)) == badges_of(*old(ledger)).insert(
            (attendee@, event@),
            was_late,
        ),
        events_of(*final(ledger)) == events_of(*old(ledger)),
        attendees_of(*final(ledger)) == attendees_of(*old(ledger)),
        host_kept(*old(ledger), *final(ledger)),
{
    cw_storage_plus::Map::<(&str, &str), bool>::new("badges").save(
        ledger.storage,
        (attendee, event),
        &was_late,
    )
}

/// `cw_storage_plus::Prefix::range` on the part of `attendees` under `event`,
/// over all keys and ascending. On success the rows are the attendees that the
/// ledger holds for `event`, each once with its flag, in ascending order of the
/// bytes of their identities. It fails only on an entry that it cannot read.
/// The key framing panics on an `event` of more than 65535 bytes.
#[verifier::external_body]
pub(crate) fn attendees_under(ledger: &Ledger, event: &str) -> (res: Result<
    Vec<(String, bool)>,
    StdError,
>)
    requires
        fits_key_frame(event@),
    ensures
        res matches Ok(rows) ==> lists(rows.deep_view(), under(attendees_of(*ledger), event@)),
        readable(*ledger) ==> res is Ok,
{
    cw_storage_plus::Map::<(&str, &str), bool>::new("attendees").prefix(event).range(
        &*ledger.storage,
        None,
        None,
        Order::Ascending,
    ).collect()
}

/// `cw_storage_plus::Prefix::range` on the part of `badges` under `attendee`,
/// over all keys and ascending. On success the rows are the events for which the
/// ledger holds a badge of `attendee`, each once with its flag, in ascending
/// order of the bytes of their names. It fails only on an entry that it cannot
/// read. The key framing panics on an `attendee` of more than 65535 bytes.
#[verifier::external_body]
pub(crate) fn badges_under(ledger: &Ledger, attendee: &str) -> (res: Result<
    Vec<(String, bool)>,
    StdError,
>)
    requires
        fits_key_frame(attendee@),
    ensures
        res matches Ok(rows) ==> lists(rows.deep_view(), under(badges_of(*ledger), attendee@)),
        readable(*ledger) ==> res is Ok,
{
    cw_storage_plus::Map::<(&str, &str), bool>::new("badges").prefix(attendee).range(
        &*ledger.storage,
        None,
        None,
        Order::Ascending,
    ).collect()
}

/// `cosmwasm_std::StdError::generic_err`: the failure of the host's kind that
/// carries `msg`, and nothing else.
#[verifier::external_body]
pub(crate) fn generic_failure(msg: &str) -> (failure: StdError)
    ensures
        failure == generic_error(msg@),
{
    StdError::generic_err(msg)
}

/// `cosmwasm_std::Api::addr_validate`. Which addresses are valid is the host's
/// to say; a valid one comes back as it was given, and any other gets the
/// host's refusal of it.
#[verifier::external_body]
pub(crate) fn validate_address(ledger: &Ledger, input: &str) -> (res: Result<String, StdError>)
    ensures
        match res {
            Ok(address) => valid_addresses(*ledger).contains(input@) && address@ == input@,
            Err(failure) => !valid_addresses(*ledger).contains(input@) && failure
                == address_refusal(*ledger, input@),
        },
{
    ledger.api.addr_validate(input).map(|address| address.into_string())
}

} // verus!
