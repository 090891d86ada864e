//! What a ledger holds, as plain mathematics, and what each command makes of
//! it. The operations on a ledger are specified by the functions here, and the
//! laws of the system are proved of them.

use crate::error::ErrorKind;
use crate::ledger::{
    attendees_of, badges_of, event_not_found, events_of, fits_key_frame, generic_error, Ledger,
};
use crate::receipt::{minting_receipt, registration_receipt, ReceiptView};
use crate::state::EventRecord;
use crate::text::{has_secure_scheme, utf8_len};
use cosmwasm_std::StdError;
use vstd::prelude::*;

verus! {

/// The three indexes of a ledger: what it keeps that can be read back. What
/// else is said of a ledger stands beside this view: whether all that it keeps
/// can be read back ([`readable`](crate::ledger::readable)), and what its host
/// says of an address ([`verdict`](crate::ledger::verdict)).
pub struct Registry {
    /// The events, by name.
    pub events: Map<Seq<char>, EventRecord>,
    /// Whether the attendee was late, by event name and then attendee.
    pub attendees: Map<(Seq<char>, Seq<char>), bool>,
    /// Whether the attendee was late, by attendee and then event name.
    pub badges: Map<(Seq<char>, Seq<char>), bool>,
}

impl<'a> View for Ledger<'a> {
    type V = Registry;

    open spec fn view(&self) -> Registry {
        Registry {
            events: events_of(*self),
            attendees: attendees_of(*self),
            badges: badges_of(*self),
        }
    }
}

/// What a command leaves behind and what it answers.
pub struct Outcome {
    pub after: Registry,
    pub result: Result<ReceiptView, ErrorKind>,
}

/// The first rule that a request to register breaks, if it breaks one. The rules
/// are tried in this order: the name has at least 2 bytes; it has at most 100;
/// the image is an `https://` address; the event starts before it ends; it has
/// not ended yet.
pub open spec fn broken_rule(
    now: u64,
    name: Seq<char>,
    image: Seq<char>,
    start_time: u64,
    end_time: u64,
) -> Option<ErrorKind> {
    if utf8_len(name) < 2 {
        Some(ErrorKind::NameTooShort)
    } else if utf8_len(name) > 100 {
        Some(ErrorKind::NameTooLong)
    } else if !has_secure_scheme(image) {
        Some(ErrorKind::InvalidImageURL(image))
    } else if start_time >= end_time {
        Some(ErrorKind::StartBeforeEnd)
    } else if end_time < now {
        Some(ErrorKind::EventAlreadyOver)
    } else {
        None
    }
}

/// Why `sender` may not mint a badge of `event` at time `now`, if there is a
/// reason: only the owner may mint, and only from the start time to the end
/// time, both included.
pub open spec fn minter_refused(event: EventRecord, now: u64, sender: Seq<char>) -> Option<
    ErrorKind,
> {
    if sender != event.owner {
        Some(ErrorKind::Unauthorized)
    } else if now < event.start_time {
        Some(ErrorKind::EventNotStarted)
    } else if now > event.end_time {
        Some(ErrorKind::EventAlreadyOver)
    } else {
        None
    }
}

/// The failure of a key part that the storage cannot frame: a generic failure
/// that says so.
pub open spec fn key_failure() -> StdError {
    generic_error("key part of more than 65535 bytes"@)
}

impl Registry {
    /// The command is refused and nothing changes.
    pub open spec fn refuse(self, kind: ErrorKind) -> Outcome {
        Outcome { after: self, result: Err(kind) }
    }

    /// `sender` registers an event at time `now`. A name that is taken is
    /// refused before any other rule is tried.
    pub open spec fn register(
        self,
        now: u64,
        sender: Seq<char>,
        name: Seq<char>,
        image: Seq<char>,
        description: Seq<char>,
        start_time: u64,
        end_time: u64,
    ) -> Outcome {
        if self.events.contains_key(name) {
            self.refuse(ErrorKind::EventAlreadyRegistered)
        } else {
            match broken_rule(now, name, image, start_time, end_time) {
                Some(kind) => self.refuse(kind),
                None => Outcome {
                    after: Registry {
                        events: self.events.insert(
                            name,
                            EventRecord {
                                owner: sender,
                                name,
                                image,
                                description,
                                start_time,
                                end_time,
                            },
                        ),
                        ..self
                    },
                    result: Ok(registration_receipt(name)),
                },
            }
        }
    }

    /// `sender` mints a badge of `event` for `attendee` at time `now`, where the
    /// host says `refusal` of the attendee's address: nothing if it finds it
    /// valid.
    ///
    /// An event that is not there is refused with the store's not-found
    /// failure; then the caller and the time are held to [`minter_refused`];
    /// then an address that the host refuses is refused with the host's
    /// failure; then a badge whose keys the storage cannot frame is refused
    /// with [`key_failure`]; then an attendee who holds a badge of the event is
    /// refused as `BadgeAlreadyIssued`. Otherwise the badge goes into both
    /// indexes at once.
    pub open spec fn mint(
        self,
        now: u64,
        sender: Seq<char>,
        event: Seq<char>,
        attendee: Seq<char>,
        was_late: bool,
        refusal: Option<StdError>,
    ) -> Outcome {
        if !self.events.contains_key(event) {
            self.refuse(ErrorKind::Std(event_not_found(event)))
        } else if let Some(kind) = minter_refused(self.events[event], now, sender) {
            self.refuse(kind)
        } else if let Some(failure) = refusal {
            self.refuse(ErrorKind::Std(failure))
        } else if !fits_key_frame(event) || !fits_key_frame(attendee) {
            self.refuse(ErrorKind::Std(key_failure()))
        } else if self.attendees.contains_key((event, attendee)) {
            self.refuse(ErrorKind::BadgeAlreadyIssued)
        } else {
            Outcome {
                after: Registry {
                    attendees: self.attendees.insert((event, attendee), was_late),
                    badges: self.badges.insert((attendee, event), was_late),
                    ..self
                },
                result: Ok(minting_receipt(event, attendee)),
            }
        }
    }

    /// Every event is kept under its own name and meets the rules on names,
    /// images and times; every badge belongs to an event that is there; and the
    /// two indexes of badges hold the same badges.
    pub open spec fn well_formed(self) -> bool {
        &&& forall|name: Seq<char>| #[trigger]
            self.events.contains_key(name) ==> {
                &&& self.events[name].name == name
                &&& 2 <= utf8_len(name) <= 100
                &&& has_secure_scheme(self.events[name].image)
                &&& self.events[name].start_time < self.events[name].end_time
            }
        &&& forall|event: Seq<char>, attendee: Seq<char>| #[trigger]
            self.attendees.contains_key((event, attendee)) ==> self.events.contains_key(event)
        &&& forall|event: Seq<char>, attendee: Seq<char>|
            self.attendees.contains_key((event, attendee)) <==> self.badges.contains_key(
                (attendee, event),
            )
        &&& forall|event: Seq<char>, attendee: Seq<char>| #[trigger]
            self.attendees.contains_key((event, attendee)) ==> self.attendees[(event, attendee)]
                == self.badges[(attendee, event)]
    }
}

} // verus!
