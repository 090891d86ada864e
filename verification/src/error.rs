//! The closed set of reasons for which a call is refused.

use cosmwasm_std::StdError;
use vstd::prelude::*;

verus! {

/// `cosmwasm_std::StdError`, the error of the host's storage and address
/// validation. It is carried through unread.
#[verifier::external_type_specification]
#[verifier::external_body]
pub struct ExStdError(StdError);

/// Why a call was refused. Every refusal ends the call that produced it.
#[derive(Debug, PartialEq)]
pub enum ContractError {
    /// A failure of the host: a record that is absent or unreadable, an address
    /// that does not validate.
    Std(StdError),
    /// The caller does not own the event.
    Unauthorized {},
    /// An event of that name exists already.
    EventAlreadyRegistered,
    /// The event name has fewer than 2 bytes.
    NameTooShort,
    /// The event name has more than 100 bytes.
    NameTooLong,
    /// The image address, given back, does not begin with `https://`.
    InvalidImageURL(String),
    /// The start time is not before the end time.
    StartBeforeEnd,
    /// The event's end time has passed.
    EventAlreadyOver,
    /// The event's start time has not come.
    EventNotStarted,
    /// The attendee holds a badge of this event already.
    BadgeAlreadyIssued,
}

/// A `ContractError` as contracts speak of it: strings by their characters.
pub enum ErrorKind {
    Std(StdError),
    Unauthorized,
    EventAlreadyRegistered,
    NameTooShort,
    NameTooLong,
    InvalidImageURL(Seq<char>),
    StartBeforeEnd,
    EventAlreadyOver,
    EventNotStarted,
    BadgeAlreadyIssued,
}

impl View for ContractError {
    type V = ErrorKind;

    open spec fn view(&self) -> ErrorKind {
        match self {
            ContractError::Std(failure) => ErrorKind::Std(*failure),
            ContractError::Unauthorized {  } => ErrorKind::Unauthorized,
            ContractError::EventAlreadyRegistered => ErrorKind::EventAlreadyRegistered,
            ContractError::NameTooShort => ErrorKind::NameTooShort,
            ContractError::NameTooLong => ErrorKind::NameTooLong,
            ContractError::InvalidImageURL(address) => ErrorKind::InvalidImageURL(address@),
            ContractError::StartBeforeEnd => ErrorKind::StartBeforeEnd,
            ContractError::EventAlreadyOver => ErrorKind::EventAlreadyOver,
            ContractError::EventNotStarted => ErrorKind::EventNotStarted,
            ContractError::BadgeAlreadyIssued => ErrorKind::BadgeAlreadyIssued,
        }
    }
}

impl From<StdError> for ContractError {
    fn from(failure: StdError) -> (error: ContractError) {
        ContractError::Std(failure)
    }
}

impl vstd::std_specs::convert::FromSpecImpl<StdError> for ContractError {
    open spec fn obeys_from_spec() -> bool {
        true
    }

    open spec fn from_spec(failure: StdError) -> ContractError {
        ContractError::Std(failure)
    }
}

} // verus!
