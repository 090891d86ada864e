//! Identities: who calls, who owns, who attends.

use crate::ledger::{address_refusal, valid_addresses, validate_address, Ledger};
use cosmwasm_std::StdError;
use vstd::prelude::*;

verus! {

/// An identity that the host vouches for: the caller of a command, which the
/// host has authenticated, or an address that the host has validated. It is
/// kept apart from the raw text of a request, which anyone may write.
#[derive(Debug)]
pub struct Identity {
    text: String,
}

impl View for Identity {
    type V = Seq<char>;

    closed spec fn view(&self) -> Seq<char> {
        self.text@
    }
}

impl Identity {
    /// The text of the identity, as a string.
    pub closed spec fn text(self) -> String {
        self.text
    }

    /// Takes `text` for an identity on the caller's word: for the sender that
    /// a host names, and for what was read back from a ledger.
    pub fn unchecked(text: &str) -> (identity: Identity)
        ensures
            identity@ == text@,
    {
        Identity { text: text.to_owned() }
    }

    /// Has the host of `ledger` validate `raw`. Which addresses are valid is
    /// the host's to say: a valid one is the identity of the same text, and any
    /// other gets the host's refusal of it.
    pub fn validate(ledger: &Ledger, raw: &str) -> (res: Result<Identity, StdError>)
        ensures
            match res {
                Ok(identity) => valid_addresses(*ledger).contains(raw@) && identity@ == raw@,
                Err(failure) => !valid_addresses(*ledger).contains(raw@) && failure
                    == address_refusal(*ledger, raw@),
            },
    {
        match validate_address(ledger, raw) {
            Ok(text) => Ok(Identity { text }),
            Err(failure) => Err(failure),
        }
    }

    /// The text of the identity.
    pub fn as_str(&self) -> (text: &str)
        ensures
            text@ == self@,
    {
        self.text.as_str()
    }

    /// The text of the identity.
    pub fn into_string(self) -> (text: String)
        ensures
            text == self.text(),
            text@ == self@,
    {
        self.text
    }
}

impl Clone for Identity {
    fn clone(&self) -> (copy: Identity)
        ensures
            copy@ == self@,
    {
        Identity { text: self.text.clone() }
    }
}

impl PartialEq for Identity {
    fn eq(&self, other: &Identity) -> (same: bool) {
        self.text == other.text
    }
}

impl vstd::std_specs::cmp::PartialEqSpecImpl for Identity {
    open spec fn obeys_eq_spec() -> bool {
        true
    }

    open spec fn eq_spec(&self, other: &Identity) -> bool {
        self@ == other@
    }
}

} // verus!
