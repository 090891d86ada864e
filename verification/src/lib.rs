//! Proof-of-attendance records: an organizer registers a time-bounded event and,
//! while the event runs, issues one badge per attendee. Events and badges live in
//! the key-value storage of a CosmWasm host; every rule that decides what may be
//! written, and every projection that is read back, is verified here.

pub mod contract;
pub mod error;
pub mod identity;
pub mod laws;
pub mod ledger;
pub mod msg;
pub mod order;
pub mod receipt;
pub mod registry;
pub mod state;
pub mod text;
