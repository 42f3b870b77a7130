//! Core of an anonymous message relay: identity-to-link mapping, a
//! bidirectional relay ledger, per-chat dialogue state, and the orchestrator
//! that decides how each inbound update is handled.
//!
//! Transport delivery and durable storage are collaborators: the library
//! decides, records, and transitions; the surrounding program performs the
//! sends and feeds the outcomes back in.

use vstd::prelude::*;

pub mod db;
pub mod dialogue;
pub mod laws;
pub mod link;
pub mod orchestrator;

verus! {

/// Failure taxonomy of the relay core.
#[derive(Clone, Copy, Debug, PartialEq, Eq, Structural)]
pub enum RelayError {
    /// A link payload did not resolve to any user.
    LinkNotFound,
    /// The transport could not deliver the content.
    DeliveryFailure,
    /// A reply had no counterpart, or a reply arrived while a fresh
    /// anonymous message was awaited.
    InvalidUserAction,
    /// The store refused an operation (uniqueness exhausted or violated).
    PersistenceError,
    /// A read was made for a user that was never registered.
    UserNotFound,
}

} // verus!
