//! Identifiers of the two systems and the link record that joins them.

use vstd::prelude::*;

verus! {

/// Identity of the entity requesting a link (a chat-platform account id).
/// Opaque to this library; supplied by the caller and never derived here.
#[derive(Clone, Copy, PartialEq, Eq, Structural, Debug, Hash)]
pub struct RequesterId {
    pub raw: i64,
}

/// Identity of the external game account being claimed. Authoritative:
/// produced only by the identity lookup, never guessed by a caller.
#[derive(Clone, Copy, PartialEq, Eq, Structural, Debug, Hash)]
pub struct ExternalAccountId {
    pub raw: i32,
}

/// One durable link: a requester tied to an external account. Created only
/// by a successful store insertion and immutable afterwards; uniqueness on
/// both fields across all records is the store's invariant.
#[derive(Clone, Copy, PartialEq, Eq, Structural, Debug)]
pub struct LinkRecord {
    pub requester: RequesterId,
    pub account: ExternalAccountId,
}

} // verus!
