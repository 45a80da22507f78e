//! The organizer namespace.

use vstd::prelude::*;

use crate::keys::Pubkey;

verus! {

/// A named organizer namespace owning a sequence of events.
///
/// `events_count` only ever grows, by exactly one per created event; the
/// count at creation time becomes the new event's unique slot under this
/// community.
#[derive(Clone, Debug, PartialEq, Eq)]
pub struct Community {
    /// The unique address-derivation seed this community was created with.
    pub seed: Pubkey,
    /// The identity that owns this community.
    pub authority: Pubkey,
    /// How many events have been created under this community.
    pub events_count: u32,
    /// Display name.
    pub name: String,
}

} // verus!
