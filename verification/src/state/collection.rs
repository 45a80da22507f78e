//! The event's descriptive record.

use vstd::prelude::*;

use crate::attributes::Attribute;
use crate::keys::Pubkey;

verus! {

/// The descriptive record of one event: display data, the count of tickets
/// issued so far, and the attribute list carrying capacity and the
/// registration and occurrence windows.
#[derive(Clone, Debug, PartialEq, Eq)]
pub struct EventCollection {
    /// Display name; tickets derive their names from it.
    pub name: String,
    /// Display URI; tickets inherit it.
    pub uri: String,
    /// The community record that administers this collection.
    pub update_authority: Pubkey,
    /// How many tickets have been issued under this event.
    pub num_minted: u32,
    /// Descriptive attributes; numeric facets are decimal strings.
    pub attributes: Vec<Attribute>,
}

} // verus!
