//! The proof-of-registration token.

use vstd::prelude::*;

use crate::attributes::Attribute;
use crate::keys::Pubkey;

verus! {

/// What a scanning authority recorded on a ticket.
#[derive(Clone, Copy, Debug, PartialEq, Eq, Structural)]
pub enum ScanOutcome {
    Verified,
    Rejected,
}

/// One scan entry: which authority scanned, and its verdict. Write-once per
/// authority.
#[derive(Clone, Copy, Debug, PartialEq, Eq, Structural)]
pub struct ScanRecord {
    pub authority: Pubkey,
    pub outcome: ScanOutcome,
}

/// The mutable face of a ticket: its attribute list, its freeze flag and its
/// append-only scan records. The ticket is issued unfrozen and becomes
/// permanently frozen — non-transferable, non-burnable — on its first scan.
#[derive(Clone, Debug, PartialEq, Eq)]
pub struct TicketPlugins {
    /// Descriptive attributes: the ticket number and the fee paid.
    pub attribute_list: Vec<Attribute>,
    /// Whether the ticket is permanently frozen.
    pub frozen: bool,
    /// The record key that administers scan entries.
    pub data_authority: Pubkey,
    /// The scan entries written so far, one per scanning authority.
    pub scan_records: Vec<ScanRecord>,
}

/// A transferable-at-birth, frozen-after-scan proof of registration, bound
/// one-to-one to an attendee record.
#[derive(Clone, Debug, PartialEq, Eq)]
pub struct Ticket {
    /// The registrant the ticket was issued to.
    pub owner: Pubkey,
    /// The event collection the ticket belongs to.
    pub collection: Pubkey,
    /// Display name: the collection's name plus the ticket number.
    pub name: String,
    /// Display URI, inherited from the collection.
    pub uri: String,
    /// Attribute list, freeze flag and scan records.
    pub plugins: TicketPlugins,
}

/// Whether the ticket already carries a scan entry under `authority`.
pub open spec fn scanned_by(t: Ticket, authority: Pubkey) -> bool {
    exists|i: int|
        0 <= i < t.plugins.scan_records@.len() && t.plugins.scan_records@[i].authority
            == authority
}

impl Ticket {
    /// Appends a scan entry under an authority that has none yet.
    pub fn push_scan_record(&mut self, authority: Pubkey, outcome: ScanOutcome)
        requires
            !scanned_by(*old(self), authority),
        ensures
            final(self).owner == old(self).owner,
            final(self).collection == old(self).collection,
            final(self).name == old(self).name,
            final(self).uri == old(self).uri,
            final(self).plugins.attribute_list == old(self).plugins.attribute_list,
            final(self).plugins.frozen == old(self).plugins.frozen,
            final(self).plugins.data_authority == old(self).plugins.data_authority,
            final(self).plugins.scan_records@ == old(self).plugins.scan_records@.push(
                ScanRecord { authority, outcome },
            ),
    {
        self.plugins.scan_records.push(ScanRecord { authority, outcome });
    }
}

} // verus!
