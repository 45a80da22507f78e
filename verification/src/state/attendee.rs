//! One registrant's standing for one event.

use vstd::prelude::*;

use crate::keys::Pubkey;

verus! {

/// One registrant's lifecycle record for one event.
#[derive(Clone, Copy, Debug, PartialEq, Eq, Structural)]
pub struct Attendee {
    /// The event this record belongs to.
    pub event: Pubkey,
    /// The registrant.
    pub owner: Pubkey,
    /// Where the record stands in its lifecycle.
    pub status: AttendeeStatus,
}

/// The same record with its status advanced.
pub open spec fn with_status(a: Attendee, status: AttendeeStatus) -> Attendee {
    Attendee { event: a.event, owner: a.owner, status }
}

/// The strict forward-only lifecycle of an attendee record.
///
/// `Pending` may move to `Verified` or `Rejected` by a scan, or directly to
/// `Claimed` by the community authority after the event has ended. `Claimed`
/// is terminal.
#[derive(Clone, Copy, Debug, PartialEq, Eq, Structural)]
pub enum AttendeeStatus {
    Pending,
    Verified,
    Rejected,
    Claimed,
}

} // verus!
