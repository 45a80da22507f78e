//! Rejecting attendance: the negative scan.
//!
//! Rejection deliberately tolerates a cancelled event: a scan that denies
//! attendance stays possible after cancellation, while verification does
//! not.

use vstd::prelude::*;

use crate::error::FoshoErrors;
use crate::keys::Pubkey;
use crate::state::attendee::{with_status, Attendee, AttendeeStatus};
use crate::state::collection::EventCollection;
use crate::state::community::Community;
use crate::state::event::{is_authority_for, Event};
use crate::state::ticket::{scanned_by, ScanOutcome, ScanRecord, Ticket};
use crate::utils::{check_if_already_scanned, cmp_pubkeys};

verus! {

/// The records involved in rejecting an attendee.
#[derive(Clone, Debug)]
pub struct RejectAttendee {
    /// The attendee record being rejected.
    pub attendee_record: Attendee,
    /// The address of the event record.
    pub event_key: Pubkey,
    /// The event.
    pub event: Event,
    /// The address of the community record.
    pub community_key: Pubkey,
    /// The community the event belongs to.
    pub community: Community,
    /// The event's descriptive record.
    pub event_collection: EventCollection,
    /// The address of the descriptive record.
    pub collection_key: Pubkey,
    /// The attendee's ticket.
    pub ticket: Ticket,
    /// The ticket's owner.
    pub owner: Pubkey,
    /// The signing authority performing the scan.
    pub event_authority: Pubkey,
}

/// What the storage layer guarantees about a resolved rejection context.
pub open spec fn reject_attendee_wf(ctx: RejectAttendee) -> bool {
    &&& ctx.attendee_record.event == ctx.event_key
    &&& ctx.event.community == ctx.community_key
    &&& ctx.event_collection.update_authority == ctx.community_key
    &&& ctx.owner == ctx.attendee_record.owner
    &&& ctx.ticket.owner == ctx.owner
    &&& ctx.ticket.collection == ctx.collection_key
}

/// Whether the ticket carries a scan entry under any of the given keys.
pub open spec fn any_authority_scanned(ticket: Ticket, keys: Seq<Pubkey>) -> bool {
    exists|i: int| 0 <= i < keys.len() && scanned_by(ticket, keys[i])
}

/// The first reason the scan itself is refused, if any: the ticket must
/// carry no scan entry under any event authority or under the community
/// authority.
pub open spec fn reject_scan_check(ctx: RejectAttendee) -> Option<FoshoErrors> {
    if any_authority_scanned(ctx.ticket, ctx.event.event_authorities@) || scanned_by(
        ctx.ticket,
        ctx.community.authority,
    ) {
        Some(FoshoErrors::AlreadyScanned)
    } else {
        None
    }
}

/// The first reason rejection fails, if any: the record must still be
/// pending, the scanner must be an authority, and the scan itself must go
/// through.
pub open spec fn reject_precheck(ctx: RejectAttendee) -> Option<FoshoErrors> {
    if ctx.attendee_record.status is Claimed {
        Some(FoshoErrors::AlreadyClaimed)
    } else if !(ctx.attendee_record.status is Pending) {
        Some(FoshoErrors::AlreadyScanned)
    } else if !is_authority_for(ctx.event, ctx.community, ctx.event_authority) {
        Some(FoshoErrors::InvalidEventAuthority)
    } else {
        reject_scan_check(ctx)
    }
}

impl RejectAttendee {
    /// Performs the scan: refuses a ticket that any event authority or the
    /// community authority has scanned before, and on success writes a scan
    /// entry tagged `Rejected` under the scanning authority's key and
    /// permanently freezes the ticket. The caller has already established
    /// that the scanner is an authority of this event.
    pub fn scan_ticket(&mut self) -> (r: Result<(), FoshoErrors>)
        requires
            is_authority_for(old(self).event, old(self).community, old(self).event_authority),
        ensures
            r is Ok <==> reject_scan_check(*old(self)) is None,
            r matches Err(e) ==> reject_scan_check(*old(self)) == Some(e) && *final(self) == *old(
                self,
            ),
            r is Ok ==> {
                &&& final(self).ticket.plugins.scan_records@ == old(
                    self,
                ).ticket.plugins.scan_records@.push(
                    ScanRecord {
                        authority: old(self).event_authority,
                        outcome: ScanOutcome::Rejected,
                    },
                )
                &&& final(self).ticket.plugins.frozen == true
                &&& final(self).ticket.owner == old(self).ticket.owner
                &&& final(self).ticket.collection == old(self).ticket.collection
                &&& final(self).ticket.name == old(self).ticket.name
                &&& final(self).ticket.uri == old(self).ticket.uri
                &&& final(self).ticket.plugins.attribute_list == old(
                    self,
                ).ticket.plugins.attribute_list
                &&& final(self).ticket.plugins.data_authority == old(
                    self,
                ).ticket.plugins.data_authority
                &&& final(self).attendee_record == old(self).attendee_record
                &&& final(self).event == old(self).event
                &&& final(self).community == old(self).community
                &&& final(self).event_collection == old(self).event_collection
                &&& final(self).event_key == old(self).event_key
                &&& final(self).community_key == old(self).community_key
                &&& final(self).collection_key == old(self).collection_key
                &&& final(self).owner == old(self).owner
                &&& final(self).event_authority == old(self).event_authority
            },
    {
        let mut i: usize = 0;
        while i < self.event.event_authorities.len()
            invariant
                0 <= i <= self.event.event_authorities@.len(),
                self == old(self),
                forall|j: int|
                    0 <= j < i ==> !scanned_by(self.ticket, self.event.event_authorities@[j]),
            decreases self.event.event_authorities@.len() - i,
        {
            match check_if_already_scanned(&self.ticket, &self.event.event_authorities[i]) {
                Ok(()) => {},
                Err(e) => {
                    proof {
                        assert(scanned_by(self.ticket, self.event.event_authorities@[i as int]));
                        assert(any_authority_scanned(self.ticket, self.event.event_authorities@));
                    }
                    return Err(e);
                },
            }
            i = i + 1;
        }
        match check_if_already_scanned(&self.ticket, &self.community.authority) {
            Ok(()) => {},
            Err(e) => {
                return Err(e);
            },
        }
        proof {
            if self.event_authority != self.community.authority {
                let k = choose|k: int|
                    0 <= k < self.event.event_authorities@.len()
                        && self.event.event_authorities@[k] == self.event_authority;
                assert(!scanned_by(self.ticket, self.event.event_authorities@[k]));
            }
        }
        let scanner = self.event_authority;
        self.ticket.push_scan_record(scanner, ScanOutcome::Rejected);
        self.ticket.plugins.frozen = true;
        Ok(())
    }
}

/// Marks a pending attendee as rejected: advances the record, writes a scan
/// entry tagged `Rejected` under the scanning authority's key, and
/// permanently freezes the ticket. On failure nothing changes.
pub fn reject_attendee_handler(ctx: &mut RejectAttendee) -> (r: Result<(), FoshoErrors>)
    requires
        reject_attendee_wf(*old(ctx)),
    ensures
        r is Ok <==> reject_precheck(*old(ctx)) is None,
        r matches Err(e) ==> reject_precheck(*old(ctx)) == Some(e) && *final(ctx) == *old(ctx),
        r is Ok ==> {
            &&& final(ctx).attendee_record == with_status(
                old(ctx).attendee_record,
                AttendeeStatus::Rejected,
            )
            &&& final(ctx).ticket.plugins.scan_records@ == old(
                ctx,
            ).ticket.plugins.scan_records@.push(
                ScanRecord {
                    authority: old(ctx).event_authority,
                    outcome: ScanOutcome::Rejected,
                },
            )
            &&& final(ctx).ticket.plugins.frozen == true
            &&& final(ctx).ticket.owner == old(ctx).ticket.owner
            &&& final(ctx).ticket.collection == old(ctx).ticket.collection
            &&& final(ctx).ticket.name == old(ctx).ticket.name
            &&& final(ctx).ticket.uri == old(ctx).ticket.uri
            &&& final(ctx).ticket.plugins.attribute_list == old(ctx).ticket.plugins.attribute_list
            &&& final(ctx).ticket.plugins.data_authority == old(ctx).ticket.plugins.data_authority
            &&& final(ctx).event == old(ctx).event
            &&& final(ctx).community == old(ctx).community
            &&& final(ctx).event_collection == old(ctx).event_collection
            &&& final(ctx).event_key == old(ctx).event_key
            &&& final(ctx).community_key == old(ctx).community_key
            &&& final(ctx).collection_key == old(ctx).collection_key
            &&& final(ctx).owner == old(ctx).owner
            &&& final(ctx).event_authority == old(ctx).event_authority
        },
{
    match ctx.attendee_record.status {
        AttendeeStatus::Pending => {},
        AttendeeStatus::Claimed => {
            return Err(FoshoErrors::AlreadyClaimed);
        },
        AttendeeStatus::Rejected => {
            return Err(FoshoErrors::AlreadyScanned);
        },
        AttendeeStatus::Verified => {
            return Err(FoshoErrors::AlreadyScanned);
        },
    }
    let is_community_authority = cmp_pubkeys(&ctx.event_authority, &ctx.community.authority);
    if !is_community_authority && !ctx.event.is_event_authority(&ctx.event_authority) {
        return Err(FoshoErrors::InvalidEventAuthority);
    }
    match ctx.scan_ticket() {
        Ok(()) => {},
        Err(e) => {
            return Err(e);
        },
    }
    ctx.attendee_record.status = AttendeeStatus::Rejected;
    Ok(())
}

} // verus!
