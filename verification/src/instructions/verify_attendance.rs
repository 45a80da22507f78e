//! Verifying attendance: the positive scan.

use vstd::prelude::*;

use crate::attributes::{attr_num_u64, attrs_view};
use crate::error::FoshoErrors;
use crate::keys::Pubkey;
use crate::state::attendee::{with_status, Attendee, AttendeeStatus};
use crate::state::collection::EventCollection;
use crate::state::community::Community;
use crate::state::event::{is_authority_for, Event};
use crate::state::ticket::{scanned_by, ScanOutcome, ScanRecord, Ticket};
use crate::utils::{
    check_if_already_scanned, cmp_pubkeys, get_event_ends_at_from_attributes,
    get_event_starts_at_from_attributes,
};

verus! {

/// The records involved in verifying an attendee.
#[derive(Clone, Debug)]
pub struct VerifyAttendee {
    /// The attendee record being verified.
    pub attendee_record: Attendee,
    /// The address of the event record.
    pub event_key: Pubkey,
    /// The event.
    pub event: Event,
    /// The address of the community record.
    pub community_key: Pubkey,
    /// The community the event belongs to.
    pub community: Community,
    /// The event's descriptive record.
    pub event_collection: EventCollection,
    /// The address of the descriptive record.
    pub collection_key: Pubkey,
    /// The attendee's ticket.
    pub ticket: Ticket,
    /// The ticket's owner.
    pub owner: Pubkey,
    /// The signing authority performing the scan.
    pub event_authority: Pubkey,
}

/// What the storage layer guarantees about a resolved verification context.
pub open spec fn verify_attendee_wf(ctx: VerifyAttendee) -> bool {
    &&& ctx.attendee_record.event == ctx.event_key
    &&& ctx.event.community == ctx.community_key
    &&& ctx.event_collection.update_authority == ctx.community_key
    &&& ctx.owner == ctx.attendee_record.owner
    &&& ctx.ticket.owner == ctx.owner
    &&& ctx.ticket.collection == ctx.collection_key
}

/// The first reason the scan itself is refused, if any: the ticket must
/// carry no scan entry under the scanner or the community authority, and
/// the current time must lie in the occurrence window when one is
/// configured.
pub open spec fn verify_scan_check(ctx: VerifyAttendee, now: u64) -> Option<FoshoErrors> {
    let attrs = attrs_view(ctx.event_collection.attributes@);
    if scanned_by(ctx.ticket, ctx.event_authority) || scanned_by(
        ctx.ticket,
        ctx.community.authority,
    ) {
        Some(FoshoErrors::AlreadyScanned)
    } else {
        match (attr_num_u64(attrs, "Event Starts At"@), attr_num_u64(attrs, "Event Ends At"@)) {
            (Ok(event_starts_at), Ok(event_ends_at)) => if event_starts_at != 0 && now
                < event_starts_at {
                Some(FoshoErrors::EventHasNotStarted)
            } else if event_ends_at != 0 && now > event_ends_at {
                Some(FoshoErrors::EventEnded)
            } else {
                None
            },
            _ => Some(FoshoErrors::NumericalOverflow),
        }
    }
}

/// The first reason verification fails, if any: the event must not be
/// cancelled, the record must still be pending, the scanner must be an
/// authority, and the scan itself must go through.
pub open spec fn verify_precheck(ctx: VerifyAttendee, now: u64) -> Option<FoshoErrors> {
    if ctx.event.is_cancelled {
        Some(FoshoErrors::EventCancelled)
    } else if ctx.attendee_record.status is Claimed {
        Some(FoshoErrors::AlreadyClaimed)
    } else if !(ctx.attendee_record.status is Pending) {
        Some(FoshoErrors::AlreadyScanned)
    } else if !is_authority_for(ctx.event, ctx.community, ctx.event_authority) {
        Some(FoshoErrors::InvalidEventAuthority)
    } else {
        verify_scan_check(ctx, now)
    }
}

impl VerifyAttendee {
    /// Performs the scan: refuses a ticket already scanned by this scanner
    /// or by the community authority, checks the occurrence window, and on
    /// success writes a scan entry tagged `Verified` under the community
    /// authority's key and permanently freezes the ticket.
    pub fn scan_ticket(&mut self, now: u64) -> (r: Result<(), FoshoErrors>)
        ensures
            r is Ok <==> verify_scan_check(*old(self), now) is None,
            r matches Err(e) ==> verify_scan_check(*old(self), now) == Some(e) && *final(self)
                == *old(self),
            r is Ok ==> {
                &&& final(self).ticket.plugins.scan_records@ == old(
                    self,
                ).ticket.plugins.scan_records@.push(
                    ScanRecord {
                        authority: old(self).community.authority,
                        outcome: ScanOutcome::Verified,
                    },
                )
                &&& final(self).ticket.plugins.frozen == true
                &&& final(self).ticket.owner == old(self).ticket.owner
                &&& final(self).ticket.collection == old(self).ticket.collection
                &&& final(self).ticket.name == old(self).ticket.name
                &&& final(self).ticket.uri == old(self).ticket.uri
                &&& final(self).ticket.plugins.attribute_list == old(
                    self,
                ).ticket.plugins.attribute_list
                &&& final(self).ticket.plugins.data_authority == old(
                    self,
                ).ticket.plugins.data_authority
                &&& final(self).attendee_record == old(self).attendee_record
                &&& final(self).event == old(self).event
                &&& final(self).community == old(self).community
                &&& final(self).event_collection == old(self).event_collection
                &&& final(self).event_key == old(self).event_key
                &&& final(self).community_key == old(self).community_key
                &&& final(self).collection_key == old(self).collection_key
                &&& final(self).owner == old(self).owner
                &&& final(self).event_authority == old(self).event_authority
            },
    {
        match check_if_already_scanned(&self.ticket, &self.event_authority) {
            Ok(()) => {},
            Err(e) => {
                return Err(e);
            },
        }
        match check_if_already_scanned(&self.ticket, &self.community.authority) {
            Ok(()) => {},
            Err(e) => {
                return Err(e);
            },
        }
        let event_starts_at = match get_event_starts_at_from_attributes(
            &self.event_collection.attributes,
        ) {
            Ok(v) => v,
            Err(e) => {
                return Err(e);
            },
        };
        let event_ends_at = match get_event_ends_at_from_attributes(
            &self.event_collection.attributes,
        ) {
            Ok(v) => v,
            Err(e) => {
                return Err(e);
            },
        };
        if event_starts_at != 0 && now < event_starts_at {
            return Err(FoshoErrors::EventHasNotStarted);
        }
        if event_ends_at != 0 && now > event_ends_at {
            return Err(FoshoErrors::EventEnded);
        }
        let community_authority = self.community.authority;
        self.ticket.push_scan_record(community_authority, ScanOutcome::Verified);
        self.ticket.plugins.frozen = true;
        Ok(())
    }
}

/// Marks a pending attendee as verified: advances the record, writes a scan
/// entry tagged `Verified` under the community authority's key, and
/// permanently freezes the ticket. On failure nothing changes.
pub fn verify_attendee_handler(ctx: &mut VerifyAttendee, now: u64) -> (r: Result<(), FoshoErrors>)
    requires
        verify_attendee_wf(*old(ctx)),
    ensures
        r is Ok <==> verify_precheck(*old(ctx), now) is None,
        r matches Err(e) ==> verify_precheck(*old(ctx), now) == Some(e) && *final(ctx) == *old(
            ctx,
        ),
        r is Ok ==> {
            &&& final(ctx).attendee_record == with_status(
                old(ctx).attendee_record,
                AttendeeStatus::Verified,
            )
            &&& final(ctx).ticket.plugins.scan_records@ == old(
                ctx,
            ).ticket.plugins.scan_records@.push(
                ScanRecord {
                    authority: old(ctx).community.authority,
                    outcome: ScanOutcome::Verified,
                },
            )
            &&& final(ctx).ticket.plugins.frozen == true
            &&& final(ctx).ticket.owner == old(ctx).ticket.owner
            &&& final(ctx).ticket.collection == old(ctx).ticket.collection
            &&& final(ctx).ticket.name == old(ctx).ticket.name
            &&& final(ctx).ticket.uri == old(ctx).ticket.uri
            &&& final(ctx).ticket.plugins.attribute_list == old(ctx).ticket.plugins.attribute_list
            &&& final(ctx).ticket.plugins.data_authority == old(ctx).ticket.plugins.data_authority
            &&& final(ctx).event == old(ctx).event
            &&& final(ctx).community == old(ctx).community
            &&& final(ctx).event_collection == old(ctx).event_collection
            &&& final(ctx).event_key == old(ctx).event_key
            &&& final(ctx).community_key == old(ctx).community_key
            &&& final(ctx).collection_key == old(ctx).collection_key
            &&& final(ctx).owner == old(ctx).owner
            &&& final(ctx).event_authority == old(ctx).event_authority
        },
{
    if ctx.event.is_cancelled {
        return Err(FoshoErrors::EventCancelled);
    }
    match ctx.attendee_record.status {
        AttendeeStatus::Pending => {},
        AttendeeStatus::Claimed => {
            return Err(FoshoErrors::AlreadyClaimed);
        },
        AttendeeStatus::Rejected => {
            return Err(FoshoErrors::AlreadyScanned);
        },
        AttendeeStatus::Verified => {
            return Err(FoshoErrors::AlreadyScanned);
        },
    }
    let is_community_authority = cmp_pubkeys(&ctx.event_authority, &ctx.community.authority);
    if !is_community_authority && !ctx.event.is_event_authority(&ctx.event_authority) {
        return Err(FoshoErrors::InvalidEventAuthority);
    }
    match ctx.scan_ticket(now) {
        Ok(()) => {},
        Err(e) => {
            return Err(e);
        },
    }
    ctx.attendee_record.status = AttendeeStatus::Verified;
    Ok(())
}

} // verus!
