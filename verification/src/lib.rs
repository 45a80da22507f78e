//! A ticketed-event lifecycle with escrowed payments and eligibility gating.
//!
//! Communities publish events; attendees register, receive a ticket, and may
//! later be verified or rejected by an event authority; rewards and commitment
//! fees are escrowed on the event and released on claim. All record types are
//! plain data; every state transition is a total, verified function from the
//! relevant records and the current time to either the updated records or an
//! error, with no partial effects on failure.

pub mod attributes;
pub mod error;
pub mod instructions;
pub mod keys;
pub mod laws;
pub mod state;
pub mod text;
pub mod utils;

use vstd::prelude::*;

use crate::attributes::attrs_view;
use crate::error::FoshoErrors;
use crate::instructions::cancel_event::{cancel_event_wf, CancelEvent};
use crate::instructions::claim_rewards::{
    claim_precheck, claim_rewards_wf, claim_same_records, ClaimRewards,
};
use crate::instructions::create_community::CreateCommunity;
use crate::instructions::create_event::{
    collection_attr_views, create_event_precheck, max_attendees, opt_view, CreateEvent,
};
use crate::instructions::join_event::{
    issued_ticket, join_event_wf, join_precheck, join_same_records, JoinEvent,
};
use crate::instructions::reject_attendance::{reject_attendee_wf, reject_precheck, RejectAttendee};
use crate::instructions::verify_attendance::{
    verify_attendee_wf, verify_precheck, VerifyAttendee,
};
use crate::keys::Pubkey;
use crate::state::attendee::{with_status, Attendee, AttendeeStatus};
use crate::state::collection::EventCollection;
use crate::state::community::Community;
use crate::state::event::{Event, EventType, EventVersion};
use crate::state::ticket::{ScanOutcome, ScanRecord, Ticket};

verus! {

/// Creates an organizer namespace owned by the signing authority.
pub fn create_community(ctx: &CreateCommunity, seed: Pubkey, community_name: String) -> (c:
    Community)
    ensures
        c.seed == seed,
        c.authority == ctx.authority,
        c.events_count == 0,
        c.name == community_name,
{
    crate::instructions::create_community::create_community_handler(ctx, seed, community_name)
}

/// Creates an event under a community; see
/// [`instructions::create_event::create_event_handler`].
pub fn create_event(
    ctx: &mut CreateEvent,
    name: String,
    uri: String,
    event_type: EventType,
    organizer: String,
    commitment_fee: u64,
    event_starts_at: Option<u64>,
    event_ends_at: Option<u64>,
    registration_starts_at: Option<u64>,
    registration_ends_at: Option<u64>,
    capacity: Option<u64>,
    location: Option<String>,
    virtual_link: Option<String>,
    description: Option<String>,
    reward_per_user: u64,
    event_authorities: Vec<Pubkey>,
    authority_must_sign: bool,
    now: u64,
) -> (r: Result<(Event, EventCollection), FoshoErrors>)
    requires
        old(ctx).community.events_count < u32::MAX,
        event_authorities@.len() <= crate::state::event::MAX_EVENT_AUTHORITIES,
    ensures
        r is Ok <==> create_event_precheck(
            *old(ctx),
            event_starts_at,
            registration_ends_at,
            capacity,
            reward_per_user,
            now,
        ) is None,
        r matches Err(e) ==> create_event_precheck(
            *old(ctx),
            event_starts_at,
            registration_ends_at,
            capacity,
            reward_per_user,
            now,
        ) == Some(e) && *final(ctx) == *old(ctx),
        r matches Ok((event, col)) ==> {
            &&& event.community == old(ctx).community_key
            &&& event.reward_mint == old(ctx).reward_mint
            &&& event.event_version == EventVersion::Regular
            &&& event.event_authorities == event_authorities
            &&& event.commitment_fee == commitment_fee
            &&& event.nonce == old(ctx).community.events_count
            &&& event.reward_per_user == reward_per_user
            &&& event.is_cancelled == false
            &&& event.authority_must_sign == authority_must_sign
            &&& col.name == name
            &&& col.uri == uri
            &&& col.update_authority == old(ctx).community_key
            &&& col.num_minted == 0
            &&& attrs_view(col.attributes@) == collection_attr_views(
                event_type,
                organizer@,
                commitment_fee,
                event_starts_at,
                event_ends_at,
                registration_starts_at,
                registration_ends_at,
                capacity,
                opt_view(location),
                opt_view(virtual_link),
                opt_view(description),
            )
            &&& final(ctx).community.events_count == old(ctx).community.events_count + 1
            &&& if reward_per_user > 0 {
                &&& final(ctx).reward_account matches Some(escrow) && escrow == old(
                    ctx,
                ).reward_account->Some_0 + reward_per_user * max_attendees(capacity)
                &&& final(ctx).sender_account matches Some(sender) && sender == old(
                    ctx,
                ).sender_account->Some_0 - reward_per_user * max_attendees(capacity)
            } else {
                &&& final(ctx).reward_account == old(ctx).reward_account
                &&& final(ctx).sender_account == old(ctx).sender_account
            }
        },
{
    crate::instructions::create_event::create_event_handler(
        ctx,
        name,
        uri,
        event_type,
        organizer,
        commitment_fee,
        event_starts_at,
        event_ends_at,
        registration_starts_at,
        registration_ends_at,
        capacity,
        location,
        virtual_link,
        description,
        reward_per_user,
        event_authorities,
        authority_must_sign,
        now,
    )
}

/// Registers the signing attendee for an event; see
/// [`instructions::join_event::join_event_handler`].
pub fn join_event(ctx: &mut JoinEvent, now: u64) -> (r: Result<(Attendee, Ticket), FoshoErrors>)
    requires
        join_event_wf(*old(ctx)),
        old(ctx).event_collection.num_minted < u32::MAX,
    ensures
        r is Ok <==> join_precheck(*old(ctx), now) is None,
        r matches Err(e) ==> join_precheck(*old(ctx), now) == Some(e) && *final(ctx) == *old(ctx),
        r matches Ok((a, t)) ==> {
            &&& a.event == old(ctx).event_key
            &&& a.owner == old(ctx).attendee
            &&& a.status == AttendeeStatus::Pending
            &&& issued_ticket(*old(ctx), t, (old(ctx).event_collection.num_minted + 1) as u32)
            &&& join_same_records(*old(ctx), *final(ctx))
            &&& final(ctx).event_collection.num_minted == old(ctx).event_collection.num_minted + 1
            &&& if old(ctx).event.commitment_fee > 0 {
                &&& final(ctx).attendee_lamports == old(ctx).attendee_lamports - old(
                    ctx,
                ).event.commitment_fee
                &&& final(ctx).event_lamports == old(ctx).event_lamports + old(
                    ctx,
                ).event.commitment_fee
            } else {
                &&& final(ctx).attendee_lamports == old(ctx).attendee_lamports
                &&& final(ctx).event_lamports == old(ctx).event_lamports
            }
        },
{
    crate::instructions::join_event::join_event_handler(ctx, now)
}

/// Marks a pending attendee verified; see
/// [`instructions::verify_attendance::verify_attendee_handler`].
pub fn verify_attendee(ctx: &mut VerifyAttendee, now: u64) -> (r: Result<(), FoshoErrors>)
    requires
        verify_attendee_wf(*old(ctx)),
    ensures
        r is Ok <==> verify_precheck(*old(ctx), now) is None,
        r matches Err(e) ==> verify_precheck(*old(ctx), now) == Some(e) && *final(ctx) == *old(
            ctx,
        ),
        r is Ok ==> {
            &&& final(ctx).attendee_record == with_status(
                old(ctx).attendee_record,
                AttendeeStatus::Verified,
            )
            &&& final(ctx).ticket.plugins.frozen
            &&& final(ctx).ticket.plugins.scan_records@ == old(
                ctx,
            ).ticket.plugins.scan_records@.push(
                ScanRecord {
                    authority: old(ctx).community.authority,
                    outcome: ScanOutcome::Verified,
                },
            )
            &&& final(ctx).ticket.owner == old(ctx).ticket.owner
            &&& final(ctx).ticket.name == old(ctx).ticket.name
            &&& final(ctx).ticket.uri == old(ctx).ticket.uri
            &&& final(ctx).ticket.plugins.attribute_list == old(ctx).ticket.plugins.attribute_list
            &&& final(ctx).event == old(ctx).event
            &&& final(ctx).community == old(ctx).community
            &&& final(ctx).event_collection == old(ctx).event_collection
        },
{
    crate::instructions::verify_attendance::verify_attendee_handler(ctx, now)
}

/// Marks a pending attendee rejected; see
/// [`instructions::reject_attendance::reject_attendee_handler`].
pub fn reject_attendee(ctx: &mut RejectAttendee) -> (r: Result<(), FoshoErrors>)
    requires
        reject_attendee_wf(*old(ctx)),
    ensures
        r is Ok <==> reject_precheck(*old(ctx)) is None,
        r matches Err(e) ==> reject_precheck(*old(ctx)) == Some(e) && *final(ctx) == *old(ctx),
        r is Ok ==> {
            &&& final(ctx).attendee_record == with_status(
                old(ctx).attendee_record,
                AttendeeStatus::Rejected,
            )
            &&& final(ctx).ticket.plugins.frozen
            &&& final(ctx).ticket.plugins.scan_records@ == old(
                ctx,
            ).ticket.plugins.scan_records@.push(
                ScanRecord {
                    authority: old(ctx).event_authority,
                    outcome: ScanOutcome::Rejected,
                },
            )
            &&& final(ctx).ticket.owner == old(ctx).ticket.owner
            &&& final(ctx).ticket.name == old(ctx).ticket.name
            &&& final(ctx).ticket.uri == old(ctx).ticket.uri
            &&& final(ctx).ticket.plugins.attribute_list == old(ctx).ticket.plugins.attribute_list
            &&& final(ctx).event == old(ctx).event
            &&& final(ctx).community == old(ctx).community
            &&& final(ctx).event_collection == old(ctx).event_collection
        },
{
    crate::instructions::reject_attendance::reject_attendee_handler(ctx)
}

/// Cancels an event; see
/// [`instructions::cancel_event::cancel_event_handler`].
pub fn cancel_event(ctx: &mut CancelEvent) -> (r: Result<(), FoshoErrors>)
    requires
        cancel_event_wf(*old(ctx)),
    ensures
        r is Ok <==> old(ctx).authority == old(ctx).community.authority,
        r matches Err(e) ==> e == FoshoErrors::InvalidCommunityAuthority && *final(ctx) == *old(
            ctx,
        ),
        r is Ok ==> {
            &&& final(ctx).event.is_cancelled == true
            &&& final(ctx).event.community == old(ctx).event.community
            &&& final(ctx).event.reward_mint == old(ctx).event.reward_mint
            &&& final(ctx).event.event_version == old(ctx).event.event_version
            &&& final(ctx).event.event_authorities == old(ctx).event.event_authorities
            &&& final(ctx).event.commitment_fee == old(ctx).event.commitment_fee
            &&& final(ctx).event.nonce == old(ctx).event.nonce
            &&& final(ctx).event.reward_per_user == old(ctx).event.reward_per_user
            &&& final(ctx).event.authority_must_sign == old(ctx).event.authority_must_sign
            &&& final(ctx).community == old(ctx).community
        },
{
    crate::instructions::cancel_event::cancel_event_handler(ctx)
}

/// Claims an attendee record's rewards; see
/// [`instructions::claim_rewards::claim_rewards_handler`].
pub fn claim_rewards(ctx: &mut ClaimRewards, now: u64) -> (r: Result<(), FoshoErrors>)
    requires
        claim_rewards_wf(*old(ctx)),
    ensures
        r is Ok <==> claim_precheck(*old(ctx), now) is None,
        r matches Err(e) ==> claim_precheck(*old(ctx), now) == Some(e) && *final(ctx) == *old(
            ctx,
        ),
        r is Ok ==> {
            &&& claim_same_records(*old(ctx), *final(ctx))
            &&& final(ctx).attendee_record == with_status(
                old(ctx).attendee_record,
                AttendeeStatus::Claimed,
            )
            &&& if old(ctx).event.reward_per_user > 0 {
                &&& final(ctx).reward_account matches Some(escrow) && escrow == old(
                    ctx,
                ).reward_account->Some_0 - old(ctx).event.reward_per_user
                &&& final(ctx).receiver_account matches Some(receiver) && receiver == old(
                    ctx,
                ).receiver_account->Some_0 + old(ctx).event.reward_per_user
            } else {
                &&& final(ctx).reward_account == old(ctx).reward_account
                &&& final(ctx).receiver_account == old(ctx).receiver_account
            }
            &&& if old(ctx).event.commitment_fee > 0 {
                &&& final(ctx).event_lamports == old(ctx).event_lamports - old(
                    ctx,
                ).event.commitment_fee
                &&& final(ctx).claimer_lamports == old(ctx).claimer_lamports + old(
                    ctx,
                ).event.commitment_fee
            } else {
                &&& final(ctx).event_lamports == old(ctx).event_lamports
                &&& final(ctx).claimer_lamports == old(ctx).claimer_lamports
            }
        },
{
    crate::instructions::claim_rewards::claim_rewards_handler(ctx, now)
}

} // verus!
