//! Cancelling an event.

use vstd::prelude::*;

use crate::error::FoshoErrors;
use crate::keys::Pubkey;
use crate::state::community::Community;
use crate::state::event::Event;

verus! {

/// The records involved in cancelling an event.
#[derive(Clone, Debug)]
pub struct CancelEvent {
    /// The event to cancel.
    pub event: Event,
    /// The address of the community record.
    pub community_key: Pubkey,
    /// The community the event belongs to.
    pub community: Community,
    /// The signing identity requesting the cancellation.
    pub authority: Pubkey,
}

/// What the storage layer guarantees about a resolved cancellation context:
/// the event really belongs to the given community record.
pub open spec fn cancel_event_wf(ctx: CancelEvent) -> bool {
    ctx.event.community == ctx.community_key
}

/// Cancels the event. Only the community authority may do so; the flag is
/// one-way and no funds move. On failure nothing changes.
pub fn cancel_event_handler(ctx: &mut CancelEvent) -> (r: Result<(), FoshoErrors>)
    requires
        cancel_event_wf(*old(ctx)),
    ensures
        r is Ok <==> old(ctx).authority == old(ctx).community.authority,
        r matches Err(e) ==> e == FoshoErrors::InvalidCommunityAuthority && *final(ctx) == *old(
            ctx,
        ),
        r is Ok ==> {
            &&& final(ctx).event.is_cancelled == true
            &&& final(ctx).event.community == old(ctx).event.community
            &&& final(ctx).event.reward_mint == old(ctx).event.reward_mint
            &&& final(ctx).event.event_version == old(ctx).event.event_version
            &&& final(ctx).event.event_authorities == old(ctx).event.event_authorities
            &&& final(ctx).event.commitment_fee == old(ctx).event.commitment_fee
            &&& final(ctx).event.nonce == old(ctx).event.nonce
            &&& final(ctx).event.reward_per_user == old(ctx).event.reward_per_user
            &&& final(ctx).event.authority_must_sign == old(ctx).event.authority_must_sign
            &&& final(ctx).community == old(ctx).community
            &&& final(ctx).community_key == old(ctx).community_key
            &&& final(ctx).authority == old(ctx).authority
        },
{
    if ctx.authority.id != ctx.community.authority.id {
        return Err(FoshoErrors::InvalidCommunityAuthority);
    }
    ctx.event.is_cancelled = true;
    Ok(())
}

} // verus!
