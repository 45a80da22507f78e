//! Claiming escrowed rewards and the commitment fee.

use vstd::prelude::*;

use crate::attributes::{attr_num_u64, attrs_view};
use crate::error::FoshoErrors;
use crate::keys::Pubkey;
use crate::state::attendee::{with_status, Attendee, AttendeeStatus};
use crate::state::collection::EventCollection;
use crate::state::community::Community;
use crate::state::event::Event;
use crate::utils::get_event_ends_at_from_attributes;

verus! {

/// The records involved in claiming.
#[derive(Clone, Debug)]
pub struct ClaimRewards {
    /// The attendee record being claimed.
    pub attendee_record: Attendee,
    /// The address of the event record.
    pub event_key: Pubkey,
    /// The event.
    pub event: Event,
    /// The address of the community record.
    pub community_key: Pubkey,
    /// The community the event belongs to.
    pub community: Community,
    /// The event's descriptive record.
    pub event_collection: EventCollection,
    /// The address of the descriptive record.
    pub collection_key: Pubkey,
    /// The reward asset, when supplied with the claim.
    pub reward_mint: Option<Pubkey>,
    /// The event's reward escrow balance, when supplied.
    pub reward_account: Option<u64>,
    /// The claimer's receiving balance, when supplied.
    pub receiver_account: Option<u64>,
    /// The signing identity claiming.
    pub claimer: Pubkey,
    /// The claimer's native balance.
    pub claimer_lamports: u64,
    /// The event's native balance holding the escrowed fees.
    pub event_lamports: u64,
}

/// What the storage layer guarantees about a resolved claim context.
pub open spec fn claim_rewards_wf(ctx: ClaimRewards) -> bool {
    &&& ctx.attendee_record.event == ctx.event_key
    &&& ctx.event.community == ctx.community_key
    &&& ctx.event_collection.update_authority == ctx.community_key
}

/// The two contexts agree on everything but the attendee record and the
/// four balances.
pub open spec fn claim_same_records(a: ClaimRewards, b: ClaimRewards) -> bool {
    &&& b.event_key == a.event_key
    &&& b.event == a.event
    &&& b.community_key == a.community_key
    &&& b.community == a.community
    &&& b.event_collection == a.event_collection
    &&& b.collection_key == a.collection_key
    &&& b.reward_mint == a.reward_mint
    &&& b.claimer == a.claimer
}

/// The status the claim is judged against: cancellation waives the
/// attendance proof, so a pending record on a cancelled event counts as
/// verified.
pub open spec fn effective_status(ctx: ClaimRewards) -> AttendeeStatus {
    if ctx.event.is_cancelled && ctx.attendee_record.status is Pending {
        AttendeeStatus::Verified
    } else {
        ctx.attendee_record.status
    }
}

/// Who may claim, judged by the effective status: a still-pending record
/// only by the community authority and only once the event has ended; a
/// rejected record only by the community authority; a verified record only
/// by the attendee; a claimed record by nobody, ever again.
pub open spec fn claim_auth_err(ctx: ClaimRewards, now: u64) -> Option<FoshoErrors> {
    match effective_status(ctx) {
        AttendeeStatus::Pending => if ctx.claimer != ctx.community.authority {
            Some(FoshoErrors::AttendeeStatusPending)
        } else {
            match attr_num_u64(attrs_view(ctx.event_collection.attributes@), "Event Ends At"@) {
                Ok(event_ends_at) => if event_ends_at != 0 && now <= event_ends_at {
                    Some(FoshoErrors::EventHasNotEnded)
                } else {
                    None
                },
                Err(e) => Some(e),
            }
        },
        AttendeeStatus::Claimed => Some(FoshoErrors::AlreadyClaimed),
        AttendeeStatus::Rejected => if ctx.claimer != ctx.community.authority {
            Some(FoshoErrors::InvalidClaimer)
        } else {
            None
        },
        AttendeeStatus::Verified => if ctx.claimer != ctx.attendee_record.owner {
            Some(FoshoErrors::InvalidClaimer)
        } else {
            None
        },
    }
}

/// The first reason the fund movements cannot be made, if any: a positive
/// reward needs the asset, the escrow and the receiving balance supplied
/// together, enough escrow, and room in the receiving balance; a positive
/// fee needs enough escrowed native balance and room at the claimer.
pub open spec fn claim_funds_err(ctx: ClaimRewards) -> Option<FoshoErrors> {
    if ctx.event.reward_per_user > 0 {
        match (ctx.reward_mint, ctx.reward_account, ctx.receiver_account) {
            (Some(_), Some(escrow), Some(receiver)) => if escrow < ctx.event.reward_per_user {
                Some(FoshoErrors::InsufficientFunds)
            } else if receiver + ctx.event.reward_per_user > u64::MAX {
                Some(FoshoErrors::NumericalOverflow)
            } else {
                claim_fee_err(ctx)
            },
            _ => Some(FoshoErrors::AccountNotProvided),
        }
    } else {
        claim_fee_err(ctx)
    }
}

/// The first reason the fee payout cannot be made, if any.
pub open spec fn claim_fee_err(ctx: ClaimRewards) -> Option<FoshoErrors> {
    if ctx.event.commitment_fee > 0 {
        if ctx.event_lamports < ctx.event.commitment_fee {
            Some(FoshoErrors::InsufficientFunds)
        } else if ctx.claimer_lamports + ctx.event.commitment_fee > u64::MAX {
            Some(FoshoErrors::NumericalOverflow)
        } else {
            None
        }
    } else {
        None
    }
}

/// The first reason the whole claim fails, if any.
pub open spec fn claim_precheck(ctx: ClaimRewards, now: u64) -> Option<FoshoErrors> {
    match claim_auth_err(ctx, now) {
        Some(e) => Some(e),
        None => claim_funds_err(ctx),
    }
}

impl ClaimRewards {
    /// Moves the per-attendee reward from the event's escrow to the
    /// claimer's receiving balance.
    pub fn claim_reward_tokens(&mut self)
        requires
            old(self).reward_account matches Some(escrow) && escrow >= old(
                self,
            ).event.reward_per_user,
            old(self).receiver_account matches Some(receiver) && receiver + old(
                self,
            ).event.reward_per_user <= u64::MAX,
        ensures
            claim_same_records(*old(self), *final(self)),
            final(self).attendee_record == old(self).attendee_record,
            final(self).claimer_lamports == old(self).claimer_lamports,
            final(self).event_lamports == old(self).event_lamports,
            final(self).reward_account matches Some(escrow) && escrow == old(
                self,
            ).reward_account->Some_0 - old(self).event.reward_per_user,
            final(self).receiver_account matches Some(receiver) && receiver == old(
                self,
            ).receiver_account->Some_0 + old(self).event.reward_per_user,
    {
        let escrow = self.reward_account.unwrap();
        let receiver = self.receiver_account.unwrap();
        let amount = self.event.reward_per_user;
        self.reward_account = Some(escrow - amount);
        self.receiver_account = Some(receiver + amount);
    }

    /// Moves the commitment fee from the event's native escrow to the
    /// claimer.
    pub fn claim_commitment_fee(&mut self, commitment_fee: u64)
        requires
            old(self).event_lamports >= commitment_fee,
            old(self).claimer_lamports + commitment_fee <= u64::MAX,
        ensures
            claim_same_records(*old(self), *final(self)),
            final(self).attendee_record == old(self).attendee_record,
            final(self).reward_account == old(self).reward_account,
            final(self).receiver_account == old(self).receiver_account,
            final(self).event_lamports == old(self).event_lamports - commitment_fee,
            final(self).claimer_lamports == old(self).claimer_lamports + commitment_fee,
    {
        self.event_lamports = self.event_lamports - commitment_fee;
        self.claimer_lamports = self.claimer_lamports + commitment_fee;
    }
}

/// Claims an attendee record: advances it to `Claimed` — irreversibly — and
/// releases the reward and the commitment fee where configured. On failure
/// nothing changes.
pub fn claim_rewards_handler(ctx: &mut ClaimRewards, now: u64) -> (r: Result<(), FoshoErrors>)
    requires
        claim_rewards_wf(*old(ctx)),
    ensures
        r is Ok <==> claim_precheck(*old(ctx), now) is None,
        r matches Err(e) ==> claim_precheck(*old(ctx), now) == Some(e) && *final(ctx) == *old(
            ctx,
        ),
        r is Ok ==> {
            &&& claim_same_records(*old(ctx), *final(ctx))
            &&& final(ctx).attendee_record == with_status(
                old(ctx).attendee_record,
                AttendeeStatus::Claimed,
            )
            &&& if old(ctx).event.reward_per_user > 0 {
                &&& final(ctx).reward_account matches Some(escrow) && escrow == old(
                    ctx,
                ).reward_account->Some_0 - old(ctx).event.reward_per_user
                &&& final(ctx).receiver_account matches Some(receiver) && receiver == old(
                    ctx,
                ).receiver_account->Some_0 + old(ctx).event.reward_per_user
            } else {
                &&& final(ctx).reward_account == old(ctx).reward_account
                &&& final(ctx).receiver_account == old(ctx).receiver_account
            }
            &&& if old(ctx).event.commitment_fee > 0 {
                &&& final(ctx).event_lamports == old(ctx).event_lamports - old(
                    ctx,
                ).event.commitment_fee
                &&& final(ctx).claimer_lamports == old(ctx).claimer_lamports + old(
                    ctx,
                ).event.commitment_fee
            } else {
                &&& final(ctx).event_lamports == old(ctx).event_lamports
                &&& final(ctx).claimer_lamports == old(ctx).claimer_lamports
            }
        },
{
    let mut effective = ctx.attendee_record.status;
    if ctx.event.is_cancelled {
        match ctx.attendee_record.status {
            AttendeeStatus::Pending => {
                effective = AttendeeStatus::Verified;
            },
            _ => {},
        }
    }
    match effective {
        AttendeeStatus::Pending => {
            if ctx.claimer.id != ctx.community.authority.id {
                return Err(FoshoErrors::AttendeeStatusPending);
            }
            let event_ends_at = match get_event_ends_at_from_attributes(
                &ctx.event_collection.attributes,
            ) {
                Ok(v) => v,
                Err(e) => {
                    return Err(e);
                },
            };
            if event_ends_at != 0 && now <= event_ends_at {
                return Err(FoshoErrors::EventHasNotEnded);
            }
        },
        AttendeeStatus::Claimed => {
            return Err(FoshoErrors::AlreadyClaimed);
        },
        AttendeeStatus::Rejected => {
            if ctx.claimer.id != ctx.community.authority.id {
                return Err(FoshoErrors::InvalidClaimer);
            }
        },
        AttendeeStatus::Verified => {
            if ctx.claimer.id != ctx.attendee_record.owner.id {
                return Err(FoshoErrors::InvalidClaimer);
            }
        },
    }
    let reward = ctx.event.reward_per_user;
    if reward > 0 {
        if ctx.reward_mint.is_none() || ctx.reward_account.is_none()
            || ctx.receiver_account.is_none() {
            return Err(FoshoErrors::AccountNotProvided);
        }
        let escrow = ctx.reward_account.unwrap();
        let receiver = ctx.receiver_account.unwrap();
        if escrow < reward {
            return Err(FoshoErrors::InsufficientFunds);
        }
        if receiver > u64::MAX - reward {
            return Err(FoshoErrors::NumericalOverflow);
        }
    }
    let commitment_fee = ctx.event.commitment_fee;
    if commitment_fee > 0 {
        if ctx.event_lamports < commitment_fee {
            return Err(FoshoErrors::InsufficientFunds);
        }
        if ctx.claimer_lamports > u64::MAX - commitment_fee {
            return Err(FoshoErrors::NumericalOverflow);
        }
    }
    ctx.attendee_record.status = AttendeeStatus::Claimed;
    if reward > 0 {
        ctx.claim_reward_tokens();
    }
    if commitment_fee > 0 {
        ctx.claim_commitment_fee(commitment_fee);
    }
    Ok(())
}

} // verus!
