//! Registering for an event.

use vstd::prelude::*;

use crate::attributes::{attr_num_u32, attr_num_u64, attrs_view, AttrView, Attribute};
use crate::error::FoshoErrors;
use crate::keys::Pubkey;
use crate::state::assets::{NftMetadata, TokenAccount};
use crate::state::attendee::{Attendee, AttendeeStatus};
use crate::state::collection::EventCollection;
use crate::state::community::Community;
use crate::state::event::{is_authority_for, Event, EventVersion};
use crate::state::ticket::Ticket;
use crate::text::{format_u64, spec_digits_of};
use crate::utils::{
    assert_is_ata, create_attribute, create_ticket_plugins, get_capacity_from_attributes,
    get_reg_ends_at_from_attributes, get_reg_starts_at_from_attributes,
    spec_assert_is_ata, spec_validate_nft_collection, spec_validate_verified_nft_creator,
    validate_nft_collection, validate_verified_nft_creator,
};

verus! {

/// The records involved in registering for an event.
#[derive(Clone, Debug)]
pub struct JoinEvent {
    /// The address of the event record.
    pub event_key: Pubkey,
    /// The event being joined.
    pub event: Event,
    /// The address of the community record.
    pub community_key: Pubkey,
    /// The community the event belongs to.
    pub community: Community,
    /// The event's descriptive record.
    pub event_collection: EventCollection,
    /// The address of the descriptive record.
    pub collection_key: Pubkey,
    /// The co-signing event authority handed in with the request.
    pub event_authority: Pubkey,
    /// Whether that authority actually signed the request.
    pub event_authority_is_signer: bool,
    /// The registrant; always a signer.
    pub attendee: Pubkey,
    /// The registrant's native balance.
    pub attendee_lamports: u64,
    /// The event's native balance, holding the escrowed fees.
    pub event_lamports: u64,
    /// The fungible-asset program presented holdings must belong to.
    pub token_program: Pubkey,
    /// Eligibility proof: the asset the registrant claims to hold.
    pub proof_mint: Option<Pubkey>,
    /// Eligibility proof: the registrant's holding of that asset.
    pub proof_token_account: Option<TokenAccount>,
    /// Eligibility proof: the presented collectible's metadata.
    pub proof_metadata: Option<NftMetadata>,
}

/// What the storage layer guarantees about a resolved registration context.
pub open spec fn join_event_wf(ctx: JoinEvent) -> bool {
    &&& ctx.event.community == ctx.community_key
    &&& ctx.event_collection.update_authority == ctx.community_key
}

/// The first reason the eligibility gate refuses the registrant, if any,
/// judged by the event's access policy. The collectible gate passes when
/// at least one of its configured conditions holds; the balance gate only
/// when every configured condition holds. A gated policy with no condition
/// configured degenerates to open.
pub open spec fn eligibility_err(ctx: JoinEvent) -> Option<FoshoErrors> {
    match ctx.event.event_version {
        EventVersion::Regular => None,
        EventVersion::NftGated(nft_data) => match (
            ctx.proof_mint,
            ctx.proof_token_account,
            ctx.proof_metadata,
        ) {
            (Some(mint), Some(ata), Some(md)) => match spec_assert_is_ata(
                ata,
                ctx.attendee,
                mint,
                true,
                ctx.token_program,
            ) {
                Err(e) => Some(e),
                Ok(()) => if nft_data.collection_mint is None && nft_data.verified_creator
                    is None {
                    None
                } else {
                    let creator_ok = nft_data.verified_creator matches Some(c)
                        && spec_validate_verified_nft_creator(md, c) is Ok;
                    let collection_ok = nft_data.collection_mint matches Some(cm)
                        && spec_validate_nft_collection(md, cm) is Ok;
                    if creator_ok || collection_ok {
                        None
                    } else {
                        Some(FoshoErrors::InvalidCollectionDetails)
                    }
                },
            },
            _ => Some(FoshoErrors::NotEnoughRemainingAccounts),
        },
        EventVersion::TokenGated(token_data) => match (ctx.proof_mint, ctx.proof_token_account) {
            (Some(mint), Some(ata)) => match spec_assert_is_ata(
                ata,
                ctx.attendee,
                mint,
                true,
                ctx.token_program,
            ) {
                Err(e) => Some(e),
                Ok(()) => {
                    let mint_ok = token_data.mint matches Some(m) ==> m == mint;
                    let amount_ok = token_data.minimum_amount matches Some(minimum)
                        ==> ata.amount >= minimum;
                    if mint_ok && amount_ok {
                        None
                    } else {
                        Some(FoshoErrors::InvalidTokenDetails)
                    }
                },
            },
            _ => Some(FoshoErrors::NotEnoughRemainingAccounts),
        },
    }
}

/// The first reason a ticket cannot be issued, if any: the descriptive
/// record's numeric facets must parse, the current time must lie in the
/// registration window when one is configured, and a configured capacity
/// must not be exhausted.
pub open spec fn ticket_precheck(ctx: JoinEvent, now: u64) -> Option<FoshoErrors> {
    let attrs = attrs_view(ctx.event_collection.attributes@);
    match (
        attr_num_u32(attrs, "Capacity"@),
        attr_num_u64(attrs, "Registration Starts At"@),
        attr_num_u64(attrs, "Registration Ends At"@),
    ) {
        (Ok(capacity), Ok(reg_starts_at), Ok(reg_ends_at)) => {
            if reg_starts_at != 0 && now < reg_starts_at {
                Some(FoshoErrors::RegistrationNotStarted)
            } else if reg_ends_at != 0 && now > reg_ends_at {
                Some(FoshoErrors::RegistrationEnded)
            } else if capacity != 0 && ctx.event_collection.num_minted >= capacity {
                Some(FoshoErrors::MaximumTicketsReached)
            } else {
                None
            }
        },
        _ => Some(FoshoErrors::NumericalOverflow),
    }
}

/// The first reason the fee escrow deposit cannot be made, if any.
pub open spec fn join_fee_err(ctx: JoinEvent) -> Option<FoshoErrors> {
    if ctx.event.commitment_fee > 0 {
        if ctx.attendee_lamports < ctx.event.commitment_fee {
            Some(FoshoErrors::InsufficientFunds)
        } else if ctx.event_lamports + ctx.event.commitment_fee > u64::MAX {
            Some(FoshoErrors::NumericalOverflow)
        } else {
            None
        }
    } else {
        None
    }
}

/// The first reason registration fails, if any, in the order the checks are
/// made: required co-signature, cancellation, registration window, capacity,
/// eligibility, fee escrow.
pub open spec fn join_precheck(ctx: JoinEvent, now: u64) -> Option<FoshoErrors> {
    if ctx.event.authority_must_sign && !is_authority_for(
        ctx.event,
        ctx.community,
        ctx.event_authority,
    ) {
        Some(FoshoErrors::InvalidEventAuthority)
    } else if ctx.event.authority_must_sign && !ctx.event_authority_is_signer {
        Some(FoshoErrors::EventAuthorityMustSign)
    } else if ctx.event.is_cancelled {
        Some(FoshoErrors::EventCancelled)
    } else {
        match ticket_precheck(ctx, now) {
            Some(e) => Some(e),
            None => match eligibility_err(ctx) {
                Some(e) => Some(e),
                None => join_fee_err(ctx),
            },
        }
    }
}

/// The ticket issued to `ctx.attendee` as registrant number `number`.
pub open spec fn issued_ticket(ctx: JoinEvent, t: Ticket, number: u32) -> bool {
    &&& t.owner == ctx.attendee
    &&& t.collection == ctx.collection_key
    &&& t.name@ == ctx.event_collection.name@ + " #"@ + spec_digits_of(number as nat)
    &&& t.uri == ctx.event_collection.uri
    &&& t.plugins.frozen == false
    &&& t.plugins.data_authority == ctx.community_key
    &&& t.plugins.scan_records@ == Seq::<crate::state::ticket::ScanRecord>::empty()
    &&& attrs_view(t.plugins.attribute_list@) == seq![
        AttrView { key: "Ticket Number"@, value: spec_digits_of(number as nat) },
        AttrView { key: "Fee"@, value: spec_digits_of(ctx.event.commitment_fee as nat) },
    ]
}

/// The two contexts agree on everything but the collection's mint count and
/// the two native balances.
pub open spec fn join_same_records(a: JoinEvent, b: JoinEvent) -> bool {
    &&& b.event_key == a.event_key
    &&& b.event == a.event
    &&& b.community_key == a.community_key
    &&& b.community == a.community
    &&& b.collection_key == a.collection_key
    &&& b.event_authority == a.event_authority
    &&& b.event_authority_is_signer == a.event_authority_is_signer
    &&& b.attendee == a.attendee
    &&& b.token_program == a.token_program
    &&& b.proof_mint == a.proof_mint
    &&& b.proof_token_account == a.proof_token_account
    &&& b.proof_metadata == a.proof_metadata
    &&& b.event_collection.name == a.event_collection.name
    &&& b.event_collection.uri == a.event_collection.uri
    &&& b.event_collection.update_authority == a.event_collection.update_authority
    &&& b.event_collection.attributes == a.event_collection.attributes
}

impl JoinEvent {
    /// Moves the commitment fee from the registrant into the event's native
    /// escrow.
    pub fn transfer_commitment_fee(&mut self)
        requires
            old(self).attendee_lamports >= old(self).event.commitment_fee,
            old(self).event_lamports + old(self).event.commitment_fee <= u64::MAX,
        ensures
            join_same_records(*old(self), *final(self)),
            final(self).event_collection == old(self).event_collection,
            final(self).attendee_lamports == old(self).attendee_lamports - old(
                self,
            ).event.commitment_fee,
            final(self).event_lamports == old(self).event_lamports + old(
                self,
            ).event.commitment_fee,
    {
        let fee = self.event.commitment_fee;
        self.attendee_lamports = self.attendee_lamports - fee;
        self.event_lamports = self.event_lamports + fee;
    }

    /// Issues the next ticket of this event, provided the registration
    /// window is open and a configured capacity is not exhausted. Reads
    /// only; the mint count advances when the registration commits.
    pub fn create_event_ticket(&self, now: u64) -> (r: Result<Ticket, FoshoErrors>)
        requires
            self.event_collection.num_minted < u32::MAX,
        ensures
            match r {
                Ok(t) => ticket_precheck(*self, now) is None && issued_ticket(
                    *self,
                    t,
                    (self.event_collection.num_minted + 1) as u32,
                ),
                Err(e) => ticket_precheck(*self, now) == Some(e),
            },
    {
        let capacity = match get_capacity_from_attributes(&self.event_collection.attributes) {
            Ok(v) => v,
            Err(e) => {
                return Err(e);
            },
        };
        let reg_starts_at = match get_reg_starts_at_from_attributes(
            &self.event_collection.attributes,
        ) {
            Ok(v) => v,
            Err(e) => {
                return Err(e);
            },
        };
        let reg_ends_at = match get_reg_ends_at_from_attributes(&self.event_collection.attributes) {
            Ok(v) => v,
            Err(e) => {
                return Err(e);
            },
        };
        if reg_starts_at != 0 && now < reg_starts_at {
            return Err(FoshoErrors::RegistrationNotStarted);
        }
        if reg_ends_at != 0 && now > reg_ends_at {
            return Err(FoshoErrors::RegistrationEnded);
        }
        if capacity != 0 && self.event_collection.num_minted >= capacity {
            return Err(FoshoErrors::MaximumTicketsReached);
        }
        let number = self.event_collection.num_minted + 1;
        let mut attribute_list: Vec<Attribute> = Vec::new();
        attribute_list.push(create_attribute("Ticket Number", format_u64(number as u64)));
        attribute_list.push(create_attribute("Fee", format_u64(self.event.commitment_fee)));
        proof {
            assert(attrs_view(attribute_list@) =~= seq![
                AttrView { key: "Ticket Number"@, value: spec_digits_of(number as nat) },
                AttrView {
                    key: "Fee"@,
                    value: spec_digits_of(self.event.commitment_fee as nat),
                },
            ]);
        }
        let mut name = self.event_collection.name.clone();
        name.append(" #");
        let rendered = format_u64(number as u64);
        name.append(rendered.as_str());
        let plugins = create_ticket_plugins(attribute_list, self.community_key);
        Ok(
            Ticket {
                owner: self.attendee,
                collection: self.collection_key,
                name,
                uri: self.event_collection.uri.clone(),
                plugins,
            },
        )
    }

    /// Runs the eligibility gate for the event's access policy against the
    /// presented proof material.
    pub fn validate_event_version(&self) -> (r: Result<(), FoshoErrors>)
        ensures
            r is Ok <==> eligibility_err(*self) is None,
            r matches Err(e) ==> eligibility_err(*self) == Some(e),
    {
        match &self.event.event_version {
            EventVersion::Regular => Ok(()),
            EventVersion::NftGated(nft_data) => {
                if self.proof_mint.is_none() || self.proof_token_account.is_none()
                    || self.proof_metadata.is_none() {
                    return Err(FoshoErrors::NotEnoughRemainingAccounts);
                }
                let mint = self.proof_mint.unwrap();
                let ata = self.proof_token_account.unwrap();
                match assert_is_ata(&ata, &self.attendee, &mint, true, &self.token_program) {
                    Ok(()) => {},
                    Err(e) => {
                        return Err(e);
                    },
                }
                if nft_data.collection_mint.is_none() && nft_data.verified_creator.is_none() {
                    return Ok(());
                }
                let metadata = match &self.proof_metadata {
                    Some(md) => md,
                    None => {
                        return Err(FoshoErrors::NotEnoughRemainingAccounts);
                    },
                };
                let mut passed = false;
                match nft_data.verified_creator {
                    Some(creator) => {
                        if validate_verified_nft_creator(metadata, &creator).is_ok() {
                            passed = true;
                        }
                    },
                    None => {},
                }
                match nft_data.collection_mint {
                    Some(collection_mint) => {
                        if validate_nft_collection(metadata, collection_mint).is_ok() {
                            passed = true;
                        }
                    },
                    None => {},
                }
                if passed {
                    Ok(())
                } else {
                    Err(FoshoErrors::InvalidCollectionDetails)
                }
            },
            EventVersion::TokenGated(token_data) => {
                if self.proof_mint.is_none() || self.proof_token_account.is_none() {
                    return Err(FoshoErrors::NotEnoughRemainingAccounts);
                }
                let mint = self.proof_mint.unwrap();
                let ata = self.proof_token_account.unwrap();
                match assert_is_ata(&ata, &self.attendee, &mint, true, &self.token_program) {
                    Ok(()) => {},
                    Err(e) => {
                        return Err(e);
                    },
                }
                let mint_ok = match token_data.mint {
                    Some(m) => m.id == mint.id,
                    None => true,
                };
                let amount_ok = match token_data.minimum_amount {
                    Some(minimum) => ata.amount >= minimum,
                    None => true,
                };
                if mint_ok && amount_ok {
                    Ok(())
                } else {
                    Err(FoshoErrors::InvalidTokenDetails)
                }
            },
        }
    }
}

/// Registers `ctx.attendee` for the event: issues the next ticket, escrows
/// the commitment fee, and creates the pending attendee record — all or
/// nothing. On failure nothing changes.
pub fn join_event_handler(ctx: &mut JoinEvent, now: u64) -> (r: Result<
    (Attendee, Ticket),
    FoshoErrors,
>)
    requires
        join_event_wf(*old(ctx)),
        old(ctx).event_collection.num_minted < u32::MAX,
    ensures
        r is Ok <==> join_precheck(*old(ctx), now) is None,
        r matches Err(e) ==> join_precheck(*old(ctx), now) == Some(e) && *final(ctx) == *old(ctx),
        r matches Ok((a, t)) ==> {
            &&& a.event == old(ctx).event_key
            &&& a.owner == old(ctx).attendee
            &&& a.status == AttendeeStatus::Pending
            &&& issued_ticket(*old(ctx), t, (old(ctx).event_collection.num_minted + 1) as u32)
            &&& join_same_records(*old(ctx), *final(ctx))
            &&& final(ctx).event_collection.num_minted == old(ctx).event_collection.num_minted + 1
            &&& if old(ctx).event.commitment_fee > 0 {
                &&& final(ctx).attendee_lamports == old(ctx).attendee_lamports - old(
                    ctx,
                ).event.commitment_fee
                &&& final(ctx).event_lamports == old(ctx).event_lamports + old(
                    ctx,
                ).event.commitment_fee
            } else {
                &&& final(ctx).attendee_lamports == old(ctx).attendee_lamports
                &&& final(ctx).event_lamports == old(ctx).event_lamports
            }
        },
{
    if ctx.event.authority_must_sign {
        let is_community_authority = crate::utils::cmp_pubkeys(
            &ctx.event_authority,
            &ctx.community.authority,
        );
        if !is_community_authority && !ctx.event.is_event_authority(&ctx.event_authority) {
            return Err(FoshoErrors::InvalidEventAuthority);
        }
        if !ctx.event_authority_is_signer {
            return Err(FoshoErrors::EventAuthorityMustSign);
        }
    }
    if ctx.event.is_cancelled {
        return Err(FoshoErrors::EventCancelled);
    }
    let ticket = match ctx.create_event_ticket(now) {
        Ok(t) => t,
        Err(e) => {
            return Err(e);
        },
    };
    match ctx.validate_event_version() {
        Ok(()) => {},
        Err(e) => {
            return Err(e);
        },
    }
    let fee = ctx.event.commitment_fee;
    if fee > 0 {
        if ctx.attendee_lamports < fee {
            return Err(FoshoErrors::InsufficientFunds);
        }
        if ctx.event_lamports > u64::MAX - fee {
            return Err(FoshoErrors::NumericalOverflow);
        }
        ctx.transfer_commitment_fee();
    }
    ctx.event_collection.num_minted = ctx.event_collection.num_minted + 1;
    let attendee_record = Attendee {
        event: ctx.event_key,
        owner: ctx.attendee,
        status: AttendeeStatus::Pending,
    };
    Ok((attendee_record, ticket))
}

} // verus!
