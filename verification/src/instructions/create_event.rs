//! Creating an event under a community.

use vstd::prelude::*;

use crate::attributes::{attrs_view, push_num_attribute, push_text_attribute, Attribute, AttrView};
use crate::error::FoshoErrors;
use crate::keys::Pubkey;
use crate::state::collection::EventCollection;
use crate::state::community::Community;
use crate::state::event::{event_type_label, Event, EventType, EventVersion};
use crate::text::spec_digits_of;

verus! {

/// The records involved in creating an event.
#[derive(Clone, Debug)]
pub struct CreateEvent {
    /// The address of the community record.
    pub community_key: Pubkey,
    /// The community the event is created under.
    pub community: Community,
    /// The signing identity; must be the community authority.
    pub authority: Pubkey,
    /// The reward asset, when the event pays a per-attendee reward.
    pub reward_mint: Option<Pubkey>,
    /// The event's freshly created reward escrow balance, when supplied.
    pub reward_account: Option<u64>,
    /// The authority's balance of the reward asset, when supplied.
    pub sender_account: Option<u64>,
}

/// The configured start of the event, with 0 standing for "unset".
pub open spec fn bound_or_zero(event_starts_at: Option<u64>) -> u64 {
    match event_starts_at {
        Some(t) => t,
        None => 0,
    }
}

/// How many attendees the reward escrow must cover: the configured
/// capacity, or one single attendee when no capacity is configured.
pub open spec fn max_attendees(capacity: Option<u64>) -> u64 {
    match capacity {
        Some(c) => c,
        None => 1,
    }
}

/// The first reason the configured time bounds are rejected, if any: a
/// configured start must lie in the future, and registration must not close
/// after the start.
pub open spec fn collection_time_err(
    event_starts_at: Option<u64>,
    registration_ends_at: Option<u64>,
    now: u64,
) -> Option<FoshoErrors> {
    if event_starts_at matches Some(t) && t <= now {
        Some(FoshoErrors::InvalidEventStartTime)
    } else if registration_ends_at matches Some(reg_end) && bound_or_zero(event_starts_at)
        > reg_end {
        Some(FoshoErrors::InvalidRegistrationEndTime)
    } else {
        None
    }
}

/// The first reason the reward escrow cannot be funded, if any: a positive
/// reward needs the asset, the escrow and the deposit source supplied
/// together, a representable total, enough source balance, and room in the
/// escrow.
pub open spec fn deposit_err(ctx: CreateEvent, reward_per_user: u64, capacity: Option<u64>) -> Option<
    FoshoErrors,
> {
    if reward_per_user > 0 {
        match (ctx.reward_mint, ctx.reward_account, ctx.sender_account) {
            (Some(_), Some(escrow), Some(sender)) => {
                let total = reward_per_user * max_attendees(capacity);
                if total > u64::MAX {
                    Some(FoshoErrors::NumericalOverflow)
                } else if sender < total {
                    Some(FoshoErrors::InsufficientFunds)
                } else if escrow + total > u64::MAX {
                    Some(FoshoErrors::NumericalOverflow)
                } else {
                    None
                }
            },
            _ => Some(FoshoErrors::AccountNotProvided),
        }
    } else {
        None
    }
}

/// The first reason event creation fails, if any: the signer must be the
/// community authority, the time bounds must be consistent, and a
/// configured reward must be fundable.
pub open spec fn create_event_precheck(
    ctx: CreateEvent,
    event_starts_at: Option<u64>,
    registration_ends_at: Option<u64>,
    capacity: Option<u64>,
    reward_per_user: u64,
    now: u64,
) -> Option<FoshoErrors> {
    if ctx.authority != ctx.community.authority {
        Some(FoshoErrors::InvalidCommunityAuthority)
    } else {
        match collection_time_err(event_starts_at, registration_ends_at, now) {
            Some(e) => Some(e),
            None => deposit_err(ctx, reward_per_user, capacity),
        }
    }
}

/// The view of an optional text value.
pub open spec fn opt_view(s: Option<String>) -> Option<Seq<char>> {
    match s {
        Some(v) => Some(v@),
        None => None,
    }
}

/// A singleton numeric attribute.
pub open spec fn num_attr(key: Seq<char>, value: u64) -> Seq<AttrView> {
    seq![AttrView { key, value: spec_digits_of(value as nat) }]
}

/// A numeric attribute that is only present when configured.
pub open spec fn opt_num_attr(key: Seq<char>, value: Option<u64>) -> Seq<AttrView> {
    match value {
        Some(v) => num_attr(key, v),
        None => Seq::empty(),
    }
}

/// A text attribute that is only present when configured.
pub open spec fn opt_text_attr(key: Seq<char>, value: Option<Seq<char>>) -> Seq<AttrView> {
    match value {
        Some(v) => seq![AttrView { key, value: v }],
        None => Seq::empty(),
    }
}

/// The full attribute list a fresh event collection is created with.
pub open spec fn collection_attr_views(
    event_type: EventType,
    organizer: Seq<char>,
    commitment_fee: u64,
    event_starts_at: Option<u64>,
    event_ends_at: Option<u64>,
    registration_starts_at: Option<u64>,
    registration_ends_at: Option<u64>,
    capacity: Option<u64>,
    location: Option<Seq<char>>,
    virtual_link: Option<Seq<char>>,
    description: Option<Seq<char>>,
) -> Seq<AttrView> {
    seq![AttrView { key: "Event Type"@, value: event_type_label(event_type) }] + seq![
        AttrView { key: "Organizer"@, value: organizer },
    ] + num_attr("Fee"@, commitment_fee) + num_attr(
        "Event Starts At"@,
        bound_or_zero(event_starts_at),
    ) + opt_num_attr("Event Ends At"@, event_ends_at) + opt_num_attr(
        "Registration Starts At"@,
        registration_starts_at,
    ) + opt_num_attr("Registration Ends At"@, registration_ends_at) + opt_num_attr(
        "Capacity"@,
        capacity,
    ) + opt_text_attr("Location"@, location) + opt_text_attr(
        "Virtual Link"@,
        virtual_link,
    ) + opt_text_attr("Description"@, description)
}

impl CreateEvent {
    /// Moves the full reward deposit from the authority's balance into the
    /// event's reward escrow.
    pub fn deposit_reward_tokens(&mut self, total_reward: u64)
        requires
            old(self).reward_account matches Some(escrow) && escrow + total_reward <= u64::MAX,
            old(self).sender_account matches Some(sender) && sender >= total_reward,
        ensures
            final(self).community_key == old(self).community_key,
            final(self).community == old(self).community,
            final(self).authority == old(self).authority,
            final(self).reward_mint == old(self).reward_mint,
            final(self).reward_account matches Some(escrow) && escrow == old(
                self,
            ).reward_account->Some_0 + total_reward,
            final(self).sender_account matches Some(sender) && sender == old(
                self,
            ).sender_account->Some_0 - total_reward,
    {
        let escrow = self.reward_account.unwrap();
        let sender = self.sender_account.unwrap();
        self.reward_account = Some(escrow + total_reward);
        self.sender_account = Some(sender - total_reward);
    }

    /// Builds the event's descriptive record, after validating the
    /// configured time bounds against the current time.
    pub fn create_event_collection(
        &self,
        name: String,
        uri: String,
        event_type: EventType,
        organizer: String,
        commitment_fee: u64,
        event_starts_at: Option<u64>,
        event_ends_at: Option<u64>,
        registration_starts_at: Option<u64>,
        registration_ends_at: Option<u64>,
        capacity: Option<u64>,
        location: Option<String>,
        virtual_link: Option<String>,
        description: Option<String>,
        now: u64,
    ) -> (r: Result<EventCollection, FoshoErrors>)
        ensures
            match r {
                Ok(col) => {
                    &&& collection_time_err(event_starts_at, registration_ends_at, now) is None
                    &&& col.name == name
                    &&& col.uri == uri
                    &&& col.update_authority == self.community_key
                    &&& col.num_minted == 0
                    &&& attrs_view(col.attributes@) == collection_attr_views(
                        event_type,
                        organizer@,
                        commitment_fee,
                        event_starts_at,
                        event_ends_at,
                        registration_starts_at,
                        registration_ends_at,
                        capacity,
                        opt_view(location),
                        opt_view(virtual_link),
                        opt_view(description),
                    )
                },
                Err(e) => collection_time_err(event_starts_at, registration_ends_at, now)
                    == Some(e),
            },
    {
        let event_start_time: u64 = match event_starts_at {
            Some(t) => {
                if t <= now {
                    return Err(FoshoErrors::InvalidEventStartTime);
                }
                t
            },
            None => 0,
        };
        match registration_ends_at {
            Some(reg_end) => {
                if event_start_time > reg_end {
                    return Err(FoshoErrors::InvalidRegistrationEndTime);
                }
            },
            None => {},
        }
        let mut attribute_list: Vec<Attribute> = Vec::new();
        proof {
            assert(attrs_view(attribute_list@) =~= Seq::<AttrView>::empty());
        }
        push_text_attribute(&mut attribute_list, "Event Type", event_type.label());
        push_text_attribute(&mut attribute_list, "Organizer", organizer);
        push_num_attribute(&mut attribute_list, "Fee", commitment_fee);
        push_num_attribute(&mut attribute_list, "Event Starts At", event_start_time);
        match event_ends_at {
            Some(v) => push_num_attribute(&mut attribute_list, "Event Ends At", v),
            None => {},
        }
        match registration_starts_at {
            Some(v) => push_num_attribute(&mut attribute_list, "Registration Starts At", v),
            None => {},
        }
        match registration_ends_at {
            Some(v) => push_num_attribute(&mut attribute_list, "Registration Ends At", v),
            None => {},
        }
        match capacity {
            Some(v) => push_num_attribute(&mut attribute_list, "Capacity", v),
            None => {},
        }
        match location {
            Some(v) => push_text_attribute(&mut attribute_list, "Location", v),
            None => {},
        }
        match virtual_link {
            Some(v) => push_text_attribute(&mut attribute_list, "Virtual Link", v),
            None => {},
        }
        match description {
            Some(v) => push_text_attribute(&mut attribute_list, "Description", v),
            None => {},
        }
        proof {
            assert(attrs_view(attribute_list@) =~= collection_attr_views(
                event_type,
                organizer@,
                commitment_fee,
                event_starts_at,
                event_ends_at,
                registration_starts_at,
                registration_ends_at,
                capacity,
                opt_view(location),
                opt_view(virtual_link),
                opt_view(description),
            ));
        }
        Ok(
            EventCollection {
                name,
                uri,
                update_authority: self.community_key,
                num_minted: 0,
                attributes: attribute_list,
            },
        )
    }
}

/// Creates an event: claims the community's next slot, writes the
/// descriptive record, and — when a reward is configured — deposits the
/// full reward escrow of one reward per coverable attendee. On failure
/// nothing changes.
pub fn create_event_handler(
    ctx: &mut CreateEvent,
    name: String,
    uri: String,
    event_type: EventType,
    organizer: String,
    commitment_fee: u64,
    event_starts_at: Option<u64>,
    event_ends_at: Option<u64>,
    registration_starts_at: Option<u64>,
    registration_ends_at: Option<u64>,
    capacity: Option<u64>,
    location: Option<String>,
    virtual_link: Option<String>,
    description: Option<String>,
    reward_per_user: u64,
    event_authorities: Vec<Pubkey>,
    authority_must_sign: bool,
    now: u64,
) -> (r: Result<(Event, EventCollection), FoshoErrors>)
    requires
        old(ctx).community.events_count < u32::MAX,
        event_authorities@.len() <= crate::state::event::MAX_EVENT_AUTHORITIES,
    ensures
        r is Ok <==> create_event_precheck(
            *old(ctx),
            event_starts_at,
            registration_ends_at,
            capacity,
            reward_per_user,
            now,
        ) is None,
        r matches Err(e) ==> create_event_precheck(
            *old(ctx),
            event_starts_at,
            registration_ends_at,
            capacity,
            reward_per_user,
            now,
        ) == Some(e) && *final(ctx) == *old(ctx),
        r matches Ok((event, col)) ==> {
            &&& event.community == old(ctx).community_key
            &&& event.reward_mint == old(ctx).reward_mint
            &&& event.event_version == EventVersion::Regular
            &&& event.event_authorities == event_authorities
            &&& event.commitment_fee == commitment_fee
            &&& event.nonce == old(ctx).community.events_count
            &&& event.reward_per_user == reward_per_user
            &&& event.is_cancelled == false
            &&& event.authority_must_sign == authority_must_sign
            &&& col.name == name
            &&& col.uri == uri
            &&& col.update_authority == old(ctx).community_key
            &&& col.num_minted == 0
            &&& attrs_view(col.attributes@) == collection_attr_views(
                event_type,
                organizer@,
                commitment_fee,
                event_starts_at,
                event_ends_at,
                registration_starts_at,
                registration_ends_at,
                capacity,
                opt_view(location),
                opt_view(virtual_link),
                opt_view(description),
            )
            &&& final(ctx).community_key == old(ctx).community_key
            &&& final(ctx).authority == old(ctx).authority
            &&& final(ctx).reward_mint == old(ctx).reward_mint
            &&& final(ctx).community.seed == old(ctx).community.seed
            &&& final(ctx).community.authority == old(ctx).community.authority
            &&& final(ctx).community.name == old(ctx).community.name
            &&& final(ctx).community.events_count == old(ctx).community.events_count + 1
            &&& if reward_per_user > 0 {
                &&& final(ctx).reward_account matches Some(escrow) && escrow == old(
                    ctx,
                ).reward_account->Some_0 + reward_per_user * max_attendees(capacity)
                &&& final(ctx).sender_account matches Some(sender) && sender == old(
                    ctx,
                ).sender_account->Some_0 - reward_per_user * max_attendees(capacity)
            } else {
                &&& final(ctx).reward_account == old(ctx).reward_account
                &&& final(ctx).sender_account == old(ctx).sender_account
            }
        },
{
    if ctx.authority.id != ctx.community.authority.id {
        return Err(FoshoErrors::InvalidCommunityAuthority);
    }
    let collection = match ctx.create_event_collection(
        name,
        uri,
        event_type,
        organizer,
        commitment_fee,
        event_starts_at,
        event_ends_at,
        registration_starts_at,
        registration_ends_at,
        capacity,
        location,
        virtual_link,
        description,
        now,
    ) {
        Ok(col) => col,
        Err(e) => {
            return Err(e);
        },
    };
    let mut total_reward: u64 = 0;
    if reward_per_user > 0 {
        if ctx.reward_mint.is_none() || ctx.reward_account.is_none()
            || ctx.sender_account.is_none() {
            return Err(FoshoErrors::AccountNotProvided);
        }
        let max_att: u64 = match capacity {
            Some(c) => c,
            None => 1,
        };
        total_reward = match reward_per_user.checked_mul(max_att) {
            Some(t) => t,
            None => {
                return Err(FoshoErrors::NumericalOverflow);
            },
        };
        let sender = ctx.sender_account.unwrap();
        if sender < total_reward {
            return Err(FoshoErrors::InsufficientFunds);
        }
        let escrow = ctx.reward_account.unwrap();
        if escrow > u64::MAX - total_reward {
            return Err(FoshoErrors::NumericalOverflow);
        }
    }
    let event = Event {
        community: ctx.community_key,
        reward_mint: ctx.reward_mint,
        event_version: EventVersion::Regular,
        event_authorities,
        commitment_fee,
        nonce: ctx.community.events_count,
        reward_per_user,
        is_cancelled: false,
        authority_must_sign,
    };
    ctx.community.events_count = ctx.community.events_count + 1;
    if reward_per_user > 0 {
        ctx.deposit_reward_tokens(total_reward);
    }
    Ok((event, collection))
}

} // verus!
