//! One ticketed occurrence.

use vstd::prelude::*;

use crate::keys::Pubkey;

verus! {

/// At most this many designated event authorities are allowed per event.
pub const MAX_EVENT_AUTHORITIES: usize = 4;

/// One ticketed occurrence under a community.
///
/// The access policy (`event_version`) is fixed at creation;
/// `is_cancelled` only ever moves from `false` to `true`. Capacity and the
/// registration and occurrence windows live as descriptive attributes on the
/// event's collection record, where an absent entry means "unconstrained".
#[derive(Clone, Debug, PartialEq, Eq)]
pub struct Event {
    /// The community this event belongs to.
    pub community: Pubkey,
    /// The reward asset, when the event pays a per-attendee reward.
    pub reward_mint: Option<Pubkey>,
    /// The access policy gating registration.
    pub event_version: EventVersion,
    /// Designated event authorities; at most four.
    pub event_authorities: Vec<Pubkey>,
    /// The commitment fee each registrant escrows.
    pub commitment_fee: u64,
    /// The community's event counter at creation time: this event's slot.
    pub nonce: u32,
    /// The reward paid out per attendee on claim.
    pub reward_per_user: u64,
    /// Whether the event has been cancelled. One-way.
    pub is_cancelled: bool,
    /// Whether an event authority must co-sign registration.
    pub authority_must_sign: bool,
}

impl Event {
    /// Whether `key` is one of the designated event authorities.
    pub fn is_event_authority(&self, key: &Pubkey) -> (r: bool)
        ensures
            r == self.event_authorities@.contains(*key),
    {
        let mut i: usize = 0;
        while i < self.event_authorities.len()
            invariant
                0 <= i <= self.event_authorities@.len(),
                forall|j: int| 0 <= j < i ==> self.event_authorities@[j] != *key,
            decreases self.event_authorities@.len() - i,
        {
            if self.event_authorities[i].id == key.id {
                return true;
            }
            i = i + 1;
        }
        false
    }
}

/// Whether `key` may act for this event: it is the community authority or
/// one of the designated event authorities.
pub open spec fn is_authority_for(event: Event, community: crate::state::community::Community, key: Pubkey) -> bool {
    key == community.authority || event.event_authorities@.contains(key)
}

/// What kind of occurrence an event is. Purely descriptive.
#[derive(Clone, Debug, PartialEq, Eq)]
pub enum EventType {
    InPerson,
    Virtual,
    Exhibition,
    Conference,
    Concert,
    SportingEvent,
    Workshop,
    Webinar,
    NetworkingEvent,
    Other(String),
}

/// The descriptive label an event type is recorded under.
pub open spec fn event_type_label(t: EventType) -> Seq<char> {
    match t {
        EventType::InPerson => "InPerson"@,
        EventType::Virtual => "Virtual"@,
        EventType::Exhibition => "Exhibition"@,
        EventType::Conference => "Conference"@,
        EventType::Concert => "Concert"@,
        EventType::SportingEvent => "SportingEvent"@,
        EventType::Workshop => "Workshop"@,
        EventType::Webinar => "Webinar"@,
        EventType::NetworkingEvent => "NetworkingEvent"@,
        EventType::Other(s) => "Other("@ + s@ + ")"@,
    }
}

impl EventType {
    /// Renders the descriptive label of this event type.
    pub fn label(&self) -> (r: String)
        ensures
            r@ == event_type_label(*self),
    {
        match self {
            EventType::InPerson => String::from_str("InPerson"),
            EventType::Virtual => String::from_str("Virtual"),
            EventType::Exhibition => String::from_str("Exhibition"),
            EventType::Conference => String::from_str("Conference"),
            EventType::Concert => String::from_str("Concert"),
            EventType::SportingEvent => String::from_str("SportingEvent"),
            EventType::Workshop => String::from_str("Workshop"),
            EventType::Webinar => String::from_str("Webinar"),
            EventType::NetworkingEvent => String::from_str("NetworkingEvent"),
            EventType::Other(s) => {
                let mut r = String::from_str("Other(");
                r.append(s.as_str());
                r.append(")");
                r
            },
        }
    }
}

/// The collectible-gated access policy: the presented collectible must
/// belong to the named collection or be attributed to the named verified
/// creator. With neither configured the policy degenerates to open.
#[derive(Clone, Copy, Debug, PartialEq, Eq)]
pub struct NftData {
    /// The collection the collectible must belong to, if configured.
    pub collection_mint: Option<Pubkey>,
    /// The verified creator the collectible must name, if configured.
    pub verified_creator: Option<Pubkey>,
}

/// The balance-gated access policy: the registrant must hold the named
/// asset, at least the configured minimum amount of it. With neither
/// configured the policy degenerates to open.
#[derive(Clone, Copy, Debug, PartialEq, Eq)]
pub struct TokenData {
    /// The asset that must be held, if configured.
    pub mint: Option<Pubkey>,
    /// The minimum amount that must be held, if configured.
    pub minimum_amount: Option<u64>,
}

/// The access policy gating registration.
#[derive(Clone, Copy, Debug, PartialEq, Eq)]
pub enum EventVersion {
    /// Open registration.
    Regular,
    /// Registration gated on holding a collectible.
    NftGated(NftData),
    /// Registration gated on holding a fungible-asset balance.
    TokenGated(TokenData),
}

} // verus!
