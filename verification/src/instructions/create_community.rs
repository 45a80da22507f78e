//! Creating an organizer namespace.

use vstd::prelude::*;

use crate::keys::Pubkey;
use crate::state::community::Community;

verus! {

/// The accounts involved in creating a community: the authority that will
/// own it.
#[derive(Clone, Copy, Debug)]
pub struct CreateCommunity {
    /// The signing identity that becomes the community's authority.
    pub authority: Pubkey,
}

/// Creates a community: a fresh namespace owned by the signing authority,
/// with its event counter at zero.
pub fn create_community_handler(ctx: &CreateCommunity, seed: Pubkey, name: String) -> (c:
    Community)
    ensures
        c.seed == seed,
        c.authority == ctx.authority,
        c.events_count == 0,
        c.name == name,
{
    Community { seed, authority: ctx.authority, events_count: 0, name }
}

} // verus!
