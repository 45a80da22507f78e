//! Eligibility proof material.
//!
//! A gated event asks the registrant to present external asset state: a
//! token account holding a balance, and — for collectible gating — the
//! collectible's metadata. These records mirror what the eligibility gate
//! reads from that state, as plain values.

use vstd::prelude::*;

use crate::keys::Pubkey;

verus! {

/// A fungible-asset account presented as proof of holding.
#[derive(Clone, Copy, Debug, PartialEq, Eq, Structural)]
pub struct TokenAccount {
    /// The wallet that holds the account.
    pub owner: Pubkey,
    /// The asset the account holds.
    pub mint: Pubkey,
    /// The held amount.
    pub amount: u64,
    /// The program that owns the account record.
    pub owner_program: Pubkey,
}

/// A collection reference on a collectible's metadata.
#[derive(Clone, Copy, Debug, PartialEq, Eq, Structural)]
pub struct NftCollectionInfo {
    /// The collection's key.
    pub key: Pubkey,
    /// Whether the membership has been verified by the collection.
    pub verified: bool,
}

/// One creator entry on a collectible's metadata.
#[derive(Clone, Copy, Debug, PartialEq, Eq, Structural)]
pub struct NftCreator {
    /// The creator's identity.
    pub address: Pubkey,
    /// Whether the creator has verified the attribution.
    pub verified: bool,
}

/// The metadata of a presented collectible.
#[derive(Clone, Debug, PartialEq, Eq)]
pub struct NftMetadata {
    /// The collection the collectible claims membership in, if any.
    pub collection: Option<NftCollectionInfo>,
    /// Whether the metadata carries collection details of its own — a
    /// collection parent is not an eligible membership proof.
    pub has_collection_details: bool,
    /// The creators named by the metadata, if any.
    pub creators: Option<Vec<NftCreator>>,
}

} // verus!
