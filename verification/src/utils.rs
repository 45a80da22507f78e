//! Shared checks: attribute facets, scan records, eligibility proofs.

use vstd::prelude::*;

use crate::attributes::{attr_num_u32, attr_num_u64, attrs_view, Attribute};
use crate::error::FoshoErrors;
use crate::keys::Pubkey;
use crate::state::assets::{NftCreator, NftMetadata, TokenAccount};
use crate::state::ticket::{scanned_by, Ticket, TicketPlugins};

verus! {

/// Builds one attribute.
pub fn create_attribute(key: &str, value: String) -> (a: Attribute)
    ensures
        a@.key == key@,
        a@.value == value@,
{
    Attribute { key: String::from_str(key), value }
}

/// Reads the capacity facet of an event's attribute list; 0 means
/// unconstrained.
pub fn get_capacity_from_attributes(attribute_list: &Vec<Attribute>) -> (r: Result<
    u32,
    FoshoErrors,
>)
    ensures
        r == attr_num_u32(attrs_view(attribute_list@), "Capacity"@),
{
    crate::attributes::get_u32_attribute(attribute_list, "Capacity")
}

/// Reads when registration opens; 0 means unconstrained.
pub fn get_reg_starts_at_from_attributes(attribute_list: &Vec<Attribute>) -> (r: Result<
    u64,
    FoshoErrors,
>)
    ensures
        r == attr_num_u64(attrs_view(attribute_list@), "Registration Starts At"@),
{
    crate::attributes::get_u64_attribute(attribute_list, "Registration Starts At")
}

/// Reads when registration closes; 0 means unconstrained.
pub fn get_reg_ends_at_from_attributes(attribute_list: &Vec<Attribute>) -> (r: Result<
    u64,
    FoshoErrors,
>)
    ensures
        r == attr_num_u64(attrs_view(attribute_list@), "Registration Ends At"@),
{
    crate::attributes::get_u64_attribute(attribute_list, "Registration Ends At")
}

/// Reads when the event ends; 0 means unconstrained.
pub fn get_event_ends_at_from_attributes(attribute_list: &Vec<Attribute>) -> (r: Result<
    u64,
    FoshoErrors,
>)
    ensures
        r == attr_num_u64(attrs_view(attribute_list@), "Event Ends At"@),
{
    crate::attributes::get_u64_attribute(attribute_list, "Event Ends At")
}

/// Reads when the event starts; 0 means unconstrained.
pub fn get_event_starts_at_from_attributes(attribute_list: &Vec<Attribute>) -> (r: Result<
    u64,
    FoshoErrors,
>)
    ensures
        r == attr_num_u64(attrs_view(attribute_list@), "Event Starts At"@),
{
    crate::attributes::get_u64_attribute(attribute_list, "Event Starts At")
}

/// Builds the mutable face a fresh ticket is issued with: the given
/// attributes, no freeze yet, no scan entries, and `event_authority` as the
/// key administering the scan entries.
pub fn create_ticket_plugins(attributes: Vec<Attribute>, event_authority: Pubkey) -> (p:
    TicketPlugins)
    ensures
        p.attribute_list == attributes,
        p.frozen == false,
        p.data_authority == event_authority,
        p.scan_records@ == Seq::<crate::state::ticket::ScanRecord>::empty(),
{
    let p = TicketPlugins {
        attribute_list: attributes,
        frozen: false,
        data_authority: event_authority,
        scan_records: Vec::new(),
    };
    proof {
        assert(p.scan_records@ =~= Seq::<crate::state::ticket::ScanRecord>::empty());
    }
    p
}

/// Refuses a ticket that already carries a scan entry under `authority`.
pub fn check_if_already_scanned(ticket: &Ticket, authority: &Pubkey) -> (r: Result<
    (),
    FoshoErrors,
>)
    ensures
        r is Ok <==> !scanned_by(*ticket, *authority),
        r is Err ==> r == Result::<(), FoshoErrors>::Err(FoshoErrors::AlreadyScanned),
{
    let mut i: usize = 0;
    while i < ticket.plugins.scan_records.len()
        invariant
            0 <= i <= ticket.plugins.scan_records@.len(),
            forall|j: int| 0 <= j < i ==> ticket.plugins.scan_records@[j].authority != *authority,
        decreases ticket.plugins.scan_records@.len() - i,
    {
        if ticket.plugins.scan_records[i].authority.id == authority.id {
            proof {
                assert(ticket.plugins.scan_records@[i as int].authority == *authority);
                assert(scanned_by(*ticket, *authority));
            }
            return Err(FoshoErrors::AlreadyScanned);
        }
        i = i + 1;
    }
    Ok(())
}

/// Whether a presented collectible proves membership in `collection_mint`:
/// its metadata must not be a collection parent, must reference exactly that
/// collection, and the membership must be verified.
pub open spec fn spec_validate_nft_collection(md: NftMetadata, collection_mint: Pubkey) -> Result<
    (),
    FoshoErrors,
> {
    if md.has_collection_details {
        Err(FoshoErrors::InvalidCollectionDetails)
    } else {
        match md.collection {
            Some(c) => if c.key != collection_mint {
                Err(FoshoErrors::InvalidCollection)
            } else if !c.verified {
                Err(FoshoErrors::NftNotVerified)
            } else {
                Ok(())
            },
            None => Err(FoshoErrors::InvalidCollection),
        }
    }
}

/// Validates that the presented collectible belongs to the given collection
/// and is verified.
pub fn validate_nft_collection(nft_metadata: &NftMetadata, collection_mint: Pubkey) -> (r: Result<
    (),
    FoshoErrors,
>)
    ensures
        r == spec_validate_nft_collection(*nft_metadata, collection_mint),
{
    if nft_metadata.has_collection_details {
        return Err(FoshoErrors::InvalidCollectionDetails);
    }
    match &nft_metadata.collection {
        Some(c) => {
            if c.key.id != collection_mint.id {
                Err(FoshoErrors::InvalidCollection)
            } else if !c.verified {
                Err(FoshoErrors::NftNotVerified)
            } else {
                Ok(())
            }
        },
        None => Err(FoshoErrors::InvalidCollection),
    }
}

/// Whether some creator entry names `who` and is verified.
pub open spec fn has_verified_creator(creators: Seq<NftCreator>, who: Pubkey) -> bool {
    exists|i: int| 0 <= i < creators.len() && creators[i].address == who && creators[i].verified
}

/// Whether a presented collectible proves attribution to the verified
/// creator `who`.
pub open spec fn spec_validate_verified_nft_creator(md: NftMetadata, who: Pubkey) -> Result<
    (),
    FoshoErrors,
> {
    match md.creators {
        Some(cs) => if has_verified_creator(cs@, who) {
            Ok(())
        } else {
            Err(FoshoErrors::InvalidCreator)
        },
        None => Err(FoshoErrors::NoCreatorsPresentOnMetadata),
    }
}

/// Validates that the presented collectible names `verified_nft_creator` as
/// a verified creator.
pub fn validate_verified_nft_creator(nft_metadata: &NftMetadata, verified_nft_creator: &Pubkey) -> (r:
    Result<(), FoshoErrors>)
    ensures
        r == spec_validate_verified_nft_creator(*nft_metadata, *verified_nft_creator),
{
    match &nft_metadata.creators {
        Some(creators) => {
            let mut i: usize = 0;
            while i < creators.len()
                invariant
                    0 <= i <= creators@.len(),
                    nft_metadata.creators == Some(*creators),
                    forall|j: int|
                        0 <= j < i ==> !(creators@[j].address == *verified_nft_creator
                            && creators@[j].verified),
                decreases creators@.len() - i,
            {
                if creators[i].address.id == verified_nft_creator.id && creators[i].verified {
                    assert(creators@[i as int].address == *verified_nft_creator);
                    return Ok(());
                }
                i = i + 1;
            }
            Err(FoshoErrors::InvalidCreator)
        },
        None => Err(FoshoErrors::NoCreatorsPresentOnMetadata),
    }
}

/// Whether `ata` is an initialized holding of `mint` by `wallet` under the
/// expected owner program.
pub open spec fn spec_assert_is_ata(
    ata: TokenAccount,
    wallet: Pubkey,
    mint: Pubkey,
    initialized: bool,
    token_program: Pubkey,
) -> Result<(), FoshoErrors> {
    if initialized {
        if ata.owner_program != token_program {
            Err(FoshoErrors::WrongAccountOwner)
        } else if ata.owner != wallet {
            Err(FoshoErrors::PublicKeyMismatch)
        } else if ata.mint != mint {
            Err(FoshoErrors::PublicKeyMismatch)
        } else {
            Ok(())
        }
    } else {
        Ok(())
    }
}

/// Validates a presented token account: owner program, holding wallet and
/// asset must all match.
pub fn assert_is_ata(
    ata: &TokenAccount,
    wallet: &Pubkey,
    mint: &Pubkey,
    initialized: bool,
    token_program: &Pubkey,
) -> (r: Result<(), FoshoErrors>)
    ensures
        r == spec_assert_is_ata(*ata, *wallet, *mint, initialized, *token_program),
{
    if initialized {
        assert_owned_by(ata, token_program)?;
        assert_keys_equal(ata.owner, *wallet)?;
        assert_keys_equal(ata.mint, *mint)?;
    }
    Ok(())
}

/// Refuses two keys that differ.
pub fn assert_keys_equal(key1: Pubkey, key2: Pubkey) -> (r: Result<(), FoshoErrors>)
    ensures
        r is Ok <==> key1 == key2,
        r is Err ==> r == Result::<(), FoshoErrors>::Err(FoshoErrors::PublicKeyMismatch),
{
    if cmp_pubkeys(&key1, &key2) {
        Ok(())
    } else {
        Err(FoshoErrors::PublicKeyMismatch)
    }
}

/// Cheap key comparison.
pub fn cmp_pubkeys(a: &Pubkey, b: &Pubkey) -> (r: bool)
    ensures
        r == (a == b),
{
    a.id == b.id
}

/// Refuses a token account held by the wrong owner program.
pub fn assert_owned_by(account: &TokenAccount, owner: &Pubkey) -> (r: Result<(), FoshoErrors>)
    ensures
        r is Ok <==> account.owner_program == *owner,
        r is Err ==> r == Result::<(), FoshoErrors>::Err(FoshoErrors::WrongAccountOwner),
{
    if account.owner_program.id != owner.id {
        Err(FoshoErrors::WrongAccountOwner)
    } else {
        Ok(())
    }
}

/// Reads the held amount from a raw fungible-asset account record without
/// deserializing it in full: the amount is the little-endian word at bytes
/// 64 to 72.
pub fn get_spl_token_amount(token_account_data: &[u8]) -> (r: Result<u64, FoshoErrors>)
    requires
        token_account_data@.len() >= 72,
    ensures
        r == Ok::<u64, FoshoErrors>(
            vstd::bytes::spec_u64_from_le_bytes(token_account_data@.subrange(64, 72)),
        ),
{
    let amount_bytes = vstd::slice::slice_subrange(token_account_data, 64, 72);
    Ok(vstd::bytes::u64_from_le_bytes(amount_bytes))
}

} // verus!
