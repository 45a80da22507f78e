//! Identities on the ledger.
//!
//! Every participant — a community authority, an event authority, a
//! registrant — and every stored record is addressed by a public key. The
//! state machine only ever compares keys for equality and looks them up in
//! authority lists, so a key is modelled as a plain numeric identity.

use vstd::prelude::*;

verus! {

/// A public identity on the ledger: a signer's key or a record's address.
#[derive(Clone, Copy, Debug, PartialEq, Eq, Hash, Structural)]
pub struct Pubkey {
    pub id: u64,
}

impl Pubkey {
    /// Builds the key with the given identity.
    pub fn new(id: u64) -> (k: Pubkey)
        ensures
            k.id == id,
    {
        Pubkey { id }
    }
}

} // verus!
