use vstd::prelude::*;

use crate::pubkey::Pubkey;

verus! {

/// The account that holds one reserved token id until it is minted.
#[derive(Clone, Copy, Debug)]
pub struct MintReservation {
    /// The reserved token id.
    pub token_id: u64,
    /// The user who reserved it and alone may mint it.
    pub reserver: Pubkey,
    /// Set once the asset for this token id has been minted.
    pub minted: bool,
    /// Bump of the reservation's program-derived address.
    pub bump: u8,
}

} // verus!
