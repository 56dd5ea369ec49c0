use vstd::prelude::*;

use crate::pubkey::Pubkey;

verus! {

/// Emitted when a token id is reserved.
#[derive(Clone, Copy, Debug)]
pub struct TokenReserved {
    pub token_id: u64,
    pub reserver: Pubkey,
    pub reservation: Pubkey,
}

/// Emitted when an asset is minted.
#[derive(Clone, Copy, Debug)]
pub struct AssetMinted {
    pub token_id: u64,
    pub asset: Pubkey,
    pub owner: Pubkey,
}

/// Emitted when the base metadata URL changes.
#[derive(Debug)]
pub struct BaseMetadataUrlUpdated {
    pub old_base_url: String,
    pub new_base_url: String,
}

/// Emitted when the upgrade authority changes.
#[derive(Clone, Copy, Debug)]
pub struct UpgradeAuthorityUpdated {
    pub old_upgrade_authority: Pubkey,
    pub new_upgrade_authority: Pubkey,
}

} // verus!
