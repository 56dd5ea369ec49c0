use vstd::prelude::*;

use crate::constants::FIRST_TOKEN_ID;
use crate::pubkey::Pubkey;
use crate::utils::base_metadata_url_is_valid;

verus! {

/// The program's single configuration account.
#[derive(Debug)]
pub struct GlobalConfig {
    /// Business administrator: may create the collection, change the base URL, pause
    /// minting and hand the role on.
    pub admin: Pubkey,
    /// Holder of the upgrade role, kept apart from `admin`.
    pub upgrade_authority: Pubkey,
    /// The token id that the next reservation receives.
    pub next_token_id: u64,
    /// While set, neither reservations nor mints succeed.
    pub mint_paused: bool,
    /// Prefix of every metadata URI.
    pub base_metadata_url: String,
    /// The collection account; the zero address until the collection exists.
    pub collection: Pubkey,
    /// The address that is the collection's update authority; zero until the collection exists.
    pub collection_update_authority: Pubkey,
    /// Bump of the configuration's program-derived address.
    pub bump: u8,
}

/// `GlobalConfig` as a mathematical value.
pub struct GlobalConfigView {
    pub admin: Pubkey,
    pub upgrade_authority: Pubkey,
    pub next_token_id: u64,
    pub mint_paused: bool,
    pub base_metadata_url: Seq<char>,
    pub collection: Pubkey,
    pub collection_update_authority: Pubkey,
    pub bump: u8,
}

impl View for GlobalConfig {
    type V = GlobalConfigView;

    open spec fn view(&self) -> GlobalConfigView {
        GlobalConfigView {
            admin: self.admin,
            upgrade_authority: self.upgrade_authority,
            next_token_id: self.next_token_id,
            mint_paused: self.mint_paused,
            base_metadata_url: self.base_metadata_url@,
            collection: self.collection,
            collection_update_authority: self.collection_update_authority,
            bump: self.bump,
        }
    }
}

impl GlobalConfigView {
    /// What every configuration that the program writes satisfies: the counter has
    /// left zero behind and the base URL follows the URL rule.
    pub open spec fn wf(self) -> bool {
        &&& self.next_token_id >= FIRST_TOKEN_ID
        &&& base_metadata_url_is_valid(self.base_metadata_url)
    }

    /// Whether the collection has been created.
    pub open spec fn collection_initialized(self) -> bool {
        self.collection != Pubkey::spec_zero()
    }
}

} // verus!
