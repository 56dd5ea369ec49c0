use vstd::prelude::*;

use crate::constants::FIRST_TOKEN_ID;
use crate::error::DoomNftProgramError;
use crate::pubkey::Pubkey;
use crate::state::global_config::{GlobalConfig, GlobalConfigView};
use crate::utils::{base_metadata_url_is_valid, validate_base_metadata_url};

verus! {

/// What the initialization reads and writes: the freshly created configuration account
/// with the bump of its address, and the signing administrator.
#[derive(Debug)]
pub struct InitializeGlobalConfig {
    pub global_config: GlobalConfig,
    pub global_config_bump: u8,
    pub admin: Pubkey,
}

/// The configuration that initialization writes: the signer is the administrator,
/// counting starts at the first token id, minting is open, and no collection exists yet.
pub open spec fn initial_config(
    admin: Pubkey,
    upgrade_authority: Pubkey,
    base_metadata_url: Seq<char>,
    bump: u8,
) -> GlobalConfigView {
    GlobalConfigView {
        admin,
        upgrade_authority,
        next_token_id: FIRST_TOKEN_ID,
        mint_paused: false,
        base_metadata_url,
        collection: Pubkey::spec_zero(),
        collection_update_authority: Pubkey::spec_zero(),
        bump,
    }
}

/// What initialization does: the initial configuration when the URL follows the rule,
/// `BaseMetadataUrlInvalid` otherwise.
pub open spec fn initialize_global_config_outcome(
    admin: Pubkey,
    base_metadata_url: Seq<char>,
    upgrade_authority: Pubkey,
    bump: u8,
) -> Result<GlobalConfigView, DoomNftProgramError> {
    if base_metadata_url_is_valid(base_metadata_url) {
        Ok(initial_config(admin, upgrade_authority, base_metadata_url, bump))
    } else {
        Err(DoomNftProgramError::BaseMetadataUrlInvalid)
    }
}

/// Writes the initial configuration; on failure nothing changes.
pub fn process_initialize_global_config(
    accounts: &mut InitializeGlobalConfig,
    base_metadata_url: String,
    upgrade_authority: Pubkey,
) -> (r: Result<(), DoomNftProgramError>)
    ensures
        ({
            let outcome = initialize_global_config_outcome(
                old(accounts).admin,
                base_metadata_url@,
                upgrade_authority,
                old(accounts).global_config_bump,
            );
            match outcome {
                Ok(config) => r is Ok && final(accounts).global_config@ == config,
                Err(e) => r == Err::<(), DoomNftProgramError>(e) && final(accounts).global_config
                    == old(accounts).global_config,
            }
        }),
        final(accounts).global_config_bump == old(accounts).global_config_bump,
        final(accounts).admin == old(accounts).admin,
{
    validate_base_metadata_url(base_metadata_url.as_str())?;
    let global_config = &mut accounts.global_config;
    global_config.admin = accounts.admin;
    global_config.upgrade_authority = upgrade_authority;
    global_config.next_token_id = FIRST_TOKEN_ID;
    global_config.mint_paused = false;
    global_config.base_metadata_url = base_metadata_url;
    global_config.collection = Pubkey::zero();
    global_config.collection_update_authority = Pubkey::zero();
    global_config.bump = accounts.global_config_bump;
    Ok(())
}

} // verus!
