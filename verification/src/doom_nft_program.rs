use vstd::prelude::*;

use crate::error::DoomNftProgramError;
use crate::events::{AssetMinted, BaseMetadataUrlUpdated, TokenReserved, UpgradeAuthorityUpdated};
use crate::instructions::initialize_collection::{
    admin_check,
    initialize_collection_outcome,
    process_initialize_collection,
    CoreCollectionCreation,
    InitializeCollection,
};
use crate::instructions::initialize_global_config::{
    initialize_global_config_outcome,
    process_initialize_global_config,
    InitializeGlobalConfig,
};
use crate::instructions::mint_doom_index_nft::{
    mint_accounts_check,
    mint_outcome,
    process_mint_doom_index_nft,
    AssetDataState,
    AuthoritySignerSeeds,
    CoreAssetCreation,
    MintDoomIndexNft,
};
use crate::instructions::reserve_token_id::{process_reserve_token_id, reserve_outcome, ReserveTokenId};
use crate::instructions::set_mint_paused::{process_set_mint_paused, set_mint_paused_outcome, SetMintPaused};
use crate::instructions::set_upgrade_authority::{
    process_set_upgrade_authority,
    set_upgrade_authority_outcome,
    upgrade_authority_check,
    SetUpgradeAuthority,
};
use crate::instructions::transfer_admin::{process_transfer_admin, transfer_admin_outcome, TransferAdmin};
use crate::instructions::update_base_metadata_url::{
    process_update_base_metadata_url,
    update_base_metadata_url_outcome,
    UpdateBaseMetadataUrl,
};
use crate::pubkey::Pubkey;
use crate::state::global_config::GlobalConfigView;
use crate::utils::{asset_name, asset_uri, collection_uri};

verus! {

/// What the full mint instruction does: the account checks, then the handler.
pub open spec fn mint_instruction_outcome(
    config: GlobalConfigView,
    reservation: crate::state::mint_reservation::MintReservation,
    user: Pubkey,
    collection_update_authority: Pubkey,
    collection: Pubkey,
    token_id: u64,
) -> Result<crate::state::mint_reservation::MintReservation, DoomNftProgramError> {
    match mint_accounts_check(config, collection_update_authority, collection) {
        Err(e) => Err(e),
        Ok(_) => mint_outcome(config, reservation, user, token_id),
    }
}

/// What the full collection initialization does to the configuration: the
/// administrator check, then the handler.
pub open spec fn initialize_collection_instruction_outcome(
    config: GlobalConfigView,
    admin: Pubkey,
    collection: Pubkey,
    collection_update_authority: Pubkey,
) -> Result<GlobalConfigView, DoomNftProgramError> {
    match admin_check(config, admin) {
        Err(e) => Err(e),
        Ok(_) => initialize_collection_outcome(config, collection, collection_update_authority),
    }
}

/// What the full URL update does to the configuration.
pub open spec fn update_base_metadata_url_instruction_outcome(
    config: GlobalConfigView,
    admin: Pubkey,
    base_metadata_url: Seq<char>,
) -> Result<GlobalConfigView, DoomNftProgramError> {
    match admin_check(config, admin) {
        Err(e) => Err(e),
        Ok(_) => update_base_metadata_url_outcome(config, base_metadata_url),
    }
}

/// What the full pause instruction does to the configuration.
pub open spec fn set_mint_paused_instruction_outcome(
    config: GlobalConfigView,
    admin: Pubkey,
    paused: bool,
) -> Result<GlobalConfigView, DoomNftProgramError> {
    match admin_check(config, admin) {
        Err(e) => Err(e),
        Ok(_) => Ok(set_mint_paused_outcome(config, paused)),
    }
}

/// What the full administrator transfer does to the configuration.
pub open spec fn transfer_admin_instruction_outcome(
    config: GlobalConfigView,
    admin: Pubkey,
    new_admin: Pubkey,
) -> Result<GlobalConfigView, DoomNftProgramError> {
    match admin_check(config, admin) {
        Err(e) => Err(e),
        Ok(_) => Ok(transfer_admin_outcome(config, new_admin)),
    }
}

/// What the full upgrade authority change does to the configuration.
pub open spec fn set_upgrade_authority_instruction_outcome(
    config: GlobalConfigView,
    upgrade_authority: Pubkey,
    new_upgrade_authority: Pubkey,
) -> Result<GlobalConfigView, DoomNftProgramError> {
    match upgrade_authority_check(config, upgrade_authority) {
        Err(e) => Err(e),
        Ok(_) => Ok(set_upgrade_authority_outcome(config, new_upgrade_authority)),
    }
}

/// Creates the configuration.
pub fn initialize_global_config(
    accounts: &mut InitializeGlobalConfig,
    base_metadata_url: String,
    upgrade_authority: Pubkey,
) -> (r: Result<(), DoomNftProgramError>)
    ensures
        ({
            let outcome = initialize_global_config_outcome(
                old(accounts).admin,
                base_metadata_url@,
                upgrade_authority,
                old(accounts).global_config_bump,
            );
            match outcome {
                Ok(config) => r is Ok && final(accounts).global_config@ == config,
                Err(e) => r == Err::<(), DoomNftProgramError>(e) && final(accounts).global_config
                    == old(accounts).global_config,
            }
        }),
        final(accounts).global_config_bump == old(accounts).global_config_bump,
        final(accounts).admin == old(accounts).admin,
{
    process_initialize_global_config(accounts, base_metadata_url, upgrade_authority)
}

/// Creates the collection: the administrator check, then the handler. On success the
/// result is the collection to create.
pub fn initialize_collection(accounts: &mut InitializeCollection) -> (r: Result<
    CoreCollectionCreation,
    DoomNftProgramError,
>)
    ensures
        ({
            let outcome = initialize_collection_instruction_outcome(
                old(accounts).global_config@,
                old(accounts).admin,
                old(accounts).collection,
                old(accounts).collection_update_authority,
            );
            match outcome {
                Ok(config) => {
                    &&& r is Ok
                    &&& final(accounts).global_config@ == config
                    &&& r->Ok_0.collection == old(accounts).collection
                    &&& r->Ok_0.update_authority == old(accounts).collection_update_authority
                    &&& r->Ok_0.payer == old(accounts).admin
                    &&& r->Ok_0.name@ == crate::constants::COLLECTION_NAME@
                    &&& r->Ok_0.uri@ == collection_uri(
                        old(accounts).global_config.base_metadata_url@,
                    )
                },
                Err(e) => {
                    &&& r is Err
                    &&& r->Err_0 == e
                    &&& final(accounts).global_config == old(accounts).global_config
                },
            }
        }),
        final(accounts).admin == old(accounts).admin,
        final(accounts).collection == old(accounts).collection,
        final(accounts).collection_update_authority == old(accounts).collection_update_authority,
{
    accounts.check_constraints()?;
    process_initialize_collection(accounts)
}

/// Reserves the next token id.
pub fn reserve_token_id(accounts: &mut ReserveTokenId) -> (r: Result<
    TokenReserved,
    DoomNftProgramError,
>)
    ensures
        ({
            let outcome = reserve_outcome(
                old(accounts).global_config@,
                old(accounts).user,
                old(accounts).reservation_bump,
            );
            match outcome {
                Ok((config, reservation)) => {
                    &&& r is Ok
                    &&& final(accounts).global_config@ == config
                    &&& final(accounts).reservation == reservation
                    &&& r->Ok_0 == (TokenReserved {
                        token_id: reservation.token_id,
                        reserver: old(accounts).user,
                        reservation: old(accounts).reservation_key,
                    })
                },
                Err(e) => {
                    &&& r is Err
                    &&& r->Err_0 == e
                    &&& final(accounts).global_config == old(accounts).global_config
                    &&& final(accounts).reservation == old(accounts).reservation
                },
            }
        }),
        final(accounts).reservation_key == old(accounts).reservation_key,
        final(accounts).reservation_bump == old(accounts).reservation_bump,
        final(accounts).user == old(accounts).user,
{
    process_reserve_token_id(accounts)
}

/// Mints a reserved token id: the account checks, then the handler. On success the
/// result is the asset to create and the event to emit.
pub fn mint_doom_index_nft(accounts: &mut MintDoomIndexNft, token_id: u64) -> (r: Result<
    (CoreAssetCreation, AssetMinted),
    DoomNftProgramError,
>)
    ensures
        ({
            let outcome = mint_instruction_outcome(
                old(accounts).global_config@,
                old(accounts).reservation,
                old(accounts).user,
                old(accounts).collection_update_authority,
                old(accounts).collection,
                token_id,
            );
            match outcome {
                Ok(reservation) => {
                    &&& r is Ok
                    &&& final(accounts).reservation == reservation
                    &&& r->Ok_0.0.asset == old(accounts).asset
                    &&& r->Ok_0.0.collection == old(accounts).collection
                    &&& r->Ok_0.0.authority == old(accounts).collection_update_authority
                    &&& r->Ok_0.0.authority_seeds == (AuthoritySignerSeeds {
                        global_config: old(accounts).global_config_key,
                        bump: old(accounts).collection_update_authority_bump,
                    })
                    &&& r->Ok_0.0.data_state == AssetDataState::AccountState
                    &&& r->Ok_0.0.payer == old(accounts).user
                    &&& r->Ok_0.0.owner == old(accounts).user
                    &&& r->Ok_0.0.name@ == asset_name(token_id)
                    &&& r->Ok_0.0.uri@ == asset_uri(
                        old(accounts).global_config.base_metadata_url@,
                        token_id,
                    )
                    &&& r->Ok_0.1 == (AssetMinted {
                        token_id,
                        asset: old(accounts).asset,
                        owner: old(accounts).user,
                    })
                },
                Err(e) => {
                    &&& r is Err
                    &&& r->Err_0 == e
                    &&& final(accounts).reservation == old(accounts).reservation
                },
            }
        }),
        final(accounts).global_config == old(accounts).global_config,
        final(accounts).global_config_key == old(accounts).global_config_key,
        final(accounts).collection_update_authority_bump == old(
            accounts,
        ).collection_update_authority_bump,
        final(accounts).user == old(accounts).user,
        final(accounts).asset == old(accounts).asset,
        final(accounts).collection_update_authority == old(accounts).collection_update_authority,
        final(accounts).collection == old(accounts).collection,
{
    accounts.check_constraints()?;
    process_mint_doom_index_nft(accounts, token_id)
}

/// Replaces the base metadata URL: the administrator check, then the handler.
pub fn update_base_metadata_url(accounts: &mut UpdateBaseMetadataUrl, base_metadata_url: String) -> (r:
    Result<BaseMetadataUrlUpdated, DoomNftProgramError>)
    ensures
        ({
            let outcome = update_base_metadata_url_instruction_outcome(
                old(accounts).global_config@,
                old(accounts).admin,
                base_metadata_url@,
            );
            match outcome {
                Ok(config) => {
                    &&& r is Ok
                    &&& final(accounts).global_config@ == config
                    &&& r->Ok_0.old_base_url@ == old(accounts).global_config.base_metadata_url@
                    &&& r->Ok_0.new_base_url@ == base_metadata_url@
                },
                Err(e) => {
                    &&& r is Err
                    &&& r->Err_0 == e
                    &&& final(accounts).global_config == old(accounts).global_config
                },
            }
        }),
        final(accounts).admin == old(accounts).admin,
{
    accounts.check_constraints()?;
    process_update_base_metadata_url(accounts, base_metadata_url)
}

/// Pauses or resumes minting: the administrator check, then the handler.
pub fn set_mint_paused(accounts: &mut SetMintPaused, paused: bool) -> (r: Result<
    (),
    DoomNftProgramError,
>)
    ensures
        ({
            let outcome = set_mint_paused_instruction_outcome(
                old(accounts).global_config@,
                old(accounts).admin,
                paused,
            );
            match outcome {
                Ok(config) => r is Ok && final(accounts).global_config@ == config,
                Err(e) => r == Err::<(), DoomNftProgramError>(e) && final(accounts).global_config
                    == old(accounts).global_config,
            }
        }),
        final(accounts).admin == old(accounts).admin,
{
    accounts.check_constraints()?;
    process_set_mint_paused(accounts, paused)
}

/// Hands the administrator role to `new_admin`: the administrator check, then the
/// handler.
pub fn transfer_admin(accounts: &mut TransferAdmin, new_admin: Pubkey) -> (r: Result<
    (),
    DoomNftProgramError,
>)
    ensures
        ({
            let outcome = transfer_admin_instruction_outcome(
                old(accounts).global_config@,
                old(accounts).admin,
                new_admin,
            );
            match outcome {
                Ok(config) => r is Ok && final(accounts).global_config@ == config,
                Err(e) => r == Err::<(), DoomNftProgramError>(e) && final(accounts).global_config
                    == old(accounts).global_config,
            }
        }),
        final(accounts).admin == old(accounts).admin,
{
    accounts.check_constraints()?;
    process_transfer_admin(accounts, new_admin)
}

/// Hands the upgrade role on: the upgrade authority check, then the handler.
pub fn set_upgrade_authority(accounts: &mut SetUpgradeAuthority, new_upgrade_authority: Pubkey) -> (r:
    Result<UpgradeAuthorityUpdated, DoomNftProgramError>)
    ensures
        ({
            let outcome = set_upgrade_authority_instruction_outcome(
                old(accounts).global_config@,
                old(accounts).upgrade_authority,
                new_upgrade_authority,
            );
            match outcome {
                Ok(config) => {
                    &&& r is Ok
                    &&& final(accounts).global_config@ == config
                    &&& r->Ok_0 == (UpgradeAuthorityUpdated {
                        old_upgrade_authority: old(accounts).global_config.upgrade_authority,
                        new_upgrade_authority,
                    })
                },
                Err(e) => {
                    &&& r is Err
                    &&& r->Err_0 == e
                    &&& final(accounts).global_config == old(accounts).global_config
                },
            }
        }),
        final(accounts).upgrade_authority == old(accounts).upgrade_authority,
{
    accounts.check_constraints()?;
    process_set_upgrade_authority(accounts, new_upgrade_authority)
}

} // verus!
