use vstd::prelude::*;

use crate::error::DoomNftProgramError;
use crate::events::AssetMinted;
use crate::pubkey::Pubkey;
use crate::state::global_config::{GlobalConfig, GlobalConfigView};
use crate::state::mint_reservation::MintReservation;
use crate::utils::{asset_name, asset_uri, build_asset_name, build_asset_uri};

verus! {

/// What the mint instruction reads and writes: the configuration (with its address), the
/// reservation derived from the token id, the signing user, the fresh asset account, the
/// collection authority derived from the configuration (with its bump), and the
/// collection account.
#[derive(Debug)]
pub struct MintDoomIndexNft {
    pub global_config: GlobalConfig,
    pub global_config_key: Pubkey,
    pub reservation: MintReservation,
    pub user: Pubkey,
    pub asset: Pubkey,
    pub collection_update_authority: Pubkey,
    pub collection_update_authority_bump: u8,
    pub collection: Pubkey,
}

/// Where Metaplex Core keeps an asset's data.
#[derive(Clone, Copy, Debug, PartialEq, Eq, Structural)]
pub enum AssetDataState {
    AccountState,
    LedgerState,
}

/// The seeds with which the program signs for the collection authority: the seed
/// `COLLECTION_AUTHORITY_SEED`, the configuration's address, and the authority's bump.
#[derive(Clone, Copy, Debug)]
pub struct AuthoritySignerSeeds {
    pub global_config: Pubkey,
    pub bump: u8,
}

/// The request to Metaplex Core to create an asset in the collection, signed for the
/// collection authority with `authority_seeds`.
#[derive(Debug)]
pub struct CoreAssetCreation {
    pub asset: Pubkey,
    pub collection: Pubkey,
    pub authority: Pubkey,
    pub authority_seeds: AuthoritySignerSeeds,
    pub payer: Pubkey,
    pub owner: Pubkey,
    pub data_state: AssetDataState,
    pub name: String,
    pub uri: String,
}

/// The checks on the mint accounts: the collection authority and the collection are the
/// ones that the configuration records.
pub open spec fn mint_accounts_check(
    config: GlobalConfigView,
    collection_update_authority: Pubkey,
    collection: Pubkey,
) -> Result<(), DoomNftProgramError> {
    if collection_update_authority != config.collection_update_authority {
        Err(DoomNftProgramError::CollectionAuthorityMismatch)
    } else if collection != config.collection {
        Err(DoomNftProgramError::CollectionMismatch)
    } else {
        Ok(())
    }
}

/// What minting `token_id` does to `reservation` on behalf of `user`, or the first
/// check that refuses it: minting is not paused, the collection exists, the reservation
/// is for this token id, it belongs to `user`, and it has not been used.
pub open spec fn mint_outcome(
    config: GlobalConfigView,
    reservation: MintReservation,
    user: Pubkey,
    token_id: u64,
) -> Result<MintReservation, DoomNftProgramError> {
    if config.mint_paused {
        Err(DoomNftProgramError::MintPaused)
    } else if !config.collection_initialized() {
        Err(DoomNftProgramError::CollectionNotInitialized)
    } else if reservation.token_id != token_id {
        Err(DoomNftProgramError::ReservationTokenMismatch)
    } else if reservation.reserver != user {
        Err(DoomNftProgramError::ReservationOwnerMismatch)
    } else if reservation.minted {
        Err(DoomNftProgramError::ReservationAlreadyMinted)
    } else {
        Ok(MintReservation { minted: true, ..reservation })
    }
}

impl MintDoomIndexNft {
    /// Checks that the collection authority and the collection are the configured ones.
    pub fn check_constraints(&self) -> (r: Result<(), DoomNftProgramError>)
        ensures
            r == mint_accounts_check(
                self.global_config@,
                self.collection_update_authority,
                self.collection,
            ),
    {
        if !(self.collection_update_authority == self.global_config.collection_update_authority) {
            return Err(DoomNftProgramError::CollectionAuthorityMismatch);
        }
        if !(self.collection == self.global_config.collection) {
            return Err(DoomNftProgramError::CollectionMismatch);
        }
        Ok(())
    }
}

/// Mints the reserved token id: on success the reservation is marked minted, and the
/// result is the asset to create, named `"DOOM INDEX #{token_id}"`, with URI
/// `"{base_metadata_url}/{token_id}.json"`, owned and paid for by the user, kept in
/// account state, in the collection under the collection authority for which the
/// program signs, together with the event to emit.
/// On failure nothing changes.
pub fn process_mint_doom_index_nft(accounts: &mut MintDoomIndexNft, token_id: u64) -> (r: Result<
    (CoreAssetCreation, AssetMinted),
    DoomNftProgramError,
>)
    ensures
        ({
            let outcome = mint_outcome(
                old(accounts).global_config@,
                old(accounts).reservation,
                old(accounts).user,
                token_id,
            );
            match outcome {
                Ok(reservation) => {
                    &&& r is Ok
                    &&& final(accounts).reservation == reservation
                    &&& r->Ok_0.0.asset == old(accounts).asset
                    &&& r->Ok_0.0.collection == old(accounts).collection
                    &&& r->Ok_0.0.authority == old(accounts).collection_update_authority
                    &&& r->Ok_0.0.authority_seeds == (AuthoritySignerSeeds {
                        global_config: old(accounts).global_config_key,
                        bump: old(accounts).collection_update_authority_bump,
                    })
                    &&& r->Ok_0.0.data_state == AssetDataState::AccountState
                    &&& r->Ok_0.0.payer == old(accounts).user
                    &&& r->Ok_0.0.owner == old(accounts).user
                    &&& r->Ok_0.0.name@ == asset_name(token_id)
                    &&& r->Ok_0.0.uri@ == asset_uri(
                        old(accounts).global_config.base_metadata_url@,
                        token_id,
                    )
                    &&& r->Ok_0.1 == (AssetMinted {
                        token_id,
                        asset: old(accounts).asset,
                        owner: old(accounts).user,
                    })
                },
                Err(e) => {
                    &&& r is Err
                    &&& r->Err_0 == e
                    &&& final(accounts).reservation == old(accounts).reservation
                },
            }
        }),
        final(accounts).global_config == old(accounts).global_config,
        final(accounts).global_config_key == old(accounts).global_config_key,
        final(accounts).collection_update_authority_bump == old(
            accounts,
        ).collection_update_authority_bump,
        final(accounts).user == old(accounts).user,
        final(accounts).asset == old(accounts).asset,
        final(accounts).collection_update_authority == old(accounts).collection_update_authority,
        final(accounts).collection == old(accounts).collection,
{
    if accounts.global_config.mint_paused {
        return Err(DoomNftProgramError::MintPaused);
    }
    if accounts.global_config.collection.is_zero() {
        return Err(DoomNftProgramError::CollectionNotInitialized);
    }
    if accounts.reservation.token_id != token_id {
        return Err(DoomNftProgramError::ReservationTokenMismatch);
    }
    if !(accounts.reservation.reserver == accounts.user) {
        return Err(DoomNftProgramError::ReservationOwnerMismatch);
    }
    if accounts.reservation.minted {
        return Err(DoomNftProgramError::ReservationAlreadyMinted);
    }
    let name = build_asset_name(token_id);
    let uri = build_asset_uri(accounts.global_config.base_metadata_url.as_str(), token_id);
    let creation = CoreAssetCreation {
        asset: accounts.asset,
        collection: accounts.collection,
        authority: accounts.collection_update_authority,
        authority_seeds: AuthoritySignerSeeds {
            global_config: accounts.global_config_key,
            bump: accounts.collection_update_authority_bump,
        },
        payer: accounts.user,
        owner: accounts.user,
        data_state: AssetDataState::AccountState,
        name,
        uri,
    };
    accounts.reservation.minted = true;
    let event = AssetMinted { token_id, asset: accounts.asset, owner: accounts.user };
    Ok((creation, event))
}

} // verus!
