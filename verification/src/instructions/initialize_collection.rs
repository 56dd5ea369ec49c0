use vstd::prelude::*;

use crate::constants::COLLECTION_NAME;
use crate::error::DoomNftProgramError;
use crate::pubkey::Pubkey;
use crate::state::global_config::{GlobalConfig, GlobalConfigView};
use crate::utils::{build_collection_uri, collection_uri};

verus! {

/// What the collection initialization reads and writes: the configuration, the signing
/// administrator, the fresh collection account, and the collection authority derived
/// from the configuration.
#[derive(Debug)]
pub struct InitializeCollection {
    pub global_config: GlobalConfig,
    pub admin: Pubkey,
    pub collection: Pubkey,
    pub collection_update_authority: Pubkey,
}

/// The request to Metaplex Core to create the collection.
#[derive(Debug)]
pub struct CoreCollectionCreation {
    pub collection: Pubkey,
    pub update_authority: Pubkey,
    pub payer: Pubkey,
    pub name: String,
    pub uri: String,
}

/// The check on the accounts: the signer is the configured administrator.
pub open spec fn admin_check(config: GlobalConfigView, admin: Pubkey) -> Result<
    (),
    DoomNftProgramError,
> {
    if config.admin != admin {
        Err(DoomNftProgramError::Unauthorized)
    } else {
        Ok(())
    }
}

/// What creating the collection does to the configuration: unless a collection is
/// already recorded, it records the new collection and its update authority.
pub open spec fn initialize_collection_outcome(
    config: GlobalConfigView,
    collection: Pubkey,
    collection_update_authority: Pubkey,
) -> Result<GlobalConfigView, DoomNftProgramError> {
    if config.collection_initialized() {
        Err(DoomNftProgramError::CollectionAlreadyInitialized)
    } else {
        Ok(GlobalConfigView { collection, collection_update_authority, ..config })
    }
}

impl InitializeCollection {
    /// Checks that the signer is the configured administrator.
    pub fn check_constraints(&self) -> (r: Result<(), DoomNftProgramError>)
        ensures
            r == admin_check(self.global_config@, self.admin),
    {
        if !(self.global_config.admin == self.admin) {
            return Err(DoomNftProgramError::Unauthorized);
        }
        Ok(())
    }
}

/// Records the collection. On success the result is the collection to create, named
/// `"DOOM INDEX"`, with URI `"{base_metadata_url}/collection.json"`, under the collection
/// authority and paid for by the administrator; on failure nothing changes.
pub fn process_initialize_collection(accounts: &mut InitializeCollection) -> (r: Result<
    CoreCollectionCreation,
    DoomNftProgramError,
>)
    ensures
        ({
            let outcome = initialize_collection_outcome(
                old(accounts).global_config@,
                old(accounts).collection,
                old(accounts).collection_update_authority,
            );
            match outcome {
                Ok(config) => {
                    &&& r is Ok
                    &&& final(accounts).global_config@ == config
                    &&& r->Ok_0.collection == old(accounts).collection
                    &&& r->Ok_0.update_authority == old(accounts).collection_update_authority
                    &&& r->Ok_0.payer == old(accounts).admin
                    &&& r->Ok_0.name@ == COLLECTION_NAME@
                    &&& r->Ok_0.uri@ == collection_uri(
                        old(accounts).global_config.base_metadata_url@,
                    )
                },
                Err(e) => {
                    &&& r is Err
                    &&& r->Err_0 == e
                    &&& final(accounts).global_config == old(accounts).global_config
                },
            }
        }),
        final(accounts).admin == old(accounts).admin,
        final(accounts).collection == old(accounts).collection,
        final(accounts).collection_update_authority == old(accounts).collection_update_authority,
{
    if !accounts.global_config.collection.is_zero() {
        return Err(DoomNftProgramError::CollectionAlreadyInitialized);
    }
    let uri = build_collection_uri(accounts.global_config.base_metadata_url.as_str());
    let creation = CoreCollectionCreation {
        collection: accounts.collection,
        update_authority: accounts.collection_update_authority,
        payer: accounts.admin,
        name: String::from_str(COLLECTION_NAME),
        uri,
    };
    accounts.global_config.collection = accounts.collection;
    accounts.global_config.collection_update_authority = accounts.collection_update_authority;
    Ok(creation)
}

} // verus!
