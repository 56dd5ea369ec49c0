//! Verified core of the DOOM INDEX NFT program.
//!
//! The program hands out sequential token ids through reservations and mints one
//! Metaplex Core asset per reservation, named and addressed deterministically from the
//! token id. This crate holds the program's state, its checks and its decisions; each
//! instruction is a function from the accounts it reads to the accounts it writes, the
//! request to Metaplex Core that it makes and the event that it emits.

pub mod constants;
pub mod doom_nft_program;
pub mod error;
pub mod events;
pub mod instructions;
pub mod instruction_laws;
pub mod laws;
pub mod pubkey;
pub mod state;
pub mod utils;

pub use error::DoomNftProgramError;
pub use events::{AssetMinted, BaseMetadataUrlUpdated, TokenReserved, UpgradeAuthorityUpdated};
pub use instructions::initialize_collection::{
    process_initialize_collection, CoreCollectionCreation, InitializeCollection,
};
pub use instructions::initialize_global_config::{
    process_initialize_global_config, InitializeGlobalConfig,
};
pub use instructions::mint_doom_index_nft::{
    process_mint_doom_index_nft, AssetDataState, AuthoritySignerSeeds, CoreAssetCreation,
    MintDoomIndexNft,
};
pub use instructions::reserve_token_id::{process_reserve_token_id, ReserveTokenId};
pub use instructions::set_mint_paused::{process_set_mint_paused, SetMintPaused};
pub use instructions::set_upgrade_authority::{process_set_upgrade_authority, SetUpgradeAuthority};
pub use instructions::transfer_admin::{process_transfer_admin, TransferAdmin};
pub use instructions::update_base_metadata_url::{
    process_update_base_metadata_url, UpdateBaseMetadataUrl,
};
pub use pubkey::Pubkey;
pub use state::global_config::{GlobalConfig, GlobalConfigView};
pub use state::mint_reservation::MintReservation;
pub use utils::{build_asset_name, build_asset_uri, build_collection_uri, validate_base_metadata_url};
