pub mod initialize_collection;
pub mod initialize_global_config;
pub mod mint_doom_index_nft;
pub mod reserve_token_id;
pub mod set_mint_paused;
pub mod set_upgrade_authority;
pub mod transfer_admin;
pub mod update_base_metadata_url;
