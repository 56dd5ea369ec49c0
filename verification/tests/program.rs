use doom_nft_program::doom_nft_program::{
    initialize_collection, initialize_global_config, mint_doom_index_nft, reserve_token_id,
    set_mint_paused, set_upgrade_authority, transfer_admin, update_base_metadata_url,
};
use doom_nft_program::instructions::initialize_collection::InitializeCollection;
use doom_nft_program::instructions::initialize_global_config::InitializeGlobalConfig;
use doom_nft_program::instructions::mint_doom_index_nft::{AssetDataState, MintDoomIndexNft};
use doom_nft_program::instructions::reserve_token_id::ReserveTokenId;
use doom_nft_program::instructions::set_mint_paused::SetMintPaused;
use doom_nft_program::instructions::set_upgrade_authority::SetUpgradeAuthority;
use doom_nft_program::instructions::transfer_admin::TransferAdmin;
use doom_nft_program::instructions::update_base_metadata_url::UpdateBaseMetadataUrl;
use doom_nft_program::{DoomNftProgramError, GlobalConfig, MintReservation, Pubkey};

fn key(n: u8) -> Pubkey {
    Pubkey::new_from_array([n; 32])
}

fn zeroed_config() -> GlobalConfig {
    GlobalConfig {
        admin: Pubkey::zero(),
        upgrade_authority: Pubkey::zero(),
        next_token_id: 0,
        mint_paused: false,
        base_metadata_url: String::new(),
        collection: Pubkey::zero(),
        collection_update_authority: Pubkey::zero(),
        bump: 0,
    }
}

fn zeroed_reservation() -> MintReservation {
    MintReservation {
        token_id: 0,
        reserver: Pubkey::zero(),
        minted: false,
        bump: 0,
    }
}

const PAYER: u8 = 1;
const UPGRADE: u8 = 2;
const COLLECTION: u8 = 3;
const COLLECTION_AUTHORITY: u8 = 4;
const GLOBAL_CONFIG: u8 = 10;

fn init_config(base: &str) -> GlobalConfig {
    let mut accounts = InitializeGlobalConfig {
        global_config: zeroed_config(),
        global_config_bump: 254,
        admin: key(PAYER),
    };
    initialize_global_config(&mut accounts, base.to_owned(), key(UPGRADE))
        .expect("initialize global config");
    accounts.global_config
}

fn init_collection(config: GlobalConfig) -> GlobalConfig {
    let mut accounts = InitializeCollection {
        global_config: config,
        admin: key(PAYER),
        collection: key(COLLECTION),
        collection_update_authority: key(COLLECTION_AUTHORITY),
    };
    initialize_collection(&mut accounts).expect("initialize collection");
    accounts.global_config
}

fn reserve(config: GlobalConfig, user: Pubkey) -> Result<(GlobalConfig, MintReservation), DoomNftProgramError> {
    let mut accounts = ReserveTokenId {
        global_config: config,
        reservation: zeroed_reservation(),
        reservation_key: key(9),
        reservation_bump: 253,
        user,
    };
    reserve_token_id(&mut accounts)?;
    Ok((accounts.global_config, accounts.reservation))
}

fn mint_accounts(config: GlobalConfig, reservation: MintReservation, user: Pubkey) -> MintDoomIndexNft {
    let collection_update_authority = config.collection_update_authority;
    let collection = config.collection;
    MintDoomIndexNft {
        global_config: config,
        global_config_key: key(GLOBAL_CONFIG),
        reservation,
        user,
        asset: key(7),
        collection_update_authority,
        collection_update_authority_bump: 252,
        collection,
    }
}

#[test]
fn initialize_global_config_sets_defaults() {
    let base_metadata_url = "https://example.com/doom-index";
    let config = init_config(base_metadata_url);
    assert_eq!(config.admin, key(PAYER));
    assert_eq!(config.upgrade_authority, key(UPGRADE));
    assert_eq!(config.next_token_id, 1);
    assert!(!config.mint_paused);
    assert_eq!(config.base_metadata_url, base_metadata_url);
    assert_eq!(config.collection, Pubkey::zero());
    assert_eq!(config.collection_update_authority, Pubkey::zero());
    assert_eq!(config.bump, 254);
}

#[test]
fn initialize_global_config_rejects_invalid_url() {
    let mut accounts = InitializeGlobalConfig {
        global_config: zeroed_config(),
        global_config_bump: 254,
        admin: key(PAYER),
    };
    let r = initialize_global_config(&mut accounts, "http://example.com".to_owned(), key(UPGRADE));
    assert_eq!(r, Err(DoomNftProgramError::BaseMetadataUrlInvalid));
    assert_eq!(accounts.global_config.next_token_id, 0);
}

#[test]
fn initialize_collection_persists_collection_and_authority() {
    let config = init_config("https://example.com/base");
    let mut accounts = InitializeCollection {
        global_config: config,
        admin: key(PAYER),
        collection: key(COLLECTION),
        collection_update_authority: key(COLLECTION_AUTHORITY),
    };
    let creation = initialize_collection(&mut accounts).expect("initialize collection");
    assert_eq!(accounts.global_config.collection, key(COLLECTION));
    assert_eq!(accounts.global_config.collection_update_authority, key(COLLECTION_AUTHORITY));
    assert_eq!(creation.name, "DOOM INDEX");
    assert_eq!(creation.update_authority, key(COLLECTION_AUTHORITY));
    assert_eq!(creation.uri, "https://example.com/base/collection.json");
    assert_eq!(creation.payer, key(PAYER));
}

#[test]
fn initialize_collection_twice_fails() {
    let config = init_collection(init_config("https://example.com/base"));
    let mut accounts = InitializeCollection {
        global_config: config,
        admin: key(PAYER),
        collection: key(8),
        collection_update_authority: key(COLLECTION_AUTHORITY),
    };
    assert_eq!(
        initialize_collection(&mut accounts).err(),
        Some(DoomNftProgramError::CollectionAlreadyInitialized)
    );
    assert_eq!(accounts.global_config.collection, key(COLLECTION));
}

#[test]
fn initialize_collection_by_non_admin_fails() {
    let config = init_config("https://example.com/base");
    let mut accounts = InitializeCollection {
        global_config: config,
        admin: key(42),
        collection: key(COLLECTION),
        collection_update_authority: key(COLLECTION_AUTHORITY),
    };
    assert_eq!(
        initialize_collection(&mut accounts).err(),
        Some(DoomNftProgramError::Unauthorized)
    );
}

#[test]
fn reserve_token_id_creates_reservation_and_increments_counter() {
    let config = init_config("https://example.com/base");
    let mut accounts = ReserveTokenId {
        global_config: config,
        reservation: zeroed_reservation(),
        reservation_key: key(9),
        reservation_bump: 253,
        user: key(PAYER),
    };
    let event = reserve_token_id(&mut accounts).expect("reserve token id");
    assert_eq!(accounts.reservation.token_id, 1);
    assert_eq!(accounts.reservation.reserver, key(PAYER));
    assert!(!accounts.reservation.minted);
    assert_eq!(accounts.reservation.bump, 253);
    assert_eq!(accounts.global_config.next_token_id, 2);
    assert_eq!(event.token_id, 1);
    assert_eq!(event.reserver, key(PAYER));
    assert_eq!(event.reservation, key(9));
}

#[test]
fn successive_reservations_get_successive_ids() {
    let config = init_config("https://example.com/base");
    let (config, first) = reserve(config, key(PAYER)).unwrap();
    let (config, second) = reserve(config, key(11)).unwrap();
    assert_eq!(first.token_id, 1);
    assert_eq!(second.token_id, 2);
    assert_eq!(config.next_token_id, 3);
}

#[test]
fn reserve_fails_when_counter_is_exhausted() {
    let mut config = init_config("https://example.com/base");
    config.next_token_id = u64::MAX;
    assert_eq!(
        reserve(config, key(PAYER)).err(),
        Some(DoomNftProgramError::TokenIdOverflow)
    );
}

#[test]
fn mint_doom_index_nft_mint_with_valid_reservation_creates_core_asset() {
    let config = init_collection(init_config("https://example.com/base"));
    let (config, reservation) = reserve(config, key(PAYER)).unwrap();
    let mut accounts = mint_accounts(config, reservation, key(PAYER));
    let (asset, event) = mint_doom_index_nft(&mut accounts, 1).expect("mint doom index nft");
    assert!(accounts.reservation.minted);
    assert_eq!(asset.name, "DOOM INDEX #1");
    assert_eq!(asset.uri, "https://example.com/base/1.json");
    assert_eq!(asset.owner, key(PAYER));
    assert_eq!(asset.payer, key(PAYER));
    assert_eq!(asset.collection, key(COLLECTION));
    assert_eq!(asset.authority, key(COLLECTION_AUTHORITY));
    assert_eq!(asset.authority_seeds.global_config, key(GLOBAL_CONFIG));
    assert_eq!(asset.authority_seeds.bump, 252);
    assert_eq!(asset.data_state, AssetDataState::AccountState);
    assert_eq!(event.token_id, 1);
    assert_eq!(event.asset, key(7));
    assert_eq!(event.owner, key(PAYER));
}

#[test]
fn lib_mint_with_valid_reservation_creates_core_asset() {
    let config = init_collection(init_config("https://example.com/base"));
    let (config, reservation) = reserve(config, key(PAYER)).unwrap();
    let mut accounts = mint_accounts(config, reservation, key(PAYER));
    let (asset, _) = mint_doom_index_nft(&mut accounts, 1).expect("mint doom index nft");
    assert!(accounts.reservation.minted);
    assert_eq!(asset.name, "DOOM INDEX #1");
    assert_eq!(asset.uri, "https://example.com/base/1.json");
    assert_eq!(asset.owner, key(PAYER));
}

#[test]
fn mint_with_other_users_reservation_fails() {
    let config = init_collection(init_config("https://example.com/base"));
    let (config, reservation) = reserve(config, key(PAYER)).unwrap();
    let mut accounts = mint_accounts(config, reservation, key(5));
    assert_eq!(
        mint_doom_index_nft(&mut accounts, 1).err(),
        Some(DoomNftProgramError::ReservationOwnerMismatch)
    );
    assert!(!accounts.reservation.minted);
}

#[test]
fn mint_cannot_reuse_reservation_after_success() {
    let config = init_collection(init_config("https://example.com/base"));
    let (config, reservation) = reserve(config, key(PAYER)).unwrap();
    let mut accounts = mint_accounts(config, reservation, key(PAYER));
    mint_doom_index_nft(&mut accounts, 1).expect("first mint succeeds");
    accounts.asset = key(8);
    assert_eq!(
        mint_doom_index_nft(&mut accounts, 1).err(),
        Some(DoomNftProgramError::ReservationAlreadyMinted)
    );
}

#[test]
fn mint_with_wrong_token_id_fails() {
    let config = init_collection(init_config("https://example.com/base"));
    let (config, reservation) = reserve(config, key(PAYER)).unwrap();
    let mut accounts = mint_accounts(config, reservation, key(PAYER));
    assert_eq!(
        mint_doom_index_nft(&mut accounts, 2).err(),
        Some(DoomNftProgramError::ReservationTokenMismatch)
    );
}

#[test]
fn mint_before_collection_fails() {
    let config = init_config("https://example.com/base");
    let (config, reservation) = reserve(config, key(PAYER)).unwrap();
    let mut accounts = mint_accounts(config, reservation, key(PAYER));
    assert_eq!(
        mint_doom_index_nft(&mut accounts, 1).err(),
        Some(DoomNftProgramError::CollectionNotInitialized)
    );
    accounts.collection_update_authority = key(COLLECTION_AUTHORITY);
    assert_eq!(
        mint_doom_index_nft(&mut accounts, 1).err(),
        Some(DoomNftProgramError::CollectionAuthorityMismatch)
    );
}

#[test]
fn mint_with_wrong_collection_fails() {
    let config = init_collection(init_config("https://example.com/base"));
    let (config, reservation) = reserve(config, key(PAYER)).unwrap();
    let mut accounts = mint_accounts(config, reservation, key(PAYER));
    accounts.collection = key(99);
    assert_eq!(
        mint_doom_index_nft(&mut accounts, 1).err(),
        Some(DoomNftProgramError::CollectionMismatch)
    );
}

fn pause(config: GlobalConfig) -> GlobalConfig {
    let mut accounts = SetMintPaused {
        global_config: config,
        admin: key(PAYER),
    };
    set_mint_paused(&mut accounts, true).expect("pause mint");
    accounts.global_config
}

#[test]
fn set_mint_paused_pause_blocks_reserve_and_mint() {
    let config = init_collection(init_config("https://example.com/base"));
    let (config, reservation) = reserve(config, key(PAYER)).unwrap();
    let config = pause(config);
    assert!(config.mint_paused);

    let mut reserve_accounts = ReserveTokenId {
        global_config: config,
        reservation: zeroed_reservation(),
        reservation_key: key(9),
        reservation_bump: 253,
        user: key(PAYER),
    };
    assert_eq!(
        reserve_token_id(&mut reserve_accounts).err(),
        Some(DoomNftProgramError::MintPaused)
    );
    assert_eq!(reserve_accounts.global_config.next_token_id, 2);

    let mut accounts = mint_accounts(reserve_accounts.global_config, reservation, key(PAYER));
    assert_eq!(
        mint_doom_index_nft(&mut accounts, 1).err(),
        Some(DoomNftProgramError::MintPaused)
    );
    assert!(!accounts.reservation.minted);
}

#[test]
fn lib_pause_blocks_reserve_and_mint() {
    let config = pause(init_config("https://example.com/base"));
    assert_eq!(
        reserve(config, key(PAYER)).err(),
        Some(DoomNftProgramError::MintPaused)
    );
}

#[test]
fn unpause_resumes_reservations() {
    let config = pause(init_config("https://example.com/base"));
    let mut accounts = SetMintPaused {
        global_config: config,
        admin: key(PAYER),
    };
    set_mint_paused(&mut accounts, false).unwrap();
    assert!(reserve(accounts.global_config, key(PAYER)).is_ok());
}

#[test]
fn pause_by_non_admin_fails() {
    let mut accounts = SetMintPaused {
        global_config: init_config("https://example.com/base"),
        admin: key(UPGRADE),
    };
    assert_eq!(
        set_mint_paused(&mut accounts, true),
        Err(DoomNftProgramError::Unauthorized)
    );
    assert!(!accounts.global_config.mint_paused);
}

#[test]
fn transfer_admin_updates_admin_authority() {
    let mut accounts = TransferAdmin {
        global_config: init_config("https://example.com/base"),
        admin: key(PAYER),
    };
    transfer_admin(&mut accounts, key(6)).expect("transfer admin");
    assert_eq!(accounts.global_config.admin, key(6));
    assert_eq!(accounts.global_config.upgrade_authority, key(UPGRADE));
}

#[test]
fn transfer_admin_by_non_admin_fails() {
    let mut accounts = TransferAdmin {
        global_config: init_config("https://example.com/base"),
        admin: key(UPGRADE),
    };
    assert_eq!(
        transfer_admin(&mut accounts, key(6)),
        Err(DoomNftProgramError::Unauthorized)
    );
    assert_eq!(accounts.global_config.admin, key(PAYER));
}

#[test]
fn admin_controls_update_base_url_and_transfer_admin() {
    let mut accounts = UpdateBaseMetadataUrl {
        global_config: init_config("https://example.com/base"),
        admin: key(PAYER),
    };
    update_base_metadata_url(&mut accounts, "https://example.com/next".to_owned())
        .expect("update base metadata url");
    assert_eq!(accounts.global_config.base_metadata_url, "https://example.com/next");

    let next_admin = key(6);
    let mut accounts = TransferAdmin {
        global_config: accounts.global_config,
        admin: key(PAYER),
    };
    transfer_admin(&mut accounts, next_admin).expect("transfer admin");
    assert_eq!(accounts.global_config.admin, next_admin);
}

#[test]
fn update_base_url_emits_old_and_new_url() {
    let mut accounts = UpdateBaseMetadataUrl {
        global_config: init_config("https://example.com/base"),
        admin: key(PAYER),
    };
    let event = update_base_metadata_url(&mut accounts, "https://example.com/next".to_owned())
        .unwrap();
    assert_eq!(event.old_base_url, "https://example.com/base");
    assert_eq!(event.new_base_url, "https://example.com/next");
}

#[test]
fn update_base_url_rejects_invalid_url_and_non_admin() {
    let mut accounts = UpdateBaseMetadataUrl {
        global_config: init_config("https://example.com/base"),
        admin: key(PAYER),
    };
    assert_eq!(
        update_base_metadata_url(&mut accounts, "https://example.com/next/".to_owned()).err(),
        Some(DoomNftProgramError::BaseMetadataUrlInvalid)
    );
    accounts.admin = key(UPGRADE);
    assert_eq!(
        update_base_metadata_url(&mut accounts, "https://example.com/next".to_owned()).err(),
        Some(DoomNftProgramError::Unauthorized)
    );
    assert_eq!(accounts.global_config.base_metadata_url, "https://example.com/base");
}

#[test]
fn updated_base_url_applies_to_later_mints() {
    let config = init_collection(init_config("https://example.com/base"));
    let (config, reservation) = reserve(config, key(PAYER)).unwrap();
    let mut accounts = UpdateBaseMetadataUrl {
        global_config: config,
        admin: key(PAYER),
    };
    update_base_metadata_url(&mut accounts, "https://cdn.example.com/v2".to_owned()).unwrap();
    let mut accounts = mint_accounts(accounts.global_config, reservation, key(PAYER));
    let (asset, _) = mint_doom_index_nft(&mut accounts, 1).unwrap();
    assert_eq!(asset.uri, "https://cdn.example.com/v2/1.json");
}

#[test]
fn upgrade_authority_is_independent_from_admin() {
    let mut accounts = SetUpgradeAuthority {
        global_config: init_config("https://example.com/base"),
        upgrade_authority: key(UPGRADE),
    };
    let event = set_upgrade_authority(&mut accounts, key(12)).expect("set upgrade authority");
    assert_eq!(accounts.global_config.admin, key(PAYER));
    assert_eq!(accounts.global_config.upgrade_authority, key(12));
    assert_eq!(event.old_upgrade_authority, key(UPGRADE));
    assert_eq!(event.new_upgrade_authority, key(12));
}

#[test]
fn admin_cannot_set_upgrade_authority() {
    let mut accounts = SetUpgradeAuthority {
        global_config: init_config("https://example.com/base"),
        upgrade_authority: key(PAYER),
    };
    assert_eq!(
        set_upgrade_authority(&mut accounts, key(12)).err(),
        Some(DoomNftProgramError::Unauthorized)
    );
    assert_eq!(accounts.global_config.upgrade_authority, key(UPGRADE));
}

#[test]
fn pubkey_roundtrip_and_zero() {
    let k = Pubkey::new_from_array([3u8; 32]);
    assert_eq!(k.to_bytes(), [3u8; 32]);
    assert!(Pubkey::zero().is_zero());
    assert!(!k.is_zero());
    assert!(k.same_as(&key(3)));
    assert!(!k.same_as(&key(4)));
}
