use vstd::prelude::*;

use crate::constants::COLLECTION_NAME;
use crate::doom_nft_program::{
    initialize_collection_instruction_outcome,
    mint_instruction_outcome,
    set_mint_paused_instruction_outcome,
    set_upgrade_authority_instruction_outcome,
    transfer_admin_instruction_outcome,
    update_base_metadata_url_instruction_outcome,
};
use crate::error::DoomNftProgramError;
use crate::instructions::initialize_global_config::initialize_global_config_outcome;
use crate::instructions::mint_doom_index_nft::mint_outcome;
use crate::instructions::reserve_token_id::reserve_outcome;
use crate::pubkey::Pubkey;
use crate::state::global_config::GlobalConfigView;
use crate::state::mint_reservation::MintReservation;
use crate::utils::{asset_name, asset_uri, decimal, digit_char};

verus! {

proof fn lemma_decimal_len(n: nat)
    ensures
        decimal(n).len() >= 1,
        n >= 10 ==> decimal(n).len() >= 2,
    decreases n,
{
    if n >= 10 {
        lemma_decimal_len(n / 10);
    }
}

proof fn lemma_digit_char_injective(a: nat, b: nat)
    requires
        a < 10,
        b < 10,
        digit_char(a) == digit_char(b),
    ensures
        a == b,
{
    assert(digit_char(a) as int == a + 48);
    assert(digit_char(b) as int == b + 48);
}

/// Distinct numbers have distinct decimal representations.
pub proof fn lemma_decimal_injective(a: nat, b: nat)
    requires
        decimal(a) == decimal(b),
    ensures
        a == b,
    decreases a,
{
    lemma_decimal_len(a);
    lemma_decimal_len(b);
    if a < 10 && b < 10 {
        assert(decimal(a)[0] == digit_char(a));
        assert(decimal(b)[0] == digit_char(b));
        lemma_digit_char_injective(a, b);
    } else if a >= 10 && b >= 10 {
        let da = decimal(a);
        let db = decimal(b);
        assert(da.last() == digit_char(a % 10));
        assert(db.last() == digit_char(b % 10));
        lemma_digit_char_injective(a % 10, b % 10);
        assert(da.drop_last() =~= decimal(a / 10));
        assert(db.drop_last() =~= decimal(b / 10));
        lemma_decimal_injective(a / 10, b / 10);
    }
}

/// Under one base URL, distinct token ids get distinct metadata URIs.
pub proof fn lemma_asset_uri_unique(base: Seq<char>, a: u64, b: u64)
    requires
        a != b,
    ensures
        asset_uri(base, a) != asset_uri(base, b),
{
    reveal_strlit("/");
    reveal_strlit(".json");
    let da = decimal(a as nat);
    let db = decimal(b as nat);
    if asset_uri(base, a) == asset_uri(base, b) {
        let ua = asset_uri(base, a);
        let ub = asset_uri(base, b);
        assert(ua.len() == base.len() + 1 + da.len() + 5);
        assert(ub.len() == base.len() + 1 + db.len() + 5);
        let start: int = base.len() as int + 1;
        assert(ua.subrange(start, start + da.len()) =~= da);
        assert(ub.subrange(start, start + db.len()) =~= db);
        lemma_decimal_injective(a as nat, b as nat);
    }
}

/// Distinct token ids get distinct asset names.
pub proof fn lemma_asset_name_unique(a: u64, b: u64)
    requires
        a != b,
    ensures
        asset_name(a) != asset_name(b),
{
    reveal_strlit(" #");
    let prefix = COLLECTION_NAME@ + " #"@;
    let da = decimal(a as nat);
    let db = decimal(b as nat);
    if asset_name(a) == asset_name(b) {
        assert(asset_name(a).subrange(prefix.len() as int, asset_name(a).len() as int) =~= da);
        assert(asset_name(b).subrange(prefix.len() as int, asset_name(b).len() as int) =~= db);
        lemma_decimal_injective(a as nat, b as nat);
    }
}

/// An instruction that writes the configuration, with what it takes.
pub enum ConfigInstruction {
    InitializeCollection { admin: Pubkey, collection: Pubkey, collection_update_authority: Pubkey },
    ReserveTokenId { user: Pubkey, reservation_bump: u8 },
    UpdateBaseMetadataUrl { admin: Pubkey, base_metadata_url: Seq<char> },
    SetMintPaused { admin: Pubkey, paused: bool },
    TransferAdmin { admin: Pubkey, new_admin: Pubkey },
    SetUpgradeAuthority { upgrade_authority: Pubkey, new_upgrade_authority: Pubkey },
}

/// What one instruction does to the configuration, as the instructions' contracts state it.
pub open spec fn config_step(config: GlobalConfigView, ins: ConfigInstruction) -> Result<
    GlobalConfigView,
    DoomNftProgramError,
> {
    match ins {
        ConfigInstruction::InitializeCollection { admin, collection, collection_update_authority } =>
            initialize_collection_instruction_outcome(config, admin, collection, collection_update_authority),
        ConfigInstruction::ReserveTokenId { user, reservation_bump } =>
            match reserve_outcome(config, user, reservation_bump) {
                Ok((c, _)) => Ok(c),
                Err(e) => Err(e),
            },
        ConfigInstruction::UpdateBaseMetadataUrl { admin, base_metadata_url } =>
            update_base_metadata_url_instruction_outcome(config, admin, base_metadata_url),
        ConfigInstruction::SetMintPaused { admin, paused } =>
            set_mint_paused_instruction_outcome(config, admin, paused),
        ConfigInstruction::TransferAdmin { admin, new_admin } =>
            transfer_admin_instruction_outcome(config, admin, new_admin),
        ConfigInstruction::SetUpgradeAuthority { upgrade_authority, new_upgrade_authority } =>
            set_upgrade_authority_instruction_outcome(config, upgrade_authority, new_upgrade_authority),
    }
}

/// The configuration after a run of instructions; one that fails leaves it as it was.
pub open spec fn config_after(config: GlobalConfigView, run: Seq<ConfigInstruction>) -> GlobalConfigView
    decreases run.len(),
{
    if run.len() == 0 {
        config
    } else {
        let before = config_after(config, run.drop_last());
        match config_step(before, run.last()) {
            Ok(after) => after,
            Err(_) => before,
        }
    }
}

/// The token ids that the successful reservations of a run hand out, in order.
pub open spec fn issued_token_ids(config: GlobalConfigView, run: Seq<ConfigInstruction>) -> Seq<u64>
    decreases run.len(),
{
    if run.len() == 0 {
        Seq::empty()
    } else {
        let earlier = issued_token_ids(config, run.drop_last());
        let before = config_after(config, run.drop_last());
        match run.last() {
            ConfigInstruction::ReserveTokenId { user, reservation_bump } =>
                match reserve_outcome(before, user, reservation_bump) {
                    Ok((_, reservation)) => earlier.push(reservation.token_id),
                    Err(_) => earlier,
                },
            _ => earlier,
        }
    }
}

/// A configuration that initialization writes satisfies the configuration invariant.
pub proof fn lemma_initialized_config_wf(
    admin: Pubkey,
    base_metadata_url: Seq<char>,
    upgrade_authority: Pubkey,
    bump: u8,
)
    requires
        initialize_global_config_outcome(admin, base_metadata_url, upgrade_authority, bump) is Ok,
    ensures
        initialize_global_config_outcome(admin, base_metadata_url, upgrade_authority, bump)->Ok_0.wf(),
{
}

/// Every instruction keeps the configuration invariant, moves the counter on by one when
/// it is a successful reservation, and leaves the counter alone otherwise.
pub proof fn lemma_config_step(config: GlobalConfigView, ins: ConfigInstruction)
    requires
        config_step(config, ins) is Ok,
    ensures
        config.wf() ==> config_step(config, ins)->Ok_0.wf(),
        config_step(config, ins)->Ok_0.next_token_id == (if ins is ReserveTokenId {
            config.next_token_id + 1
        } else {
            config.next_token_id as int
        }),
{
}

/// Every run of instructions keeps the configuration invariant.
pub proof fn lemma_config_run_preserves_wf(config: GlobalConfigView, run: Seq<ConfigInstruction>)
    requires
        config.wf(),
    ensures
        config_after(config, run).wf(),
    decreases run.len(),
{
    if run.len() > 0 {
        lemma_config_run_preserves_wf(config, run.drop_last());
        let before = config_after(config, run.drop_last());
        if config_step(before, run.last()) is Ok {
            lemma_config_step(before, run.last());
        }
    }
}

/// Over any run the counter never goes back, and the token ids handed out are strictly
/// increasing, at least the starting counter and below the final one: no token id is
/// handed out twice.
pub proof fn lemma_issued_token_ids_unique(config: GlobalConfigView, run: Seq<ConfigInstruction>)
    ensures
        config_after(config, run).next_token_id >= config.next_token_id,
        forall|i: int, j: int|
            0 <= i < j < issued_token_ids(config, run).len() ==> issued_token_ids(config, run)[i]
                < issued_token_ids(config, run)[j],
        forall|i: int|
            0 <= i < issued_token_ids(config, run).len() ==> config.next_token_id
                <= #[trigger] issued_token_ids(config, run)[i] < config_after(
                config,
                run,
            ).next_token_id,
    decreases run.len(),
{
    if run.len() > 0 {
        let prefix = run.drop_last();
        lemma_issued_token_ids_unique(config, prefix);
        let before = config_after(config, prefix);
        let earlier = issued_token_ids(config, prefix);
        let ids = issued_token_ids(config, run);
        if config_step(before, run.last()) is Ok {
            lemma_config_step(before, run.last());
        }
        match run.last() {
            ConfigInstruction::ReserveTokenId { user, reservation_bump } => {
                match reserve_outcome(before, user, reservation_bump) {
                    Ok((after, reservation)) => {
                        assert(ids == earlier.push(reservation.token_id));
                        assert(reservation.token_id == before.next_token_id);
                        assert(config_after(config, run) == after);
                        assert(forall|i: int| 0 <= i < earlier.len() ==> ids[i] == earlier[i]);
                    },
                    Err(_) => {
                        assert(ids == earlier);
                    },
                }
            },
            _ => {
                assert(ids == earlier);
            },
        }
    }
}

/// The administrator role and the upgrade role are separate: changing the upgrade
/// authority leaves the administrator alone and needs the upgrade authority's signature
/// even from the administrator; no administrator instruction touches the upgrade
/// authority; and the administrator alone hands on the administrator role.
pub proof fn lemma_roles_separate(config: GlobalConfigView, ins: ConfigInstruction)
    ensures
        ins is SetUpgradeAuthority && config_step(config, ins) is Ok ==> config_step(
            config,
            ins,
        )->Ok_0.admin == config.admin,
        ins is SetUpgradeAuthority && ins->SetUpgradeAuthority_upgrade_authority
            != config.upgrade_authority ==> config_step(config, ins) == Err::<
            GlobalConfigView,
            DoomNftProgramError,
        >(DoomNftProgramError::Unauthorized),
        !(ins is SetUpgradeAuthority) && config_step(config, ins) is Ok ==> config_step(
            config,
            ins,
        )->Ok_0.upgrade_authority == config.upgrade_authority,
        ins is TransferAdmin && config_step(config, ins) is Ok ==> config_step(config, ins)->Ok_0.admin
            == ins->TransferAdmin_new_admin,
        ins is TransferAdmin ==> (config_step(config, ins) is Ok <==> ins->TransferAdmin_admin
            == config.admin),
{
}

/// Only the reserver can mint a reservation, only for its own token id, only once, and
/// only while minting is open and the collection exists.
pub proof fn lemma_mint_needs_own_unused_reservation(
    config: GlobalConfigView,
    reservation: MintReservation,
    user: Pubkey,
    token_id: u64,
)
    requires
        mint_outcome(config, reservation, user, token_id) is Ok,
    ensures
        reservation.reserver == user,
        reservation.token_id == token_id,
        !reservation.minted,
        !config.mint_paused,
        config.collection_initialized(),
        mint_outcome(config, reservation, user, token_id)->Ok_0 == (MintReservation {
            minted: true,
            ..reservation
        }),
{
}

/// A reservation cannot be used twice: once a mint succeeds, every later mint of the
/// same reservation fails, and with the same configuration, user and token id it fails
/// with `ReservationAlreadyMinted`.
pub proof fn lemma_no_double_mint(
    config: GlobalConfigView,
    reservation: MintReservation,
    user: Pubkey,
    token_id: u64,
    later_config: GlobalConfigView,
    later_user: Pubkey,
    later_token_id: u64,
)
    requires
        mint_outcome(config, reservation, user, token_id) is Ok,
    ensures
        mint_outcome(
            later_config,
            mint_outcome(config, reservation, user, token_id)->Ok_0,
            later_user,
            later_token_id,
        ) is Err,
        mint_outcome(config, mint_outcome(config, reservation, user, token_id)->Ok_0, user, token_id)
            == Err::<MintReservation, DoomNftProgramError>(
            DoomNftProgramError::ReservationAlreadyMinted,
        ),
{
}

/// While minting is paused, reserving fails with `MintPaused`, and so does minting once
/// the accounts are the configured ones; no mint succeeds.
pub proof fn lemma_pause_blocks_reserve_and_mint(
    config: GlobalConfigView,
    user: Pubkey,
    reservation_bump: u8,
    reservation: MintReservation,
    collection_update_authority: Pubkey,
    collection: Pubkey,
    token_id: u64,
)
    requires
        config.mint_paused,
    ensures
        reserve_outcome(config, user, reservation_bump) == Err::<
            (GlobalConfigView, MintReservation),
            DoomNftProgramError,
        >(DoomNftProgramError::MintPaused),
        mint_instruction_outcome(
            config,
            reservation,
            user,
            collection_update_authority,
            collection,
            token_id,
        ) is Err,
        collection_update_authority == config.collection_update_authority && collection
            == config.collection ==> mint_instruction_outcome(
            config,
            reservation,
            user,
            collection_update_authority,
            collection,
            token_id,
        ) == Err::<MintReservation, DoomNftProgramError>(DoomNftProgramError::MintPaused),
{
}

/// No asset is minted before the collection exists.
pub proof fn lemma_mint_needs_collection(
    config: GlobalConfigView,
    reservation: MintReservation,
    user: Pubkey,
    collection_update_authority: Pubkey,
    collection: Pubkey,
    token_id: u64,
)
    requires
        !config.collection_initialized(),
    ensures
        mint_instruction_outcome(
            config,
            reservation,
            user,
            collection_update_authority,
            collection,
            token_id,
        ) is Err,
{
}

/// Reserving and then minting works: while minting is open, the collection exists and
/// the counter has room, the user who reserves a token id can mint it with the
/// configured accounts, and the reservation ends up minted.
pub proof fn lemma_reserve_then_mint(
    config: GlobalConfigView,
    user: Pubkey,
    reservation_bump: u8,
)
    requires
        !config.mint_paused,
        config.collection_initialized(),
        config.next_token_id < u64::MAX,
    ensures
        reserve_outcome(config, user, reservation_bump) is Ok,
        ({
            let (after, reservation) = reserve_outcome(config, user, reservation_bump)->Ok_0;
            &&& reservation.token_id == config.next_token_id
            &&& mint_instruction_outcome(
                after,
                reservation,
                user,
                after.collection_update_authority,
                after.collection,
                reservation.token_id,
            ) == Ok::<MintReservation, DoomNftProgramError>(
                MintReservation { minted: true, ..reservation },
            )
        }),
{
}

/// The collection is created at most once: after a successful creation with a non-zero
/// collection address, creating it again fails, and fails with
/// `CollectionAlreadyInitialized` when the administrator asks.
pub proof fn lemma_collection_initialized_once(
    config: GlobalConfigView,
    admin: Pubkey,
    collection: Pubkey,
    collection_update_authority: Pubkey,
    later_admin: Pubkey,
    later_collection: Pubkey,
    later_collection_update_authority: Pubkey,
)
    requires
        collection != Pubkey::spec_zero(),
        initialize_collection_instruction_outcome(
            config,
            admin,
            collection,
            collection_update_authority,
        ) is Ok,
    ensures
        ({
            let after = initialize_collection_instruction_outcome(
                config,
                admin,
                collection,
                collection_update_authority,
            )->Ok_0;
            &&& after.collection == collection
            &&& after.collection_update_authority == collection_update_authority
            &&& initialize_collection_instruction_outcome(
                after,
                later_admin,
                later_collection,
                later_collection_update_authority,
            ) is Err
            &&& initialize_collection_instruction_outcome(
                after,
                admin,
                later_collection,
                later_collection_update_authority,
            ) == Err::<GlobalConfigView, DoomNftProgramError>(
                DoomNftProgramError::CollectionAlreadyInitialized,
            )
        }),
{
}

} // verus!
