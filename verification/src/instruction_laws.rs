use vstd::prelude::*;
use vstd::utf8::encode_utf8;

use crate::constants::{FIRST_TOKEN_ID, MAX_BASE_METADATA_URL_LEN};
use crate::doom_nft_program::{
    initialize_collection_instruction_outcome,
    mint_instruction_outcome,
    set_mint_paused_instruction_outcome,
    set_upgrade_authority_instruction_outcome,
    transfer_admin_instruction_outcome,
    update_base_metadata_url_instruction_outcome,
};
use crate::error::DoomNftProgramError;
use crate::instructions::initialize_global_config::initialize_global_config_outcome;
use crate::instructions::mint_doom_index_nft::mint_outcome;
use crate::instructions::reserve_token_id::reserve_outcome;
use crate::pubkey::Pubkey;
use crate::state::global_config::GlobalConfigView;
use crate::state::mint_reservation::MintReservation;
use crate::utils::{
    asset_name,
    asset_uri,
    base_metadata_url_is_valid,
    char_is_whitespace,
    collection_uri,
    decimal,
    lemma_trim_unchanged,
};

verus! {

/// The unset address is the one made of 32 zero bytes, and it is the only such address.
pub proof fn lemma_zero_key(key: Pubkey)
    ensures
        forall|i: int| 0 <= i < 32 ==> #[trigger] Pubkey::spec_zero().bytes@[i] == 0u8,
        (forall|i: int| 0 <= i < 32 ==> #[trigger] key.bytes@[i] == 0u8) ==> key
            == Pubkey::spec_zero(),
{
    broadcast use vstd::array::group_array_axioms;

    assert(forall|i: int| 0 <= i < 32 ==> #[trigger] Pubkey::spec_zero().bytes@[i] == 0u8);
    if forall|i: int| 0 <= i < 32 ==> #[trigger] key.bytes@[i] == 0u8 {
        assert(key.bytes =~= Pubkey::spec_zero().bytes);
    }
}

/// The numeric value of a string of decimal digits.
pub open spec fn digits_value(s: Seq<char>) -> int
    decreases s.len(),
{
    if s.len() == 0 {
        0
    } else {
        digits_value(s.drop_last()) * 10 + (s.last() as int - 48)
    }
}

/// Whether every character of `s` is one of `0` to `9`.
pub open spec fn all_digits(s: Seq<char>) -> bool {
    forall|i: int| 0 <= i < s.len() ==> '0' <= #[trigger] s[i] <= '9'
}

/// The decimal representation of `n` is a non-empty string of digits, without a leading
/// zero unless it is `0` itself, whose value is `n`.
pub proof fn lemma_decimal_denotes(n: nat)
    ensures
        decimal(n).len() > 0,
        all_digits(decimal(n)),
        digits_value(decimal(n)) == n,
        decimal(n).len() > 1 ==> decimal(n)[0] != '0',
        n == 0 ==> decimal(n) == seq!['0'],
        decimal(n).len() > 1 <==> n >= 10,
    decreases n,
{
    let last_digit = n % 10;
    assert(crate::utils::digit_char(last_digit) as int == last_digit + 48);
    if n >= 10 {
        let m = n / 10;
        lemma_decimal_denotes(m);
        let d = decimal(n);
        assert(d.drop_last() =~= decimal(m));
        assert(d[0] == decimal(m)[0]);
        assert(d.last() == crate::utils::digit_char(last_digit));
        assert(digits_value(d) == digits_value(decimal(m)) * 10 + last_digit);
        assert(n == m * 10 + last_digit);
        if decimal(m).len() == 1 {
            assert(m >= 1 && m < 10);
            assert(decimal(m)[0] == crate::utils::digit_char(m));
            assert(crate::utils::digit_char(m) as int == m + 48);
        }
        assert(all_digits(d)) by {
            assert forall|i: int| 0 <= i < d.len() implies '0' <= #[trigger] d[i] <= '9' by {
                if i < d.len() - 1 {
                    assert(d[i] == decimal(m)[i]);
                }
            }
        }
    } else {
        assert(decimal(n) =~= seq![crate::utils::digit_char(n)]);
        assert(crate::utils::digit_char(n) as int == n + 48);
        assert(digits_value(decimal(n)) == digits_value(decimal(n).drop_last()) * 10 + (n + 48 - 48));
        assert(decimal(n).drop_last() =~= Seq::<char>::empty());
    }
}

/// A metadata URI is the base URL, a `/`, the token id in decimal, and `.json`.
pub proof fn lemma_asset_uri_shape(base: Seq<char>, token_id: u64)
    ensures
        ({
            let uri = asset_uri(base, token_id);
            let digits = uri.subrange(base.len() as int + 1, uri.len() - 5);
            &&& uri.len() > base.len() + 6
            &&& uri.subrange(0, base.len() as int) == base
            &&& uri[base.len() as int] == '/'
            &&& uri.subrange(uri.len() - 5, uri.len() as int) == ".json"@
            &&& all_digits(digits)
            &&& digits_value(digits) == token_id
            &&& (digits.len() > 1 ==> digits[0] != '0')
        }),
{
    reveal_strlit("/");
    reveal_strlit(".json");
    lemma_decimal_denotes(token_id as nat);
    let uri = asset_uri(base, token_id);
    let start: int = base.len() as int + 1;
    assert(uri.subrange(0, base.len() as int) =~= base);
    assert(uri.subrange(start, uri.len() - 5) =~= decimal(token_id as nat));
    assert(uri.subrange(uri.len() - 5, uri.len() as int) =~= ".json"@);
}

/// An asset name is `DOOM INDEX #` followed by the token id in decimal.
pub proof fn lemma_asset_name_shape(token_id: u64)
    ensures
        ({
            let name = asset_name(token_id);
            let digits = name.subrange(12, name.len() as int);
            &&& name.len() > 12
            &&& name.subrange(0, 12) == "DOOM INDEX #"@
            &&& all_digits(digits)
            &&& digits_value(digits) == token_id
            &&& (digits.len() > 1 ==> digits[0] != '0')
        }),
{
    reveal_strlit("DOOM INDEX");
    reveal_strlit(" #");
    reveal_strlit("DOOM INDEX #");
    lemma_decimal_denotes(token_id as nat);
    let name = asset_name(token_id);
    assert(name.subrange(0, 12) =~= "DOOM INDEX #"@);
    assert(name.subrange(12, name.len() as int) =~= decimal(token_id as nat));
}

/// The collection URI is the base URL followed by `/collection.json`.
pub proof fn lemma_collection_uri_shape(base: Seq<char>)
    ensures
        collection_uri(base).len() == base.len() + 16,
        collection_uri(base).subrange(0, base.len() as int) == base,
        collection_uri(base).subrange(base.len() as int, base.len() as int + 16) == "/collection.json"@,
{
    reveal_strlit("/collection.json");
    assert(collection_uri(base).subrange(0, base.len() as int) =~= base);
    assert(collection_uri(base).subrange(base.len() as int, base.len() as int + 16)
        =~= "/collection.json"@);
}

/// The URL rule in plain terms: a base URL is accepted exactly when it is not empty,
/// neither starts nor ends with white space, takes at most 256 bytes in UTF-8, does not
/// end in `/`, and parses as a URL whose scheme is exactly `https`.
pub proof fn lemma_url_rule(url: Seq<char>)
    ensures
        base_metadata_url_is_valid(url) <==> {
            &&& url.len() > 0
            &&& !char_is_whitespace(url[0])
            &&& !char_is_whitespace(url.last())
            &&& encode_utf8(url).len() <= 256
            &&& url.last() != '/'
            &&& crate::utils::url_scheme(url) == Some("https"@)
        },
{
    lemma_trim_unchanged(url);
    assert(MAX_BASE_METADATA_URL_LEN == 256);
}

/// No URL whose parsed scheme is anything but `https`, or that does not parse, is ever
/// accepted.
pub proof fn lemma_url_needs_https(url: Seq<char>)
    requires
        crate::utils::url_scheme(url) != Some("https"@),
    ensures
        !base_metadata_url_is_valid(url),
{
    lemma_url_rule(url);
}

/// Initialization succeeds exactly on a valid URL, and then writes: the signer as
/// administrator, the given upgrade authority, counter 1, minting open, the URL, no
/// collection, and the bump.
pub proof fn lemma_initialize_global_config(
    admin: Pubkey,
    base_metadata_url: Seq<char>,
    upgrade_authority: Pubkey,
    bump: u8,
)
    ensures
        ({
            let r = initialize_global_config_outcome(admin, base_metadata_url, upgrade_authority, bump);
            &&& r is Ok <==> base_metadata_url_is_valid(base_metadata_url)
            &&& r is Err ==> r->Err_0 == DoomNftProgramError::BaseMetadataUrlInvalid
            &&& r is Ok ==> {
                let c = r->Ok_0;
                &&& c.admin == admin
                &&& c.upgrade_authority == upgrade_authority
                &&& c.next_token_id == 1
                &&& !c.mint_paused
                &&& c.base_metadata_url == base_metadata_url
                &&& c.collection == Pubkey::spec_zero()
                &&& c.collection_update_authority == Pubkey::spec_zero()
                &&& c.bump == bump
            }
        }),
{
    assert(FIRST_TOKEN_ID == 1);
}

/// Creating the collection succeeds exactly when the signer is the administrator and no
/// collection is recorded; it then records the collection and its authority and changes
/// nothing else.
pub proof fn lemma_initialize_collection(
    config: GlobalConfigView,
    admin: Pubkey,
    collection: Pubkey,
    collection_update_authority: Pubkey,
)
    ensures
        ({
            let r = initialize_collection_instruction_outcome(
                config,
                admin,
                collection,
                collection_update_authority,
            );
            &&& admin != config.admin ==> r == Err::<GlobalConfigView, DoomNftProgramError>(
                DoomNftProgramError::Unauthorized,
            )
            &&& admin == config.admin && config.collection != Pubkey::spec_zero() ==> r == Err::<
                GlobalConfigView,
                DoomNftProgramError,
            >(DoomNftProgramError::CollectionAlreadyInitialized)
            &&& admin == config.admin && config.collection == Pubkey::spec_zero() ==> {
                &&& r is Ok
                &&& r->Ok_0.collection == collection
                &&& r->Ok_0.collection_update_authority == collection_update_authority
                &&& r->Ok_0.admin == config.admin
                &&& r->Ok_0.upgrade_authority == config.upgrade_authority
                &&& r->Ok_0.next_token_id == config.next_token_id
                &&& r->Ok_0.mint_paused == config.mint_paused
                &&& r->Ok_0.base_metadata_url == config.base_metadata_url
                &&& r->Ok_0.bump == config.bump
            }
        }),
{
}

/// Reserving fails with `MintPaused` while minting is paused, with `TokenIdOverflow`
/// when the counter is at its largest value, and otherwise gives the user the counter's
/// value as an unminted reservation, moves the counter on by one and changes nothing else.
pub proof fn lemma_reserve_token_id(config: GlobalConfigView, user: Pubkey, bump: u8)
    ensures
        ({
            let r = reserve_outcome(config, user, bump);
            &&& config.mint_paused ==> r == Err::<(GlobalConfigView, MintReservation), DoomNftProgramError>(
                DoomNftProgramError::MintPaused,
            )
            &&& !config.mint_paused && config.next_token_id == u64::MAX ==> r == Err::<
                (GlobalConfigView, MintReservation),
                DoomNftProgramError,
            >(DoomNftProgramError::TokenIdOverflow)
            &&& !config.mint_paused && config.next_token_id < u64::MAX ==> {
                let (c, res) = r->Ok_0;
                &&& r is Ok
                &&& res.token_id == config.next_token_id
                &&& res.reserver == user
                &&& !res.minted
                &&& res.bump == bump
                &&& c.next_token_id == config.next_token_id + 1
                &&& c.admin == config.admin
                &&& c.upgrade_authority == config.upgrade_authority
                &&& c.mint_paused == config.mint_paused
                &&& c.base_metadata_url == config.base_metadata_url
                &&& c.collection == config.collection
                &&& c.collection_update_authority == config.collection_update_authority
                &&& c.bump == config.bump
            }
        }),
{
}

/// Minting succeeds exactly when minting is open, a collection is recorded, the
/// reservation is for the token id, belongs to the user and is unused, whatever the
/// counter and the base URL; it then marks the reservation minted and changes nothing
/// else in it.
pub proof fn lemma_mint_outcome(
    config: GlobalConfigView,
    reservation: MintReservation,
    user: Pubkey,
    token_id: u64,
)
    ensures
        ({
            let r = mint_outcome(config, reservation, user, token_id);
            let ok = {
                &&& !config.mint_paused
                &&& config.collection != Pubkey::spec_zero()
                &&& reservation.token_id == token_id
                &&& reservation.reserver == user
                &&& !reservation.minted
            };
            &&& r is Ok <==> ok
            &&& ok ==> r == Ok::<MintReservation, DoomNftProgramError>(
                MintReservation {
                    token_id: reservation.token_id,
                    reserver: reservation.reserver,
                    minted: true,
                    bump: reservation.bump,
                },
            )
            &&& config.mint_paused ==> r == Err::<MintReservation, DoomNftProgramError>(
                DoomNftProgramError::MintPaused,
            )
            &&& !ok && !config.mint_paused && config.collection != Pubkey::spec_zero()
                && reservation.token_id == token_id && reservation.reserver == user
                ==> r == Err::<MintReservation, DoomNftProgramError>(
                DoomNftProgramError::ReservationAlreadyMinted,
            )
        }),
{
}

/// Every unused reservation can be minted by its reserver under its own token id, while
/// minting is open and the collection exists, with the configured accounts; neither the
/// counter nor the base URL matters.
pub proof fn lemma_any_own_reservation_mints(
    config: GlobalConfigView,
    reservation: MintReservation,
)
    requires
        !config.mint_paused,
        config.collection != Pubkey::spec_zero(),
        !reservation.minted,
    ensures
        mint_instruction_outcome(
            config,
            reservation,
            reservation.reserver,
            config.collection_update_authority,
            config.collection,
            reservation.token_id,
        ) == Ok::<MintReservation, DoomNftProgramError>(
            MintReservation {
                token_id: reservation.token_id,
                reserver: reservation.reserver,
                minted: true,
                bump: reservation.bump,
            },
        ),
{
}

/// Pausing or resuming succeeds exactly for the administrator; it then sets the pause
/// flag to the requested value and changes nothing else.
pub proof fn lemma_set_mint_paused(config: GlobalConfigView, admin: Pubkey, paused: bool)
    ensures
        ({
            let r = set_mint_paused_instruction_outcome(config, admin, paused);
            &&& admin != config.admin ==> r == Err::<GlobalConfigView, DoomNftProgramError>(
                DoomNftProgramError::Unauthorized,
            )
            &&& admin == config.admin ==> {
                &&& r is Ok
                &&& r->Ok_0.mint_paused == paused
                &&& r->Ok_0.admin == config.admin
                &&& r->Ok_0.upgrade_authority == config.upgrade_authority
                &&& r->Ok_0.next_token_id == config.next_token_id
                &&& r->Ok_0.base_metadata_url == config.base_metadata_url
                &&& r->Ok_0.collection == config.collection
                &&& r->Ok_0.collection_update_authority == config.collection_update_authority
                &&& r->Ok_0.bump == config.bump
            }
        }),
{
}

/// Pausing and then resuming gives back the configuration one started with, when it was
/// not paused.
pub proof fn lemma_pause_then_resume(config: GlobalConfigView)
    requires
        !config.mint_paused,
    ensures
        set_mint_paused_instruction_outcome(
            set_mint_paused_instruction_outcome(config, config.admin, true)->Ok_0,
            config.admin,
            false,
        ) == Ok::<GlobalConfigView, DoomNftProgramError>(config),
{
    lemma_set_mint_paused(config, config.admin, true);
    let paused = set_mint_paused_instruction_outcome(config, config.admin, true)->Ok_0;
    lemma_set_mint_paused(paused, config.admin, false);
}

/// The URL update fails with `Unauthorized` for anyone but the administrator, with
/// `BaseMetadataUrlInvalid` for a URL that breaks the rule, and otherwise stores the new
/// URL, whatever else the configuration holds, and changes nothing else.
pub proof fn lemma_update_base_metadata_url(
    config: GlobalConfigView,
    admin: Pubkey,
    base_metadata_url: Seq<char>,
)
    ensures
        ({
            let r = update_base_metadata_url_instruction_outcome(config, admin, base_metadata_url);
            &&& admin != config.admin ==> r == Err::<GlobalConfigView, DoomNftProgramError>(
                DoomNftProgramError::Unauthorized,
            )
            &&& admin == config.admin && !base_metadata_url_is_valid(base_metadata_url) ==> r
                == Err::<GlobalConfigView, DoomNftProgramError>(
                DoomNftProgramError::BaseMetadataUrlInvalid,
            )
            &&& admin == config.admin && base_metadata_url_is_valid(base_metadata_url) ==> {
                &&& r is Ok
                &&& r->Ok_0.base_metadata_url == base_metadata_url
                &&& r->Ok_0.admin == config.admin
                &&& r->Ok_0.upgrade_authority == config.upgrade_authority
                &&& r->Ok_0.next_token_id == config.next_token_id
                &&& r->Ok_0.mint_paused == config.mint_paused
                &&& r->Ok_0.collection == config.collection
                &&& r->Ok_0.collection_update_authority == config.collection_update_authority
                &&& r->Ok_0.bump == config.bump
            }
        }),
{
}

/// Handing on the administrator role succeeds exactly for the administrator; it then
/// makes `new_admin` the administrator and changes nothing else.
pub proof fn lemma_transfer_admin(config: GlobalConfigView, admin: Pubkey, new_admin: Pubkey)
    ensures
        ({
            let r = transfer_admin_instruction_outcome(config, admin, new_admin);
            &&& admin != config.admin ==> r == Err::<GlobalConfigView, DoomNftProgramError>(
                DoomNftProgramError::Unauthorized,
            )
            &&& admin == config.admin ==> {
                &&& r is Ok
                &&& r->Ok_0.admin == new_admin
                &&& r->Ok_0.upgrade_authority == config.upgrade_authority
                &&& r->Ok_0.next_token_id == config.next_token_id
                &&& r->Ok_0.mint_paused == config.mint_paused
                &&& r->Ok_0.base_metadata_url == config.base_metadata_url
                &&& r->Ok_0.collection == config.collection
                &&& r->Ok_0.collection_update_authority == config.collection_update_authority
                &&& r->Ok_0.bump == config.bump
            }
        }),
{
}

/// Handing on the upgrade role succeeds exactly for the upgrade authority; it then makes
/// `new_upgrade_authority` the upgrade authority, whatever else the configuration holds,
/// and changes nothing else.
pub proof fn lemma_set_upgrade_authority(
    config: GlobalConfigView,
    upgrade_authority: Pubkey,
    new_upgrade_authority: Pubkey,
)
    ensures
        ({
            let r = set_upgrade_authority_instruction_outcome(
                config,
                upgrade_authority,
                new_upgrade_authority,
            );
            &&& upgrade_authority != config.upgrade_authority ==> r == Err::<
                GlobalConfigView,
                DoomNftProgramError,
            >(DoomNftProgramError::Unauthorized)
            &&& upgrade_authority == config.upgrade_authority ==> {
                &&& r is Ok
                &&& r->Ok_0.upgrade_authority == new_upgrade_authority
                &&& r->Ok_0.admin == config.admin
                &&& r->Ok_0.next_token_id == config.next_token_id
                &&& r->Ok_0.mint_paused == config.mint_paused
                &&& r->Ok_0.base_metadata_url == config.base_metadata_url
                &&& r->Ok_0.collection == config.collection
                &&& r->Ok_0.collection_update_authority == config.collection_update_authority
                &&& r->Ok_0.bump == config.bump
            }
        }),
{
}

} // verus!
