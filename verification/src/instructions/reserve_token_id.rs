use vstd::prelude::*;

use crate::error::DoomNftProgramError;
use crate::events::TokenReserved;
use crate::pubkey::Pubkey;
use crate::state::global_config::{GlobalConfig, GlobalConfigView};
use crate::state::mint_reservation::MintReservation;

verus! {

/// What the reservation instruction reads and writes: the configuration, the fresh
/// reservation account derived from the current counter (with its address and bump),
/// and the signing user.
#[derive(Debug)]
pub struct ReserveTokenId {
    pub global_config: GlobalConfig,
    pub reservation: MintReservation,
    pub reservation_key: Pubkey,
    pub reservation_bump: u8,
    pub user: Pubkey,
}

/// What reserving does: unless minting is paused or the counter is at its largest value,
/// the counter's value becomes the user's token id and the counter moves on by one.
pub open spec fn reserve_outcome(config: GlobalConfigView, user: Pubkey, bump: u8) -> Result<
    (GlobalConfigView, MintReservation),
    DoomNftProgramError,
> {
    if config.mint_paused {
        Err(DoomNftProgramError::MintPaused)
    } else if config.next_token_id == u64::MAX {
        Err(DoomNftProgramError::TokenIdOverflow)
    } else {
        Ok(
            (
                GlobalConfigView { next_token_id: (config.next_token_id + 1) as u64, ..config },
                MintReservation {
                    token_id: config.next_token_id,
                    reserver: user,
                    minted: false,
                    bump,
                },
            ),
        )
    }
}

/// Reserves the next token id for the user. On success the configuration and the
/// reservation are those of `reserve_outcome`, and the result is the event to emit;
/// on failure nothing changes.
pub fn process_reserve_token_id(accounts: &mut ReserveTokenId) -> (r: Result<
    TokenReserved,
    DoomNftProgramError,
>)
    ensures
        ({
            let outcome = reserve_outcome(
                old(accounts).global_config@,
                old(accounts).user,
                old(accounts).reservation_bump,
            );
            match outcome {
                Ok((config, reservation)) => {
                    &&& r is Ok
                    &&& final(accounts).global_config@ == config
                    &&& final(accounts).reservation == reservation
                    &&& r->Ok_0 == (TokenReserved {
                        token_id: reservation.token_id,
                        reserver: old(accounts).user,
                        reservation: old(accounts).reservation_key,
                    })
                },
                Err(e) => {
                    &&& r is Err
                    &&& r->Err_0 == e
                    &&& final(accounts).global_config == old(accounts).global_config
                    &&& final(accounts).reservation == old(accounts).reservation
                },
            }
        }),
        final(accounts).reservation_key == old(accounts).reservation_key,
        final(accounts).reservation_bump == old(accounts).reservation_bump,
        final(accounts).user == old(accounts).user,
{
    if accounts.global_config.mint_paused {
        return Err(DoomNftProgramError::MintPaused);
    }
    let token_id = accounts.global_config.next_token_id;
    let next = match token_id.checked_add(1) {
        Some(next) => next,
        None => {
            return Err(DoomNftProgramError::TokenIdOverflow);
        },
    };
    accounts.global_config.next_token_id = next;
    accounts.reservation.token_id = token_id;
    accounts.reservation.reserver = accounts.user;
    accounts.reservation.minted = false;
    accounts.reservation.bump = accounts.reservation_bump;
    Ok(
        TokenReserved {
            token_id,
            reserver: accounts.reservation.reserver,
            reservation: accounts.reservation_key,
        },
    )
}

} // verus!
