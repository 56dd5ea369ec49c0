use vstd::prelude::*;

use crate::error::DoomNftProgramError;
use crate::instructions::initialize_collection::admin_check;
use crate::pubkey::Pubkey;
use crate::state::global_config::{GlobalConfig, GlobalConfigView};

verus! {

/// What pausing reads and writes: the configuration and the signing administrator.
#[derive(Debug)]
pub struct SetMintPaused {
    pub global_config: GlobalConfig,
    pub admin: Pubkey,
}

/// The configuration with minting paused or resumed.
pub open spec fn set_mint_paused_outcome(config: GlobalConfigView, paused: bool) -> GlobalConfigView {
    GlobalConfigView { mint_paused: paused, ..config }
}

impl SetMintPaused {
    /// Checks that the signer is the configured administrator.
    pub fn check_constraints(&self) -> (r: Result<(), DoomNftProgramError>)
        ensures
            r == admin_check(self.global_config@, self.admin),
    {
        if !(self.global_config.admin == self.admin) {
            return Err(DoomNftProgramError::Unauthorized);
        }
        Ok(())
    }
}

/// Pauses or resumes minting.
pub fn process_set_mint_paused(accounts: &mut SetMintPaused, paused: bool) -> (r: Result<
    (),
    DoomNftProgramError,
>)
    ensures
        r is Ok,
        final(accounts).global_config@ == set_mint_paused_outcome(
            old(accounts).global_config@,
            paused,
        ),
        final(accounts).admin == old(accounts).admin,
{
    accounts.global_config.mint_paused = paused;
    Ok(())
}

} // verus!
