use vstd::prelude::*;

use crate::error::DoomNftProgramError;
use crate::instructions::initialize_collection::admin_check;
use crate::pubkey::Pubkey;
use crate::state::global_config::{GlobalConfig, GlobalConfigView};

verus! {

/// What the administrator transfer reads and writes: the configuration and the signing
/// administrator.
#[derive(Debug)]
pub struct TransferAdmin {
    pub global_config: GlobalConfig,
    pub admin: Pubkey,
}

/// The configuration with `new_admin` as administrator.
pub open spec fn transfer_admin_outcome(config: GlobalConfigView, new_admin: Pubkey) -> GlobalConfigView {
    GlobalConfigView { admin: new_admin, ..config }
}

impl TransferAdmin {
    /// Checks that the signer is the configured administrator.
    pub fn check_constraints(&self) -> (r: Result<(), DoomNftProgramError>)
        ensures
            r == admin_check(self.global_config@, self.admin),
    {
        if !(self.global_config.admin == self.admin) {
            return Err(DoomNftProgramError::Unauthorized);
        }
        Ok(())
    }
}

/// Makes `new_admin` the administrator.
pub fn process_transfer_admin(accounts: &mut TransferAdmin, new_admin: Pubkey) -> (r: Result<
    (),
    DoomNftProgramError,
>)
    ensures
        r is Ok,
        final(accounts).global_config@ == transfer_admin_outcome(
            old(accounts).global_config@,
            new_admin,
        ),
        final(accounts).admin == old(accounts).admin,
{
    accounts.global_config.admin = new_admin;
    Ok(())
}

} // verus!
