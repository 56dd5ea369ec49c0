use vstd::prelude::*;

use crate::error::DoomNftProgramError;
use crate::events::UpgradeAuthorityUpdated;
use crate::pubkey::Pubkey;
use crate::state::global_config::{GlobalConfig, GlobalConfigView};

verus! {

/// What the upgrade authority change reads and writes: the configuration and the
/// signing upgrade authority.
#[derive(Debug)]
pub struct SetUpgradeAuthority {
    pub global_config: GlobalConfig,
    pub upgrade_authority: Pubkey,
}

/// The check on the accounts: the signer is the configured upgrade authority.
pub open spec fn upgrade_authority_check(config: GlobalConfigView, upgrade_authority: Pubkey) -> Result<
    (),
    DoomNftProgramError,
> {
    if config.upgrade_authority != upgrade_authority {
        Err(DoomNftProgramError::Unauthorized)
    } else {
        Ok(())
    }
}

/// The configuration with `new_upgrade_authority` as upgrade authority.
pub open spec fn set_upgrade_authority_outcome(
    config: GlobalConfigView,
    new_upgrade_authority: Pubkey,
) -> GlobalConfigView {
    GlobalConfigView { upgrade_authority: new_upgrade_authority, ..config }
}

impl SetUpgradeAuthority {
    /// Checks that the signer is the configured upgrade authority.
    pub fn check_constraints(&self) -> (r: Result<(), DoomNftProgramError>)
        ensures
            r == upgrade_authority_check(self.global_config@, self.upgrade_authority),
    {
        if !(self.global_config.upgrade_authority == self.upgrade_authority) {
            return Err(DoomNftProgramError::Unauthorized);
        }
        Ok(())
    }
}

/// Hands the upgrade role to `new_upgrade_authority`; the result is the event to emit.
pub fn process_set_upgrade_authority(
    accounts: &mut SetUpgradeAuthority,
    new_upgrade_authority: Pubkey,
) -> (r: Result<UpgradeAuthorityUpdated, DoomNftProgramError>)
    ensures
        r == Ok::<UpgradeAuthorityUpdated, DoomNftProgramError>(
            UpgradeAuthorityUpdated {
                old_upgrade_authority: old(accounts).global_config.upgrade_authority,
                new_upgrade_authority,
            },
        ),
        final(accounts).global_config@ == set_upgrade_authority_outcome(
            old(accounts).global_config@,
            new_upgrade_authority,
        ),
        final(accounts).upgrade_authority == old(accounts).upgrade_authority,
{
    let old_upgrade_authority = accounts.global_config.upgrade_authority;
    accounts.global_config.upgrade_authority = new_upgrade_authority;
    Ok(UpgradeAuthorityUpdated { old_upgrade_authority, new_upgrade_authority })
}

} // verus!
