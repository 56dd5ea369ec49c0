use vstd::prelude::*;

use crate::error::DoomNftProgramError;
use crate::events::BaseMetadataUrlUpdated;
use crate::instructions::initialize_collection::admin_check;
use crate::pubkey::Pubkey;
use crate::state::global_config::{GlobalConfig, GlobalConfigView};
use crate::utils::{base_metadata_url_is_valid, validate_base_metadata_url};

verus! {

/// What the URL update reads and writes: the configuration and the signing administrator.
#[derive(Debug)]
pub struct UpdateBaseMetadataUrl {
    pub global_config: GlobalConfig,
    pub admin: Pubkey,
}

/// What the URL update does to the configuration: the new URL replaces the old one when
/// it follows the rule.
pub open spec fn update_base_metadata_url_outcome(
    config: GlobalConfigView,
    base_metadata_url: Seq<char>,
) -> Result<GlobalConfigView, DoomNftProgramError> {
    if base_metadata_url_is_valid(base_metadata_url) {
        Ok(GlobalConfigView { base_metadata_url, ..config })
    } else {
        Err(DoomNftProgramError::BaseMetadataUrlInvalid)
    }
}

impl UpdateBaseMetadataUrl {
    /// Checks that the signer is the configured administrator.
    pub fn check_constraints(&self) -> (r: Result<(), DoomNftProgramError>)
        ensures
            r == admin_check(self.global_config@, self.admin),
    {
        if !(self.global_config.admin == self.admin) {
            return Err(DoomNftProgramError::Unauthorized);
        }
        Ok(())
    }
}

/// Replaces the base metadata URL. On success the result is the event to emit, which
/// carries the old and the new URL; on failure nothing changes.
pub fn process_update_base_metadata_url(
    accounts: &mut UpdateBaseMetadataUrl,
    base_metadata_url: String,
) -> (r: Result<BaseMetadataUrlUpdated, DoomNftProgramError>)
    ensures
        ({
            let outcome = update_base_metadata_url_outcome(
                old(accounts).global_config@,
                base_metadata_url@,
            );
            match outcome {
                Ok(config) => {
                    &&& r is Ok
                    &&& final(accounts).global_config@ == config
                    &&& r->Ok_0.old_base_url@ == old(accounts).global_config.base_metadata_url@
                    &&& r->Ok_0.new_base_url@ == base_metadata_url@
                },
                Err(e) => {
                    &&& r is Err
                    &&& r->Err_0 == e
                    &&& final(accounts).global_config == old(accounts).global_config
                },
            }
        }),
        final(accounts).admin == old(accounts).admin,
{
    validate_base_metadata_url(base_metadata_url.as_str())?;
    let old_base_url = accounts.global_config.base_metadata_url.clone();
    accounts.global_config.base_metadata_url = base_metadata_url.clone();
    Ok(BaseMetadataUrlUpdated { old_base_url, new_base_url: base_metadata_url })
}

} // verus!
