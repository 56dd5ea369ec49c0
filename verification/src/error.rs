use vstd::prelude::*;

verus! {

/// The errors that the program's own checks raise.
#[derive(Clone, Copy, Debug, PartialEq, Eq, Structural)]
pub enum DoomNftProgramError {
    Unauthorized,
    MintPaused,
    CollectionNotInitialized,
    CollectionAlreadyInitialized,
    ReservationAlreadyMinted,
    ReservationOwnerMismatch,
    ReservationTokenMismatch,
    CollectionAuthorityMismatch,
    CollectionMismatch,
    BaseMetadataUrlInvalid,
    TokenIdOverflow,
}

/// The message that each error carries.
pub open spec fn error_message(e: DoomNftProgramError) -> Seq<char> {
    match e {
        DoomNftProgramError::Unauthorized => "The caller is not authorized to perform this action."@,
        DoomNftProgramError::MintPaused => "Minting is currently paused."@,
        DoomNftProgramError::CollectionNotInitialized => "The collection has not been initialized."@,
        DoomNftProgramError::CollectionAlreadyInitialized => "The collection has already been initialized."@,
        DoomNftProgramError::ReservationAlreadyMinted => "The reservation has already been used to mint an asset."@,
        DoomNftProgramError::ReservationOwnerMismatch => "The reservation belongs to a different user."@,
        DoomNftProgramError::ReservationTokenMismatch => "The reservation token id does not match the instruction token id."@,
        DoomNftProgramError::CollectionAuthorityMismatch => "The configured collection authority does not match the derived PDA."@,
        DoomNftProgramError::CollectionMismatch => "The collection account does not match the configured collection."@,
        DoomNftProgramError::BaseMetadataUrlInvalid => "The base metadata url is invalid."@,
        DoomNftProgramError::TokenIdOverflow => "The token id counter overflowed."@,
    }
}

impl DoomNftProgramError {
    /// The message of this error.
    pub fn message(&self) -> (r: &'static str)
        ensures
            r@ == error_message(*self),
    {
        match self {
            DoomNftProgramError::Unauthorized => "The caller is not authorized to perform this action.",
            DoomNftProgramError::MintPaused => "Minting is currently paused.",
            DoomNftProgramError::CollectionNotInitialized => "The collection has not been initialized.",
            DoomNftProgramError::CollectionAlreadyInitialized => "The collection has already been initialized.",
            DoomNftProgramError::ReservationAlreadyMinted => "The reservation has already been used to mint an asset.",
            DoomNftProgramError::ReservationOwnerMismatch => "The reservation belongs to a different user.",
            DoomNftProgramError::ReservationTokenMismatch => "The reservation token id does not match the instruction token id.",
            DoomNftProgramError::CollectionAuthorityMismatch => "The configured collection authority does not match the derived PDA.",
            DoomNftProgramError::CollectionMismatch => "The collection account does not match the configured collection.",
            DoomNftProgramError::BaseMetadataUrlInvalid => "The base metadata url is invalid.",
            DoomNftProgramError::TokenIdOverflow => "The token id counter overflowed.",
        }
    }
}

} // verus!
