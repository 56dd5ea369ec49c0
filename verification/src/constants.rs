use vstd::prelude::*;

verus! {

/// Seed of the program-derived address that holds the global configuration.
pub const GLOBAL_CONFIG_SEED: &'static str = "global_config";

/// Seed of the program-derived address that acts as the collection update authority.
pub const COLLECTION_AUTHORITY_SEED: &'static str = "collection_authority";

/// Seed prefix of the program-derived address of a token-id reservation.
pub const RESERVATION_SEED: &'static str = "reservation";

/// Display name of the collection; asset names are `"{COLLECTION_NAME} #{token_id}"`.
pub const COLLECTION_NAME: &'static str = "DOOM INDEX";

/// Largest accepted base metadata URL, in UTF-8 bytes (the account reserves this much).
pub const MAX_BASE_METADATA_URL_LEN: usize = 256;

/// The first token id that the counter hands out.
pub const FIRST_TOKEN_ID: u64 = 1;

} // verus!
