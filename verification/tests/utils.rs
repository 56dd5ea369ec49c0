use doom_nft_program::utils::{
    build_asset_name, build_asset_uri, build_collection_uri, check_base_metadata_url,
    validate_base_metadata_url,
};
use doom_nft_program::DoomNftProgramError;

#[test]
fn accepts_https_url_without_trailing_slash() {
    assert!(validate_base_metadata_url("https://example.com/base").is_ok());
}

#[test]
fn rejects_non_https_url() {
    assert!(validate_base_metadata_url("http://example.com/base").is_err());
}

#[test]
fn rejects_whitespace_padded_url() {
    assert!(validate_base_metadata_url(" https://example.com/base ").is_err());
}

#[test]
fn rejects_trailing_slash() {
    assert!(validate_base_metadata_url("https://example.com/base/").is_err());
}

#[test]
fn rejects_overlong_url() {
    let overlong = format!("https://example.com/{}", "a".repeat(300));
    assert!(validate_base_metadata_url(&overlong).is_err());
}

#[test]
fn rejects_empty_url() {
    assert_eq!(
        validate_base_metadata_url(""),
        Err(DoomNftProgramError::BaseMetadataUrlInvalid)
    );
}

#[test]
fn rejects_only_leading_or_trailing_whitespace() {
    assert!(validate_base_metadata_url(" https://example.com/base").is_err());
    assert!(validate_base_metadata_url("https://example.com/base\n").is_err());
    assert!(validate_base_metadata_url("https://example.com/base\u{3000}").is_err());
}

#[test]
fn rejects_text_that_is_not_a_url() {
    assert!(validate_base_metadata_url("example.com/base").is_err());
    assert!(validate_base_metadata_url("not a url").is_err());
}

#[test]
fn accepts_url_of_exactly_the_byte_limit() {
    let prefix = "https://example.com/";
    let exact = format!("{}{}", prefix, "a".repeat(256 - prefix.len()));
    assert_eq!(exact.len(), 256);
    assert!(validate_base_metadata_url(&exact).is_ok());
    let over = format!("{}{}", prefix, "a".repeat(257 - prefix.len()));
    assert!(validate_base_metadata_url(&over).is_err());
}

#[test]
fn counts_the_limit_in_bytes_not_characters() {
    // 200 characters of two bytes each: under 256 characters, over 256 bytes.
    let wide = format!("https://example.com/{}", "é".repeat(200));
    assert!(wide.chars().count() < 256);
    assert!(validate_base_metadata_url(&wide).is_err());
}

#[test]
fn accepts_uppercase_scheme_as_https() {
    assert!(validate_base_metadata_url("HTTPS://example.com/base").is_ok());
}

#[test]
fn builds_collection_uri() {
    assert_eq!(
        build_collection_uri("https://example.com/base"),
        "https://example.com/base/collection.json"
    );
}

#[test]
fn builds_asset_name() {
    assert_eq!(build_asset_name(1), "DOOM INDEX #1");
    assert_eq!(build_asset_name(0), "DOOM INDEX #0");
    assert_eq!(build_asset_name(10), "DOOM INDEX #10");
    assert_eq!(
        build_asset_name(u64::MAX),
        "DOOM INDEX #18446744073709551615"
    );
}

#[test]
fn builds_asset_uri() {
    assert_eq!(
        build_asset_uri("https://example.com/base", 1),
        "https://example.com/base/1.json"
    );
    assert_eq!(
        build_asset_uri("https://example.com/base", 1234567890),
        "https://example.com/base/1234567890.json"
    );
}

#[test]
fn distinct_token_ids_give_distinct_uris() {
    let base = "https://example.com/base";
    assert_ne!(build_asset_uri(base, 1), build_asset_uri(base, 10));
    assert_ne!(build_asset_uri(base, 12), build_asset_uri(base, 21));
    assert_ne!(build_asset_name(1), build_asset_name(11));
}

#[test]
fn error_messages() {
    assert_eq!(
        DoomNftProgramError::MintPaused.message(),
        "Minting is currently paused."
    );
    assert_eq!(
        DoomNftProgramError::BaseMetadataUrlInvalid.message(),
        "The base metadata url is invalid."
    );
}

#[test]
fn url_rule_on_given_parse_results() {
    let url = "https://example.com/base";
    assert_eq!(check_base_metadata_url(url, true, Some("https".to_owned())), Ok(()));
    assert_eq!(
        check_base_metadata_url(url, true, Some("http".to_owned())),
        Err(DoomNftProgramError::BaseMetadataUrlInvalid)
    );
    assert_eq!(
        check_base_metadata_url(url, true, None),
        Err(DoomNftProgramError::BaseMetadataUrlInvalid)
    );
    assert_eq!(
        check_base_metadata_url(url, false, Some("https".to_owned())),
        Err(DoomNftProgramError::BaseMetadataUrlInvalid)
    );
    assert_eq!(
        check_base_metadata_url("", true, Some("https".to_owned())),
        Err(DoomNftProgramError::BaseMetadataUrlInvalid)
    );
    assert_eq!(
        check_base_metadata_url("https://example.com/", true, Some("https".to_owned())),
        Err(DoomNftProgramError::BaseMetadataUrlInvalid)
    );
}
