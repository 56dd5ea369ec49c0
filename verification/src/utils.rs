use vstd::prelude::*;
use vstd::string::*;
use vstd::utf8::encode_utf8;

use crate::constants::{COLLECTION_NAME, MAX_BASE_METADATA_URL_LEN};
use crate::error::DoomNftProgramError;

verus! {

/// Whether `c` has the Unicode `White_Space` property, which is what `char::is_whitespace`
/// and `str::trim` go by: U+0009 to U+000D, U+0020, U+0085, U+00A0, U+1680, U+2000 to
/// U+200A, U+2028, U+2029, U+202F, U+205F and U+3000.
pub open spec fn char_is_whitespace(c: char) -> bool {
    ||| '\u{9}' <= c <= '\u{D}'
    ||| c == ' '
    ||| c == '\u{85}'
    ||| c == '\u{A0}'
    ||| c == '\u{1680}'
    ||| '\u{2000}' <= c <= '\u{200A}'
    ||| c == '\u{2028}'
    ||| c == '\u{2029}'
    ||| c == '\u{202F}'
    ||| c == '\u{205F}'
    ||| c == '\u{3000}'
}

/// What `url::Url::parse` followed by `Url::scheme` gives for `s`: the scheme when
/// `s` parses as an absolute URL, nothing when it does not.
pub uninterp spec fn url_scheme(s: Seq<char>) -> Option<Seq<char>>;

/// Whether `c` is white space.
fn is_whitespace(c: char) -> (r: bool)
    ensures
        r == char_is_whitespace(c),
{
    ('\u{9}' <= c && c <= '\u{D}') || c == ' ' || c == '\u{85}' || c == '\u{A0}' || c == '\u{1680}'
        || ('\u{2000}' <= c && c <= '\u{200A}') || c == '\u{2028}' || c == '\u{2029}' || c
        == '\u{202F}' || c == '\u{205F}' || c == '\u{3000}'
}

/// Calls `url::Url::parse` on `s` and, when it succeeds, `Url::scheme` on the result.
/// The result is a function of `s` alone, named here by `url_scheme`; what it is for a
/// given string is not stated.
#[verifier::external_body]
fn parse_url_scheme(s: &str) -> (r: Option<String>)
    ensures
        r is Some <==> url_scheme(s@) is Some,
        r is Some ==> r->0@ == url_scheme(s@)->0,
{
    match url::Url::parse(s) {
        Ok(u) => Some(u.scheme().to_string()),
        Err(_) => None,
    }
}

/// Calls `String::push`, which appends `c` to the end of `s`.
#[verifier::external_body]
fn push_char(s: &mut String, c: char)
    ensures
        final(s)@ == old(s)@.push(c),
{
    s.push(c);
}

/// `s` without its leading white space.
pub open spec fn trim_start(s: Seq<char>) -> Seq<char>
    decreases s.len(),
{
    if s.len() > 0 && char_is_whitespace(s[0]) {
        trim_start(s.drop_first())
    } else {
        s
    }
}

/// `s` without its trailing white space.
pub open spec fn trim_end(s: Seq<char>) -> Seq<char>
    decreases s.len(),
{
    if s.len() > 0 && char_is_whitespace(s.last()) {
        trim_end(s.drop_last())
    } else {
        s
    }
}

/// `s` without leading and trailing white space, as `str::trim` gives it.
pub open spec fn trim(s: Seq<char>) -> Seq<char> {
    trim_end(trim_start(s))
}

/// The rule for a base metadata URL: after trimming it is not empty, trimming does not
/// change it, it takes at most `MAX_BASE_METADATA_URL_LEN` bytes in UTF-8, it does not
/// end in `/`, and it parses as a URL whose scheme is `https`.
pub open spec fn base_metadata_url_is_valid(url: Seq<char>) -> bool {
    let trimmed = trim(url);
    &&& trimmed.len() > 0
    &&& trimmed == url
    &&& encode_utf8(trimmed).len() <= MAX_BASE_METADATA_URL_LEN
    &&& trimmed.last() != '/'
    &&& url_scheme(trimmed) == Some("https"@)
}

/// The decimal digit `d` as a character.
pub open spec fn digit_char(d: nat) -> char {
    (d + 48) as char
}

/// The decimal representation of `n`, without sign or leading zeros.
pub open spec fn decimal(n: nat) -> Seq<char>
    decreases n,
{
    if n < 10 {
        seq![digit_char(n)]
    } else {
        decimal(n / 10).push(digit_char(n % 10))
    }
}

/// The URI of the collection's metadata: `"{base}/collection.json"`.
pub open spec fn collection_uri(base: Seq<char>) -> Seq<char> {
    base + "/collection.json"@
}

/// The name of the asset with id `token_id`: `"DOOM INDEX #{token_id}"`.
pub open spec fn asset_name(token_id: u64) -> Seq<char> {
    COLLECTION_NAME@ + " #"@ + decimal(token_id as nat)
}

/// The URI of the metadata of the asset with id `token_id`: `"{base}/{token_id}.json"`.
pub open spec fn asset_uri(base: Seq<char>, token_id: u64) -> Seq<char> {
    base + "/"@ + decimal(token_id as nat) + ".json"@
}

proof fn lemma_trim_start_len(s: Seq<char>)
    ensures
        trim_start(s).len() <= s.len(),
        s.len() > 0 && char_is_whitespace(s[0]) ==> trim_start(s).len() < s.len(),
    decreases s.len(),
{
    if s.len() > 0 && char_is_whitespace(s[0]) {
        lemma_trim_start_len(s.drop_first());
    }
}

proof fn lemma_trim_end_len(s: Seq<char>)
    ensures
        trim_end(s).len() <= s.len(),
        s.len() > 0 && char_is_whitespace(s.last()) ==> trim_end(s).len() < s.len(),
    decreases s.len(),
{
    if s.len() > 0 && char_is_whitespace(s.last()) {
        lemma_trim_end_len(s.drop_last());
    }
}

/// Trimming leaves a string unchanged exactly when it neither starts nor ends with
/// white space.
pub proof fn lemma_trim_unchanged(s: Seq<char>)
    ensures
        (trim(s) == s) <==> (s.len() == 0 || (!char_is_whitespace(s[0])
            && !char_is_whitespace(s.last()))),
{
    lemma_trim_start_len(s);
    lemma_trim_end_len(trim_start(s));
    if s.len() > 0 && !char_is_whitespace(s[0]) && !char_is_whitespace(s.last()) {
        assert(trim_start(s) == s);
        assert(trim_end(s) == s);
    }
    if s.len() == 0 {
        assert(trim_start(s) == s);
        assert(trim_end(s) == s);
    }
}

/// A URL that starts or ends with white space never follows the URL rule.
pub proof fn lemma_padded_url_is_invalid(url: Seq<char>)
    requires
        url.len() > 0,
        char_is_whitespace(url[0]) || char_is_whitespace(url.last()),
    ensures
        !base_metadata_url_is_valid(url),
{
    lemma_trim_unchanged(url);
}

/// The URL rule, given whether trimming leaves the URL unchanged and the scheme that
/// URL parsing found: the URL is not empty, trimming does not change it, it takes at most
/// `MAX_BASE_METADATA_URL_LEN` bytes in UTF-8, it does not end in `/`, and the scheme is
/// `https`.
pub fn check_base_metadata_url(
    base_metadata_url: &str,
    trim_unchanged: bool,
    scheme: Option<String>,
) -> (r: Result<(), DoomNftProgramError>)
    ensures
        r == (if {
            &&& base_metadata_url@.len() > 0
            &&& trim_unchanged
            &&& encode_utf8(base_metadata_url@).len() <= MAX_BASE_METADATA_URL_LEN
            &&& base_metadata_url@.last() != '/'
            &&& scheme is Some
            &&& scheme->0@ == "https"@
        } {
            Ok::<(), DoomNftProgramError>(())
        } else {
            Err(DoomNftProgramError::BaseMetadataUrlInvalid)
        }),
{
    let n = base_metadata_url.unicode_len();
    if n == 0 || !trim_unchanged {
        return Err(DoomNftProgramError::BaseMetadataUrlInvalid);
    }
    if base_metadata_url.as_bytes().len() > MAX_BASE_METADATA_URL_LEN {
        return Err(DoomNftProgramError::BaseMetadataUrlInvalid);
    }
    if base_metadata_url.get_char(n - 1) == '/' {
        return Err(DoomNftProgramError::BaseMetadataUrlInvalid);
    }
    match scheme {
        Some(scheme) => {
            let https = String::from_str("https");
            if scheme == https {
                Ok(())
            } else {
                Err(DoomNftProgramError::BaseMetadataUrlInvalid)
            }
        },
        None => Err(DoomNftProgramError::BaseMetadataUrlInvalid),
    }
}

/// Whether trimming leaves `s` unchanged: it is empty, or neither its first nor its last
/// character is white space.
fn trim_leaves_unchanged(s: &str) -> (r: bool)
    ensures
        r == (trim(s@) == s@),
{
    proof {
        lemma_trim_unchanged(s@);
    }
    let n = s.unicode_len();
    if n == 0 {
        return true;
    }
    !is_whitespace(s.get_char(0)) && !is_whitespace(s.get_char(n - 1))
}

/// Checks a base metadata URL: `Ok` exactly when it follows the rule of
/// `base_metadata_url_is_valid`, `BaseMetadataUrlInvalid` otherwise.
pub fn validate_base_metadata_url(base_metadata_url: &str) -> (r: Result<(), DoomNftProgramError>)
    ensures
        r == (if base_metadata_url_is_valid(base_metadata_url@) {
            Ok::<(), DoomNftProgramError>(())
        } else {
            Err(DoomNftProgramError::BaseMetadataUrlInvalid)
        }),
{
    let trim_unchanged = trim_leaves_unchanged(base_metadata_url);
    let scheme = parse_url_scheme(base_metadata_url);
    let ghost scheme_found = scheme;
    let r = check_base_metadata_url(base_metadata_url, trim_unchanged, scheme);
    proof {
        if r is Ok {
            assert(url_scheme(base_metadata_url@) == Some(scheme_found->0@));
        }
        if base_metadata_url_is_valid(base_metadata_url@) {
            assert(trim(base_metadata_url@) == base_metadata_url@);
        }
    }
    r
}

/// Appends the decimal representation of `n` to `out`.
fn push_decimal(out: &mut String, n: u64)
    ensures
        final(out)@ == old(out)@ + decimal(n as nat),
    decreases n,
{
    if n >= 10 {
        push_decimal(out, n / 10);
    }
    let d: u8 = (n % 10) as u8;
    let c: char = (48u8 + d) as char;
    assert(c == digit_char((n % 10) as nat));
    push_char(out, c);
    assert(decimal(n as nat) == (if n < 10 {
        seq![digit_char(n as nat)]
    } else {
        decimal((n / 10) as nat).push(digit_char((n % 10) as nat))
    }));
    assert(final(out)@ =~= old(out)@ + decimal(n as nat));
}

/// The URI of the collection's metadata: `"{base_metadata_url}/collection.json"`.
pub fn build_collection_uri(base_metadata_url: &str) -> (r: String)
    ensures
        r@ == collection_uri(base_metadata_url@),
{
    let mut uri = String::from_str(base_metadata_url);
    uri.append("/collection.json");
    uri
}

/// The name of the asset with id `token_id`: `"DOOM INDEX #{token_id}"`.
pub fn build_asset_name(token_id: u64) -> (r: String)
    ensures
        r@ == asset_name(token_id),
{
    let mut name = String::from_str(COLLECTION_NAME);
    name.append(" #");
    push_decimal(&mut name, token_id);
    name
}

/// The URI of the metadata of the asset with id `token_id`:
/// `"{base_metadata_url}/{token_id}.json"`.
pub fn build_asset_uri(base_metadata_url: &str, token_id: u64) -> (r: String)
    ensures
        r@ == asset_uri(base_metadata_url@, token_id),
{
    let mut uri = String::from_str(base_metadata_url);
    uri.append("/");
    push_decimal(&mut uri, token_id);
    uri.append(".json");
    uri
}

} // verus!
