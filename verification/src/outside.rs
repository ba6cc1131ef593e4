//! The calls this library makes into other crates, each with the contract
//! that the rest of the library relies on. Verus believes these contracts:
//! nothing here is proved.
use crate::config::config_handler::{has_token_form, TOKEN_PATTERN};
use base64::Engine;
use hmac::Mac;
use vstd::prelude::*;
use vstd::utf8::*;

verus! {

/// The text that `rustls::pki_types::ServerName::to_str` gives back for the
/// server name that `ServerName::try_from(String)` makes of `name`; `None`
/// where `try_from` refuses `name` as neither a DNS name nor an IP address.
pub uninterp spec fn server_name_text(name: Seq<char>) -> Option<Seq<char>>;

/// Calls `ServerName::try_from(String)` (rustls-pki-types) and, where it
/// succeeds, `ServerName::to_str`. The contract names the result only:
/// which names the validation accepts, and how an IP address is written back,
/// is left to `server_name_text`.
#[verifier::external_body]
pub(crate) fn server_name(name: &str) -> (r: Option<String>)
    ensures
        r.deep_view() == server_name_text(name@),
{
    match rustls::pki_types::ServerName::try_from(name.to_string()) {
        Ok(server_name) => Some(server_name.to_str().into_owned()),
        Err(_) => None,
    }
}

/// Calls `std::str::from_utf8`: it succeeds exactly on well-formed UTF-8,
/// and then gives the characters that the bytes encode.
#[verifier::external_body]
pub(crate) fn utf8_text(bytes: &[u8]) -> (r: Option<String>)
    ensures
        r is Some <==> valid_utf8(bytes@),
        r matches Some(text) ==> text@ == decode_utf8(bytes@),
{
    match std::str::from_utf8(bytes) {
        Ok(text) => Some(text.to_string()),
        Err(_) => None,
    }
}

/// The bytes that `base64::engine::general_purpose::STANDARD.decode` gives
/// for the text `text`, or `None` where it reports a `DecodeError`.
pub uninterp spec fn base64_standard_decoded(text: Seq<char>) -> Option<Seq<u8>>;

/// Calls `Engine::decode` of base64's `STANDARD` engine (padded alphabet
/// `A-Z a-z 0-9 + /`) on the bytes of `text`. The contract names the result.
#[verifier::external_body]
pub(crate) fn base64_decode(text: &str) -> (r: Option<Vec<u8>>)
    ensures
        r.deep_view() == base64_standard_decoded(text@),
{
    match base64::engine::general_purpose::STANDARD.decode(text) {
        Ok(bytes) => Some(bytes),
        Err(_) => None,
    }
}

/// The text that `base64::engine::general_purpose::STANDARD.encode` gives
/// for `data`.
pub uninterp spec fn base64_standard_encoded(data: Seq<u8>) -> Seq<char>;

/// Calls `Engine::encode` of base64's `STANDARD` engine. Besides naming the
/// result, the contract states its length: four characters for every three
/// bytes or part of three, the last group padded with `=`. `encode` panics
/// when that length overflows `usize`, which the `requires` rules out.
#[verifier::external_body]
pub(crate) fn base64_encode(data: &[u8]) -> (r: String)
    requires
        data@.len() <= usize::MAX / 2,
    ensures
        r@ == base64_standard_encoded(data@),
        r@.len() == 4 * ((data@.len() + 2) / 3),
{
    base64::engine::general_purpose::STANDARD.encode(data)
}

/// The HMAC-SHA256 tag of `message` under `key`.
pub uninterp spec fn hmac_sha256_tag(key: Seq<u8>, message: Seq<u8>) -> Seq<u8>;

/// Computes HMAC-SHA256 with the `hmac` and `sha2` crates:
/// `Hmac::<Sha256>::new_from_slice`, `Mac::update`, `Mac::finalize`.
/// `new_from_slice` accepts a key of any length (a long key is hashed first),
/// so its error case is never met. The tag is the 32 bytes of a SHA-256
/// output.
#[verifier::external_body]
pub(crate) fn hmac_sha256(key: &[u8], message: &[u8]) -> (r: Vec<u8>)
    ensures
        r@ == hmac_sha256_tag(key@, message@),
        r@.len() == 32,
{
    let mut mac = <hmac::Hmac<sha2::Sha256> as hmac::Mac>::new_from_slice(key)
        .expect("HMAC takes a key of any length");
    mac.update(message);
    mac.finalize().into_bytes().to_vec()
}

/// Whether `regex::Regex::new(pattern)` matches somewhere in `haystack`
/// (`Regex::is_match`), or `None` where `Regex::new` refuses the pattern.
pub uninterp spec fn regex_matches(pattern: Seq<char>, haystack: Seq<char>) -> Option<bool>;

/// Compiles `pattern` with `regex::Regex::new` and calls `Regex::is_match`
/// on `haystack`. The contract names the result in general. For the one
/// pattern the library uses, `TOKEN_PATTERN`, it also states what regex's
/// documented syntax makes of it: the pattern compiles, and `^...$` (start and
/// end of the haystack, as multi-line mode is off), the literal `aq_` and
/// `{43,44}` repetitions of the ASCII class `[1-9A-HJ-NP-Za-km-z]` match
/// exactly the texts of `has_token_form`.
#[verifier::external_body]
pub(crate) fn regex_is_match(pattern: &str, haystack: &str) -> (r: Option<bool>)
    ensures
        r == regex_matches(pattern@, haystack@),
        pattern@ == TOKEN_PATTERN@ ==> r == Some(has_token_form(haystack@)),
{
    match regex::Regex::new(pattern) {
        Ok(regex) => Some(regex.is_match(haystack)),
        Err(_) => None,
    }
}

} // verus!
