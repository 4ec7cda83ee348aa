//! Request signing for the outward REST client: an HMAC-SHA256 tag
//! rendered as lowercase hex.
use vstd::prelude::*;

use hmac::Mac;

verus! {

/// The HMAC-SHA256 tag of a message under a key; the tag depends on
/// the two arguments alone.
pub uninterp spec fn hmac_sha256_of(key: Seq<u8>, msg: Seq<u8>) -> Seq<u8>;

/// The lowercase hex digit for one value below sixteen.
pub open spec fn hex_digit_char(d: int) -> char {
    if d == 0 { '0' }
    else if d == 1 { '1' }
    else if d == 2 { '2' }
    else if d == 3 { '3' }
    else if d == 4 { '4' }
    else if d == 5 { '5' }
    else if d == 6 { '6' }
    else if d == 7 { '7' }
    else if d == 8 { '8' }
    else if d == 9 { '9' }
    else if d == 10 { 'a' }
    else if d == 11 { 'b' }
    else if d == 12 { 'c' }
    else if d == 13 { 'd' }
    else if d == 14 { 'e' }
    else { 'f' }
}

/// Lowercase hex text of a byte string: two digits per byte, high
/// nibble first.
pub open spec fn hex_seq(bytes: Seq<u8>) -> Seq<char> {
    Seq::new(
        bytes.len() * 2,
        |i: int|
            if i % 2 == 0 {
                hex_digit_char(bytes[i / 2] as int / 16)
            } else {
                hex_digit_char(bytes[i / 2] as int % 16)
            },
    )
}

/// Relies on hmac's `Hmac<Sha256>` (`new_from_slice`, `update`,
/// `finalize`); HMAC accepts a key of any length, and the tag depends
/// on key and message alone.
#[verifier::external_body]
fn hmac_sha256(key: &[u8], msg: &[u8]) -> (r: Vec<u8>)
    ensures
        r@ == hmac_sha256_of(key@, msg@),
{
    let mut mac = <hmac::Hmac<sha2::Sha256> as Mac>::new_from_slice(key).unwrap();
    mac.update(msg);
    mac.finalize().into_bytes().to_vec()
}

/// Relies on hex's `encode`: two lowercase digits per byte, high
/// nibble first.
#[verifier::external_body]
fn hex_encode(bytes: &[u8]) -> (r: String)
    ensures
        r@ == hex_seq(bytes@),
{
    hex::encode(bytes)
}

/// The signature a signed request carries: the lowercase hex
/// HMAC-SHA256 tag of the query string under the API secret.
pub open spec fn sign_spec(secret: Seq<u8>, query: Seq<u8>) -> Seq<char> {
    hex_seq(hmac_sha256_of(secret, query))
}

pub fn sign_query(api_secret: &[u8], query: &[u8]) -> (r: String)
    ensures
        r@ == sign_spec(api_secret@, query@),
{
    let tag = hmac_sha256(api_secret, query);
    hex_encode(tag.as_slice())
}

} // verus!
