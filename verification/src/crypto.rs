//! Credential encoding: a placeholder context that encodes with
//! base64, stated exactly enough for the round trip to hold.
use vstd::prelude::*;

verus! {

/// The base64 text of a byte string, as ASCII bytes; the result
/// depends on the input alone.
pub uninterp spec fn b64_bytes_of(data: Seq<u8>) -> Seq<u8>;

/// What base64 reads back out of a byte string, when it is valid
/// base64 text; the result depends on the input alone.
pub uninterp spec fn b64_decode_of(enc: Seq<u8>) -> Option<Seq<u8>>;

/// Relies on base64's `encode` (standard alphabet, padded): the text
/// depends on the input alone, and `decode` reads the input back.
#[verifier::external_body]
fn b64_encode(data: &[u8]) -> (r: Vec<u8>)
    ensures
        r@ == b64_bytes_of(data@),
        b64_decode_of(r@) == Some(data@),
{
    base64::encode(data).into_bytes()
}

/// Relies on base64's `decode`: it returns bytes exactly on valid
/// base64 text, and what it returns depends on the input alone.
#[verifier::external_body]
fn b64_decode(enc: &[u8]) -> (r: Result<Vec<u8>, base64::DecodeError>)
    ensures
        match r {
            Ok(d) => b64_decode_of(enc@) == Some(d@),
            Err(_) => b64_decode_of(enc@) is None,
        },
{
    base64::decode(String::from_utf8_lossy(enc).as_ref())
}

/// Declares base64's `DecodeError`, the error its `decode` returns.
#[verifier::external_type_specification]
#[verifier::external_body]
pub struct ExDecodeError(base64::DecodeError);

/// The error of this module: the stored text was not valid base64.
#[derive(Debug, Clone, Copy, PartialEq, Eq, Structural)]
pub enum CryptoError {
    InvalidEncoding,
}

/// A placeholder encoding context.
#[derive(Debug)]
pub struct CryptoCtx;

impl CryptoCtx {
    pub fn new_dummy() -> (r: Self)
        ensures
            true,
    {
        CryptoCtx
    }

    /// Encodes; never fails, and `decrypt` reads the input back.
    pub fn encrypt(&self, plain: &[u8]) -> (r: Result<Vec<u8>, CryptoError>)
        ensures
            r matches Ok(v) && v@ == b64_bytes_of(plain@) && b64_decode_of(v@) == Some(plain@),
    {
        Ok(b64_encode(plain))
    }

    /// Decodes; fails exactly when the bytes are not valid base64
    /// text.
    pub fn decrypt(&self, enc: &[u8]) -> (r: Result<Vec<u8>, CryptoError>)
        ensures
            match r {
                Ok(d) => b64_decode_of(enc@) == Some(d@),
                Err(e) => b64_decode_of(enc@) is None && e == CryptoError::InvalidEncoding,
            },
    {
        match b64_decode(enc) {
            Ok(d) => Ok(d),
            Err(_) => Err(CryptoError::InvalidEncoding),
        }
    }
}

} // verus!
