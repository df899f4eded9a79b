//! Cryptographic primitives shared by all provider signers: MD5 and SHA-256
//! digests, HMAC-SHA1 and HMAC-SHA256, and hex/base64 encodings.
//!
//! The digests and MACs are outside computations whose results are named by
//! uninterpreted spec functions; the encodings have exact specifications.

use vstd::prelude::*;

use crate::common::{TransError, TransResult};

verus! {

/// The MD5 digest (16 bytes) of the UTF-8 encoding of a character sequence.
pub uninterp spec fn md5_of(s: Seq<char>) -> Seq<u8>;

/// The SHA-256 digest (32 bytes) of the UTF-8 encoding of a character
/// sequence.
pub uninterp spec fn sha256_of(s: Seq<char>) -> Seq<u8>;

/// The HMAC-SHA1 tag (20 bytes) over `data` keyed by `key`.
pub uninterp spec fn hmac_sha1_of(key: Seq<u8>, data: Seq<u8>) -> Seq<u8>;

/// The HMAC-SHA256 tag (32 bytes) over `data` keyed by `key`.
pub uninterp spec fn hmac_sha256_of(key: Seq<u8>, data: Seq<u8>) -> Seq<u8>;

/// The lowercase hex digit for a value below 16.
pub open spec fn hex_digit(d: u8) -> char {
    if d < 10 {
        ((48 + d) as u8) as char
    } else {
        ((87 + d) as u8) as char
    }
}

/// Lowercase hex encoding: two digits per byte, high nibble first.
pub open spec fn hex_of(bytes: Seq<u8>) -> Seq<char>
    decreases bytes.len(),
{
    if bytes.len() == 0 {
        Seq::empty()
    } else {
        seq![hex_digit(bytes.first() / 16), hex_digit(bytes.first() % 16)]
            + hex_of(bytes.drop_first())
    }
}

/// The character of the standard base64 alphabet for a value below 64.
pub open spec fn b64_char(i: int) -> char {
    if i < 26 {
        ((65 + i) as u8) as char
    } else if i < 52 {
        ((71 + i) as u8) as char
    } else if i < 62 {
        ((i - 4) as u8) as char
    } else if i == 62 {
        '+'
    } else {
        '/'
    }
}

/// Standard base64 encoding with `=` padding: each group of three bytes
/// becomes four alphabet characters; a final group of one or two bytes is
/// padded to four characters with `=`.
pub open spec fn base64_of(bytes: Seq<u8>) -> Seq<char>
    decreases bytes.len(),
{
    if bytes.len() == 0 {
        Seq::empty()
    } else if bytes.len() == 1 {
        let b0 = bytes[0] as int;
        seq![b64_char(b0 / 4), b64_char(b0 % 4 * 16), '=', '=']
    } else if bytes.len() == 2 {
        let b0 = bytes[0] as int;
        let b1 = bytes[1] as int;
        seq![b64_char(b0 / 4), b64_char(b0 % 4 * 16 + b1 / 16), b64_char(b1 % 16 * 4), '=']
    } else {
        let b0 = bytes[0] as int;
        let b1 = bytes[1] as int;
        let b2 = bytes[2] as int;
        seq![
            b64_char(b0 / 4),
            b64_char(b0 % 4 * 16 + b1 / 16),
            b64_char(b1 % 16 * 4 + b2 / 64),
            b64_char(b2 % 64),
        ] + base64_of(bytes.skip(3))
    }
}

/// Relies on the `md-5` crate's `Md5` (the RustCrypto `Digest` interface):
/// the 16-byte MD5 digest of the input bytes, a function of them alone.
#[verifier::external_body]
pub fn md5_str(str: &str) -> (r: Vec<u8>)
    ensures
        r@ == md5_of(str@),
        r@.len() == 16,
{
    let mut hasher = <md5::Md5 as md5::Digest>::new();
    md5::Digest::update(&mut hasher, str.as_bytes());
    md5::Digest::finalize(hasher).to_vec()
}

/// Relies on the `sha2` crate's `Sha256` (the RustCrypto `Digest` interface):
/// the 32-byte SHA-256 digest of the input bytes, a function of them alone.
#[verifier::external_body]
pub fn sha2_str(str: &str) -> (r: Vec<u8>)
    ensures
        r@ == sha256_of(str@),
        r@.len() == 32,
{
    let mut hasher = <sha2::Sha256 as sha2::Digest>::new();
    sha2::Digest::update(&mut hasher, str.as_bytes());
    sha2::Digest::finalize(hasher).to_vec()
}

/// Relies on `hmac::Hmac<sha2::Sha256>`: the 32-byte HMAC-SHA256 tag of the
/// data under the key, a function of the two alone. `new_from_slice` accepts
/// keys of any length, so construction never fails.
#[verifier::external_body]
pub fn sha2_hmac(key: &[u8], data: &[u8]) -> (r: TransResult<Vec<u8>>)
    ensures
        r is Ok,
        r matches Ok(v) ==> v@ == hmac_sha256_of(key@, data@) && v@.len() == 32,
{
    let mut hmac = <hmac::Hmac<sha2::Sha256> as hmac::KeyInit>::new_from_slice(key)
        .map_err(|_| TransError::HmacError)?;
    hmac::Mac::update(&mut hmac, data);
    Ok(hmac::Mac::finalize(hmac).into_bytes().to_vec())
}

/// Relies on `hmac::Hmac<sha1::Sha1>`: the 20-byte HMAC-SHA1 tag of the data
/// under the key, a function of the two alone. `new_from_slice` accepts keys
/// of any length, so construction never fails.
#[verifier::external_body]
pub fn sha1_hmac(key: &[u8], data: &[u8]) -> (r: TransResult<Vec<u8>>)
    ensures
        r is Ok,
        r matches Ok(v) ==> v@ == hmac_sha1_of(key@, data@) && v@.len() == 20,
{
    let mut hmac = <hmac::Hmac<sha1::Sha1> as hmac::KeyInit>::new_from_slice(key)
        .map_err(|_| TransError::HmacError)?;
    hmac::Mac::update(&mut hmac, data);
    Ok(hmac::Mac::finalize(hmac).into_bytes().to_vec())
}

/// Relies on `hex::encode`: lowercase hex, two digits per byte, high nibble
/// first.
#[verifier::external_body]
pub fn hex_byte(data: &[u8]) -> (r: String)
    ensures
        r@ == hex_of(data@),
{
    hex::encode(data)
}

/// Relies on `base64::encode`: the standard alphabet with `=` padding.
#[verifier::external_body]
pub fn base64_byte(data: &[u8]) -> (r: String)
    ensures
        r@ == base64_of(data@),
{
    base64::encode(data)
}

} // verus!
