//! The HMAC primitives the signers rely on, one wrapper per keyed hash.
//!
//! Each tag is a pure function of key and message; the names below stand
//! for those functions, and the wrappers hand the computation to the hmac
//! and sha2 crates.

use vstd::prelude::*;

verus! {

/// The HMAC-SHA-224 tag of `data` under `key`.
pub uninterp spec fn hmac_sha224_of(key: Seq<u8>, data: Seq<u8>) -> Seq<u8>;

/// The HMAC-SHA-256 tag of `data` under `key`.
pub uninterp spec fn hmac_sha256_of(key: Seq<u8>, data: Seq<u8>) -> Seq<u8>;

/// The HMAC-SHA-384 tag of `data` under `key`.
pub uninterp spec fn hmac_sha384_of(key: Seq<u8>, data: Seq<u8>) -> Seq<u8>;

/// The HMAC-SHA-512 tag of `data` under `key`.
pub uninterp spec fn hmac_sha512_of(key: Seq<u8>, data: Seq<u8>) -> Seq<u8>;

/// Relies on hmac's `Hmac<sha2::Sha224>` (`new_from_slice`, `update`,
/// `finalize`): the tag depends on key and data alone and is the hash's
/// output size, 28 bytes; keys of any length are accepted.
#[verifier::external_body]
pub(crate) fn hmac_sha224(key: &Vec<u8>, data: &Vec<u8>) -> (r: Vec<u8>)
    ensures
        r@ == hmac_sha224_of(key@, data@),
        r@.len() == 28,
{
    let mut m = <hmac::Hmac<sha2::Sha224> as hmac::digest::KeyInit>::new_from_slice(
        key.as_slice(),
    ).expect("HMAC accepts keys of any length");
    hmac::Mac::update(&mut m, data.as_slice());
    hmac::Mac::finalize(m).into_bytes().to_vec()
}

/// Relies on hmac's `Hmac<sha2::Sha256>`, as above; the tag is 32 bytes.
#[verifier::external_body]
pub(crate) fn hmac_sha256(key: &Vec<u8>, data: &Vec<u8>) -> (r: Vec<u8>)
    ensures
        r@ == hmac_sha256_of(key@, data@),
        r@.len() == 32,
{
    let mut m = <hmac::Hmac<sha2::Sha256> as hmac::digest::KeyInit>::new_from_slice(
        key.as_slice(),
    ).expect("HMAC accepts keys of any length");
    hmac::Mac::update(&mut m, data.as_slice());
    hmac::Mac::finalize(m).into_bytes().to_vec()
}

/// Relies on hmac's `Hmac<sha2::Sha384>`, as above; the tag is 48 bytes.
#[verifier::external_body]
pub(crate) fn hmac_sha384(key: &Vec<u8>, data: &Vec<u8>) -> (r: Vec<u8>)
    ensures
        r@ == hmac_sha384_of(key@, data@),
        r@.len() == 48,
{
    let mut m = <hmac::Hmac<sha2::Sha384> as hmac::digest::KeyInit>::new_from_slice(
        key.as_slice(),
    ).expect("HMAC accepts keys of any length");
    hmac::Mac::update(&mut m, data.as_slice());
    hmac::Mac::finalize(m).into_bytes().to_vec()
}

/// Relies on hmac's `Hmac<sha2::Sha512>`, as above; the tag is 64 bytes.
#[verifier::external_body]
pub(crate) fn hmac_sha512(key: &Vec<u8>, data: &Vec<u8>) -> (r: Vec<u8>)
    ensures
        r@ == hmac_sha512_of(key@, data@),
        r@.len() == 64,
{
    let mut m = <hmac::Hmac<sha2::Sha512> as hmac::digest::KeyInit>::new_from_slice(
        key.as_slice(),
    ).expect("HMAC accepts keys of any length");
    hmac::Mac::update(&mut m, data.as_slice());
    hmac::Mac::finalize(m).into_bytes().to_vec()
}

} // verus!
