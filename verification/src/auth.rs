//! RSA key material for signing and checking channel JWTs.

pub mod channel_access_token;
pub mod channel_jwt;

use vstd::prelude::*;
use crate::error::ServerError;

verus! {

#[verifier::external_type_specification]
#[verifier::external_body]
pub struct ExEncodingKey(jsonwebtoken::EncodingKey);

#[verifier::external_type_specification]
#[verifier::external_body]
pub struct ExDecodingKey(jsonwebtoken::DecodingKey);

#[verifier::external_type_specification]
#[verifier::external_body]
pub struct ExJwtError(jsonwebtoken::errors::Error);

/// Whether `jsonwebtoken::EncodingKey::from_rsa_pem` accepts these bytes:
/// a PEM document holding an RSA key.
pub uninterp spec fn rsa_pem_accepted_for_signing(pem: Seq<u8>) -> bool;

/// Whether `jsonwebtoken::DecodingKey::from_rsa_pem` accepts these bytes:
/// a PEM document holding an RSA key.
pub uninterp spec fn rsa_pem_accepted_for_checking(pem: Seq<u8>) -> bool;

/// The signing key that `jsonwebtoken::EncodingKey::from_rsa_pem` reads
/// from these bytes.
pub uninterp spec fn rsa_encoding_key(pem: Seq<u8>) -> jsonwebtoken::EncodingKey;

/// The checking key that `jsonwebtoken::DecodingKey::from_rsa_pem` reads
/// from these bytes.
pub uninterp spec fn rsa_decoding_key(pem: Seq<u8>) -> jsonwebtoken::DecodingKey;

/// Calls `jsonwebtoken::EncodingKey::from_rsa_pem`. Whether it accepts the
/// bytes, and the key it reads from them, depend on the bytes alone; both
/// are named.
#[verifier::external_body]
fn encoding_key_from_rsa_pem(pem: &[u8]) -> (res: Result<jsonwebtoken::EncodingKey, jsonwebtoken::errors::Error>)
    ensures
        res is Ok <==> rsa_pem_accepted_for_signing(pem@),
        res matches Ok(key) ==> key == rsa_encoding_key(pem@),
{
    jsonwebtoken::EncodingKey::from_rsa_pem(pem)
}

/// Calls `jsonwebtoken::DecodingKey::from_rsa_pem`. Whether it accepts the
/// bytes, and the key it reads from them, depend on the bytes alone; both
/// are named.
#[verifier::external_body]
fn decoding_key_from_rsa_pem(pem: &[u8]) -> (res: Result<jsonwebtoken::DecodingKey, jsonwebtoken::errors::Error>)
    ensures
        res is Ok <==> rsa_pem_accepted_for_checking(pem@),
        res matches Ok(key) ==> key == rsa_decoding_key(pem@),
{
    jsonwebtoken::DecodingKey::from_rsa_pem(pem)
}

/// The key pair of the channel: the private key signs the JWTs that ask for
/// channel access tokens, the public key checks them.
pub struct KeySet {
    pub encoding_key: jsonwebtoken::EncodingKey,
    pub decoding_key: jsonwebtoken::DecodingKey,
}

/// Reads the channel's key pair from its two PEM documents. The private key
/// is read first; the first key that does not parse is reported.
pub fn auth_init(private_secret: &[u8], public_secret: &[u8]) -> (res: Result<KeySet, ServerError>)
    ensures
        res is Ok <==> rsa_pem_accepted_for_signing(private_secret@)
            && rsa_pem_accepted_for_checking(public_secret@),
        res matches Ok(keys) ==> keys.encoding_key == rsa_encoding_key(private_secret@)
            && keys.decoding_key == rsa_decoding_key(public_secret@),
        res is Err ==> res->Err_0 is InvalidKey,
{
    let encoding_key = match encoding_key_from_rsa_pem(private_secret) {
        Ok(key) => key,
        Err(e) => return Err(ServerError::InvalidKey(e)),
    };
    let decoding_key = match decoding_key_from_rsa_pem(public_secret) {
        Ok(key) => key,
        Err(e) => return Err(ServerError::InvalidKey(e)),
    };
    Ok(KeySet { encoding_key, decoding_key })
}

} // verus!
