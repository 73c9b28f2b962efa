//! Falcon-512 as the primitive library provides it: its typed values, the
//! bytes they hold, and what this crate assumes of its operations.
//!
//! Everything here is trusted. The contracts restate what the primitive
//! library's source shows; Verus proves none of them.

use vstd::prelude::*;
use pqcrypto_falcon::falcon512::{DetachedSignature, PublicKey, SecretKey};
use pqcrypto_traits::sign::VerificationError;

verus! {

/// Length of an encoded public key.
pub const FALCON512_PUBLIC_KEY_BYTES: usize = 897;

/// Length of an encoded secret key.
pub const FALCON512_SECRET_KEY_BYTES: usize = 1281;

/// Greatest length of a detached signature.
pub const FALCON512_SIGNATURE_MAX_BYTES: usize = 752;

/// A Falcon-512 public key, opaque to the verifier.
#[verifier::external_type_specification]
#[verifier::external_body]
pub struct ExPublicKey(pqcrypto_falcon::falcon512::PublicKey);

/// A Falcon-512 secret key, opaque to the verifier.
#[verifier::external_type_specification]
#[verifier::external_body]
pub struct ExSecretKey(pqcrypto_falcon::falcon512::SecretKey);

/// A Falcon-512 detached signature, opaque to the verifier.
#[verifier::external_type_specification]
#[verifier::external_body]
pub struct ExDetachedSignature(pqcrypto_falcon::falcon512::DetachedSignature);

/// The primitive library's reason for refusing a signature, opaque to the
/// verifier: the facade only asks whether there is one.
#[verifier::external_type_specification]
#[verifier::external_body]
pub struct ExVerificationError(pqcrypto_traits::sign::VerificationError);

/// The bytes that a public key holds.
pub uninterp spec fn falcon512_public_key_bytes(pk: PublicKey) -> Seq<u8>;

/// The bytes that a secret key holds.
pub uninterp spec fn falcon512_secret_key_bytes(sk: SecretKey) -> Seq<u8>;

/// The bytes that a detached signature holds.
pub uninterp spec fn falcon512_signature_bytes(sig: DetachedSignature) -> Seq<u8>;

/// Whether the primitive's verification accepts `signature` as a detached
/// signature over `message` under `public_key`. Verification draws no
/// randomness, so the answer is a function of these three alone.
pub uninterp spec fn falcon512_accepts(
    public_key: Seq<u8>,
    message: Seq<u8>,
    signature: Seq<u8>,
) -> bool;

/// `pqcrypto_traits::sign::PublicKey::from_bytes` on `falcon512::PublicKey`:
/// it accepts exactly the inputs of 897 bytes and copies them; any other
/// length is a `BadLength` that names `PublicKey` and gives both lengths.
#[verifier::external_body]
pub(crate) fn public_key_from_bytes(bytes: &[u8]) -> (r: Result<PublicKey, pqcrypto_traits::Error>)
    ensures
        r is Ok <==> bytes@.len() == FALCON512_PUBLIC_KEY_BYTES,
        r matches Ok(pk) ==> falcon512_public_key_bytes(pk) == bytes@,
        r matches Err(cause) ==> crate::error::is_bad_length(
            cause,
            "PublicKey"@,
            FALCON512_PUBLIC_KEY_BYTES as nat,
            bytes@.len(),
        ),
{
    <PublicKey as pqcrypto_traits::sign::PublicKey>::from_bytes(bytes)
}

/// `pqcrypto_traits::sign::PublicKey::as_bytes` on `falcon512::PublicKey`: the
/// 897 bytes it holds.
#[verifier::external_body]
pub(crate) fn public_key_as_bytes(pk: &PublicKey) -> (bytes: &[u8])
    ensures
        bytes@ == falcon512_public_key_bytes(*pk),
        bytes@.len() == FALCON512_PUBLIC_KEY_BYTES,
{
    <PublicKey as pqcrypto_traits::sign::PublicKey>::as_bytes(pk)
}

/// `pqcrypto_traits::sign::SecretKey::from_bytes` on `falcon512::SecretKey`:
/// it accepts exactly the inputs of 1281 bytes and copies them; any other
/// length is a `BadLength` that names `SecretKey` and gives both lengths.
#[verifier::external_body]
pub(crate) fn secret_key_from_bytes(bytes: &[u8]) -> (r: Result<SecretKey, pqcrypto_traits::Error>)
    ensures
        r is Ok <==> bytes@.len() == FALCON512_SECRET_KEY_BYTES,
        r matches Ok(sk) ==> falcon512_secret_key_bytes(sk) == bytes@,
        r matches Err(cause) ==> crate::error::is_bad_length(
            cause,
            "SecretKey"@,
            FALCON512_SECRET_KEY_BYTES as nat,
            bytes@.len(),
        ),
{
    <SecretKey as pqcrypto_traits::sign::SecretKey>::from_bytes(bytes)
}

/// `pqcrypto_traits::sign::SecretKey::as_bytes` on `falcon512::SecretKey`: the
/// 1281 bytes it holds.
#[verifier::external_body]
pub(crate) fn secret_key_as_bytes(sk: &SecretKey) -> (bytes: &[u8])
    ensures
        bytes@ == falcon512_secret_key_bytes(*sk),
        bytes@.len() == FALCON512_SECRET_KEY_BYTES,
{
    <SecretKey as pqcrypto_traits::sign::SecretKey>::as_bytes(sk)
}

/// `pqcrypto_traits::sign::DetachedSignature::from_bytes` on
/// `falcon512::DetachedSignature`: it accepts exactly the inputs of at most
/// 752 bytes and copies them; a longer one is a `BadLength` that names
/// `DetachedSignature` and gives both lengths.
#[verifier::external_body]
pub(crate) fn signature_from_bytes(bytes: &[u8]) -> (r: Result<
    DetachedSignature,
    pqcrypto_traits::Error,
>)
    ensures
        r is Ok <==> bytes@.len() <= FALCON512_SIGNATURE_MAX_BYTES,
        r matches Ok(sig) ==> falcon512_signature_bytes(sig) == bytes@,
        r matches Err(cause) ==> crate::error::is_bad_length(
            cause,
            "DetachedSignature"@,
            FALCON512_SIGNATURE_MAX_BYTES as nat,
            bytes@.len(),
        ),
{
    <DetachedSignature as pqcrypto_traits::sign::DetachedSignature>::from_bytes(bytes)
}

/// `pqcrypto_traits::sign::DetachedSignature::as_bytes` on
/// `falcon512::DetachedSignature`: the bytes it holds, at most 752 of them.
#[verifier::external_body]
pub(crate) fn signature_as_bytes(sig: &DetachedSignature) -> (bytes: &[u8])
    ensures
        bytes@ == falcon512_signature_bytes(*sig),
        bytes@.len() <= FALCON512_SIGNATURE_MAX_BYTES,
{
    <DetachedSignature as pqcrypto_traits::sign::DetachedSignature>::as_bytes(sig)
}

/// `falcon512::keypair`: a fresh key pair. Nothing is assumed of it
/// beyond its types; the keys depend on the system's random source.
pub assume_specification[ pqcrypto_falcon::falcon512::keypair ]() -> (pair: (PublicKey, SecretKey));

/// `falcon512::detached_sign`: a signature over the message. Nothing is
/// assumed of it beyond its type; it depends on the system's random source.
pub assume_specification[ pqcrypto_falcon::falcon512::detached_sign ](
    msg: &[u8],
    sk: &SecretKey,
) -> (sig: DetachedSignature);

/// `falcon512::verify_detached_signature`: `Ok` where it accepts the
/// signature over the message under the public key, an error where it does
/// not.
pub assume_specification[ pqcrypto_falcon::falcon512::verify_detached_signature ](
    sig: &DetachedSignature,
    msg: &[u8],
    pk: &PublicKey,
) -> (r: Result<(), VerificationError>)
    ensures
        r is Ok <==> falcon512_accepts(
            falcon512_public_key_bytes(*pk),
            msg@,
            falcon512_signature_bytes(*sig),
        ),
;

} // verus!
