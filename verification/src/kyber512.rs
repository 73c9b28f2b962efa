//! Kyber-512 as the primitive library provides it: its typed values, the
//! bytes they hold, and what this crate assumes of its operations.
//!
//! Everything here is trusted. The contracts restate what the primitive
//! library's source shows; Verus proves none of them.

use vstd::prelude::*;
use pqcrypto_kyber::kyber512::{Ciphertext, PublicKey, SecretKey, SharedSecret};

verus! {

/// Length of an encoded public key.
pub const KYBER512_PUBLIC_KEY_BYTES: usize = 800;

/// Length of an encoded secret key.
pub const KYBER512_SECRET_KEY_BYTES: usize = 1632;

/// Length of a ciphertext.
pub const KYBER512_CIPHERTEXT_BYTES: usize = 768;

/// Length of a shared secret.
pub const KYBER512_SHARED_SECRET_BYTES: usize = 32;

/// A Kyber-512 public key, opaque to the verifier.
#[verifier::external_type_specification]
#[verifier::external_body]
pub struct ExPublicKey(pqcrypto_kyber::kyber512::PublicKey);

/// A Kyber-512 secret key, opaque to the verifier.
#[verifier::external_type_specification]
#[verifier::external_body]
pub struct ExSecretKey(pqcrypto_kyber::kyber512::SecretKey);

/// A Kyber-512 ciphertext, opaque to the verifier.
#[verifier::external_type_specification]
#[verifier::external_body]
pub struct ExCiphertext(pqcrypto_kyber::kyber512::Ciphertext);

/// A Kyber-512 shared secret, opaque to the verifier.
#[verifier::external_type_specification]
#[verifier::external_body]
pub struct ExSharedSecret(pqcrypto_kyber::kyber512::SharedSecret);

/// The bytes that a public key holds.
pub uninterp spec fn kyber512_public_key_bytes(pk: PublicKey) -> Seq<u8>;

/// The bytes that a secret key holds.
pub uninterp spec fn kyber512_secret_key_bytes(sk: SecretKey) -> Seq<u8>;

/// The bytes that a ciphertext holds.
pub uninterp spec fn kyber512_ciphertext_bytes(ct: Ciphertext) -> Seq<u8>;

/// The bytes that a shared secret holds.
pub uninterp spec fn kyber512_shared_secret_bytes(ss: SharedSecret) -> Seq<u8>;

/// The shared secret that the primitive's decapsulation gives for a secret
/// key and a ciphertext, each of its scheme-defined length. Decapsulation
/// draws no randomness, so the secret is a function of these two alone.
pub uninterp spec fn kyber512_decapsulation(secret_key: Seq<u8>, ciphertext: Seq<u8>) -> Seq<u8>;

/// `pqcrypto_traits::kem::PublicKey::from_bytes` on `kyber512::PublicKey`: it
/// accepts exactly the inputs of 800 bytes and copies them; any other length
/// is a `BadLength` that names `PublicKey` and gives both lengths.
#[verifier::external_body]
pub(crate) fn public_key_from_bytes(bytes: &[u8]) -> (r: Result<PublicKey, pqcrypto_traits::Error>)
    ensures
        r is Ok <==> bytes@.len() == KYBER512_PUBLIC_KEY_BYTES,
        r matches Ok(pk) ==> kyber512_public_key_bytes(pk) == bytes@,
        r matches Err(cause) ==> crate::error::is_bad_length(
            cause,
            "PublicKey"@,
            KYBER512_PUBLIC_KEY_BYTES as nat,
            bytes@.len(),
        ),
{
    <PublicKey as pqcrypto_traits::kem::PublicKey>::from_bytes(bytes)
}

/// `pqcrypto_traits::kem::PublicKey::as_bytes` on `kyber512::PublicKey`: the
/// 800 bytes it holds.
#[verifier::external_body]
pub(crate) fn public_key_as_bytes(pk: &PublicKey) -> (bytes: &[u8])
    ensures
        bytes@ == kyber512_public_key_bytes(*pk),
        bytes@.len() == KYBER512_PUBLIC_KEY_BYTES,
{
    <PublicKey as pqcrypto_traits::kem::PublicKey>::as_bytes(pk)
}

/// `pqcrypto_traits::kem::SecretKey::from_bytes` on `kyber512::SecretKey`: it
/// accepts exactly the inputs of 1632 bytes and copies them; any other length
/// is a `BadLength` that names `SecretKey` and gives both lengths.
#[verifier::external_body]
pub(crate) fn secret_key_from_bytes(bytes: &[u8]) -> (r: Result<SecretKey, pqcrypto_traits::Error>)
    ensures
        r is Ok <==> bytes@.len() == KYBER512_SECRET_KEY_BYTES,
        r matches Ok(sk) ==> kyber512_secret_key_bytes(sk) == bytes@,
        r matches Err(cause) ==> crate::error::is_bad_length(
            cause,
            "SecretKey"@,
            KYBER512_SECRET_KEY_BYTES as nat,
            bytes@.len(),
        ),
{
    <SecretKey as pqcrypto_traits::kem::SecretKey>::from_bytes(bytes)
}

/// `pqcrypto_traits::kem::SecretKey::as_bytes` on `kyber512::SecretKey`: the
/// 1632 bytes it holds.
#[verifier::external_body]
pub(crate) fn secret_key_as_bytes(sk: &SecretKey) -> (bytes: &[u8])
    ensures
        bytes@ == kyber512_secret_key_bytes(*sk),
        bytes@.len() == KYBER512_SECRET_KEY_BYTES,
{
    <SecretKey as pqcrypto_traits::kem::SecretKey>::as_bytes(sk)
}

/// `pqcrypto_traits::kem::Ciphertext::from_bytes` on `kyber512::Ciphertext`:
/// it accepts exactly the inputs of 768 bytes and copies them; any other
/// length is a `BadLength` that names `Ciphertext` and gives both lengths.
#[verifier::external_body]
pub(crate) fn ciphertext_from_bytes(bytes: &[u8]) -> (r: Result<Ciphertext, pqcrypto_traits::Error>)
    ensures
        r is Ok <==> bytes@.len() == KYBER512_CIPHERTEXT_BYTES,
        r matches Ok(ct) ==> kyber512_ciphertext_bytes(ct) == bytes@,
        r matches Err(cause) ==> crate::error::is_bad_length(
            cause,
            "Ciphertext"@,
            KYBER512_CIPHERTEXT_BYTES as nat,
            bytes@.len(),
        ),
{
    <Ciphertext as pqcrypto_traits::kem::Ciphertext>::from_bytes(bytes)
}

/// `pqcrypto_traits::kem::Ciphertext::as_bytes` on `kyber512::Ciphertext`: the
/// 768 bytes it holds.
#[verifier::external_body]
pub(crate) fn ciphertext_as_bytes(ct: &Ciphertext) -> (bytes: &[u8])
    ensures
        bytes@ == kyber512_ciphertext_bytes(*ct),
        bytes@.len() == KYBER512_CIPHERTEXT_BYTES,
{
    <Ciphertext as pqcrypto_traits::kem::Ciphertext>::as_bytes(ct)
}

/// `pqcrypto_traits::kem::SharedSecret::as_bytes` on `kyber512::SharedSecret`:
/// the 32 bytes it holds.
#[verifier::external_body]
pub(crate) fn shared_secret_as_bytes(ss: &SharedSecret) -> (bytes: &[u8])
    ensures
        bytes@ == kyber512_shared_secret_bytes(*ss),
        bytes@.len() == KYBER512_SHARED_SECRET_BYTES,
{
    <SharedSecret as pqcrypto_traits::kem::SharedSecret>::as_bytes(ss)
}

/// `kyber512::keypair`: a fresh key pair. Nothing is assumed of it
/// beyond its types; the keys depend on the system's random source.
pub assume_specification[ pqcrypto_kyber::kyber512::keypair ]() -> (pair: (PublicKey, SecretKey));

/// `kyber512::encapsulate`: a fresh shared secret and the ciphertext
/// that carries it to the holder of the secret key. Nothing is assumed of
/// them beyond their types; both depend on the system's random source.
pub assume_specification[ pqcrypto_kyber::kyber512::encapsulate ](pk: &PublicKey) -> (pair: (
    SharedSecret,
    Ciphertext,
));

/// `kyber512::decapsulate`: the shared secret that the secret key
/// recovers from the ciphertext. It never fails: a ciphertext that was not
/// made for the key gives an unrelated secret.
pub assume_specification[ pqcrypto_kyber::kyber512::decapsulate ](
    ct: &Ciphertext,
    sk: &SecretKey,
) -> (ss: SharedSecret)
    ensures
        kyber512_shared_secret_bytes(ss) == kyber512_decapsulation(
            kyber512_secret_key_bytes(*sk),
            kyber512_ciphertext_bytes(*ct),
        ),
;

} // verus!
