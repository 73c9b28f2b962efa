//! The key-encapsulation module: Kyber-512 keys, ciphertexts and shared
//! secrets as plain byte arrays.
//!
//! Every input is parsed into the primitive library's typed value before the
//! primitive is called, and every output is the bytes of the typed value that
//! the primitive returned. An input that does not parse is an
//! [`InvalidEncoding`] that names the argument; nothing else fails.

use vstd::prelude::*;
use vstd::slice::slice_to_vec;
use pqcrypto_kyber::kyber512::{
    decapsulate, encapsulate, keypair, Ciphertext, PublicKey, SecretKey, SharedSecret,
};
use crate::error::{Argument, InvalidEncoding};
use crate::tamper::{flip_bit, lemma_flip_bit};
use crate::kyber512::{
    ciphertext_as_bytes, ciphertext_from_bytes, kyber512_ciphertext_bytes, kyber512_decapsulation,
    kyber512_public_key_bytes, kyber512_secret_key_bytes, kyber512_shared_secret_bytes,
    public_key_as_bytes, public_key_from_bytes, secret_key_as_bytes, secret_key_from_bytes,
    shared_secret_as_bytes, KYBER512_CIPHERTEXT_BYTES, KYBER512_PUBLIC_KEY_BYTES,
    KYBER512_SECRET_KEY_BYTES, KYBER512_SHARED_SECRET_BYTES,
};

verus! {

/// Parses a public key. Succeeds exactly on inputs of the scheme's public-key
/// length, and the key then holds the input bytes.
pub fn kyber_pk_from_bytes(bytes: &[u8]) -> (r: Result<PublicKey, InvalidEncoding>)
    ensures
        r is Ok <==> bytes@.len() == KYBER512_PUBLIC_KEY_BYTES,
        r matches Ok(pk) ==> kyber512_public_key_bytes(pk) == bytes@,
        r matches Err(e) ==> e.reports(
            Argument::PublicKey,
            "PublicKey"@,
            KYBER512_PUBLIC_KEY_BYTES as nat,
            bytes@.len(),
        ),
{
    match public_key_from_bytes(bytes) {
        Ok(pk) => Ok(pk),
        Err(cause) => Err(InvalidEncoding { argument: Argument::PublicKey, cause }),
    }
}

/// Parses a secret key. Succeeds exactly on inputs of the scheme's secret-key
/// length, and the key then holds the input bytes.
pub fn kyber_sk_from_bytes(bytes: &[u8]) -> (r: Result<SecretKey, InvalidEncoding>)
    ensures
        r is Ok <==> bytes@.len() == KYBER512_SECRET_KEY_BYTES,
        r matches Ok(sk) ==> kyber512_secret_key_bytes(sk) == bytes@,
        r matches Err(e) ==> e.reports(
            Argument::SecretKey,
            "SecretKey"@,
            KYBER512_SECRET_KEY_BYTES as nat,
            bytes@.len(),
        ),
{
    match secret_key_from_bytes(bytes) {
        Ok(sk) => Ok(sk),
        Err(cause) => Err(InvalidEncoding { argument: Argument::SecretKey, cause }),
    }
}

/// Parses a ciphertext. Succeeds exactly on inputs of the scheme's ciphertext
/// length, and the ciphertext then holds the input bytes.
pub fn kyber_ct_from_bytes(bytes: &[u8]) -> (r: Result<Ciphertext, InvalidEncoding>)
    ensures
        r is Ok <==> bytes@.len() == KYBER512_CIPHERTEXT_BYTES,
        r matches Ok(ct) ==> kyber512_ciphertext_bytes(ct) == bytes@,
        r matches Err(e) ==> e.reports(
            Argument::Ciphertext,
            "Ciphertext"@,
            KYBER512_CIPHERTEXT_BYTES as nat,
            bytes@.len(),
        ),
{
    match ciphertext_from_bytes(bytes) {
        Ok(ct) => Ok(ct),
        Err(cause) => Err(InvalidEncoding { argument: Argument::Ciphertext, cause }),
    }
}

/// The bytes of a public key, as an owned array.
pub fn kyber_pk_to_bytes(pk: &PublicKey) -> (bytes: Vec<u8>)
    ensures
        bytes@ == kyber512_public_key_bytes(*pk),
        bytes@.len() == KYBER512_PUBLIC_KEY_BYTES,
{
    slice_to_vec(public_key_as_bytes(pk))
}

/// The bytes of a secret key, as an owned array.
pub fn kyber_sk_to_bytes(sk: &SecretKey) -> (bytes: Vec<u8>)
    ensures
        bytes@ == kyber512_secret_key_bytes(*sk),
        bytes@.len() == KYBER512_SECRET_KEY_BYTES,
{
    slice_to_vec(secret_key_as_bytes(sk))
}

/// The bytes of a ciphertext, as an owned array.
pub fn kyber_ct_to_bytes(ct: &Ciphertext) -> (bytes: Vec<u8>)
    ensures
        bytes@ == kyber512_ciphertext_bytes(*ct),
        bytes@.len() == KYBER512_CIPHERTEXT_BYTES,
{
    slice_to_vec(ciphertext_as_bytes(ct))
}

/// The bytes of a shared secret, as an owned array.
pub fn kyber_ss_to_bytes(ss: &SharedSecret) -> (bytes: Vec<u8>)
    ensures
        bytes@ == kyber512_shared_secret_bytes(*ss),
        bytes@.len() == KYBER512_SHARED_SECRET_BYTES,
{
    slice_to_vec(shared_secret_as_bytes(ss))
}

/// What key generation owes: a public key and a secret key, in this order,
/// each of its scheme-defined length.
pub open spec fn kyber_keygen_outcome(keys: (Vec<u8>, Vec<u8>)) -> bool {
    &&& keys.0@.len() == KYBER512_PUBLIC_KEY_BYTES
    &&& keys.1@.len() == KYBER512_SECRET_KEY_BYTES
}

/// What encapsulation to `public_key` owes. It succeeds exactly when the key
/// has the scheme's public-key length, and then gives a ciphertext and a
/// shared secret, in this order, each of its scheme-defined length. Both are
/// drawn afresh on every call, so no more is said of them.
pub open spec fn kyber_encapsulate_outcome(
    public_key: Seq<u8>,
    r: Result<(Vec<u8>, Vec<u8>), InvalidEncoding>,
) -> bool {
    &&& r is Ok <==> public_key.len() == KYBER512_PUBLIC_KEY_BYTES
    &&& r matches Ok(pair) ==> {
        &&& pair.0@.len() == KYBER512_CIPHERTEXT_BYTES
        &&& pair.1@.len() == KYBER512_SHARED_SECRET_BYTES
    }
    &&& r matches Err(e) ==> e.reports(
        Argument::PublicKey,
        "PublicKey"@,
        KYBER512_PUBLIC_KEY_BYTES as nat,
        public_key.len(),
    )
}

/// What decapsulation of `ciphertext` under `secret_key` owes. It succeeds
/// exactly when both have their scheme-defined lengths, and then gives the
/// secret that the primitive recovers. The secret key is parsed first, so
/// where both are malformed the error names the secret key.
pub open spec fn kyber_decapsulate_outcome(
    secret_key: Seq<u8>,
    ciphertext: Seq<u8>,
    r: Result<Vec<u8>, InvalidEncoding>,
) -> bool {
    &&& r is Ok <==> secret_key.len() == KYBER512_SECRET_KEY_BYTES && ciphertext.len()
        == KYBER512_CIPHERTEXT_BYTES
    &&& r matches Ok(ss) ==> {
        &&& ss@ == kyber512_decapsulation(secret_key, ciphertext)
        &&& ss@.len() == KYBER512_SHARED_SECRET_BYTES
    }
    &&& r matches Err(e) ==> if secret_key.len() != KYBER512_SECRET_KEY_BYTES {
        e.reports(
            Argument::SecretKey,
            "SecretKey"@,
            KYBER512_SECRET_KEY_BYTES as nat,
            secret_key.len(),
        )
    } else {
        e.reports(
            Argument::Ciphertext,
            "Ciphertext"@,
            KYBER512_CIPHERTEXT_BYTES as nat,
            ciphertext.len(),
        )
    }
}

/// Generates a key pair and returns `(public_key, secret_key)`.
///
/// There is no input and no error. The keys come from the system's random
/// source, on which the primitive relies without a way to report its failure.
pub fn kyber_keygen() -> (keys: (Vec<u8>, Vec<u8>))
    ensures
        kyber_keygen_outcome(keys),
{
    let (pk, sk) = keypair();
    let pk_bytes = kyber_pk_to_bytes(&pk);
    let sk_bytes = kyber_sk_to_bytes(&sk);
    (pk_bytes, sk_bytes)
}

/// Encapsulates to a public key and returns `(ciphertext, shared_secret)`.
pub fn kyber_encapsulate(pk_bytes: &[u8]) -> (r: Result<(Vec<u8>, Vec<u8>), InvalidEncoding>)
    ensures
        kyber_encapsulate_outcome(pk_bytes@, r),
{
    let pk = match kyber_pk_from_bytes(pk_bytes) {
        Ok(pk) => pk,
        Err(e) => {
            return Err(e);
        },
    };
    let (ss, ct) = encapsulate(&pk);
    let ss_bytes = kyber_ss_to_bytes(&ss);
    let ct_bytes = kyber_ct_to_bytes(&ct);
    Ok((ct_bytes, ss_bytes))
}

/// Recovers the shared secret of a ciphertext with a secret key.
///
/// A ciphertext that was not made for this key is no error: the primitive
/// then gives an unrelated secret, and the facade does not look further.
pub fn kyber_decapsulate(sk_bytes: &[u8], ct_bytes: &[u8]) -> (r: Result<Vec<u8>, InvalidEncoding>)
    ensures
        kyber_decapsulate_outcome(sk_bytes@, ct_bytes@, r),
{
    let sk = match kyber_sk_from_bytes(sk_bytes) {
        Ok(sk) => sk,
        Err(e) => {
            return Err(e);
        },
    };
    let ct = match kyber_ct_from_bytes(ct_bytes) {
        Ok(ct) => ct,
        Err(e) => {
            return Err(e);
        },
    };
    let ss = decapsulate(&ct, &sk);
    Ok(kyber_ss_to_bytes(&ss))
}

/// Generated keys carry through the module. Encapsulation accepts every
/// generated public key, and decapsulation accepts every generated secret key
/// together with the ciphertext that encapsulation returned: it then gives
/// the secret that the primitive recovers, which is as long as the one that
/// was encapsulated. That the two secrets are equal is the primitive's
/// promise, not a fact about the facade.
pub proof fn lemma_generated_keys_carry_through(
    keys: (Vec<u8>, Vec<u8>),
    encapsulated: Result<(Vec<u8>, Vec<u8>), InvalidEncoding>,
    recovered: Result<Vec<u8>, InvalidEncoding>,
)
    requires
        kyber_keygen_outcome(keys),
        kyber_encapsulate_outcome(keys.0@, encapsulated),
        encapsulated matches Ok(pair) ==> kyber_decapsulate_outcome(keys.1@, pair.0@, recovered),
    ensures
        encapsulated is Ok,
        recovered is Ok,
        recovered.unwrap()@ == kyber512_decapsulation(keys.1@, encapsulated.unwrap().0@),
        recovered.unwrap()@.len() == encapsulated.unwrap().1@.len(),
{
}

/// Decapsulation is a function of its two inputs: whenever and wherever it
/// is called on the same secret key and ciphertext, it succeeds or fails
/// alike, with the same secret or the same report.
pub proof fn lemma_decapsulation_is_determined(
    secret_key: Seq<u8>,
    ciphertext: Seq<u8>,
    first: Result<Vec<u8>, InvalidEncoding>,
    second: Result<Vec<u8>, InvalidEncoding>,
)
    requires
        kyber_decapsulate_outcome(secret_key, ciphertext, first),
        kyber_decapsulate_outcome(secret_key, ciphertext, second),
    ensures
        first is Ok <==> second is Ok,
        first matches Ok(a) ==> second matches Ok(b) && a@ == b@,
        first matches Err(a) ==> second matches Err(b) && a.agrees_with(b),
{
}

/// A bit flipped in a ciphertext is no parse error. The tampered ciphertext
/// differs from the untampered one and has its length, so decapsulation still
/// succeeds, with whatever secret the primitive recovers from it.
pub proof fn lemma_tampered_ciphertext_still_parses(
    secret_key: Seq<u8>,
    ciphertext: Seq<u8>,
    index: int,
    bit: u8,
    recovered: Result<Vec<u8>, InvalidEncoding>,
)
    requires
        secret_key.len() == KYBER512_SECRET_KEY_BYTES,
        ciphertext.len() == KYBER512_CIPHERTEXT_BYTES,
        0 <= index < ciphertext.len(),
        bit < 8,
        kyber_decapsulate_outcome(secret_key, flip_bit(ciphertext, index, bit), recovered),
    ensures
        flip_bit(ciphertext, index, bit) != ciphertext,
        recovered is Ok,
        recovered.unwrap()@ == kyber512_decapsulation(
            secret_key,
            flip_bit(ciphertext, index, bit),
        ),
{
    lemma_flip_bit(ciphertext, index, bit);
}

} // verus!
