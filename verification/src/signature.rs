//! The signature module: Falcon-512 keys and detached signatures as plain
//! byte arrays.
//!
//! Every input but the message is parsed into the primitive library's typed
//! value before the primitive is called. An input that does not parse is an
//! [`InvalidEncoding`] that names the argument. A signature that parses and
//! does not verify is no error: verification then answers `false`.

use vstd::prelude::*;
use vstd::slice::slice_to_vec;
use pqcrypto_falcon::falcon512::{
    detached_sign, keypair, verify_detached_signature, DetachedSignature, PublicKey, SecretKey,
};
use pqcrypto_traits::sign::VerificationError;
use crate::error::{Argument, InvalidEncoding};
use crate::tamper::{flip_bit, lemma_flip_bit};
use crate::falcon512::{
    falcon512_accepts, falcon512_public_key_bytes, falcon512_secret_key_bytes,
    falcon512_signature_bytes, public_key_as_bytes, public_key_from_bytes, secret_key_as_bytes,
    secret_key_from_bytes, signature_as_bytes, signature_from_bytes, FALCON512_PUBLIC_KEY_BYTES,
    FALCON512_SECRET_KEY_BYTES, FALCON512_SIGNATURE_MAX_BYTES,
};

verus! {

/// Parses a public key. Succeeds exactly on inputs of the scheme's public-key
/// length, and the key then holds the input bytes.
pub fn falcon_pk_from_bytes(bytes: &[u8]) -> (r: Result<PublicKey, InvalidEncoding>)
    ensures
        r is Ok <==> bytes@.len() == FALCON512_PUBLIC_KEY_BYTES,
        r matches Ok(pk) ==> falcon512_public_key_bytes(pk) == bytes@,
        r matches Err(e) ==> e.reports(
            Argument::PublicKey,
            "PublicKey"@,
            FALCON512_PUBLIC_KEY_BYTES as nat,
            bytes@.len(),
        ),
{
    match public_key_from_bytes(bytes) {
        Ok(pk) => Ok(pk),
        Err(cause) => Err(InvalidEncoding { argument: Argument::PublicKey, cause }),
    }
}

/// Parses a secret key. Succeeds exactly on inputs of the scheme's secret-key
/// length, and the key then holds the input bytes.
pub fn falcon_sk_from_bytes(bytes: &[u8]) -> (r: Result<SecretKey, InvalidEncoding>)
    ensures
        r is Ok <==> bytes@.len() == FALCON512_SECRET_KEY_BYTES,
        r matches Ok(sk) ==> falcon512_secret_key_bytes(sk) == bytes@,
        r matches Err(e) ==> e.reports(
            Argument::SecretKey,
            "SecretKey"@,
            FALCON512_SECRET_KEY_BYTES as nat,
            bytes@.len(),
        ),
{
    match secret_key_from_bytes(bytes) {
        Ok(sk) => Ok(sk),
        Err(cause) => Err(InvalidEncoding { argument: Argument::SecretKey, cause }),
    }
}

/// Parses a detached signature. Succeeds exactly on inputs no longer than the
/// scheme's greatest signature, and the signature then holds the input bytes.
pub fn falcon_sig_from_bytes(bytes: &[u8]) -> (r: Result<DetachedSignature, InvalidEncoding>)
    ensures
        r is Ok <==> bytes@.len() <= FALCON512_SIGNATURE_MAX_BYTES,
        r matches Ok(sig) ==> falcon512_signature_bytes(sig) == bytes@,
        r matches Err(e) ==> e.reports(
            Argument::Signature,
            "DetachedSignature"@,
            FALCON512_SIGNATURE_MAX_BYTES as nat,
            bytes@.len(),
        ),
{
    match signature_from_bytes(bytes) {
        Ok(sig) => Ok(sig),
        Err(cause) => Err(InvalidEncoding { argument: Argument::Signature, cause }),
    }
}

/// The bytes of a public key, as an owned array.
pub fn falcon_pk_to_bytes(pk: &PublicKey) -> (bytes: Vec<u8>)
    ensures
        bytes@ == falcon512_public_key_bytes(*pk),
        bytes@.len() == FALCON512_PUBLIC_KEY_BYTES,
{
    slice_to_vec(public_key_as_bytes(pk))
}

/// The bytes of a secret key, as an owned array.
pub fn falcon_sk_to_bytes(sk: &SecretKey) -> (bytes: Vec<u8>)
    ensures
        bytes@ == falcon512_secret_key_bytes(*sk),
        bytes@.len() == FALCON512_SECRET_KEY_BYTES,
{
    slice_to_vec(secret_key_as_bytes(sk))
}

/// The bytes of a detached signature, as an owned array.
pub fn falcon_sig_to_bytes(sig: &DetachedSignature) -> (bytes: Vec<u8>)
    ensures
        bytes@ == falcon512_signature_bytes(*sig),
        bytes@.len() <= FALCON512_SIGNATURE_MAX_BYTES,
{
    slice_to_vec(signature_as_bytes(sig))
}

/// Whether the primitive accepted a signature: `true` where it did, `false`
/// for every reason it may give for refusing.
pub fn signature_accepted(outcome: &Result<(), VerificationError>) -> (accepted: bool)
    ensures
        accepted == (outcome is Ok),
{
    outcome.is_ok()
}

/// What key generation owes: a public key and a secret key, in this order,
/// each of its scheme-defined length.
pub open spec fn falcon_keygen_outcome(keys: (Vec<u8>, Vec<u8>)) -> bool {
    &&& keys.0@.len() == FALCON512_PUBLIC_KEY_BYTES
    &&& keys.1@.len() == FALCON512_SECRET_KEY_BYTES
}

/// What signing with `secret_key` owes, whatever the message. It succeeds
/// exactly when the key has the scheme's secret-key length, and then gives a
/// signature no longer than the scheme's greatest. The signature is drawn
/// afresh on every call, so no more is said of it.
pub open spec fn falcon_sign_outcome(
    secret_key: Seq<u8>,
    r: Result<Vec<u8>, InvalidEncoding>,
) -> bool {
    &&& r is Ok <==> secret_key.len() == FALCON512_SECRET_KEY_BYTES
    &&& r matches Ok(sig) ==> sig@.len() <= FALCON512_SIGNATURE_MAX_BYTES
    &&& r matches Err(e) ==> e.reports(
        Argument::SecretKey,
        "SecretKey"@,
        FALCON512_SECRET_KEY_BYTES as nat,
        secret_key.len(),
    )
}

/// What verification of `signature` over `message` under `public_key` owes.
/// It answers exactly when the key has the scheme's public-key length and the
/// signature is no longer than the scheme's greatest, and the answer is then
/// the primitive's. The public key is parsed first, so where both are
/// malformed the error names the public key.
pub open spec fn falcon_verify_outcome(
    public_key: Seq<u8>,
    message: Seq<u8>,
    signature: Seq<u8>,
    r: Result<bool, InvalidEncoding>,
) -> bool {
    &&& r is Ok <==> public_key.len() == FALCON512_PUBLIC_KEY_BYTES && signature.len()
        <= FALCON512_SIGNATURE_MAX_BYTES
    &&& r matches Ok(valid) ==> valid == falcon512_accepts(public_key, message, signature)
    &&& r matches Err(e) ==> if public_key.len() != FALCON512_PUBLIC_KEY_BYTES {
        e.reports(
            Argument::PublicKey,
            "PublicKey"@,
            FALCON512_PUBLIC_KEY_BYTES as nat,
            public_key.len(),
        )
    } else {
        e.reports(
            Argument::Signature,
            "DetachedSignature"@,
            FALCON512_SIGNATURE_MAX_BYTES as nat,
            signature.len(),
        )
    }
}

/// Generates a key pair and returns `(public_key, secret_key)`.
///
/// There is no input and no error. The keys come from the system's random
/// source, on which the primitive relies without a way to report its failure.
pub fn falcon_keygen() -> (keys: (Vec<u8>, Vec<u8>))
    ensures
        falcon_keygen_outcome(keys),
{
    let (pk, sk) = keypair();
    let pk_bytes = falcon_pk_to_bytes(&pk);
    let sk_bytes = falcon_sk_to_bytes(&sk);
    (pk_bytes, sk_bytes)
}

/// Signs a message, of any length and content, and returns the detached
/// signature.
pub fn falcon_sign(sk_bytes: &[u8], msg: &[u8]) -> (r: Result<Vec<u8>, InvalidEncoding>)
    ensures
        falcon_sign_outcome(sk_bytes@, r),
{
    let sk = match falcon_sk_from_bytes(sk_bytes) {
        Ok(sk) => sk,
        Err(e) => {
            return Err(e);
        },
    };
    let sig = detached_sign(msg, &sk);
    Ok(falcon_sig_to_bytes(&sig))
}

/// Verifies a detached signature over a message under a public key.
///
/// `Ok(false)` says that all inputs parsed and the signature does not verify;
/// an input that does not parse is an error and never `Ok(false)`.
pub fn falcon_verify(pk_bytes: &[u8], msg: &[u8], sig_bytes: &[u8]) -> (r: Result<
    bool,
    InvalidEncoding,
>)
    ensures
        falcon_verify_outcome(pk_bytes@, msg@, sig_bytes@, r),
{
    let pk = match falcon_pk_from_bytes(pk_bytes) {
        Ok(pk) => pk,
        Err(e) => {
            return Err(e);
        },
    };
    let sig = match falcon_sig_from_bytes(sig_bytes) {
        Ok(sig) => sig,
        Err(e) => {
            return Err(e);
        },
    };
    let outcome = verify_detached_signature(&sig, msg, &pk);
    Ok(signature_accepted(&outcome))
}

/// Generated keys carry through the module. Signing accepts every generated
/// secret key, and verification under the generated public key gives an
/// answer on the signature that signing returned, never a parse error. The
/// answer is the primitive's; that it is `true` is the primitive's promise,
/// not a fact about the facade.
pub proof fn lemma_generated_keys_carry_through(
    keys: (Vec<u8>, Vec<u8>),
    message: Seq<u8>,
    signed: Result<Vec<u8>, InvalidEncoding>,
    verified: Result<bool, InvalidEncoding>,
)
    requires
        falcon_keygen_outcome(keys),
        falcon_sign_outcome(keys.1@, signed),
        signed matches Ok(sig) ==> falcon_verify_outcome(keys.0@, message, sig@, verified),
    ensures
        signed is Ok,
        verified is Ok,
        verified.unwrap() == falcon512_accepts(keys.0@, message, signed.unwrap()@),
{
}

/// Whatever signing returns is a well-formed signature. Verification of it
/// gives the primitive's answer under every public key of the scheme's
/// length, the signer's own or another's, and over every message, the signed
/// one or another: a mismatch of key or message is never a parse error.
pub proof fn lemma_signing_gives_a_wellformed_signature(
    secret_key: Seq<u8>,
    signed: Result<Vec<u8>, InvalidEncoding>,
    public_key: Seq<u8>,
    message: Seq<u8>,
    verified: Result<bool, InvalidEncoding>,
)
    requires
        falcon_sign_outcome(secret_key, signed),
        public_key.len() == FALCON512_PUBLIC_KEY_BYTES,
        signed matches Ok(sig) ==> falcon_verify_outcome(public_key, message, sig@, verified),
    ensures
        signed matches Ok(sig) ==> verified == Ok::<bool, InvalidEncoding>(
            falcon512_accepts(public_key, message, sig@),
        ),
{
}

/// Verification is a function of its three inputs: whenever and wherever it
/// is called on the same public key, message and signature, it succeeds or
/// fails alike, with the same answer or the same report.
pub proof fn lemma_verification_is_determined(
    public_key: Seq<u8>,
    message: Seq<u8>,
    signature: Seq<u8>,
    first: Result<bool, InvalidEncoding>,
    second: Result<bool, InvalidEncoding>,
)
    requires
        falcon_verify_outcome(public_key, message, signature, first),
        falcon_verify_outcome(public_key, message, signature, second),
    ensures
        first is Ok <==> second is Ok,
        first matches Ok(a) ==> second matches Ok(b) && a == b,
        first matches Err(a) ==> second matches Err(b) && a.agrees_with(b),
{
}

/// A bit flipped in a signature is no parse error. The tampered signature
/// differs from the untampered one and has its length, so verification still gives
/// an answer, the primitive's, over every message.
pub proof fn lemma_tampered_signature_still_parses(
    public_key: Seq<u8>,
    message: Seq<u8>,
    signature: Seq<u8>,
    index: int,
    bit: u8,
    verified: Result<bool, InvalidEncoding>,
)
    requires
        public_key.len() == FALCON512_PUBLIC_KEY_BYTES,
        signature.len() <= FALCON512_SIGNATURE_MAX_BYTES,
        0 <= index < signature.len(),
        bit < 8,
        falcon_verify_outcome(public_key, message, flip_bit(signature, index, bit), verified),
    ensures
        flip_bit(signature, index, bit) != signature,
        verified is Ok,
        verified.unwrap() == falcon512_accepts(
            public_key,
            message,
            flip_bit(signature, index, bit),
        ),
{
    lemma_flip_bit(signature, index, bit);
}

/// A bit flipped in a message is no parse error. A message has no required
/// structure, so verification of a well-formed signature under a well-formed
/// public key gives an answer over the tampered message as over any other.
pub proof fn lemma_tampered_message_still_parses(
    public_key: Seq<u8>,
    message: Seq<u8>,
    signature: Seq<u8>,
    index: int,
    bit: u8,
    verified: Result<bool, InvalidEncoding>,
)
    requires
        public_key.len() == FALCON512_PUBLIC_KEY_BYTES,
        signature.len() <= FALCON512_SIGNATURE_MAX_BYTES,
        0 <= index < message.len(),
        bit < 8,
        falcon_verify_outcome(public_key, flip_bit(message, index, bit), signature, verified),
    ensures
        flip_bit(message, index, bit) != message,
        verified is Ok,
        verified.unwrap() == falcon512_accepts(
            public_key,
            flip_bit(message, index, bit),
            signature,
        ),
{
    lemma_flip_bit(message, index, bit);
}

} // verus!
