use pq_facade::error::Argument;
use pq_facade::kem::{
    kyber_ct_from_bytes, kyber_ct_to_bytes, kyber_decapsulate, kyber_encapsulate, kyber_keygen,
    kyber_pk_from_bytes, kyber_pk_to_bytes, kyber_sk_from_bytes, kyber_sk_to_bytes,
    kyber_ss_to_bytes,
};
use pq_facade::kyber512::{
    KYBER512_CIPHERTEXT_BYTES, KYBER512_PUBLIC_KEY_BYTES, KYBER512_SECRET_KEY_BYTES,
    KYBER512_SHARED_SECRET_BYTES,
};
use pqcrypto_kyber::kyber512;
use pqcrypto_traits::kem::{Ciphertext, PublicKey, SecretKey, SharedSecret};

fn patterned(len: usize, seed: u8) -> Vec<u8> {
    (0..len).map(|i| (i as u8).wrapping_mul(31).wrapping_add(seed)).collect()
}

fn bad_length(cause: pqcrypto_traits::Error) -> (&'static str, usize, usize) {
    match cause {
        pqcrypto_traits::Error::BadLength { name, actual, expected } => (name, actual, expected),
        _ => panic!("an error other than a bad length"),
    }
}

#[test]
fn kem_lengths_are_those_of_the_primitive() {
    assert_eq!(KYBER512_PUBLIC_KEY_BYTES, 800);
    assert_eq!(KYBER512_SECRET_KEY_BYTES, 1632);
    assert_eq!(KYBER512_CIPHERTEXT_BYTES, 768);
    assert_eq!(KYBER512_SHARED_SECRET_BYTES, 32);
    assert_eq!(KYBER512_PUBLIC_KEY_BYTES, kyber512::public_key_bytes());
    assert_eq!(KYBER512_SECRET_KEY_BYTES, kyber512::secret_key_bytes());
    assert_eq!(KYBER512_CIPHERTEXT_BYTES, kyber512::ciphertext_bytes());
    assert_eq!(KYBER512_SHARED_SECRET_BYTES, kyber512::shared_secret_bytes());
}

#[test]
fn kem_keygen_gives_keys_of_fixed_lengths_on_every_call() {
    for _ in 0..5 {
        let (pk, sk) = kyber_keygen();
        assert_eq!(pk.len(), 800);
        assert_eq!(sk.len(), 1632);
    }
}

#[test]
fn kem_keygen_gives_fresh_keys() {
    let (pk_a, sk_a) = kyber_keygen();
    let (pk_b, sk_b) = kyber_keygen();
    assert_ne!(pk_a, pk_b);
    assert_ne!(sk_a, sk_b);
}

#[test]
fn kem_keygen_returns_the_public_key_first() {
    let (pk, sk) = kyber_keygen();
    // The secret key of the scheme carries its public key.
    assert_eq!(&sk[768..1568], &pk[..]);
}

#[test]
fn kem_round_trip_recovers_the_shared_secret() {
    for _ in 0..5 {
        let (pk, sk) = kyber_keygen();
        let (ct, ss) = kyber_encapsulate(&pk).unwrap();
        assert_eq!(ct.len(), 768);
        assert_eq!(ss.len(), 32);
        let recovered = kyber_decapsulate(&sk, &ct).unwrap();
        assert_eq!(recovered, ss);
    }
}

#[test]
fn kem_encapsulate_returns_the_ciphertext_first() {
    let (pk, _sk) = kyber_keygen();
    let (first, second) = kyber_encapsulate(&pk).unwrap();
    assert_eq!(first.len(), KYBER512_CIPHERTEXT_BYTES);
    assert_eq!(second.len(), KYBER512_SHARED_SECRET_BYTES);
}

#[test]
fn kem_encapsulating_twice_gives_different_results() {
    let (pk, sk) = kyber_keygen();
    let (ct_a, ss_a) = kyber_encapsulate(&pk).unwrap();
    let (ct_b, ss_b) = kyber_encapsulate(&pk).unwrap();
    assert_ne!(ct_a, ct_b);
    assert_ne!(ss_a, ss_b);
    assert_eq!(kyber_decapsulate(&sk, &ct_a).unwrap(), ss_a);
    assert_eq!(kyber_decapsulate(&sk, &ct_b).unwrap(), ss_b);
}

#[test]
fn kem_decapsulate_agrees_with_the_primitive() {
    let (pk, sk) = kyber_keygen();
    let (ct, _ss) = kyber_encapsulate(&pk).unwrap();
    let typed_sk = kyber512::SecretKey::from_bytes(&sk).unwrap();
    let typed_ct = kyber512::Ciphertext::from_bytes(&ct).unwrap();
    let expected = kyber512::decapsulate(&typed_ct, &typed_sk);
    assert_eq!(kyber_decapsulate(&sk, &ct).unwrap(), expected.as_bytes().to_vec());
}

#[test]
fn kem_decapsulate_is_repeatable() {
    let (pk, sk) = kyber_keygen();
    let (ct, _ss) = kyber_encapsulate(&pk).unwrap();
    let first = kyber_decapsulate(&sk, &ct).unwrap();
    let second = kyber_decapsulate(&sk, &ct).unwrap();
    assert_eq!(first, second);
}

#[test]
fn kem_decapsulate_under_another_key_gives_an_unrelated_secret() {
    let (pk_a, _sk_a) = kyber_keygen();
    let (_pk_b, sk_b) = kyber_keygen();
    let (ct, ss) = kyber_encapsulate(&pk_a).unwrap();
    let other = kyber_decapsulate(&sk_b, &ct).unwrap();
    assert_eq!(other.len(), 32);
    assert_ne!(other, ss);
}

#[test]
fn kem_flipped_ciphertext_bit_does_not_reproduce_the_secret() {
    let (pk, sk) = kyber_keygen();
    let (ct, ss) = kyber_encapsulate(&pk).unwrap();
    for (index, bit) in [(0usize, 0u8), (1, 7), (383, 3), (767, 0), (767, 7)] {
        let mut tampered = ct.clone();
        tampered[index] ^= 1u8 << bit;
        let recovered = kyber_decapsulate(&sk, &tampered).unwrap();
        assert_eq!(recovered.len(), 32);
        assert_ne!(recovered, ss);
    }
}

#[test]
fn kem_unstructured_inputs_of_the_right_length_are_accepted() {
    let pk = patterned(800, 1);
    let (ct, ss) = kyber_encapsulate(&pk).unwrap();
    assert_eq!(ct.len(), 768);
    assert_eq!(ss.len(), 32);
    let sk = patterned(1632, 2);
    let other_ct = patterned(768, 3);
    assert_eq!(kyber_decapsulate(&sk, &other_ct).unwrap().len(), 32);
    assert_eq!(kyber_decapsulate(&vec![0u8; 1632], &vec![0u8; 768]).unwrap().len(), 32);
}

#[test]
fn kem_encapsulate_rejects_a_short_public_key() {
    let err = kyber_encapsulate(&[1u8, 2, 3]).unwrap_err();
    assert_eq!(err.argument, Argument::PublicKey);
    assert_eq!(bad_length(err.cause), ("PublicKey", 3, 800));
    assert_eq!(err.message(), "error: PublicKey expected 800 bytes, got 3");
}

#[test]
fn kem_encapsulate_rejects_public_keys_of_every_wrong_length() {
    let (pk, _sk) = kyber_keygen();
    for len in [0usize, 1, 799, 801, 1600, 1632] {
        let mut bytes = pk.clone();
        bytes.resize(len, 0);
        let err = kyber_encapsulate(&bytes).unwrap_err();
        assert_eq!(err.argument, Argument::PublicKey);
        assert_eq!(bad_length(err.cause), ("PublicKey", len, 800));
    }
}

#[test]
fn kem_decapsulate_rejects_a_malformed_secret_key() {
    let (pk, sk) = kyber_keygen();
    let (ct, _ss) = kyber_encapsulate(&pk).unwrap();
    for len in [0usize, 1631, 1633, 800] {
        let mut bytes = sk.clone();
        bytes.resize(len, 0);
        let err = kyber_decapsulate(&bytes, &ct).unwrap_err();
        assert_eq!(err.argument, Argument::SecretKey);
        assert_eq!(bad_length(err.cause), ("SecretKey", len, 1632));
    }
    let err = kyber_decapsulate(&sk[..1631], &ct).unwrap_err();
    assert_eq!(err.message(), "error: SecretKey expected 1632 bytes, got 1631");
}

#[test]
fn kem_decapsulate_rejects_a_malformed_ciphertext() {
    let (pk, sk) = kyber_keygen();
    let (ct, _ss) = kyber_encapsulate(&pk).unwrap();
    for len in [0usize, 767, 769, 32] {
        let mut bytes = ct.clone();
        bytes.resize(len, 0);
        let err = kyber_decapsulate(&sk, &bytes).unwrap_err();
        assert_eq!(err.argument, Argument::Ciphertext);
        assert_eq!(bad_length(err.cause), ("Ciphertext", len, 768));
    }
    let err = kyber_decapsulate(&sk, &ct[..767]).unwrap_err();
    assert_eq!(err.message(), "error: Ciphertext expected 768 bytes, got 767");
}

#[test]
fn kem_decapsulate_names_the_secret_key_where_both_are_malformed() {
    let err = kyber_decapsulate(&[0u8; 10], &[0u8; 20]).unwrap_err();
    assert_eq!(err.argument, Argument::SecretKey);
    assert_eq!(bad_length(err.cause), ("SecretKey", 10, 1632));
}

#[test]
fn kem_swapped_arguments_are_rejected() {
    let (pk, sk) = kyber_keygen();
    let (ct, _ss) = kyber_encapsulate(&pk).unwrap();
    let err = kyber_decapsulate(&ct, &sk).unwrap_err();
    assert_eq!(err.argument, Argument::SecretKey);
    assert_eq!(bad_length(err.cause), ("SecretKey", 768, 1632));
    let err = kyber_encapsulate(&sk).unwrap_err();
    assert_eq!(bad_length(err.cause), ("PublicKey", 1632, 800));
}

#[test]
fn kem_parsing_keeps_the_bytes() {
    let pk = patterned(800, 7);
    let sk = patterned(1632, 8);
    let ct = patterned(768, 9);
    let typed_pk = kyber_pk_from_bytes(&pk).unwrap();
    let typed_sk = kyber_sk_from_bytes(&sk).unwrap();
    let typed_ct = kyber_ct_from_bytes(&ct).unwrap();
    assert_eq!(typed_pk.as_bytes(), &pk[..]);
    assert_eq!(typed_sk.as_bytes(), &sk[..]);
    assert_eq!(typed_ct.as_bytes(), &ct[..]);
    assert_eq!(kyber_pk_to_bytes(&typed_pk), pk);
    assert_eq!(kyber_sk_to_bytes(&typed_sk), sk);
    assert_eq!(kyber_ct_to_bytes(&typed_ct), ct);
}

#[test]
fn kem_typed_values_give_their_own_bytes() {
    let (pk, sk) = kyber512::keypair();
    let (ss, ct) = kyber512::encapsulate(&pk);
    assert_eq!(kyber_pk_to_bytes(&pk), pk.as_bytes().to_vec());
    assert_eq!(kyber_sk_to_bytes(&sk), sk.as_bytes().to_vec());
    assert_eq!(kyber_ct_to_bytes(&ct), ct.as_bytes().to_vec());
    assert_eq!(kyber_ss_to_bytes(&ss), ss.as_bytes().to_vec());
    let fixed = kyber512::SharedSecret::from_bytes(&patterned(32, 5)).unwrap();
    assert_eq!(kyber_ss_to_bytes(&fixed), patterned(32, 5));
}

#[test]
fn kem_parsers_reject_wrong_lengths() {
    let err = kyber_pk_from_bytes(&patterned(801, 0)).err().unwrap();
    assert_eq!(err.argument, Argument::PublicKey);
    assert_eq!(bad_length(err.cause), ("PublicKey", 801, 800));
    let err = kyber_sk_from_bytes(&[]).err().unwrap();
    assert_eq!(err.argument, Argument::SecretKey);
    assert_eq!(bad_length(err.cause), ("SecretKey", 0, 1632));
    let err = kyber_ct_from_bytes(&patterned(800, 0)).err().unwrap();
    assert_eq!(err.argument, Argument::Ciphertext);
    assert_eq!(bad_length(err.cause), ("Ciphertext", 800, 768));
}

#[test]
fn kem_facade_and_primitive_interoperate() {
    let (pk, sk) = kyber_keygen();
    let typed_pk = kyber512::PublicKey::from_bytes(&pk).unwrap();
    let (ss, ct) = kyber512::encapsulate(&typed_pk);
    assert_eq!(kyber_decapsulate(&sk, ct.as_bytes()).unwrap(), ss.as_bytes().to_vec());
}
