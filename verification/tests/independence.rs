use pq_facade::kem::{kyber_decapsulate, kyber_encapsulate, kyber_keygen};
use pq_facade::signature::{falcon_keygen, falcon_sign, falcon_verify};

#[test]
fn modules_do_not_accept_each_others_keys() {
    let (kem_pk, kem_sk) = kyber_keygen();
    let (sig_pk, sig_sk) = falcon_keygen();
    assert!(kyber_encapsulate(&sig_pk).is_err());
    assert!(falcon_sign(&kem_sk, b"message").is_err());
    assert!(falcon_verify(&kem_pk, b"message", &[]).is_err());
    assert!(kyber_decapsulate(&sig_sk, &[0u8; 768]).is_err());
}

#[test]
fn interleaved_calls_do_not_disturb_each_other() {
    let (kem_pk, kem_sk) = kyber_keygen();
    let (ct, ss) = kyber_encapsulate(&kem_pk).unwrap();
    let (sig_pk, sig_sk) = falcon_keygen();
    let sig = falcon_sign(&sig_sk, b"message").unwrap();
    let _ = kyber_keygen();
    let _ = kyber_encapsulate(&kem_pk).unwrap();
    let _ = falcon_sign(&sig_sk, b"another").unwrap();
    let _ = kyber_decapsulate(&kem_sk, &[0u8; 1]);
    assert_eq!(kyber_decapsulate(&kem_sk, &ct).unwrap(), ss);
    assert_eq!(falcon_verify(&sig_pk, b"message", &sig).unwrap(), true);
}

#[test]
fn repeated_calls_on_the_same_inputs_agree() {
    let (kem_pk, kem_sk) = kyber_keygen();
    let (ct, ss) = kyber_encapsulate(&kem_pk).unwrap();
    let (sig_pk, sig_sk) = falcon_keygen();
    let sig = falcon_sign(&sig_sk, b"message").unwrap();
    for round in 0..8u8 {
        let (pk, sk) = kyber_keygen();
        let (own_ct, own_ss) = kyber_encapsulate(&pk).unwrap();
        assert_eq!(kyber_decapsulate(&sk, &own_ct).unwrap(), own_ss);
        let (fpk, fsk) = falcon_keygen();
        let message = vec![round; 64];
        let own_sig = falcon_sign(&fsk, &message).unwrap();
        assert_eq!(falcon_verify(&fpk, &message, &own_sig).unwrap(), true);
        assert_eq!(kyber_decapsulate(&kem_sk, &ct).unwrap(), ss);
        assert_eq!(falcon_verify(&sig_pk, b"message", &sig).unwrap(), true);
        assert_eq!(falcon_verify(&sig_pk, &message, &sig).unwrap(), false);
    }
}
