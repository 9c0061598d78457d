use stpc::{Ed25519, Falcon1024, Falcon512, Key, PrivateKey, SigningOperands, StpcError};

fn check_algorithm<A: SigningOperands>() {
    let (priv_key, pub_key) = A::keypair().expect("Keypair generation failed");

    let message = b"Hello, STPC!";

    let signature = A::sign(message, &priv_key).expect("Signing failed");

    let verified = A::verify(message, &pub_key, &signature).expect("Verification failed");
    assert!(verified, "Signature should be valid");

    let tampered = b"Hello, STPC?";
    let verified = A::verify(tampered, &pub_key, &signature).unwrap_or(false);
    assert!(!verified, "Tampered message should not verify");
}

#[test]
fn crypto_test_test_ed25519() {
    check_algorithm::<Ed25519>();
}

#[test]
fn crypto_test_test_falcon512() {
    check_algorithm::<Falcon512>();
}

#[test]
fn crypto_test_test_falcon1024() {
    check_algorithm::<Falcon1024>();
}

#[test]
fn key_lengths_follow_the_algorithm() {
    let (sk, pk) = Ed25519::keypair().unwrap();
    assert_eq!((sk.as_bytes().len(), pk.as_bytes().len()), (32, 32));
    let (sk, pk) = Falcon512::keypair().unwrap();
    assert_eq!((sk.as_bytes().len(), pk.as_bytes().len()), (1281, 897));
    let (sk, pk) = Falcon1024::keypair().unwrap();
    assert_eq!((sk.as_bytes().len(), pk.as_bytes().len()), (2305, 1793));
}

#[test]
fn ed25519_signatures_are_64_bytes_and_deterministic() {
    let (sk, _) = Ed25519::keypair().unwrap();
    let a = Ed25519::sign(b"m", &sk).unwrap();
    let b = Ed25519::sign(b"m", &sk).unwrap();
    assert_eq!(a.as_bytes().len(), 64);
    assert_eq!(a.as_bytes(), b.as_bytes());
}

#[test]
fn signing_with_a_key_of_the_wrong_length_fails() {
    let short = PrivateKey::new(31);
    assert!(matches!(Ed25519::sign(b"m", &short), Err(StpcError::SignatureComputingError(_))));
    assert!(matches!(Falcon512::sign(b"m", &short), Err(StpcError::SignatureComputingError(_))));
    assert!(matches!(Falcon1024::sign(b"m", &short), Err(StpcError::SignatureComputingError(_))));
}

#[test]
fn signatures_do_not_cross_algorithms() {
    let msg = b"cross";
    let (ed_sk, ed_pk) = Ed25519::keypair().unwrap();
    let (f5_sk, f5_pk) = Falcon512::keypair().unwrap();
    let (f10_sk, f10_pk) = Falcon1024::keypair().unwrap();
    let ed_sig = Ed25519::sign(msg, &ed_sk).unwrap();
    let f5_sig = Falcon512::sign(msg, &f5_sk).unwrap();
    let f10_sig = Falcon1024::sign(msg, &f10_sk).unwrap();

    assert!(matches!(Falcon512::verify(msg, &f5_pk, &ed_sig), Err(StpcError::SignatureVerifyError)));
    assert!(matches!(Falcon1024::verify(msg, &f10_pk, &ed_sig), Err(StpcError::SignatureVerifyError)));
    assert!(matches!(Ed25519::verify(msg, &ed_pk, &f5_sig), Err(StpcError::SignatureVerifyError)));
    assert!(matches!(Falcon1024::verify(msg, &f10_pk, &f5_sig), Err(StpcError::SignatureVerifyError)));
    assert!(matches!(Ed25519::verify(msg, &ed_pk, &f10_sig), Err(StpcError::SignatureVerifyError)));
    assert!(matches!(Falcon512::verify(msg, &f5_pk, &f10_sig), Err(StpcError::SignatureVerifyError)));
}

#[test]
fn verification_under_another_key_fails() {
    let (sk, _) = Ed25519::keypair().unwrap();
    let (_, other_pk) = Ed25519::keypair().unwrap();
    let sig = Ed25519::sign(b"m", &sk).unwrap();
    assert!(matches!(Ed25519::verify(b"m", &other_pk, &sig), Err(StpcError::SignatureVerifyError)));
}

#[test]
fn falcon_refuses_a_key_that_does_not_decode() {
    let zeros = PrivateKey::from_bytes(&[0u8; 1281]);
    assert!(matches!(Falcon512::sign(b"m", &zeros), Err(StpcError::SignatureComputingError(_))));
    let zeros = PrivateKey::from_bytes(&[0u8; 2305]);
    assert!(matches!(Falcon1024::sign(b"m", &zeros), Err(StpcError::SignatureComputingError(_))));
}

#[test]
fn falcon_signatures_carry_their_header_byte() {
    let (sk, _) = Falcon512::keypair().unwrap();
    assert_eq!(Falcon512::sign(b"m", &sk).unwrap().as_bytes()[0], 0x39);
    let (sk, _) = Falcon1024::keypair().unwrap();
    assert_eq!(Falcon1024::sign(b"m", &sk).unwrap().as_bytes()[0], 0x3A);
}
