use stpc::{Key, PrivateKey, PublicKey, Signature};

#[test]
fn test_private_key_length() {
    let pk = PrivateKey::new(32);
    assert_eq!(pk.as_bytes().len(), 32);
}

#[test]
fn test_public_key_dummy() {
    let pk = PublicKey::from_bytes(&[1u8; 32]);
    assert_eq!(pk.as_bytes().len(), 32);
}

#[test]
fn new_keys_hold_zeros() {
    assert_eq!(PrivateKey::new(4).as_bytes(), &[0u8; 4]);
    assert_eq!(PublicKey::new(3).as_bytes(), &[0u8; 3]);
}

#[test]
fn containers_hold_a_copy_of_their_bytes() {
    let bytes = [5u8, 6, 7];
    assert_eq!(PrivateKey::from_bytes(&bytes).as_bytes(), &bytes);
    assert_eq!(Signature::from_bytes(&bytes).as_bytes(), &bytes);
}

#[test]
fn zeroize_erases_key_material() {
    let mut sk = PrivateKey::from_bytes(&[9u8; 32]);
    sk.zeroize();
    assert!(sk.as_bytes().is_empty());

    let mut pk = PublicKey::from_bytes(&[9u8; 32]);
    pk.zeroize();
    assert!(pk.as_bytes().is_empty());

    let mut sig = Signature::from_bytes(&[9u8; 64]);
    sig.zeroize();
    assert!(sig.as_bytes().is_empty());
}
