use vstd::prelude::*;

use ed25519_dalek::{Signer, Verifier};
use pqcrypto_falcon::falcon1024;
use pqcrypto_falcon::falcon1024::DetachedSignature as Falcon1024Signature;
use pqcrypto_falcon::falcon1024::PublicKey as Falcon1024PublicKey;
use pqcrypto_falcon::falcon1024::SecretKey as Falcon1024SecretKey;
use pqcrypto_falcon::falcon512;
use pqcrypto_falcon::falcon512::DetachedSignature as Falcon512Signature;
use pqcrypto_falcon::falcon512::PublicKey as Falcon512PublicKey;
use pqcrypto_falcon::falcon512::SecretKey as Falcon512SecretKey;
use pqcrypto_traits::sign::{
    DetachedSignature as FalconSignatureBytes, PublicKey as FalconPublicKeyBytes,
    SecretKey as FalconSecretKeyBytes,
};

use crate::error::StpcError;
use crate::keys::{seal, Key, PrivateKey, PublicKey, Signature};

verus! {

// ---------------------------------------------------------------------------
// Names for what the outside algorithms compute
// ---------------------------------------------------------------------------

/// The Ed25519 public key of a 32-byte secret key.
pub uninterp spec fn ed25519_public_of(sk: Seq<u8>) -> Seq<u8>;

/// The Ed25519 signature of a message under a 32-byte secret key.
pub uninterp spec fn ed25519_signature_of(sk: Seq<u8>, msg: Seq<u8>) -> Seq<u8>;

/// Whether Ed25519 accepts a signature of a message under a public key.
pub uninterp spec fn ed25519_accepts(pk: Seq<u8>, msg: Seq<u8>, sig: Seq<u8>) -> bool;

/// The Falcon-512 public key that belongs to a secret key.
pub uninterp spec fn falcon512_public_of(sk: Seq<u8>) -> Seq<u8>;

/// Whether Falcon-512 accepts a signature of a message under a public key.
pub uninterp spec fn falcon512_accepts(pk: Seq<u8>, msg: Seq<u8>, sig: Seq<u8>) -> bool;

/// The Falcon-1024 public key that belongs to a secret key.
pub uninterp spec fn falcon1024_public_of(sk: Seq<u8>) -> Seq<u8>;

/// Whether Falcon-1024 accepts a signature of a message under a public key.
pub uninterp spec fn falcon1024_accepts(pk: Seq<u8>, msg: Seq<u8>, sig: Seq<u8>) -> bool;

/// The first byte of every Falcon-512 signature.
pub const FALCON512_HEADER: u8 = 0x39;

/// The first byte of every Falcon-1024 signature.
pub const FALCON1024_HEADER: u8 = 0x3A;

pub const FALCON512_SECRET_KEY_LEN: usize = 1281;

pub const FALCON512_PUBLIC_KEY_LEN: usize = 897;

pub const FALCON512_MAX_SIGNATURE_LEN: usize = 752;

pub const FALCON1024_SECRET_KEY_LEN: usize = 2305;

pub const FALCON1024_PUBLIC_KEY_LEN: usize = 1793;

pub const FALCON1024_MAX_SIGNATURE_LEN: usize = 1462;

// ---------------------------------------------------------------------------
// Ed25519 calls
// ---------------------------------------------------------------------------

/// Relies on `RngCore::try_fill_bytes` of `rand`'s `OsRng`: `n` bytes from the
/// operating system's secure random source, `None` where that source fails.
/// Nothing is promised of the values. (An Ed25519 secret key is 32 such bytes,
/// as `SigningKey::generate` draws it.)
#[verifier::external_body]
fn os_random_bytes(n: usize) -> (r: Option<Vec<u8>>)
    ensures
        r matches Some(v) ==> v@.len() == n,
{
    let mut bytes = vec![0u8; n];
    match rand::RngCore::try_fill_bytes(&mut rand::rngs::OsRng, &mut bytes) {
        Ok(()) => Some(bytes),
        Err(_) => None,
    }
}

/// Relies on `SigningKey::verifying_key`: the 32-byte public key of a secret
/// key, a function of its bytes.
#[verifier::external_body]
fn ed25519_public_key(sk: &[u8]) -> (r: Vec<u8>)
    requires
        sk@.len() == 32,
    ensures
        r@.len() == 32,
        r@ == ed25519_public_of(sk@),
{
    let bytes: [u8; 32] = sk.try_into().unwrap();
    ed25519_dalek::SigningKey::from_bytes(&bytes).verifying_key().to_bytes().to_vec()
}

/// Relies on `Signer::sign` for `SigningKey`: the 64-byte signature, a
/// function of key and message, which the matching public key accepts.
#[verifier::external_body]
fn ed25519_sign(sk: &[u8], msg: &[u8]) -> (r: Vec<u8>)
    requires
        sk@.len() == 32,
    ensures
        r@.len() == 64,
        r@ == ed25519_signature_of(sk@, msg@),
        ed25519_accepts(ed25519_public_of(sk@), msg@, r@),
{
    let bytes: [u8; 32] = sk.try_into().unwrap();
    ed25519_dalek::SigningKey::from_bytes(&bytes).sign(msg).to_bytes().to_vec()
}

/// Relies on `VerifyingKey::from_bytes` and `Verifier::verify`: whether the
/// key is a valid point and the signature is valid for the message under it.
#[verifier::external_body]
fn ed25519_verify(pk: &[u8], msg: &[u8], sig: &[u8]) -> (r: bool)
    requires
        pk@.len() == 32,
        sig@.len() == 64,
    ensures
        r == ed25519_accepts(pk@, msg@, sig@),
{
    let key: [u8; 32] = pk.try_into().unwrap();
    let bytes: [u8; 64] = sig.try_into().unwrap();
    match ed25519_dalek::VerifyingKey::from_bytes(&key) {
        Ok(k) => k.verify(msg, &ed25519_dalek::Signature::from_bytes(&bytes)).is_ok(),
        Err(_) => false,
    }
}

// ---------------------------------------------------------------------------
// Falcon calls
// ---------------------------------------------------------------------------

/// Relies on `falcon512::keypair`: a 1281-byte secret key and the 897-byte
/// public key that belongs to it.
#[verifier::external_body]
fn falcon512_keypair() -> (r: (Vec<u8>, Vec<u8>))
    ensures
        r.0@.len() == 1281,
        r.1@.len() == 897,
        r.1@ == falcon512_public_of(r.0@),
{
    let (pk, sk) = falcon512::keypair();
    (sk.as_bytes().to_vec(), pk.as_bytes().to_vec())
}

/// Relies on `falcon512::detached_sign`: a signature of at most 752 bytes that
/// starts with the header byte and a 40-byte nonce, and that the matching
/// public key accepts. Where the secret key does not decode, the signer gives
/// up and the signature it hands back is empty: that is `None` here.
#[verifier::external_body]
fn falcon512_sign(msg: &[u8], sk: &[u8]) -> (r: Option<Vec<u8>>)
    requires
        sk@.len() == 1281,
    ensures
        r matches Some(s) ==> 41 <= s@.len() <= 752 && s@[0] == FALCON512_HEADER && falcon512_accepts(
            falcon512_public_of(sk@),
            msg@,
            s@,
        ),
{
    let key = Falcon512SecretKey::from_bytes(sk).unwrap();
    let signature = falcon512::detached_sign(msg, &key);
    match signature.as_bytes() {
        [] => None,
        bytes => Some(bytes.to_vec()),
    }
}

/// Relies on `falcon512::verify_detached_signature`: whether the signature is
/// valid for the message; it refuses one shorter than 41 bytes or without the
/// header byte.
#[verifier::external_body]
fn falcon512_verify(pk: &[u8], msg: &[u8], sig: &[u8]) -> (r: bool)
    requires
        pk@.len() == 897,
        sig@.len() <= 752,
    ensures
        r == falcon512_accepts(pk@, msg@, sig@),
        r ==> sig@.len() >= 41 && sig@[0] == FALCON512_HEADER,
{
    let key = Falcon512PublicKey::from_bytes(pk).unwrap();
    let signature = Falcon512Signature::from_bytes(sig).unwrap();
    falcon512::verify_detached_signature(&signature, msg, &key).is_ok()
}

/// Relies on `falcon1024::keypair`: a 2305-byte secret key and the 1793-byte
/// public key that belongs to it.
#[verifier::external_body]
fn falcon1024_keypair() -> (r: (Vec<u8>, Vec<u8>))
    ensures
        r.0@.len() == 2305,
        r.1@.len() == 1793,
        r.1@ == falcon1024_public_of(r.0@),
{
    let (pk, sk) = falcon1024::keypair();
    (sk.as_bytes().to_vec(), pk.as_bytes().to_vec())
}

/// Relies on `falcon1024::detached_sign`: a signature of at most 1462 bytes that
/// starts with the header byte and a 40-byte nonce, and that the matching
/// public key accepts. Where the secret key does not decode, the signer gives
/// up and the signature it hands back is empty: that is `None` here.
#[verifier::external_body]
fn falcon1024_sign(msg: &[u8], sk: &[u8]) -> (r: Option<Vec<u8>>)
    requires
        sk@.len() == 2305,
    ensures
        r matches Some(s) ==> 41 <= s@.len() <= 1462 && s@[0] == FALCON1024_HEADER && falcon1024_accepts(
            falcon1024_public_of(sk@),
            msg@,
            s@,
        ),
{
    let key = Falcon1024SecretKey::from_bytes(sk).unwrap();
    let signature = falcon1024::detached_sign(msg, &key);
    match signature.as_bytes() {
        [] => None,
        bytes => Some(bytes.to_vec()),
    }
}

/// Relies on `falcon1024::verify_detached_signature`: whether the signature is
/// valid for the message; it refuses one shorter than 41 bytes or without the
/// header byte.
#[verifier::external_body]
fn falcon1024_verify(pk: &[u8], msg: &[u8], sig: &[u8]) -> (r: bool)
    requires
        pk@.len() == 1793,
        sig@.len() <= 1462,
    ensures
        r == falcon1024_accepts(pk@, msg@, sig@),
        r ==> sig@.len() >= 41 && sig@[0] == FALCON1024_HEADER,
{
    let key = Falcon1024PublicKey::from_bytes(pk).unwrap();
    let signature = Falcon1024Signature::from_bytes(sig).unwrap();
    falcon1024::verify_detached_signature(&signature, msg, &key).is_ok()
}

// ---------------------------------------------------------------------------
// The signing contract
// ---------------------------------------------------------------------------

/// Key generation, signing and verification for one signature algorithm.
pub trait SigningOperands {
    /// The length of the algorithm's private keys.
    spec fn private_key_len() -> nat;

    /// The length of the algorithm's public keys.
    spec fn public_key_len() -> nat;

    /// Whether a signature of `n` bytes has an admissible length.
    spec fn signature_len_ok(n: nat) -> bool;

    /// The public key that belongs to a private key.
    spec fn public_of(sk: Seq<u8>) -> Seq<u8>;

    /// Whether the algorithm's verifier accepts a signature.
    spec fn accepts(pk: Seq<u8>, msg: Seq<u8>, sig: Seq<u8>) -> bool;

    /// The one signature that signing gives, where signing is deterministic.
    spec fn fixed_signature(sk: Seq<u8>, msg: Seq<u8>) -> Option<Seq<u8>>;

    /// Whether every key of the right length signs; otherwise the underlying
    /// signer may refuse a key whose contents do not decode.
    spec fn signs_every_key() -> bool;

    /// A fresh key pair; the public key is the one that belongs to the
    /// private key. Fails only where the random source fails.
    fn keypair() -> (r: Result<(PrivateKey, PublicKey), StpcError>)
        ensures
            match r {
                Ok((sk, pk)) => sk@.len() == Self::private_key_len() && pk@.len()
                    == Self::public_key_len() && pk@ == Self::public_of(sk@),
                Err(e) => e is KeyGenerationError,
            },
    ;

    /// A signature that the matching public key accepts; a signing error
    /// where the key has the wrong length, or its contents do not decode.
    fn sign(message: &[u8], private_key: &PrivateKey) -> (r: Result<Signature, StpcError>)
        ensures
            r is Ok ==> private_key@.len() == Self::private_key_len(),
            Self::signs_every_key() && private_key@.len() == Self::private_key_len() ==> r is Ok,
            match r {
                Ok(s) => Self::signature_len_ok(s@.len()) && Self::accepts(
                    Self::public_of(private_key@),
                    message@,
                    s@,
                ) && (Self::fixed_signature(private_key@, message@) matches Some(f) ==> s@ == f),
                Err(e) => e is SignatureComputingError,
            },
    ;

    /// `Ok(true)` exactly where key and signature have admissible lengths and
    /// the verifier accepts; a verification error otherwise.
    fn verify(message: &[u8], public_key: &PublicKey, signature: &Signature) -> (r: Result<
        bool,
        StpcError,
    >)
        ensures
            r is Ok <==> public_key@.len() == Self::public_key_len() && Self::signature_len_ok(
                signature@.len(),
            ) && Self::accepts(public_key@, message@, signature@),
            match r {
                Ok(b) => b,
                Err(e) => e is SignatureVerifyError,
            },
    ;
}

/// A Falcon-512 signature fails under Falcon-1024 and the reverse: each
/// verifier accepts only signatures with its own header byte.
pub proof fn lemma_falcon_variants_do_not_cross(pk: Seq<u8>, msg: Seq<u8>, sig: Seq<u8>)
    ensures
        Falcon512::accepts(pk, msg, sig) ==> !Falcon1024::accepts(pk, msg, sig),
        Falcon1024::accepts(pk, msg, sig) ==> !Falcon512::accepts(pk, msg, sig),
{
}

/// Ed25519 signing is deterministic: one key and one message give one
/// signature.
pub proof fn lemma_ed25519_deterministic(sk: Seq<u8>, msg: Seq<u8>, s1: Seq<u8>, s2: Seq<u8>)
    requires
        Ed25519::fixed_signature(sk, msg) matches Some(f) && s1 == f,
        Ed25519::fixed_signature(sk, msg) matches Some(f) && s2 == f,
    ensures
        s1 == s2,
{
}

fn bad_key() -> (r: StpcError)
    ensures
        r is SignatureComputingError,
{
    StpcError::SignatureComputingError("private key has the wrong length".to_string())
}

/// The Ed25519 signature scheme.
pub struct Ed25519 {}

/// The Falcon-512 signature scheme.
pub struct Falcon512 {}

/// The Falcon-1024 signature scheme.
pub struct Falcon1024 {}

impl SigningOperands for Ed25519 {
    open spec fn private_key_len() -> nat {
        32
    }

    open spec fn public_key_len() -> nat {
        32
    }

    open spec fn signature_len_ok(n: nat) -> bool {
        n == 64
    }

    open spec fn public_of(sk: Seq<u8>) -> Seq<u8> {
        ed25519_public_of(sk)
    }

    open spec fn accepts(pk: Seq<u8>, msg: Seq<u8>, sig: Seq<u8>) -> bool {
        ed25519_accepts(pk, msg, sig)
    }

    open spec fn fixed_signature(sk: Seq<u8>, msg: Seq<u8>) -> Option<Seq<u8>> {
        Some(ed25519_signature_of(sk, msg))
    }

    open spec fn signs_every_key() -> bool {
        true
    }

    fn keypair() -> (r: Result<(PrivateKey, PublicKey), StpcError>) {
        let secret = match os_random_bytes(32) {
            Some(b) => b,
            None => return Err(
                StpcError::KeyGenerationError("the random source failed".to_string()),
            ),
        };
        let public = ed25519_public_key(secret.as_slice());
        Ok((PrivateKey::from_sealed(seal(secret)), PublicKey::from_bytes(public.as_slice())))
    }

    fn sign(message: &[u8], private_key: &PrivateKey) -> (r: Result<Signature, StpcError>) {
        let bytes = private_key.as_bytes();
        if bytes.len() != 32 {
            return Err(bad_key());
        }
        Ok(Signature::from_bytes(ed25519_sign(bytes, message).as_slice()))
    }

    fn verify(message: &[u8], public_key: &PublicKey, signature: &Signature) -> (r: Result<
        bool,
        StpcError,
    >) {
        let key_bytes = public_key.as_bytes();
        let sig_bytes = signature.as_bytes();
        if key_bytes.len() != 32 || sig_bytes.len() != 64 {
            return Err(StpcError::SignatureVerifyError);
        }
        if ed25519_verify(key_bytes, message, sig_bytes) {
            Ok(true)
        } else {
            Err(StpcError::SignatureVerifyError)
        }
    }
}

impl SigningOperands for Falcon512 {
    open spec fn private_key_len() -> nat {
        1281
    }

    open spec fn public_key_len() -> nat {
        897
    }

    open spec fn signature_len_ok(n: nat) -> bool {
        n <= 752
    }

    open spec fn public_of(sk: Seq<u8>) -> Seq<u8> {
        falcon512_public_of(sk)
    }

    open spec fn accepts(pk: Seq<u8>, msg: Seq<u8>, sig: Seq<u8>) -> bool {
        sig.len() >= 41 && sig[0] == FALCON512_HEADER && falcon512_accepts(pk, msg, sig)
    }

    open spec fn fixed_signature(sk: Seq<u8>, msg: Seq<u8>) -> Option<Seq<u8>> {
        None
    }

    open spec fn signs_every_key() -> bool {
        false
    }

    fn keypair() -> (r: Result<(PrivateKey, PublicKey), StpcError>) {
        let (secret, public) = falcon512_keypair();
        Ok((PrivateKey::from_sealed(seal(secret)), PublicKey::from_bytes(public.as_slice())))
    }

    fn sign(message: &[u8], private_key: &PrivateKey) -> (r: Result<Signature, StpcError>) {
        let bytes = private_key.as_bytes();
        if bytes.len() != FALCON512_SECRET_KEY_LEN {
            return Err(bad_key());
        }
        match falcon512_sign(message, bytes) {
            Some(sig) => Ok(Signature::from_bytes(sig.as_slice())),
            None => Err(
                StpcError::SignatureComputingError("the private key does not decode".to_string()),
            ),
        }
    }

    fn verify(message: &[u8], public_key: &PublicKey, signature: &Signature) -> (r: Result<
        bool,
        StpcError,
    >) {
        let key_bytes = public_key.as_bytes();
        let sig_bytes = signature.as_bytes();
        if key_bytes.len() != FALCON512_PUBLIC_KEY_LEN || sig_bytes.len() > FALCON512_MAX_SIGNATURE_LEN {
            return Err(StpcError::SignatureVerifyError);
        }
        if falcon512_verify(key_bytes, message, sig_bytes) {
            Ok(true)
        } else {
            Err(StpcError::SignatureVerifyError)
        }
    }
}

impl SigningOperands for Falcon1024 {
    open spec fn private_key_len() -> nat {
        2305
    }

    open spec fn public_key_len() -> nat {
        1793
    }

    open spec fn signature_len_ok(n: nat) -> bool {
        n <= 1462
    }

    open spec fn public_of(sk: Seq<u8>) -> Seq<u8> {
        falcon1024_public_of(sk)
    }

    open spec fn accepts(pk: Seq<u8>, msg: Seq<u8>, sig: Seq<u8>) -> bool {
        sig.len() >= 41 && sig[0] == FALCON1024_HEADER && falcon1024_accepts(pk, msg, sig)
    }

    open spec fn fixed_signature(sk: Seq<u8>, msg: Seq<u8>) -> Option<Seq<u8>> {
        None
    }

    open spec fn signs_every_key() -> bool {
        false
    }

    fn keypair() -> (r: Result<(PrivateKey, PublicKey), StpcError>) {
        let (secret, public) = falcon1024_keypair();
        Ok((PrivateKey::from_sealed(seal(secret)), PublicKey::from_bytes(public.as_slice())))
    }

    fn sign(message: &[u8], private_key: &PrivateKey) -> (r: Result<Signature, StpcError>) {
        let bytes = private_key.as_bytes();
        if bytes.len() != FALCON1024_SECRET_KEY_LEN {
            return Err(bad_key());
        }
        match falcon1024_sign(message, bytes) {
            Some(sig) => Ok(Signature::from_bytes(sig.as_slice())),
            None => Err(
                StpcError::SignatureComputingError("the private key does not decode".to_string()),
            ),
        }
    }

    fn verify(message: &[u8], public_key: &PublicKey, signature: &Signature) -> (r: Result<
        bool,
        StpcError,
    >) {
        let key_bytes = public_key.as_bytes();
        let sig_bytes = signature.as_bytes();
        if key_bytes.len() != FALCON1024_PUBLIC_KEY_LEN || sig_bytes.len() > FALCON1024_MAX_SIGNATURE_LEN {
            return Err(StpcError::SignatureVerifyError);
        }
        if falcon1024_verify(key_bytes, message, sig_bytes) {
            Ok(true)
        } else {
            Err(StpcError::SignatureVerifyError)
        }
    }
}

} // verus!
