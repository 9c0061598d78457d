use vstd::prelude::*;
use vstd::slice::slice_to_vec;
use zeroize::{Zeroize, Zeroizing};

verus! {

/// A byte buffer for secret material. Its bytes are overwritten with zeros
/// when it is dropped or wiped, and only its contents are visible from outside.
#[verifier::external_body]
#[derive(Debug)]
pub struct SecretBuffer {
    bytes: Zeroizing<Vec<u8>>,
}

/// The bytes that a secret buffer holds.
pub uninterp spec fn secret_contents(b: SecretBuffer) -> Seq<u8>;

/// Relies on `Zeroizing::new`: it moves the vector in unchanged.
#[verifier::external_body]
pub(crate) fn seal(v: Vec<u8>) -> (r: SecretBuffer)
    ensures
        secret_contents(r) == v@,
{
    SecretBuffer { bytes: Zeroizing::new(v) }
}

/// Relies on `Zeroizing`'s `Deref`: it hands out the vector it holds.
#[verifier::external_body]
fn unsealed(b: &SecretBuffer) -> (r: &[u8])
    ensures
        r@ == secret_contents(*b),
{
    b.bytes.as_slice()
}

/// Relies on `Zeroize::zeroize` for `Zeroizing<Vec<u8>>`: it overwrites the
/// elements and the spare capacity with zeros, then clears the vector.
#[verifier::external_body]
fn wipe(b: &mut SecretBuffer)
    ensures
        secret_contents(*final(b)) == Seq::<u8>::empty(),
{
    b.bytes.zeroize()
}

fn zeros(n: usize) -> (r: Vec<u8>)
    ensures
        r@ == Seq::new(n as nat, |i: int| 0u8),
{
    let mut v: Vec<u8> = Vec::new();
    let mut i: usize = 0;
    while i < n
        invariant
            i <= n,
            v@ == Seq::new(i as nat, |j: int| 0u8),
        decreases n - i,
    {
        v.push(0u8);
        i = i + 1;
        assert(v@ =~= Seq::new(i as nat, |j: int| 0u8));
    }
    v
}

/// Read access to key material and its erasure.
pub trait Key {
    /// The bytes that the key holds.
    spec fn key_bytes(&self) -> Seq<u8>;

    fn as_bytes(&self) -> (r: &[u8])
        ensures
            r@ == self.key_bytes(),
    ;

    /// Overwrites the key material with zeros and leaves the key empty.
    fn zeroize(&mut self)
        ensures
            final(self).key_bytes() == Seq::<u8>::empty(),
    ;
}

/// A private key. Its buffer is overwritten with zeros when it is dropped.
#[derive(Debug)]
pub struct PrivateKey(SecretBuffer);

impl View for PrivateKey {
    type V = Seq<u8>;

    closed spec fn view(&self) -> Seq<u8> {
        secret_contents(self.0)
    }
}

impl PrivateKey {
    /// A key of `slice` zero bytes.
    pub fn new(slice: usize) -> (r: Self)
        ensures
            r@ == Seq::new(slice as nat, |i: int| 0u8),
    {
        PrivateKey(seal(zeros(slice)))
    }

    /// A key holding a copy of `slice`.
    pub fn from_bytes(slice: &[u8]) -> (r: Self)
        ensures
            r@ == slice@,
    {
        PrivateKey(seal(slice_to_vec(slice)))
    }

    pub(crate) fn from_sealed(z: SecretBuffer) -> (r: Self)
        ensures
            r@ == secret_contents(z),
    {
        PrivateKey(z)
    }
}

impl Key for PrivateKey {
    open spec fn key_bytes(&self) -> Seq<u8> {
        self@
    }

    fn as_bytes(&self) -> (r: &[u8]) {
        unsealed(&self.0)
    }

    fn zeroize(&mut self) {
        wipe(&mut self.0);
    }
}

/// A signature. Its buffer is overwritten with zeros when it is dropped.
#[derive(Debug)]
pub struct Signature(SecretBuffer);

impl View for Signature {
    type V = Seq<u8>;

    closed spec fn view(&self) -> Seq<u8> {
        secret_contents(self.0)
    }
}

impl Signature {
    /// A signature holding a copy of `slice`.
    pub fn from_bytes(slice: &[u8]) -> (r: Self)
        ensures
            r@ == slice@,
    {
        Signature(seal(slice_to_vec(slice)))
    }

    pub fn as_bytes(&self) -> (r: &[u8])
        ensures
            r@ == self@,
    {
        unsealed(&self.0)
    }

    /// Overwrites the signature with zeros and leaves it empty.
    pub fn zeroize(&mut self)
        ensures
            final(self)@ == Seq::<u8>::empty(),
    {
        wipe(&mut self.0);
    }
}

/// A public key. Its buffer is overwritten with zeros when it is dropped.
#[derive(Debug)]
pub struct PublicKey(SecretBuffer);

impl View for PublicKey {
    type V = Seq<u8>;

    closed spec fn view(&self) -> Seq<u8> {
        secret_contents(self.0)
    }
}

impl PublicKey {
    /// A key of `slice` zero bytes.
    pub fn new(slice: usize) -> (r: Self)
        ensures
            r@ == Seq::new(slice as nat, |i: int| 0u8),
    {
        PublicKey(seal(zeros(slice)))
    }

    /// A key holding a copy of `slice`.
    pub fn from_bytes(slice: &[u8]) -> (r: Self)
        ensures
            r@ == slice@,
    {
        PublicKey(seal(slice_to_vec(slice)))
    }
}

impl Key for PublicKey {
    open spec fn key_bytes(&self) -> Seq<u8> {
        self@
    }

    fn as_bytes(&self) -> (r: &[u8]) {
        unsealed(&self.0)
    }

    fn zeroize(&mut self) {
        wipe(&mut self.0);
    }
}

} // verus!
