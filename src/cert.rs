use vstd::prelude::*;
use vstd::slice::slice_to_vec;
use vstd::utf8::{decode_utf8, encode_utf8, valid_utf8};

use crate::error::StpcError;
use crate::tlv::{
    borrowed_blocks, owned_blocks, reports_overrun, tlv_decoding, tlv_encoding, BlockView,
    TLVParser, TLV,
};

verus! {

broadcast use vstd::utf8::encode_utf8_valid_utf8, vstd::utf8::encode_utf8_decode_utf8;

// ---------------------------------------------------------------------------
// Enumerations and their wire codes
// ---------------------------------------------------------------------------

/// The certificate format version.
#[derive(Debug, Clone, Copy, PartialEq, Eq, Structural)]
pub enum CertificateVersion {
    V1,
}

/// The signature scheme a certificate is signed with.
#[derive(Debug, Clone, Copy, PartialEq, Eq, Structural)]
pub enum SignatureAlgorithm {
    Ed25519,
    Falcon512,
    Falcon1024,
}

pub open spec fn algorithm_code(a: SignatureAlgorithm) -> u8 {
    match a {
        SignatureAlgorithm::Ed25519 => 1,
        SignatureAlgorithm::Falcon512 => 2,
        SignatureAlgorithm::Falcon1024 => 3,
    }
}

/// The algorithm that a one-byte field names, if any.
pub open spec fn algorithm_field(b: Seq<u8>) -> Option<SignatureAlgorithm> {
    if b == seq![1u8] {
        Some(SignatureAlgorithm::Ed25519)
    } else if b == seq![2u8] {
        Some(SignatureAlgorithm::Falcon512)
    } else if b == seq![3u8] {
        Some(SignatureAlgorithm::Falcon1024)
    } else {
        None
    }
}

pub(crate) proof fn lemma_algorithm_code(a: SignatureAlgorithm)
    ensures
        algorithm_field(seq![algorithm_code(a)]) == Some(a),
{
    match a {
        SignatureAlgorithm::Ed25519 => assert(seq![algorithm_code(a)] =~= seq![1u8]),
        SignatureAlgorithm::Falcon512 => {
            assert(seq![algorithm_code(a)] =~= seq![2u8]);
            assert(seq![2u8] != seq![1u8]) by {
                assert(seq![2u8][0] != seq![1u8][0]);
            }
        },
        SignatureAlgorithm::Falcon1024 => {
            assert(seq![algorithm_code(a)] =~= seq![3u8]);
            assert(seq![3u8] != seq![1u8]) by {
                assert(seq![3u8][0] != seq![1u8][0]);
            }
            assert(seq![3u8] != seq![2u8]) by {
                assert(seq![3u8][0] != seq![2u8][0]);
            }
        },
    }
}

pub(crate) fn algorithm_to_code(a: SignatureAlgorithm) -> (r: u8)
    ensures
        r == algorithm_code(a),
{
    match a {
        SignatureAlgorithm::Ed25519 => 1,
        SignatureAlgorithm::Falcon512 => 2,
        SignatureAlgorithm::Falcon1024 => 3,
    }
}

pub(crate) fn algorithm_from_field(b: &Vec<u8>) -> (r: Option<SignatureAlgorithm>)
    ensures
        r == algorithm_field(b@),
{
    if b.len() != 1 {
        assert(b@ != seq![1u8] && b@ != seq![2u8] && b@ != seq![3u8]);
        return None;
    }
    let c = b[0];
    if c == 1 {
        assert(b@ =~= seq![1u8]);
        Some(SignatureAlgorithm::Ed25519)
    } else if c == 2 {
        assert(b@ =~= seq![2u8]);
        Some(SignatureAlgorithm::Falcon512)
    } else if c == 3 {
        assert(b@ =~= seq![3u8]);
        Some(SignatureAlgorithm::Falcon1024)
    } else {
        assert(b@ != seq![1u8] && b@ != seq![2u8] && b@ != seq![3u8]);
        None
    }
}

// ---------------------------------------------------------------------------
// Looking fields up among decoded blocks
// ---------------------------------------------------------------------------

/// The value of the first block with tag `t`; later blocks with the same tag
/// and blocks with other tags are passed over.
pub open spec fn lookup(bs: Seq<BlockView>, t: u8) -> Option<Seq<u8>>
    decreases bs.len(),
{
    if bs.len() == 0 {
        None
    } else if bs[0].0 == t {
        Some(bs[0].1)
    } else {
        lookup(bs.drop_first(), t)
    }
}

/// The value that `decode` gives for a field, where the field is present.
pub open spec fn nested<T>(b: Option<Seq<u8>>, decode: spec_fn(Seq<u8>) -> Option<T>) -> Option<T> {
    match b {
        Some(v) => decode(v),
        None => None,
    }
}

pub(crate) proof fn lemma_lookup_concat(a: Seq<BlockView>, b: Seq<BlockView>)
    ensures
        forall|t: u8|
            #[trigger] lookup(a + b, t) == match lookup(a, t) {
                Some(v) => Some(v),
                None => lookup(b, t),
            },
    decreases a.len(),
{
    if a.len() > 0 {
        lemma_lookup_concat(a.drop_first(), b);
    }
    assert forall|t: u8|
        #[trigger] lookup(a + b, t) == match lookup(a, t) {
            Some(v) => Some(v),
            None => lookup(b, t),
        } by {
        if a.len() == 0 {
            assert(a + b =~= b);
            assert(lookup(a, t) is None);
        } else {
            assert((a + b).drop_first() =~= a.drop_first() + b);
            assert((a + b)[0] == a[0]);
            if a[0].0 == t {
                assert(lookup(a, t) == Some(a[0].1));
                assert(lookup(a + b, t) == Some(a[0].1));
            } else {
                assert(lookup(a, t) == lookup(a.drop_first(), t));
                assert(lookup(a + b, t) == lookup(a.drop_first() + b, t));
            }
        }
    }
}

pub(crate) fn find_block<'a>(blocks: &'a Vec<(u8, Vec<u8>)>, tag: u8) -> (r: Option<&'a Vec<u8>>)
    ensures
        match r {
            Some(v) => lookup(owned_blocks(blocks@), tag) == Some(v@),
            None => lookup(owned_blocks(blocks@), tag) is None,
        },
{
    let ghost bs = owned_blocks(blocks@);
    let mut i: usize = 0;
    assert(bs.subrange(0, bs.len() as int) =~= bs);
    while i < blocks.len()
        invariant
            bs == owned_blocks(blocks@),
            i <= blocks@.len(),
            lookup(bs, tag) == lookup(bs.subrange(i as int, bs.len() as int), tag),
        decreases blocks@.len() - i,
    {
        let ghost rest = bs.subrange(i as int, bs.len() as int);
        assert(rest[0] == bs[i as int]);
        if blocks[i].0 == tag {
            return Some(&blocks[i].1);
        }
        assert(rest.drop_first() =~= bs.subrange(i + 1, bs.len() as int));
        i = i + 1;
    }
    assert(bs.subrange(i as int, bs.len() as int).len() == 0);
    None
}

// ---------------------------------------------------------------------------
// Text and byte helpers
// ---------------------------------------------------------------------------

/// Relies on `String::from_utf8`: it accepts exactly the valid UTF-8 byte
/// strings, and the string it returns holds the characters they encode.
#[verifier::external_body]
pub(crate) fn string_from_utf8(b: Vec<u8>) -> (r: Option<String>)
    ensures
        match r {
            Some(s) => valid_utf8(b@) && s@ == decode_utf8(b@),
            None => !valid_utf8(b@),
        },
{
    String::from_utf8(b).ok()
}

pub(crate) fn utf8_bytes(s: &String) -> (r: Vec<u8>)
    ensures
        r@ == encode_utf8(s@),
{
    slice_to_vec(s.as_str().as_bytes())
}

pub(crate) fn one_byte(b: u8) -> (r: Vec<u8>)
    ensures
        r@ == seq![b],
{
    let mut r: Vec<u8> = Vec::new();
    r.push(b);
    assert(r@ =~= seq![b]);
    r
}

pub(crate) fn copy_bytes(b: &Vec<u8>) -> (r: Vec<u8>)
    ensures
        r@ == b@,
{
    slice_to_vec(b.as_slice())
}

/// Packs owned blocks; a value too long for the wire is a serialisation error.
pub(crate) fn pack_owned(temp: &Vec<(u8, Vec<u8>)>) -> (r: Result<Vec<u8>, StpcError>)
    ensures
        match r {
            Ok(b) => tlv_encoding(owned_blocks(temp@)) == Some(b@),
            Err(e) => tlv_encoding(owned_blocks(temp@)) is None && e is SerilizateError,
        },
{
    let mut refs: Vec<(u8, &[u8])> = Vec::new();
    let mut i: usize = 0;
    while i < temp.len()
        invariant
            i <= temp@.len(),
            refs@.len() == i,
            borrowed_blocks(refs@) == owned_blocks(temp@.take(i as int)),
        decreases temp@.len() - i,
    {
        let ghost before = refs@;
        refs.push((temp[i].0, temp[i].1.as_slice()));
        assert forall|j: int| 0 <= j < i + 1 implies #[trigger] borrowed_blocks(
            refs@,
        )[j] == owned_blocks(temp@.take(i + 1))[j] by {
            if j < i {
                assert(refs@[j] == before[j]);
                assert(borrowed_blocks(before)[j] == owned_blocks(
                    temp@.take(i as int),
                )[j]);
            }
        }
        assert(borrowed_blocks(refs@) =~= owned_blocks(temp@.take(i + 1)));
        i = i + 1;
    }
    assert(temp@.take(i as int) =~= temp@);
    match TLVParser::pack(refs.as_slice()) {
        Ok(b) => Ok(b),
        Err(_) => Err(StpcError::SerilizateError("a field is too long to encode".to_string())),
    }
}

/// Why bytes fail to decode: they are not a packet, or the named field is
/// missing or invalid.
pub enum DecodeFailure {
    Packet,
    Field(Seq<char>),
}

/// Whether an error is the one that reports a failure.
pub open spec fn reports(e: StpcError, f: DecodeFailure) -> bool {
    match f {
        DecodeFailure::Packet => e is InvalidPacketError,
        DecodeFailure::Field(n) => e matches StpcError::DeserilizateError(s) && s@ == n,
    }
}

/// The failure of a missing or invalid field.
pub open spec fn bad_field(name: &str) -> DecodeFailure {
    DecodeFailure::Field(name@)
}

/// The decoding failure for input that is a packet but not a valid record.
pub(crate) fn field_error(field: &str) -> (r: StpcError)
    ensures
        r matches StpcError::DeserilizateError(s) && s@ == field@,
{
    StpcError::DeserilizateError(field.to_string())
}

// ---------------------------------------------------------------------------
// Encoding and decoding
// ---------------------------------------------------------------------------

/// Conversion of a certificate structure to and from its wire form.
pub trait CertSerializable: Sized + View {
    /// The wire form of a value; `None` where a field is too long for it.
    spec fn encoding(v: Self::V) -> Option<Seq<u8>>;

    /// The value that bytes decode to; `None` where they do not decode.
    spec fn decoding(b: Seq<u8>) -> Option<Self::V>;

    fn serialize(&self) -> (r: Result<Vec<u8>, StpcError>)
        ensures
            match r {
                Ok(b) => Self::encoding(self@) == Some(b@),
                Err(e) => Self::encoding(self@) is None && e is SerilizateError,
            },
    ;

    /// Why bytes that do not decode fail: the first failing field in
    /// decoding order, or the packet itself.
    spec fn failure(b: Seq<u8>) -> DecodeFailure;

    /// Fails with a packet error where `data` is not a packet, and with a
    /// decoding error naming the field where a field is missing or invalid.
    fn deserialize(data: &[u8]) -> (r: Result<Self, StpcError>)
        ensures
            match r {
                Ok(x) => Self::decoding(data@) == Some(x@),
                Err(e) => Self::decoding(data@) is None && reports(e, Self::failure(data@)),
            },
            reports_overrun(data@, r),
    ;
}

pub(crate) fn required_block<'a>(blocks: &'a Vec<(u8, Vec<u8>)>, tag: u8, field: &str) -> (r: Result<
    &'a Vec<u8>,
    StpcError,
>)
    ensures
        match r {
            Ok(v) => lookup(owned_blocks(blocks@), tag) == Some(v@),
            Err(e) => lookup(owned_blocks(blocks@), tag) is None && reports(e, bad_field(field)),
        },
{
    match find_block(blocks, tag) {
        Some(b) => Ok(b),
        None => Err(field_error(field)),
    }
}

pub(crate) fn algorithm_of_block(blocks: &Vec<(u8, Vec<u8>)>, tag: u8) -> (r: Result<
    SignatureAlgorithm,
    StpcError,
>)
    ensures
        match r {
            Ok(a) => nested(lookup(owned_blocks(blocks@), tag), |b: Seq<u8>| algorithm_field(b))
                == Some(a),
            Err(e) => nested(lookup(owned_blocks(blocks@), tag), |b: Seq<u8>| algorithm_field(b))
                is None && reports(e, bad_field("signature_algorithm")),
        },
{
    let b = match required_block(blocks, tag, "signature_algorithm") {
        Ok(b) => b,
        Err(e) => return Err(e),
    };
    match algorithm_from_field(b) {
        Some(a) => Ok(a),
        None => Err(field_error("signature_algorithm")),
    }
}

pub(crate) proof fn lemma_lookup_at(bs: Seq<BlockView>, i: int, t: u8)
    requires
        0 <= i < bs.len(),
        bs[i].0 == t,
        forall|j: int| 0 <= j < i ==> bs[j].0 != t,
    ensures
        lookup(bs, t) == Some(bs[i].1),
    decreases i,
{
    if i > 0 {
        lemma_lookup_at(bs.drop_first(), i - 1, t);
    }
}

} // verus!
