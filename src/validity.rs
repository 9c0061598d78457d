use vstd::prelude::*;

use crate::cert::{
    bad_field, field_error, find_block, lookup, pack_owned, reports, CertSerializable, DecodeFailure,
};
use crate::error::StpcError;
use crate::tlv::{
    BlockView, TLVParser, TLV, be64, be64_bytes, lemma_be64_round_trip, lemma_tlv_round_trip,
    lengths_fit, owned_blocks, payload, read_be64, read_u64_be, tlv_decoding, tlv_encoding,
};

verus! {

/// The window of Unix seconds in which a certificate is valid.
#[derive(Debug, Clone, Copy, PartialEq, Eq, Structural)]
pub struct Validity {
    pub not_before: u64,
    pub not_after: u64,
}

impl View for Validity {
    type V = Validity;

    open spec fn view(&self) -> Validity {
        *self
    }
}

pub open spec fn validity_blocks(v: Validity) -> Seq<BlockView> {
    seq![(1u8, be64(v.not_after)), (2u8, be64(v.not_before))]
}

pub open spec fn validity_encoding(v: Validity) -> Option<Seq<u8>> {
    tlv_encoding(validity_blocks(v))
}

/// An eight-byte field read as a big-endian integer.
pub open spec fn u64_field(b: Option<Seq<u8>>) -> Option<u64> {
    match b {
        Some(v) => if v.len() == 8 {
            Some(read_be64(v))
        } else {
            None
        },
        None => None,
    }
}

pub open spec fn validity_from_blocks(bs: Seq<BlockView>) -> Option<Validity> {
    match (u64_field(lookup(bs, 1)), u64_field(lookup(bs, 2))) {
        (Some(na), Some(nb)) => Some(Validity { not_before: nb, not_after: na }),
        _ => None,
    }
}

pub open spec fn validity_decoding(b: Seq<u8>) -> Option<Validity> {
    match tlv_decoding(b) {
        Some(bs) => validity_from_blocks(bs),
        None => None,
    }
}

impl Validity {
    pub fn new(not_before: u64, not_after: u64) -> (r: Self)
        ensures
            r.not_before == not_before,
            r.not_after == not_after,
    {
        Self { not_before, not_after }
    }

    /// `Ok(true)` when `now` lies in the window, ends included; otherwise a
    /// validity error.
    pub fn check_validity(&self, now: u64) -> (r: Result<bool, StpcError>)
        ensures
            match r {
                Ok(b) => b && self.not_before <= now <= self.not_after,
                Err(e) => !(self.not_before <= now <= self.not_after) && e is TimeCertValidError,
            },
    {
        if self.not_before <= now && now <= self.not_after {
            Ok(true)
        } else {
            Err(
                StpcError::TimeCertValidError(
                    "certificate expired or not yet valid".to_string(),
                ),
            )
        }
    }
}

/// Why bytes fail to decode as a validity window.
pub open spec fn validity_failure(b: Seq<u8>) -> DecodeFailure {
    match tlv_decoding(b) {
        None => DecodeFailure::Packet,
        Some(bs) => if u64_field(lookup(bs, 1)) is None {
            bad_field("not_after")
        } else {
            bad_field("not_before")
        },
    }
}

fn u64_of_block(blocks: &Vec<(u8, Vec<u8>)>, tag: u8, field: &str) -> (r: Result<u64, StpcError>)
    ensures
        match r {
            Ok(n) => u64_field(lookup(owned_blocks(blocks@), tag)) == Some(n),
            Err(e) => u64_field(lookup(owned_blocks(blocks@), tag)) is None && reports(e, bad_field(field)),
        },
{
    match find_block(blocks, tag) {
        Some(b) => if b.len() == 8 {
            Ok(read_u64_be(b.as_slice()))
        } else {
            Err(field_error(field))
        },
        None => Err(field_error(field)),
    }
}

impl CertSerializable for Validity {
    open spec fn encoding(v: Validity) -> Option<Seq<u8>> {
        validity_encoding(v)
    }

    open spec fn decoding(b: Seq<u8>) -> Option<Validity> {
        validity_decoding(b)
    }

    open spec fn failure(b: Seq<u8>) -> DecodeFailure {
        validity_failure(b)
    }

    fn serialize(&self) -> (r: Result<Vec<u8>, StpcError>) {
        let mut temp: Vec<(u8, Vec<u8>)> = Vec::new();
        temp.push((1u8, be64_bytes(self.not_after)));
        temp.push((2u8, be64_bytes(self.not_before)));
        assert(owned_blocks(temp@) =~= validity_blocks(*self));
        pack_owned(&temp)
    }

    fn deserialize(data: &[u8]) -> (r: Result<Self, StpcError>) {
        let blocks = match TLVParser::unpack(data) {
            Ok(b) => b,
            Err(e) => return Err(e),
        };
        let not_after = match u64_of_block(&blocks, 1, "not_after") {
            Ok(n) => n,
            Err(e) => return Err(e),
        };
        let not_before = match u64_of_block(&blocks, 2, "not_before") {
            Ok(n) => n,
            Err(e) => return Err(e),
        };
        Ok(Self { not_before, not_after })
    }
}

/// Decoding the encoding of a validity window gives the same window back.
pub proof fn lemma_validity_round_trip(v: Validity)
    ensures
        validity_encoding(v) is Some,
        validity_decoding(validity_encoding(v).unwrap()) == Some(v),
{
    let bs = validity_blocks(v);
    let tail = bs.drop_first();
    assert(tail =~= seq![(2u8, be64(v.not_before))]);
    assert(tail.drop_first() =~= Seq::<BlockView>::empty());
    assert(payload(tail.drop_first()) == Seq::<u8>::empty());
    assert(payload(tail).len() == 13);
    assert(payload(bs).len() == 26);
    assert(lengths_fit(bs));
    reveal(tlv_encoding);
    lemma_tlv_round_trip(bs);
    assert(lookup(bs, 1) == Some(be64(v.not_after)));
    assert(lookup(tail, 2) == Some(be64(v.not_before)));
    assert(lookup(bs, 2) == lookup(tail, 2));
    lemma_be64_round_trip(v.not_after);
    lemma_be64_round_trip(v.not_before);
}

} // verus!
