use vstd::prelude::*;
use vstd::utf8::{decode_utf8, encode_utf8, valid_utf8};

use crate::cert::{
    bad_field, reports, DecodeFailure,
    CertSerializable, copy_bytes, field_error, find_block, lemma_lookup_concat, lookup, pack_owned,
    string_from_utf8, utf8_bytes,
};
use crate::error::StpcError;
use crate::tlv::{
    BlockView, TLVParser, TLV, lemma_tlv_round_trip, owned_blocks, tlv_decoding, tlv_encoding,
};

verus! {

broadcast use vstd::utf8::encode_utf8_valid_utf8, vstd::utf8::encode_utf8_decode_utf8;

/// An issuer's or subject's identity: a common name and optional attributes.
#[derive(Debug, Clone)]
pub struct DistinguishedName {
    pub common_name: String,
    pub organization: Option<String>,
    pub department: Option<String>,
    pub country: Option<String>,
    pub state: Option<String>,
    pub locality: Option<String>,
    pub email_address: Option<String>,
}

/// A distinguished name as characters.
pub struct NameView {
    pub common_name: Seq<char>,
    pub organization: Option<Seq<char>>,
    pub department: Option<Seq<char>>,
    pub country: Option<Seq<char>>,
    pub state: Option<Seq<char>>,
    pub locality: Option<Seq<char>>,
    pub email_address: Option<Seq<char>>,
}

pub open spec fn opt_chars(o: Option<String>) -> Option<Seq<char>> {
    match o {
        Some(s) => Some(s@),
        None => None,
    }
}

impl View for DistinguishedName {
    type V = NameView;

    open spec fn view(&self) -> NameView {
        NameView {
            common_name: self.common_name@,
            organization: opt_chars(self.organization),
            department: opt_chars(self.department),
            country: opt_chars(self.country),
            state: opt_chars(self.state),
            locality: opt_chars(self.locality),
            email_address: opt_chars(self.email_address),
        }
    }
}

/// The block of an optional text field: none where the field is unset.
pub open spec fn text_block(tag: u8, s: Option<Seq<char>>) -> Seq<BlockView> {
    match s {
        Some(t) => seq![(tag, encode_utf8(t))],
        None => seq![],
    }
}

pub open spec fn name_blocks(d: NameView) -> Seq<BlockView> {
    seq![(1u8, encode_utf8(d.common_name))] + text_block(2, d.organization) + text_block(
        3,
        d.department,
    ) + text_block(4, d.country) + text_block(5, d.state) + text_block(6, d.locality)
        + text_block(7, d.email_address)
}

pub open spec fn name_encoding(d: NameView) -> Option<Seq<u8>> {
    tlv_encoding(name_blocks(d))
}

/// An optional text field: `Some(None)` where absent, `None` where its bytes
/// are not UTF-8.
pub open spec fn text_field(b: Option<Seq<u8>>) -> Option<Option<Seq<char>>> {
    match b {
        Some(v) => if valid_utf8(v) {
            Some(Some(decode_utf8(v)))
        } else {
            None
        },
        None => Some(None),
    }
}

pub open spec fn name_from_blocks(bs: Seq<BlockView>) -> Option<NameView> {
    let cn = lookup(bs, 1);
    if cn is None || !valid_utf8(cn.unwrap()) {
        None
    } else if text_field(lookup(bs, 2)) is None || text_field(lookup(bs, 3)) is None
        || text_field(lookup(bs, 4)) is None || text_field(lookup(bs, 5)) is None || text_field(
        lookup(bs, 6),
    ) is None || text_field(lookup(bs, 7)) is None {
        None
    } else {
        Some(
            NameView {
                common_name: decode_utf8(cn.unwrap()),
                organization: text_field(lookup(bs, 2)).unwrap(),
                department: text_field(lookup(bs, 3)).unwrap(),
                country: text_field(lookup(bs, 4)).unwrap(),
                state: text_field(lookup(bs, 5)).unwrap(),
                locality: text_field(lookup(bs, 6)).unwrap(),
                email_address: text_field(lookup(bs, 7)).unwrap(),
            },
        )
    }
}

pub open spec fn name_decoding(b: Seq<u8>) -> Option<NameView> {
    match tlv_decoding(b) {
        Some(bs) => name_from_blocks(bs),
        None => None,
    }
}

impl DistinguishedName {
    pub fn new(
        common_name: String,
        organization: Option<String>,
        department: Option<String>,
        country: Option<String>,
        state: Option<String>,
        locality: Option<String>,
        email_address: Option<String>,
    ) -> (r: Self)
        ensures
            r.common_name@ == common_name@,
            opt_chars(r.organization) == opt_chars(organization),
            opt_chars(r.department) == opt_chars(department),
            opt_chars(r.country) == opt_chars(country),
            opt_chars(r.state) == opt_chars(state),
            opt_chars(r.locality) == opt_chars(locality),
            opt_chars(r.email_address) == opt_chars(email_address),
    {
        Self { common_name, organization, department, country, state, locality, email_address }
    }
}

fn push_text(temp: &mut Vec<(u8, Vec<u8>)>, tag: u8, o: &Option<String>)
    ensures
        owned_blocks(final(temp)@) == owned_blocks(old(temp)@) + text_block(tag, opt_chars(*o)),
{
    match o {
        Some(s) => {
            temp.push((tag, utf8_bytes(s)));
        },
        None => {},
    }
    assert(owned_blocks(final(temp)@) =~= owned_blocks(old(temp)@) + text_block(
        tag,
        opt_chars(*o),
    ));
}

/// Why bytes fail to decode as a distinguished name.
pub open spec fn name_failure(b: Seq<u8>) -> DecodeFailure {
    match tlv_decoding(b) {
        None => DecodeFailure::Packet,
        Some(bs) => {
            let cn = lookup(bs, 1);
            if cn is None || !valid_utf8(cn.unwrap()) {
                bad_field("common_name")
            } else if text_field(lookup(bs, 2)) is None {
                bad_field("organization")
            } else if text_field(lookup(bs, 3)) is None {
                bad_field("department")
            } else if text_field(lookup(bs, 4)) is None {
                bad_field("country")
            } else if text_field(lookup(bs, 5)) is None {
                bad_field("state")
            } else if text_field(lookup(bs, 6)) is None {
                bad_field("locality")
            } else {
                bad_field("email_address")
            }
        },
    }
}

fn text_of_block(blocks: &Vec<(u8, Vec<u8>)>, tag: u8, field: &str) -> (r: Result<
    Option<String>,
    StpcError,
>)
    ensures
        match r {
            Ok(o) => text_field(lookup(owned_blocks(blocks@), tag)) == Some(opt_chars(o)),
            Err(e) => text_field(lookup(owned_blocks(blocks@), tag)) is None && reports(
                e,
                bad_field(field),
            ),
        },
{
    match find_block(blocks, tag) {
        Some(b) => match string_from_utf8(copy_bytes(b)) {
            Some(s) => Ok(Some(s)),
            None => Err(field_error(field)),
        },
        None => Ok(None),
    }
}

impl CertSerializable for DistinguishedName {
    open spec fn encoding(v: NameView) -> Option<Seq<u8>> {
        name_encoding(v)
    }

    open spec fn decoding(b: Seq<u8>) -> Option<NameView> {
        name_decoding(b)
    }

    open spec fn failure(b: Seq<u8>) -> DecodeFailure {
        name_failure(b)
    }

    fn serialize(&self) -> (r: Result<Vec<u8>, StpcError>) {
        let mut temp: Vec<(u8, Vec<u8>)> = Vec::new();
        temp.push((1u8, utf8_bytes(&self.common_name)));
        assert(owned_blocks(temp@) =~= seq![(1u8, encode_utf8(self.common_name@))]);
        push_text(&mut temp, 2, &self.organization);
        push_text(&mut temp, 3, &self.department);
        push_text(&mut temp, 4, &self.country);
        push_text(&mut temp, 5, &self.state);
        push_text(&mut temp, 6, &self.locality);
        push_text(&mut temp, 7, &self.email_address);
        pack_owned(&temp)
    }

    fn deserialize(data: &[u8]) -> (r: Result<Self, StpcError>) {
        let blocks = match TLVParser::unpack(data) {
            Ok(b) => b,
            Err(e) => return Err(e),
        };
        let common_name = match text_of_block(&blocks, 1, "common_name") {
            Ok(Some(s)) => s,
            Ok(None) => return Err(field_error("common_name")),
            Err(e) => return Err(e),
        };
        let organization = match text_of_block(&blocks, 2, "organization") {
            Ok(o) => o,
            Err(e) => return Err(e),
        };
        let department = match text_of_block(&blocks, 3, "department") {
            Ok(o) => o,
            Err(e) => return Err(e),
        };
        let country = match text_of_block(&blocks, 4, "country") {
            Ok(o) => o,
            Err(e) => return Err(e),
        };
        let state = match text_of_block(&blocks, 5, "state") {
            Ok(o) => o,
            Err(e) => return Err(e),
        };
        let locality = match text_of_block(&blocks, 6, "locality") {
            Ok(o) => o,
            Err(e) => return Err(e),
        };
        let email_address = match text_of_block(&blocks, 7, "email_address") {
            Ok(o) => o,
            Err(e) => return Err(e),
        };
        Ok(Self { common_name, organization, department, country, state, locality, email_address })
    }
}

proof fn lemma_lookup_text_block(tag: u8, s: Option<Seq<char>>)
    ensures
        forall|t: u8|
            #[trigger] lookup(text_block(tag, s), t) == if t == tag && s is Some {
                Some(encode_utf8(s.unwrap()))
            } else {
                None
            },
{
    reveal_with_fuel(lookup, 2);
}

/// Decoding the encoding of a distinguished name gives the same name back.
pub proof fn lemma_name_round_trip(d: NameView)
    requires
        name_encoding(d) is Some,
    ensures
        name_decoding(name_encoding(d).unwrap()) == Some(d),
{
    let b1: Seq<BlockView> = seq![(1u8, encode_utf8(d.common_name))];
    let b2 = b1 + text_block(2, d.organization);
    let b3 = b2 + text_block(3, d.department);
    let b4 = b3 + text_block(4, d.country);
    let b5 = b4 + text_block(5, d.state);
    let b6 = b5 + text_block(6, d.locality);
    let bs = b6 + text_block(7, d.email_address);
    assert(bs == name_blocks(d));
    lemma_tlv_round_trip(bs);
    reveal_with_fuel(lookup, 2);
    lemma_lookup_concat(b1, text_block(2, d.organization));
    lemma_lookup_concat(b2, text_block(3, d.department));
    lemma_lookup_concat(b3, text_block(4, d.country));
    lemma_lookup_concat(b4, text_block(5, d.state));
    lemma_lookup_concat(b5, text_block(6, d.locality));
    lemma_lookup_concat(b6, text_block(7, d.email_address));
    lemma_lookup_text_block(2, d.organization);
    lemma_lookup_text_block(3, d.department);
    lemma_lookup_text_block(4, d.country);
    lemma_lookup_text_block(5, d.state);
    lemma_lookup_text_block(6, d.locality);
    lemma_lookup_text_block(7, d.email_address);
    assert(lookup(bs, 1) == Some(encode_utf8(d.common_name)));
    assert(text_field(lookup(bs, 2)) == Some(d.organization));
    assert(text_field(lookup(bs, 3)) == Some(d.department));
    assert(text_field(lookup(bs, 4)) == Some(d.country));
    assert(text_field(lookup(bs, 5)) == Some(d.state));
    assert(text_field(lookup(bs, 6)) == Some(d.locality));
    assert(text_field(lookup(bs, 7)) == Some(d.email_address));
}

} // verus!
