use vstd::prelude::*;
use vstd::utf8::{decode_utf8, encode_utf8, valid_utf8};

use crate::cert::{
    bad_field, reports, DecodeFailure,
    nested, CertSerializable, CertificateVersion, SignatureAlgorithm, algorithm_code,
    algorithm_field, algorithm_of_block, algorithm_to_code, copy_bytes, field_error,
    lemma_algorithm_code, lemma_lookup_at, lookup, one_byte, pack_owned, required_block,
    string_from_utf8, utf8_bytes,
};
use crate::error::StpcError;
use crate::name::{
    lemma_name_round_trip, name_decoding, name_encoding, name_failure, DistinguishedName, NameView,
};
use crate::validity::{
    lemma_validity_round_trip, validity_decoding, validity_encoding, validity_failure, Validity,
};
use crate::tlv::{
    BlockView, TLVParser, TLV, lemma_tlv_round_trip, owned_blocks, tlv_decoding, tlv_encoding,
};

verus! {

broadcast use vstd::utf8::encode_utf8_valid_utf8, vstd::utf8::encode_utf8_decode_utf8;

/// The body of a certificate, over whose encoding the signature is computed.
#[derive(Debug, Clone)]
pub struct TbsCertificate {
    pub version: CertificateVersion,
    pub serial_number: [u8; 8],
    pub signature_algorithm: SignatureAlgorithm,
    pub issuer: DistinguishedName,
    pub validity: Validity,
    pub subject: DistinguishedName,
    pub subject_public_key: Vec<u8>,
    pub ocsp_url: String,
}

/// A to-be-signed certificate as plain values.
pub struct TbsView {
    pub version: CertificateVersion,
    pub serial_number: Seq<u8>,
    pub signature_algorithm: SignatureAlgorithm,
    pub issuer: NameView,
    pub validity: Validity,
    pub subject: NameView,
    pub subject_public_key: Seq<u8>,
    pub ocsp_url: Seq<char>,
}

impl View for TbsCertificate {
    type V = TbsView;

    open spec fn view(&self) -> TbsView {
        TbsView {
            version: self.version,
            serial_number: self.serial_number@,
            signature_algorithm: self.signature_algorithm,
            issuer: self.issuer@,
            validity: self.validity,
            subject: self.subject@,
            subject_public_key: self.subject_public_key@,
            ocsp_url: self.ocsp_url@,
        }
    }
}

/// The blocks of a to-be-signed certificate, given the encodings of its
/// nested fields.
pub open spec fn tbs_blocks(t: TbsView, issuer: Seq<u8>, validity: Seq<u8>, subject: Seq<u8>) -> Seq<
    BlockView,
> {
    seq![
        (1u8, seq![1u8]),
        (2u8, t.serial_number),
        (3u8, seq![algorithm_code(t.signature_algorithm)]),
        (4u8, issuer),
        (5u8, validity),
        (6u8, subject),
        (7u8, t.subject_public_key),
        (8u8, encode_utf8(t.ocsp_url)),
    ]
}

pub open spec fn tbs_encoding(t: TbsView) -> Option<Seq<u8>> {
    match (name_encoding(t.issuer), validity_encoding(t.validity), name_encoding(t.subject)) {
        (Some(i), Some(v), Some(s)) => tlv_encoding(tbs_blocks(t, i, v, s)),
        _ => None,
    }
}

pub open spec fn tbs_from_blocks(bs: Seq<BlockView>) -> Option<TbsView> {
    let serial = lookup(bs, 2);
    let alg = nested(lookup(bs, 3), |b: Seq<u8>| algorithm_field(b));
    let issuer = nested(lookup(bs, 4), |b: Seq<u8>| name_decoding(b));
    let validity = nested(lookup(bs, 5), |b: Seq<u8>| validity_decoding(b));
    let subject = nested(lookup(bs, 6), |b: Seq<u8>| name_decoding(b));
    let key = lookup(bs, 7);
    let url = lookup(bs, 8);
    if lookup(bs, 1) != Some(seq![1u8]) || serial is None || serial.unwrap().len() != 8
        || alg is None || issuer is None || validity is None || subject is None || key is None
        || url is None || !valid_utf8(url.unwrap()) {
        None
    } else {
        Some(
            TbsView {
                version: CertificateVersion::V1,
                serial_number: serial.unwrap(),
                signature_algorithm: alg.unwrap(),
                issuer: issuer.unwrap(),
                validity: validity.unwrap(),
                subject: subject.unwrap(),
                subject_public_key: key.unwrap(),
                ocsp_url: decode_utf8(url.unwrap()),
            },
        )
    }
}

/// Why a nested field fails: it is missing, or its own bytes fail.
pub open spec fn nested_failure(
    b: Option<Seq<u8>>,
    name: &str,
    inner: spec_fn(Seq<u8>) -> DecodeFailure,
) -> DecodeFailure {
    match b {
        Some(v) => inner(v),
        None => bad_field(name),
    }
}

/// Why bytes fail to decode as a to-be-signed certificate.
pub open spec fn tbs_failure(b: Seq<u8>) -> DecodeFailure {
    match tlv_decoding(b) {
        None => DecodeFailure::Packet,
        Some(bs) => {
            let serial = lookup(bs, 2);
            if lookup(bs, 1) != Some(seq![1u8]) {
                bad_field("version")
            } else if serial is None || serial.unwrap().len() != 8 {
                bad_field("serial_number")
            } else if nested(lookup(bs, 3), |b: Seq<u8>| algorithm_field(b)) is None {
                bad_field("signature_algorithm")
            } else if nested(lookup(bs, 4), |b: Seq<u8>| name_decoding(b)) is None {
                nested_failure(lookup(bs, 4), "issuer", |v: Seq<u8>| name_failure(v))
            } else if nested(lookup(bs, 5), |b: Seq<u8>| validity_decoding(b)) is None {
                nested_failure(lookup(bs, 5), "validity", |v: Seq<u8>| validity_failure(v))
            } else if nested(lookup(bs, 6), |b: Seq<u8>| name_decoding(b)) is None {
                nested_failure(lookup(bs, 6), "subject", |v: Seq<u8>| name_failure(v))
            } else if lookup(bs, 7) is None {
                bad_field("subject_public_key")
            } else {
                bad_field("ocsp_url")
            }
        },
    }
}

pub open spec fn tbs_decoding(b: Seq<u8>) -> Option<TbsView> {
    match tlv_decoding(b) {
        Some(bs) => tbs_from_blocks(bs),
        None => None,
    }
}

/// Relies on `rand`'s `OsRng::fill_bytes`: eight bytes from the operating
/// system's secure random source. Nothing is promised of their values.
#[verifier::external_body]
fn random_serial() -> (r: [u8; 8]) {
    let mut serial = [0u8; 8];
    rand::RngCore::fill_bytes(&mut rand::rngs::OsRng, &mut serial);
    serial
}

impl TbsCertificate {
    /// A new certificate body with a fresh random serial number, drawn once.
    pub fn new(
        version: CertificateVersion,
        signature_algorithm: SignatureAlgorithm,
        issuer: DistinguishedName,
        validity: Validity,
        subject: DistinguishedName,
        subject_public_key: Vec<u8>,
        ocsp_url: String,
    ) -> (r: Self)
        ensures
            r.version == version,
            r.signature_algorithm == signature_algorithm,
            r.issuer@ == issuer@,
            r.validity == validity,
            r.subject@ == subject@,
            r.subject_public_key@ == subject_public_key@,
            r.ocsp_url@ == ocsp_url@,
    {
        let serial_number = random_serial();
        Self::with_serial_number(
            version,
            serial_number,
            signature_algorithm,
            issuer,
            validity,
            subject,
            subject_public_key,
            ocsp_url,
        )
    }

    /// A certificate body with the given serial number.
    pub fn with_serial_number(
        version: CertificateVersion,
        serial_number: [u8; 8],
        signature_algorithm: SignatureAlgorithm,
        issuer: DistinguishedName,
        validity: Validity,
        subject: DistinguishedName,
        subject_public_key: Vec<u8>,
        ocsp_url: String,
    ) -> (r: Self)
        ensures
            r.version == version,
            r.serial_number == serial_number,
            r.signature_algorithm == signature_algorithm,
            r.issuer@ == issuer@,
            r.validity == validity,
            r.subject@ == subject@,
            r.subject_public_key@ == subject_public_key@,
            r.ocsp_url@ == ocsp_url@,
    {
        Self {
            version,
            serial_number,
            signature_algorithm,
            issuer,
            validity,
            subject,
            subject_public_key,
            ocsp_url,
        }
    }
}

fn serial_from_field(b: &Vec<u8>) -> (r: [u8; 8])
    requires
        b@.len() == 8,
    ensures
        r@ == b@,
{
    let r = [b[0], b[1], b[2], b[3], b[4], b[5], b[6], b[7]];
    assert(r@ =~= b@);
    r
}

fn serial_bytes(s: &[u8; 8]) -> (r: Vec<u8>)
    ensures
        r@ == s@,
{
    let r = vec![s[0], s[1], s[2], s[3], s[4], s[5], s[6], s[7]];
    assert(r@ =~= s@);
    r
}

fn name_of_block(blocks: &Vec<(u8, Vec<u8>)>, tag: u8, field: &str) -> (r: Result<
    DistinguishedName,
    StpcError,
>)
    ensures
        match r {
            Ok(d) => nested(lookup(owned_blocks(blocks@), tag), |b: Seq<u8>| name_decoding(b))
                == Some(d@),
            Err(e) => nested(lookup(owned_blocks(blocks@), tag), |b: Seq<u8>| name_decoding(b))
                is None && reports(
                e,
                nested_failure(lookup(owned_blocks(blocks@), tag), field, |v: Seq<u8>| name_failure(v)),
            ),
        },
{
    let b = match required_block(blocks, tag, field) {
        Ok(b) => b,
        Err(e) => return Err(e),
    };
    DistinguishedName::deserialize(b.as_slice())
}

impl CertSerializable for TbsCertificate {
    open spec fn encoding(v: TbsView) -> Option<Seq<u8>> {
        tbs_encoding(v)
    }

    open spec fn decoding(b: Seq<u8>) -> Option<TbsView> {
        tbs_decoding(b)
    }

    open spec fn failure(b: Seq<u8>) -> DecodeFailure {
        tbs_failure(b)
    }

    fn serialize(&self) -> (r: Result<Vec<u8>, StpcError>) {
        let issuer = match self.issuer.serialize() {
            Ok(b) => b,
            Err(e) => return Err(e),
        };
        let validity = match self.validity.serialize() {
            Ok(b) => b,
            Err(e) => return Err(e),
        };
        let subject = match self.subject.serialize() {
            Ok(b) => b,
            Err(e) => return Err(e),
        };
        let ghost (iv, vv, sv) = (issuer@, validity@, subject@);
        let version_code: u8 = match self.version {
            CertificateVersion::V1 => 1,
        };
        let mut temp: Vec<(u8, Vec<u8>)> = Vec::new();
        temp.push((1u8, one_byte(version_code)));
        temp.push((2u8, serial_bytes(&self.serial_number)));
        temp.push((3u8, one_byte(algorithm_to_code(self.signature_algorithm))));
        temp.push((4u8, issuer));
        temp.push((5u8, validity));
        temp.push((6u8, subject));
        temp.push((7u8, copy_bytes(&self.subject_public_key)));
        temp.push((8u8, utf8_bytes(&self.ocsp_url)));
        assert(owned_blocks(temp@) =~= tbs_blocks(self@, iv, vv, sv));
        pack_owned(&temp)
    }

    fn deserialize(data: &[u8]) -> (r: Result<Self, StpcError>) {
        let blocks = match TLVParser::unpack(data) {
            Ok(b) => b,
            Err(e) => return Err(e),
        };
        let version = match required_block(&blocks, 1, "version") {
            Ok(b) => if b.len() == 1 && b[0] == 1 {
                assert(b@ =~= seq![1u8]);
                CertificateVersion::V1
            } else {
                assert(b@ != seq![1u8]);
                return Err(field_error("version"));
            },
            Err(e) => return Err(e),
        };
        let serial_number = match required_block(&blocks, 2, "serial_number") {
            Ok(b) => if b.len() == 8 {
                serial_from_field(b)
            } else {
                return Err(field_error("serial_number"));
            },
            Err(e) => return Err(e),
        };
        let signature_algorithm = match algorithm_of_block(&blocks, 3) {
            Ok(a) => a,
            Err(e) => return Err(e),
        };
        let issuer = match name_of_block(&blocks, 4, "issuer") {
            Ok(d) => d,
            Err(e) => return Err(e),
        };
        let validity = match required_block(&blocks, 5, "validity") {
            Ok(b) => match Validity::deserialize(b.as_slice()) {
                Ok(v) => v,
                Err(e) => return Err(e),
            },
            Err(e) => return Err(e),
        };
        let subject = match name_of_block(&blocks, 6, "subject") {
            Ok(d) => d,
            Err(e) => return Err(e),
        };
        let subject_public_key = match required_block(&blocks, 7, "subject_public_key") {
            Ok(b) => copy_bytes(b),
            Err(e) => return Err(e),
        };
        let ocsp_url = match required_block(&blocks, 8, "ocsp_url") {
            Ok(b) => match string_from_utf8(copy_bytes(b)) {
                Some(s) => s,
                None => return Err(field_error("ocsp_url")),
            },
            Err(e) => return Err(e),
        };
        Ok(
            Self {
                version,
                serial_number,
                signature_algorithm,
                issuer,
                validity,
                subject,
                subject_public_key,
                ocsp_url,
            },
        )
    }
}

proof fn lemma_tbs_lookups(t: TbsView, i: Seq<u8>, v: Seq<u8>, s: Seq<u8>)
    ensures
        lookup(tbs_blocks(t, i, v, s), 1) == Some(seq![1u8]),
        lookup(tbs_blocks(t, i, v, s), 2) == Some(t.serial_number),
        lookup(tbs_blocks(t, i, v, s), 3) == Some(seq![algorithm_code(t.signature_algorithm)]),
        lookup(tbs_blocks(t, i, v, s), 4) == Some(i),
        lookup(tbs_blocks(t, i, v, s), 5) == Some(v),
        lookup(tbs_blocks(t, i, v, s), 6) == Some(s),
        lookup(tbs_blocks(t, i, v, s), 7) == Some(t.subject_public_key),
        lookup(tbs_blocks(t, i, v, s), 8) == Some(encode_utf8(t.ocsp_url)),
{
    let bs = tbs_blocks(t, i, v, s);
    assert(bs[0].0 == 1 && bs[1].0 == 2 && bs[2].0 == 3 && bs[3].0 == 4);
    assert(bs[4].0 == 5 && bs[5].0 == 6 && bs[6].0 == 7 && bs[7].0 == 8);
    lemma_lookup_at(bs, 0, 1);
    lemma_lookup_at(bs, 1, 2);
    lemma_lookup_at(bs, 2, 3);
    lemma_lookup_at(bs, 3, 4);
    lemma_lookup_at(bs, 4, 5);
    lemma_lookup_at(bs, 5, 6);
    lemma_lookup_at(bs, 6, 7);
    lemma_lookup_at(bs, 7, 8);
}

/// Decoding the encoding of a to-be-signed certificate gives it back, field
/// for field.
pub proof fn lemma_tbs_round_trip(t: TbsView)
    requires
        t.serial_number.len() == 8,
        tbs_encoding(t) is Some,
    ensures
        tbs_decoding(tbs_encoding(t).unwrap()) == Some(t),
{
    let i = name_encoding(t.issuer).unwrap();
    let v = validity_encoding(t.validity).unwrap();
    let s = name_encoding(t.subject).unwrap();
    let bs = tbs_blocks(t, i, v, s);
    assert(tbs_encoding(t) == tlv_encoding(bs));
    lemma_tlv_round_trip(bs);
    assert(tbs_decoding(tbs_encoding(t).unwrap()) == tbs_from_blocks(bs));
    lemma_name_round_trip(t.issuer);
    lemma_name_round_trip(t.subject);
    lemma_validity_round_trip(t.validity);
    lemma_tbs_lookups(t, i, v, s);
    lemma_algorithm_code(t.signature_algorithm);
    assert(nested(lookup(bs, 3), |b: Seq<u8>| algorithm_field(b)) == Some(t.signature_algorithm));
    assert(nested(lookup(bs, 4), |b: Seq<u8>| name_decoding(b)) == Some(t.issuer));
    assert(nested(lookup(bs, 5), |b: Seq<u8>| validity_decoding(b)) == Some(t.validity));
    assert(nested(lookup(bs, 6), |b: Seq<u8>| name_decoding(b)) == Some(t.subject));
    assert(decode_utf8(encode_utf8(t.ocsp_url)) == t.ocsp_url);
    assert(t.version == CertificateVersion::V1);
    assert(tbs_from_blocks(bs) == Some(t));
}

// ---------------------------------------------------------------------------
// Certificate
// ---------------------------------------------------------------------------

/// A signed certificate: the body, the algorithm and the signature over the
/// body's encoding.
#[derive(Debug, Clone)]
pub struct Certificate {
    pub tbs_certificate: TbsCertificate,
    pub signature_algorithm: SignatureAlgorithm,
    pub signature_value: Vec<u8>,
}

/// A certificate as plain values.
pub struct CertificateView {
    pub tbs_certificate: TbsView,
    pub signature_algorithm: SignatureAlgorithm,
    pub signature_value: Seq<u8>,
}

impl View for Certificate {
    type V = CertificateView;

    open spec fn view(&self) -> CertificateView {
        CertificateView {
            tbs_certificate: self.tbs_certificate@,
            signature_algorithm: self.signature_algorithm,
            signature_value: self.signature_value@,
        }
    }
}

pub open spec fn certificate_blocks(c: CertificateView, tbs: Seq<u8>) -> Seq<BlockView> {
    seq![
        (1u8, tbs),
        (2u8, seq![algorithm_code(c.signature_algorithm)]),
        (3u8, c.signature_value),
    ]
}

pub open spec fn certificate_encoding(c: CertificateView) -> Option<Seq<u8>> {
    match tbs_encoding(c.tbs_certificate) {
        Some(t) => tlv_encoding(certificate_blocks(c, t)),
        None => None,
    }
}

pub open spec fn certificate_from_blocks(bs: Seq<BlockView>) -> Option<CertificateView> {
    let tbs = nested(lookup(bs, 1), |b: Seq<u8>| tbs_decoding(b));
    let alg = nested(lookup(bs, 2), |b: Seq<u8>| algorithm_field(b));
    let sig = lookup(bs, 3);
    if tbs is None || alg is None || sig is None {
        None
    } else {
        Some(
            CertificateView {
                tbs_certificate: tbs.unwrap(),
                signature_algorithm: alg.unwrap(),
                signature_value: sig.unwrap(),
            },
        )
    }
}

/// Why bytes fail to decode as a certificate.
pub open spec fn certificate_failure(b: Seq<u8>) -> DecodeFailure {
    match tlv_decoding(b) {
        None => DecodeFailure::Packet,
        Some(bs) => if nested(lookup(bs, 1), |b: Seq<u8>| tbs_decoding(b)) is None {
            nested_failure(lookup(bs, 1), "tbs_certificate", |v: Seq<u8>| tbs_failure(v))
        } else if nested(lookup(bs, 2), |b: Seq<u8>| algorithm_field(b)) is None {
            bad_field("signature_algorithm")
        } else {
            bad_field("signature_value")
        },
    }
}

pub open spec fn certificate_decoding(b: Seq<u8>) -> Option<CertificateView> {
    match tlv_decoding(b) {
        Some(bs) => certificate_from_blocks(bs),
        None => None,
    }
}

impl Certificate {
    pub fn new(
        tbs_certificate: TbsCertificate,
        signature_algorithm: SignatureAlgorithm,
        signature_value: Vec<u8>,
    ) -> (r: Self)
        ensures
            r.tbs_certificate@ == tbs_certificate@,
            r.signature_algorithm == signature_algorithm,
            r.signature_value@ == signature_value@,
    {
        Self { tbs_certificate, signature_algorithm, signature_value }
    }
}

impl CertSerializable for Certificate {
    open spec fn encoding(v: CertificateView) -> Option<Seq<u8>> {
        certificate_encoding(v)
    }

    open spec fn decoding(b: Seq<u8>) -> Option<CertificateView> {
        certificate_decoding(b)
    }

    open spec fn failure(b: Seq<u8>) -> DecodeFailure {
        certificate_failure(b)
    }

    fn serialize(&self) -> (r: Result<Vec<u8>, StpcError>) {
        let tbs = match self.tbs_certificate.serialize() {
            Ok(b) => b,
            Err(e) => return Err(e),
        };
        let ghost tv = tbs@;
        let mut temp: Vec<(u8, Vec<u8>)> = Vec::new();
        temp.push((1u8, tbs));
        temp.push((2u8, one_byte(algorithm_to_code(self.signature_algorithm))));
        temp.push((3u8, copy_bytes(&self.signature_value)));
        assert(owned_blocks(temp@) =~= certificate_blocks(self@, tv));
        pack_owned(&temp)
    }

    fn deserialize(data: &[u8]) -> (r: Result<Self, StpcError>) {
        let blocks = match TLVParser::unpack(data) {
            Ok(b) => b,
            Err(e) => return Err(e),
        };
        let tbs_certificate = match required_block(&blocks, 1, "tbs_certificate") {
            Ok(b) => match TbsCertificate::deserialize(b.as_slice()) {
                Ok(t) => t,
                Err(e) => return Err(e),
            },
            Err(e) => return Err(e),
        };
        let signature_algorithm = match algorithm_of_block(&blocks, 2) {
            Ok(a) => a,
            Err(e) => return Err(e),
        };
        let signature_value = match required_block(&blocks, 3, "signature_value") {
            Ok(b) => copy_bytes(b),
            Err(e) => return Err(e),
        };
        Ok(Self { tbs_certificate, signature_algorithm, signature_value })
    }
}

/// Decoding the encoding of a certificate gives it back, field for field.
pub proof fn lemma_certificate_round_trip(c: CertificateView)
    requires
        c.tbs_certificate.serial_number.len() == 8,
        certificate_encoding(c) is Some,
    ensures
        certificate_decoding(certificate_encoding(c).unwrap()) == Some(c),
{
    let t = tbs_encoding(c.tbs_certificate).unwrap();
    let bs = certificate_blocks(c, t);
    assert(certificate_encoding(c) == tlv_encoding(bs));
    lemma_tlv_round_trip(bs);
    lemma_tbs_round_trip(c.tbs_certificate);
    assert(bs[0].0 == 1 && bs[1].0 == 2 && bs[2].0 == 3);
    lemma_lookup_at(bs, 0, 1);
    lemma_lookup_at(bs, 1, 2);
    lemma_lookup_at(bs, 2, 3);
    lemma_algorithm_code(c.signature_algorithm);
    assert(nested(lookup(bs, 1), |b: Seq<u8>| tbs_decoding(b)) == Some(c.tbs_certificate));
    assert(nested(lookup(bs, 2), |b: Seq<u8>| algorithm_field(b)) == Some(c.signature_algorithm));
    assert(certificate_from_blocks(bs) == Some(c));
}

} // verus!
