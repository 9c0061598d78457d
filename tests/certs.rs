use stpc::{
    CertSerializable, Certificate, CertificateVersion, DistinguishedName, Ed25519, Falcon1024,
    Falcon512, SignatureAlgorithm, SigningOperands, StpcError, TLVParser, TbsCertificate, Validity,
    TLV,
};

fn sign_and_verify<A: SigningOperands>() {
    let (priv_key, pub_key) = A::keypair().expect("Keypair generation failed");

    let message = b"Hello, STPC!";

    let signature = A::sign(message, &priv_key).expect("Signing failed");

    let verified = A::verify(message, &pub_key, &signature).expect("Verification failed");
    assert!(verified, "Signature should be valid");

    let tampered = b"Hello, STPC?";
    let verified = A::verify(tampered, &pub_key, &signature).unwrap_or(false);
    assert!(!verified, "Tampered message should not verify");
}

#[test]
fn certs_test_test_ed25519() {
    sign_and_verify::<Ed25519>();
}

#[test]
fn certs_test_test_falcon512() {
    sign_and_verify::<Falcon512>();
}

#[test]
fn certs_test_test_falcon1024() {
    sign_and_verify::<Falcon1024>();
}

#[test]
fn test_cert_serialization() -> Result<(), StpcError> {
    let dn = DistinguishedName::new("CN".to_string(), None, None, None, None, None, None);
    let val = Validity::new(0, 1000);
    let tbs = TbsCertificate::new(
        CertificateVersion::V1,
        SignatureAlgorithm::Ed25519,
        dn.clone(),
        val.clone(),
        dn,
        vec![1, 2, 3, 4],
        "http://ocsp.example.com".to_string(),
    );

    let serialized = tbs.serialize()?;
    let deserialized = TbsCertificate::deserialize(&serialized)?;

    assert_eq!(deserialized.serial_number, tbs.serial_number);
    assert_eq!(deserialized.subject_public_key, tbs.subject_public_key);
    assert_eq!(deserialized.ocsp_url, tbs.ocsp_url);

    Ok(())
}

fn full_name() -> DistinguishedName {
    DistinguishedName::new(
        "Issuer CN".to_string(),
        Some("Issuer Org".to_string()),
        Some("Issuer Dept".to_string()),
        Some("US".to_string()),
        Some("California".to_string()),
        Some("San Francisco".to_string()),
        Some("issuer@example.com".to_string()),
    )
}

fn assert_same_name(a: &DistinguishedName, b: &DistinguishedName) {
    assert_eq!(a.common_name, b.common_name);
    assert_eq!(a.organization, b.organization);
    assert_eq!(a.department, b.department);
    assert_eq!(a.country, b.country);
    assert_eq!(a.state, b.state);
    assert_eq!(a.locality, b.locality);
    assert_eq!(a.email_address, b.email_address);
}

#[test]
fn validity_window_includes_its_ends() {
    let v = Validity::new(0, 1000);
    assert_eq!(v.check_validity(500).unwrap(), true);
    assert_eq!(v.check_validity(0).unwrap(), true);
    assert_eq!(v.check_validity(1000).unwrap(), true);
    assert!(matches!(v.check_validity(1001), Err(StpcError::TimeCertValidError(_))));
    let later = Validity::new(10, 20);
    assert!(matches!(later.check_validity(9), Err(StpcError::TimeCertValidError(_))));
}

#[test]
fn validity_encodes_not_after_first() {
    let bytes = Validity::new(1, 2).serialize().unwrap();
    let blocks = TLVParser::unpack(&bytes).unwrap();
    assert_eq!(
        blocks,
        vec![(1u8, vec![0, 0, 0, 0, 0, 0, 0, 2]), (2u8, vec![0, 0, 0, 0, 0, 0, 0, 1])]
    );
    let back = Validity::deserialize(&bytes).unwrap();
    assert_eq!((back.not_before, back.not_after), (1, 2));
}

#[test]
fn name_round_trips_with_all_fields() {
    let dn = full_name();
    let back = DistinguishedName::deserialize(&dn.serialize().unwrap()).unwrap();
    assert_same_name(&dn, &back);
}

#[test]
fn name_round_trips_with_some_fields() {
    let dn = DistinguishedName::new(
        "Subject CN".to_string(),
        Some("Subject Org".to_string()),
        None,
        Some("US".to_string()),
        None,
        Some("Los Angeles".to_string()),
        None,
    );
    let bytes = dn.serialize().unwrap();
    let tags: Vec<u8> = TLVParser::unpack(&bytes).unwrap().iter().map(|b| b.0).collect();
    assert_eq!(tags, vec![1, 2, 4, 6]);
    assert_same_name(&dn, &DistinguishedName::deserialize(&bytes).unwrap());
}

#[test]
fn name_without_common_name_is_rejected() {
    let blocks: Vec<(u8, &[u8])> = vec![(2u8, b"Org")];
    let bytes = TLVParser::pack(&blocks).unwrap();
    assert!(matches!(
        DistinguishedName::deserialize(&bytes),
        Err(StpcError::DeserilizateError(_))
    ));
}

#[test]
fn name_with_invalid_utf8_is_rejected() {
    let blocks: Vec<(u8, &[u8])> = vec![(1u8, &[0xFF, 0xFE])];
    let bytes = TLVParser::pack(&blocks).unwrap();
    assert!(matches!(
        DistinguishedName::deserialize(&bytes),
        Err(StpcError::DeserilizateError(_))
    ));
}

#[test]
fn name_takes_the_first_of_repeated_tags_and_skips_unknown_ones() {
    let blocks: Vec<(u8, &[u8])> = vec![(9u8, b"?"), (1u8, b"first"), (1u8, b"second")];
    let bytes = TLVParser::pack(&blocks).unwrap();
    let dn = DistinguishedName::deserialize(&bytes).unwrap();
    assert_eq!(dn.common_name, "first");
    assert_eq!(dn.organization, None);
}

#[test]
fn decoding_garbage_is_a_packet_error() {
    assert!(matches!(Certificate::deserialize(&[1, 2, 3]), Err(StpcError::InvalidPacketError(_))));
    assert!(matches!(Validity::deserialize(&[0; 4]), Err(StpcError::InvalidPacketError(_))));
}

#[test]
fn validity_with_a_short_field_is_rejected() {
    let blocks: Vec<(u8, &[u8])> = vec![(1u8, &[0, 1]), (2u8, &[0; 8])];
    let bytes = TLVParser::pack(&blocks).unwrap();
    assert!(matches!(Validity::deserialize(&bytes), Err(StpcError::DeserilizateError(_))));
}

fn sample_certificate(alg: SignatureAlgorithm) -> Certificate {
    let tbs = TbsCertificate::new(
        CertificateVersion::V1,
        alg,
        full_name(),
        Validity::new(1_700_000_000, 1_800_000_000),
        DistinguishedName::new("Subject CN".to_string(), None, None, None, None, None, None),
        vec![0xAA; 32],
        "http://ocsp.example.com".to_string(),
    );
    Certificate::new(tbs, alg, vec![0xBB; 64])
}

#[test]
fn certificate_round_trips_field_for_field() {
    for alg in [
        SignatureAlgorithm::Ed25519,
        SignatureAlgorithm::Falcon512,
        SignatureAlgorithm::Falcon1024,
    ] {
        let cert = sample_certificate(alg);
        let back = Certificate::deserialize(&cert.serialize().unwrap()).unwrap();
        assert_eq!(back.signature_algorithm, alg);
        assert_eq!(back.signature_value, cert.signature_value);
        let (t, u) = (&back.tbs_certificate, &cert.tbs_certificate);
        assert_eq!(t.version, u.version);
        assert_eq!(t.serial_number, u.serial_number);
        assert_eq!(t.signature_algorithm, u.signature_algorithm);
        assert_same_name(&t.issuer, &u.issuer);
        assert_eq!(t.validity, u.validity);
        assert_same_name(&t.subject, &u.subject);
        assert_eq!(t.subject_public_key, u.subject_public_key);
        assert_eq!(t.ocsp_url, u.ocsp_url);
    }
}

#[test]
fn certificate_layout_uses_the_fixed_tags_and_codes() {
    let cert = sample_certificate(SignatureAlgorithm::Falcon512);
    let blocks = TLVParser::unpack(&cert.serialize().unwrap()).unwrap();
    assert_eq!(blocks.len(), 3);
    assert_eq!(blocks[0].0, 1);
    assert_eq!(blocks[1], (2u8, vec![2u8]));
    assert_eq!(blocks[2], (3u8, vec![0xBB; 64]));
    let tbs_blocks = TLVParser::unpack(&blocks[0].1).unwrap();
    let tags: Vec<u8> = tbs_blocks.iter().map(|b| b.0).collect();
    assert_eq!(tags, vec![1, 2, 3, 4, 5, 6, 7, 8]);
    assert_eq!(tbs_blocks[0].1, vec![1u8]);
    assert_eq!(tbs_blocks[2].1, vec![2u8]);
    assert_eq!(tbs_blocks[7].1, b"http://ocsp.example.com".to_vec());
}

#[test]
fn unknown_algorithm_code_is_rejected() {
    let cert = sample_certificate(SignatureAlgorithm::Ed25519);
    let tbs = cert.tbs_certificate.serialize().unwrap();
    let blocks: Vec<(u8, &[u8])> = vec![(1u8, &tbs), (2u8, &[9]), (3u8, &[0; 64])];
    let bytes = TLVParser::pack(&blocks).unwrap();
    assert!(matches!(Certificate::deserialize(&bytes), Err(StpcError::DeserilizateError(_))));
}

#[test]
fn serial_numbers_differ_between_certificates() {
    let a = sample_certificate(SignatureAlgorithm::Ed25519);
    let b = sample_certificate(SignatureAlgorithm::Ed25519);
    assert_ne!(a.tbs_certificate.serial_number, b.tbs_certificate.serial_number);
}

#[test]
fn signed_certificate_verifies_over_its_body() {
    let (sk, pk) = Ed25519::keypair().unwrap();
    let cert = sample_certificate(SignatureAlgorithm::Ed25519);
    let body = cert.tbs_certificate.serialize().unwrap();
    let sig = Ed25519::sign(&body, &sk).unwrap();
    let signed = Certificate::new(cert.tbs_certificate.clone(), SignatureAlgorithm::Ed25519, sig.as_bytes().to_vec());
    let back = Certificate::deserialize(&signed.serialize().unwrap()).unwrap();
    let body_again = back.tbs_certificate.serialize().unwrap();
    let sig_again = stpc::Signature::from_bytes(&back.signature_value);
    assert!(Ed25519::verify(&body_again, &pk, &sig_again).unwrap());
}

fn field_named(e: StpcError) -> String {
    match e {
        StpcError::DeserilizateError(s) => s,
        other => panic!("unexpected error {:?}", other),
    }
}

#[test]
fn decode_errors_name_the_field() {
    let blocks: Vec<(u8, &[u8])> = vec![(2u8, &[0; 8])];
    let bytes = TLVParser::pack(&blocks).unwrap();
    assert_eq!(field_named(Validity::deserialize(&bytes).unwrap_err()), "not_after");

    let blocks: Vec<(u8, &[u8])> = vec![(1u8, &[0; 8]), (2u8, &[0; 3])];
    let bytes = TLVParser::pack(&blocks).unwrap();
    assert_eq!(field_named(Validity::deserialize(&bytes).unwrap_err()), "not_before");

    let blocks: Vec<(u8, &[u8])> = vec![(2u8, b"Org")];
    let bytes = TLVParser::pack(&blocks).unwrap();
    assert_eq!(field_named(DistinguishedName::deserialize(&bytes).unwrap_err()), "common_name");

    let blocks: Vec<(u8, &[u8])> = vec![(1u8, b"CN"), (6u8, &[0xC0])];
    let bytes = TLVParser::pack(&blocks).unwrap();
    assert_eq!(field_named(DistinguishedName::deserialize(&bytes).unwrap_err()), "locality");
}

#[test]
fn nested_errors_are_passed_on() {
    let blocks: Vec<(u8, &[u8])> = vec![(1u8, &[1, 2, 3]), (2u8, &[1]), (3u8, &[0; 64])];
    let bytes = TLVParser::pack(&blocks).unwrap();
    assert!(matches!(Certificate::deserialize(&bytes), Err(StpcError::InvalidPacketError(_))));

    let cert = sample_certificate(SignatureAlgorithm::Ed25519);
    let mut tbs_blocks = TLVParser::unpack(&cert.tbs_certificate.serialize().unwrap()).unwrap();
    let bad_issuer = TLVParser::pack(&[(2u8, &b"Org"[..])]).unwrap();
    tbs_blocks[3].1 = bad_issuer;
    let refs: Vec<(u8, &[u8])> = tbs_blocks.iter().map(|(t, v)| (*t, v.as_slice())).collect();
    let tbs = TLVParser::pack(&refs).unwrap();
    assert_eq!(field_named(TbsCertificate::deserialize(&tbs).unwrap_err()), "common_name");
}

#[test]
fn with_serial_number_keeps_the_serial() {
    let dn = DistinguishedName::new("CN".to_string(), None, None, None, None, None, None);
    let tbs = TbsCertificate::with_serial_number(
        CertificateVersion::V1,
        [1, 2, 3, 4, 5, 6, 7, 8],
        SignatureAlgorithm::Falcon1024,
        dn.clone(),
        Validity::new(0, 1000),
        dn,
        vec![],
        String::new(),
    );
    assert_eq!(tbs.serial_number, [1, 2, 3, 4, 5, 6, 7, 8]);
    let back = TbsCertificate::deserialize(&tbs.serialize().unwrap()).unwrap();
    assert_eq!(back.serial_number, [1, 2, 3, 4, 5, 6, 7, 8]);
    assert_eq!(back.signature_algorithm, SignatureAlgorithm::Falcon1024);
}
