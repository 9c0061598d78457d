use stpc::{CertSerializable, StpcError, TLVParser, Validity, TLV};

#[test]
fn encoding() -> Result<(), StpcError> {
    let blocks: Vec<(u8, &[u8])> = vec![(1u8, b"Hello!"), (2u8, b"From!"), (3u8, b"TLVParser!")];

    let _packed = TLVParser::pack(&blocks)?;
    Ok(())
}

#[test]
fn decoding() -> Result<(), StpcError> {
    let blocks: Vec<(u8, &[u8])> = vec![(1u8, b"Hello!"), (2u8, b"From!"), (3u8, b"TLVParser!")];

    let packed = TLVParser::pack(&blocks)?;

    let _unpacked = TLVParser::unpack(&packed)?;
    Ok(())
}

#[test]
fn unpack_returns_the_packed_blocks_in_order() {
    let blocks: Vec<(u8, &[u8])> = vec![(1u8, b"Hello!"), (2u8, b"From!"), (3u8, b"TLVParser!")];
    let packed = TLVParser::pack(&blocks).unwrap();
    let unpacked = TLVParser::unpack(&packed).unwrap();
    assert_eq!(
        unpacked,
        vec![
            (1u8, b"Hello!".to_vec()),
            (2u8, b"From!".to_vec()),
            (3u8, b"TLVParser!".to_vec()),
        ]
    );
}

#[test]
fn pack_lays_out_the_exact_bytes() {
    let blocks: Vec<(u8, &[u8])> = vec![(7u8, &[0xAA, 0xBB]), (1u8, &[])];
    let packed = TLVParser::pack(&blocks).unwrap();
    assert_eq!(
        packed,
        vec![0, 0, 0, 0, 0, 0, 0, 12, 7, 0, 0, 0, 2, 0xAA, 0xBB, 1, 0, 0, 0, 0]
    );
}

#[test]
fn pack_of_nothing_is_a_zero_length_prefix() {
    let blocks: Vec<(u8, &[u8])> = vec![];
    assert_eq!(TLVParser::pack(&blocks).unwrap(), vec![0u8; 8]);
    assert_eq!(TLVParser::unpack(&[0u8; 8]).unwrap(), vec![]);
}

#[test]
fn duplicate_tags_are_kept() {
    let blocks: Vec<(u8, &[u8])> = vec![(4u8, b"a"), (4u8, b"b")];
    let packed = TLVParser::pack(&blocks).unwrap();
    let unpacked = TLVParser::unpack(&packed).unwrap();
    assert_eq!(unpacked, vec![(4u8, b"a".to_vec()), (4u8, b"b".to_vec())]);
}

#[test]
fn unpack_rejects_input_shorter_than_the_prefix() {
    assert!(matches!(TLVParser::unpack(&[0u8; 7]), Err(StpcError::InvalidPacketError(_))));
    assert!(matches!(TLVParser::unpack(&[]), Err(StpcError::InvalidPacketError(_))));
}

#[test]
fn unpack_rejects_a_declared_length_beyond_the_input() {
    let msg = [0u8, 0, 0, 0, 0, 0, 0, 6, 1, 0, 0, 0, 0];
    assert!(matches!(TLVParser::unpack(&msg), Err(StpcError::InvalidPacketError(_))));
}

#[test]
fn unpack_rejects_a_truncated_block_header() {
    let msg = [0u8, 0, 0, 0, 0, 0, 0, 3, 1, 0, 0];
    assert!(matches!(TLVParser::unpack(&msg), Err(StpcError::InvalidPacketError(_))));
}

#[test]
fn unpack_rejects_a_value_running_past_the_end() {
    let msg = [0u8, 0, 0, 0, 0, 0, 0, 6, 1, 0, 0, 0, 2, 9];
    assert!(matches!(TLVParser::unpack(&msg), Err(StpcError::InvalidPacketError(_))));
}

#[test]
fn unpack_ignores_bytes_after_the_declared_payload() {
    let msg = [0u8, 0, 0, 0, 0, 0, 0, 6, 1, 0, 0, 0, 1, 9, 0xFF, 0xFF];
    assert_eq!(TLVParser::unpack(&msg).unwrap(), vec![(1u8, vec![9u8])]);
}

#[test]
fn overlong_value_error_reports_offset_claim_and_room() {
    let msg = [0u8, 0, 0, 0, 0, 0, 0, 10, 1, 0, 0, 0, 0, 2, 0, 0, 0, 9];
    match TLVParser::unpack(&msg) {
        Err(StpcError::InvalidPacketError(s)) => {
            assert_eq!(s, "block at offset 10 claims length 9, but only 0 bytes remain")
        }
        other => panic!("unexpected result {:?}", other),
    }
}

#[test]
fn decoders_pass_on_the_packet_reason() {
    let msg = [0u8, 0, 0, 0, 0, 0, 0, 10, 1, 0, 0, 0, 0, 2, 0, 0, 0, 9];
    match Validity::deserialize(&msg) {
        Err(StpcError::InvalidPacketError(s)) => {
            assert_eq!(s, "block at offset 10 claims length 9, but only 0 bytes remain")
        }
        other => panic!("unexpected result {:?}", other.map(|v| v.not_after)),
    }
}
