use vstd::prelude::*;
use vstd::slice::{slice_subrange, slice_to_vec};

use crate::error::StpcError;

verus! {

/// A block as the wire format sees it: a tag and the value bytes.
pub type BlockView = (u8, Seq<u8>);

/// The four big-endian bytes of `n`.
pub open spec fn be32(n: u32) -> Seq<u8> {
    seq![(n >> 24u32) as u8, (n >> 16u32) as u8, (n >> 8u32) as u8, n as u8]
}

/// The eight big-endian bytes of `n`.
pub open spec fn be64(n: u64) -> Seq<u8> {
    seq![
        (n >> 56u64) as u8,
        (n >> 48u64) as u8,
        (n >> 40u64) as u8,
        (n >> 32u64) as u8,
        (n >> 24u64) as u8,
        (n >> 16u64) as u8,
        (n >> 8u64) as u8,
        n as u8,
    ]
}

/// The integer that the first four bytes of `b` hold, big-endian.
pub open spec fn read_be32(b: Seq<u8>) -> u32 {
    ((b[0] as u32) << 24u32) | ((b[1] as u32) << 16u32) | ((b[2] as u32) << 8u32) | (b[3] as u32)
}

/// The integer that the first eight bytes of `b` hold, big-endian.
pub open spec fn read_be64(b: Seq<u8>) -> u64 {
    ((b[0] as u64) << 56u64) | ((b[1] as u64) << 48u64) | ((b[2] as u64) << 40u64) | ((b[3] as u64)
        << 32u64) | ((b[4] as u64) << 24u64) | ((b[5] as u64) << 16u64) | ((b[6] as u64) << 8u64)
        | (b[7] as u64)
}

/// One block on the wire: tag, four-byte length, value.
pub open spec fn block_bytes(b: BlockView) -> Seq<u8> {
    seq![b.0] + be32(b.1.len() as u32) + b.1
}

/// The blocks laid end to end, in order.
pub open spec fn payload(bs: Seq<BlockView>) -> Seq<u8>
    decreases bs.len(),
{
    if bs.len() == 0 {
        seq![]
    } else {
        block_bytes(bs[0]) + payload(bs.drop_first())
    }
}

/// Every value is short enough for its four-byte length field.
pub open spec fn lengths_fit(bs: Seq<BlockView>) -> bool {
    forall|i: int| 0 <= i < bs.len() ==> #[trigger] bs[i].1.len() <= u32::MAX
}

/// The packet for `bs`: the payload's length in eight bytes, then the payload;
/// `None` where a value or the whole payload is too long for its length field.
#[verifier::opaque]
pub open spec fn tlv_encoding(bs: Seq<BlockView>) -> Option<Seq<u8>> {
    if lengths_fit(bs) && payload(bs).len() <= u64::MAX {
        Some(be64(payload(bs).len() as u64) + payload(bs))
    } else {
        None
    }
}

/// The blocks that a payload holds, read from the front; `None` where a
/// header is cut short or a value runs past the end.
pub open spec fn parse_blocks(p: Seq<u8>) -> Option<Seq<BlockView>>
    decreases p.len(),
{
    if p.len() == 0 {
        Some(seq![])
    } else if p.len() < 5 {
        None
    } else {
        let n = read_be32(p.subrange(1, 5)) as int;
        if n > p.len() - 5 {
            None
        } else {
            match parse_blocks(p.subrange(5 + n, p.len() as int)) {
                Some(rest) => Some(seq![(p[0], p.subrange(5, 5 + n))] + rest),
                None => None,
            }
        }
    }
}

/// The first block of a payload whose value runs past the end: the offset
/// of its value, the length it claims and the bytes left there. `off` is
/// the offset of `p` in the whole payload.
pub open spec fn overrun(p: Seq<u8>, off: nat) -> Option<(nat, nat, nat)>
    decreases p.len(),
{
    if p.len() < 5 {
        None
    } else {
        let n = read_be32(p.subrange(1, 5)) as int;
        if n > p.len() - 5 {
            Some(((off + 5) as nat, n as nat, (p.len() - 5) as nat))
        } else {
            overrun(p.subrange(5 + n, p.len() as int), (off + 5 + n) as nat)
        }
    }
}

/// The payload of a packet whose length prefix fits the input.
pub open spec fn packet_payload(m: Seq<u8>) -> Option<Seq<u8>> {
    if m.len() < 8 {
        None
    } else {
        let total = read_be64(m.subrange(0, 8)) as int;
        if total > m.len() - 8 {
            None
        } else {
            Some(m.subrange(8, 8 + total))
        }
    }
}

/// The text of the error for a block value that runs past the end of the
/// payload.
pub uninterp spec fn overrun_message(offset: nat, claimed: nat, available: nat) -> Seq<char>;

/// The error text for a packet whose payload has a block value that runs past
/// its end; `None` for any other packet.
pub open spec fn overrun_report(m: Seq<u8>) -> Option<Seq<char>> {
    match packet_payload(m) {
        Some(p) => match overrun(p, 0) {
            Some((o, c, a)) => Some(overrun_message(o, c, a)),
            None => None,
        },
        None => None,
    }
}

/// Whether a result is the packet error that an overrun calls for, where the
/// packet has one.
pub open spec fn reports_overrun<T>(m: Seq<u8>, r: Result<T, StpcError>) -> bool {
    match overrun_report(m) {
        Some(t) => r matches Err(StpcError::InvalidPacketError(s)) && s@ == t,
        None => true,
    }
}

/// Relies on `format!`: the text depends on the three numbers alone.
#[verifier::external_body]
fn overrun_text(offset: usize, claimed: usize, available: usize) -> (r: String)
    ensures
        r@ == overrun_message(offset as nat, claimed as nat, available as nat),
{
    format!(
        "block at offset {} claims length {}, but only {} bytes remain",
        offset,
        claimed,
        available,
    )
}

/// The blocks of a packet; `None` where it is shorter than its length prefix,
/// or its payload does not parse.
#[verifier::opaque]
pub open spec fn tlv_decoding(m: Seq<u8>) -> Option<Seq<BlockView>> {
    if m.len() < 8 {
        None
    } else {
        let total = read_be64(m.subrange(0, 8)) as int;
        if total > m.len() - 8 {
            None
        } else {
            parse_blocks(m.subrange(8, 8 + total))
        }
    }
}

/// Blocks whose values are borrowed slices, as the wire format sees them.
pub open spec fn borrowed_blocks(bs: Seq<(u8, &[u8])>) -> Seq<BlockView> {
    bs.map_values(|b: (u8, &[u8])| (b.0, b.1@))
}

/// Blocks whose values are owned vectors, as the wire format sees them.
pub open spec fn owned_blocks(bs: Seq<(u8, Vec<u8>)>) -> Seq<BlockView> {
    bs.map_values(|b: (u8, Vec<u8>)| (b.0, b.1@))
}

/// `front` placed before the blocks of `rest`, where there are any.
pub open spec fn prepend(front: Seq<BlockView>, rest: Option<Seq<BlockView>>) -> Option<
    Seq<BlockView>,
> {
    match rest {
        Some(r) => Some(front + r),
        None => None,
    }
}

/// Packing and unpacking of tag-length-value packets.
pub trait TLV {
    /// Lays the blocks out in the order given, behind the payload's length.
    fn pack(blocks: &[(u8, &[u8])]) -> (r: Result<Vec<u8>, StpcError>)
        ensures
            match r {
                Ok(v) => tlv_encoding(borrowed_blocks(blocks@)) == Some(v@),
                Err(e) => tlv_encoding(borrowed_blocks(blocks@)) is None
                    && e is InvalidPacketError,
            },
    ;

    /// Reads the blocks of a packet back, in order, duplicates kept.
    fn unpack(message: &[u8]) -> (r: Result<Vec<(u8, Vec<u8>)>, StpcError>)
        ensures
            match r {
                Ok(v) => tlv_decoding(message@) == Some(owned_blocks(v@)),
                Err(e) => tlv_decoding(message@) is None && e is InvalidPacketError,
            },
            message@.len() < 8 ==> r is Err,
            reports_overrun(message@, r),
    ;
}

/// The tag-length-value codec.
#[derive(Debug)]
pub struct TLVParser {}

/// Unpacking fails on input shorter than the eight-byte prefix, on a declared
/// length beyond the bytes that follow it, on a block header cut short, and on
/// a value that runs past the end of the payload.
pub proof fn lemma_tlv_bounds(m: Seq<u8>)
    ensures
        m.len() < 8 ==> tlv_decoding(m) is None,
        m.len() >= 8 && read_be64(m.subrange(0, 8)) > m.len() - 8 ==> tlv_decoding(m) is None,
        forall|p: Seq<u8>| 0 < p.len() < 5 ==> #[trigger] parse_blocks(p) is None,
        forall|p: Seq<u8>|
            p.len() >= 5 && read_be32(p.subrange(1, 5)) > p.len() - 5 ==> #[trigger] parse_blocks(
                p,
            ) is None,
{
    reveal(tlv_decoding);
}

proof fn lemma_payload_push(bs: Seq<BlockView>, b: BlockView)
    ensures
        payload(bs.push(b)) == payload(bs) + block_bytes(b),
    decreases bs.len(),
{
    if bs.len() == 0 {
        assert(bs.push(b).drop_first() =~= bs);
        assert(payload(bs) == Seq::<u8>::empty());
        assert(payload(bs.push(b)) == block_bytes(b) + payload(bs));
        assert(payload(bs.push(b)) =~= payload(bs) + block_bytes(b));
    } else {
        assert(bs.push(b).drop_first() =~= bs.drop_first().push(b));
        lemma_payload_push(bs.drop_first(), b);
        assert(payload(bs.push(b)) =~= payload(bs) + block_bytes(b));
    }
}

proof fn lemma_be32_round_trip(n: u32)
    ensures
        read_be32(be32(n)) == n,
{
    assert(((((n >> 24u32) as u8) as u32) << 24u32) | ((((n >> 16u32) as u8) as u32) << 16u32)
        | ((((n >> 8u32) as u8) as u32) << 8u32) | ((n as u8) as u32) == n) by (bit_vector);
}

pub proof fn lemma_be64_round_trip(n: u64)
    ensures
        read_be64(be64(n)) == n,
{
    assert(((((n >> 56u64) as u8) as u64) << 56u64) | ((((n >> 48u64) as u8) as u64) << 48u64)
        | ((((n >> 40u64) as u8) as u64) << 40u64) | ((((n >> 32u64) as u8) as u64) << 32u64)
        | ((((n >> 24u64) as u8) as u64) << 24u64) | ((((n >> 16u64) as u8) as u64) << 16u64)
        | ((((n >> 8u64) as u8) as u64) << 8u64) | ((n as u8) as u64) == n) by (bit_vector);
}

proof fn lemma_parse_payload(bs: Seq<BlockView>)
    requires
        lengths_fit(bs),
    ensures
        parse_blocks(payload(bs)) == Some(bs),
    decreases bs.len(),
{
    if bs.len() == 0 {
        assert(bs =~= seq![]);
    } else {
        let b = bs[0];
        let rest = bs.drop_first();
        let p = payload(bs);
        let n = b.1.len() as int;
        assert(lengths_fit(rest)) by {
            assert forall|i: int| 0 <= i < rest.len() implies #[trigger] rest[i].1.len()
                <= u32::MAX by {
                assert(rest[i] == bs[i + 1]);
            }
        }
        lemma_parse_payload(rest);
        assert(bs[0].1.len() <= u32::MAX);
        assert(p.subrange(1, 5) =~= be32(n as u32));
        lemma_be32_round_trip(n as u32);
        assert(p.subrange(5, 5 + n) =~= b.1);
        assert(p.subrange(5 + n, p.len() as int) =~= payload(rest));
        assert(seq![(p[0], p.subrange(5, 5 + n))] + rest =~= bs);
    }
}

/// Unpacking a packed sequence of blocks gives the same blocks back, in the
/// same order.
pub proof fn lemma_tlv_round_trip(bs: Seq<BlockView>)
    requires
        tlv_encoding(bs) is Some,
    ensures
        tlv_decoding(tlv_encoding(bs).unwrap()) == Some(bs),
{
    reveal(tlv_encoding);
    reveal(tlv_decoding);
    let p = payload(bs);
    let m = tlv_encoding(bs).unwrap();
    assert(m.subrange(0, 8) =~= be64(p.len() as u64));
    lemma_be64_round_trip(p.len() as u64);
    assert(m.subrange(8, 8 + p.len() as int) =~= p);
    lemma_parse_payload(bs);
}

fn read_u32_be(b: &[u8], at: usize) -> (r: u32)
    requires
        at + 4 <= b@.len(),
    ensures
        r == read_be32(b@.subrange(at as int, at + 4)),
{
    ((b[at] as u32) << 24u32) | ((b[at + 1] as u32) << 16u32) | ((b[at + 2] as u32) << 8u32) | (b[at
        + 3] as u32)
}

pub(crate) fn read_u64_be(b: &[u8]) -> (r: u64)
    requires
        8 <= b@.len(),
    ensures
        r == read_be64(b@.subrange(0, 8)),
{
    ((b[0] as u64) << 56u64) | ((b[1] as u64) << 48u64) | ((b[2] as u64) << 40u64) | ((b[3] as u64)
        << 32u64) | ((b[4] as u64) << 24u64) | ((b[5] as u64) << 16u64) | ((b[6] as u64) << 8u64)
        | (b[7] as u64)
}

fn push_be32(out: &mut Vec<u8>, n: u32)
    ensures
        final(out)@ == old(out)@ + be32(n),
{
    out.push((n >> 24u32) as u8);
    out.push((n >> 16u32) as u8);
    out.push((n >> 8u32) as u8);
    out.push(n as u8);
    assert(final(out)@ =~= old(out)@ + be32(n));
}

pub(crate) fn be64_bytes(n: u64) -> (r: Vec<u8>)
    ensures
        r@ == be64(n),
{
    let r = vec![
        (n >> 56u64) as u8,
        (n >> 48u64) as u8,
        (n >> 40u64) as u8,
        (n >> 32u64) as u8,
        (n >> 24u64) as u8,
        (n >> 16u64) as u8,
        (n >> 8u64) as u8,
        n as u8,
    ];
    assert(r@ =~= be64(n));
    r
}

fn append_bytes(out: &mut Vec<u8>, data: &[u8])
    ensures
        final(out)@ == old(out)@ + data@,
{
    let mut tail = slice_to_vec(data);
    out.append(&mut tail);
}

impl TLV for TLVParser {
    fn pack(blocks: &[(u8, &[u8])]) -> (r: Result<Vec<u8>, StpcError>) {
        reveal(tlv_encoding);
        let ghost bs = borrowed_blocks(blocks@);
        let mut body: Vec<u8> = Vec::new();
        let mut i: usize = 0;
        while i < blocks.len()
            invariant
                bs == borrowed_blocks(blocks@),
                i <= blocks@.len(),
                body@ == payload(bs.take(i as int)),
                forall|j: int| 0 <= j < i ==> #[trigger] bs[j].1.len() <= u32::MAX,
            decreases blocks@.len() - i,
        {
            let (tag, data) = blocks[i];
            if data.len() > u32::MAX as usize {
                assert(bs[i as int].1.len() > u32::MAX);
                reveal(tlv_encoding);
                return Err(StpcError::InvalidPacketError("block value too long".to_string()));
            }
            proof {
                lemma_payload_push(bs.take(i as int), bs[i as int]);
                assert(bs.take(i + 1) =~= bs.take(i as int).push(bs[i as int]));
            }
            body.push(tag);
            push_be32(&mut body, data.len() as u32);
            append_bytes(&mut body, data);
            assert(body@ =~= payload(bs.take(i as int)) + block_bytes(bs[i as int]));
            i = i + 1;
        }
        assert(bs.take(i as int) =~= bs);
        let mut packet = be64_bytes(body.len() as u64);
        packet.append(&mut body);
        Ok(packet)
    }

    fn unpack(message: &[u8]) -> (r: Result<Vec<(u8, Vec<u8>)>, StpcError>) {
        reveal(tlv_decoding);
        if message.len() < 8 {
            assert(packet_payload(message@) is None);
            return Err(
                StpcError::InvalidPacketError("message must be at least 8 bytes".to_string()),
            );
        }
        let total: u64 = read_u64_be(message);
        if total > (message.len() - 8) as u64 {
            assert(packet_payload(message@) is None);
            return Err(
                StpcError::InvalidPacketError(
                    "declared length exceeds the bytes available".to_string(),
                ),
            );
        }
        let end: usize = 8 + total as usize;
        let ghost p = message@.subrange(8, end as int);
        assert(tlv_decoding(message@) == parse_blocks(p));
        assert(packet_payload(message@) == Some(p));
        let mut offset: usize = 8;
        let mut blocks: Vec<(u8, Vec<u8>)> = Vec::new();
        assert(message@.subrange(offset as int, end as int) =~= p);
        proof {
            assert(owned_blocks(blocks@) =~= seq![]);
            if parse_blocks(p) is Some {
                assert(owned_blocks(blocks@) + parse_blocks(p).unwrap() =~= parse_blocks(
                    p,
                ).unwrap());
            }
        }
        while offset < end
            invariant
                8 <= offset <= end <= message@.len(),
                p == message@.subrange(8, end as int),
                tlv_decoding(message@) == parse_blocks(p),
                packet_payload(message@) == Some(p),
                overrun(p, 0) == overrun(
                    message@.subrange(offset as int, end as int),
                    (offset - 8) as nat,
                ),
                parse_blocks(p) == prepend(
                    owned_blocks(blocks@),
                    parse_blocks(message@.subrange(offset as int, end as int)),
                ),
            decreases end - offset,
        {
            let ghost q = message@.subrange(offset as int, end as int);
            if end - offset < 5 {
                assert(parse_blocks(q) is None);
                return Err(
                    StpcError::InvalidPacketError("block header cut short".to_string()),
                );
            }
            let tag = message[offset];
            let length = read_u32_be(message, offset + 1) as usize;
            assert(q.subrange(1, 5) =~= message@.subrange(offset + 1, offset + 5));
            if length > end - offset - 5 {
                assert(parse_blocks(q) is None);
                return Err(
                    StpcError::InvalidPacketError(
                        overrun_text(offset - 8 + 5, length, end - offset - 5),
                    ),
                );
            }
            let start: usize = offset + 5;
            let stop: usize = start + length;
            let value = slice_to_vec(slice_subrange(message, start, stop));
            proof {
                let rest = parse_blocks(message@.subrange(stop as int, end as int));
                assert(q.subrange(5, 5 + length) =~= value@);
                assert(q.subrange(5 + length, q.len() as int) =~= message@.subrange(
                    stop as int,
                    end as int,
                ));
                assert(owned_blocks(blocks@.push((tag, value))) =~= owned_blocks(blocks@).push(
                    (tag, value@),
                ));
                if rest is Some {
                    assert(owned_blocks(blocks@).push((tag, value@)) + rest.unwrap()
                        =~= owned_blocks(blocks@) + (seq![(tag, value@)] + rest.unwrap()));
                }
            }
            blocks.push((tag, value));
            offset = stop;
        }
        assert(message@.subrange(offset as int, end as int) =~= seq![]);
        assert(owned_blocks(blocks@) + seq![] =~= owned_blocks(blocks@));
        Ok(blocks)
    }
}

} // verus!
