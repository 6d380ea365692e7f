use vstd::prelude::*;

verus! {

/// Fixed 16-bit prefix that opens every message header.
pub const PREFIX_ID: u16 = 0x03e4;

/// Payload bytes that fit in the first packet (20 - 3 - 6).
pub const FIRST_PACKET_DATA_MAX: usize = 11;

/// Payload bytes that fit in each continuation packet (20 - 3).
pub const NEXT_PACKET_DATA_MAX: usize = 17;

/// Largest payload whose packet count still fits the one-byte count field
/// (11 + 17 * 254 bytes, i.e. 255 packets).
pub const MAX_PAYLOAD_LEN: usize = 4329;

/// Number of packets for a payload of `n` bytes:
/// one header packet, then one packet per started 17 bytes past the first 11.
pub open spec fn chunk_count(n: int) -> int {
    1 + ((if n > 11 { n - 11 } else { 0 }) + 16) / 17
}

pub open spec fn min_of(a: int, b: int) -> int {
    if a < b { a } else { b }
}

/// Start offset of chunk `i` in a payload of `n` bytes.
pub open spec fn chunk_lo(n: int, i: int) -> int {
    if i == 0 { 0 } else { min_of(11 + 17 * (i - 1), n) }
}

/// End offset (exclusive) of chunk `i` in a payload of `n` bytes.
pub open spec fn chunk_hi(n: int, i: int) -> int {
    min_of(11 + 17 * i, n)
}

/// The payload bytes carried by packet `i`.
pub open spec fn chunk_spec(data: Seq<u8>, i: int) -> Seq<u8> {
    data.subrange(chunk_lo(data.len() as int, i), chunk_hi(data.len() as int, i))
}

/// Little-endian bytes of a 16-bit value.
pub open spec fn le16(v: u16) -> Seq<u8> {
    seq![(v % 256) as u8, (v / 256) as u8]
}

/// Packet `i` of the message for `opcode` and `data`.
pub open spec fn packet_spec(opcode: u16, data: Seq<u8>, i: int) -> Seq<u8> {
    let c = chunk_spec(data, i);
    let count = chunk_count(data.len() as int);
    if i == 0 {
        seq![1u8, count as u8, c.len() as u8] + le16(PREFIX_ID) + le16(opcode) + le16(
            data.len() as u16,
        ) + c
    } else {
        seq![(i + 1) as u8, count as u8, c.len() as u8] + c
    }
}

/// The whole packet sequence for one message.
pub open spec fn encode_spec(opcode: u16, data: Seq<u8>) -> Seq<Seq<u8>> {
    Seq::new(chunk_count(data.len() as int) as nat, |i: int| packet_spec(opcode, data, i))
}

/// Payload length declared in the message header of the first packet.
pub open spec fn decode_total_length(packets: Seq<Seq<u8>>) -> int {
    packets[0][7] as int + 256 * packets[0][8] as int
}

/// Payload bytes of packet `i` once its headers are stripped.
pub open spec fn packet_body(i: int, p: Seq<u8>) -> Seq<u8> {
    if i == 0 {
        p.subrange(9, p.len() as int)
    } else {
        p.subrange(3, p.len() as int)
    }
}

/// Payload bytes of the first `k` packets, in order.
pub open spec fn assembled(packets: Seq<Seq<u8>>, k: int) -> Seq<u8>
    decreases k,
{
    if k <= 0 {
        Seq::empty()
    } else {
        assembled(packets, k - 1) + packet_body(k - 1, packets[k - 1])
    }
}

/// The chunks joined end to end, in order.
pub open spec fn joined(chunks: Seq<Seq<u8>>) -> Seq<u8>
    decreases chunks.len(),
{
    if chunks.len() == 0 {
        Seq::empty()
    } else {
        joined(chunks.drop_last()) + chunks.last()
    }
}

/// Payload carried by a whole packet sequence.
pub open spec fn reassemble(packets: Seq<Seq<u8>>) -> Seq<u8> {
    assembled(packets, packets.len() as int)
}

proof fn lemma_count_exact(n: int, k: int)
    requires
        0 <= n,
        k >= 1,
        11 + 17 * (k - 1) >= n,
        k == 1 || 11 + 17 * (k - 2) < n,
    ensures
        k == chunk_count(n),
{
}

proof fn lemma_count_bounds(n: int)
    requires
        0 <= n <= MAX_PAYLOAD_LEN,
    ensures
        1 <= chunk_count(n) <= 255,
        11 + 17 * (chunk_count(n) - 1) >= n,
        chunk_count(n) == 1 || 11 + 17 * (chunk_count(n) - 2) < n,
{
}

/// Copies `data[lo..hi]` into a fresh vector.
fn copy_range(data: &[u8], lo: usize, hi: usize) -> (r: Vec<u8>)
    requires
        lo <= hi <= data@.len(),
    ensures
        r@ == data@.subrange(lo as int, hi as int),
{
    let mut r: Vec<u8> = Vec::new();
    let mut i: usize = lo;
    while i < hi
        invariant
            lo <= i <= hi <= data@.len(),
            r@ == data@.subrange(lo as int, i as int),
        decreases hi - i,
    {
        r.push(data[i]);
        i += 1;
        assert(r@ =~= data@.subrange(lo as int, i as int));
    }
    r
}

/// Splits a payload greedily: up to 11 bytes first, then up to 17 bytes each.
/// An empty payload gives one empty chunk; the chunks joined in order give
/// back the payload.
pub fn split_payload(data: &[u8]) -> (r: Vec<Vec<u8>>)
    ensures
        r@.len() == chunk_count(data@.len() as int),
        forall|i: int| 0 <= i < r@.len() ==> #[trigger] r@[i]@ == chunk_spec(data@, i),
        joined(r@.map_values(|c: Vec<u8>| c@)) == data@,
{
    let n = data.len();
    let mut chunks: Vec<Vec<u8>> = Vec::new();
    let first_end: usize = if n < FIRST_PACKET_DATA_MAX {
        n
    } else {
        FIRST_PACKET_DATA_MAX
    };
    chunks.push(copy_range(data, 0, first_end));
    let ghost mut views: Seq<Seq<u8>> = seq![chunks@[0]@];
    proof {
        assert(views.drop_last() =~= Seq::<Seq<u8>>::empty());
        assert(joined(Seq::<Seq<u8>>::empty()) =~= Seq::<u8>::empty());
        assert(joined(views) == joined(views.drop_last()) + views.last());
        assert(joined(views) =~= data@.subrange(0, first_end as int));
    }
    let mut offset: usize = first_end;
    while offset < n
        invariant
            n == data@.len(),
            chunks@.len() >= 1,
            offset <= n,
            offset == chunk_hi(n as int, chunks@.len() - 1),
            chunks@.len() == 1 || 11 + 17 * (chunks@.len() - 2) < n,
            forall|i: int| 0 <= i < chunks@.len() ==> #[trigger] chunks@[i]@ == chunk_spec(data@, i),
            views.len() == chunks@.len(),
            forall|i: int| 0 <= i < chunks@.len() ==> #[trigger] views[i] == chunks@[i]@,
            joined(views) == data@.subrange(0, offset as int),
        decreases n - offset,
    {
        let end: usize = if n - offset > NEXT_PACKET_DATA_MAX {
            offset + NEXT_PACKET_DATA_MAX
        } else {
            n
        };
        let chunk = copy_range(data, offset, end);
        proof {
            let old_views = views;
            views = views.push(chunk@);
            assert(views.drop_last() =~= old_views);
            assert(joined(views) =~= data@.subrange(0, end as int));
        }
        chunks.push(chunk);
        offset = end;
    }
    proof {
        lemma_count_exact(n as int, chunks@.len() as int);
        assert(views =~= chunks@.map_values(|c: Vec<u8>| c@));
        assert(data@.subrange(0, n as int) =~= data@);
    }
    chunks
}

fn push_le16(v: &mut Vec<u8>, x: u16)
    ensures
        final(v)@ == old(v)@ + le16(x),
{
    v.push((x % 256) as u8);
    v.push((x / 256) as u8);
    assert(final(v)@ =~= old(v)@ + le16(x));
}

/// Frames one message into wire packets of at most 20 bytes each.
pub fn build_packets(opcode: u16, data: &[u8]) -> (r: Vec<Vec<u8>>)
    requires
        data@.len() <= MAX_PAYLOAD_LEN,
    ensures
        r@.len() == chunk_count(data@.len() as int),
        forall|i: int| 0 <= i < r@.len() ==> #[trigger] r@[i]@ == packet_spec(opcode, data@, i),
{
    let data_len = data.len() as u16;
    let chunks = split_payload(data);
    let count = chunks.len() as u8;
    let mut packets: Vec<Vec<u8>> = Vec::new();
    let mut idx: usize = 0;
    proof {
        lemma_count_bounds(data@.len() as int);
    }
    while idx < chunks.len()
        invariant
            data@.len() <= MAX_PAYLOAD_LEN,
            data_len as int == data@.len(),
            chunks@.len() == chunk_count(data@.len() as int),
            chunks@.len() <= 255,
            count as int == chunks@.len(),
            forall|i: int| 0 <= i < chunks@.len() ==> #[trigger] chunks@[i]@ == chunk_spec(data@, i),
            idx <= chunks@.len(),
            packets@.len() == idx,
            forall|i: int|
                0 <= i < packets@.len() ==> #[trigger] packets@[i]@ == packet_spec(opcode, data@, i),
        decreases chunks@.len() - idx,
    {
        let chunk = &chunks[idx];
        let mut packet: Vec<u8> = Vec::new();
        if idx == 0 {
            packet.push(1);
            packet.push(count);
            packet.push(chunk.len() as u8);
            push_le16(&mut packet, PREFIX_ID);
            push_le16(&mut packet, opcode);
            push_le16(&mut packet, data_len);
        } else {
            packet.push((idx + 1) as u8);
            packet.push(count);
            packet.push(chunk.len() as u8);
        }
        packet.extend_from_slice(chunk.as_slice());
        assert(packet@ =~= packet_spec(opcode, data@, idx as int));
        packets.push(packet);
        idx += 1;
    }
    packets
}

proof fn lemma_assembled_prefix(opcode: u16, data: Seq<u8>, k: int)
    requires
        data.len() <= MAX_PAYLOAD_LEN,
        1 <= k <= chunk_count(data.len() as int),
    ensures
        assembled(encode_spec(opcode, data), k) == data.subrange(0, chunk_hi(data.len() as int, k - 1)),
    decreases k,
{
    let e = encode_spec(opcode, data);
    let p = packet_spec(opcode, data, k - 1);
    assert(e[k - 1] == p);
    assert(packet_body(k - 1, p) =~= chunk_spec(data, k - 1));
    assert(assembled(e, k) == assembled(e, k - 1) + chunk_spec(data, k - 1));
    if k > 1 {
        lemma_assembled_prefix(opcode, data, k - 1);
        assert(chunk_lo(data.len() as int, k - 1) == chunk_hi(data.len() as int, k - 2));
    } else {
        assert(assembled(e, 0) =~= Seq::<u8>::empty());
    }
    assert(assembled(e, k) =~= data.subrange(0, chunk_hi(data.len() as int, k - 1)));
}

/// Encoding then reading the header and reassembling the chunks gives back
/// the payload length and the payload itself.
pub proof fn lemma_round_trip(opcode: u16, data: Seq<u8>)
    requires
        data.len() <= MAX_PAYLOAD_LEN,
    ensures
        decode_total_length(encode_spec(opcode, data)) == data.len(),
        reassemble(encode_spec(opcode, data)) == data,
{
    let n = data.len() as int;
    lemma_count_bounds(n);
    let e = encode_spec(opcode, data);
    let p0 = packet_spec(opcode, data, 0);
    assert(e[0] == p0);
    assert(p0[7] == (data.len() as u16) % 256);
    assert(p0[8] == (data.len() as u16) / 256);
    lemma_assembled_prefix(opcode, data, chunk_count(n));
    assert(data.subrange(0, n) =~= data);
}

/// A message has `1 + ceil(max(0, len - 11) / 17)` packets; an empty payload
/// gives exactly one.
pub proof fn lemma_packet_count(opcode: u16, data: Seq<u8>)
    ensures
        encode_spec(opcode, data).len() == 1 + ((if data.len() > 11 {
            data.len() - 11
        } else {
            0
        }) + 16) / 17,
        data.len() == 0 ==> encode_spec(opcode, data).len() == 1,
{
}

/// Every packet of one message carries its 1-based index, the same total
/// count (the number of packets), and at most 20 bytes.
pub proof fn lemma_packet_numbering(opcode: u16, data: Seq<u8>)
    requires
        data.len() <= MAX_PAYLOAD_LEN,
    ensures
        forall|i: int|
            0 <= i < encode_spec(opcode, data).len() ==> {
                &&& #[trigger] encode_spec(opcode, data)[i][0] == i + 1
                &&& encode_spec(opcode, data)[i][1] == encode_spec(opcode, data).len()
                &&& encode_spec(opcode, data)[i].len() <= 20
            },
{
    lemma_count_bounds(data.len() as int);
}

} // verus!
