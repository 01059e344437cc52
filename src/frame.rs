use vstd::prelude::*;

verus! {

/// The four bytes "NEXA" read as a big-endian integer.
pub const MAGIC: u32 = 0x4E455841;

/// The protocol version this client speaks.
pub const VERSION: u8 = 0x01;

/// Length of the fixed header in bytes.
pub const HEADER_LEN: usize = 12;

pub const MSG_CONNECT: u8 = 0x01;
pub const MSG_CREATE: u8 = 0x02;
pub const MSG_READ: u8 = 0x03;
pub const MSG_UPDATE: u8 = 0x04;
pub const MSG_DELETE: u8 = 0x05;
pub const MSG_QUERY: u8 = 0x06;
pub const MSG_VECTOR_SEARCH: u8 = 0x07;
pub const MSG_LIST_COLLECTIONS: u8 = 0x20;

pub const MSG_SUCCESS: u8 = 0x81;
pub const MSG_ERROR: u8 = 0x82;
pub const MSG_NOT_FOUND: u8 = 0x83;

/// The decoded fields of a frame header.
#[derive(Clone, Copy, Debug, PartialEq, Eq, Structural)]
pub struct Header {
    pub magic: u32,
    pub version: u8,
    pub message_type: u8,
    pub flags: u16,
    pub payload_length: u32,
}

/// Failures that show the peer is not speaking this protocol.
#[derive(Clone, Copy, Debug, PartialEq, Eq, Structural)]
pub enum ProtocolError {
    BadMagic(u32),
    Truncated,
    UnknownResponseType(u8),
}

pub open spec fn be_u32(a: u8, b: u8, c: u8, d: u8) -> u32 {
    ((a as u32) << 24u32) | ((b as u32) << 16u32) | ((c as u32) << 8u32) | (d as u32)
}

pub open spec fn be_u16(a: u8, b: u8) -> u16 {
    ((a as u16) << 8u16) | (b as u16)
}

/// The four big-endian bytes of `n`.
pub open spec fn u32_bytes(n: u32) -> Seq<u8> {
    seq![(n >> 24u32) as u8, (n >> 16u32) as u8, (n >> 8u32) as u8, n as u8]
}

/// The header that precedes a payload of `len` bytes with message type `t`.
pub open spec fn header_bytes(t: u8, len: u32) -> Seq<u8> {
    u32_bytes(MAGIC) + seq![VERSION, t, 0u8, 0u8] + u32_bytes(len)
}

/// What a header of at least twelve bytes decodes to.
pub open spec fn decode_spec(b: Seq<u8>) -> Result<Header, ProtocolError> {
    if b.len() < 12 {
        Err(ProtocolError::Truncated)
    } else {
        let magic = be_u32(b[0], b[1], b[2], b[3]);
        if magic != MAGIC {
            Err(ProtocolError::BadMagic(magic))
        } else {
            Ok(
                Header {
                    magic,
                    version: b[4],
                    message_type: b[5],
                    flags: be_u16(b[6], b[7]),
                    payload_length: be_u32(b[8], b[9], b[10], b[11]),
                },
            )
        }
    }
}

fn push_u32(out: &mut Vec<u8>, n: u32)
    ensures
        final(out)@ == old(out)@ + u32_bytes(n),
{
    out.push((n >> 24u32) as u8);
    out.push((n >> 16u32) as u8);
    out.push((n >> 8u32) as u8);
    out.push(n as u8);
    assert(final(out)@ =~= old(out)@ + u32_bytes(n));
}

/// Frames `payload` under message type `msg_type`: the twelve-byte header, then the payload.
pub fn encode_frame(msg_type: u8, payload: &Vec<u8>) -> (r: Vec<u8>)
    requires
        payload@.len() <= u32::MAX,
    ensures
        r@ == header_bytes(msg_type, payload@.len() as u32) + payload@,
{
    let len = payload.len() as u32;
    let mut out: Vec<u8> = Vec::new();
    push_u32(&mut out, MAGIC);
    out.push(VERSION);
    out.push(msg_type);
    out.push(0u8);
    out.push(0u8);
    push_u32(&mut out, len);
    let ghost head = out@;
    assert(head =~= header_bytes(msg_type, len));
    let mut i: usize = 0;
    while i < payload.len()
        invariant
            i <= payload@.len(),
            out@ == head + payload@.subrange(0, i as int),
        decreases payload@.len() - i,
    {
        out.push(payload[i]);
        i = i + 1;
        assert(out@ =~= head + payload@.subrange(0, i as int));
    }
    assert(payload@.subrange(0, payload@.len() as int) =~= payload@);
    out
}

/// Reads the header at the start of `bytes`. Fewer than twelve bytes is `Truncated`;
/// a magic other than `MAGIC` is `BadMagic`. The payload is not looked at.
pub fn decode_header(bytes: &[u8]) -> (r: Result<Header, ProtocolError>)
    ensures
        r == decode_spec(bytes@),
{
    if bytes.len() < HEADER_LEN {
        return Err(ProtocolError::Truncated);
    }
    let magic = ((bytes[0] as u32) << 24u32) | ((bytes[1] as u32) << 16u32) | ((bytes[2] as u32)
        << 8u32) | (bytes[3] as u32);
    if magic != MAGIC {
        return Err(ProtocolError::BadMagic(magic));
    }
    let flags = ((bytes[6] as u16) << 8u16) | (bytes[7] as u16);
    let payload_length = ((bytes[8] as u32) << 24u32) | ((bytes[9] as u32) << 16u32) | ((
    bytes[10] as u32) << 8u32) | (bytes[11] as u32);
    Ok(Header { magic, version: bytes[4], message_type: bytes[5], flags, payload_length })
}

proof fn lemma_u32_bytes_inverse(n: u32)
    ensures
        be_u32((n >> 24u32) as u8, (n >> 16u32) as u8, (n >> 8u32) as u8, n as u8) == n,
{
    assert((((n >> 24u32) as u8 as u32) << 24u32) | (((n >> 16u32) as u8 as u32) << 16u32) | (((n
        >> 8u32) as u8 as u32) << 8u32) | (n as u8 as u32) == n) by (bit_vector);
}

proof fn lemma_be_u32_injective(a: u8, b: u8, c: u8, d: u8)
    ensures
        (be_u32(a, b, c, d) >> 24u32) as u8 == a,
        (be_u32(a, b, c, d) >> 16u32) as u8 == b,
        (be_u32(a, b, c, d) >> 8u32) as u8 == c,
        be_u32(a, b, c, d) as u8 == d,
{
    let n = be_u32(a, b, c, d);
    assert(n == ((a as u32) << 24u32) | ((b as u32) << 16u32) | ((c as u32) << 8u32) | (d as u32));
    assert((((((a as u32) << 24u32) | ((b as u32) << 16u32) | ((c as u32) << 8u32) | (d as u32))
        >> 24u32) as u8 == a)) by (bit_vector);
    assert((((((a as u32) << 24u32) | ((b as u32) << 16u32) | ((c as u32) << 8u32) | (d as u32))
        >> 16u32) as u8 == b)) by (bit_vector);
    assert((((((a as u32) << 24u32) | ((b as u32) << 16u32) | ((c as u32) << 8u32) | (d as u32))
        >> 8u32) as u8 == c)) by (bit_vector);
    assert(((((a as u32) << 24u32) | ((b as u32) << 16u32) | ((c as u32) << 8u32) | (d as u32))
        as u8 == d)) by (bit_vector);
}

/// Decoding the first twelve bytes of a frame gives back the magic, the version,
/// the message type, zero flags and the payload's length.
pub proof fn lemma_frame_round_trip(t: u8, payload: Seq<u8>)
    requires
        payload.len() <= u32::MAX,
    ensures
        decode_spec((header_bytes(t, payload.len() as u32) + payload).subrange(0, 12))
            == Ok::<Header, ProtocolError>(
            Header {
                magic: MAGIC,
                version: VERSION,
                message_type: t,
                flags: 0,
                payload_length: payload.len() as u32,
            },
        ),
{
    let len = payload.len() as u32;
    let b = (header_bytes(t, len) + payload).subrange(0, 12);
    assert(b =~= header_bytes(t, len));
    lemma_u32_bytes_inverse(MAGIC);
    lemma_u32_bytes_inverse(len);
    assert(be_u16(0u8, 0u8) == 0u16) by (bit_vector);
}

/// Whatever the other fields hold, a header whose first four bytes are not "NEXA"
/// is refused as `BadMagic`.
pub proof fn lemma_bad_magic(b: Seq<u8>)
    requires
        b.len() >= 12,
        b.subrange(0, 4) != u32_bytes(MAGIC),
    ensures
        decode_spec(b) == Err::<Header, ProtocolError>(
            ProtocolError::BadMagic(be_u32(b[0], b[1], b[2], b[3])),
        ),
{
    lemma_be_u32_injective(b[0], b[1], b[2], b[3]);
    if be_u32(b[0], b[1], b[2], b[3]) == MAGIC {
        assert(b.subrange(0, 4) =~= u32_bytes(MAGIC));
    }
}

} // verus!
