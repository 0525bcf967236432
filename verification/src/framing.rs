use vstd::prelude::*;

verus! {

/// Number of bytes in a frame's length header.
pub const FRAME_HEADER_LEN: usize = 4;

/// The big-endian bytes of a 32-bit value.
pub open spec fn be_bytes(n: u32) -> Seq<u8> {
    seq![
        (n / 0x100_0000) as u8,
        ((n / 0x1_0000) % 0x100) as u8,
        ((n / 0x100) % 0x100) as u8,
        (n % 0x100) as u8,
    ]
}

/// The value of four big-endian bytes.
pub open spec fn be_value(b: Seq<u8>) -> int
    recommends
        b.len() == 4,
{
    b[0] * 0x100_0000 + b[1] * 0x1_0000 + b[2] * 0x100 + b[3]
}

/// The length header written in front of a payload of `len` bytes: the
/// length, cut to 32 bits, in big-endian order.
pub open spec fn frame_header(len: nat) -> Seq<u8> {
    be_bytes((len % 0x1_0000_0000) as u32)
}

/// A payload as it travels on the wire: its length header, then the payload.
pub open spec fn frame(payload: Seq<u8>) -> Seq<u8> {
    frame_header(payload.len()) + payload
}

proof fn lemma_be_value_of_bytes(n: u32)
    ensures
        be_value(be_bytes(n)) == n,
{
    let b = be_bytes(n);
    assert(b[0] == n / 0x100_0000);
    assert(b[1] == (n / 0x1_0000) % 0x100);
    assert(b[2] == (n / 0x100) % 0x100);
    assert(b[3] == n % 0x100);
    assert((n / 0x100_0000) * 0x100_0000 + ((n / 0x1_0000) % 0x100) * 0x1_0000
        + ((n / 0x100) % 0x100) * 0x100 + n % 0x100 == n) by (nonlinear_arith);
}

/// Frames the payload for the wire: its length as a big-endian `u32`, then
/// the payload itself. A payload longer than `u32::MAX` bytes gets its length
/// cut to 32 bits, as the `as u32` conversion of the original does.
pub fn encode_frame(payload: &[u8]) -> (res: Vec<u8>)
    ensures
        res@ == frame(payload@),
{
    let n: usize = payload.len();
    let len: u32 = n as u32;
    let n64: u64 = n as u64;
    assert(len == n64 % 0x1_0000_0000) by (bit_vector)
        requires
            len == n as u32,
            n64 == n as u64,
    ;
    let mut res: Vec<u8> = Vec::new();
    res.push((len / 0x100_0000) as u8);
    res.push(((len / 0x1_0000) % 0x100) as u8);
    res.push(((len / 0x100) % 0x100) as u8);
    res.push((len % 0x100) as u8);
    assert(res@ == frame_header(payload@.len()));
    let mut i: usize = 0;
    while i < payload.len()
        invariant
            i <= payload@.len(),
            res@ == frame_header(payload@.len()) + payload@.subrange(0, i as int),
        decreases payload@.len() - i,
    {
        res.push(payload[i]);
        assert(payload@.subrange(0, i + 1) == payload@.subrange(0, i as int).push(payload@[i as int]));
        i += 1;
    }
    assert(payload@.subrange(0, payload@.len() as int) == payload@);
    res
}

/// Reads the payload length from a frame header: its four bytes as a
/// big-endian `u32`.
pub fn frame_payload_len(header: [u8; 4]) -> (len: u32)
    ensures
        len == be_value(header@),
        len == header[0] as int * 0x100_0000 + header[1] as int * 0x1_0000 + header[2] as int * 0x100
            + header[3] as int,
{
    (header[0] as u32) * 0x100_0000 + (header[1] as u32) * 0x1_0000 + (header[2] as u32) * 0x100
        + (header[3] as u32)
}

/// What a reader takes from a frame gives back what the writer framed: the
/// first four bytes hold the payload's length, and the payload follows them
/// unchanged, whatever comes after the frame on the wire. This holds for every
/// payload whose length fits in 32 bits.
pub proof fn lemma_frame_roundtrip(payload: Seq<u8>, rest: Seq<u8>)
    requires
        payload.len() <= u32::MAX,
    ensures
        ({
            let wire = frame(payload) + rest;
            &&& wire.subrange(0, 4) == frame_header(payload.len())
            &&& be_value(wire.subrange(0, 4)) == payload.len()
            &&& wire.subrange(4, 4 + payload.len() as int) == payload
            &&& wire.subrange(4 + payload.len() as int, wire.len() as int) == rest
        }),
{
    let wire = frame(payload) + rest;
    assert(payload.len() % 0x1_0000_0000 == payload.len());
    lemma_be_value_of_bytes(payload.len() as u32);
    assert(wire.subrange(0, 4) == frame_header(payload.len()));
    assert(wire.subrange(4, 4 + payload.len() as int) == payload);
    assert(wire.subrange(4 + payload.len() as int, wire.len() as int) == rest);
}

/// The header is the standard big-endian encoding of the length, as
/// `u32::to_be_bytes` gives it: the most significant byte first, each byte
/// the corresponding eight bits of the value.
pub proof fn lemma_be_bytes_is_standard(n: u32)
    ensures
        be_bytes(n) =~= seq![
            (n >> 24) as u8,
            ((n >> 16) & 0xff) as u8,
            ((n >> 8) & 0xff) as u8,
            (n & 0xff) as u8,
        ],
        be_bytes(n).len() == 4,
{
    assert((n / 0x100_0000) as u8 == (n >> 24) as u8) by (bit_vector);
    assert(((n / 0x1_0000) % 0x100) as u8 == ((n >> 16) & 0xff) as u8) by (bit_vector);
    assert(((n / 0x100) % 0x100) as u8 == ((n >> 8) & 0xff) as u8) by (bit_vector);
    assert((n % 0x100) as u8 == (n & 0xff) as u8) by (bit_vector);
}

/// Reading a header is the standard big-endian decoding, as
/// `u32::from_be_bytes` gives it: the first byte weighs 2^24, the second 2^16,
/// the third 2^8 and the last 1.
pub proof fn lemma_be_value_is_standard(b: Seq<u8>)
    requires
        b.len() == 4,
    ensures
        be_value(b) == b[0] * 16777216 + b[1] * 65536 + b[2] * 256 + b[3],
        0 <= be_value(b) <= u32::MAX,
{
}

/// Every frame starts with the four big-endian bytes of its payload's length
/// (cut to 32 bits), and the payload follows them unchanged.
pub proof fn lemma_frame_layout(payload: Seq<u8>)
    ensures
        ({
            let n = (payload.len() % 0x1_0000_0000) as u32;
            &&& frame(payload).len() == payload.len() + 4
            &&& frame(payload)[0] == (n >> 24) as u8
            &&& frame(payload)[1] == ((n >> 16) & 0xff) as u8
            &&& frame(payload)[2] == ((n >> 8) & 0xff) as u8
            &&& frame(payload)[3] == (n & 0xff) as u8
            &&& frame(payload).subrange(4, frame(payload).len() as int) == payload
        }),
{
    let n = (payload.len() % 0x1_0000_0000) as u32;
    lemma_be_bytes_is_standard(n);
    let f = frame(payload);
    assert(f.subrange(4, f.len() as int) =~= payload);
}

/// Writer and reader use the same length: the header written for a payload
/// of at most `u32::MAX` bytes reads back, by the standard big-endian rule, as
/// that payload's length.
pub proof fn lemma_header_reads_back_length(payload: Seq<u8>)
    requires
        payload.len() <= u32::MAX,
    ensures
        ({
            let h = frame(payload).subrange(0, 4);
            h[0] * 16777216 + h[1] * 65536 + h[2] * 256 + h[3] == payload.len()
        }),
{
    lemma_frame_roundtrip(payload, Seq::empty());
    assert(frame(payload) + Seq::<u8>::empty() =~= frame(payload));
    lemma_be_value_is_standard(frame(payload).subrange(0, 4));
}

} // verus!
