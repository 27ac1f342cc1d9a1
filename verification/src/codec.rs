use vstd::prelude::*;

verus! {

/// The value that four bytes hold when read as an unsigned 32-bit
/// little-endian integer: `b0` is the least significant byte.
pub open spec fn le_u32(b0: u8, b1: u8, b2: u8, b3: u8) -> u32 {
    (b0 as u32) | ((b1 as u32) << 8) | ((b2 as u32) << 16) | ((b3 as u32) << 24)
}

/// The value held by the first four bytes of `bytes`, little-endian.
pub open spec fn le_u32_of(bytes: Seq<u8>) -> u32
    recommends
        bytes.len() >= 4,
{
    le_u32(bytes[0], bytes[1], bytes[2], bytes[3])
}

/// The four-byte little-endian encoding of `n`, least significant byte first.
pub open spec fn le_bytes(n: u32) -> Seq<u8> {
    seq![
        (n & 0xff) as u8,
        ((n >> 8) & 0xff) as u8,
        ((n >> 16) & 0xff) as u8,
        ((n >> 24) & 0xff) as u8,
    ]
}

/// Decoding the little-endian encoding of `n` gives back `n`.
pub proof fn lemma_le_round_trip(n: u32)
    ensures
        le_u32_of(le_bytes(n)) == n,
{
    assert(le_u32(
        (n & 0xff) as u8,
        ((n >> 8) & 0xff) as u8,
        ((n >> 16) & 0xff) as u8,
        ((n >> 24) & 0xff) as u8,
    ) == n) by (bit_vector);
}

/// Reads the four bytes of `bytes` that start at `offset` as a little-endian
/// unsigned 32-bit integer.
pub fn read_le_u32(bytes: &[u8], offset: usize) -> (r: u32)
    requires
        offset + 4 <= bytes@.len(),
    ensures
        r == le_u32(
            bytes@[offset as int],
            bytes@[offset + 1],
            bytes@[offset + 2],
            bytes@[offset + 3],
        ),
{
    (bytes[offset] as u32) | ((bytes[offset + 1] as u32) << 8)
        | ((bytes[offset + 2] as u32) << 16) | ((bytes[offset + 3] as u32) << 24)
}

/// Writes `n` as four little-endian bytes into a fresh buffer.
pub fn write_le_u32(n: u32) -> (r: Vec<u8>)
    ensures
        r@ == le_bytes(n),
        r@.len() == 4,
{
    let r = vec![
        (n & 0xff) as u8,
        ((n >> 8) & 0xff) as u8,
        ((n >> 16) & 0xff) as u8,
        ((n >> 24) & 0xff) as u8,
    ];
    assert(r@ =~= le_bytes(n));
    r
}

} // verus!
