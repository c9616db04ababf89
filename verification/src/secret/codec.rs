//! Big-endian encoding of a 32-bit unsigned integer in four bytes.

use vstd::prelude::*;

verus! {

/// Number of bytes that hold an encoded `u32`.
pub const U32_SIZE: usize = 4;

/// The four bytes of `val`, most significant first.
pub open spec fn be_bytes_of_u32(val: u32) -> Seq<u8> {
    seq![
        (val / 0x100_0000) as u8,
        (val / 0x1_0000 % 0x100) as u8,
        (val / 0x100 % 0x100) as u8,
        (val % 0x100) as u8,
    ]
}

/// The number whose base-256 digits, most significant first, are the first
/// four bytes of `bytes`.
pub open spec fn u32_of_be_bytes(bytes: Seq<u8>) -> int
    recommends
        bytes.len() == U32_SIZE,
{
    bytes[0] * 0x100_0000 + bytes[1] * 0x1_0000 + bytes[2] * 0x100 + bytes[3]
}

/// Writes `val` into `arr`, most significant byte first.
pub fn convert_uint32_to_big_endian_array(arr: &mut [u8], val: u32)
    requires
        old(arr)@.len() == U32_SIZE,
    ensures
        final(arr)@ == be_bytes_of_u32(val),
{
    assert(((val >> 24) & 0xff) == val / 0x100_0000) by (bit_vector);
    assert(((val >> 16) & 0xff) == val / 0x1_0000 % 0x100) by (bit_vector);
    assert(((val >> 8) & 0xff) == val / 0x100 % 0x100) by (bit_vector);
    assert((val & 0xff) == val % 0x100) by (bit_vector);
    arr[0] = ((val >> 24) & 0xff) as u8;
    arr[1] = ((val >> 16) & 0xff) as u8;
    arr[2] = ((val >> 8) & 0xff) as u8;
    arr[3] = (val & 0xff) as u8;
}

/// Reads the big-endian number held in the four bytes of `arr`.
pub fn convert_big_endian_array_to_uint32(arr: &[u8]) -> (val: u32)
    requires
        arr@.len() == U32_SIZE,
    ensures
        val == u32_of_be_bytes(arr@),
{
    let b0: u32 = arr[0] as u32;
    let b1: u32 = arr[1] as u32;
    let b2: u32 = arr[2] as u32;
    let b3: u32 = arr[3] as u32;
    assert((((b0 << 24) & 0xFF000000) | ((b1 << 16) & 0x00FF0000) | ((b2 << 8) & 0x0000FF00) | (b3
        & 0x000000FF)) == b0 * 0x100_0000 + b1 * 0x1_0000 + b2 * 0x100 + b3) by (bit_vector)
        requires
            b0 < 0x100,
            b1 < 0x100,
            b2 < 0x100,
            b3 < 0x100,
    ;
    ((b0 << 24) & 0xFF000000) | ((b1 << 16) & 0x00FF0000) | ((b2 << 8) & 0x0000FF00) | (b3
        & 0x000000FF)
}

/// Decoding undoes encoding: every `u32` survives a trip through its bytes.
pub proof fn lemma_u32_round_trip(val: u32)
    ensures
        be_bytes_of_u32(val).len() == U32_SIZE,
        u32_of_be_bytes(be_bytes_of_u32(val)) == val,
{
    assert((val / 0x100_0000) < 0x100 && (val / 0x100_0000) * 0x100_0000 + (val / 0x1_0000 % 0x100)
        * 0x1_0000 + (val / 0x100 % 0x100) * 0x100 + (val % 0x100) == val) by (bit_vector);
}

/// Encoding undoes decoding: four bytes are the encoding of the number they
/// hold, which always fits in a `u32`.
pub proof fn lemma_bytes_round_trip(bytes: Seq<u8>)
    requires
        bytes.len() == U32_SIZE,
    ensures
        0 <= u32_of_be_bytes(bytes) <= u32::MAX,
        be_bytes_of_u32(u32_of_be_bytes(bytes) as u32) == bytes,
{
    let b0: u8 = bytes[0];
    let b1: u8 = bytes[1];
    let b2: u8 = bytes[2];
    let b3: u8 = bytes[3];
    let val: u32 = (b0 * 0x100_0000 + b1 * 0x1_0000 + b2 * 0x100 + b3) as u32;
    assert({
        let sum = b0 * 0x100_0000 + b1 * 0x1_0000 + b2 * 0x100 + b3;
        let v = sum as u32;
        &&& sum <= 0xffff_ffff
        &&& v / 0x100_0000 == b0
        &&& v / 0x1_0000 % 0x100 == b1
        &&& v / 0x100 % 0x100 == b2
        &&& v % 0x100 == b3
    }) by (bit_vector);
    assert(be_bytes_of_u32(val) =~= bytes);
}

} // verus!
