//! Big-endian, two's-complement encoding of 64-bit signed integers.
//!
//! The encoding is stated arithmetically: an integer is first mapped to the
//! natural number below 2^64 that shares its bit pattern, and that number is
//! written in base 256, most significant digit first.

use vstd::prelude::*;
use vstd::slice::*;

verus! {

/// The natural number below 2^64 with the same two's-complement bit pattern as `x`.
pub open spec fn unsigned64(x: i64) -> int {
    if x < 0 {
        x + 0x1_0000_0000_0000_0000
    } else {
        x as int
    }
}

/// The signed integer whose two's-complement bit pattern is the natural number `u`.
pub open spec fn signed64(u: int) -> i64
    recommends
        0 <= u < 0x1_0000_0000_0000_0000,
{
    if u >= 0x8000_0000_0000_0000 {
        (u - 0x1_0000_0000_0000_0000) as i64
    } else {
        u as i64
    }
}

/// The eight base-256 digits of `x`'s bit pattern, most significant first.
#[verifier::opaque]
pub open spec fn be_bytes(x: i64) -> Seq<u8> {
    let u = unsigned64(x);
    seq![
        (u / 0x100_0000_0000_0000 % 256) as u8,
        (u / 0x1_0000_0000_0000 % 256) as u8,
        (u / 0x100_0000_0000 % 256) as u8,
        (u / 0x1_0000_0000 % 256) as u8,
        (u / 0x100_0000 % 256) as u8,
        (u / 0x1_0000 % 256) as u8,
        (u / 0x100 % 256) as u8,
        (u % 256) as u8,
    ]
}

/// The natural number that eight bytes denote in base 256, most significant first.
#[verifier::opaque]
pub open spec fn be_value(b: Seq<u8>) -> int
    recommends
        b.len() == 8,
{
    b[0] * 0x100_0000_0000_0000 + b[1] * 0x1_0000_0000_0000 + b[2] * 0x100_0000_0000 + b[3]
        * 0x1_0000_0000 + b[4] * 0x100_0000 + b[5] * 0x1_0000 + b[6] * 0x100 + b[7]
}

/// The signed integer that eight big-endian bytes denote.
pub open spec fn be_i64(b: Seq<u8>) -> i64
    recommends
        b.len() == 8,
{
    signed64(be_value(b))
}

proof fn lemma_unsigned64_is_cast(x: i64)
    ensures
        (x as u64) as int == unsigned64(x),
{
    assert((x as u64) as int == if x < 0 {
        x + 0x1_0000_0000_0000_0000
    } else {
        x as int
    }) by (bit_vector);
}

proof fn lemma_signed64_is_cast(u: u64)
    ensures
        (u as i64) == signed64(u as int),
{
    assert((u as i64) as int == if u >= 0x8000_0000_0000_0000 {
        u - 0x1_0000_0000_0000_0000
    } else {
        u as int
    }) by (bit_vector);
}

proof fn lemma_digits_by_shift(u: u64)
    ensures
        (u >> 56) as u8 == (u as int / 0x100_0000_0000_0000 % 256) as u8,
        (u >> 48) as u8 == (u as int / 0x1_0000_0000_0000 % 256) as u8,
        (u >> 40) as u8 == (u as int / 0x100_0000_0000 % 256) as u8,
        (u >> 32) as u8 == (u as int / 0x1_0000_0000 % 256) as u8,
        (u >> 24) as u8 == (u as int / 0x100_0000 % 256) as u8,
        (u >> 16) as u8 == (u as int / 0x1_0000 % 256) as u8,
        (u >> 8) as u8 == (u as int / 0x100 % 256) as u8,
        u as u8 == (u as int % 256) as u8,
{
    assert((u >> 56) as u8 == (u as int / 0x100_0000_0000_0000 % 256) as u8) by (bit_vector);
    assert((u >> 48) as u8 == (u as int / 0x1_0000_0000_0000 % 256) as u8) by (bit_vector);
    assert((u >> 40) as u8 == (u as int / 0x100_0000_0000 % 256) as u8) by (bit_vector);
    assert((u >> 32) as u8 == (u as int / 0x1_0000_0000 % 256) as u8) by (bit_vector);
    assert((u >> 24) as u8 == (u as int / 0x100_0000 % 256) as u8) by (bit_vector);
    assert((u >> 16) as u8 == (u as int / 0x1_0000 % 256) as u8) by (bit_vector);
    assert((u >> 8) as u8 == (u as int / 0x100 % 256) as u8) by (bit_vector);
    assert(u as u8 == (u as int % 256) as u8) by (bit_vector);
}

/// Writes `x` as eight big-endian bytes.
pub fn i64_to_be(x: i64) -> (r: [u8; 8])
    ensures
        r@ == be_bytes(x),
{
    let u: u64 = #[verifier::truncate] (x as u64);
    proof {
        reveal(be_bytes);
        lemma_unsigned64_is_cast(x);
        lemma_digits_by_shift(u);
    }
    let r: [u8; 8] = [
        #[verifier::truncate] ((u >> 56) as u8),
        #[verifier::truncate] ((u >> 48) as u8),
        #[verifier::truncate] ((u >> 40) as u8),
        #[verifier::truncate] ((u >> 32) as u8),
        #[verifier::truncate] ((u >> 24) as u8),
        #[verifier::truncate] ((u >> 16) as u8),
        #[verifier::truncate] ((u >> 8) as u8),
        #[verifier::truncate] (u as u8),
    ];
    assert(r@ =~= be_bytes(x));
    r
}

proof fn lemma_value_by_shift(b: Seq<u8>)
    requires
        b.len() == 8,
    ensures
        ((b[0] as u64) << 56 | (b[1] as u64) << 48 | (b[2] as u64) << 40 | (b[3] as u64) << 32 | (
        b[4] as u64) << 24 | (b[5] as u64) << 16 | (b[6] as u64) << 8 | (b[7] as u64)) as int
            == be_value(b),
{
    reveal(be_value);
    let (b0, b1, b2, b3, b4, b5, b6, b7) = (b[0], b[1], b[2], b[3], b[4], b[5], b[6], b[7]);
    assert(((b0 as u64) << 56 | (b1 as u64) << 48 | (b2 as u64) << 40 | (b3 as u64) << 32 | (
    b4 as u64) << 24 | (b5 as u64) << 16 | (b6 as u64) << 8 | (b7 as u64)) as int == b0
        * 0x100_0000_0000_0000 + b1 * 0x1_0000_0000_0000 + b2 * 0x100_0000_0000 + b3
        * 0x1_0000_0000 + b4 * 0x100_0000 + b5 * 0x1_0000 + b6 * 0x100 + b7) by (bit_vector);
}

/// Reads the eight big-endian bytes that start at `at` as a signed integer.
pub fn i64_from_be(bytes: &[u8], at: usize) -> (r: i64)
    requires
        at + 8 <= bytes@.len(),
    ensures
        r == be_i64(bytes@.subrange(at as int, at + 8)),
{
    let u: u64 = (bytes[at] as u64) << 56 | (bytes[at + 1] as u64) << 48 | (bytes[at + 2] as u64)
        << 40 | (bytes[at + 3] as u64) << 32 | (bytes[at + 4] as u64) << 24 | (bytes[at
        + 5] as u64) << 16 | (bytes[at + 6] as u64) << 8 | (bytes[at + 7] as u64);
    proof {
        lemma_value_by_shift(bytes@.subrange(at as int, at + 8));
        lemma_signed64_is_cast(u);
    }
    #[verifier::truncate]
    (u as i64)
}

/// Decoding undoes encoding: every integer is recovered from its eight bytes.
pub proof fn lemma_decode_encode(x: i64)
    ensures
        be_bytes(x).len() == 8,
        be_i64(be_bytes(x)) == x,
{
    reveal(be_bytes);
    reveal(be_value);
    let u = x as u64;
    lemma_unsigned64_is_cast(x);
    assert((u as int / 0x100_0000_0000_0000 % 256) * 0x100_0000_0000_0000 + (u as int
        / 0x1_0000_0000_0000 % 256) * 0x1_0000_0000_0000 + (u as int / 0x100_0000_0000 % 256)
        * 0x100_0000_0000 + (u as int / 0x1_0000_0000 % 256) * 0x1_0000_0000 + (u as int
        / 0x100_0000 % 256) * 0x100_0000 + (u as int / 0x1_0000 % 256) * 0x1_0000 + (u as int
        / 0x100 % 256) * 0x100 + (u as int % 256) == u as int) by (bit_vector);
}

/// Encoding undoes decoding: any eight bytes are the encoding of the integer they denote.
pub proof fn lemma_encode_decode(b: Seq<u8>)
    requires
        b.len() == 8,
    ensures
        be_bytes(be_i64(b)) == b,
{
    reveal(be_bytes);
    reveal(be_value);
    let v = be_value(b);
    let (b0, b1, b2, b3, b4, b5, b6, b7) = (b[0], b[1], b[2], b[3], b[4], b[5], b[6], b[7]);
    assert(0 <= v < 0x1_0000_0000_0000_0000);
    assert(unsigned64(be_i64(b)) == v);
    assert({
        let v = b0 * 0x100_0000_0000_0000 + b1 * 0x1_0000_0000_0000 + b2 * 0x100_0000_0000 + b3
            * 0x1_0000_0000 + b4 * 0x100_0000 + b5 * 0x1_0000 + b6 * 0x100 + b7;
        &&& v / 0x100_0000_0000_0000 % 256 == b0
        &&& v / 0x1_0000_0000_0000 % 256 == b1
        &&& v / 0x100_0000_0000 % 256 == b2
        &&& v / 0x1_0000_0000 % 256 == b3
        &&& v / 0x100_0000 % 256 == b4
        &&& v / 0x1_0000 % 256 == b5
        &&& v / 0x100 % 256 == b6
        &&& v % 256 == b7
    }) by (bit_vector);
    assert(be_bytes(be_i64(b)) =~= b);
}

/// Bytes are told apart by the integers they denote.
pub proof fn lemma_be_i64_injective(a: Seq<u8>, b: Seq<u8>)
    requires
        a.len() == 8,
        b.len() == 8,
        be_i64(a) == be_i64(b),
    ensures
        a == b,
{
    lemma_encode_decode(a);
    lemma_encode_decode(b);
}

/// Integers are told apart by their bytes.
pub proof fn lemma_be_bytes_injective(x: i64, y: i64)
    requires
        be_bytes(x) == be_bytes(y),
    ensures
        x == y,
{
    lemma_decode_encode(x);
    lemma_decode_encode(y);
}

} // verus!
