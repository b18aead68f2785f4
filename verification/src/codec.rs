//! Big-endian encoding of the 32- and 64-bit primitive slots.
//!
//! Operand-stack slots, local-variable slots and constant-pool entries all
//! carry their payload as big-endian bytes; these are the conversions between
//! those byte groups and the machine integers, with exact contracts.

use vstd::prelude::*;

verus! {

/// The unsigned value of two big-endian bytes.
pub open spec fn be_u16(b0: u8, b1: u8) -> u16 {
    (((b0 as int) * 0x100 + (b1 as int)) as u16)
}

/// The unsigned value of four big-endian bytes.
pub open spec fn be_u32(b0: u8, b1: u8, b2: u8, b3: u8) -> u32 {
    (((b0 as int) * 0x100_0000 + (b1 as int) * 0x1_0000 + (b2 as int) * 0x100 + (b3 as int))
        as u32)
}

/// The unsigned value of eight big-endian bytes.
pub open spec fn be_u64(b: Seq<u8>) -> u64
    recommends
        b.len() == 8,
{
    (((b[0] as int) * 0x100_0000_0000_0000 + (b[1] as int) * 0x1_0000_0000_0000
        + (b[2] as int) * 0x100_0000_0000 + (b[3] as int) * 0x1_0000_0000
        + (b[4] as int) * 0x100_0000 + (b[5] as int) * 0x1_0000 + (b[6] as int) * 0x100
        + (b[7] as int)) as u64)
}

/// The 32-bit two's-complement reading of a bit pattern.
pub open spec fn i32_of_bits(u: u32) -> i32 {
    if u >= 0x8000_0000 {
        ((u as int) - 0x1_0000_0000) as i32
    } else {
        u as i32
    }
}

/// The bit pattern of a 32-bit two's-complement value.
pub open spec fn bits_of_i32(i: i32) -> u32 {
    if i >= 0 {
        i as u32
    } else {
        ((i as int) + 0x1_0000_0000) as u32
    }
}

/// The 64-bit two's-complement reading of a bit pattern.
pub open spec fn i64_of_bits(u: u64) -> i64 {
    if u >= 0x8000_0000_0000_0000 {
        ((u as int) - 0x1_0000_0000_0000_0000) as i64
    } else {
        u as i64
    }
}

/// The bit pattern of a 64-bit two's-complement value.
pub open spec fn bits_of_i64(i: i64) -> u64 {
    if i >= 0 {
        i as u64
    } else {
        ((i as int) + 0x1_0000_0000_0000_0000) as u64
    }
}

/// The four big-endian bytes of a 32-bit value.
pub open spec fn be_bytes4(v: u32) -> Seq<u8> {
    seq![
        ((v as int) / 0x100_0000) as u8,
        (((v as int) / 0x1_0000) % 0x100) as u8,
        (((v as int) / 0x100) % 0x100) as u8,
        ((v as int) % 0x100) as u8,
    ]
}

/// The eight big-endian bytes of a 64-bit value.
pub open spec fn be_bytes8(v: u64) -> Seq<u8> {
    seq![
        ((v as int) / 0x100_0000_0000_0000) as u8,
        (((v as int) / 0x1_0000_0000_0000) % 0x100) as u8,
        (((v as int) / 0x100_0000_0000) % 0x100) as u8,
        (((v as int) / 0x1_0000_0000) % 0x100) as u8,
        (((v as int) / 0x100_0000) % 0x100) as u8,
        (((v as int) / 0x1_0000) % 0x100) as u8,
        (((v as int) / 0x100) % 0x100) as u8,
        ((v as int) % 0x100) as u8,
    ]
}

/// Reading back the four big-endian bytes of a value gives the value.
pub proof fn lemma_be4_round(v: u32)
    ensures
        be_u32(be_bytes4(v)[0], be_bytes4(v)[1], be_bytes4(v)[2], be_bytes4(v)[3]) == v,
{
    assert(((((v as int) / 0x100_0000) as u8) as int) * 0x100_0000 + (((((v as int) / 0x1_0000)
        % 0x100) as u8) as int) * 0x1_0000 + (((((v as int) / 0x100) % 0x100) as u8) as int)
        * 0x100 + ((((v as int) % 0x100) as u8) as int) == v as int) by (bit_vector);
}

/// Reading back the eight big-endian bytes of a value gives the value.
pub proof fn lemma_be8_round(v: u64)
    ensures
        be_u64(be_bytes8(v)) == v,
{
    assert(((((v as int) / 0x100_0000_0000_0000) as u8) as int) * 0x100_0000_0000_0000
        + (((((v as int) / 0x1_0000_0000_0000) % 0x100) as u8) as int) * 0x1_0000_0000_0000
        + (((((v as int) / 0x100_0000_0000) % 0x100) as u8) as int) * 0x100_0000_0000 + (((((
    v as int) / 0x1_0000_0000) % 0x100) as u8) as int) * 0x1_0000_0000 + (((((v as int)
        / 0x100_0000) % 0x100) as u8) as int) * 0x100_0000 + (((((v as int) / 0x1_0000) % 0x100)
        as u8) as int) * 0x1_0000 + (((((v as int) / 0x100) % 0x100) as u8) as int) * 0x100
        + ((((v as int) % 0x100) as u8) as int) == v as int) by (bit_vector);
}

pub proof fn lemma_i32_bits_round(i: i32)
    ensures
        i32_of_bits(bits_of_i32(i)) == i,
{
}

pub proof fn lemma_i64_bits_round(i: i64)
    ensures
        i64_of_bits(bits_of_i64(i)) == i,
{
}

pub fn u16_from_be(b0: u8, b1: u8) -> (r: u16)
    ensures
        r == be_u16(b0, b1),
{
    (b0 as u16) * 0x100 + (b1 as u16)
}

pub fn u32_from_be(b0: u8, b1: u8, b2: u8, b3: u8) -> (r: u32)
    ensures
        r == be_u32(b0, b1, b2, b3),
{
    (b0 as u32) * 0x100_0000 + (b1 as u32) * 0x1_0000 + (b2 as u32) * 0x100 + (b3 as u32)
}

pub fn u32_to_be(v: u32) -> (r: [u8; 4])
    ensures
        be_u32(r[0], r[1], r[2], r[3]) == v,
        r@ == be_bytes4(v),
{
    let b0: u8 = (v >> 24) as u8;
    let b1: u8 = ((v >> 16) & 0xff) as u8;
    let b2: u8 = ((v >> 8) & 0xff) as u8;
    let b3: u8 = (v & 0xff) as u8;
    proof {
        assert((((v >> 24) as u8) as int) * 0x100_0000 + ((((v >> 16) & 0xff) as u8) as int)
            * 0x1_0000 + ((((v >> 8) & 0xff) as u8) as int) * 0x100 + (((v & 0xff) as u8) as int)
            == v as int) by (bit_vector);
        assert((v >> 24) as u8 == ((v as int) / 0x100_0000) as u8 && ((v >> 16) & 0xff) as u8
            == (((v as int) / 0x1_0000) % 0x100) as u8 && ((v >> 8) & 0xff) as u8 == (((
        v as int) / 0x100) % 0x100) as u8 && (v & 0xff) as u8 == ((v as int) % 0x100) as u8)
            by (bit_vector);
    }
    let r = [b0, b1, b2, b3];
    proof {
        assert(r@ =~= be_bytes4(v));
    }
    r
}

pub fn u64_from_be(b: &[u8; 8]) -> (r: u64)
    ensures
        r == be_u64(b@),
{
    (b[0] as u64) * 0x100_0000_0000_0000 + (b[1] as u64) * 0x1_0000_0000_0000 + (b[2] as u64)
        * 0x100_0000_0000 + (b[3] as u64) * 0x1_0000_0000 + (b[4] as u64) * 0x100_0000 + (b[5]
        as u64) * 0x1_0000 + (b[6] as u64) * 0x100 + (b[7] as u64)
}

pub fn u64_to_be(v: u64) -> (r: [u8; 8])
    ensures
        be_u64(r@) == v,
        r@ == be_bytes8(v),
{
    let b0: u8 = (v >> 56) as u8;
    let b1: u8 = ((v >> 48) & 0xff) as u8;
    let b2: u8 = ((v >> 40) & 0xff) as u8;
    let b3: u8 = ((v >> 32) & 0xff) as u8;
    let b4: u8 = ((v >> 24) & 0xff) as u8;
    let b5: u8 = ((v >> 16) & 0xff) as u8;
    let b6: u8 = ((v >> 8) & 0xff) as u8;
    let b7: u8 = (v & 0xff) as u8;
    proof {
        assert((((v >> 56) as u8) as int) * 0x100_0000_0000_0000 + ((((v >> 48) & 0xff) as u8)
            as int) * 0x1_0000_0000_0000 + ((((v >> 40) & 0xff) as u8) as int) * 0x100_0000_0000
            + ((((v >> 32) & 0xff) as u8) as int) * 0x1_0000_0000 + ((((v >> 24) & 0xff) as u8)
            as int) * 0x100_0000 + ((((v >> 16) & 0xff) as u8) as int) * 0x1_0000 + ((((v >> 8)
            & 0xff) as u8) as int) * 0x100 + (((v & 0xff) as u8) as int) == v as int)
            by (bit_vector);
        assert((v >> 56) as u8 == ((v as int) / 0x100_0000_0000_0000) as u8 && ((v >> 48) & 0xff)
            as u8 == (((v as int) / 0x1_0000_0000_0000) % 0x100) as u8 && ((v >> 40) & 0xff)
            as u8 == (((v as int) / 0x100_0000_0000) % 0x100) as u8 && ((v >> 32) & 0xff) as u8
            == (((v as int) / 0x1_0000_0000) % 0x100) as u8 && ((v >> 24) & 0xff) as u8 == (((
        v as int) / 0x100_0000) % 0x100) as u8 && ((v >> 16) & 0xff) as u8 == (((v as int)
            / 0x1_0000) % 0x100) as u8 && ((v >> 8) & 0xff) as u8 == (((v as int) / 0x100)
            % 0x100) as u8 && (v & 0xff) as u8 == ((v as int) % 0x100) as u8) by (bit_vector);
    }
    let r = [b0, b1, b2, b3, b4, b5, b6, b7];
    proof {
        assert(r@ =~= be_bytes8(v));
    }
    r
}

pub fn i32_to_bits(i: i32) -> (u: u32)
    ensures
        u == bits_of_i32(i),
{
    proof {
        assert((i as u32) as int == if i >= 0 {
            i as int
        } else {
            i as int + 0x1_0000_0000
        }) by (bit_vector);
    }
    #[verifier::truncate] (i as u32)
}

pub fn bits_to_i32(u: u32) -> (i: i32)
    ensures
        i == i32_of_bits(u),
{
    proof {
        assert((u as i32) as int == if u >= 0x8000_0000 {
            u as int - 0x1_0000_0000
        } else {
            u as int
        }) by (bit_vector);
    }
    #[verifier::truncate] (u as i32)
}

pub fn i64_to_bits(i: i64) -> (u: u64)
    ensures
        u == bits_of_i64(i),
{
    proof {
        assert((i as u64) as int == if i >= 0 {
            i as int
        } else {
            i as int + 0x1_0000_0000_0000_0000
        }) by (bit_vector);
    }
    #[verifier::truncate] (i as u64)
}

pub fn bits_to_i64(u: u64) -> (i: i64)
    ensures
        i == i64_of_bits(u),
{
    proof {
        assert((u as i64) as int == if u >= 0x8000_0000_0000_0000 {
            u as int - 0x1_0000_0000_0000_0000
        } else {
            u as int
        }) by (bit_vector);
    }
    #[verifier::truncate] (u as i64)
}

} // verus!
