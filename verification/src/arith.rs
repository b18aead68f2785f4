//! Integer opcode semantics.
//!
//! The arithmetic, bitwise and shift families over `Int` and `Long`:
//! two's-complement wrap on overflow, shift distances masked to the width,
//! and division or remainder by zero raising `ArithmeticException`. Each
//! function is the semantics of one opcode, stated exactly.

use vstd::prelude::*;

use crate::errors::ExKind;

verus! {

/// `iadd`: two's-complement 32-bit sum.
pub fn iadd(a: i32, b: i32) -> (r: i32)
    ensures
        r == vstd::wrapping::i32_specs::wrapping_add(a, b),
{
    a.wrapping_add(b)
}

/// `isub`: two's-complement 32-bit difference.
pub fn isub(a: i32, b: i32) -> (r: i32)
    ensures
        r == vstd::wrapping::i32_specs::wrapping_sub(a, b),
{
    a.wrapping_sub(b)
}

/// `imul`: two's-complement 32-bit product.
pub fn imul(a: i32, b: i32) -> (r: i32)
    ensures
        r == vstd::wrapping::i32_specs::wrapping_mul(a, b),
{
    a.wrapping_mul(b)
}

/// `ineg`: two's-complement negation; the minimum value maps to itself.
pub fn ineg(a: i32) -> (r: i32)
    ensures
        r as int == if a == i32::MIN {
            i32::MIN as int
        } else {
            -(a as int)
        },
{
    if a == i32::MIN {
        i32::MIN
    } else {
        -a
    }
}

/// `iand`, `ior`, `ixor`: 32-bit bitwise operations.
pub fn iand(a: i32, b: i32) -> (r: i32)
    ensures
        r == (a & b),
{
    a & b
}

pub fn ior(a: i32, b: i32) -> (r: i32)
    ensures
        r == (a | b),
{
    a | b
}

pub fn ixor(a: i32, b: i32) -> (r: i32)
    ensures
        r == (a ^ b),
{
    a ^ b
}

/// `ishl`: shift left by the low five bits of the distance.
pub fn ishl(a: i32, b: i32) -> (r: i32)
    ensures
        r == (a << ((b as u32) % 32)),
{
    let s: u32 = (crate::codec::i32_to_bits(b)) % 32;
    proof {
        assert((crate::codec::bits_of_i32(b)) % 32 == (b as u32) % 32) by (bit_vector);
    }
    a.wrapping_shl(s)
}

/// `ishr`: arithmetic shift right by the low five bits of the distance.
pub fn ishr(a: i32, b: i32) -> (r: i32)
    ensures
        r == (a >> ((b as u32) % 32)),
{
    let s: u32 = (crate::codec::i32_to_bits(b)) % 32;
    proof {
        assert((crate::codec::bits_of_i32(b)) % 32 == (b as u32) % 32) by (bit_vector);
    }
    a.wrapping_shr(s)
}

/// `iushr`: logical shift right by the low five bits of the distance; the
/// value is read as its unsigned bit pattern.
pub fn iushr(a: i32, b: i32) -> (r: i32)
    ensures
        r == crate::codec::i32_of_bits(
            crate::codec::bits_of_i32(a) >> ((b as u32) % 32),
        ),
{
    let ua: u32 = crate::codec::i32_to_bits(a);
    let s: u32 = (crate::codec::i32_to_bits(b)) % 32;
    proof {
        assert((crate::codec::bits_of_i32(b)) % 32 == (b as u32) % 32) by (bit_vector);
    }
    crate::codec::bits_to_i32(ua >> s)
}

/// The magnitude of a mathematical integer.
pub open spec fn abs_int(x: int) -> int {
    if x >= 0 {
        x
    } else {
        -x
    }
}

/// Truncated division, the Java semantics: the magnitude quotient with the
/// sign of the exact quotient.
pub open spec fn java_div(x: int, d: int) -> int
    recommends
        d != 0,
{
    if (x >= 0) == (d >= 0) {
        abs_int(x) / abs_int(d)
    } else {
        -(abs_int(x) / abs_int(d))
    }
}

/// Truncated remainder, the Java semantics: the sign follows the dividend,
/// and `x == java_div(x, d) * d + java_rem(x, d)`.
pub open spec fn java_rem(x: int, d: int) -> int
    recommends
        d != 0,
{
    if x >= 0 {
        abs_int(x) % abs_int(d)
    } else {
        -(abs_int(x) % abs_int(d))
    }
}

/// The magnitude of a 32-bit value, as the unsigned type that can hold it.
pub fn abs_u32(a: i32) -> (r: u32)
    ensures
        r as int == abs_int(a as int),
{
    if a >= 0 {
        a as u32
    } else {
        let u = crate::codec::i32_to_bits(a);
        0u32.wrapping_sub(u)
    }
}

/// The magnitude of a 64-bit value.
pub fn abs_u64(a: i64) -> (r: u64)
    ensures
        r as int == abs_int(a as int),
{
    if a >= 0 {
        a as u64
    } else {
        let u = crate::codec::i64_to_bits(a);
        0u64.wrapping_sub(u)
    }
}

/// A non-positive 32-bit result from its magnitude.
fn neg_of_u32(q: u32) -> (r: i32)
    requires
        q <= 0x8000_0000,
    ensures
        r as int == -(q as int),
{
    if q == 0x8000_0000 {
        i32::MIN
    } else {
        -(q as i32)
    }
}

/// A non-positive 64-bit result from its magnitude.
fn neg_of_u64(q: u64) -> (r: i64)
    requires
        q <= 0x8000_0000_0000_0000,
    ensures
        r as int == -(q as int),
{
    if q == 0x8000_0000_0000_0000 {
        i64::MIN
    } else {
        -(q as i64)
    }
}

/// `idiv`: truncated division; a zero divisor raises `ArithmeticException`;
/// the minimum value divided by minus one wraps to itself.
pub fn idiv(a: i32, b: i32) -> (r: Result<i32, ExKind>)
    ensures
        b == 0 <==> r == Err::<i32, ExKind>(ExKind::Arithmetic),
        b != 0 ==> r == Ok::<i32, ExKind>(
            if a == i32::MIN && b == -1 {
                i32::MIN
            } else {
                java_div(a as int, b as int) as i32
            },
        ),
{
    if b == 0 {
        return Err(ExKind::Arithmetic);
    }
    if a == i32::MIN && b == -1 {
        return Ok(i32::MIN);
    }
    let ua = abs_u32(a);
    let ub = abs_u32(b);
    let q = ua / ub;
    proof {
        vstd::arithmetic::div_mod::lemma_div_nonincreasing(ua as int, ub as int);
    }
    if (a < 0) != (b < 0) {
        Ok(neg_of_u32(q))
    } else {
        proof {
            if q >= 0x8000_0000 {
                if ub >= 2 {
                    vstd::arithmetic::div_mod::lemma_div_decreases(ua as int, ub as int);
                } else {
                    vstd::arithmetic::div_mod::lemma_div_basics(ua as int);
                }
                assert(false);
            }
        }
        Ok(q as i32)
    }
}

/// `irem`: the remainder paired with truncated division; a zero divisor
/// raises `ArithmeticException`.
pub fn irem(a: i32, b: i32) -> (r: Result<i32, ExKind>)
    ensures
        b == 0 <==> r == Err::<i32, ExKind>(ExKind::Arithmetic),
        b != 0 ==> r == Ok::<i32, ExKind>(java_rem(a as int, b as int) as i32),
{
    if b == 0 {
        return Err(ExKind::Arithmetic);
    }
    let ua = abs_u32(a);
    let ub = abs_u32(b);
    let m = ua % ub;
    proof {
        vstd::arithmetic::div_mod::lemma_mod_decreases(ua as nat, ub as nat);
    }
    if a < 0 {
        Ok(neg_of_u32(m))
    } else {
        Ok(m as i32)
    }
}

/// `ldiv`: truncated 64-bit division; zero divisor raises
/// `ArithmeticException`; the minimum value divided by minus one wraps.
pub fn ldiv(a: i64, b: i64) -> (r: Result<i64, ExKind>)
    ensures
        b == 0 <==> r == Err::<i64, ExKind>(ExKind::Arithmetic),
        b != 0 ==> r == Ok::<i64, ExKind>(
            if a == i64::MIN && b == -1 {
                i64::MIN
            } else {
                java_div(a as int, b as int) as i64
            },
        ),
{
    if b == 0 {
        return Err(ExKind::Arithmetic);
    }
    if a == i64::MIN && b == -1 {
        return Ok(i64::MIN);
    }
    let ua = abs_u64(a);
    let ub = abs_u64(b);
    let q = ua / ub;
    proof {
        vstd::arithmetic::div_mod::lemma_div_nonincreasing(ua as int, ub as int);
    }
    if (a < 0) != (b < 0) {
        Ok(neg_of_u64(q))
    } else {
        proof {
            if q >= 0x8000_0000_0000_0000 {
                if ub >= 2 {
                    vstd::arithmetic::div_mod::lemma_div_decreases(ua as int, ub as int);
                } else {
                    vstd::arithmetic::div_mod::lemma_div_basics(ua as int);
                }
                assert(false);
            }
        }
        Ok(q as i64)
    }
}

/// `lrem`: the 64-bit remainder; zero divisor raises `ArithmeticException`.
pub fn lrem(a: i64, b: i64) -> (r: Result<i64, ExKind>)
    ensures
        b == 0 <==> r == Err::<i64, ExKind>(ExKind::Arithmetic),
        b != 0 ==> r == Ok::<i64, ExKind>(java_rem(a as int, b as int) as i64),
{
    if b == 0 {
        return Err(ExKind::Arithmetic);
    }
    let ua = abs_u64(a);
    let ub = abs_u64(b);
    let m = ua % ub;
    proof {
        vstd::arithmetic::div_mod::lemma_mod_decreases(ua as nat, ub as nat);
    }
    if a < 0 {
        Ok(neg_of_u64(m))
    } else {
        Ok(m as i64)
    }
}

/// `ladd`, `lsub`, `lmul`: the 64-bit two's-complement family.
pub fn ladd(a: i64, b: i64) -> (r: i64)
    ensures
        r == vstd::wrapping::i64_specs::wrapping_add(a, b),
{
    a.wrapping_add(b)
}

pub fn lsub(a: i64, b: i64) -> (r: i64)
    ensures
        r == vstd::wrapping::i64_specs::wrapping_sub(a, b),
{
    a.wrapping_sub(b)
}

pub fn lmul(a: i64, b: i64) -> (r: i64)
    ensures
        r == vstd::wrapping::i64_specs::wrapping_mul(a, b),
{
    a.wrapping_mul(b)
}

/// `lneg`: two's-complement negation; the minimum value maps to itself.
pub fn lneg(a: i64) -> (r: i64)
    ensures
        r as int == if a == i64::MIN {
            i64::MIN as int
        } else {
            -(a as int)
        },
{
    if a == i64::MIN {
        i64::MIN
    } else {
        -a
    }
}

/// `land`, `lor`, `lxor`: 64-bit bitwise operations.
pub fn land(a: i64, b: i64) -> (r: i64)
    ensures
        r == (a & b),
{
    a & b
}

pub fn lor(a: i64, b: i64) -> (r: i64)
    ensures
        r == (a | b),
{
    a | b
}

pub fn lxor(a: i64, b: i64) -> (r: i64)
    ensures
        r == (a ^ b),
{
    a ^ b
}

/// `lshl`: shift left by the low six bits of the 32-bit distance.
pub fn lshl(a: i64, b: i32) -> (r: i64)
    ensures
        r == (a << ((b as u32) % 64)),
{
    let s: u32 = (crate::codec::i32_to_bits(b)) % 64;
    proof {
        assert((crate::codec::bits_of_i32(b)) % 64 == (b as u32) % 64) by (bit_vector);
    }
    a.wrapping_shl(s)
}

/// `lshr`: arithmetic shift right by the low six bits of the distance.
pub fn lshr(a: i64, b: i32) -> (r: i64)
    ensures
        r == (a >> ((b as u32) % 64)),
{
    let s: u32 = (crate::codec::i32_to_bits(b)) % 64;
    proof {
        assert((crate::codec::bits_of_i32(b)) % 64 == (b as u32) % 64) by (bit_vector);
    }
    a.wrapping_shr(s)
}

/// `lushr`: logical shift right by the low six bits of the distance; the
/// value is read as its unsigned bit pattern.
pub fn lushr(a: i64, b: i32) -> (r: i64)
    ensures
        r == crate::codec::i64_of_bits(crate::codec::bits_of_i64(a) >> (((b as u32) % 64) as u64)),
{
    let ua: u64 = crate::codec::i64_to_bits(a);
    let s: u32 = (crate::codec::i32_to_bits(b)) % 64;
    proof {
        assert((crate::codec::bits_of_i32(b)) % 64 == (b as u32) % 64) by (bit_vector);
        assert(crate::codec::bits_of_i64(a) >> (((b as u32) % 64) as u64) == crate::codec::bits_of_i64(a) >> (s as u64));
    }
    crate::codec::bits_to_i64(ua >> (s as u64))
}

/// `lcmp`: minus one, zero or one as the first operand compares to the
/// second.
pub fn lcmp(a: i64, b: i64) -> (r: i32)
    ensures
        r == if a < b {
            -1i32
        } else if a == b {
            0i32
        } else {
            1i32
        },
{
    if a < b {
        -1
    } else if a == b {
        0
    } else {
        1
    }
}

/// `i2b`: truncation to the low byte, sign-extended back.
pub fn i2b(a: i32) -> (r: i32)
    ensures
        r == (a as i8) as i32,
{
    (a as i8) as i32
}

/// `i2c`: truncation to the low sixteen bits, zero-extended back.
pub fn i2c(a: i32) -> (r: i32)
    ensures
        r == (a as u16) as i32,
{
    (a as u16) as i32
}

/// `i2s`: truncation to the low sixteen bits, sign-extended back.
pub fn i2s(a: i32) -> (r: i32)
    ensures
        r == (a as i16) as i32,
{
    (a as i16) as i32
}

/// `i2l`: sign extension.
pub fn i2l(a: i32) -> (r: i64)
    ensures
        r as int == a as int,
{
    a as i64
}

/// `l2i`: truncation to the low 32 bits, two's complement.
pub fn l2i(a: i64) -> (r: i32)
    ensures
        r == crate::codec::i32_of_bits((crate::codec::bits_of_i64(a) % 0x1_0000_0000) as u32),
{
    let u: u64 = crate::codec::i64_to_bits(a);
    let lo: u32 = (u % 0x1_0000_0000) as u32;
    crate::codec::bits_to_i32(lo)
}

} // verus!
