#![allow(non_snake_case)]
use vstd::prelude::*;

verus! {

/// Whether `i` has the bit of weight `w` set, `w` being a power of two. The solver
/// sees the definition where it is revealed.
#[verifier::opaque]
pub open spec fn has_bit(i: int, w: int) -> bool {
    (i / w) % 2 == 1
}

/// `i` with the bit of weight `w` forced to `v`. The solver sees the definition where
/// it is revealed.
#[verifier::opaque]
pub open spec fn put_bit(i: int, w: int, v: bool) -> int {
    i - (if has_bit(i, w) { w } else { 0 }) + (if v { w } else { 0 })
}

/// The bits of `i` below the bit of weight `w`.
pub open spec fn low_bits(i: int, w: int) -> int {
    i % w
}

/// The 16-bit word whose high byte is `msb` and whose low byte is `lsb`.
pub open spec fn word(msb: u8, lsb: u8) -> int {
    256 * msb + lsb
}

/// The sum of two 16-bit words as an address bus carries it: the carry out of bit 15 is lost.
pub open spec fn wrapped_sum(a: u16, b: u16) -> int {
    (a + b) % 0x10000
}

/// The number whose binary digits, most significant first, say which of the first `n`
/// entries of `data` are non-zero.
pub open spec fn opaque_bits(data: Seq<u8>, n: int) -> int
    decreases n,
{
    if n <= 0 {
        0
    } else {
        opaque_bits(data, n - 1) * 2 + (if data[n - 1] > 0 { 1int } else { 0int })
    }
}

/// Masking one bit of a `u8` tests the matching binary digit.
pub proof fn lemma_u8_test(i: u8)
    by (bit_vector)
    ensures
        (i & 0x01 > 0) == ((i / 0x01) % 2 == 1),
        (i & 0x02 > 0) == ((i / 0x02) % 2 == 1),
        (i & 0x04 > 0) == ((i / 0x04) % 2 == 1),
        (i & 0x08 > 0) == ((i / 0x08) % 2 == 1),
        (i & 0x10 > 0) == ((i / 0x10) % 2 == 1),
        (i & 0x20 > 0) == ((i / 0x20) % 2 == 1),
        (i & 0x40 > 0) == ((i / 0x40) % 2 == 1),
        (i & 0x80 > 0) == ((i / 0x80) % 2 == 1),
{
}

/// Or-ing one bit into a `u8` adds its weight unless the digit is already 1.
pub proof fn lemma_u8_raise(i: u8)
    by (bit_vector)
    ensures
        (i / 0x01) % 2 == 1 ==> i | 0x01 == i,
        (i / 0x02) % 2 == 1 ==> i | 0x02 == i,
        (i / 0x04) % 2 == 1 ==> i | 0x04 == i,
        (i / 0x08) % 2 == 1 ==> i | 0x08 == i,
        (i / 0x10) % 2 == 1 ==> i | 0x10 == i,
        (i / 0x20) % 2 == 1 ==> i | 0x20 == i,
        (i / 0x40) % 2 == 1 ==> i | 0x40 == i,
        (i / 0x80) % 2 == 1 ==> i | 0x80 == i,
        (i / 0x01) % 2 != 1 ==> i | 0x01 == i + 0x01,
        (i / 0x02) % 2 != 1 ==> i | 0x02 == i + 0x02,
        (i / 0x04) % 2 != 1 ==> i | 0x04 == i + 0x04,
        (i / 0x08) % 2 != 1 ==> i | 0x08 == i + 0x08,
        (i / 0x10) % 2 != 1 ==> i | 0x10 == i + 0x10,
        (i / 0x20) % 2 != 1 ==> i | 0x20 == i + 0x20,
        (i / 0x40) % 2 != 1 ==> i | 0x40 == i + 0x40,
        (i / 0x80) % 2 != 1 ==> i | 0x80 == i + 0x80,
{
}

/// Masking one bit out of a `u8` takes its weight away if the digit is 1.
pub proof fn lemma_u8_lower(i: u8)
    by (bit_vector)
    ensures
        (i / 0x01) % 2 == 1 ==> i & 0xFE == i - 0x01,
        (i / 0x02) % 2 == 1 ==> i & 0xFD == i - 0x02,
        (i / 0x04) % 2 == 1 ==> i & 0xFB == i - 0x04,
        (i / 0x08) % 2 == 1 ==> i & 0xF7 == i - 0x08,
        (i / 0x10) % 2 == 1 ==> i & 0xEF == i - 0x10,
        (i / 0x20) % 2 == 1 ==> i & 0xDF == i - 0x20,
        (i / 0x40) % 2 == 1 ==> i & 0xBF == i - 0x40,
        (i / 0x80) % 2 == 1 ==> i & 0x7F == i - 0x80,
        (i / 0x01) % 2 != 1 ==> i & 0xFE == i,
        (i / 0x02) % 2 != 1 ==> i & 0xFD == i,
        (i / 0x04) % 2 != 1 ==> i & 0xFB == i,
        (i / 0x08) % 2 != 1 ==> i & 0xF7 == i,
        (i / 0x10) % 2 != 1 ==> i & 0xEF == i,
        (i / 0x20) % 2 != 1 ==> i & 0xDF == i,
        (i / 0x40) % 2 != 1 ==> i & 0xBF == i,
        (i / 0x80) % 2 != 1 ==> i & 0x7F == i,
{
}

/// Masking the low bits of a `u8` is a remainder.
pub proof fn lemma_u8_low(i: u8)
    by (bit_vector)
    ensures
        i & 0x01 == i % 0x02,
        i & 0x03 == i % 0x04,
        i & 0x07 == i % 0x08,
        i & 0x0F == i % 0x10,
        i & 0x1F == i % 0x20,
        i & 0x3F == i % 0x40,
        i & 0x7F == i % 0x80,
        i & 0xFF == i,
{
}

/// Masking one bit of a `u16` tests the matching binary digit.
pub proof fn lemma_u16_test(i: u16)
    by (bit_vector)
    ensures
        (i & 0x0001 > 0) == ((i / 0x0001) % 2 == 1),
        (i & 0x0002 > 0) == ((i / 0x0002) % 2 == 1),
        (i & 0x0004 > 0) == ((i / 0x0004) % 2 == 1),
        (i & 0x0008 > 0) == ((i / 0x0008) % 2 == 1),
        (i & 0x0010 > 0) == ((i / 0x0010) % 2 == 1),
        (i & 0x0020 > 0) == ((i / 0x0020) % 2 == 1),
        (i & 0x0040 > 0) == ((i / 0x0040) % 2 == 1),
        (i & 0x0080 > 0) == ((i / 0x0080) % 2 == 1),
        (i & 0x0100 > 0) == ((i / 0x0100) % 2 == 1),
        (i & 0x0200 > 0) == ((i / 0x0200) % 2 == 1),
        (i & 0x0400 > 0) == ((i / 0x0400) % 2 == 1),
        (i & 0x0800 > 0) == ((i / 0x0800) % 2 == 1),
        (i & 0x1000 > 0) == ((i / 0x1000) % 2 == 1),
        (i & 0x2000 > 0) == ((i / 0x2000) % 2 == 1),
        (i & 0x4000 > 0) == ((i / 0x4000) % 2 == 1),
        (i & 0x8000 > 0) == ((i / 0x8000) % 2 == 1),
{
}

/// Or-ing one bit into a `u16` adds its weight unless the digit is already 1.
pub proof fn lemma_u16_raise(i: u16)
    by (bit_vector)
    ensures
        (i / 0x0001) % 2 == 1 ==> i | 0x0001 == i,
        (i / 0x0002) % 2 == 1 ==> i | 0x0002 == i,
        (i / 0x0004) % 2 == 1 ==> i | 0x0004 == i,
        (i / 0x0008) % 2 == 1 ==> i | 0x0008 == i,
        (i / 0x0010) % 2 == 1 ==> i | 0x0010 == i,
        (i / 0x0020) % 2 == 1 ==> i | 0x0020 == i,
        (i / 0x0040) % 2 == 1 ==> i | 0x0040 == i,
        (i / 0x0080) % 2 == 1 ==> i | 0x0080 == i,
        (i / 0x0100) % 2 == 1 ==> i | 0x0100 == i,
        (i / 0x0200) % 2 == 1 ==> i | 0x0200 == i,
        (i / 0x0400) % 2 == 1 ==> i | 0x0400 == i,
        (i / 0x0800) % 2 == 1 ==> i | 0x0800 == i,
        (i / 0x1000) % 2 == 1 ==> i | 0x1000 == i,
        (i / 0x2000) % 2 == 1 ==> i | 0x2000 == i,
        (i / 0x4000) % 2 == 1 ==> i | 0x4000 == i,
        (i / 0x8000) % 2 == 1 ==> i | 0x8000 == i,
        (i / 0x0001) % 2 != 1 ==> i | 0x0001 == i + 0x0001,
        (i / 0x0002) % 2 != 1 ==> i | 0x0002 == i + 0x0002,
        (i / 0x0004) % 2 != 1 ==> i | 0x0004 == i + 0x0004,
        (i / 0x0008) % 2 != 1 ==> i | 0x0008 == i + 0x0008,
        (i / 0x0010) % 2 != 1 ==> i | 0x0010 == i + 0x0010,
        (i / 0x0020) % 2 != 1 ==> i | 0x0020 == i + 0x0020,
        (i / 0x0040) % 2 != 1 ==> i | 0x0040 == i + 0x0040,
        (i / 0x0080) % 2 != 1 ==> i | 0x0080 == i + 0x0080,
        (i / 0x0100) % 2 != 1 ==> i | 0x0100 == i + 0x0100,
        (i / 0x0200) % 2 != 1 ==> i | 0x0200 == i + 0x0200,
        (i / 0x0400) % 2 != 1 ==> i | 0x0400 == i + 0x0400,
        (i / 0x0800) % 2 != 1 ==> i | 0x0800 == i + 0x0800,
        (i / 0x1000) % 2 != 1 ==> i | 0x1000 == i + 0x1000,
        (i / 0x2000) % 2 != 1 ==> i | 0x2000 == i + 0x2000,
        (i / 0x4000) % 2 != 1 ==> i | 0x4000 == i + 0x4000,
        (i / 0x8000) % 2 != 1 ==> i | 0x8000 == i + 0x8000,
{
}

/// Masking one bit out of a `u16` takes its weight away if the digit is 1.
pub proof fn lemma_u16_lower(i: u16)
    by (bit_vector)
    ensures
        (i / 0x0001) % 2 == 1 ==> i & 0xFFFE == i - 0x0001,
        (i / 0x0002) % 2 == 1 ==> i & 0xFFFD == i - 0x0002,
        (i / 0x0004) % 2 == 1 ==> i & 0xFFFB == i - 0x0004,
        (i / 0x0008) % 2 == 1 ==> i & 0xFFF7 == i - 0x0008,
        (i / 0x0010) % 2 == 1 ==> i & 0xFFEF == i - 0x0010,
        (i / 0x0020) % 2 == 1 ==> i & 0xFFDF == i - 0x0020,
        (i / 0x0040) % 2 == 1 ==> i & 0xFFBF == i - 0x0040,
        (i / 0x0080) % 2 == 1 ==> i & 0xFF7F == i - 0x0080,
        (i / 0x0100) % 2 == 1 ==> i & 0xFEFF == i - 0x0100,
        (i / 0x0200) % 2 == 1 ==> i & 0xFDFF == i - 0x0200,
        (i / 0x0400) % 2 == 1 ==> i & 0xFBFF == i - 0x0400,
        (i / 0x0800) % 2 == 1 ==> i & 0xF7FF == i - 0x0800,
        (i / 0x1000) % 2 == 1 ==> i & 0xEFFF == i - 0x1000,
        (i / 0x2000) % 2 == 1 ==> i & 0xDFFF == i - 0x2000,
        (i / 0x4000) % 2 == 1 ==> i & 0xBFFF == i - 0x4000,
        (i / 0x8000) % 2 == 1 ==> i & 0x7FFF == i - 0x8000,
        (i / 0x0001) % 2 != 1 ==> i & 0xFFFE == i,
        (i / 0x0002) % 2 != 1 ==> i & 0xFFFD == i,
        (i / 0x0004) % 2 != 1 ==> i & 0xFFFB == i,
        (i / 0x0008) % 2 != 1 ==> i & 0xFFF7 == i,
        (i / 0x0010) % 2 != 1 ==> i & 0xFFEF == i,
        (i / 0x0020) % 2 != 1 ==> i & 0xFFDF == i,
        (i / 0x0040) % 2 != 1 ==> i & 0xFFBF == i,
        (i / 0x0080) % 2 != 1 ==> i & 0xFF7F == i,
        (i / 0x0100) % 2 != 1 ==> i & 0xFEFF == i,
        (i / 0x0200) % 2 != 1 ==> i & 0xFDFF == i,
        (i / 0x0400) % 2 != 1 ==> i & 0xFBFF == i,
        (i / 0x0800) % 2 != 1 ==> i & 0xF7FF == i,
        (i / 0x1000) % 2 != 1 ==> i & 0xEFFF == i,
        (i / 0x2000) % 2 != 1 ==> i & 0xDFFF == i,
        (i / 0x4000) % 2 != 1 ==> i & 0xBFFF == i,
        (i / 0x8000) % 2 != 1 ==> i & 0x7FFF == i,
{
}

/// Masking the low bits of a `u16` is a remainder.
pub proof fn lemma_u16_low(i: u16)
    by (bit_vector)
    ensures
        i & 0x0001 == i % 0x0002,
        i & 0x0003 == i % 0x0004,
        i & 0x0007 == i % 0x0008,
        i & 0x000F == i % 0x0010,
        i & 0x001F == i % 0x0020,
        i & 0x003F == i % 0x0040,
        i & 0x007F == i % 0x0080,
        i & 0x00FF == i % 0x0100,
        i & 0x01FF == i % 0x0200,
        i & 0x03FF == i % 0x0400,
        i & 0x07FF == i % 0x0800,
        i & 0x0FFF == i % 0x1000,
        i & 0x1FFF == i % 0x2000,
        i & 0x3FFF == i % 0x4000,
        i & 0x7FFF == i % 0x8000,
        i & 0xFFFF == i,
{
}

pub fn b0(i: u8) -> (r: bool)
    ensures
        r == has_bit(i as int, 0x01),
{
    proof {
        reveal(has_bit);
        lemma_u8_test(i);
    }
    i & 0x01 > 0
}

pub fn b1(i: u8) -> (r: bool)
    ensures
        r == has_bit(i as int, 0x02),
{
    proof {
        reveal(has_bit);
        lemma_u8_test(i);
    }
    i & 0x02 > 0
}

pub fn b2(i: u8) -> (r: bool)
    ensures
        r == has_bit(i as int, 0x04),
{
    proof {
        reveal(has_bit);
        lemma_u8_test(i);
    }
    i & 0x04 > 0
}

pub fn b3(i: u8) -> (r: bool)
    ensures
        r == has_bit(i as int, 0x08),
{
    proof {
        reveal(has_bit);
        lemma_u8_test(i);
    }
    i & 0x08 > 0
}

pub fn b4(i: u8) -> (r: bool)
    ensures
        r == has_bit(i as int, 0x10),
{
    proof {
        reveal(has_bit);
        lemma_u8_test(i);
    }
    i & 0x10 > 0
}

pub fn b5(i: u8) -> (r: bool)
    ensures
        r == has_bit(i as int, 0x20),
{
    proof {
        reveal(has_bit);
        lemma_u8_test(i);
    }
    i & 0x20 > 0
}

pub fn b6(i: u8) -> (r: bool)
    ensures
        r == has_bit(i as int, 0x40),
{
    proof {
        reveal(has_bit);
        lemma_u8_test(i);
    }
    i & 0x40 > 0
}

pub fn b7(i: u8) -> (r: bool)
    ensures
        r == has_bit(i as int, 0x80),
{
    proof {
        reveal(has_bit);
        lemma_u8_test(i);
    }
    i & 0x80 > 0
}

pub fn s0(i: &mut u8, v: bool)
    ensures
        *final(i) == put_bit(*old(i) as int, 0x01, v),
{
    proof {
        reveal(has_bit);
        reveal(put_bit);
        lemma_u8_raise(*i);
        lemma_u8_lower(*i);
    }
    if v {
        *i = *i | 0x01;
    } else {
        *i = *i & 0xFE;
    }
}

pub fn s1(i: &mut u8, v: bool)
    ensures
        *final(i) == put_bit(*old(i) as int, 0x02, v),
{
    proof {
        reveal(has_bit);
        reveal(put_bit);
        lemma_u8_raise(*i);
        lemma_u8_lower(*i);
    }
    if v {
        *i = *i | 0x02;
    } else {
        *i = *i & 0xFD;
    }
}

pub fn s2(i: &mut u8, v: bool)
    ensures
        *final(i) == put_bit(*old(i) as int, 0x04, v),
{
    proof {
        reveal(has_bit);
        reveal(put_bit);
        lemma_u8_raise(*i);
        lemma_u8_lower(*i);
    }
    if v {
        *i = *i | 0x04;
    } else {
        *i = *i & 0xFB;
    }
}

pub fn s3(i: &mut u8, v: bool)
    ensures
        *final(i) == put_bit(*old(i) as int, 0x08, v),
{
    proof {
        reveal(has_bit);
        reveal(put_bit);
        lemma_u8_raise(*i);
        lemma_u8_lower(*i);
    }
    if v {
        *i = *i | 0x08;
    } else {
        *i = *i & 0xF7;
    }
}

pub fn s4(i: &mut u8, v: bool)
    ensures
        *final(i) == put_bit(*old(i) as int, 0x10, v),
{
    proof {
        reveal(has_bit);
        reveal(put_bit);
        lemma_u8_raise(*i);
        lemma_u8_lower(*i);
    }
    if v {
        *i = *i | 0x10;
    } else {
        *i = *i & 0xEF;
    }
}

pub fn s5(i: &mut u8, v: bool)
    ensures
        *final(i) == put_bit(*old(i) as int, 0x20, v),
{
    proof {
        reveal(has_bit);
        reveal(put_bit);
        lemma_u8_raise(*i);
        lemma_u8_lower(*i);
    }
    if v {
        *i = *i | 0x20;
    } else {
        *i = *i & 0xDF;
    }
}

pub fn s6(i: &mut u8, v: bool)
    ensures
        *final(i) == put_bit(*old(i) as int, 0x40, v),
{
    proof {
        reveal(has_bit);
        reveal(put_bit);
        lemma_u8_raise(*i);
        lemma_u8_lower(*i);
    }
    if v {
        *i = *i | 0x40;
    } else {
        *i = *i & 0xBF;
    }
}

pub fn s7(i: &mut u8, v: bool)
    ensures
        *final(i) == put_bit(*old(i) as int, 0x80, v),
{
    proof {
        reveal(has_bit);
        reveal(put_bit);
        lemma_u8_raise(*i);
        lemma_u8_lower(*i);
    }
    if v {
        *i = *i | 0x80;
    } else {
        *i = *i & 0x7F;
    }
}

pub fn p0(i: u8, v: bool) -> (r: u8)
    ensures
        r == put_bit(i as int, 0x01, v),
{
    proof {
        reveal(has_bit);
        reveal(put_bit);
        lemma_u8_raise(i);
        lemma_u8_lower(i);
    }
    if v {
        i | 0x01
    } else {
        i & 0xFE
    }
}

pub fn p1(i: u8, v: bool) -> (r: u8)
    ensures
        r == put_bit(i as int, 0x02, v),
{
    proof {
        reveal(has_bit);
        reveal(put_bit);
        lemma_u8_raise(i);
        lemma_u8_lower(i);
    }
    if v {
        i | 0x02
    } else {
        i & 0xFD
    }
}

pub fn p2(i: u8, v: bool) -> (r: u8)
    ensures
        r == put_bit(i as int, 0x04, v),
{
    proof {
        reveal(has_bit);
        reveal(put_bit);
        lemma_u8_raise(i);
        lemma_u8_lower(i);
    }
    if v {
        i | 0x04
    } else {
        i & 0xFB
    }
}

pub fn p3(i: u8, v: bool) -> (r: u8)
    ensures
        r == put_bit(i as int, 0x08, v),
{
    proof {
        reveal(has_bit);
        reveal(put_bit);
        lemma_u8_raise(i);
        lemma_u8_lower(i);
    }
    if v {
        i | 0x08
    } else {
        i & 0xF7
    }
}

pub fn p4(i: u8, v: bool) -> (r: u8)
    ensures
        r == put_bit(i as int, 0x10, v),
{
    proof {
        reveal(has_bit);
        reveal(put_bit);
        lemma_u8_raise(i);
        lemma_u8_lower(i);
    }
    if v {
        i | 0x10
    } else {
        i & 0xEF
    }
}

pub fn p5(i: u8, v: bool) -> (r: u8)
    ensures
        r == put_bit(i as int, 0x20, v),
{
    proof {
        reveal(has_bit);
        reveal(put_bit);
        lemma_u8_raise(i);
        lemma_u8_lower(i);
    }
    if v {
        i | 0x20
    } else {
        i & 0xDF
    }
}

pub fn p6(i: u8, v: bool) -> (r: u8)
    ensures
        r == put_bit(i as int, 0x40, v),
{
    proof {
        reveal(has_bit);
        reveal(put_bit);
        lemma_u8_raise(i);
        lemma_u8_lower(i);
    }
    if v {
        i | 0x40
    } else {
        i & 0xBF
    }
}

pub fn p7(i: u8, v: bool) -> (r: u8)
    ensures
        r == put_bit(i as int, 0x80, v),
{
    proof {
        reveal(has_bit);
        reveal(put_bit);
        lemma_u8_raise(i);
        lemma_u8_lower(i);
    }
    if v {
        i | 0x80
    } else {
        i & 0x7F
    }
}

pub fn t1(i: u8) -> (r: u8)
    ensures
        r == low_bits(i as int, 0x2),
{
    proof {
        lemma_u8_low(i);
    }
    i & 0x01
}

pub fn t2(i: u8) -> (r: u8)
    ensures
        r == low_bits(i as int, 0x4),
{
    proof {
        lemma_u8_low(i);
    }
    i & 0x03
}

pub fn t3(i: u8) -> (r: u8)
    ensures
        r == low_bits(i as int, 0x8),
{
    proof {
        lemma_u8_low(i);
    }
    i & 0x07
}

pub fn t4(i: u8) -> (r: u8)
    ensures
        r == low_bits(i as int, 0x10),
{
    proof {
        lemma_u8_low(i);
    }
    i & 0x0F
}

pub fn t5(i: u8) -> (r: u8)
    ensures
        r == low_bits(i as int, 0x20),
{
    proof {
        lemma_u8_low(i);
    }
    i & 0x1F
}

pub fn t6(i: u8) -> (r: u8)
    ensures
        r == low_bits(i as int, 0x40),
{
    proof {
        lemma_u8_low(i);
    }
    i & 0x3F
}

pub fn t7(i: u8) -> (r: u8)
    ensures
        r == low_bits(i as int, 0x80),
{
    proof {
        lemma_u8_low(i);
    }
    i & 0x7F
}

pub fn t8(i: u8) -> (r: u8)
    ensures
        r == low_bits(i as int, 0x100),
{
    proof {
        lemma_u8_low(i);
    }
    i & 0xFF
}

pub fn B0(i: u16) -> (r: bool)
    ensures
        r == has_bit(i as int, 0x0001),
{
    proof {
        reveal(has_bit);
        lemma_u16_test(i);
    }
    i & 0x0001 > 0
}

pub fn B1(i: u16) -> (r: bool)
    ensures
        r == has_bit(i as int, 0x0002),
{
    proof {
        reveal(has_bit);
        lemma_u16_test(i);
    }
    i & 0x0002 > 0
}

pub fn B2(i: u16) -> (r: bool)
    ensures
        r == has_bit(i as int, 0x0004),
{
    proof {
        reveal(has_bit);
        lemma_u16_test(i);
    }
    i & 0x0004 > 0
}

pub fn B3(i: u16) -> (r: bool)
    ensures
        r == has_bit(i as int, 0x0008),
{
    proof {
        reveal(has_bit);
        lemma_u16_test(i);
    }
    i & 0x0008 > 0
}

pub fn B4(i: u16) -> (r: bool)
    ensures
        r == has_bit(i as int, 0x0010),
{
    proof {
        reveal(has_bit);
        lemma_u16_test(i);
    }
    i & 0x0010 > 0
}

pub fn B5(i: u16) -> (r: bool)
    ensures
        r == has_bit(i as int, 0x0020),
{
    proof {
        reveal(has_bit);
        lemma_u16_test(i);
    }
    i & 0x0020 > 0
}

pub fn B6(i: u16) -> (r: bool)
    ensures
        r == has_bit(i as int, 0x0040),
{
    proof {
        reveal(has_bit);
        lemma_u16_test(i);
    }
    i & 0x0040 > 0
}

pub fn B7(i: u16) -> (r: bool)
    ensures
        r == has_bit(i as int, 0x0080),
{
    proof {
        reveal(has_bit);
        lemma_u16_test(i);
    }
    i & 0x0080 > 0
}

pub fn B8(i: u16) -> (r: bool)
    ensures
        r == has_bit(i as int, 0x0100),
{
    proof {
        reveal(has_bit);
        lemma_u16_test(i);
    }
    i & 0x0100 > 0
}

pub fn B9(i: u16) -> (r: bool)
    ensures
        r == has_bit(i as int, 0x0200),
{
    proof {
        reveal(has_bit);
        lemma_u16_test(i);
    }
    i & 0x0200 > 0
}

pub fn B10(i: u16) -> (r: bool)
    ensures
        r == has_bit(i as int, 0x0400),
{
    proof {
        reveal(has_bit);
        lemma_u16_test(i);
    }
    i & 0x0400 > 0
}

pub fn B11(i: u16) -> (r: bool)
    ensures
        r == has_bit(i as int, 0x0800),
{
    proof {
        reveal(has_bit);
        lemma_u16_test(i);
    }
    i & 0x0800 > 0
}

pub fn B12(i: u16) -> (r: bool)
    ensures
        r == has_bit(i as int, 0x1000),
{
    proof {
        reveal(has_bit);
        lemma_u16_test(i);
    }
    i & 0x1000 > 0
}

pub fn B13(i: u16) -> (r: bool)
    ensures
        r == has_bit(i as int, 0x2000),
{
    proof {
        reveal(has_bit);
        lemma_u16_test(i);
    }
    i & 0x2000 > 0
}

pub fn B14(i: u16) -> (r: bool)
    ensures
        r == has_bit(i as int, 0x4000),
{
    proof {
        reveal(has_bit);
        lemma_u16_test(i);
    }
    i & 0x4000 > 0
}

pub fn B15(i: u16) -> (r: bool)
    ensures
        r == has_bit(i as int, 0x8000),
{
    proof {
        reveal(has_bit);
        lemma_u16_test(i);
    }
    i & 0x8000 > 0
}

pub fn S0(i: &mut u16, v: bool)
    ensures
        *final(i) == put_bit(*old(i) as int, 0x0001, v),
{
    proof {
        reveal(has_bit);
        reveal(put_bit);
        lemma_u16_raise(*i);
        lemma_u16_lower(*i);
    }
    if v {
        *i = *i | 0x0001;
    } else {
        *i = *i & 0xFFFE;
    }
}

pub fn S1(i: &mut u16, v: bool)
    ensures
        *final(i) == put_bit(*old(i) as int, 0x0002, v),
{
    proof {
        reveal(has_bit);
        reveal(put_bit);
        lemma_u16_raise(*i);
        lemma_u16_lower(*i);
    }
    if v {
        *i = *i | 0x0002;
    } else {
        *i = *i & 0xFFFD;
    }
}

pub fn S2(i: &mut u16, v: bool)
    ensures
        *final(i) == put_bit(*old(i) as int, 0x0004, v),
{
    proof {
        reveal(has_bit);
        reveal(put_bit);
        lemma_u16_raise(*i);
        lemma_u16_lower(*i);
    }
    if v {
        *i = *i | 0x0004;
    } else {
        *i = *i & 0xFFFB;
    }
}

pub fn S3(i: &mut u16, v: bool)
    ensures
        *final(i) == put_bit(*old(i) as int, 0x0008, v),
{
    proof {
        reveal(has_bit);
        reveal(put_bit);
        lemma_u16_raise(*i);
        lemma_u16_lower(*i);
    }
    if v {
        *i = *i | 0x0008;
    } else {
        *i = *i & 0xFFF7;
    }
}

pub fn S4(i: &mut u16, v: bool)
    ensures
        *final(i) == put_bit(*old(i) as int, 0x0010, v),
{
    proof {
        reveal(has_bit);
        reveal(put_bit);
        lemma_u16_raise(*i);
        lemma_u16_lower(*i);
    }
    if v {
        *i = *i | 0x0010;
    } else {
        *i = *i & 0xFFEF;
    }
}

pub fn S5(i: &mut u16, v: bool)
    ensures
        *final(i) == put_bit(*old(i) as int, 0x0020, v),
{
    proof {
        reveal(has_bit);
        reveal(put_bit);
        lemma_u16_raise(*i);
        lemma_u16_lower(*i);
    }
    if v {
        *i = *i | 0x0020;
    } else {
        *i = *i & 0xFFDF;
    }
}

pub fn S6(i: &mut u16, v: bool)
    ensures
        *final(i) == put_bit(*old(i) as int, 0x0040, v),
{
    proof {
        reveal(has_bit);
        reveal(put_bit);
        lemma_u16_raise(*i);
        lemma_u16_lower(*i);
    }
    if v {
        *i = *i | 0x0040;
    } else {
        *i = *i & 0xFFBF;
    }
}

pub fn S7(i: &mut u16, v: bool)
    ensures
        *final(i) == put_bit(*old(i) as int, 0x0080, v),
{
    proof {
        reveal(has_bit);
        reveal(put_bit);
        lemma_u16_raise(*i);
        lemma_u16_lower(*i);
    }
    if v {
        *i = *i | 0x0080;
    } else {
        *i = *i & 0xFF7F;
    }
}

pub fn S8(i: &mut u16, v: bool)
    ensures
        *final(i) == put_bit(*old(i) as int, 0x0100, v),
{
    proof {
        reveal(has_bit);
        reveal(put_bit);
        lemma_u16_raise(*i);
        lemma_u16_lower(*i);
    }
    if v {
        *i = *i | 0x0100;
    } else {
        *i = *i & 0xFEFF;
    }
}

pub fn S9(i: &mut u16, v: bool)
    ensures
        *final(i) == put_bit(*old(i) as int, 0x0200, v),
{
    proof {
        reveal(has_bit);
        reveal(put_bit);
        lemma_u16_raise(*i);
        lemma_u16_lower(*i);
    }
    if v {
        *i = *i | 0x0200;
    } else {
        *i = *i & 0xFDFF;
    }
}

pub fn S10(i: &mut u16, v: bool)
    ensures
        *final(i) == put_bit(*old(i) as int, 0x0400, v),
{
    proof {
        reveal(has_bit);
        reveal(put_bit);
        lemma_u16_raise(*i);
        lemma_u16_lower(*i);
    }
    if v {
        *i = *i | 0x0400;
    } else {
        *i = *i & 0xFBFF;
    }
}

pub fn S11(i: &mut u16, v: bool)
    ensures
        *final(i) == put_bit(*old(i) as int, 0x0800, v),
{
    proof {
        reveal(has_bit);
        reveal(put_bit);
        lemma_u16_raise(*i);
        lemma_u16_lower(*i);
    }
    if v {
        *i = *i | 0x0800;
    } else {
        *i = *i & 0xF7FF;
    }
}

pub fn S12(i: &mut u16, v: bool)
    ensures
        *final(i) == put_bit(*old(i) as int, 0x1000, v),
{
    proof {
        reveal(has_bit);
        reveal(put_bit);
        lemma_u16_raise(*i);
        lemma_u16_lower(*i);
    }
    if v {
        *i = *i | 0x1000;
    } else {
        *i = *i & 0xEFFF;
    }
}

pub fn S13(i: &mut u16, v: bool)
    ensures
        *final(i) == put_bit(*old(i) as int, 0x2000, v),
{
    proof {
        reveal(has_bit);
        reveal(put_bit);
        lemma_u16_raise(*i);
        lemma_u16_lower(*i);
    }
    if v {
        *i = *i | 0x2000;
    } else {
        *i = *i & 0xDFFF;
    }
}

pub fn S14(i: &mut u16, v: bool)
    ensures
        *final(i) == put_bit(*old(i) as int, 0x4000, v),
{
    proof {
        reveal(has_bit);
        reveal(put_bit);
        lemma_u16_raise(*i);
        lemma_u16_lower(*i);
    }
    if v {
        *i = *i | 0x4000;
    } else {
        *i = *i & 0xBFFF;
    }
}

pub fn S15(i: &mut u16, v: bool)
    ensures
        *final(i) == put_bit(*old(i) as int, 0x8000, v),
{
    proof {
        reveal(has_bit);
        reveal(put_bit);
        lemma_u16_raise(*i);
        lemma_u16_lower(*i);
    }
    if v {
        *i = *i | 0x8000;
    } else {
        *i = *i & 0x7FFF;
    }
}

pub fn P0(i: u16, v: bool) -> (r: u16)
    ensures
        r == put_bit(i as int, 0x0001, v),
{
    proof {
        reveal(has_bit);
        reveal(put_bit);
        lemma_u16_raise(i);
        lemma_u16_lower(i);
    }
    if v {
        i | 0x0001
    } else {
        i & 0xFFFE
    }
}

pub fn P1(i: u16, v: bool) -> (r: u16)
    ensures
        r == put_bit(i as int, 0x0002, v),
{
    proof {
        reveal(has_bit);
        reveal(put_bit);
        lemma_u16_raise(i);
        lemma_u16_lower(i);
    }
    if v {
        i | 0x0002
    } else {
        i & 0xFFFD
    }
}

pub fn P2(i: u16, v: bool) -> (r: u16)
    ensures
        r == put_bit(i as int, 0x0004, v),
{
    proof {
        reveal(has_bit);
        reveal(put_bit);
        lemma_u16_raise(i);
        lemma_u16_lower(i);
    }
    if v {
        i | 0x0004
    } else {
        i & 0xFFFB
    }
}

pub fn P3(i: u16, v: bool) -> (r: u16)
    ensures
        r == put_bit(i as int, 0x0008, v),
{
    proof {
        reveal(has_bit);
        reveal(put_bit);
        lemma_u16_raise(i);
        lemma_u16_lower(i);
    }
    if v {
        i | 0x0008
    } else {
        i & 0xFFF7
    }
}

pub fn P4(i: u16, v: bool) -> (r: u16)
    ensures
        r == put_bit(i as int, 0x0010, v),
{
    proof {
        reveal(has_bit);
        reveal(put_bit);
        lemma_u16_raise(i);
        lemma_u16_lower(i);
    }
    if v {
        i | 0x0010
    } else {
        i & 0xFFEF
    }
}

pub fn P5(i: u16, v: bool) -> (r: u16)
    ensures
        r == put_bit(i as int, 0x0020, v),
{
    proof {
        reveal(has_bit);
        reveal(put_bit);
        lemma_u16_raise(i);
        lemma_u16_lower(i);
    }
    if v {
        i | 0x0020
    } else {
        i & 0xFFDF
    }
}

pub fn P6(i: u16, v: bool) -> (r: u16)
    ensures
        r == put_bit(i as int, 0x0040, v),
{
    proof {
        reveal(has_bit);
        reveal(put_bit);
        lemma_u16_raise(i);
        lemma_u16_lower(i);
    }
    if v {
        i | 0x0040
    } else {
        i & 0xFFBF
    }
}

pub fn P7(i: u16, v: bool) -> (r: u16)
    ensures
        r == put_bit(i as int, 0x0080, v),
{
    proof {
        reveal(has_bit);
        reveal(put_bit);
        lemma_u16_raise(i);
        lemma_u16_lower(i);
    }
    if v {
        i | 0x0080
    } else {
        i & 0xFF7F
    }
}

pub fn P8(i: u16, v: bool) -> (r: u16)
    ensures
        r == put_bit(i as int, 0x0100, v),
{
    proof {
        reveal(has_bit);
        reveal(put_bit);
        lemma_u16_raise(i);
        lemma_u16_lower(i);
    }
    if v {
        i | 0x0100
    } else {
        i & 0xFEFF
    }
}

pub fn P9(i: u16, v: bool) -> (r: u16)
    ensures
        r == put_bit(i as int, 0x0200, v),
{
    proof {
        reveal(has_bit);
        reveal(put_bit);
        lemma_u16_raise(i);
        lemma_u16_lower(i);
    }
    if v {
        i | 0x0200
    } else {
        i & 0xFDFF
    }
}

pub fn P10(i: u16, v: bool) -> (r: u16)
    ensures
        r == put_bit(i as int, 0x0400, v),
{
    proof {
        reveal(has_bit);
        reveal(put_bit);
        lemma_u16_raise(i);
        lemma_u16_lower(i);
    }
    if v {
        i | 0x0400
    } else {
        i & 0xFBFF
    }
}

pub fn P11(i: u16, v: bool) -> (r: u16)
    ensures
        r == put_bit(i as int, 0x0800, v),
{
    proof {
        reveal(has_bit);
        reveal(put_bit);
        lemma_u16_raise(i);
        lemma_u16_lower(i);
    }
    if v {
        i | 0x0800
    } else {
        i & 0xF7FF
    }
}

pub fn P12(i: u16, v: bool) -> (r: u16)
    ensures
        r == put_bit(i as int, 0x1000, v),
{
    proof {
        reveal(has_bit);
        reveal(put_bit);
        lemma_u16_raise(i);
        lemma_u16_lower(i);
    }
    if v {
        i | 0x1000
    } else {
        i & 0xEFFF
    }
}

pub fn P13(i: u16, v: bool) -> (r: u16)
    ensures
        r == put_bit(i as int, 0x2000, v),
{
    proof {
        reveal(has_bit);
        reveal(put_bit);
        lemma_u16_raise(i);
        lemma_u16_lower(i);
    }
    if v {
        i | 0x2000
    } else {
        i & 0xDFFF
    }
}

pub fn P14(i: u16, v: bool) -> (r: u16)
    ensures
        r == put_bit(i as int, 0x4000, v),
{
    proof {
        reveal(has_bit);
        reveal(put_bit);
        lemma_u16_raise(i);
        lemma_u16_lower(i);
    }
    if v {
        i | 0x4000
    } else {
        i & 0xBFFF
    }
}

pub fn P15(i: u16, v: bool) -> (r: u16)
    ensures
        r == put_bit(i as int, 0x8000, v),
{
    proof {
        reveal(has_bit);
        reveal(put_bit);
        lemma_u16_raise(i);
        lemma_u16_lower(i);
    }
    if v {
        i | 0x8000
    } else {
        i & 0x7FFF
    }
}

pub fn T1(i: u16) -> (r: u16)
    ensures
        r == low_bits(i as int, 0x2),
{
    proof {
        lemma_u16_low(i);
    }
    i & 0x0001
}

pub fn T2(i: u16) -> (r: u16)
    ensures
        r == low_bits(i as int, 0x4),
{
    proof {
        lemma_u16_low(i);
    }
    i & 0x0003
}

pub fn T3(i: u16) -> (r: u16)
    ensures
        r == low_bits(i as int, 0x8),
{
    proof {
        lemma_u16_low(i);
    }
    i & 0x0007
}

pub fn T4(i: u16) -> (r: u16)
    ensures
        r == low_bits(i as int, 0x10),
{
    proof {
        lemma_u16_low(i);
    }
    i & 0x000F
}

pub fn T5(i: u16) -> (r: u16)
    ensures
        r == low_bits(i as int, 0x20),
{
    proof {
        lemma_u16_low(i);
    }
    i & 0x001F
}

pub fn T6(i: u16) -> (r: u16)
    ensures
        r == low_bits(i as int, 0x40),
{
    proof {
        lemma_u16_low(i);
    }
    i & 0x003F
}

pub fn T7(i: u16) -> (r: u16)
    ensures
        r == low_bits(i as int, 0x80),
{
    proof {
        lemma_u16_low(i);
    }
    i & 0x007F
}

pub fn T8(i: u16) -> (r: u16)
    ensures
        r == low_bits(i as int, 0x100),
{
    proof {
        lemma_u16_low(i);
    }
    i & 0x00FF
}

pub fn T9(i: u16) -> (r: u16)
    ensures
        r == low_bits(i as int, 0x200),
{
    proof {
        lemma_u16_low(i);
    }
    i & 0x01FF
}

pub fn T10(i: u16) -> (r: u16)
    ensures
        r == low_bits(i as int, 0x400),
{
    proof {
        lemma_u16_low(i);
    }
    i & 0x03FF
}

pub fn T11(i: u16) -> (r: u16)
    ensures
        r == low_bits(i as int, 0x800),
{
    proof {
        lemma_u16_low(i);
    }
    i & 0x07FF
}

pub fn T12(i: u16) -> (r: u16)
    ensures
        r == low_bits(i as int, 0x1000),
{
    proof {
        lemma_u16_low(i);
    }
    i & 0x0FFF
}

pub fn T13(i: u16) -> (r: u16)
    ensures
        r == low_bits(i as int, 0x2000),
{
    proof {
        lemma_u16_low(i);
    }
    i & 0x1FFF
}

pub fn T14(i: u16) -> (r: u16)
    ensures
        r == low_bits(i as int, 0x4000),
{
    proof {
        lemma_u16_low(i);
    }
    i & 0x3FFF
}

pub fn T15(i: u16) -> (r: u16)
    ensures
        r == low_bits(i as int, 0x8000),
{
    proof {
        lemma_u16_low(i);
    }
    i & 0x7FFF
}

pub fn T16(i: u16) -> (r: u16)
    ensures
        r == low_bits(i as int, 0x10000),
{
    proof {
        lemma_u16_low(i);
    }
    i & 0xFFFF
}

/// Shifting a byte into the high half of a word and or-ing another below it.
pub proof fn lemma_join(msb: u8, lsb: u8)
    by (bit_vector)
    ensures
        ((msb as u16) << 8) | (lsb as u16) == 256 * msb + lsb,
{
}

/// Taking a word apart with masks and a shift.
pub proof fn lemma_split(x: u16)
    by (bit_vector)
    ensures
        x & 0x00FF == x % 256,
        (x & 0xFF00) >> 8 == x / 256,
        x & 0xFF00 == (x / 256) * 256,
{
}

pub fn join_bytes(msb: u8, lsb: u8) -> (r: u16)
    ensures
        r == word(msb, lsb),
{
    proof {
        lemma_join(msb, lsb);
    }
    ((msb as u16) << 8) | (lsb as u16)
}

pub fn split_bytes(x: u16) -> (r: (u8, u8))
    ensures
        r.0 == x / 256,
        r.1 == x % 256,
        word(r.0, r.1) == x,
{
    proof {
        lemma_split(x);
    }
    let lsb = x & 0x00FF;
    let msb = (x & 0xFF00) >> 8;
    (msb as u8, lsb as u8)
}

/// Adds two addresses and reports whether the sum lies in another 256-byte page than `a`.
pub fn page_cross_sum(a: u16, b: u16) -> (r: (u16, bool))
    ensures
        r.0 == wrapped_sum(a, b),
        r.1 == (a / 256 != r.0 / 256),
{
    let output = a.wrapping_add(b);
    proof {
        lemma_split(a);
        lemma_split(output);
    }
    let page_cross = !(a & 0xFF00 == output & 0xFF00);
    (output, page_cross)
}

/// Doubling a byte that is below 128, with a new lowest bit.
pub proof fn lemma_shift_in(x: u8)
    by (bit_vector)
    requires
        x < 128,
    ensures
        (x << 1) == 2 * x,
        (x << 1) | 0x01 == 2 * x + 1,
{
}

/// Packs eight entries into one byte: bit 7 stands for `data[0]`, bit 0 for `data[7]`,
/// and a bit is set where the entry is non-zero.
pub fn flatten_u8(data: [u8; 8]) -> (r: u8)
    ensures
        r == opaque_bits(data@, 8),
{
    let mut output: u8 = 0;
    let mut i: usize = 0;
    while i < 8
        invariant
            i <= 8,
            output == opaque_bits(data@, i as int),
            output < pow2_small(i as int),
        decreases 8 - i,
    {
        proof {
            lemma_shift_in(output);
        }
        if data[i] > 0 {
            output = (output << 1) | 0x01;
        } else {
            output = output << 1;
        }
        i = i + 1;
    }
    output
}

/// The byte that `flatten_u8` packs has bit 7 - k set where entry `k` is non-zero.
pub proof fn lemma_opaque_bits(data: Seq<u8>, k: int)
    requires
        0 <= k < 8,
    ensures
        0 <= opaque_bits(data, 8) < 256,
        has_bit(opaque_bits(data, 8), pow2_small(7 - k)) == (data[k] > 0),
{
    reveal(has_bit);
    reveal_with_fuel(opaque_bits, 9);
}

/// Two to the power `k`, for `k` up to 8.
pub open spec fn pow2_small(k: int) -> int {
    if k <= 0 {
        1
    } else if k == 1 {
        2
    } else if k == 2 {
        4
    } else if k == 3 {
        8
    } else if k == 4 {
        16
    } else if k == 5 {
        32
    } else if k == 6 {
        64
    } else if k == 7 {
        128
    } else {
        256
    }
}

} // verus!
