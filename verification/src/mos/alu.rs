use vstd::prelude::*;

use crate::mos::primitive::{flag_of, with_flag};
use crate::mos::types::Flag;
use crate::utils;

verus! {

//  What the arithmetic unit computes, as functions of plain bytes: the registers and the
//  bus are the business of the instructions that call these.

/// A byte read as a two's complement number.
pub open spec fn signed(v: u8) -> int {
    if v >= 128 {
        v - 256
    } else {
        v as int
    }
}

/// The carry flag of a status byte as a number.
pub open spec fn carry_of(ps: u8) -> int {
    if flag_of(ps, Flag::Carry) {
        1
    } else {
        0
    }
}

/// A status byte whose zero and negative flags describe `v`.
pub open spec fn with_nz(ps: u8, v: u8) -> u8 {
    with_flag(with_flag(ps, Flag::Zero, v == 0), Flag::Negative, v >= 128)
}

/// A status byte with the four flags that an addition or a subtraction decides.
pub open spec fn with_czvn(ps: u8, c: bool, z: bool, v: bool, n: bool) -> u8 {
    with_flag(with_flag(with_flag(with_flag(ps, Flag::Carry, c), Flag::Zero, z), Flag::Overflow, v), Flag::Negative, n)
}

/// The high nibble of a byte, in place.
pub open spec fn high_nibble(v: u8) -> u8 {
    ((v / 16) * 16) as u8
}

/// What ADC leaves in the accumulator and in the status byte for binary operands.
pub open spec fn binary_sum(a: u8, m: u8, ps: u8) -> (u8, u8) {
    let s = a + m + carry_of(ps);
    let value = (s % 256) as u8;
    let overflow = !(-128 <= signed(a) + signed(m) + carry_of(ps) <= 127);
    (value, with_czvn(ps, s > 255, value == 0, overflow, value >= 128))
}

/// What ADC leaves behind when the operands are packed decimal digits. The zero flag
/// follows the binary sum, the negative and overflow flags the sum before the high digit
/// is corrected.
pub open spec fn decimal_sum(a: u8, m: u8, ps: u8) -> (u8, u8) {
    let low = a % 16 + m % 16 + carry_of(ps);
    let low = if low >= 10 {
        (low + 6) % 16 + 16
    } else {
        low
    };
    let mid = high_nibble(a) + high_nibble(m) + low;
    let overflow = !(-128 <= signed(high_nibble(a)) + signed(high_nibble(m)) + low <= 127);
    let high = if mid >= 0xA0 {
        mid + 0x60
    } else {
        mid
    };
    (
        (high % 256) as u8,
        with_czvn(ps, high >= 256, (a + m + carry_of(ps)) % 256 == 0, overflow, mid % 256 >= 128),
    )
}

/// ADC: the accumulator and the status byte after adding `m` and the carry to `a`.
pub open spec fn sum(a: u8, m: u8, ps: u8, decimal: bool) -> (u8, u8) {
    if decimal && flag_of(ps, Flag::DecimalMode) {
        decimal_sum(a, m, ps)
    } else {
        binary_sum(a, m, ps)
    }
}

/// What SBC leaves behind for binary operands: `a - m - 1 + carry`, with the carry
/// flag clear where that is negative.
pub open spec fn binary_difference(a: u8, m: u8, ps: u8) -> (u8, u8) {
    let d = a - m - 1 + carry_of(ps);
    let value = (d % 256) as u8;
    let overflow = !(-128 <= signed(a) - signed(m) - 1 + carry_of(ps) <= 127);
    (value, with_czvn(ps, d >= 0, value == 0, overflow, value >= 128))
}

/// What SBC leaves behind for packed decimal digits: the flags of the binary
/// difference, and each digit corrected where it borrowed.
pub open spec fn decimal_difference(a: u8, m: u8, ps: u8) -> (u8, u8) {
    let low = a % 16 - m % 16 + carry_of(ps) - 1;
    let low = if low < 0 {
        (low - 6) % 16 - 16
    } else {
        low
    };
    let mid = high_nibble(a) - high_nibble(m) + low;
    let high = if mid < 0 {
        mid - 0x60
    } else {
        mid
    };
    ((high % 256) as u8, binary_difference(a, m, ps).1)
}

/// SBC: the accumulator and the status byte after subtracting `m` and the borrow from `a`.
pub open spec fn difference(a: u8, m: u8, ps: u8, decimal: bool) -> (u8, u8) {
    if decimal && flag_of(ps, Flag::DecimalMode) {
        decimal_difference(a, m, ps)
    } else {
        binary_difference(a, m, ps)
    }
}

/// CMP, CPX, CPY: the status byte after comparing the register `r` with `m`.
pub open spec fn comparison(r: u8, m: u8, ps: u8) -> u8 {
    with_flag(
        with_flag(with_flag(ps, Flag::Carry, r >= m), Flag::Zero, r == m),
        Flag::Negative,
        (r - m) % 256 >= 128,
    )
}

/// BIT: the zero flag says whether `a` and `m` share no bit, the other two copy bits
/// 6 and 7 of `m`.
pub open spec fn bit_test(a: u8, m: u8, ps: u8) -> u8 {
    with_flag(
        with_flag(with_flag(ps, Flag::Zero, a & m == 0), Flag::Overflow, utils::has_bit(m as int, 0x40)),
        Flag::Negative,
        m >= 128,
    )
}

/// The four shifts and rotations.
#[derive(Copy, Clone, Debug, PartialEq, Eq, Structural)]
pub enum Shift {
    Asl,
    Lsr,
    Rol,
    Ror,
}

/// The byte that a shift or rotation of `v` gives.
pub open spec fn shifted_value(kind: Shift, v: u8, ps: u8) -> u8 {
    match kind {
        Shift::Asl => ((v * 2) % 256) as u8,
        Shift::Lsr => v / 2,
        Shift::Rol => ((v * 2) % 256 + carry_of(ps)) as u8,
        Shift::Ror => (v / 2 + 128 * carry_of(ps)) as u8,
    }
}

/// The status byte after a shift or rotation of `v`: the carry takes the bit that
/// fell out.
pub open spec fn shifted_status(kind: Shift, v: u8, ps: u8) -> u8 {
    let out = match kind {
        Shift::Asl | Shift::Rol => v >= 128,
        Shift::Lsr | Shift::Ror => v % 2 == 1,
    };
    with_nz(with_flag(ps, Flag::Carry, out), shifted_value(kind, v, ps))
}

/// The status byte as PHP, BRK and an interrupt entry store it: bit 5 is always set,
/// bit 4 says whether an instruction stored it.
pub open spec fn pushed_status(ps: u8, by_instruction: bool) -> u8 {
    utils::put_bit(utils::put_bit(ps as int, 0x20, true), 0x10, by_instruction) as u8
}

/// The status byte that PLP and RTI make of a byte from the stack: bit 5 set, bit 4
/// clear.
pub open spec fn pulled_status(v: u8) -> u8 {
    utils::put_bit(utils::put_bit(v as int, 0x20, true), 0x10, false) as u8
}

pub fn nz(ps: u8, v: u8) -> (r: u8)
    ensures
        r == with_nz(ps, v),
{
    utils::p7(utils::p1(ps, v == 0), v >= 128)
}

fn czvn(ps: u8, c: bool, z: bool, v: bool, n: bool) -> (r: u8)
    ensures
        r == with_czvn(ps, c, z, v, n),
{
    utils::p7(utils::p6(utils::p1(utils::p0(ps, c), z), v), n)
}

fn signed_of(v: u8) -> (r: i16)
    ensures
        r == signed(v),
{
    if v >= 128 {
        v as i16 - 256
    } else {
        v as i16
    }
}

fn carry(ps: u8) -> (r: u8)
    ensures
        r == carry_of(ps),
{
    if utils::b0(ps) {
        1
    } else {
        0
    }
}

fn low_byte(v: i16) -> (r: u8)
    requires
        -512 <= v < 1024,
    ensures
        r == v % 256,
{
    (((v + 512) as u16) % 256) as u8
}

pub fn add_with_carry(a: u8, m: u8, ps: u8, decimal: bool) -> (r: (u8, u8))
    ensures
        r == sum(a, m, ps, decimal),
{
    let c = carry(ps);
    let binary: u16 = a as u16 + m as u16 + c as u16;
    if decimal && utils::b3(ps) {
        let mut low: u8 = a % 16 + m % 16 + c;
        if low >= 10 {
            low = (low + 6) % 16 + 16;
        }
        let a_high: u8 = (a / 16) * 16;
        let m_high: u8 = (m / 16) * 16;
        let mid: u16 = a_high as u16 + m_high as u16 + low as u16;
        let range: i16 = signed_of(a_high) + signed_of(m_high) + low as i16;
        let high: u16 = if mid >= 0xA0 {
            mid + 0x60
        } else {
            mid
        };
        (
            (high % 256) as u8,
            czvn(ps, high >= 256, binary % 256 == 0, !(-128 <= range && range <= 127), mid % 256 >= 128),
        )
    } else {
        let value: u8 = (binary % 256) as u8;
        let range: i16 = signed_of(a) + signed_of(m) + c as i16;
        (value, czvn(ps, binary > 255, value == 0, !(-128 <= range && range <= 127), value >= 128))
    }
}

fn binary_subtract(a: u8, m: u8, ps: u8) -> (r: (u8, u8))
    ensures
        r == binary_difference(a, m, ps),
{
    let c = carry(ps);
    let d: i16 = a as i16 - m as i16 - 1 + c as i16;
    let value: u8 = low_byte(d);
    let range: i16 = signed_of(a) - signed_of(m) - 1 + c as i16;
    (value, czvn(ps, d >= 0, value == 0, !(-128 <= range && range <= 127), value >= 128))
}

/// The low digit of a decimal difference once its borrow is settled.
fn borrow_low(low: i16) -> (r: i16)
    requires
        -16 <= low <= 15,
    ensures
        r == (if low < 0 {
            (low - 6) % 16 - 16
        } else {
            low as int
        }),
        -32 <= r <= 15,
{
    if low < 0 {
        let up: u16 = (low + 26) as u16;
        (up % 16) as i16 - 16
    } else {
        low
    }
}

fn decimal_subtract(a: u8, m: u8, ps: u8) -> (value: u8)
    ensures
        value == decimal_difference(a, m, ps).0,
{
    let c = carry(ps);
    let low: i16 = borrow_low((a % 16) as i16 - (m % 16) as i16 + c as i16 - 1);
    let mid: i16 = ((a / 16) * 16) as i16 - ((m / 16) * 16) as i16 + low;
    let high: i16 = if mid < 0 {
        mid - 0x60
    } else {
        mid
    };
    low_byte(high)
}

pub fn subtract_with_carry(a: u8, m: u8, ps: u8, decimal: bool) -> (r: (u8, u8))
    ensures
        r == difference(a, m, ps, decimal),
{
    let binary = binary_subtract(a, m, ps);
    if decimal && utils::b3(ps) {
        (decimal_subtract(a, m, ps), binary.1)
    } else {
        binary
    }
}

pub fn compare(r: u8, m: u8, ps: u8) -> (status: u8)
    ensures
        status == comparison(r, m, ps),
{
    let d = r.wrapping_sub(m);
    utils::p7(utils::p1(utils::p0(ps, r >= m), r == m), d >= 128)
}

pub fn test_bits(a: u8, m: u8, ps: u8) -> (status: u8)
    ensures
        status == bit_test(a, m, ps),
{
    utils::p7(utils::p6(utils::p1(ps, a & m == 0), utils::b6(m)), m >= 128)
}

pub fn shift(kind: Shift, v: u8, ps: u8) -> (r: (u8, u8))
    ensures
        r.0 == shifted_value(kind, v, ps),
        r.1 == shifted_status(kind, v, ps),
{
    let c = carry(ps);
    let value: u8 = match kind {
        Shift::Asl => v.wrapping_mul(2),
        Shift::Lsr => v / 2,
        Shift::Rol => v.wrapping_mul(2) + c,
        Shift::Ror => v / 2 + 128 * c,
    };
    let out = match kind {
        Shift::Asl | Shift::Rol => v >= 128,
        Shift::Lsr | Shift::Ror => v % 2 == 1,
    };
    (value, nz(utils::p0(ps, out), value))
}

pub fn status_to_push(ps: u8, by_instruction: bool) -> (r: u8)
    ensures
        r == pushed_status(ps, by_instruction),
{
    utils::p4(utils::p5(ps, true), by_instruction)
}

pub fn status_from_pull(v: u8) -> (r: u8)
    ensures
        r == pulled_status(v),
{
    utils::p4(utils::p5(v, true), false)
}

} // verus!
