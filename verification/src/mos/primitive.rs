use vstd::prelude::*;

use crate::mos::types::{only_mos, Access, Bus, Context, Flag, Mos, Registers};
use crate::mos::addressing::{advanced, delayed, fetch, read_at, seen};
use crate::mos::instructions::{decode, execute, prepared};
use crate::mos::operations::{effect, performs};
use crate::utils;

verus! {

//  The functions here are the building blocks of the instructions: they read and change
//  the processor's state where the bus keeps it.
//
//  set_xxxx changes a value and hands back the one it replaces.
//  get_xxxx reads a value.
//  fetch_xxxx lends the value out for the caller to change.

/// A processor whose context says whether an instruction is still in flight.
pub open spec fn settled(mos: Mos) -> Mos {
    with_context(mos, Context { complete: mos.cycles == 0, ..mos.context })
}

/// What one tick makes of the bus. The clock counts it. While cycles are outstanding,
/// one of them is consumed and nothing else happens. Else the opcode at the program
/// counter is read and its instruction runs to the end: the trace grows by the read of
/// the opcode and by the accesses of the instruction, and the cycles of the instruction
/// but this one are left outstanding.
pub open spec fn ticked<T: Bus>(before: &T, after: &T) -> bool {
    let m = before.mos();
    let clocked = Mos { clock: shifted(m.clock as int, 1, 0x1_0000_0000_0000_0000) as u64, ..m };
    if m.cycles > 0 {
        only_mos(before, after, settled(Mos { cycles: (m.cycles - 1) as u64, ..clocked }))
    } else {
        let t = after.trace();
        let n = before.trace().len() as int;
        let i = decode(seen(t, n));
        let o = effect(i.operation, i.mode, prepared(advanced(clocked, 1), i), t, n + 1);
        &&& t =~= before.trace().push(read_at(m.registers.pc, t, n)) + o.accesses
        &&& after.mos() == settled(delayed(o.mos, -1))
        &&& after.frozen() == before.frozen()
        &&& after.inv()
    }
}

/// Advances the processor by one cycle.
pub fn tick<T: Bus>(bus: &mut T)
    requires
        old(bus).inv(),
    ensures
        ticked(old(bus), final(bus)),
{
    update_clock(bus, 1);
    let remaining_cycles = get_cycles(bus);
    if remaining_cycles > 0 {
        update_cycles(bus, -1);
    } else {
        let opcode = fetch(bus);
        execute(bus, opcode);
        update_cycles(bus, -1);
        proof {
            reveal(performs);
        }
    }
    let idle = get_cycles(bus) == 0;
    set_complete(bus, idle);
}

/// `x` moved by `v` on a counter that wraps at `m`.
pub open spec fn shifted(x: int, v: int, m: int) -> int {
    (x + v) % m
}

fn shift_u8(x: u8, v: i64) -> (r: u8)
    ensures
        r == shifted(x as int, v as int, 0x100),
{
    let wide = shift_u64(x as u64, v);
    assert((x + v) % 0x100 == ((x + v) % 0x1_0000_0000_0000_0000) % 0x100) by {
        let q = (x + v) / 0x1_0000_0000_0000_0000;
        assert((x + v) % 0x1_0000_0000_0000_0000 == (x + v) - q * 0x1_0000_0000_0000_0000);
        assert(q * 0x1_0000_0000_0000_0000 == (q * 0x100_0000_0000_0000) * 0x100);
        vstd::arithmetic::div_mod::lemma_mod_multiples_vanish(
            -(q * 0x100_0000_0000_0000),
            x + v,
            0x100,
        );
    }
    (wide % 0x100) as u8
}

fn shift_u16(x: u16, v: i64) -> (r: u16)
    ensures
        r == shifted(x as int, v as int, 0x10000),
{
    let wide = shift_u64(x as u64, v);
    assert((x + v) % 0x10000 == ((x + v) % 0x1_0000_0000_0000_0000) % 0x10000) by {
        let q = (x + v) / 0x1_0000_0000_0000_0000;
        assert((x + v) % 0x1_0000_0000_0000_0000 == (x + v) - q * 0x1_0000_0000_0000_0000);
        assert(q * 0x1_0000_0000_0000_0000 == (q * 0x1_0000_0000_0000) * 0x10000);
        vstd::arithmetic::div_mod::lemma_mod_multiples_vanish(
            -(q * 0x1_0000_0000_0000),
            x + v,
            0x10000,
        );
    }
    (wide % 0x10000) as u16
}

fn shift_u64(x: u64, v: i64) -> (r: u64)
    ensures
        r == shifted(x as int, v as int, 0x1_0000_0000_0000_0000),
{
    x.wrapping_add_signed(v)
}

pub fn update_clock<T: Bus>(bus: &mut T, offset: i64) -> (output: u64)
    ensures
        output == old(bus).mos().clock,
        only_mos(
            old(bus),
            final(bus),
            Mos {
                clock: shifted(output as int, offset as int, 0x1_0000_0000_0000_0000) as u64,
                ..old(bus).mos()
            },
        ),
{
    let mos = bus.fetch_mos();
    let output = mos.clock;
    mos.clock = shift_u64(output, offset);
    output
}

pub fn get_clock<T: Bus>(bus: &mut T) -> (clock: u64)
    ensures
        clock == old(bus).mos().clock,
        only_mos(old(bus), final(bus), old(bus).mos()),
{
    bus.get_mos().clock
}

pub fn update_cycles<T: Bus>(bus: &mut T, offset: i64) -> (output: u64)
    ensures
        output == old(bus).mos().cycles,
        only_mos(
            old(bus),
            final(bus),
            Mos {
                cycles: shifted(output as int, offset as int, 0x1_0000_0000_0000_0000) as u64,
                ..old(bus).mos()
            },
        ),
{
    let mos = bus.fetch_mos();
    let output = mos.cycles;
    mos.cycles = shift_u64(output, offset);
    output
}

pub fn get_cycles<T: Bus>(bus: &mut T) -> (cycles: u64)
    ensures
        cycles == old(bus).mos().cycles,
        only_mos(old(bus), final(bus), old(bus).mos()),
{
    bus.get_mos().cycles
}

/// `mos` with other registers.
pub open spec fn with_registers(mos: Mos, registers: Registers) -> Mos {
    Mos { registers, ..mos }
}

/// `mos` with another context.
pub open spec fn with_context(mos: Mos, context: Context) -> Mos {
    Mos { context, ..mos }
}

// Registers
// Set
pub fn set_pc<T: Bus>(bus: &mut T, v: u16) -> (output: u16)
    ensures
        output == old(bus).mos().registers.pc,
        only_mos(
            old(bus),
            final(bus),
            with_registers(old(bus).mos(), Registers { pc: v, ..old(bus).mos().registers }),
        ),
{
    let mos = bus.fetch_mos();
    let output = mos.registers.pc;
    mos.registers.pc = v;
    output
}

pub fn set_sp<T: Bus>(bus: &mut T, v: u8) -> (output: u8)
    ensures
        output == old(bus).mos().registers.sp,
        only_mos(
            old(bus),
            final(bus),
            with_registers(old(bus).mos(), Registers { sp: v, ..old(bus).mos().registers }),
        ),
{
    let mos = bus.fetch_mos();
    let output = mos.registers.sp;
    mos.registers.sp = v;
    output
}

pub fn set_acc<T: Bus>(bus: &mut T, v: u8) -> (output: u8)
    ensures
        output == old(bus).mos().registers.acc,
        only_mos(
            old(bus),
            final(bus),
            with_registers(old(bus).mos(), Registers { acc: v, ..old(bus).mos().registers }),
        ),
{
    let mos = bus.fetch_mos();
    let output = mos.registers.acc;
    mos.registers.acc = v;
    output
}

pub fn set_idx<T: Bus>(bus: &mut T, v: u8) -> (output: u8)
    ensures
        output == old(bus).mos().registers.idx,
        only_mos(
            old(bus),
            final(bus),
            with_registers(old(bus).mos(), Registers { idx: v, ..old(bus).mos().registers }),
        ),
{
    let mos = bus.fetch_mos();
    let output = mos.registers.idx;
    mos.registers.idx = v;
    output
}

pub fn set_idy<T: Bus>(bus: &mut T, v: u8) -> (output: u8)
    ensures
        output == old(bus).mos().registers.idy,
        only_mos(
            old(bus),
            final(bus),
            with_registers(old(bus).mos(), Registers { idy: v, ..old(bus).mos().registers }),
        ),
{
    let mos = bus.fetch_mos();
    let output = mos.registers.idy;
    mos.registers.idy = v;
    output
}

pub fn set_ps<T: Bus>(bus: &mut T, v: u8) -> (output: u8)
    ensures
        output == old(bus).mos().registers.ps,
        only_mos(
            old(bus),
            final(bus),
            with_registers(old(bus).mos(), Registers { ps: v, ..old(bus).mos().registers }),
        ),
{
    let mos = bus.fetch_mos();
    let output = mos.registers.ps;
    mos.registers.ps = v;
    output
}

// Get
pub fn get_pc<T: Bus>(bus: &mut T) -> (v: u16)
    ensures
        v == old(bus).mos().registers.pc,
        only_mos(old(bus), final(bus), old(bus).mos()),
{
    bus.get_mos().registers.pc
}

pub fn get_sp<T: Bus>(bus: &mut T) -> (v: u8)
    ensures
        v == old(bus).mos().registers.sp,
        only_mos(old(bus), final(bus), old(bus).mos()),
{
    bus.get_mos().registers.sp
}

pub fn get_acc<T: Bus>(bus: &mut T) -> (v: u8)
    ensures
        v == old(bus).mos().registers.acc,
        only_mos(old(bus), final(bus), old(bus).mos()),
{
    bus.get_mos().registers.acc
}

pub fn get_idx<T: Bus>(bus: &mut T) -> (v: u8)
    ensures
        v == old(bus).mos().registers.idx,
        only_mos(old(bus), final(bus), old(bus).mos()),
{
    bus.get_mos().registers.idx
}

pub fn get_idy<T: Bus>(bus: &mut T) -> (v: u8)
    ensures
        v == old(bus).mos().registers.idy,
        only_mos(old(bus), final(bus), old(bus).mos()),
{
    bus.get_mos().registers.idy
}

pub fn get_ps<T: Bus>(bus: &mut T) -> (v: u8)
    ensures
        v == old(bus).mos().registers.ps,
        only_mos(old(bus), final(bus), old(bus).mos()),
{
    bus.get_mos().registers.ps
}

// Fetch
pub fn fetch_pc<T: Bus>(bus: &mut T) -> (v: &mut u16)
    ensures
        *v == old(bus).mos().registers.pc,
        only_mos(
            old(bus),
            final(bus),
            with_registers(old(bus).mos(), Registers { pc: *final(v), ..old(bus).mos().registers }),
        ),
{
    &mut bus.fetch_mos().registers.pc
}

pub fn fetch_sp<T: Bus>(bus: &mut T) -> (v: &mut u8)
    ensures
        *v == old(bus).mos().registers.sp,
        only_mos(
            old(bus),
            final(bus),
            with_registers(old(bus).mos(), Registers { sp: *final(v), ..old(bus).mos().registers }),
        ),
{
    &mut bus.fetch_mos().registers.sp
}

pub fn fetch_acc<T: Bus>(bus: &mut T) -> (v: &mut u8)
    ensures
        *v == old(bus).mos().registers.acc,
        only_mos(
            old(bus),
            final(bus),
            with_registers(old(bus).mos(), Registers { acc: *final(v), ..old(bus).mos().registers }),
        ),
{
    &mut bus.fetch_mos().registers.acc
}

pub fn fetch_idx<T: Bus>(bus: &mut T) -> (v: &mut u8)
    ensures
        *v == old(bus).mos().registers.idx,
        only_mos(
            old(bus),
            final(bus),
            with_registers(old(bus).mos(), Registers { idx: *final(v), ..old(bus).mos().registers }),
        ),
{
    &mut bus.fetch_mos().registers.idx
}

pub fn fetch_idy<T: Bus>(bus: &mut T) -> (v: &mut u8)
    ensures
        *v == old(bus).mos().registers.idy,
        only_mos(
            old(bus),
            final(bus),
            with_registers(old(bus).mos(), Registers { idy: *final(v), ..old(bus).mos().registers }),
        ),
{
    &mut bus.fetch_mos().registers.idy
}

pub fn fetch_ps<T: Bus>(bus: &mut T) -> (v: &mut u8)
    ensures
        *v == old(bus).mos().registers.ps,
        only_mos(
            old(bus),
            final(bus),
            with_registers(old(bus).mos(), Registers { ps: *final(v), ..old(bus).mos().registers }),
        ),
{
    &mut bus.fetch_mos().registers.ps
}

// Map
pub fn map_pc<T: Bus, F: Fn(u16) -> u16>(bus: &mut T, f: F) -> (output: u16)
    requires
        f.requires((old(bus).mos().registers.pc,)),
    ensures
        output == old(bus).mos().registers.pc,
        f.ensures((output,), final(bus).mos().registers.pc),
        only_mos(
            old(bus),
            final(bus),
            with_registers(
                old(bus).mos(),
                Registers { pc: final(bus).mos().registers.pc, ..old(bus).mos().registers },
            ),
        ),
{
    let pc = get_pc(bus);
    set_pc(bus, f(pc))
}

pub fn map_sp<T: Bus, F: Fn(u8) -> u8>(bus: &mut T, f: F) -> (output: u8)
    requires
        f.requires((old(bus).mos().registers.sp,)),
    ensures
        output == old(bus).mos().registers.sp,
        f.ensures((output,), final(bus).mos().registers.sp),
        only_mos(
            old(bus),
            final(bus),
            with_registers(
                old(bus).mos(),
                Registers { sp: final(bus).mos().registers.sp, ..old(bus).mos().registers },
            ),
        ),
{
    let sp = get_sp(bus);
    set_sp(bus, f(sp))
}

pub fn map_acc<T: Bus, F: Fn(u8) -> u8>(bus: &mut T, f: F) -> (output: u8)
    requires
        f.requires((old(bus).mos().registers.acc,)),
    ensures
        output == old(bus).mos().registers.acc,
        f.ensures((output,), final(bus).mos().registers.acc),
        only_mos(
            old(bus),
            final(bus),
            with_registers(
                old(bus).mos(),
                Registers { acc: final(bus).mos().registers.acc, ..old(bus).mos().registers },
            ),
        ),
{
    let acc = get_acc(bus);
    set_acc(bus, f(acc))
}

pub fn map_idx<T: Bus, F: Fn(u8) -> u8>(bus: &mut T, f: F) -> (output: u8)
    requires
        f.requires((old(bus).mos().registers.idx,)),
    ensures
        output == old(bus).mos().registers.idx,
        f.ensures((output,), final(bus).mos().registers.idx),
        only_mos(
            old(bus),
            final(bus),
            with_registers(
                old(bus).mos(),
                Registers { idx: final(bus).mos().registers.idx, ..old(bus).mos().registers },
            ),
        ),
{
    let idx = get_idx(bus);
    set_idx(bus, f(idx))
}

pub fn map_idy<T: Bus, F: Fn(u8) -> u8>(bus: &mut T, f: F) -> (output: u8)
    requires
        f.requires((old(bus).mos().registers.idy,)),
    ensures
        output == old(bus).mos().registers.idy,
        f.ensures((output,), final(bus).mos().registers.idy),
        only_mos(
            old(bus),
            final(bus),
            with_registers(
                old(bus).mos(),
                Registers { idy: final(bus).mos().registers.idy, ..old(bus).mos().registers },
            ),
        ),
{
    let idy = get_idy(bus);
    set_idy(bus, f(idy))
}

pub fn map_ps<T: Bus, F: Fn(u8) -> u8>(bus: &mut T, f: F) -> (output: u8)
    requires
        f.requires((old(bus).mos().registers.ps,)),
    ensures
        output == old(bus).mos().registers.ps,
        f.ensures((output,), final(bus).mos().registers.ps),
        only_mos(
            old(bus),
            final(bus),
            with_registers(
                old(bus).mos(),
                Registers { ps: final(bus).mos().registers.ps, ..old(bus).mos().registers },
            ),
        ),
{
    let ps = get_ps(bus);
    set_ps(bus, f(ps))
}

// Set If
pub fn set_pc_if<T: Bus>(bus: &mut T, b: bool, v: u16)
    ensures
        only_mos(
            old(bus),
            final(bus),
            if b {
                with_registers(old(bus).mos(), Registers { pc: v, ..old(bus).mos().registers })
            } else {
                old(bus).mos()
            },
        ),
{
    let mos = bus.fetch_mos();
    if b {
        mos.registers.pc = v;
    }
}

pub fn set_sp_if<T: Bus>(bus: &mut T, b: bool, v: u8)
    ensures
        only_mos(
            old(bus),
            final(bus),
            if b {
                with_registers(old(bus).mos(), Registers { sp: v, ..old(bus).mos().registers })
            } else {
                old(bus).mos()
            },
        ),
{
    let mos = bus.fetch_mos();
    if b {
        mos.registers.sp = v;
    }
}

pub fn set_acc_if<T: Bus>(bus: &mut T, b: bool, v: u8)
    ensures
        only_mos(
            old(bus),
            final(bus),
            if b {
                with_registers(old(bus).mos(), Registers { acc: v, ..old(bus).mos().registers })
            } else {
                old(bus).mos()
            },
        ),
{
    let mos = bus.fetch_mos();
    if b {
        mos.registers.acc = v;
    }
}

pub fn set_idx_if<T: Bus>(bus: &mut T, b: bool, v: u8)
    ensures
        only_mos(
            old(bus),
            final(bus),
            if b {
                with_registers(old(bus).mos(), Registers { idx: v, ..old(bus).mos().registers })
            } else {
                old(bus).mos()
            },
        ),
{
    let mos = bus.fetch_mos();
    if b {
        mos.registers.idx = v;
    }
}

pub fn set_idy_if<T: Bus>(bus: &mut T, b: bool, v: u8)
    ensures
        only_mos(
            old(bus),
            final(bus),
            if b {
                with_registers(old(bus).mos(), Registers { idy: v, ..old(bus).mos().registers })
            } else {
                old(bus).mos()
            },
        ),
{
    let mos = bus.fetch_mos();
    if b {
        mos.registers.idy = v;
    }
}

pub fn set_ps_if<T: Bus>(bus: &mut T, b: bool, v: u8)
    ensures
        only_mos(
            old(bus),
            final(bus),
            if b {
                with_registers(old(bus).mos(), Registers { ps: v, ..old(bus).mos().registers })
            } else {
                old(bus).mos()
            },
        ),
{
    let mos = bus.fetch_mos();
    if b {
        mos.registers.ps = v;
    }
}

// Offset
pub fn offset_pc<T: Bus>(bus: &mut T, v: i64) -> (output: u16)
    ensures
        output == old(bus).mos().registers.pc,
        only_mos(
            old(bus),
            final(bus),
            with_registers(
                old(bus).mos(),
                Registers { pc: shifted(output as int, v as int, 0x10000) as u16, ..old(bus).mos().registers },
            ),
        ),
{
    let mos = bus.fetch_mos();
    let output = mos.registers.pc;
    mos.registers.pc = shift_u16(output, v);
    output
}

pub fn offset_sp<T: Bus>(bus: &mut T, v: i64) -> (output: u8)
    ensures
        output == old(bus).mos().registers.sp,
        only_mos(
            old(bus),
            final(bus),
            with_registers(
                old(bus).mos(),
                Registers { sp: shifted(output as int, v as int, 0x100) as u8, ..old(bus).mos().registers },
            ),
        ),
{
    let mos = bus.fetch_mos();
    let output = mos.registers.sp;
    mos.registers.sp = shift_u8(output, v);
    output
}

pub fn offset_acc<T: Bus>(bus: &mut T, v: i64) -> (output: u8)
    ensures
        output == old(bus).mos().registers.acc,
        only_mos(
            old(bus),
            final(bus),
            with_registers(
                old(bus).mos(),
                Registers { acc: shifted(output as int, v as int, 0x100) as u8, ..old(bus).mos().registers },
            ),
        ),
{
    let mos = bus.fetch_mos();
    let output = mos.registers.acc;
    mos.registers.acc = shift_u8(output, v);
    output
}

pub fn offset_idx<T: Bus>(bus: &mut T, v: i64) -> (output: u8)
    ensures
        output == old(bus).mos().registers.idx,
        only_mos(
            old(bus),
            final(bus),
            with_registers(
                old(bus).mos(),
                Registers { idx: shifted(output as int, v as int, 0x100) as u8, ..old(bus).mos().registers },
            ),
        ),
{
    let mos = bus.fetch_mos();
    let output = mos.registers.idx;
    mos.registers.idx = shift_u8(output, v);
    output
}

pub fn offset_idy<T: Bus>(bus: &mut T, v: i64) -> (output: u8)
    ensures
        output == old(bus).mos().registers.idy,
        only_mos(
            old(bus),
            final(bus),
            with_registers(
                old(bus).mos(),
                Registers { idy: shifted(output as int, v as int, 0x100) as u8, ..old(bus).mos().registers },
            ),
        ),
{
    let mos = bus.fetch_mos();
    let output = mos.registers.idy;
    mos.registers.idy = shift_u8(output, v);
    output
}

pub fn offset_ps<T: Bus>(bus: &mut T, v: i64) -> (output: u8)
    ensures
        output == old(bus).mos().registers.ps,
        only_mos(
            old(bus),
            final(bus),
            with_registers(
                old(bus).mos(),
                Registers { ps: shifted(output as int, v as int, 0x100) as u8, ..old(bus).mos().registers },
            ),
        ),
{
    let mos = bus.fetch_mos();
    let output = mos.registers.ps;
    mos.registers.ps = shift_u8(output, v);
    output
}

// Flags

/// The weight of the bit that holds a flag in the status byte.
pub open spec fn flag_weight(f: Flag) -> int {
    match f {
        Flag::Carry => 0x01,
        Flag::Zero => 0x02,
        Flag::InterruptDisable => 0x04,
        Flag::DecimalMode => 0x08,
        Flag::BreakCmd => 0x10,
        Flag::Overflow => 0x40,
        Flag::Negative => 0x80,
    }
}

/// Whether a status byte has the flag set.
pub open spec fn flag_of(ps: u8, f: Flag) -> bool {
    utils::has_bit(ps as int, flag_weight(f))
}

/// A status byte with one flag forced.
pub open spec fn with_flag(ps: u8, f: Flag, b: bool) -> u8 {
    utils::put_bit(ps as int, flag_weight(f), b) as u8
}

pub fn get_flag<T: Bus>(bus: &mut T, f: Flag) -> (b: bool)
    ensures
        b == flag_of(old(bus).mos().registers.ps, f),
        only_mos(old(bus), final(bus), old(bus).mos()),
{
    let ps = get_ps(bus);
    match f {
        Flag::Carry => utils::b0(ps),
        Flag::Zero => utils::b1(ps),
        Flag::InterruptDisable => utils::b2(ps),
        Flag::DecimalMode => utils::b3(ps),
        Flag::BreakCmd => utils::b4(ps),
        Flag::Overflow => utils::b6(ps),
        Flag::Negative => utils::b7(ps),
    }
}

pub fn set_flag<T: Bus>(bus: &mut T, f: Flag, b: bool)
    ensures
        only_mos(
            old(bus),
            final(bus),
            with_registers(
                old(bus).mos(),
                Registers { ps: with_flag(old(bus).mos().registers.ps, f, b), ..old(bus).mos().registers },
            ),
        ),
{
    let ps = get_ps(bus);
    let v = match f {
        Flag::Carry => utils::p0(ps, b),
        Flag::Zero => utils::p1(ps, b),
        Flag::InterruptDisable => utils::p2(ps, b),
        Flag::DecimalMode => utils::p3(ps, b),
        Flag::BreakCmd => utils::p4(ps, b),
        Flag::Overflow => utils::p6(ps, b),
        Flag::Negative => utils::p7(ps, b),
    };
    set_ps(bus, v);
}

// Context

pub fn get_decimal_enabled<T: Bus>(bus: &mut T) -> (v: bool)
    ensures
        v == old(bus).mos().context.decimal_enabled,
        only_mos(old(bus), final(bus), old(bus).mos()),
{
    bus.get_mos().context.decimal_enabled
}

pub fn get_complete<T: Bus>(bus: &mut T) -> (v: bool)
    ensures
        v == old(bus).mos().context.complete,
        only_mos(old(bus), final(bus), old(bus).mos()),
{
    bus.get_mos().context.complete
}

pub fn get_super_instruction<T: Bus>(bus: &mut T) -> (v: bool)
    ensures
        v == old(bus).mos().context.super_instruction,
        only_mos(old(bus), final(bus), old(bus).mos()),
{
    bus.get_mos().context.super_instruction
}

pub fn set_decimal_enabled<T: Bus>(bus: &mut T, v: bool)
    ensures
        only_mos(
            old(bus),
            final(bus),
            with_context(old(bus).mos(), Context { decimal_enabled: v, ..old(bus).mos().context }),
        ),
{
    bus.fetch_mos().context.decimal_enabled = v;
}

pub fn set_complete<T: Bus>(bus: &mut T, v: bool)
    ensures
        only_mos(
            old(bus),
            final(bus),
            with_context(old(bus).mos(), Context { complete: v, ..old(bus).mos().context }),
        ),
{
    bus.fetch_mos().context.complete = v;
}

pub fn set_super_instruction<T: Bus>(bus: &mut T, v: bool)
    ensures
        only_mos(
            old(bus),
            final(bus),
            with_context(old(bus).mos(), Context { super_instruction: v, ..old(bus).mos().context }),
        ),
{
    bus.fetch_mos().context.super_instruction = v;
}

// Stack

/// Where the stack pointer `sp` points in the address space.
pub open spec fn stack_address(sp: u8) -> u16 {
    (0x0100 + sp) as u16
}

/// Stores a byte where the stack pointer points, then moves the pointer down by one.
pub fn write_to_stack<T: Bus>(bus: &mut T, byte: u8)
    requires
        old(bus).inv(),
    ensures
        final(bus).inv(),
        final(bus).frozen() == old(bus).frozen(),
        final(bus).trace() == old(bus).trace().push(
            Access::Write { address: stack_address(old(bus).mos().registers.sp), byte },
        ),
        final(bus).mos() == with_registers(
            old(bus).mos(),
            Registers {
                sp: old(bus).mos().registers.sp.wrapping_sub(1),
                ..old(bus).mos().registers
            },
        ),
{
    let sp = offset_sp(bus, -1);
    let address = 0x0100 + utils::join_bytes(0x00, sp);
    bus.write_byte(address, byte);
}

/// Moves the stack pointer up by one, then reads the byte that it points to.
pub fn read_from_stack<T: Bus>(bus: &mut T) -> (byte: u8)
    requires
        old(bus).inv(),
    ensures
        final(bus).inv(),
        final(bus).frozen() == old(bus).frozen(),
        final(bus).trace() == old(bus).trace().push(
            Access::Read { address: stack_address(old(bus).mos().registers.sp.wrapping_add(1)), byte },
        ),
        final(bus).mos() == with_registers(
            old(bus).mos(),
            Registers {
                sp: old(bus).mos().registers.sp.wrapping_add(1),
                ..old(bus).mos().registers
            },
        ),
{
    offset_sp(bus, 1);
    let sp = get_sp(bus);
    let address = 0x0100 + utils::join_bytes(0x00, sp);
    bus.read_byte(address)
}

} // verus!
