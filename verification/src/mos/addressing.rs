use vstd::prelude::*;

use crate::mos::primitive::{
    get_idx, get_idy, get_pc, get_super_instruction, offset_pc, update_cycles, with_registers,
};
use crate::mos::types::{only_mos, Access, AddrMode, Bus, Mos, Registers};
use crate::utils;
use crate::utils::word;

verus! {

/// Where an operand lies, and what finding it took.
pub struct Operand {
    pub address: u16,
    pub accesses: Seq<Access>,
    pub mos: Mos,
}

/// The byte that the access at place `i` of the trace `t` carried.
pub open spec fn seen(t: Seq<Access>, i: int) -> u8 {
    t[i].byte()
}

/// A read of `address` that got the byte found at place `i` of `t`.
pub open spec fn read_at(address: u16, t: Seq<Access>, i: int) -> Access {
    Access::Read { address, byte: seen(t, i) }
}

/// The low byte of a number.
pub open spec fn low(v: int) -> u8 {
    (v % 256) as u8
}

/// A processor whose program counter went `n` bytes on.
pub open spec fn advanced(mos: Mos, n: int) -> Mos {
    with_registers(mos, Registers { pc: at(mos.registers.pc, n), ..mos.registers })
}

/// The address `n` bytes after `pc`, in an address space that wraps.
pub open spec fn at(pc: u16, n: int) -> u16 {
    ((pc + n) % 0x10000) as u16
}

/// A processor that owes `n` more cycles.
pub open spec fn delayed(mos: Mos, n: int) -> Mos {
    Mos { cycles: ((mos.cycles + n) % 0x1_0000_0000_0000_0000) as u64, ..mos }
}

/// The operand of an indexed mode, once the accesses `head` have brought the base
/// address `hi:lo`. The sum with the index is first formed in the low byte alone. An
/// instruction that pays for page crossings reads from that half-made address only when
/// the page was crossed, and then owes a cycle; every other instruction reads from it
/// always. Place `k` of `t` holds what that read got.
pub open spec fn indexed(
    head: Seq<Access>,
    lo: u8,
    hi: u8,
    index: u8,
    mos: Mos,
    t: Seq<Access>,
    k: int,
) -> Operand {
    let crossed = lo + index > 255;
    let paying = mos.context.super_instruction;
    Operand {
        address: at(word(hi, lo) as u16, index as int),
        accesses: if crossed || !paying {
            head.push(read_at(word(hi, low(lo + index)) as u16, t, k))
        } else {
            head
        },
        mos: if crossed && paying {
            delayed(mos, 1)
        } else {
            mos
        },
    }
}

/// The target of a branch whose offset byte is the next of the program. A branch that
/// is taken, which the context's flag says, reads the byte after its own and owes a
/// cycle; where the target lies in another page than that byte, it also reads from the
/// target's low byte in the old page and owes one more.
pub open spec fn relative(mos: Mos, t: Seq<Access>, n: int) -> Operand {
    let p = mos.registers.pc;
    let next = at(p, 1);
    let target = at(next, crate::mos::alu::signed(seen(t, n)));
    let fetch = seq![read_at(p, t, n)];
    if !mos.context.super_instruction {
        Operand { address: target, accesses: fetch, mos: advanced(mos, 1) }
    } else if target / 256 == next / 256 {
        Operand {
            address: target,
            accesses: fetch.push(read_at(next, t, n + 1)),
            mos: delayed(advanced(mos, 1), 1),
        }
    } else {
        Operand {
            address: target,
            accesses: fetch.push(read_at(next, t, n + 1)).push(
                read_at(word((next / 256) as u8, (target % 256) as u8) as u16, t, n + 2),
            ),
            mos: delayed(advanced(mos, 1), 2),
        }
    }
}

/// Where the operand of an instruction lies and what the processor does to find it,
/// when the program counter stands behind the opcode. `t` is the trace in which these
/// accesses begin at place `n`: it supplies the bytes that the reads got.
///
/// The implied modes read the next byte of the program and leave it there.
#[verifier::opaque]
pub open spec fn operand(mode: AddrMode, mos: Mos, t: Seq<Access>, n: int) -> Operand {
    let r = mos.registers;
    let p = r.pc;
    match mode {
        AddrMode::Implicit | AddrMode::Accumulator => Operand {
            address: 0,
            accesses: seq![read_at(p, t, n)],
            mos,
        },
        AddrMode::Immediate => Operand { address: p, accesses: Seq::empty(), mos: advanced(mos, 1) },
        AddrMode::Zeropage => Operand {
            address: seen(t, n) as u16,
            accesses: seq![read_at(p, t, n)],
            mos: advanced(mos, 1),
        },
        AddrMode::ZeropageX => Operand {
            address: low(seen(t, n) + r.idx) as u16,
            accesses: seq![read_at(p, t, n), read_at(seen(t, n) as u16, t, n + 1)],
            mos: advanced(mos, 1),
        },
        AddrMode::ZeropageY => Operand {
            address: low(seen(t, n) + r.idy) as u16,
            accesses: seq![read_at(p, t, n), read_at(seen(t, n) as u16, t, n + 1)],
            mos: advanced(mos, 1),
        },
        AddrMode::Relative => relative(mos, t, n),
        AddrMode::Absolute => Operand {
            address: word(seen(t, n + 1), seen(t, n)) as u16,
            accesses: seq![read_at(p, t, n), read_at(at(p, 1), t, n + 1)],
            mos: advanced(mos, 2),
        },
        AddrMode::AbsoluteX => indexed(
            seq![read_at(p, t, n), read_at(at(p, 1), t, n + 1)],
            seen(t, n),
            seen(t, n + 1),
            r.idx,
            advanced(mos, 2),
            t,
            n + 2,
        ),
        AddrMode::AbsoluteY => indexed(
            seq![read_at(p, t, n), read_at(at(p, 1), t, n + 1)],
            seen(t, n),
            seen(t, n + 1),
            r.idy,
            advanced(mos, 2),
            t,
            n + 2,
        ),
        AddrMode::Indirect => Operand {
            address: word(seen(t, n + 3), seen(t, n + 2)) as u16,
            accesses: seq![
                read_at(p, t, n),
                read_at(at(p, 1), t, n + 1),
                read_at(word(seen(t, n + 1), seen(t, n)) as u16, t, n + 2),
                read_at(word(seen(t, n + 1), low(seen(t, n) + 1)) as u16, t, n + 3),
            ],
            mos: advanced(mos, 2),
        },
        AddrMode::IndirectX => Operand {
            address: word(seen(t, n + 3), seen(t, n + 2)) as u16,
            accesses: seq![
                read_at(p, t, n),
                read_at(seen(t, n) as u16, t, n + 1),
                read_at(low(seen(t, n) + r.idx) as u16, t, n + 2),
                read_at(low(seen(t, n) + r.idx + 1) as u16, t, n + 3),
            ],
            mos: advanced(mos, 1),
        },
        AddrMode::IndirectY => indexed(
            seq![
                read_at(p, t, n),
                read_at(seen(t, n) as u16, t, n + 1),
                read_at(low(seen(t, n) + 1) as u16, t, n + 2),
            ],
            seen(t, n + 1),
            seen(t, n + 2),
            r.idy,
            advanced(mos, 1),
            t,
            n + 3,
        ),
    }
}

/// `after` is `before` with the operand of `mode` found, at `address`.
pub open spec fn resolves<T: Bus>(before: &T, after: &T, mode: AddrMode, address: u16) -> bool {
    let o = operand(mode, before.mos(), after.trace(), before.trace().len() as int);
    &&& after.trace() =~= before.trace() + o.accesses
    &&& after.mos() == o.mos
    &&& address == o.address
    &&& after.frozen() == before.frozen()
    &&& after.inv()
}

/// Extending a trace behind the accesses that found an operand changes nothing about
/// the operand.
pub proof fn lemma_operand_extends(
    mode: AddrMode,
    mos: Mos,
    t1: Seq<Access>,
    t2: Seq<Access>,
    n: int,
)
    requires
        0 <= n,
        t1.len() <= t2.len(),
        forall|i: int| 0 <= i < t1.len() ==> t2[i] == t1[i],
        n + operand(mode, mos, t1, n).accesses.len() <= t1.len(),
    ensures
        operand(mode, mos, t2, n) == operand(mode, mos, t1, n),
{
    reveal(operand);
    let o1 = operand(mode, mos, t1, n);
    let o2 = operand(mode, mos, t2, n);
    match mode {
        AddrMode::Implicit | AddrMode::Accumulator | AddrMode::Zeropage => {
            assert(seen(t2, n) == seen(t1, n));
            assert(o2.accesses =~= o1.accesses);
        },
        AddrMode::Immediate => {
            assert(o2.accesses =~= o1.accesses);
        },
        AddrMode::ZeropageX | AddrMode::ZeropageY | AddrMode::Absolute => {
            assert(seen(t2, n) == seen(t1, n));
            assert(seen(t2, n + 1) == seen(t1, n + 1));
            assert(o2.accesses =~= o1.accesses);
        },
        AddrMode::Relative => {
            assert(seen(t2, n) == seen(t1, n));
            if mos.context.super_instruction {
                assert(seen(t2, n + 1) == seen(t1, n + 1));
                let next = at(mos.registers.pc, 1);
                let target = at(next, crate::mos::alu::signed(seen(t1, n)));
                if target / 256 != next / 256 {
                    assert(seen(t2, n + 2) == seen(t1, n + 2));
                }
            }
            assert(o2.accesses =~= o1.accesses);
        },
        AddrMode::AbsoluteX | AddrMode::AbsoluteY => {
            assert(seen(t2, n) == seen(t1, n));
            assert(seen(t2, n + 1) == seen(t1, n + 1));
            if o1.accesses.len() > 2 {
                assert(seen(t2, n + 2) == seen(t1, n + 2));
            }
            assert(o2.accesses =~= o1.accesses);
        },
        AddrMode::Indirect | AddrMode::IndirectX => {
            assert(seen(t2, n) == seen(t1, n));
            assert(seen(t2, n + 1) == seen(t1, n + 1));
            assert(seen(t2, n + 2) == seen(t1, n + 2));
            assert(seen(t2, n + 3) == seen(t1, n + 3));
            assert(o2.accesses =~= o1.accesses);
        },
        AddrMode::IndirectY => {
            assert(seen(t2, n) == seen(t1, n));
            assert(seen(t2, n + 1) == seen(t1, n + 1));
            assert(seen(t2, n + 2) == seen(t1, n + 2));
            if o1.accesses.len() > 3 {
                assert(seen(t2, n + 3) == seen(t1, n + 3));
            }
            assert(o2.accesses =~= o1.accesses);
        },
    }
}

/// What finding an operand costs: the accesses that it takes, and one cycle more
/// for each access that a page crossing or a branch adds.
pub proof fn lemma_operand_cost(mode: AddrMode, mos: Mos, t: Seq<Access>, n: int)
    ensures
        ({
            let o = operand(mode, mos, t, n);
            let paid = o.mos.cycles == delayed(mos, o.accesses.len() - plain_steps(mode, mos)).cycles;
            &&& plain_steps(mode, mos) <= o.accesses.len() <= plain_steps(mode, mos) + 2
            &&& paid
            &&& mode != AddrMode::Relative && !mos.context.super_instruction
                ==> o.accesses.len() == plain_steps(mode, mos)
        }),
{
    reveal(operand);
}

/// The accesses that finding an operand takes when nothing has to be paid for.
pub open spec fn plain_steps(mode: AddrMode, mos: Mos) -> int {
    match mode {
        AddrMode::Immediate => 0,
        AddrMode::Implicit | AddrMode::Accumulator | AddrMode::Zeropage | AddrMode::Relative => 1,
        AddrMode::ZeropageX | AddrMode::ZeropageY | AddrMode::Absolute => 2,
        AddrMode::AbsoluteX | AddrMode::AbsoluteY => if mos.context.super_instruction {
            2
        } else {
            3
        },
        AddrMode::IndirectY => if mos.context.super_instruction {
            3
        } else {
            4
        },
        AddrMode::Indirect | AddrMode::IndirectX => 4,
    }
}

pub fn fetch<T: Bus>(bus: &mut T) -> (opcode: u8)
    requires
        old(bus).inv(),
    ensures
        final(bus).inv(),
        final(bus).frozen() == old(bus).frozen(),
        final(bus).trace() == old(bus).trace().push(
            Access::Read { address: old(bus).mos().registers.pc, byte: opcode },
        ),
        final(bus).mos() == advanced(old(bus).mos(), 1),
{
    let pc = offset_pc(bus, 1);
    bus.read_byte(pc)
}

// Addressing Modes

pub fn get_address<T: Bus>(bus: &mut T, address_mode: AddrMode) -> (address: u16)
    requires
        old(bus).inv(),
    ensures
        resolves(old(bus), final(bus), address_mode, address),
{
    match address_mode {
        AddrMode::Immediate => ga_immediate(bus),
        AddrMode::Zeropage => ga_zeropage(bus),
        AddrMode::ZeropageX => ga_zeropage_x(bus),
        AddrMode::ZeropageY => ga_zeropage_y(bus),
        AddrMode::Relative => ga_relative(bus),
        AddrMode::Absolute => ga_absolute(bus),
        AddrMode::AbsoluteX => ga_absolute_x(bus),
        AddrMode::AbsoluteY => ga_absolute_y(bus),
        AddrMode::Indirect => ga_indirect(bus),
        AddrMode::IndirectX => ga_indirect_x(bus),
        AddrMode::IndirectY => ga_indirect_y(bus),
        AddrMode::Implicit | AddrMode::Accumulator => ga_implied(bus),
    }
}

fn handle_super_addressing<T: Bus>(bus: &mut T)
    ensures
        only_mos(
            old(bus),
            final(bus),
            if old(bus).mos().context.super_instruction {
                delayed(old(bus).mos(), 1)
            } else {
                old(bus).mos()
            },
        ),
{
    let super_instruction = get_super_instruction(bus);
    if super_instruction {
        update_cycles(bus, 1);
    }
}

/// Adds the index to the base address `msb:lsb` as the processor does, low byte first.
fn ga_indexed<T: Bus>(bus: &mut T, lsb: u8, msb: u8, index: u8) -> (address: u16)
    requires
        old(bus).inv(),
    ensures
        ({
            let o = indexed(
                Seq::empty(),
                lsb,
                msb,
                index,
                old(bus).mos(),
                final(bus).trace(),
                old(bus).trace().len() as int,
            );
            &&& final(bus).trace() =~= old(bus).trace() + o.accesses
            &&& final(bus).mos() == o.mos
            &&& address == o.address
        }),
        final(bus).frozen() == old(bus).frozen(),
        final(bus).inv(),
{
    let (address, page_cross) = utils::page_cross_sum(
        utils::join_bytes(msb, lsb),
        utils::join_bytes(0x00, index),
    );
    let paying = get_super_instruction(bus);
    if page_cross || !paying {
        bus.read_byte(utils::join_bytes(msb, lsb.wrapping_add(index)));
    }
    if page_cross {
        handle_super_addressing(bus);
    }
    address
}

fn ga_implied<T: Bus>(bus: &mut T) -> (address: u16)
    requires
        old(bus).inv(),
    ensures
        resolves(old(bus), final(bus), AddrMode::Implicit, address),
        resolves(old(bus), final(bus), AddrMode::Accumulator, address),
{
    proof {
        reveal(operand);
    }
    let pc = get_pc(bus);
    bus.read_byte(pc);
    0
}

fn ga_immediate<T: Bus>(bus: &mut T) -> (address: u16)
    requires
        old(bus).inv(),
    ensures
        resolves(old(bus), final(bus), AddrMode::Immediate, address),
{
    proof {
        reveal(operand);
    }
    offset_pc(bus, 1)
}

fn ga_zeropage<T: Bus>(bus: &mut T) -> (address: u16)
    requires
        old(bus).inv(),
    ensures
        resolves(old(bus), final(bus), AddrMode::Zeropage, address),
{
    proof {
        reveal(operand);
    }
    let lsb_address = offset_pc(bus, 1);
    let lsb = bus.read_byte(lsb_address);
    utils::join_bytes(0x00, lsb)
}

fn ga_zeropage_x<T: Bus>(bus: &mut T) -> (address: u16)
    requires
        old(bus).inv(),
    ensures
        resolves(old(bus), final(bus), AddrMode::ZeropageX, address),
{
    proof {
        reveal(operand);
    }
    let lsb_address = offset_pc(bus, 1);
    let x = get_idx(bus);
    let lsb = bus.read_byte(lsb_address);
    bus.read_byte(utils::join_bytes(0x00, lsb));
    utils::join_bytes(0x00, lsb.wrapping_add(x))
}

fn ga_zeropage_y<T: Bus>(bus: &mut T) -> (address: u16)
    requires
        old(bus).inv(),
    ensures
        resolves(old(bus), final(bus), AddrMode::ZeropageY, address),
{
    proof {
        reveal(operand);
    }
    let lsb_address = offset_pc(bus, 1);
    let y = get_idy(bus);
    let lsb = bus.read_byte(lsb_address);
    bus.read_byte(utils::join_bytes(0x00, lsb));
    utils::join_bytes(0x00, lsb.wrapping_add(y))
}

/// Where a branch at offset `offset` from `next` leads, and whether that is in
/// another page than `next`.
fn branch_target(next: u16, offset: u8) -> (r: (u16, bool))
    ensures
        r.0 == at(next, crate::mos::alu::signed(offset)),
        r.1 == (r.0 / 256 != next / 256),
{
    let relative_offset: u16 = if offset >= 128 {
        0xFF00 + offset as u16
    } else {
        offset as u16
    };
    utils::page_cross_sum(next, relative_offset)
}

/// The address in the page of `next` that has the low byte of `target`.
fn same_page(next: u16, target: u16) -> (r: u16)
    ensures
        r == word((next / 256) as u8, (target % 256) as u8),
{
    let (msb, _) = utils::split_bytes(next);
    let (_, lsb) = utils::split_bytes(target);
    utils::join_bytes(msb, lsb)
}

fn ga_relative<T: Bus>(bus: &mut T) -> (address: u16)
    requires
        old(bus).inv(),
    ensures
        resolves(old(bus), final(bus), AddrMode::Relative, address),
{
    proof {
        reveal(operand);
    }
    let pc = offset_pc(bus, 1);
    let offset = bus.read_byte(pc);
    let next = get_pc(bus);
    let (address, page_cross) = branch_target(next, offset);
    let jump = get_super_instruction(bus);
    if jump {
        if page_cross {
            update_cycles(bus, 2);
            bus.read_byte(next);
            bus.read_byte(same_page(next, address));
        } else {
            update_cycles(bus, 1);
            bus.read_byte(next);
        }
    }
    address
}

fn ga_absolute<T: Bus>(bus: &mut T) -> (address: u16)
    requires
        old(bus).inv(),
    ensures
        resolves(old(bus), final(bus), AddrMode::Absolute, address),
{
    proof {
        reveal(operand);
    }
    let lsb_address = offset_pc(bus, 1);
    let msb_address = offset_pc(bus, 1);
    let lsb = bus.read_byte(lsb_address);
    let msb = bus.read_byte(msb_address);
    utils::join_bytes(msb, lsb)
}

fn ga_absolute_x<T: Bus>(bus: &mut T) -> (address: u16)
    requires
        old(bus).inv(),
    ensures
        resolves(old(bus), final(bus), AddrMode::AbsoluteX, address),
{
    proof {
        reveal(operand);
    }
    let lsb_address = offset_pc(bus, 1);
    let msb_address = offset_pc(bus, 1);
    let lsb = bus.read_byte(lsb_address);
    let msb = bus.read_byte(msb_address);
    let x = get_idx(bus);
    ga_indexed(bus, lsb, msb, x)
}

fn ga_absolute_y<T: Bus>(bus: &mut T) -> (address: u16)
    requires
        old(bus).inv(),
    ensures
        resolves(old(bus), final(bus), AddrMode::AbsoluteY, address),
{
    proof {
        reveal(operand);
    }
    let lsb_address = offset_pc(bus, 1);
    let msb_address = offset_pc(bus, 1);
    let lsb = bus.read_byte(lsb_address);
    let msb = bus.read_byte(msb_address);
    let y = get_idy(bus);
    ga_indexed(bus, lsb, msb, y)
}

fn ga_indirect<T: Bus>(bus: &mut T) -> (address: u16)
    requires
        old(bus).inv(),
    ensures
        resolves(old(bus), final(bus), AddrMode::Indirect, address),
{
    proof {
        reveal(operand);
    }
    let lsb1_address = offset_pc(bus, 1);
    let msb1_address = offset_pc(bus, 1);
    let lsb1 = bus.read_byte(lsb1_address);
    let msb1 = bus.read_byte(msb1_address);
    let lsb_address = utils::join_bytes(msb1, lsb1);
    let msb_address = utils::join_bytes(msb1, lsb1.wrapping_add(1));
    let lsb = bus.read_byte(lsb_address);
    let msb = bus.read_byte(msb_address);
    utils::join_bytes(msb, lsb)
}

fn ga_indirect_x<T: Bus>(bus: &mut T) -> (address: u16)
    requires
        old(bus).inv(),
    ensures
        resolves(old(bus), final(bus), AddrMode::IndirectX, address),
{
    proof {
        reveal(operand);
    }
    let table_start_address = offset_pc(bus, 1);
    let table_start = bus.read_byte(table_start_address);
    bus.read_byte(utils::join_bytes(0x00, table_start));
    let table_offset = get_idx(bus);
    let table_address = table_start.wrapping_add(table_offset);
    let lsb_address = utils::join_bytes(0x00, table_address);
    let msb_address = utils::join_bytes(0x00, table_address.wrapping_add(1));
    let lsb = bus.read_byte(lsb_address);
    let msb = bus.read_byte(msb_address);
    utils::join_bytes(msb, lsb)
}

#[verifier::rlimit(40)]
fn ga_indirect_y<T: Bus>(bus: &mut T) -> (address: u16)
    requires
        old(bus).inv(),
    ensures
        resolves(old(bus), final(bus), AddrMode::IndirectY, address),
{
    proof {
        reveal(operand);
    }
    let table_lsb_address = offset_pc(bus, 1);
    let table_lsb = bus.read_byte(table_lsb_address);
    let base_lsb = bus.read_byte(utils::join_bytes(0x00, table_lsb));
    let base_msb = bus.read_byte(utils::join_bytes(0x00, table_lsb.wrapping_add(1)));
    let y = get_idy(bus);
    ga_indexed(bus, base_lsb, base_msb, y)
}

} // verus!
