use vstd::prelude::*;

use crate::mos::addressing::{
    at, delayed, get_address, lemma_operand_cost, lemma_operand_extends, low, operand,
    plain_steps, read_at, seen, Operand,
};
use crate::mos::alu::{
    add_with_carry, bit_test, compare, comparison, difference, nz, pulled_status, pushed_status,
    shift, shifted_status, shifted_value, status_from_pull, status_to_push, subtract_with_carry,
    sum, test_bits, with_nz, Shift,
};
use crate::mos::primitive::{
    flag_of, get_acc, get_pc, get_ps, get_sp, read_from_stack, set_acc, set_pc, set_pc_if,
    set_ps, set_super_instruction, stack_address, with_context, with_flag, with_registers,
    write_to_stack,
};
use crate::mos::types::{Access, AddrMode, Bus, Context, Flag, Mos, Registers};
use crate::utils;
use crate::utils::word;

verus! {

/// What an instruction does, apart from where its operand lies.
#[derive(Copy, Clone, Debug, PartialEq, Eq, Structural)]
pub enum Operation {
    Adc,
    And,
    Asl,
    Bcc,
    Bcs,
    Beq,
    Bit,
    Bmi,
    Bne,
    Bpl,
    Brk,
    Bvc,
    Bvs,
    Clc,
    Cld,
    Cli,
    Clv,
    Cmp,
    Cpx,
    Cpy,
    Dec,
    Dex,
    Dey,
    Eor,
    Inc,
    Inx,
    Iny,
    Jmp,
    Jsr,
    Lda,
    Ldx,
    Ldy,
    Lsr,
    Nop,
    Ora,
    Pha,
    Php,
    Pla,
    Plp,
    Rol,
    Ror,
    Rti,
    Rts,
    Sbc,
    Sec,
    Sed,
    Sei,
    Sta,
    Stx,
    Sty,
    Tax,
    Tay,
    Tsx,
    Txa,
    Txs,
    Tya,
    Undefined,
}

/// What some accesses and some work inside the processor come to.
pub struct Outcome {
    pub accesses: Seq<Access>,
    pub mos: Mos,
}

/// The registers after an instruction that reads its operand `v` and changes nothing
/// in memory.
pub open spec fn computed(operation: Operation, mos: Mos, v: u8) -> Registers {
    let r = mos.registers;
    match operation {
        Operation::Lda => Registers { acc: v, ps: with_nz(r.ps, v), ..r },
        Operation::Ldx => Registers { idx: v, ps: with_nz(r.ps, v), ..r },
        Operation::Ldy => Registers { idy: v, ps: with_nz(r.ps, v), ..r },
        Operation::And => Registers { acc: r.acc & v, ps: with_nz(r.ps, r.acc & v), ..r },
        Operation::Ora => Registers { acc: r.acc | v, ps: with_nz(r.ps, r.acc | v), ..r },
        Operation::Eor => Registers { acc: r.acc ^ v, ps: with_nz(r.ps, r.acc ^ v), ..r },
        Operation::Adc => Registers {
            acc: sum(r.acc, v, r.ps, mos.context.decimal_enabled).0,
            ps: sum(r.acc, v, r.ps, mos.context.decimal_enabled).1,
            ..r
        },
        Operation::Sbc => Registers {
            acc: difference(r.acc, v, r.ps, mos.context.decimal_enabled).0,
            ps: difference(r.acc, v, r.ps, mos.context.decimal_enabled).1,
            ..r
        },
        Operation::Cmp => Registers { ps: comparison(r.acc, v, r.ps), ..r },
        Operation::Cpx => Registers { ps: comparison(r.idx, v, r.ps), ..r },
        Operation::Cpy => Registers { ps: comparison(r.idy, v, r.ps), ..r },
        Operation::Bit => Registers { ps: bit_test(r.acc, v, r.ps), ..r },
        _ => r,
    }
}

/// The byte that a store puts into memory.
pub open spec fn stored(operation: Operation, r: Registers) -> u8 {
    match operation {
        Operation::Stx => r.idx,
        Operation::Sty => r.idy,
        _ => r.acc,
    }
}

/// The byte that an instruction which rewrites its operand makes of `v`, and the status
/// byte that it leaves.
pub open spec fn rewritten(operation: Operation, v: u8, ps: u8) -> (u8, u8) {
    match operation {
        Operation::Asl => (shifted_value(Shift::Asl, v, ps), shifted_status(Shift::Asl, v, ps)),
        Operation::Lsr => (shifted_value(Shift::Lsr, v, ps), shifted_status(Shift::Lsr, v, ps)),
        Operation::Rol => (shifted_value(Shift::Rol, v, ps), shifted_status(Shift::Rol, v, ps)),
        Operation::Ror => (shifted_value(Shift::Ror, v, ps), shifted_status(Shift::Ror, v, ps)),
        Operation::Inc => (v.wrapping_add(1), with_nz(ps, v.wrapping_add(1))),
        Operation::Dec => (v.wrapping_sub(1), with_nz(ps, v.wrapping_sub(1))),
        _ => (v, ps),
    }
}

/// The registers after an instruction that works inside the processor alone.
pub open spec fn internal(operation: Operation, r: Registers) -> Registers {
    match operation {
        Operation::Clc => Registers { ps: with_flag(r.ps, Flag::Carry, false), ..r },
        Operation::Sec => Registers { ps: with_flag(r.ps, Flag::Carry, true), ..r },
        Operation::Cli => Registers { ps: with_flag(r.ps, Flag::InterruptDisable, false), ..r },
        Operation::Sei => Registers { ps: with_flag(r.ps, Flag::InterruptDisable, true), ..r },
        Operation::Cld => Registers { ps: with_flag(r.ps, Flag::DecimalMode, false), ..r },
        Operation::Sed => Registers { ps: with_flag(r.ps, Flag::DecimalMode, true), ..r },
        Operation::Clv => Registers { ps: with_flag(r.ps, Flag::Overflow, false), ..r },
        Operation::Inx => Registers { idx: r.idx.wrapping_add(1), ps: with_nz(r.ps, r.idx.wrapping_add(1)), ..r },
        Operation::Iny => Registers { idy: r.idy.wrapping_add(1), ps: with_nz(r.ps, r.idy.wrapping_add(1)), ..r },
        Operation::Dex => Registers { idx: r.idx.wrapping_sub(1), ps: with_nz(r.ps, r.idx.wrapping_sub(1)), ..r },
        Operation::Dey => Registers { idy: r.idy.wrapping_sub(1), ps: with_nz(r.ps, r.idy.wrapping_sub(1)), ..r },
        Operation::Tax => Registers { idx: r.acc, ps: with_nz(r.ps, r.acc), ..r },
        Operation::Tay => Registers { idy: r.acc, ps: with_nz(r.ps, r.acc), ..r },
        Operation::Txa => Registers { acc: r.idx, ps: with_nz(r.ps, r.idx), ..r },
        Operation::Tya => Registers { acc: r.idy, ps: with_nz(r.ps, r.idy), ..r },
        Operation::Tsx => Registers { idx: r.sp, ps: with_nz(r.ps, r.sp), ..r },
        Operation::Txs => Registers { sp: r.idx, ..r },
        _ => r,
    }
}

/// Whether a branch is taken under the status byte `ps`.
pub open spec fn taken(operation: Operation, ps: u8) -> bool {
    match operation {
        Operation::Bcc => !flag_of(ps, Flag::Carry),
        Operation::Bcs => flag_of(ps, Flag::Carry),
        Operation::Bne => !flag_of(ps, Flag::Zero),
        Operation::Beq => flag_of(ps, Flag::Zero),
        Operation::Bpl => !flag_of(ps, Flag::Negative),
        Operation::Bmi => flag_of(ps, Flag::Negative),
        Operation::Bvc => !flag_of(ps, Flag::Overflow),
        Operation::Bvs => flag_of(ps, Flag::Overflow),
        _ => false,
    }
}

/// The operation reads its operand and changes registers alone.
pub open spec fn reads(operation: Operation) -> bool {
    operation == Operation::Lda || operation == Operation::Ldx || operation == Operation::Ldy
        || operation == Operation::And || operation == Operation::Ora || operation
        == Operation::Eor || operation == Operation::Adc || operation == Operation::Sbc
        || operation == Operation::Cmp || operation == Operation::Cpx || operation
        == Operation::Cpy || operation == Operation::Bit
}

/// The operation stores a register.
pub open spec fn stores(operation: Operation) -> bool {
    operation == Operation::Sta || operation == Operation::Stx || operation == Operation::Sty
}

/// The operation reads its operand and writes it back changed.
pub open spec fn rewrites(operation: Operation) -> bool {
    operation == Operation::Asl || operation == Operation::Lsr || operation == Operation::Rol
        || operation == Operation::Ror || operation == Operation::Inc || operation
        == Operation::Dec
}

/// The operation is a branch.
pub open spec fn branches(operation: Operation) -> bool {
    operation == Operation::Bcc || operation == Operation::Bcs || operation == Operation::Beq
        || operation == Operation::Bmi || operation == Operation::Bne || operation
        == Operation::Bpl || operation == Operation::Bvc || operation == Operation::Bvs
}

/// The operation touches nothing but registers and has no operand.
pub open spec fn stays_inside(operation: Operation) -> bool {
    operation == Operation::Clc || operation == Operation::Sec || operation == Operation::Cli
        || operation == Operation::Sei || operation == Operation::Cld || operation
        == Operation::Sed || operation == Operation::Clv || operation == Operation::Inx
        || operation == Operation::Iny || operation == Operation::Dex || operation
        == Operation::Dey || operation == Operation::Tax || operation == Operation::Tay
        || operation == Operation::Txa || operation == Operation::Tya || operation
        == Operation::Tsx || operation == Operation::Txs || operation == Operation::Nop
}

/// A processor with its stack pointer moved by `n`.
pub open spec fn with_sp(mos: Mos, n: int) -> Mos {
    with_registers(mos, Registers { sp: low(mos.registers.sp + n), ..mos.registers })
}

/// The place in the stack page that lies `n` above where `sp` points.
pub open spec fn stack_at(sp: u8, n: int) -> u16 {
    stack_address(low(sp + n))
}

/// LDA, LDX, LDY, AND, ORA, EOR, ADC, SBC, CMP, CPX, CPY, BIT: the operand is found and
/// read, and the registers take what the operation computes from it.
pub open spec fn loaded(
    operation: Operation,
    mode: AddrMode,
    mos: Mos,
    t: Seq<Access>,
    n: int,
) -> Outcome {
    let o = operand(mode, mos, t, n);
    let k = n + o.accesses.len();
    Outcome {
        accesses: o.accesses.push(read_at(o.address, t, k)),
        mos: with_registers(o.mos, computed(operation, o.mos, seen(t, k))),
    }
}

/// STA, STX, STY: the operand is found and the register written to it.
pub open spec fn kept(
    operation: Operation,
    mode: AddrMode,
    mos: Mos,
    t: Seq<Access>,
    n: int,
) -> Outcome {
    let o = operand(mode, mos, t, n);
    Outcome {
        accesses: o.accesses.push(
            Access::Write { address: o.address, byte: stored(operation, o.mos.registers) },
        ),
        mos: o.mos,
    }
}

/// ASL, LSR, ROL, ROR, INC, DEC: on the accumulator the work is done inside the
/// processor. On memory the operand is read, written back as it was, and written again
/// as the operation leaves it.
pub open spec fn changed(
    operation: Operation,
    mode: AddrMode,
    mos: Mos,
    t: Seq<Access>,
    n: int,
) -> Outcome {
    let o = operand(mode, mos, t, n);
    let k = n + o.accesses.len();
    let r = o.mos.registers;
    if mode == AddrMode::Accumulator {
        Outcome {
            accesses: o.accesses,
            mos: with_registers(
                o.mos,
                Registers {
                    acc: rewritten(operation, r.acc, r.ps).0,
                    ps: rewritten(operation, r.acc, r.ps).1,
                    ..r
                },
            ),
        }
    } else {
        Outcome {
            accesses: o.accesses.push(read_at(o.address, t, k)).push(
                Access::Write { address: o.address, byte: seen(t, k) },
            ).push(
                Access::Write { address: o.address, byte: rewritten(operation, seen(t, k), r.ps).0 },
            ),
            mos: with_registers(o.mos, Registers { ps: rewritten(operation, seen(t, k), r.ps).1, ..r }),
        }
    }
}

/// The branches: the offset is read in any case, and the program counter moves to the
/// target where the condition holds.
pub open spec fn branched(
    operation: Operation,
    mode: AddrMode,
    mos: Mos,
    t: Seq<Access>,
    n: int,
) -> Outcome {
    let jump = taken(operation, mos.registers.ps);
    let o = operand(mode, with_context(mos, Context { super_instruction: jump, ..mos.context }), t, n);
    Outcome {
        accesses: o.accesses,
        mos: if jump {
            with_registers(o.mos, Registers { pc: o.address, ..o.mos.registers })
        } else {
            o.mos
        },
    }
}

/// The instructions without an operand that work on registers alone.
pub open spec fn inside(operation: Operation, mos: Mos, t: Seq<Access>, n: int) -> Outcome {
    let o = operand(AddrMode::Implicit, mos, t, n);
    Outcome { accesses: o.accesses, mos: with_registers(o.mos, internal(operation, o.mos.registers)) }
}

/// JMP: the program counter takes the operand's address.
pub open spec fn jumped(mode: AddrMode, mos: Mos, t: Seq<Access>, n: int) -> Outcome {
    let o = operand(mode, mos, t, n);
    Outcome { accesses: o.accesses, mos: with_registers(o.mos, Registers { pc: o.address, ..o.mos.registers }) }
}

/// JSR: once the target is read in full, the address of the instruction's last byte
/// goes to the stack, high byte first, after a read of the stack's top.
pub open spec fn called(mode: AddrMode, mos: Mos, t: Seq<Access>, n: int) -> Outcome {
    let o = operand(mode, mos, t, n);
    let k = n + o.accesses.len();
    let r = o.mos.registers;
    Outcome {
        accesses: o.accesses.push(read_at(stack_at(r.sp, 0), t, k)).push(
            Access::Write { address: stack_at(r.sp, 0), byte: (at(r.pc, -1) / 256) as u8 },
        ).push(Access::Write { address: stack_at(r.sp, -1), byte: (at(r.pc, -1) % 256) as u8 }),
        mos: with_sp(with_registers(o.mos, Registers { pc: o.address, ..r }), -2),
    }
}

/// RTS: the address on the stack is pulled, low byte first, and the program goes on
/// at the byte behind it.
pub open spec fn returned(mos: Mos, t: Seq<Access>, n: int) -> Outcome {
    let o = operand(AddrMode::Implicit, mos, t, n);
    let k = n + 1;
    let r = o.mos.registers;
    let target = word(seen(t, k + 2), seen(t, k + 1)) as u16;
    Outcome {
        accesses: o.accesses.push(read_at(stack_at(r.sp, 0), t, k)).push(
            read_at(stack_at(r.sp, 1), t, k + 1),
        ).push(read_at(stack_at(r.sp, 2), t, k + 2)).push(read_at(target, t, k + 3)),
        mos: with_sp(with_registers(o.mos, Registers { pc: at(target, 1), ..r }), 2),
    }
}

/// RTI: the status byte is pulled, then the program counter, low byte first.
pub open spec fn resumed(mos: Mos, t: Seq<Access>, n: int) -> Outcome {
    let o = operand(AddrMode::Implicit, mos, t, n);
    let k = n + 1;
    let r = o.mos.registers;
    Outcome {
        accesses: o.accesses.push(read_at(stack_at(r.sp, 0), t, k)).push(
            read_at(stack_at(r.sp, 1), t, k + 1),
        ).push(read_at(stack_at(r.sp, 2), t, k + 2)).push(read_at(stack_at(r.sp, 3), t, k + 3)),
        mos: with_sp(
            with_registers(
                o.mos,
                Registers {
                    pc: word(seen(t, k + 3), seen(t, k + 2)) as u16,
                    ps: pulled_status(seen(t, k + 1)),
                    ..r
                },
            ),
            3,
        ),
    }
}

/// BRK: the address of the byte after the one behind the opcode goes to the stack,
/// then the status byte with bits 4 and 5 set; interrupts are disabled and the program
/// goes on where the vector at 0xFFFE points.
pub open spec fn broke(mos: Mos, t: Seq<Access>, n: int) -> Outcome {
    let o = operand(AddrMode::Implicit, mos, t, n);
    let k = n + 1;
    let r = o.mos.registers;
    Outcome {
        accesses: o.accesses.push(
            Access::Write { address: stack_at(r.sp, 0), byte: (at(r.pc, 1) / 256) as u8 },
        ).push(Access::Write { address: stack_at(r.sp, -1), byte: (at(r.pc, 1) % 256) as u8 }).push(
            Access::Write { address: stack_at(r.sp, -2), byte: pushed_status(r.ps, true) },
        ).push(read_at(0xFFFE, t, k + 3)).push(read_at(0xFFFF, t, k + 4)),
        mos: with_sp(
            with_registers(
                o.mos,
                Registers {
                    pc: word(seen(t, k + 4), seen(t, k + 3)) as u16,
                    ps: with_flag(r.ps, Flag::InterruptDisable, true),
                    ..r
                },
            ),
            -3,
        ),
    }
}

/// PHA and PHP: one byte goes to the stack, the status byte with bits 4 and 5 set.
pub open spec fn pushed(operation: Operation, mos: Mos, t: Seq<Access>, n: int) -> Outcome {
    let o = operand(AddrMode::Implicit, mos, t, n);
    let r = o.mos.registers;
    Outcome {
        accesses: o.accesses.push(
            Access::Write {
                address: stack_at(r.sp, 0),
                byte: if operation == Operation::Php {
                    pushed_status(r.ps, true)
                } else {
                    r.acc
                },
            },
        ),
        mos: with_sp(o.mos, -1),
    }
}

/// PLA and PLP: after a read of the stack's top, one byte comes from above it.
pub open spec fn pulled(operation: Operation, mos: Mos, t: Seq<Access>, n: int) -> Outcome {
    let o = operand(AddrMode::Implicit, mos, t, n);
    let k = n + 1;
    let r = o.mos.registers;
    let v = seen(t, k + 1);
    Outcome {
        accesses: o.accesses.push(read_at(stack_at(r.sp, 0), t, k)).push(read_at(stack_at(r.sp, 1), t, k + 1)),
        mos: with_sp(
            with_registers(
                o.mos,
                if operation == Operation::Plp {
                    Registers { ps: pulled_status(v), ..r }
                } else {
                    Registers { acc: v, ps: with_nz(r.ps, v), ..r }
                },
            ),
            1,
        ),
    }
}

/// What an instruction does once its opcode is read and its cycles are booked: the
/// accesses that it makes, in order, and the processor that it leaves. `t` is the trace
/// in which these accesses begin at place `n`.
#[verifier::opaque]
pub open spec fn effect(
    operation: Operation,
    mode: AddrMode,
    mos: Mos,
    t: Seq<Access>,
    n: int,
) -> Outcome {
    if reads(operation) {
        loaded(operation, mode, mos, t, n)
    } else if stores(operation) {
        kept(operation, mode, mos, t, n)
    } else if rewrites(operation) {
        changed(operation, mode, mos, t, n)
    } else if branches(operation) {
        branched(operation, mode, mos, t, n)
    } else if stays_inside(operation) {
        inside(operation, mos, t, n)
    } else {
        match operation {
            Operation::Jmp => jumped(mode, mos, t, n),
            Operation::Jsr => called(mode, mos, t, n),
            Operation::Rts => returned(mos, t, n),
            Operation::Rti => resumed(mos, t, n),
            Operation::Brk => broke(mos, t, n),
            Operation::Pha | Operation::Php => pushed(operation, mos, t, n),
            Operation::Pla | Operation::Plp => pulled(operation, mos, t, n),
            _ => Outcome { accesses: Seq::empty(), mos },
        }
    }
}

/// The addressing modes that an operation has an opcode for. To run an operation in
/// another mode is a mistake of the caller.
pub open spec fn admits(operation: Operation, mode: AddrMode) -> bool {
    match operation {
        Operation::Adc | Operation::And | Operation::Cmp | Operation::Eor | Operation::Lda
        | Operation::Ora | Operation::Sbc => mode == AddrMode::Immediate || mode
            == AddrMode::Zeropage || mode == AddrMode::ZeropageX || mode == AddrMode::Absolute
            || mode == AddrMode::AbsoluteX || mode == AddrMode::AbsoluteY || mode
            == AddrMode::IndirectX || mode == AddrMode::IndirectY,
        Operation::Sta => mode == AddrMode::Zeropage || mode == AddrMode::ZeropageX || mode
            == AddrMode::Absolute || mode == AddrMode::AbsoluteX || mode == AddrMode::AbsoluteY
            || mode == AddrMode::IndirectX || mode == AddrMode::IndirectY,
        Operation::Asl | Operation::Lsr | Operation::Rol | Operation::Ror => mode
            == AddrMode::Accumulator || mode == AddrMode::Zeropage || mode == AddrMode::ZeropageX
            || mode == AddrMode::Absolute || mode == AddrMode::AbsoluteX,
        Operation::Inc | Operation::Dec => mode == AddrMode::Zeropage || mode
            == AddrMode::ZeropageX || mode == AddrMode::Absolute || mode == AddrMode::AbsoluteX,
        Operation::Bit => mode == AddrMode::Zeropage || mode == AddrMode::Absolute,
        Operation::Cpx | Operation::Cpy => mode == AddrMode::Immediate || mode
            == AddrMode::Zeropage || mode == AddrMode::Absolute,
        Operation::Ldx => mode == AddrMode::Immediate || mode == AddrMode::Zeropage || mode
            == AddrMode::ZeropageY || mode == AddrMode::Absolute || mode == AddrMode::AbsoluteY,
        Operation::Ldy => mode == AddrMode::Immediate || mode == AddrMode::Zeropage || mode
            == AddrMode::ZeropageX || mode == AddrMode::Absolute || mode == AddrMode::AbsoluteX,
        Operation::Stx => mode == AddrMode::Zeropage || mode == AddrMode::ZeropageY || mode
            == AddrMode::Absolute,
        Operation::Sty => mode == AddrMode::Zeropage || mode == AddrMode::ZeropageX || mode
            == AddrMode::Absolute,
        Operation::Jmp => mode == AddrMode::Absolute || mode == AddrMode::Indirect,
        Operation::Jsr => mode == AddrMode::Absolute,
        Operation::Bcc | Operation::Bcs | Operation::Beq | Operation::Bmi | Operation::Bne
        | Operation::Bpl | Operation::Bvc | Operation::Bvs => mode == AddrMode::Relative,
        _ => mode == AddrMode::Implicit,
    }
}

/// `after` is what `operation` in `mode` makes of `before` when it starts from the
/// processor state `start`: the trace has grown by the accesses of the instruction and
/// by nothing else, the processor is as the instruction leaves it, and the rest of the
/// bus is as it was.
#[verifier::opaque]
pub open spec fn performs<T: Bus>(
    before: &T,
    after: &T,
    start: Mos,
    operation: Operation,
    mode: AddrMode,
) -> bool {
    yields(before, after, effect(operation, mode, start, after.trace(), before.trace().len() as int))
}

/// `after` is `before` with the accesses of `o` behind its trace and the processor of
/// `o` in place of its own.
pub open spec fn yields<T: Bus>(before: &T, after: &T, o: Outcome) -> bool {
    &&& after.trace() =~= before.trace() + o.accesses
    &&& after.mos() == o.mos
    &&& after.frozen() == before.frozen()
    &&& after.inv()
}

// What the operations compute, on plain values

fn compute(operation: Operation, mos: Mos, v: u8) -> (r: Registers)
    ensures
        r == computed(operation, mos, v),
{
    let r = mos.registers;
    match operation {
        Operation::Lda => Registers { acc: v, ps: nz(r.ps, v), ..r },
        Operation::Ldx => Registers { idx: v, ps: nz(r.ps, v), ..r },
        Operation::Ldy => Registers { idy: v, ps: nz(r.ps, v), ..r },
        Operation::And => Registers { acc: r.acc & v, ps: nz(r.ps, r.acc & v), ..r },
        Operation::Ora => Registers { acc: r.acc | v, ps: nz(r.ps, r.acc | v), ..r },
        Operation::Eor => Registers { acc: r.acc ^ v, ps: nz(r.ps, r.acc ^ v), ..r },
        Operation::Adc => {
            let s = add_with_carry(r.acc, v, r.ps, mos.context.decimal_enabled);
            Registers { acc: s.0, ps: s.1, ..r }
        },
        Operation::Sbc => {
            let s = subtract_with_carry(r.acc, v, r.ps, mos.context.decimal_enabled);
            Registers { acc: s.0, ps: s.1, ..r }
        },
        Operation::Cmp => Registers { ps: compare(r.acc, v, r.ps), ..r },
        Operation::Cpx => Registers { ps: compare(r.idx, v, r.ps), ..r },
        Operation::Cpy => Registers { ps: compare(r.idy, v, r.ps), ..r },
        Operation::Bit => Registers { ps: test_bits(r.acc, v, r.ps), ..r },
        _ => r,
    }
}

fn rewrite(operation: Operation, v: u8, ps: u8) -> (r: (u8, u8))
    ensures
        r == rewritten(operation, v, ps),
{
    match operation {
        Operation::Asl => shift(Shift::Asl, v, ps),
        Operation::Lsr => shift(Shift::Lsr, v, ps),
        Operation::Rol => shift(Shift::Rol, v, ps),
        Operation::Ror => shift(Shift::Ror, v, ps),
        Operation::Inc => (v.wrapping_add(1), nz(ps, v.wrapping_add(1))),
        Operation::Dec => (v.wrapping_sub(1), nz(ps, v.wrapping_sub(1))),
        _ => (v, ps),
    }
}

fn apply(operation: Operation, r: Registers) -> (after: Registers)
    ensures
        after == internal(operation, r),
{
    match operation {
        Operation::Clc => Registers { ps: utils::p0(r.ps, false), ..r },
        Operation::Sec => Registers { ps: utils::p0(r.ps, true), ..r },
        Operation::Cli => Registers { ps: utils::p2(r.ps, false), ..r },
        Operation::Sei => Registers { ps: utils::p2(r.ps, true), ..r },
        Operation::Cld => Registers { ps: utils::p3(r.ps, false), ..r },
        Operation::Sed => Registers { ps: utils::p3(r.ps, true), ..r },
        Operation::Clv => Registers { ps: utils::p6(r.ps, false), ..r },
        Operation::Inx => Registers { idx: r.idx.wrapping_add(1), ps: nz(r.ps, r.idx.wrapping_add(1)), ..r },
        Operation::Iny => Registers { idy: r.idy.wrapping_add(1), ps: nz(r.ps, r.idy.wrapping_add(1)), ..r },
        Operation::Dex => Registers { idx: r.idx.wrapping_sub(1), ps: nz(r.ps, r.idx.wrapping_sub(1)), ..r },
        Operation::Dey => Registers { idy: r.idy.wrapping_sub(1), ps: nz(r.ps, r.idy.wrapping_sub(1)), ..r },
        Operation::Tax => Registers { idx: r.acc, ps: nz(r.ps, r.acc), ..r },
        Operation::Tay => Registers { idy: r.acc, ps: nz(r.ps, r.acc), ..r },
        Operation::Txa => Registers { acc: r.idx, ps: nz(r.ps, r.idx), ..r },
        Operation::Tya => Registers { acc: r.idy, ps: nz(r.ps, r.idy), ..r },
        Operation::Tsx => Registers { idx: r.sp, ps: nz(r.ps, r.sp), ..r },
        Operation::Txs => Registers { sp: r.idx, ..r },
        _ => r,
    }
}

fn decide(operation: Operation, ps: u8) -> (jump: bool)
    ensures
        jump == taken(operation, ps),
{
    match operation {
        Operation::Bcc => !utils::b0(ps),
        Operation::Bcs => utils::b0(ps),
        Operation::Bne => !utils::b1(ps),
        Operation::Beq => utils::b1(ps),
        Operation::Bpl => !utils::b7(ps),
        Operation::Bmi => utils::b7(ps),
        Operation::Bvc => !utils::b6(ps),
        Operation::Bvs => utils::b6(ps),
        _ => false,
    }
}

// The kinds of instruction

fn read_operand<T: Bus>(bus: &mut T, operation: Operation, address_mode: AddrMode)
    requires
        old(bus).inv(),
        reads(operation),
    ensures
        performs(old(bus), final(bus), old(bus).mos(), operation, address_mode),
{
    let ghost start = bus.mos();
    let ghost t0 = bus.trace();
    let address = get_address(bus, address_mode);
    let ghost t1 = bus.trace();
    let v = bus.read_byte(address);
    proof {
        reveal(effect);
        reveal(performs);
        lemma_operand_extends(address_mode, start, t1, bus.trace(), t0.len() as int);
    }
    let mos = bus.fetch_mos();
    mos.registers = compute(operation, *mos, v);
}

fn write_operand<T: Bus>(bus: &mut T, operation: Operation, address_mode: AddrMode)
    requires
        old(bus).inv(),
        stores(operation),
    ensures
        performs(old(bus), final(bus), old(bus).mos(), operation, address_mode),
{
    let ghost start = bus.mos();
    let ghost t0 = bus.trace();
    let address = get_address(bus, address_mode);
    let ghost t1 = bus.trace();
    let r = bus.get_mos().registers;
    let byte = match operation {
        Operation::Stx => r.idx,
        Operation::Sty => r.idy,
        _ => r.acc,
    };
    bus.write_byte(address, byte);
    proof {
        reveal(effect);
        reveal(performs);
        lemma_operand_extends(address_mode, start, t1, bus.trace(), t0.len() as int);
    }
}

fn rewrite_operand<T: Bus>(bus: &mut T, operation: Operation, address_mode: AddrMode)
    requires
        old(bus).inv(),
        rewrites(operation),
    ensures
        performs(old(bus), final(bus), old(bus).mos(), operation, address_mode),
{
    let ghost start = bus.mos();
    let ghost t0 = bus.trace();
    let address = get_address(bus, address_mode);
    let ghost t1 = bus.trace();
    proof {
        reveal(effect);
        reveal(performs);
    }
    match address_mode {
        AddrMode::Accumulator => {
            let mos = bus.fetch_mos();
            let (v, ps) = rewrite(operation, mos.registers.acc, mos.registers.ps);
            mos.registers.acc = v;
            mos.registers.ps = ps;
        },
        _ => {
            let v = bus.read_byte(address);
            bus.write_byte(address, v);
            let ps = get_ps(bus);
            let (changed, status) = rewrite(operation, v, ps);
            bus.write_byte(address, changed);
            set_ps(bus, status);
            proof {
                lemma_operand_extends(address_mode, start, t1, bus.trace(), t0.len() as int);
            }
        },
    }
}

fn branch<T: Bus>(bus: &mut T, operation: Operation, address_mode: AddrMode)
    requires
        old(bus).inv(),
        branches(operation),
    ensures
        performs(old(bus), final(bus), old(bus).mos(), operation, address_mode),
{
    proof {
        reveal(effect);
        reveal(performs);
    }
    let ps = get_ps(bus);
    let jump = decide(operation, ps);
    set_super_instruction(bus, jump);
    let address = get_address(bus, address_mode);
    set_pc_if(bus, jump, address);
}

fn register_only<T: Bus>(bus: &mut T, operation: Operation)
    requires
        old(bus).inv(),
        stays_inside(operation),
    ensures
        performs(old(bus), final(bus), old(bus).mos(), operation, AddrMode::Implicit),
{
    proof {
        reveal(effect);
        reveal(performs);
    }
    get_address(bus, AddrMode::Implicit);
    let mos = bus.fetch_mos();
    mos.registers = apply(operation, mos.registers);
}

// The operations

#[verifier::rlimit(50)]
fn op_brk<T: Bus>(bus: &mut T, address_mode: AddrMode)
    requires
        old(bus).inv(),
        admits(Operation::Brk, address_mode),
    ensures
        performs(old(bus), final(bus), old(bus).mos(), Operation::Brk, address_mode),
{
    proof {
        reveal(effect);
        reveal(performs);
    }
    let ghost start = bus.mos();
    let ghost t0 = bus.trace();
    get_address(bus, address_mode);
    let ghost h0 = bus.trace();
    let (msb, lsb) = utils::split_bytes(get_pc(bus).wrapping_add(1));
    let ps = get_ps(bus);
    write_to_stack(bus, msb);
    let ghost h1 = bus.trace();
    write_to_stack(bus, lsb);
    let ghost h2 = bus.trace();
    write_to_stack(bus, status_to_push(ps, true));
    let ghost h3 = bus.trace();
    let lsb = bus.read_byte(0xFFFE);
    let ghost h4 = bus.trace();
    let msb = bus.read_byte(0xFFFF);
    let ghost h5 = bus.trace();
    set_ps(bus, utils::p2(ps, true));
    set_pc(bus, utils::join_bytes(msb, lsb));
    proof {
        let n = t0.len() as int;
        let s = start.registers.sp;
        assert(low(s + 0) == s);
        assert(low(s - 1) == s.wrapping_sub(1));
        assert(low(s - 2) == s.wrapping_sub(1).wrapping_sub(1));
        assert(low(s - 3) == s.wrapping_sub(1).wrapping_sub(1).wrapping_sub(1));
        assert(at(start.registers.pc, 1) == start.registers.pc.wrapping_add(1));
        lemma_operand_extends(address_mode, start, h0, bus.trace(), n);
        lemma_implied(start, bus.trace(), n);
        let a0 = operand(address_mode, start, bus.trace(), n).accesses;
        let a1 = a0.push(h1.last());
        lemma_grow(t0, a0, h0, h1.last());
        let a2 = a1.push(h2.last());
        lemma_grow(t0, a1, h1, h2.last());
        let a3 = a2.push(h3.last());
        lemma_grow(t0, a2, h2, h3.last());
        let a4 = a3.push(h4.last());
        lemma_grow(t0, a3, h3, h4.last());
        let a5 = a4.push(h5.last());
        lemma_grow(t0, a4, h4, h5.last());
        assert(broke(start, bus.trace(), n).accesses =~= a5);
        assert(bus.mos() == broke(start, bus.trace(), n).mos);
    }
}

fn op_jmp<T: Bus>(bus: &mut T, address_mode: AddrMode)
    requires
        old(bus).inv(),
        admits(Operation::Jmp, address_mode),
    ensures
        performs(old(bus), final(bus), old(bus).mos(), Operation::Jmp, address_mode),
{
    proof {
        reveal(effect);
        reveal(performs);
    }
    let ghost start = bus.mos();
    let ghost t0 = bus.trace();
    let address = get_address(bus, address_mode);
    set_pc(bus, address);
}

#[verifier::rlimit(50)]
fn op_jsr<T: Bus>(bus: &mut T, address_mode: AddrMode)
    requires
        old(bus).inv(),
        admits(Operation::Jsr, address_mode),
    ensures
        performs(old(bus), final(bus), old(bus).mos(), Operation::Jsr, address_mode),
{
    proof {
        reveal(effect);
        reveal(performs);
    }
    let ghost start = bus.mos();
    let ghost t0 = bus.trace();
    let address = get_address(bus, address_mode);
    let ghost h0 = bus.trace();
    let (msb, lsb) = utils::split_bytes(get_pc(bus).wrapping_sub(1));
    let sp = get_sp(bus);
    bus.read_byte(0x0100 + utils::join_bytes(0x00, sp));
    let ghost h1 = bus.trace();
    write_to_stack(bus, msb);
    let ghost h2 = bus.trace();
    write_to_stack(bus, lsb);
    let ghost h3 = bus.trace();
    set_pc(bus, address);
    proof {
        let n = t0.len() as int;
        let s = start.registers.sp;
        assert(low(s + 0) == s);
        assert(low(s - 1) == s.wrapping_sub(1));
        assert(low(s - 2) == s.wrapping_sub(1).wrapping_sub(1));
        lemma_operand_extends(address_mode, start, h0, bus.trace(), n);
        lemma_implied(start, bus.trace(), n);
        let a0 = operand(address_mode, start, bus.trace(), n).accesses;
        let a1 = a0.push(h1.last());
        lemma_grow(t0, a0, h0, h1.last());
        let a2 = a1.push(h2.last());
        lemma_grow(t0, a1, h1, h2.last());
        let a3 = a2.push(h3.last());
        lemma_grow(t0, a2, h2, h3.last());
        assert(called(address_mode, start, bus.trace(), n).accesses =~= a3);
        assert(bus.mos() == called(address_mode, start, bus.trace(), n).mos);
    }
}

fn op_pha<T: Bus>(bus: &mut T, address_mode: AddrMode)
    requires
        old(bus).inv(),
        admits(Operation::Pha, address_mode),
    ensures
        performs(old(bus), final(bus), old(bus).mos(), Operation::Pha, address_mode),
{
    proof {
        reveal(effect);
        reveal(performs);
    }
    let ghost start = bus.mos();
    let ghost t0 = bus.trace();
    get_address(bus, address_mode);
    let ghost h0 = bus.trace();
    let acc = get_acc(bus);
    write_to_stack(bus, acc);
    let ghost h1 = bus.trace();
    proof {
        let n = t0.len() as int;
        let s = start.registers.sp;
        assert(low(s + 0) == s);
        assert(low(s - 1) == s.wrapping_sub(1));
        lemma_operand_extends(address_mode, start, h0, bus.trace(), n);
        lemma_implied(start, bus.trace(), n);
        let a0 = operand(address_mode, start, bus.trace(), n).accesses;
        let a1 = a0.push(h1.last());
        lemma_grow(t0, a0, h0, h1.last());
        assert(pushed(Operation::Pha, start, bus.trace(), n).accesses =~= a1);
        assert(bus.mos() == pushed(Operation::Pha, start, bus.trace(), n).mos);
    }
}

fn op_php<T: Bus>(bus: &mut T, address_mode: AddrMode)
    requires
        old(bus).inv(),
        admits(Operation::Php, address_mode),
    ensures
        performs(old(bus), final(bus), old(bus).mos(), Operation::Php, address_mode),
{
    proof {
        reveal(effect);
        reveal(performs);
    }
    let ghost start = bus.mos();
    let ghost t0 = bus.trace();
    get_address(bus, address_mode);
    let ghost h0 = bus.trace();
    let ps = get_ps(bus);
    write_to_stack(bus, status_to_push(ps, true));
    let ghost h1 = bus.trace();
    proof {
        let n = t0.len() as int;
        let s = start.registers.sp;
        assert(low(s + 0) == s);
        assert(low(s - 1) == s.wrapping_sub(1));
        lemma_operand_extends(address_mode, start, h0, bus.trace(), n);
        lemma_implied(start, bus.trace(), n);
        let a0 = operand(address_mode, start, bus.trace(), n).accesses;
        let a1 = a0.push(h1.last());
        lemma_grow(t0, a0, h0, h1.last());
        assert(pushed(Operation::Php, start, bus.trace(), n).accesses =~= a1);
        assert(bus.mos() == pushed(Operation::Php, start, bus.trace(), n).mos);
    }
}

fn op_pla<T: Bus>(bus: &mut T, address_mode: AddrMode)
    requires
        old(bus).inv(),
        admits(Operation::Pla, address_mode),
    ensures
        performs(old(bus), final(bus), old(bus).mos(), Operation::Pla, address_mode),
{
    proof {
        reveal(effect);
        reveal(performs);
    }
    let ghost start = bus.mos();
    let ghost t0 = bus.trace();
    get_address(bus, address_mode);
    let ghost h0 = bus.trace();
    let sp = get_sp(bus);
    bus.read_byte(0x0100 + utils::join_bytes(0x00, sp));
    let ghost h1 = bus.trace();
    let v = read_from_stack(bus);
    let ghost h2 = bus.trace();
    let ps = get_ps(bus);
    set_acc(bus, v);
    set_ps(bus, nz(ps, v));
    proof {
        let n = t0.len() as int;
        let s = start.registers.sp;
        assert(low(s + 0) == s);
        assert(low(s + 1) == s.wrapping_add(1));
        lemma_operand_extends(address_mode, start, h0, bus.trace(), n);
        lemma_implied(start, bus.trace(), n);
        let a0 = operand(address_mode, start, bus.trace(), n).accesses;
        let a1 = a0.push(h1.last());
        lemma_grow(t0, a0, h0, h1.last());
        let a2 = a1.push(h2.last());
        lemma_grow(t0, a1, h1, h2.last());
        assert(pulled(Operation::Pla, start, bus.trace(), n).accesses =~= a2);
        assert(bus.mos() == pulled(Operation::Pla, start, bus.trace(), n).mos);
    }
}

fn op_plp<T: Bus>(bus: &mut T, address_mode: AddrMode)
    requires
        old(bus).inv(),
        admits(Operation::Plp, address_mode),
    ensures
        performs(old(bus), final(bus), old(bus).mos(), Operation::Plp, address_mode),
{
    proof {
        reveal(effect);
        reveal(performs);
    }
    let ghost start = bus.mos();
    let ghost t0 = bus.trace();
    get_address(bus, address_mode);
    let ghost h0 = bus.trace();
    let sp = get_sp(bus);
    bus.read_byte(0x0100 + utils::join_bytes(0x00, sp));
    let ghost h1 = bus.trace();
    let v = read_from_stack(bus);
    let ghost h2 = bus.trace();
    set_ps(bus, status_from_pull(v));
    proof {
        let n = t0.len() as int;
        let s = start.registers.sp;
        assert(low(s + 0) == s);
        assert(low(s + 1) == s.wrapping_add(1));
        lemma_operand_extends(address_mode, start, h0, bus.trace(), n);
        lemma_implied(start, bus.trace(), n);
        let a0 = operand(address_mode, start, bus.trace(), n).accesses;
        let a1 = a0.push(h1.last());
        lemma_grow(t0, a0, h0, h1.last());
        let a2 = a1.push(h2.last());
        lemma_grow(t0, a1, h1, h2.last());
        assert(pulled(Operation::Plp, start, bus.trace(), n).accesses =~= a2);
        assert(bus.mos() == pulled(Operation::Plp, start, bus.trace(), n).mos);
    }
}

#[verifier::rlimit(50)]
fn op_rti<T: Bus>(bus: &mut T, address_mode: AddrMode)
    requires
        old(bus).inv(),
        admits(Operation::Rti, address_mode),
    ensures
        performs(old(bus), final(bus), old(bus).mos(), Operation::Rti, address_mode),
{
    proof {
        reveal(effect);
        reveal(performs);
    }
    let ghost start = bus.mos();
    let ghost t0 = bus.trace();
    get_address(bus, address_mode);
    let ghost h0 = bus.trace();
    let sp = get_sp(bus);
    bus.read_byte(0x0100 + utils::join_bytes(0x00, sp));
    let ghost h1 = bus.trace();
    let status = read_from_stack(bus);
    let ghost h2 = bus.trace();
    let lsb = read_from_stack(bus);
    let ghost h3 = bus.trace();
    let msb = read_from_stack(bus);
    let ghost h4 = bus.trace();
    set_ps(bus, status_from_pull(status));
    set_pc(bus, utils::join_bytes(msb, lsb));
    proof {
        let n = t0.len() as int;
        let s = start.registers.sp;
        assert(low(s + 0) == s);
        assert(low(s + 1) == s.wrapping_add(1));
        assert(low(s + 2) == s.wrapping_add(1).wrapping_add(1));
        assert(low(s + 3) == s.wrapping_add(1).wrapping_add(1).wrapping_add(1));
        lemma_operand_extends(address_mode, start, h0, bus.trace(), n);
        lemma_implied(start, bus.trace(), n);
        let a0 = operand(address_mode, start, bus.trace(), n).accesses;
        let a1 = a0.push(h1.last());
        lemma_grow(t0, a0, h0, h1.last());
        let a2 = a1.push(h2.last());
        lemma_grow(t0, a1, h1, h2.last());
        let a3 = a2.push(h3.last());
        lemma_grow(t0, a2, h2, h3.last());
        let a4 = a3.push(h4.last());
        lemma_grow(t0, a3, h3, h4.last());
        assert(resumed(start, bus.trace(), n).accesses =~= a4);
        assert(bus.mos() == resumed(start, bus.trace(), n).mos);
    }
}

#[verifier::rlimit(50)]
fn op_rts<T: Bus>(bus: &mut T, address_mode: AddrMode)
    requires
        old(bus).inv(),
        admits(Operation::Rts, address_mode),
    ensures
        performs(old(bus), final(bus), old(bus).mos(), Operation::Rts, address_mode),
{
    proof {
        reveal(effect);
        reveal(performs);
    }
    let ghost start = bus.mos();
    let ghost t0 = bus.trace();
    get_address(bus, address_mode);
    let ghost h0 = bus.trace();
    let sp = get_sp(bus);
    bus.read_byte(0x0100 + utils::join_bytes(0x00, sp));
    let ghost h1 = bus.trace();
    let lsb = read_from_stack(bus);
    let ghost h2 = bus.trace();
    let msb = read_from_stack(bus);
    let ghost h3 = bus.trace();
    let address = utils::join_bytes(msb, lsb);
    bus.read_byte(address);
    let ghost h4 = bus.trace();
    set_pc(bus, address.wrapping_add(1));
    proof {
        let n = t0.len() as int;
        let s = start.registers.sp;
        assert(low(s + 0) == s);
        assert(low(s + 1) == s.wrapping_add(1));
        assert(low(s + 2) == s.wrapping_add(1).wrapping_add(1));
        lemma_operand_extends(address_mode, start, h0, bus.trace(), n);
        lemma_implied(start, bus.trace(), n);
        let a0 = operand(address_mode, start, bus.trace(), n).accesses;
        let a1 = a0.push(h1.last());
        lemma_grow(t0, a0, h0, h1.last());
        let a2 = a1.push(h2.last());
        lemma_grow(t0, a1, h1, h2.last());
        let a3 = a2.push(h3.last());
        lemma_grow(t0, a2, h2, h3.last());
        let a4 = a3.push(h4.last());
        lemma_grow(t0, a3, h3, h4.last());
        assert(returned(start, bus.trace(), n).accesses =~= a4);
        assert(bus.mos() == returned(start, bus.trace(), n).mos);
    }
}

/// What finding no operand comes to.
proof fn lemma_implied(mos: Mos, t: Seq<Access>, n: int)
    ensures
        operand(AddrMode::Implicit, mos, t, n) == (Operand {
            address: 0,
            accesses: seq![read_at(mos.registers.pc, t, n)],
            mos,
        }),
        operand(AddrMode::Implicit, mos, t, n).accesses.len() == 1,
{
    reveal(operand);
}

/// Appending to a trace appends to what it has grown by.
proof fn lemma_grow(t0: Seq<Access>, grown: Seq<Access>, t: Seq<Access>, x: Access)
    requires
        t =~= t0 + grown,
    ensures
        t.push(x) =~= t0 + grown.push(x),
{
}

fn op_undefined<T: Bus>(bus: &mut T, address_mode: AddrMode)
    requires
        old(bus).inv(),
    ensures
        performs(old(bus), final(bus), old(bus).mos(), Operation::Undefined, address_mode),
{
    proof {
        reveal(effect);
        reveal(performs);
    }
}

/// The accesses that an instruction makes behind the read of its opcode when it has
/// nothing to pay for.
pub open spec fn plain_accesses(operation: Operation, mode: AddrMode) -> int {
    (match mode {
        AddrMode::Immediate => 0int,
        AddrMode::Implicit | AddrMode::Accumulator | AddrMode::Zeropage | AddrMode::Relative => 1,
        AddrMode::ZeropageX | AddrMode::ZeropageY | AddrMode::Absolute => 2,
        AddrMode::AbsoluteX | AddrMode::AbsoluteY => if pays(operation, mode) {
            2
        } else {
            3
        },
        AddrMode::IndirectY => if pays(operation, mode) {
            3
        } else {
            4
        },
        AddrMode::Indirect | AddrMode::IndirectX => 4,
    }) + (if reads(operation) || stores(operation) {
        1int
    } else if rewrites(operation) {
        if mode == AddrMode::Accumulator {
            0
        } else {
            3
        }
    } else {
        match operation {
            Operation::Jsr => 3,
            Operation::Rts | Operation::Rti => 4,
            Operation::Brk => 5,
            Operation::Pha | Operation::Php => 1,
            Operation::Pla | Operation::Plp => 2,
            _ => 0,
        }
    })
}

/// Whether an instruction pays for a page crossing with a cycle: the instructions
/// that read through an indexed address do.
pub open spec fn pays(operation: Operation, mode: AddrMode) -> bool {
    reads(operation) && (mode == AddrMode::AbsoluteX || mode == AddrMode::AbsoluteY || mode
        == AddrMode::IndirectY)
}

/// `o` owes a cycle for each access beyond `plain`.
pub open spec fn costs(o: Outcome, mos: Mos, plain: int) -> bool {
    o.mos.cycles == delayed(mos, o.accesses.len() - plain).cycles
}

proof fn lemma_cost_loaded(operation: Operation, mode: AddrMode, mos: Mos, t: Seq<Access>, n: int)
    requires
        reads(operation),
        mos.context.super_instruction == pays(operation, mode),
        mode != AddrMode::Relative,
    ensures
        costs(loaded(operation, mode, mos, t, n), mos, plain_accesses(operation, mode)),
{
    lemma_operand_cost(mode, mos, t, n);
}

proof fn lemma_cost_kept(operation: Operation, mode: AddrMode, mos: Mos, t: Seq<Access>, n: int)
    requires
        stores(operation),
        !mos.context.super_instruction,
        mode != AddrMode::Relative,
    ensures
        costs(kept(operation, mode, mos, t, n), mos, plain_accesses(operation, mode)),
{
    lemma_operand_cost(mode, mos, t, n);
}

proof fn lemma_cost_changed(operation: Operation, mode: AddrMode, mos: Mos, t: Seq<Access>, n: int)
    requires
        rewrites(operation),
        !mos.context.super_instruction,
        mode != AddrMode::Relative,
    ensures
        costs(changed(operation, mode, mos, t, n), mos, plain_accesses(operation, mode)),
{
    lemma_operand_cost(mode, mos, t, n);
}

proof fn lemma_cost_branched(operation: Operation, mos: Mos, t: Seq<Access>, n: int)
    requires
        branches(operation),
    ensures
        costs(branched(operation, AddrMode::Relative, mos, t, n), mos, 1),
{
    lemma_operand_cost(
        AddrMode::Relative,
        with_context(mos, Context { super_instruction: taken(operation, mos.registers.ps), ..mos.context }),
        t,
        n,
    );
}

proof fn lemma_cost_rest(operation: Operation, mode: AddrMode, mos: Mos, t: Seq<Access>, n: int)
    requires
        !reads(operation),
        !stores(operation),
        !rewrites(operation),
        !branches(operation),
        operation != Operation::Undefined,
        admits(operation, mode),
        !mos.context.super_instruction,
    ensures
        costs(effect(operation, mode, mos, t, n), mos, plain_accesses(operation, mode)),
{
    reveal(effect);
    lemma_operand_cost(mode, mos, t, n);
    lemma_operand_cost(AddrMode::Implicit, mos, t, n);
}

/// An instruction owes a cycle for each access that it makes beyond those that it
/// makes when it has nothing to pay for.
pub proof fn lemma_effect_cost(
    operation: Operation,
    mode: AddrMode,
    mos: Mos,
    t: Seq<Access>,
    n: int,
)
    requires
        admits(operation, mode),
        operation != Operation::Undefined,
        mos.context.super_instruction == pays(operation, mode),
    ensures
        costs(effect(operation, mode, mos, t, n), mos, plain_accesses(operation, mode)),
{
    if reads(operation) {
        lemma_cost_loaded(operation, mode, mos, t, n);
        assert(effect(operation, mode, mos, t, n) == loaded(operation, mode, mos, t, n)) by {
            reveal(effect);
        }
    } else if stores(operation) {
        lemma_cost_kept(operation, mode, mos, t, n);
        assert(effect(operation, mode, mos, t, n) == kept(operation, mode, mos, t, n)) by {
            reveal(effect);
        }
    } else if rewrites(operation) {
        lemma_cost_changed(operation, mode, mos, t, n);
        assert(effect(operation, mode, mos, t, n) == changed(operation, mode, mos, t, n)) by {
            reveal(effect);
        }
    } else if branches(operation) {
        lemma_cost_branched(operation, mos, t, n);
        assert(effect(operation, mode, mos, t, n) == branched(operation, mode, mos, t, n)) by {
            reveal(effect);
        }
    } else {
        lemma_cost_rest(operation, mode, mos, t, n);
    }
}

/// Runs an operation in an addressing mode.
pub fn run<T: Bus>(bus: &mut T, operation: Operation, address_mode: AddrMode)
    requires
        old(bus).inv(),
        admits(operation, address_mode),
    ensures
        performs(old(bus), final(bus), old(bus).mos(), operation, address_mode),
{
    match operation {
        Operation::Lda | Operation::Ldx | Operation::Ldy | Operation::And | Operation::Ora
        | Operation::Eor | Operation::Adc | Operation::Sbc | Operation::Cmp | Operation::Cpx
        | Operation::Cpy | Operation::Bit => read_operand(bus, operation, address_mode),
        Operation::Sta | Operation::Stx | Operation::Sty => write_operand(
            bus,
            operation,
            address_mode,
        ),
        Operation::Asl | Operation::Lsr | Operation::Rol | Operation::Ror | Operation::Inc
        | Operation::Dec => rewrite_operand(bus, operation, address_mode),
        Operation::Bcc | Operation::Bcs | Operation::Beq | Operation::Bmi | Operation::Bne
        | Operation::Bpl | Operation::Bvc | Operation::Bvs => branch(bus, operation, address_mode),
        Operation::Brk => op_brk(bus, address_mode),
        Operation::Jmp => op_jmp(bus, address_mode),
        Operation::Jsr => op_jsr(bus, address_mode),
        Operation::Pha => op_pha(bus, address_mode),
        Operation::Php => op_php(bus, address_mode),
        Operation::Pla => op_pla(bus, address_mode),
        Operation::Plp => op_plp(bus, address_mode),
        Operation::Rti => op_rti(bus, address_mode),
        Operation::Rts => op_rts(bus, address_mode),
        Operation::Undefined => op_undefined(bus, address_mode),
        Operation::Clc | Operation::Sec | Operation::Cli | Operation::Sei | Operation::Cld
        | Operation::Sed | Operation::Clv | Operation::Inx | Operation::Iny | Operation::Dex
        | Operation::Dey | Operation::Tax | Operation::Tay | Operation::Txa | Operation::Tya
        | Operation::Tsx | Operation::Txs | Operation::Nop => register_only(bus, operation),
    }
}

} // verus!
