use vstd::prelude::*;

use crate::mos::addressing::{at, delayed, read_at, seen};
use crate::mos::alu::{pushed_status, status_to_push};
use crate::mos::operations::{
    admits, effect, lemma_effect_cost, pays, performs, plain_accesses, run, stack_at, with_sp,
    Operation, Outcome,
};
use crate::mos::primitive::{
    get_pc, get_ps, set_pc, set_ps, set_super_instruction, update_cycles, with_context,
    with_flag, with_registers, write_to_stack,
};
use crate::mos::types::{Access, AddrMode, Bus, Context, Flag, Mos, Registers};
use crate::utils;
use crate::utils::word;

verus! {

/// One entry of the opcode table.
#[derive(Copy, Clone, Debug, PartialEq, Eq, Structural)]
pub struct Instruction {
    pub operation: Operation,
    pub mode: AddrMode,
    /// The cycles that the instruction takes when nothing delays it.
    pub cycles: u8,
    /// Whether crossing a page while the operand is found costs one more cycle.
    pub page_penalty: bool,
}

/// The opcode table: what each byte means as the first of an instruction. A byte that
/// stands for no documented instruction takes one cycle and does nothing.
pub open spec fn decode(opcode: u8) -> Instruction {
    match opcode {
        0x00 => entry(Operation::Brk, AddrMode::Implicit, 7, false),
        0x01 => entry(Operation::Ora, AddrMode::IndirectX, 6, false),
        0x05 => entry(Operation::Ora, AddrMode::Zeropage, 3, false),
        0x06 => entry(Operation::Asl, AddrMode::Zeropage, 5, false),
        0x08 => entry(Operation::Php, AddrMode::Implicit, 3, false),
        0x09 => entry(Operation::Ora, AddrMode::Immediate, 2, false),
        0x0A => entry(Operation::Asl, AddrMode::Accumulator, 2, false),
        0x0D => entry(Operation::Ora, AddrMode::Absolute, 4, false),
        0x0E => entry(Operation::Asl, AddrMode::Absolute, 6, false),
        0x10 => entry(Operation::Bpl, AddrMode::Relative, 2, false),
        0x11 => entry(Operation::Ora, AddrMode::IndirectY, 5, true),
        0x15 => entry(Operation::Ora, AddrMode::ZeropageX, 4, false),
        0x16 => entry(Operation::Asl, AddrMode::ZeropageX, 6, false),
        0x18 => entry(Operation::Clc, AddrMode::Implicit, 2, false),
        0x19 => entry(Operation::Ora, AddrMode::AbsoluteY, 4, true),
        0x1D => entry(Operation::Ora, AddrMode::AbsoluteX, 4, true),
        0x1E => entry(Operation::Asl, AddrMode::AbsoluteX, 7, false),
        0x20 => entry(Operation::Jsr, AddrMode::Absolute, 6, false),
        0x21 => entry(Operation::And, AddrMode::IndirectX, 6, false),
        0x24 => entry(Operation::Bit, AddrMode::Zeropage, 3, false),
        0x25 => entry(Operation::And, AddrMode::Zeropage, 3, false),
        0x26 => entry(Operation::Rol, AddrMode::Zeropage, 5, false),
        0x28 => entry(Operation::Plp, AddrMode::Implicit, 4, false),
        0x29 => entry(Operation::And, AddrMode::Immediate, 2, false),
        0x2A => entry(Operation::Rol, AddrMode::Accumulator, 2, false),
        0x2C => entry(Operation::Bit, AddrMode::Absolute, 4, false),
        0x2D => entry(Operation::And, AddrMode::Absolute, 4, false),
        0x2E => entry(Operation::Rol, AddrMode::Absolute, 6, false),
        0x30 => entry(Operation::Bmi, AddrMode::Relative, 2, false),
        0x31 => entry(Operation::And, AddrMode::IndirectY, 5, true),
        0x35 => entry(Operation::And, AddrMode::ZeropageX, 4, false),
        0x36 => entry(Operation::Rol, AddrMode::ZeropageX, 6, false),
        0x38 => entry(Operation::Sec, AddrMode::Implicit, 2, false),
        0x39 => entry(Operation::And, AddrMode::AbsoluteY, 4, true),
        0x3D => entry(Operation::And, AddrMode::AbsoluteX, 4, true),
        0x3E => entry(Operation::Rol, AddrMode::AbsoluteX, 7, false),
        0x40 => entry(Operation::Rti, AddrMode::Implicit, 6, false),
        0x41 => entry(Operation::Eor, AddrMode::IndirectX, 6, false),
        0x45 => entry(Operation::Eor, AddrMode::Zeropage, 3, false),
        0x46 => entry(Operation::Lsr, AddrMode::Zeropage, 5, false),
        0x48 => entry(Operation::Pha, AddrMode::Implicit, 3, false),
        0x49 => entry(Operation::Eor, AddrMode::Immediate, 2, false),
        0x4A => entry(Operation::Lsr, AddrMode::Accumulator, 2, false),
        0x4C => entry(Operation::Jmp, AddrMode::Absolute, 3, false),
        0x4D => entry(Operation::Eor, AddrMode::Absolute, 4, false),
        0x4E => entry(Operation::Lsr, AddrMode::Absolute, 6, false),
        0x50 => entry(Operation::Bvc, AddrMode::Relative, 2, false),
        0x51 => entry(Operation::Eor, AddrMode::IndirectY, 5, true),
        0x55 => entry(Operation::Eor, AddrMode::ZeropageX, 4, false),
        0x56 => entry(Operation::Lsr, AddrMode::ZeropageX, 6, false),
        0x58 => entry(Operation::Cli, AddrMode::Implicit, 2, false),
        0x59 => entry(Operation::Eor, AddrMode::AbsoluteY, 4, true),
        0x5D => entry(Operation::Eor, AddrMode::AbsoluteX, 4, true),
        0x5E => entry(Operation::Lsr, AddrMode::AbsoluteX, 7, false),
        0x60 => entry(Operation::Rts, AddrMode::Implicit, 6, false),
        0x61 => entry(Operation::Adc, AddrMode::IndirectX, 6, false),
        0x65 => entry(Operation::Adc, AddrMode::Zeropage, 3, false),
        0x66 => entry(Operation::Ror, AddrMode::Zeropage, 5, false),
        0x68 => entry(Operation::Pla, AddrMode::Implicit, 4, false),
        0x69 => entry(Operation::Adc, AddrMode::Immediate, 2, false),
        0x6A => entry(Operation::Ror, AddrMode::Accumulator, 2, false),
        0x6C => entry(Operation::Jmp, AddrMode::Indirect, 5, false),
        0x6D => entry(Operation::Adc, AddrMode::Absolute, 4, false),
        0x6E => entry(Operation::Ror, AddrMode::Absolute, 6, false),
        0x70 => entry(Operation::Bvs, AddrMode::Relative, 2, false),
        0x71 => entry(Operation::Adc, AddrMode::IndirectY, 5, true),
        0x75 => entry(Operation::Adc, AddrMode::ZeropageX, 4, false),
        0x76 => entry(Operation::Ror, AddrMode::ZeropageX, 6, false),
        0x78 => entry(Operation::Sei, AddrMode::Implicit, 2, false),
        0x79 => entry(Operation::Adc, AddrMode::AbsoluteY, 4, true),
        0x7D => entry(Operation::Adc, AddrMode::AbsoluteX, 4, true),
        0x7E => entry(Operation::Ror, AddrMode::AbsoluteX, 7, false),
        0x81 => entry(Operation::Sta, AddrMode::IndirectX, 6, false),
        0x84 => entry(Operation::Sty, AddrMode::Zeropage, 3, false),
        0x85 => entry(Operation::Sta, AddrMode::Zeropage, 3, false),
        0x86 => entry(Operation::Stx, AddrMode::Zeropage, 3, false),
        0x88 => entry(Operation::Dey, AddrMode::Implicit, 2, false),
        0x8A => entry(Operation::Txa, AddrMode::Implicit, 2, false),
        0x8C => entry(Operation::Sty, AddrMode::Absolute, 4, false),
        0x8D => entry(Operation::Sta, AddrMode::Absolute, 4, false),
        0x8E => entry(Operation::Stx, AddrMode::Absolute, 4, false),
        0x90 => entry(Operation::Bcc, AddrMode::Relative, 2, false),
        0x91 => entry(Operation::Sta, AddrMode::IndirectY, 6, false),
        0x94 => entry(Operation::Sty, AddrMode::ZeropageX, 4, false),
        0x95 => entry(Operation::Sta, AddrMode::ZeropageX, 4, false),
        0x96 => entry(Operation::Stx, AddrMode::ZeropageY, 4, false),
        0x98 => entry(Operation::Tya, AddrMode::Implicit, 2, false),
        0x99 => entry(Operation::Sta, AddrMode::AbsoluteY, 5, false),
        0x9A => entry(Operation::Txs, AddrMode::Implicit, 2, false),
        0x9D => entry(Operation::Sta, AddrMode::AbsoluteX, 5, false),
        0xA0 => entry(Operation::Ldy, AddrMode::Immediate, 2, false),
        0xA1 => entry(Operation::Lda, AddrMode::IndirectX, 6, false),
        0xA2 => entry(Operation::Ldx, AddrMode::Immediate, 2, false),
        0xA4 => entry(Operation::Ldy, AddrMode::Zeropage, 3, false),
        0xA5 => entry(Operation::Lda, AddrMode::Zeropage, 3, false),
        0xA6 => entry(Operation::Ldx, AddrMode::Zeropage, 3, false),
        0xA8 => entry(Operation::Tay, AddrMode::Implicit, 2, false),
        0xA9 => entry(Operation::Lda, AddrMode::Immediate, 2, false),
        0xAA => entry(Operation::Tax, AddrMode::Implicit, 2, false),
        0xAC => entry(Operation::Ldy, AddrMode::Absolute, 4, false),
        0xAD => entry(Operation::Lda, AddrMode::Absolute, 4, false),
        0xAE => entry(Operation::Ldx, AddrMode::Absolute, 4, false),
        0xB0 => entry(Operation::Bcs, AddrMode::Relative, 2, false),
        0xB1 => entry(Operation::Lda, AddrMode::IndirectY, 5, true),
        0xB4 => entry(Operation::Ldy, AddrMode::ZeropageX, 4, false),
        0xB5 => entry(Operation::Lda, AddrMode::ZeropageX, 4, false),
        0xB6 => entry(Operation::Ldx, AddrMode::ZeropageY, 4, false),
        0xB8 => entry(Operation::Clv, AddrMode::Implicit, 2, false),
        0xB9 => entry(Operation::Lda, AddrMode::AbsoluteY, 4, true),
        0xBA => entry(Operation::Tsx, AddrMode::Implicit, 2, false),
        0xBC => entry(Operation::Ldy, AddrMode::AbsoluteX, 4, true),
        0xBD => entry(Operation::Lda, AddrMode::AbsoluteX, 4, true),
        0xBE => entry(Operation::Ldx, AddrMode::AbsoluteY, 4, true),
        0xC0 => entry(Operation::Cpy, AddrMode::Immediate, 2, false),
        0xC1 => entry(Operation::Cmp, AddrMode::IndirectX, 6, false),
        0xC4 => entry(Operation::Cpy, AddrMode::Zeropage, 3, false),
        0xC5 => entry(Operation::Cmp, AddrMode::Zeropage, 3, false),
        0xC6 => entry(Operation::Dec, AddrMode::Zeropage, 5, false),
        0xC8 => entry(Operation::Iny, AddrMode::Implicit, 2, false),
        0xC9 => entry(Operation::Cmp, AddrMode::Immediate, 2, false),
        0xCA => entry(Operation::Dex, AddrMode::Implicit, 2, false),
        0xCC => entry(Operation::Cpy, AddrMode::Absolute, 4, false),
        0xCD => entry(Operation::Cmp, AddrMode::Absolute, 4, false),
        0xCE => entry(Operation::Dec, AddrMode::Absolute, 6, false),
        0xD0 => entry(Operation::Bne, AddrMode::Relative, 2, false),
        0xD1 => entry(Operation::Cmp, AddrMode::IndirectY, 5, true),
        0xD5 => entry(Operation::Cmp, AddrMode::ZeropageX, 4, false),
        0xD6 => entry(Operation::Dec, AddrMode::ZeropageX, 6, false),
        0xD8 => entry(Operation::Cld, AddrMode::Implicit, 2, false),
        0xD9 => entry(Operation::Cmp, AddrMode::AbsoluteY, 4, true),
        0xDD => entry(Operation::Cmp, AddrMode::AbsoluteX, 4, true),
        0xDE => entry(Operation::Dec, AddrMode::AbsoluteX, 7, false),
        0xE0 => entry(Operation::Cpx, AddrMode::Immediate, 2, false),
        0xE1 => entry(Operation::Sbc, AddrMode::IndirectX, 6, false),
        0xE4 => entry(Operation::Cpx, AddrMode::Zeropage, 3, false),
        0xE5 => entry(Operation::Sbc, AddrMode::Zeropage, 3, false),
        0xE6 => entry(Operation::Inc, AddrMode::Zeropage, 5, false),
        0xE8 => entry(Operation::Inx, AddrMode::Implicit, 2, false),
        0xE9 => entry(Operation::Sbc, AddrMode::Immediate, 2, false),
        0xEA => entry(Operation::Nop, AddrMode::Implicit, 2, false),
        0xEC => entry(Operation::Cpx, AddrMode::Absolute, 4, false),
        0xED => entry(Operation::Sbc, AddrMode::Absolute, 4, false),
        0xEE => entry(Operation::Inc, AddrMode::Absolute, 6, false),
        0xF0 => entry(Operation::Beq, AddrMode::Relative, 2, false),
        0xF1 => entry(Operation::Sbc, AddrMode::IndirectY, 5, true),
        0xF5 => entry(Operation::Sbc, AddrMode::ZeropageX, 4, false),
        0xF6 => entry(Operation::Inc, AddrMode::ZeropageX, 6, false),
        0xF8 => entry(Operation::Sed, AddrMode::Implicit, 2, false),
        0xF9 => entry(Operation::Sbc, AddrMode::AbsoluteY, 4, true),
        0xFD => entry(Operation::Sbc, AddrMode::AbsoluteX, 4, true),
        0xFE => entry(Operation::Inc, AddrMode::AbsoluteX, 7, false),
        _ => entry(Operation::Undefined, AddrMode::Implicit, 1, false),
    }
}

pub open spec fn entry(
    operation: Operation,
    mode: AddrMode,
    cycles: u8,
    page_penalty: bool,
) -> Instruction {
    Instruction { operation, mode, cycles, page_penalty }
}


/// The processor as it stands when an instruction begins its work: the cycles of the
/// table entry are booked, and the context says whether page crossings cost.
pub open spec fn prepared(mos: Mos, i: Instruction) -> Mos {
    with_context(delayed(mos, i.cycles as int), Context { super_instruction: i.page_penalty, ..mos.context })
}

/// Finds an opcode in the table.
pub fn lookup(opcode: u8) -> (i: Instruction)
    ensures
        i == decode(opcode),
{
    match opcode {
        0x00 => instruction(Operation::Brk, AddrMode::Implicit, 7, false),
        0x01 => instruction(Operation::Ora, AddrMode::IndirectX, 6, false),
        0x05 => instruction(Operation::Ora, AddrMode::Zeropage, 3, false),
        0x06 => instruction(Operation::Asl, AddrMode::Zeropage, 5, false),
        0x08 => instruction(Operation::Php, AddrMode::Implicit, 3, false),
        0x09 => instruction(Operation::Ora, AddrMode::Immediate, 2, false),
        0x0A => instruction(Operation::Asl, AddrMode::Accumulator, 2, false),
        0x0D => instruction(Operation::Ora, AddrMode::Absolute, 4, false),
        0x0E => instruction(Operation::Asl, AddrMode::Absolute, 6, false),
        0x10 => instruction(Operation::Bpl, AddrMode::Relative, 2, false),
        0x11 => instruction(Operation::Ora, AddrMode::IndirectY, 5, true),
        0x15 => instruction(Operation::Ora, AddrMode::ZeropageX, 4, false),
        0x16 => instruction(Operation::Asl, AddrMode::ZeropageX, 6, false),
        0x18 => instruction(Operation::Clc, AddrMode::Implicit, 2, false),
        0x19 => instruction(Operation::Ora, AddrMode::AbsoluteY, 4, true),
        0x1D => instruction(Operation::Ora, AddrMode::AbsoluteX, 4, true),
        0x1E => instruction(Operation::Asl, AddrMode::AbsoluteX, 7, false),
        0x20 => instruction(Operation::Jsr, AddrMode::Absolute, 6, false),
        0x21 => instruction(Operation::And, AddrMode::IndirectX, 6, false),
        0x24 => instruction(Operation::Bit, AddrMode::Zeropage, 3, false),
        0x25 => instruction(Operation::And, AddrMode::Zeropage, 3, false),
        0x26 => instruction(Operation::Rol, AddrMode::Zeropage, 5, false),
        0x28 => instruction(Operation::Plp, AddrMode::Implicit, 4, false),
        0x29 => instruction(Operation::And, AddrMode::Immediate, 2, false),
        0x2A => instruction(Operation::Rol, AddrMode::Accumulator, 2, false),
        0x2C => instruction(Operation::Bit, AddrMode::Absolute, 4, false),
        0x2D => instruction(Operation::And, AddrMode::Absolute, 4, false),
        0x2E => instruction(Operation::Rol, AddrMode::Absolute, 6, false),
        0x30 => instruction(Operation::Bmi, AddrMode::Relative, 2, false),
        0x31 => instruction(Operation::And, AddrMode::IndirectY, 5, true),
        0x35 => instruction(Operation::And, AddrMode::ZeropageX, 4, false),
        0x36 => instruction(Operation::Rol, AddrMode::ZeropageX, 6, false),
        0x38 => instruction(Operation::Sec, AddrMode::Implicit, 2, false),
        0x39 => instruction(Operation::And, AddrMode::AbsoluteY, 4, true),
        0x3D => instruction(Operation::And, AddrMode::AbsoluteX, 4, true),
        0x3E => instruction(Operation::Rol, AddrMode::AbsoluteX, 7, false),
        0x40 => instruction(Operation::Rti, AddrMode::Implicit, 6, false),
        0x41 => instruction(Operation::Eor, AddrMode::IndirectX, 6, false),
        0x45 => instruction(Operation::Eor, AddrMode::Zeropage, 3, false),
        0x46 => instruction(Operation::Lsr, AddrMode::Zeropage, 5, false),
        0x48 => instruction(Operation::Pha, AddrMode::Implicit, 3, false),
        0x49 => instruction(Operation::Eor, AddrMode::Immediate, 2, false),
        0x4A => instruction(Operation::Lsr, AddrMode::Accumulator, 2, false),
        0x4C => instruction(Operation::Jmp, AddrMode::Absolute, 3, false),
        0x4D => instruction(Operation::Eor, AddrMode::Absolute, 4, false),
        0x4E => instruction(Operation::Lsr, AddrMode::Absolute, 6, false),
        0x50 => instruction(Operation::Bvc, AddrMode::Relative, 2, false),
        0x51 => instruction(Operation::Eor, AddrMode::IndirectY, 5, true),
        0x55 => instruction(Operation::Eor, AddrMode::ZeropageX, 4, false),
        0x56 => instruction(Operation::Lsr, AddrMode::ZeropageX, 6, false),
        0x58 => instruction(Operation::Cli, AddrMode::Implicit, 2, false),
        0x59 => instruction(Operation::Eor, AddrMode::AbsoluteY, 4, true),
        0x5D => instruction(Operation::Eor, AddrMode::AbsoluteX, 4, true),
        0x5E => instruction(Operation::Lsr, AddrMode::AbsoluteX, 7, false),
        0x60 => instruction(Operation::Rts, AddrMode::Implicit, 6, false),
        0x61 => instruction(Operation::Adc, AddrMode::IndirectX, 6, false),
        0x65 => instruction(Operation::Adc, AddrMode::Zeropage, 3, false),
        0x66 => instruction(Operation::Ror, AddrMode::Zeropage, 5, false),
        0x68 => instruction(Operation::Pla, AddrMode::Implicit, 4, false),
        0x69 => instruction(Operation::Adc, AddrMode::Immediate, 2, false),
        0x6A => instruction(Operation::Ror, AddrMode::Accumulator, 2, false),
        0x6C => instruction(Operation::Jmp, AddrMode::Indirect, 5, false),
        0x6D => instruction(Operation::Adc, AddrMode::Absolute, 4, false),
        0x6E => instruction(Operation::Ror, AddrMode::Absolute, 6, false),
        0x70 => instruction(Operation::Bvs, AddrMode::Relative, 2, false),
        0x71 => instruction(Operation::Adc, AddrMode::IndirectY, 5, true),
        0x75 => instruction(Operation::Adc, AddrMode::ZeropageX, 4, false),
        0x76 => instruction(Operation::Ror, AddrMode::ZeropageX, 6, false),
        0x78 => instruction(Operation::Sei, AddrMode::Implicit, 2, false),
        0x79 => instruction(Operation::Adc, AddrMode::AbsoluteY, 4, true),
        0x7D => instruction(Operation::Adc, AddrMode::AbsoluteX, 4, true),
        0x7E => instruction(Operation::Ror, AddrMode::AbsoluteX, 7, false),
        0x81 => instruction(Operation::Sta, AddrMode::IndirectX, 6, false),
        0x84 => instruction(Operation::Sty, AddrMode::Zeropage, 3, false),
        0x85 => instruction(Operation::Sta, AddrMode::Zeropage, 3, false),
        0x86 => instruction(Operation::Stx, AddrMode::Zeropage, 3, false),
        0x88 => instruction(Operation::Dey, AddrMode::Implicit, 2, false),
        0x8A => instruction(Operation::Txa, AddrMode::Implicit, 2, false),
        0x8C => instruction(Operation::Sty, AddrMode::Absolute, 4, false),
        0x8D => instruction(Operation::Sta, AddrMode::Absolute, 4, false),
        0x8E => instruction(Operation::Stx, AddrMode::Absolute, 4, false),
        0x90 => instruction(Operation::Bcc, AddrMode::Relative, 2, false),
        0x91 => instruction(Operation::Sta, AddrMode::IndirectY, 6, false),
        0x94 => instruction(Operation::Sty, AddrMode::ZeropageX, 4, false),
        0x95 => instruction(Operation::Sta, AddrMode::ZeropageX, 4, false),
        0x96 => instruction(Operation::Stx, AddrMode::ZeropageY, 4, false),
        0x98 => instruction(Operation::Tya, AddrMode::Implicit, 2, false),
        0x99 => instruction(Operation::Sta, AddrMode::AbsoluteY, 5, false),
        0x9A => instruction(Operation::Txs, AddrMode::Implicit, 2, false),
        0x9D => instruction(Operation::Sta, AddrMode::AbsoluteX, 5, false),
        0xA0 => instruction(Operation::Ldy, AddrMode::Immediate, 2, false),
        0xA1 => instruction(Operation::Lda, AddrMode::IndirectX, 6, false),
        0xA2 => instruction(Operation::Ldx, AddrMode::Immediate, 2, false),
        0xA4 => instruction(Operation::Ldy, AddrMode::Zeropage, 3, false),
        0xA5 => instruction(Operation::Lda, AddrMode::Zeropage, 3, false),
        0xA6 => instruction(Operation::Ldx, AddrMode::Zeropage, 3, false),
        0xA8 => instruction(Operation::Tay, AddrMode::Implicit, 2, false),
        0xA9 => instruction(Operation::Lda, AddrMode::Immediate, 2, false),
        0xAA => instruction(Operation::Tax, AddrMode::Implicit, 2, false),
        0xAC => instruction(Operation::Ldy, AddrMode::Absolute, 4, false),
        0xAD => instruction(Operation::Lda, AddrMode::Absolute, 4, false),
        0xAE => instruction(Operation::Ldx, AddrMode::Absolute, 4, false),
        0xB0 => instruction(Operation::Bcs, AddrMode::Relative, 2, false),
        0xB1 => instruction(Operation::Lda, AddrMode::IndirectY, 5, true),
        0xB4 => instruction(Operation::Ldy, AddrMode::ZeropageX, 4, false),
        0xB5 => instruction(Operation::Lda, AddrMode::ZeropageX, 4, false),
        0xB6 => instruction(Operation::Ldx, AddrMode::ZeropageY, 4, false),
        0xB8 => instruction(Operation::Clv, AddrMode::Implicit, 2, false),
        0xB9 => instruction(Operation::Lda, AddrMode::AbsoluteY, 4, true),
        0xBA => instruction(Operation::Tsx, AddrMode::Implicit, 2, false),
        0xBC => instruction(Operation::Ldy, AddrMode::AbsoluteX, 4, true),
        0xBD => instruction(Operation::Lda, AddrMode::AbsoluteX, 4, true),
        0xBE => instruction(Operation::Ldx, AddrMode::AbsoluteY, 4, true),
        0xC0 => instruction(Operation::Cpy, AddrMode::Immediate, 2, false),
        0xC1 => instruction(Operation::Cmp, AddrMode::IndirectX, 6, false),
        0xC4 => instruction(Operation::Cpy, AddrMode::Zeropage, 3, false),
        0xC5 => instruction(Operation::Cmp, AddrMode::Zeropage, 3, false),
        0xC6 => instruction(Operation::Dec, AddrMode::Zeropage, 5, false),
        0xC8 => instruction(Operation::Iny, AddrMode::Implicit, 2, false),
        0xC9 => instruction(Operation::Cmp, AddrMode::Immediate, 2, false),
        0xCA => instruction(Operation::Dex, AddrMode::Implicit, 2, false),
        0xCC => instruction(Operation::Cpy, AddrMode::Absolute, 4, false),
        0xCD => instruction(Operation::Cmp, AddrMode::Absolute, 4, false),
        0xCE => instruction(Operation::Dec, AddrMode::Absolute, 6, false),
        0xD0 => instruction(Operation::Bne, AddrMode::Relative, 2, false),
        0xD1 => instruction(Operation::Cmp, AddrMode::IndirectY, 5, true),
        0xD5 => instruction(Operation::Cmp, AddrMode::ZeropageX, 4, false),
        0xD6 => instruction(Operation::Dec, AddrMode::ZeropageX, 6, false),
        0xD8 => instruction(Operation::Cld, AddrMode::Implicit, 2, false),
        0xD9 => instruction(Operation::Cmp, AddrMode::AbsoluteY, 4, true),
        0xDD => instruction(Operation::Cmp, AddrMode::AbsoluteX, 4, true),
        0xDE => instruction(Operation::Dec, AddrMode::AbsoluteX, 7, false),
        0xE0 => instruction(Operation::Cpx, AddrMode::Immediate, 2, false),
        0xE1 => instruction(Operation::Sbc, AddrMode::IndirectX, 6, false),
        0xE4 => instruction(Operation::Cpx, AddrMode::Zeropage, 3, false),
        0xE5 => instruction(Operation::Sbc, AddrMode::Zeropage, 3, false),
        0xE6 => instruction(Operation::Inc, AddrMode::Zeropage, 5, false),
        0xE8 => instruction(Operation::Inx, AddrMode::Implicit, 2, false),
        0xE9 => instruction(Operation::Sbc, AddrMode::Immediate, 2, false),
        0xEA => instruction(Operation::Nop, AddrMode::Implicit, 2, false),
        0xEC => instruction(Operation::Cpx, AddrMode::Absolute, 4, false),
        0xED => instruction(Operation::Sbc, AddrMode::Absolute, 4, false),
        0xEE => instruction(Operation::Inc, AddrMode::Absolute, 6, false),
        0xF0 => instruction(Operation::Beq, AddrMode::Relative, 2, false),
        0xF1 => instruction(Operation::Sbc, AddrMode::IndirectY, 5, true),
        0xF5 => instruction(Operation::Sbc, AddrMode::ZeropageX, 4, false),
        0xF6 => instruction(Operation::Inc, AddrMode::ZeropageX, 6, false),
        0xF8 => instruction(Operation::Sed, AddrMode::Implicit, 2, false),
        0xF9 => instruction(Operation::Sbc, AddrMode::AbsoluteY, 4, true),
        0xFD => instruction(Operation::Sbc, AddrMode::AbsoluteX, 4, true),
        0xFE => instruction(Operation::Inc, AddrMode::AbsoluteX, 7, false),
        _ => instruction(Operation::Undefined, AddrMode::Implicit, 1, false),
    }
}

fn instruction(operation: Operation, mode: AddrMode, cycles: u8, page_penalty: bool) -> (i:
    Instruction)
    ensures
        i == entry(operation, mode, cycles, page_penalty),
{
    Instruction { operation, mode, cycles, page_penalty }
}

/// Runs the instruction that `opcode` stands for, the opcode being read already: books
/// its cycles, notes whether page crossings cost, and does its work.
pub fn execute<T: Bus>(bus: &mut T, opcode: u8)
    requires
        old(bus).inv(),
    ensures
        performs(
            old(bus),
            final(bus),
            prepared(old(bus).mos(), decode(opcode)),
            decode(opcode).operation,
            decode(opcode).mode,
        ),
{
    let instruction = lookup(opcode);
    proof {
        reveal(performs);
        lemma_table_admits(opcode);
    }
    update_cycles(bus, instruction.cycles as i64);
    set_super_instruction(bus, instruction.page_penalty);
    run(bus, instruction.operation, instruction.mode);
}

/// Every opcode of the table runs its operation in a mode that the operation admits.
pub proof fn lemma_table_admits(opcode: u8)
    ensures
        admits(decode(opcode).operation, decode(opcode).mode),
{
}

/// The table gives every instruction the cycles of its accesses, the read of the
/// opcode counted in, and lets the instructions pay for page crossings that read
/// through an indexed address.
pub proof fn lemma_table_cost(opcode: u8)
    requires
        decode(opcode).operation != Operation::Undefined,
    ensures
        decode(opcode).cycles == plain_accesses(decode(opcode).operation, decode(opcode).mode) + 1,
        decode(opcode).page_penalty == pays(decode(opcode).operation, decode(opcode).mode),
{
    let i = decode(opcode);
    let goal = i.cycles == plain_accesses(i.operation, i.mode) + 1 && i.page_penalty == pays(
        i.operation,
        i.mode,
    );
    if opcode < 0x20 {
        assert(goal);
    } else if opcode < 0x40 {
        assert(goal);
    } else if opcode < 0x60 {
        assert(goal);
    } else if opcode < 0x80 {
        assert(goal);
    } else if opcode < 0xA0 {
        assert(goal);
    } else if opcode < 0xC0 {
        assert(goal);
    } else if opcode < 0xE0 {
        assert(goal);
    } else {
        assert(goal);
    }
}

/// Every instruction of the table takes as many cycles as it makes accesses, the
/// read of its opcode counted in: each cycle of the processor is one access.
pub proof fn lemma_cycle_per_access(opcode: u8, mos: Mos, t: Seq<Access>, n: int)
    requires
        decode(opcode).operation != Operation::Undefined,
    ensures
        ({
            let i = decode(opcode);
            let o = effect(i.operation, i.mode, prepared(mos, i), t, n);
            o.mos.cycles == delayed(mos, o.accesses.len() as int + 1).cycles
        }),
{
    let i = decode(opcode);
    lemma_table_cost(opcode);
    lemma_table_admits(opcode);
    lemma_effect_cost(i.operation, i.mode, prepared(mos, i), t, n);
    reveal(effect);
}

/// What entering an interrupt through the vector at `vector` does, for an interrupt
/// that the hardware raised: the program counter and the status byte go to the stack,
/// the status with bit 5 set and bit 4 clear, interrupts are disabled, the program
/// counter comes from the vector, and seven more cycles are owed.
pub open spec fn interrupt(mos: Mos, vector: u16, t: Seq<Access>, n: int) -> Outcome {
    let r = mos.registers;
    Outcome {
        accesses: seq![
            Access::Write { address: stack_at(r.sp, 0), byte: (r.pc / 256) as u8 },
            Access::Write { address: stack_at(r.sp, -1), byte: (r.pc % 256) as u8 },
            Access::Write { address: stack_at(r.sp, -2), byte: pushed_status(r.ps, false) },
            read_at(vector, t, n + 3),
            read_at(at(vector, 1), t, n + 4),
        ],
        mos: delayed(
            with_sp(
                with_registers(
                    mos,
                    Registers {
                        pc: word(seen(t, n + 4), seen(t, n + 3)) as u16,
                        ps: with_flag(r.ps, Flag::InterruptDisable, true),
                        ..r
                    },
                ),
                -3,
            ),
            7,
        ),
    }
}

/// The non-maskable interrupt: enters the handler whose address is at 0xFFFA.
pub fn nmi<T: Bus>(bus: &mut T)
    requires
        old(bus).inv(),
    ensures
        ({
            let o = interrupt(old(bus).mos(), 0xFFFA, final(bus).trace(), old(bus).trace().len() as int);
            &&& final(bus).trace() =~= old(bus).trace() + o.accesses
            &&& final(bus).mos() == o.mos
        }),
        final(bus).frozen() == old(bus).frozen(),
        final(bus).inv(),
{
    let (msb, lsb) = utils::split_bytes(get_pc(bus));
    let ps = get_ps(bus);
    write_to_stack(bus, msb);
    write_to_stack(bus, lsb);
    write_to_stack(bus, status_to_push(ps, false));
    let lsb = bus.read_byte(0xFFFA);
    let msb = bus.read_byte(0xFFFB);
    set_ps(bus, utils::p2(ps, true));
    set_pc(bus, utils::join_bytes(msb, lsb));
    update_cycles(bus, 7);
}

/// What a reset does: the program counter comes from the vector at 0xFFFC, the stack
/// pointer drops by three though nothing is stored, interrupts are disabled, and the
/// instruction in flight is replaced by the seven cycles of the reset, which are
/// outstanding.
pub open spec fn restart(mos: Mos, t: Seq<Access>, n: int) -> Outcome {
    let r = mos.registers;
    Outcome {
        accesses: seq![read_at(0xFFFC, t, n), read_at(0xFFFD, t, n + 1)],
        mos: Mos {
            cycles: 7,
            context: Context { complete: false, ..mos.context },
            ..with_sp(
                with_registers(
                    mos,
                    Registers {
                        pc: word(seen(t, n + 1), seen(t, n)) as u16,
                        ps: with_flag(r.ps, Flag::InterruptDisable, true),
                        ..r
                    },
                ),
                -3,
            )
        },
    }
}

/// Restarts the processor at the address that the reset vector holds.
pub fn reset<T: Bus>(bus: &mut T)
    requires
        old(bus).inv(),
    ensures
        ({
            let o = restart(old(bus).mos(), final(bus).trace(), old(bus).trace().len() as int);
            &&& final(bus).trace() =~= old(bus).trace() + o.accesses
            &&& final(bus).mos() == o.mos
        }),
        final(bus).frozen() == old(bus).frozen(),
        final(bus).inv(),
{
    let lsb = bus.read_byte(0xFFFC);
    let msb = bus.read_byte(0xFFFD);
    let mos = bus.fetch_mos();
    mos.registers.pc = utils::join_bytes(msb, lsb);
    mos.registers.sp = mos.registers.sp.wrapping_sub(3);
    mos.registers.ps = utils::p2(mos.registers.ps, true);
    mos.cycles = 7;
    mos.context.complete = false;
}

} // verus!
